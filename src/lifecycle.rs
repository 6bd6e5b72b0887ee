//! Drives the active guest instance: `setup` once after each successful load,
//! `update` on every tick, and atomic replacement when a new load completes.
use vstd::prelude::*;

use crate::artifact::{brotli_decoded, decoded_artifact, ArtifactError};

verus! {

/// The lifecycle of the single active guest instance `I`.
#[derive(Debug)]
pub enum Lifecycle<I> {
    /// No guest has been loaded yet.
    Uninitialized,
    /// `first_run` holds until `setup` has been called on `instance`.
    Running { instance: I, first_run: bool },
}

/// What the tick loop must call on the active instance this tick.
#[derive(PartialEq, Eq, Structural, Clone, Copy, Debug)]
pub enum TickAction {
    /// There is no instance: call nothing.
    Idle,
    /// Call `setup`, then `update`.
    SetupThenUpdate,
    /// Call `update` only.
    Update,
}

/// The lifecycle after a load attempt completes: a new instance replaces the
/// active one, if any, and starts afresh; a failure changes nothing.
pub open spec fn after_load<I>(s: Lifecycle<I>, outcome: Result<I, ArtifactError>) -> Lifecycle<I> {
    match outcome {
        Ok(instance) => Lifecycle::Running { instance, first_run: true },
        Err(_) => s,
    }
}

pub open spec fn tick_action<I>(s: Lifecycle<I>) -> TickAction {
    match s {
        Lifecycle::Uninitialized => TickAction::Idle,
        Lifecycle::Running { first_run, .. } => if first_run {
            TickAction::SetupThenUpdate
        } else {
            TickAction::Update
        },
    }
}

/// The lifecycle after one tick. A failing guest call changes nothing here:
/// the instance stays until a later load replaces it.
pub open spec fn after_tick<I>(s: Lifecycle<I>) -> Lifecycle<I> {
    match s {
        Lifecycle::Uninitialized => Lifecycle::Uninitialized,
        Lifecycle::Running { instance, .. } => Lifecycle::Running { instance, first_run: false },
    }
}

impl<I> Lifecycle<I> {
    pub fn new() -> (r: Self)
        ensures
            r == Lifecycle::<I>::Uninitialized,
    {
        Lifecycle::Uninitialized
    }

    /// Applies a completed load attempt, dropping the instance it replaces.
    /// A failure is handed back for the caller to report.
    pub fn apply_load(&mut self, outcome: Result<I, ArtifactError>) -> (r: Option<ArtifactError>)
        ensures
            *final(self) == after_load(*old(self), outcome),
            match outcome {
                Ok(_) => r is None,
                Err(e) => r == Some(e),
            },
    {
        match outcome {
            Ok(instance) => {
                *self = Lifecycle::Running { instance, first_run: true };
                None
            },
            Err(e) => Some(e),
        }
    }

    /// Decides which guest entry points this tick calls, and records that
    /// `setup` has been called.
    pub fn tick(&mut self) -> (r: TickAction)
        ensures
            r == tick_action(*old(self)),
            *final(self) == after_tick(*old(self)),
    {
        match self {
            Lifecycle::Uninitialized => TickAction::Idle,
            Lifecycle::Running { first_run, .. } => {
                if *first_run {
                    *first_run = false;
                    TickAction::SetupThenUpdate
                } else {
                    TickAction::Update
                }
            },
        }
    }
}

/// The first successful load starts the instance with `first_run` set; the
/// next tick calls `setup` then `update` and clears it; the tick after calls
/// `update` only.
pub proof fn lemma_first_load_then_ticks<I>(instance: I)
    ensures
        ({
            let loaded = after_load(Lifecycle::Uninitialized, Ok(instance));
            let ticked = after_tick(loaded);
            &&& loaded == Lifecycle::Running { instance, first_run: true }
            &&& tick_action(loaded) == TickAction::SetupThenUpdate
            &&& ticked == Lifecycle::Running { instance, first_run: false }
            &&& tick_action(ticked) == TickAction::Update
            &&& after_tick(ticked) == ticked
        }),
{
}

/// Two loads applied in the order they complete leave the later one's
/// instance active, starting afresh, whatever was active before.
pub proof fn lemma_last_applied_load_wins<I>(s: Lifecycle<I>, first: I, second: I)
    ensures
        after_load(after_load(s, Ok(first)), Ok(second)) == (Lifecycle::Running {
            instance: second,
            first_run: true,
        }),
{
}

/// A payload that is not a complete brotli stream fails with a decode error,
/// and applying that failure leaves the active instance, and what each tick
/// does with it, exactly as before.
pub proof fn lemma_malformed_artifact_keeps_instance<I>(s: Lifecycle<I>, payload: Seq<u8>)
    requires
        brotli_decoded(payload) is None,
    ensures
        decoded_artifact(payload) == Err::<Seq<u8>, ArtifactError>(ArtifactError::Decode),
        after_load(s, Err(ArtifactError::Decode)) == s,
        tick_action(after_load(s, Err(ArtifactError::Decode))) == tick_action(s),
        after_tick(after_load(s, Err(ArtifactError::Decode))) == after_tick(s),
{
}

} // verus!
