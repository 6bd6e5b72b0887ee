//! The host command interface: the only channel through which a guest can
//! affect what is drawn. Every call appends one event to an ordered queue.
use vstd::prelude::*;

verus! {

/// One drawing command recorded from a guest call.
#[derive(Debug, Clone, PartialEq)]
pub enum CommandEvent<C> {
    Label { text: String, x: C, y: C, size: C, color: String },
    FillStyle { color: String },
    FillRect { x: C, y: C, width: C, height: C },
    MoveTo { x: C, y: C },
    CubicBezierTo { x1: C, y1: C, x2: C, y2: C, x3: C, y3: C },
    BeginPath,
    Arc { x: C, y: C, radius: C, sweep_angle: C, x_rotation: C },
    ClosePath,
    Fill,
}

/// The queue after one more event has been recorded.
pub open spec fn enqueue<C>(queue: Seq<CommandEvent<C>>, e: CommandEvent<C>) -> Seq<CommandEvent<C>> {
    queue.push(e)
}

/// The queue after recording each of `events`, in order.
pub open spec fn enqueue_all<C>(queue: Seq<CommandEvent<C>>, events: Seq<CommandEvent<C>>) -> Seq<CommandEvent<C>>
    decreases events.len(),
{
    if events.len() == 0 {
        queue
    } else {
        enqueue(enqueue_all(queue, events.drop_last()), events.last())
    }
}

/// What draining a queue hands out, and the queue left behind.
pub open spec fn drained<C>(queue: Seq<CommandEvent<C>>) -> (Seq<CommandEvent<C>>, Seq<CommandEvent<C>>) {
    (queue, Seq::empty())
}

/// Records the commands of one guest instance, in call order.
#[derive(Debug)]
pub struct CommandRecorder<C> {
    queue: Vec<CommandEvent<C>>,
}

impl<C> View for CommandRecorder<C> {
    type V = Seq<CommandEvent<C>>;

    closed spec fn view(&self) -> Seq<CommandEvent<C>> {
        self.queue@
    }
}

impl<C> CommandRecorder<C> {
    /// A recorder with an empty queue, as made for each fresh instance.
    pub fn new() -> (r: Self)
        ensures
            r@ == Seq::<CommandEvent<C>>::empty(),
    {
        CommandRecorder { queue: Vec::new() }
    }

    /// Number of events waiting in the queue.
    pub fn len(&self) -> (r: usize)
        ensures
            r == self@.len(),
    {
        self.queue.len()
    }

    /// Appends one event; the guest never sees a failure.
    pub fn record(&mut self, e: CommandEvent<C>)
        ensures
            final(self)@ == enqueue(old(self)@, e),
    {
        self.queue.push(e);
    }

    pub fn fill_style(&mut self, color: String)
        ensures
            final(self)@ == enqueue(old(self)@, CommandEvent::FillStyle { color }),
    {
        self.record(CommandEvent::FillStyle { color });
    }

    pub fn fill_rect(&mut self, x: C, y: C, width: C, height: C)
        ensures
            final(self)@ == enqueue(old(self)@, CommandEvent::FillRect { x, y, width, height }),
    {
        self.record(CommandEvent::FillRect { x, y, width, height });
    }

    pub fn begin_path(&mut self)
        ensures
            final(self)@ == enqueue(old(self)@, CommandEvent::<C>::BeginPath),
    {
        self.record(CommandEvent::BeginPath);
    }

    pub fn arc(&mut self, x: C, y: C, radius: C, sweep_angle: C, x_rotation: C)
        ensures
            final(self)@ == enqueue(
                old(self)@,
                CommandEvent::Arc { x, y, radius, sweep_angle, x_rotation },
            ),
    {
        self.record(CommandEvent::Arc { x, y, radius, sweep_angle, x_rotation });
    }

    pub fn close_path(&mut self)
        ensures
            final(self)@ == enqueue(old(self)@, CommandEvent::<C>::ClosePath),
    {
        self.record(CommandEvent::ClosePath);
    }

    pub fn fill(&mut self)
        ensures
            final(self)@ == enqueue(old(self)@, CommandEvent::<C>::Fill),
    {
        self.record(CommandEvent::Fill);
    }

    pub fn move_to(&mut self, x: C, y: C)
        ensures
            final(self)@ == enqueue(old(self)@, CommandEvent::MoveTo { x, y }),
    {
        self.record(CommandEvent::MoveTo { x, y });
    }

    pub fn cubic_bezier_to(&mut self, x1: C, y1: C, x2: C, y2: C, x3: C, y3: C)
        ensures
            final(self)@ == enqueue(
                old(self)@,
                CommandEvent::CubicBezierTo { x1, y1, x2, y2, x3, y3 },
            ),
    {
        self.record(CommandEvent::CubicBezierTo { x1, y1, x2, y2, x3, y3 });
    }

    pub fn label(&mut self, text: String, x: C, y: C, size: C, color: String)
        ensures
            final(self)@ == enqueue(old(self)@, CommandEvent::Label { text, x, y, size, color }),
    {
        self.record(CommandEvent::Label { text, x, y, size, color });
    }

    /// Moves every queued event out, in the order recorded, and leaves the
    /// queue empty.
    pub fn drain(&mut self) -> (r: Vec<CommandEvent<C>>)
        ensures
            (r@, final(self)@) == drained(old(self)@),
    {
        let mut out: Vec<CommandEvent<C>> = Vec::new();
        std::mem::swap(&mut out, &mut self.queue);
        out
    }
}

/// Recording events one after another into an empty queue, then draining it,
/// hands back exactly those events in call order and leaves the queue empty.
pub proof fn lemma_drain_returns_events_in_order<C>(events: Seq<CommandEvent<C>>)
    ensures
        drained(enqueue_all(Seq::empty(), events)) == (events, Seq::<CommandEvent<C>>::empty()),
    decreases events.len(),
{
    if events.len() > 0 {
        lemma_drain_returns_events_in_order(events.drop_last());
        assert(events.drop_last().push(events.last()) =~= events);
    }
}

} // verus!
