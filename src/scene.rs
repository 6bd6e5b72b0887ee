//! Replays a drained command queue into a scene description: filled
//! rectangles, filled paths and text labels, in the order they were drawn.
use vstd::prelude::*;

use crate::command::CommandEvent;

verus! {

/// One element of a filled path, kept in the order the guest gave it.
#[derive(Debug, Clone, PartialEq)]
pub enum PathSegment<C> {
    MoveTo { x: C, y: C },
    CubicBezierTo { x1: C, y1: C, x2: C, y2: C, x3: C, y3: C },
    Arc { x: C, y: C, radius: C, sweep_angle: C, x_rotation: C },
    Close,
}

/// Where the pending path stands within the current accumulation window.
#[derive(PartialEq, Eq, Structural, Clone, Copy, Debug)]
pub enum PathStatus {
    /// Nothing is pending.
    Empty,
    /// The pending path was opened by `BeginPath`; a `Fill` will emit it.
    Open,
    /// Segments arrived before any `BeginPath`; no `Fill` can emit them.
    Unopened,
}

/// A drawable primitive handed to the renderer.
#[derive(Debug, Clone, PartialEq)]
pub enum Primitive<C> {
    /// A filled rectangle, centred by the renderer's convention. `fill` is
    /// the last fill style set, or `None` for the default fill color.
    Rect { x: C, y: C, width: C, height: C, fill: Option<String> },
    /// A filled path. `arc_reference` is the width and height of the most
    /// recent rectangle of the same replay, against which `Arc` segments are
    /// placed; `None` when there was none (the renderer then uses -1 for both).
    Path { segments: Vec<PathSegment<C>>, arc_reference: Option<(C, C)>, fill: Option<String> },
    /// A text label.
    Label { text: String, x: C, y: C, size: C, color: String },
}

/// The mathematical value of a [`Primitive`].
pub enum Shape<C> {
    Rect { x: C, y: C, width: C, height: C, fill: Option<String> },
    Path { segments: Seq<PathSegment<C>>, arc_reference: Option<(C, C)>, fill: Option<String> },
    Label { text: String, x: C, y: C, size: C, color: String },
}

impl<C> View for Primitive<C> {
    type V = Shape<C>;

    open spec fn view(&self) -> Shape<C> {
        match self {
            Primitive::Rect { x, y, width, height, fill } => Shape::Rect {
                x: *x,
                y: *y,
                width: *width,
                height: *height,
                fill: *fill,
            },
            Primitive::Path { segments, arc_reference, fill } => Shape::Path {
                segments: segments@,
                arc_reference: *arc_reference,
                fill: *fill,
            },
            Primitive::Label { text, x, y, size, color } => Shape::Label {
                text: *text,
                x: *x,
                y: *y,
                size: *size,
                color: *color,
            },
        }
    }
}

/// The values of a sequence of primitives.
pub open spec fn shapes_of<C>(primitives: Seq<Primitive<C>>) -> Seq<Shape<C>> {
    primitives.map_values(|p: Primitive<C>| p@)
}

/// Warning positions as integers.
pub open spec fn indices_of(warnings: Seq<usize>) -> Seq<int> {
    warnings.map_values(|i: usize| i as int)
}

/// The state of a replay: the path accumulator, and what has been emitted.
pub struct ReplayModel<C> {
    /// The fill style set since the last emitted shape, if any.
    pub fill: Option<String>,
    pub status: PathStatus,
    /// The segments of the pending path.
    pub segments: Seq<PathSegment<C>>,
    /// Width and height of the most recent rectangle.
    pub rect_size: Option<(C, C)>,
    pub shapes: Seq<Shape<C>>,
    /// The index, in the drained queue, of each `Fill` that had no open path.
    pub warnings: Seq<int>,
}

pub open spec fn initial_model<C>() -> ReplayModel<C> {
    ReplayModel {
        fill: None,
        status: PathStatus::Empty,
        segments: Seq::empty(),
        rect_size: None,
        shapes: Seq::empty(),
        warnings: Seq::empty(),
    }
}

pub open spec fn add_segment<C>(m: ReplayModel<C>, g: PathSegment<C>) -> ReplayModel<C> {
    ReplayModel {
        status: if m.status == PathStatus::Empty {
            PathStatus::Unopened
        } else {
            m.status
        },
        segments: m.segments.push(g),
        ..m
    }
}

/// The replay after event `e`, found at position `index` of the queue.
pub open spec fn step<C>(m: ReplayModel<C>, e: CommandEvent<C>, index: int) -> ReplayModel<C> {
    match e {
        CommandEvent::FillStyle { color } => ReplayModel { fill: Some(color), ..m },
        CommandEvent::FillRect { x, y, width, height } => ReplayModel {
            fill: None,
            rect_size: Some((width, height)),
            shapes: m.shapes.push(Shape::Rect { x, y, width, height, fill: m.fill }),
            ..m
        },
        CommandEvent::BeginPath => ReplayModel {
            status: if m.status == PathStatus::Empty {
                PathStatus::Open
            } else {
                m.status
            },
            ..m
        },
        CommandEvent::MoveTo { x, y } => add_segment(m, PathSegment::MoveTo { x, y }),
        CommandEvent::CubicBezierTo { x1, y1, x2, y2, x3, y3 } => add_segment(
            m,
            PathSegment::CubicBezierTo { x1, y1, x2, y2, x3, y3 },
        ),
        CommandEvent::Arc { x, y, radius, sweep_angle, x_rotation } => add_segment(
            m,
            PathSegment::Arc { x, y, radius, sweep_angle, x_rotation },
        ),
        CommandEvent::ClosePath => add_segment(m, PathSegment::Close),
        CommandEvent::Fill => if m.status == PathStatus::Open {
            ReplayModel {
                fill: None,
                status: PathStatus::Empty,
                segments: Seq::empty(),
                shapes: m.shapes.push(
                    Shape::Path { segments: m.segments, arc_reference: m.rect_size, fill: m.fill },
                ),
                ..m
            }
        } else {
            ReplayModel { warnings: m.warnings.push(index), ..m }
        },
        CommandEvent::Label { text, x, y, size, color } => ReplayModel {
            shapes: m.shapes.push(Shape::Label { text, x, y, size, color }),
            ..m
        },
    }
}

/// The replay of a whole drained queue, from a fresh accumulator.
pub open spec fn replay<C>(events: Seq<CommandEvent<C>>) -> ReplayModel<C>
    decreases events.len(),
{
    if events.len() == 0 {
        initial_model()
    } else {
        step(replay(events.drop_last()), events.last(), events.len() - 1)
    }
}

/// What one replay hands to the renderer, rebuilt from scratch each tick.
#[derive(Debug, Clone, PartialEq)]
pub struct SceneDescription<C> {
    pub primitives: Vec<Primitive<C>>,
    /// The queue index of each `Fill` that was dropped for want of a
    /// preceding `BeginPath`.
    pub warnings: Vec<usize>,
}

/// Path accumulator and emitted primitives of one replay in progress.
pub struct SceneBuilder<C> {
    fill: Option<String>,
    status: PathStatus,
    segments: Vec<PathSegment<C>>,
    rect_size: Option<(C, C)>,
    primitives: Vec<Primitive<C>>,
    warnings: Vec<usize>,
}

impl<C> View for SceneBuilder<C> {
    type V = ReplayModel<C>;

    closed spec fn view(&self) -> ReplayModel<C> {
        ReplayModel {
            fill: self.fill,
            status: self.status,
            segments: self.segments@,
            rect_size: self.rect_size,
            shapes: shapes_of(self.primitives@),
            warnings: indices_of(self.warnings@),
        }
    }
}

impl<C: Copy> SceneBuilder<C> {
    pub fn new() -> (r: Self)
        ensures
            r@ == initial_model::<C>(),
    {
        let r = SceneBuilder {
            fill: None,
            status: PathStatus::Empty,
            segments: Vec::new(),
            rect_size: None,
            primitives: Vec::new(),
            warnings: Vec::new(),
        };
        assert(shapes_of(r.primitives@) =~= Seq::<Shape<C>>::empty());
        assert(indices_of(r.warnings@) =~= Seq::<int>::empty());
        r
    }

    fn emit(&mut self, p: Primitive<C>)
        ensures
            final(self)@ == (ReplayModel { shapes: old(self)@.shapes.push(p@), ..old(self)@ }),
    {
        self.primitives.push(p);
        assert(shapes_of(self.primitives@) =~= shapes_of(old(self).primitives@).push(p@));
    }

    fn add_segment(&mut self, g: PathSegment<C>)
        ensures
            final(self)@ == add_segment(old(self)@, g),
    {
        if self.status == PathStatus::Empty {
            self.status = PathStatus::Unopened;
        }
        self.segments.push(g);
    }

    /// Applies the event found at position `index` of the drained queue.
    pub fn apply(&mut self, e: CommandEvent<C>, index: usize)
        ensures
            final(self)@ == step(old(self)@, e, index as int),
    {
        match e {
            CommandEvent::FillStyle { color } => {
                self.fill = Some(color);
            },
            CommandEvent::FillRect { x, y, width, height } => {
                let fill = self.fill.take();
                self.rect_size = Some((width, height));
                self.emit(Primitive::Rect { x, y, width, height, fill });
            },
            CommandEvent::BeginPath => {
                if self.status == PathStatus::Empty {
                    self.status = PathStatus::Open;
                }
            },
            CommandEvent::MoveTo { x, y } => {
                self.add_segment(PathSegment::MoveTo { x, y });
            },
            CommandEvent::CubicBezierTo { x1, y1, x2, y2, x3, y3 } => {
                self.add_segment(PathSegment::CubicBezierTo { x1, y1, x2, y2, x3, y3 });
            },
            CommandEvent::Arc { x, y, radius, sweep_angle, x_rotation } => {
                self.add_segment(PathSegment::Arc { x, y, radius, sweep_angle, x_rotation });
            },
            CommandEvent::ClosePath => {
                self.add_segment(PathSegment::Close);
            },
            CommandEvent::Fill => {
                if self.status == PathStatus::Open {
                    let mut segments: Vec<PathSegment<C>> = Vec::new();
                    std::mem::swap(&mut segments, &mut self.segments);
                    let fill = self.fill.take();
                    self.status = PathStatus::Empty;
                    let arc_reference = self.rect_size;
                    self.emit(Primitive::Path { segments, arc_reference, fill });
                } else {
                    self.warnings.push(index);
                    assert(indices_of(self.warnings@) =~= indices_of(old(self).warnings@).push(
                        index as int,
                    ));
                }
            },
            CommandEvent::Label { text, x, y, size, color } => {
                self.emit(Primitive::Label { text, x, y, size, color });
            },
        }
    }

    /// Hands out what was emitted; a pending path that was never filled is
    /// dropped.
    pub fn finish(self) -> (r: SceneDescription<C>)
        ensures
            shapes_of(r.primitives@) == self@.shapes,
            indices_of(r.warnings@) == self@.warnings,
    {
        SceneDescription { primitives: self.primitives, warnings: self.warnings }
    }
}

/// The items of `v` in reverse order.
fn reversed<T>(v: Vec<T>) -> (r: Vec<T>)
    ensures
        r@.len() == v@.len(),
        forall|j: int| 0 <= j < v@.len() ==> r@[j] == v@[v@.len() - 1 - j],
{
    let ghost orig = v@;
    let mut v = v;
    let mut r: Vec<T> = Vec::new();
    while v.len() > 0
        invariant
            v@ == orig.subrange(0, v@.len() as int),
            r@.len() + v@.len() == orig.len(),
            forall|j: int| 0 <= j < r@.len() ==> r@[j] == orig[orig.len() - 1 - j],
        decreases v@.len(),
    {
        let x = v.pop().unwrap();
        r.push(x);
    }
    r
}

/// Replays a drained queue, in queue order, into a fresh scene description.
pub fn build_scene<C: Copy>(events: Vec<CommandEvent<C>>) -> (r: SceneDescription<C>)
    ensures
        shapes_of(r.primitives@) == replay(events@).shapes,
        indices_of(r.warnings@) == replay(events@).warnings,
{
    let ghost all = events@;
    let n = events.len();
    let mut pending = reversed(events);
    let mut builder = SceneBuilder::new();
    let mut i: usize = 0;
    assert(all.subrange(0, 0) =~= Seq::<CommandEvent<C>>::empty());
    while pending.len() > 0
        invariant
            n == all.len(),
            i + pending@.len() == n,
            forall|j: int| 0 <= j < pending@.len() ==> pending@[j] == all[n - 1 - j],
            builder@ == replay(all.subrange(0, i as int)),
        decreases pending@.len(),
    {
        let e = pending.pop().unwrap();
        assert(all.subrange(0, i + 1).drop_last() =~= all.subrange(0, i as int));
        builder.apply(e, i);
        i = i + 1;
    }
    assert(all.subrange(0, n as int) =~= all);
    builder.finish()
}

/// A window with nothing pending has no pending segments.
pub proof fn lemma_empty_status_has_no_segments<C>(events: Seq<CommandEvent<C>>)
    ensures
        replay(events).status == PathStatus::Empty ==> replay(events).segments.len() == 0,
    decreases events.len(),
{
    if events.len() > 0 {
        lemma_empty_status_has_no_segments(events.drop_last());
    }
}

/// Where no path is pending, `BeginPath` directly followed by `Fill` emits one
/// path with no segments, painted with the fill style in effect, raises no
/// warning, and leaves nothing pending and no fill style set.
pub proof fn lemma_empty_path_is_filled<C>(prefix: Seq<CommandEvent<C>>)
    requires
        replay(prefix).status == PathStatus::Empty,
    ensures
        ({
            let before = replay(prefix);
            let after = replay(prefix.push(CommandEvent::BeginPath).push(CommandEvent::Fill));
            &&& after.shapes == before.shapes.push(
                Shape::Path {
                    segments: Seq::empty(),
                    arc_reference: before.rect_size,
                    fill: before.fill,
                },
            )
            &&& after.warnings == before.warnings
            &&& after.fill is None
            &&& after.status == PathStatus::Empty
        }),
{
    lemma_empty_status_has_no_segments(prefix);
    let opened = prefix.push(CommandEvent::BeginPath);
    assert(opened.drop_last() =~= prefix);
    assert(opened.push(CommandEvent::Fill).drop_last() =~= opened);
    assert(replay(prefix).segments =~= Seq::<PathSegment<C>>::empty());
    assert(replay(opened) == step(replay(prefix), CommandEvent::BeginPath, prefix.len() as int));
    assert(replay(opened).status == PathStatus::Open);
    assert(replay(opened.push(CommandEvent::Fill)) == step(
        replay(opened),
        CommandEvent::Fill,
        opened.len() as int,
    ));
}

/// A `Fill` while no path was opened by `BeginPath` emits nothing, raises
/// exactly one warning, at that `Fill`'s position, and changes nothing else.
pub proof fn lemma_fill_without_begin_warns<C>(prefix: Seq<CommandEvent<C>>)
    requires
        replay(prefix).status != PathStatus::Open,
    ensures
        replay(prefix.push(CommandEvent::Fill)) == (ReplayModel {
            warnings: replay(prefix).warnings.push(prefix.len() as int),
            ..replay(prefix)
        }),
{
    assert(prefix.push(CommandEvent::Fill).drop_last() =~= prefix);
}

/// `FillRect` emits one rectangle with the fill style in effect, consumes
/// that style and becomes the reference for arcs; a second `FillRect` right
/// after it is painted with the default fill.
pub proof fn lemma_fill_rect_consumes_fill<C>(
    prefix: Seq<CommandEvent<C>>,
    first: (C, C, C, C),
    second: (C, C, C, C),
)
    ensures
        ({
            let before = replay(prefix);
            let one = prefix.push(
                CommandEvent::FillRect { x: first.0, y: first.1, width: first.2, height: first.3 },
            );
            let two = one.push(
                CommandEvent::FillRect {
                    x: second.0,
                    y: second.1,
                    width: second.2,
                    height: second.3,
                },
            );
            &&& replay(one) == (ReplayModel {
                fill: None,
                rect_size: Some((first.2, first.3)),
                shapes: before.shapes.push(
                    Shape::Rect {
                        x: first.0,
                        y: first.1,
                        width: first.2,
                        height: first.3,
                        fill: before.fill,
                    },
                ),
                ..before
            })
            &&& replay(two).shapes == replay(one).shapes.push(
                Shape::Rect { x: second.0, y: second.1, width: second.2, height: second.3, fill: None },
            )
        }),
{
    let one = prefix.push(
        CommandEvent::FillRect { x: first.0, y: first.1, width: first.2, height: first.3 },
    );
    let two = one.push(
        CommandEvent::FillRect { x: second.0, y: second.1, width: second.2, height: second.3 },
    );
    assert(one.drop_last() =~= prefix);
    assert(two.drop_last() =~= one);
}

} // verus!
