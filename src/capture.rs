//! The drawing state and the state machine that turns pointer drags into strokes.
use vstd::prelude::*;
use crate::geometry::{Point, Stroke, stroke_views, duplicate_strokes};

verus! {

/// What a drawing holds, as mathematical values.
pub ghost struct DrawingModel {
    /// The completed strokes, oldest first.
    pub finalized: Seq<Seq<Point>>,
    /// The stroke being drawn; empty when no drag is active.
    pub current: Seq<Point>,
}

impl DrawingModel {
    /// A drag is active exactly when the in-progress stroke has a point.
    pub open spec fn capturing(self) -> bool {
        self.current.len() > 0
    }

    /// The first point of the in-progress stroke, against which drag updates are resolved.
    pub open spec fn anchor(self) -> Point {
        self.current[0]
    }

    /// No completed stroke is empty.
    pub open spec fn wf(self) -> bool {
        forall|i: int| 0 <= i < self.finalized.len() ==> #[trigger] self.finalized[i].len() > 0
    }
}

/// The strokes of one drawing: those completed and the one in progress.
#[derive(Debug)]
pub struct DrawingState {
    finalized: Vec<Stroke>,
    current: Stroke,
}

impl View for DrawingState {
    type V = DrawingModel;

    closed spec fn view(&self) -> DrawingModel {
        DrawingModel { finalized: stroke_views(self.finalized@), current: self.current@ }
    }
}

impl DrawingState {
    /// An empty drawing with no active drag.
    pub fn new() -> (r: DrawingState)
        ensures
            r@.finalized == Seq::<Seq<Point>>::empty(),
            r@.current == Seq::<Point>::empty(),
            r@.wf(),
    {
        let r = DrawingState { finalized: Vec::new(), current: Stroke::empty() };
        assert(r@.finalized =~= Seq::<Seq<Point>>::empty());
        r
    }

    /// The completed strokes, oldest first.
    pub fn finalized(&self) -> (r: &Vec<Stroke>)
        ensures
            stroke_views(r@) == self@.finalized,
    {
        &self.finalized
    }

    /// The stroke being drawn.
    pub fn current(&self) -> (r: &Stroke)
        ensures
            r@ == self@.current,
    {
        &self.current
    }

    /// Whether a drag is active.
    pub fn is_capturing(&self) -> (r: bool)
        ensures
            r == self@.capturing(),
    {
        !self.current.is_empty()
    }

    /// A drag begins at `p`: the in-progress stroke becomes exactly `p`, its anchor.
    pub fn handle_drag_begin(&mut self, p: Point)
        requires
            !old(self)@.capturing(),
        ensures
            final(self)@.current == seq![p],
            final(self)@.finalized == old(self)@.finalized,
            final(self)@.capturing(),
            final(self)@.anchor() == p,
    {
        self.current.add_point(p);
        assert(self@.current =~= seq![p]);
    }

    /// A drag moves by `(dx, dy)` from its anchor: the point `anchor + (dx, dy)` is appended.
    ///
    /// The offset is always taken from the anchor, never from the previous point.
    pub fn handle_drag_update(&mut self, dx: i64, dy: i64)
        requires
            old(self)@.capturing(),
            i64::MIN <= old(self)@.anchor().x + dx <= i64::MAX,
            i64::MIN <= old(self)@.anchor().y + dy <= i64::MAX,
        ensures
            final(self)@.current == old(self)@.current.push(
                Point { x: (old(self)@.anchor().x + dx) as i64, y: (old(self)@.anchor().y + dy) as i64 },
            ),
            final(self)@.finalized == old(self)@.finalized,
            final(self)@.anchor() == old(self)@.anchor(),
    {
        let anchor = self.current.points()[0];
        let p = Point { x: anchor.x + dx, y: anchor.y + dy };
        self.current.add_point(p);
    }

    /// The drag ends: the in-progress stroke is appended, unchanged, to the
    /// completed strokes and cleared. Returns the copy of every completed stroke
    /// that is to be classified.
    pub fn handle_drag_end(&mut self) -> (request: Vec<Stroke>)
        requires
            old(self)@.capturing(),
            old(self)@.wf(),
        ensures
            final(self)@.finalized == old(self)@.finalized.push(old(self)@.current),
            final(self)@.current == Seq::<Point>::empty(),
            final(self)@.wf(),
            stroke_views(request@) == final(self)@.finalized,
    {
        let mut stroke = Stroke::empty();
        std::mem::swap(&mut stroke, &mut self.current);
        let ghost prev = self.finalized@;
        self.finalized.push(stroke);
        assert(stroke_views(self.finalized@) =~= stroke_views(prev).push(old(self)@.current));
        duplicate_strokes(&self.finalized)
    }

    /// Removes every stroke, completed and in progress.
    pub fn reset(&mut self)
        ensures
            final(self)@.finalized == Seq::<Seq<Point>>::empty(),
            final(self)@.current == Seq::<Point>::empty(),
            final(self)@.wf(),
    {
        self.finalized.clear();
        self.current.clear();
        assert(self@.finalized =~= Seq::<Seq<Point>>::empty());
    }
}

} // verus!
