//! The canvas renderer: the paint commands that draw a drawing from scratch.
use vstd::prelude::*;
use itertools::Itertools;
use crate::geometry::{Point, Stroke, stroke_views};
use crate::capture::{DrawingModel, DrawingState};

verus! {

/// One paint command, in canvas coordinates.
#[derive(Clone, Copy, Debug, PartialEq, Eq, Structural)]
pub enum DrawOp {
    /// A straight line from one point to another.
    Segment { from: Point, to: Point },
    /// A small filled circle around a point.
    Dot { at: Point },
}

/// The commands that paint one stroke: a dot for a single point, else one
/// segment between each pair of consecutive points.
pub open spec fn stroke_ops(s: Seq<Point>) -> Seq<DrawOp> {
    if s.len() == 1 {
        seq![DrawOp::Dot { at: s[0] }]
    } else if s.len() == 0 {
        Seq::empty()
    } else {
        Seq::new((s.len() - 1) as nat, |i: int| DrawOp::Segment { from: s[i], to: s[i + 1] })
    }
}

/// The commands that paint the strokes in order.
pub open spec fn strokes_ops(strokes: Seq<Seq<Point>>) -> Seq<DrawOp>
    decreases strokes.len(),
{
    if strokes.len() == 0 {
        Seq::empty()
    } else {
        strokes_ops(strokes.drop_last()) + stroke_ops(strokes.last())
    }
}

/// The commands that paint a drawing: its completed strokes, then the one in progress.
pub open spec fn drawing_ops(m: DrawingModel) -> Seq<DrawOp> {
    strokes_ops(m.finalized.push(m.current))
}

/// Each point paired with the one after it, in order.
pub open spec fn consecutive_pairs(s: Seq<Point>) -> Seq<(Point, Point)> {
    if s.len() < 2 {
        Seq::empty()
    } else {
        Seq::new((s.len() - 1) as nat, |i: int| (s[i], s[i + 1]))
    }
}

/// Relies on itertools' `Itertools::tuple_windows` over pairs: it yields each
/// element together with the next one, in order, and nothing for fewer than two.
#[verifier::external_body]
fn point_pairs(points: &Vec<Point>) -> (r: Vec<(Point, Point)>)
    ensures
        r@ == consecutive_pairs(points@),
{
    points.iter().copied().tuple_windows().collect()
}

/// Appends the commands that paint one stroke.
fn push_stroke_ops(s: &Stroke, out: &mut Vec<DrawOp>)
    ensures
        final(out)@ == old(out)@ + stroke_ops(s@),
{
    let points = s.points();
    let n = points.len();
    if n == 1 {
        out.push(DrawOp::Dot { at: points[0] });
        assert(final(out)@ =~= old(out)@ + stroke_ops(s@));
    } else if n > 1 {
        let pairs = point_pairs(points);
        let mut i: usize = 0;
        while i < pairs.len()
            invariant
                n == s@.len(),
                n > 1,
                pairs@ == consecutive_pairs(s@),
                i <= pairs@.len(),
                out@ == old(out)@ + stroke_ops(s@).take(i as int),
            decreases pairs@.len() - i,
        {
            let (from, to) = pairs[i];
            out.push(DrawOp::Segment { from, to });
            i = i + 1;
            assert(out@ =~= old(out)@ + stroke_ops(s@).take(i as int));
        }
        assert(stroke_ops(s@).take(i as int) =~= stroke_ops(s@));
    } else {
        assert(old(out)@ + stroke_ops(s@) =~= old(out)@);
    }
}

impl DrawingState {
    /// The commands that repaint the whole drawing: each completed stroke in
    /// order, then the stroke in progress.
    pub fn render(&self) -> (r: Vec<DrawOp>)
        ensures
            r@ == drawing_ops(self@),
    {
        let finalized = self.finalized();
        let mut out: Vec<DrawOp> = Vec::new();
        let mut i: usize = 0;
        while i < finalized.len()
            invariant
                i <= finalized@.len(),
                stroke_views(finalized@) == self@.finalized,
                out@ == strokes_ops(self@.finalized.take(i as int)),
            decreases finalized@.len() - i,
        {
            push_stroke_ops(&finalized[i], &mut out);
            i = i + 1;
            assert(self@.finalized.take(i as int).drop_last() =~= self@.finalized.take(i - 1));
        }
        assert(self@.finalized.take(i as int) =~= self@.finalized);
        push_stroke_ops(self.current(), &mut out);
        assert(self@.finalized.push(self@.current).drop_last() =~= self@.finalized);
        out
    }
}

} // verus!
