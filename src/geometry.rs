//! Points and strokes.
use vstd::prelude::*;

verus! {

/// A point on the canvas, in whole device units.
#[derive(Clone, Copy, Debug, PartialEq, Eq, Structural)]
pub struct Point {
    pub x: i64,
    pub y: i64,
}

impl Point {
    pub fn new(x: i64, y: i64) -> (r: Point)
        ensures
            r.x == x,
            r.y == y,
    {
        Point { x, y }
    }
}

/// One continuous pointer drag: the points in the order they were recorded.
#[derive(Debug)]
pub struct Stroke {
    points: Vec<Point>,
}

impl View for Stroke {
    type V = Seq<Point>;

    closed spec fn view(&self) -> Seq<Point> {
        self.points@
    }
}

/// The views of a list of strokes, one point sequence per stroke.
pub open spec fn stroke_views(strokes: Seq<Stroke>) -> Seq<Seq<Point>> {
    strokes.map_values(|s: Stroke| s@)
}

impl Stroke {
    /// A stroke with no points.
    pub fn empty() -> (r: Stroke)
        ensures
            r@ == Seq::<Point>::empty(),
    {
        Stroke { points: Vec::new() }
    }

    /// A stroke made of the given points, in order.
    pub fn new(points: Vec<Point>) -> (r: Stroke)
        ensures
            r@ == points@,
    {
        Stroke { points }
    }

    /// The points of the stroke, in order.
    pub fn points(&self) -> (r: &Vec<Point>)
        ensures
            r@ == self@,
    {
        &self.points
    }

    pub fn len(&self) -> (r: usize)
        ensures
            r == self@.len(),
    {
        self.points.len()
    }

    pub fn is_empty(&self) -> (r: bool)
        ensures
            r == (self@.len() == 0),
    {
        self.points.len() == 0
    }

    /// Appends one point at the end.
    pub fn add_point(&mut self, p: Point)
        ensures
            final(self)@ == old(self)@.push(p),
    {
        self.points.push(p);
    }

    /// Removes every point.
    pub fn clear(&mut self)
        ensures
            final(self)@ == Seq::<Point>::empty(),
    {
        self.points.clear();
    }

    /// A stroke with the same points.
    pub fn duplicate(&self) -> (r: Stroke)
        ensures
            r@ == self@,
    {
        let mut points: Vec<Point> = Vec::new();
        let mut i: usize = 0;
        while i < self.points.len()
            invariant
                i <= self.points@.len(),
                points@ == self.points@.take(i as int),
            decreases self.points@.len() - i,
        {
            points.push(self.points[i]);
            i = i + 1;
            assert(points@ =~= self.points@.take(i as int));
        }
        assert(points@ =~= self.points@);
        Stroke { points }
    }
}

/// Copies a list of strokes, keeping every stroke and its order.
pub fn duplicate_strokes(strokes: &Vec<Stroke>) -> (r: Vec<Stroke>)
    ensures
        stroke_views(r@) == stroke_views(strokes@),
{
    let mut out: Vec<Stroke> = Vec::new();
    let mut i: usize = 0;
    while i < strokes.len()
        invariant
            i <= strokes@.len(),
            out@.len() == i,
            forall|j: int| 0 <= j < i ==> #[trigger] out@[j]@ == strokes@[j]@,
        decreases strokes@.len() - i,
    {
        let s = strokes[i].duplicate();
        out.push(s);
        i = i + 1;
    }
    assert(stroke_views(out@) =~= stroke_views(strokes@));
    out
}

} // verus!
