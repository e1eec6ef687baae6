//! Facts that relate several operations of the library.
use vstd::prelude::*;
use crate::geometry::Point;
use crate::capture::DrawingModel;
use crate::render::{DrawOp, stroke_ops, strokes_ops, drawing_ops};
use crate::pipeline::{MAX_SHOWN, WorkerState, WorkerEvent, shown, direct_reply, next_state, accepts};

verus! {

/// A submission of no strokes is answered with an empty result, and an empty
/// result leaves the display list empty.
pub proof fn lemma_empty_submission_shows_nothing(strokes: Seq<Seq<Point>>)
    requires
        strokes.len() == 0,
    ensures
        direct_reply(strokes) == Some(Seq::<String>::empty()),
        shown(Seq::<String>::empty()) == Seq::<String>::empty(),
{
}

/// The display list never holds more than `MAX_SHOWN` entries, nor more than
/// the ranked result it was made from, and it is a prefix of that result.
pub proof fn lemma_display_bounded(ranked: Seq<String>)
    ensures
        shown(ranked).len() <= MAX_SHOWN,
        shown(ranked).len() <= ranked.len(),
        shown(ranked) == ranked.take(shown(ranked).len() as int),
{
    assert(ranked.take(ranked.len() as int) =~= ranked);
}

/// A stroke of one point paints as a single dot, and completing it after a
/// drag with no update appends exactly that dot to the drawing's commands.
pub proof fn lemma_single_point_stroke_is_dot(finalized: Seq<Seq<Point>>, p: Point)
    ensures
        stroke_ops(seq![p]) == seq![DrawOp::Dot { at: p }],
        drawing_ops(DrawingModel { finalized: finalized.push(seq![p]), current: Seq::empty() })
            == strokes_ops(finalized) + seq![DrawOp::Dot { at: p }],
{
    let done = finalized.push(seq![p]);
    assert(done.push(Seq::<Point>::empty()).drop_last() =~= done);
    assert(done.drop_last() =~= finalized);
    assert(stroke_ops(Seq::<Point>::empty()) =~= Seq::<DrawOp>::empty());
    assert(strokes_ops(done) + Seq::<DrawOp>::empty() =~= strokes_ops(done));
}

/// A drawing with no strokes, finished or in progress, paints nothing.
pub proof fn lemma_cleared_drawing_paints_nothing(m: DrawingModel)
    requires
        m.finalized.len() == 0,
        m.current.len() == 0,
    ensures
        drawing_ops(m) == Seq::<DrawOp>::empty(),
{
    let all = m.finalized.push(m.current);
    assert(all.drop_last() =~= m.finalized);
    assert(all.last() == m.current);
    assert(strokes_ops(m.finalized) == Seq::<DrawOp>::empty());
    assert(stroke_ops(m.current) =~= Seq::<DrawOp>::empty());
    assert(strokes_ops(all) == strokes_ops(all.drop_last()) + stroke_ops(all.last()));
    assert(Seq::<DrawOp>::empty() + Seq::<DrawOp>::empty() =~= Seq::<DrawOp>::empty());
}

/// Once the request queue is closed and drained, the worker stops, and a
/// stopped worker takes no further event: it exits exactly once.
pub proof fn lemma_worker_stops_once(event: WorkerEvent)
    ensures
        accepts(WorkerState::Waiting, WorkerEvent::Closed),
        next_state(WorkerEvent::Closed) == WorkerState::Stopped,
        !accepts(WorkerState::Stopped, event),
{
}

/// The worker takes no new request while it classifies one: each request that
/// goes to the classifier is answered, and the worker waits again, before the
/// next request is taken.
pub proof fn lemma_one_request_at_a_time(event: WorkerEvent)
    ensures
        event is Request ==> !accepts(WorkerState::Classifying, event),
        event is Closed ==> !accepts(WorkerState::Classifying, event),
        event is Classified ==> next_state(event) == WorkerState::Waiting,
        event is Request ==> accepts(WorkerState::Waiting, event),
{
}

} // verus!
