//! The classification pipeline: the decisions of the background worker and
//! the projection of a ranked result onto the display list.
use vstd::prelude::*;
use crate::geometry::{Point, Stroke, stroke_views};

verus! {

/// How many entries of a ranked result the display list shows.
pub const MAX_SHOWN: usize = 25;

/// The display list for a ranked result: its first entries, at most
/// `MAX_SHOWN` of them, in the classifier's order.
pub open spec fn shown(ranked: Seq<String>) -> Seq<String> {
    if ranked.len() <= MAX_SHOWN {
        ranked
    } else {
        ranked.take(MAX_SHOWN as int)
    }
}

/// Replaces the display list by the first `MAX_SHOWN` entries of a ranked
/// result; the rest are dropped.
pub fn display_list(ranked: Vec<String>) -> (r: Vec<String>)
    ensures
        r@ == shown(ranked@),
{
    let mut r = ranked;
    if r.len() > MAX_SHOWN {
        r.truncate(MAX_SHOWN);
        assert(r@ =~= shown(ranked@));
    }
    r
}

/// Whether some stroke of a request has a point, so that a sample can be
/// built from it.
pub open spec fn has_ink(strokes: Seq<Seq<Point>>) -> bool {
    exists|i: int| 0 <= i < strokes.len() && #[trigger] strokes[i].len() > 0
}

/// Where the classification worker stands.
#[derive(Clone, Copy, Debug, PartialEq, Eq, Structural)]
pub enum WorkerState {
    /// Blocked on the request queue.
    Waiting,
    /// Running the classifier on the current request.
    Classifying,
    /// The request queue was closed and drained: the worker has exited.
    Stopped,
}

/// What the worker learns from the outside.
#[derive(Debug)]
pub enum WorkerEvent {
    /// A request arrived: the completed strokes of the drawing at submission.
    Request(Vec<Stroke>),
    /// The classifier finished: the ranked symbol ids, or nothing if it abstained.
    Classified(Option<Vec<String>>),
    /// The request queue was closed and holds nothing more.
    Closed,
}

/// What the worker does next.
#[derive(Debug)]
pub enum WorkerAction {
    /// Run the classifier on these strokes.
    Classify(Vec<Stroke>),
    /// Send this ranked result to the display, then wait for the next request.
    Reply(Vec<String>),
    /// Leave the loop; no channel is touched again.
    Exit,
}

/// The events that the worker can meet in each state.
pub open spec fn accepts(state: WorkerState, event: WorkerEvent) -> bool {
    match state {
        WorkerState::Waiting => event is Request || event is Closed,
        WorkerState::Classifying => event is Classified,
        WorkerState::Stopped => false,
    }
}

/// The worker's state after an event.
pub open spec fn next_state(event: WorkerEvent) -> WorkerState {
    match event {
        WorkerEvent::Request(strokes) => if has_ink(stroke_views(strokes@)) {
            WorkerState::Classifying
        } else {
            WorkerState::Waiting
        },
        WorkerEvent::Classified(_) => WorkerState::Waiting,
        WorkerEvent::Closed => WorkerState::Stopped,
    }
}

/// The answer the worker sends for a request without running the
/// classifier: an empty result when no stroke has a point, and none when the
/// request must be classified.
pub open spec fn direct_reply(strokes: Seq<Seq<Point>>) -> Option<Seq<String>> {
    if has_ink(strokes) {
        None
    } else {
        Some(Seq::empty())
    }
}

/// The ranked result that a classification yields: nothing if the classifier abstained.
pub open spec fn ranked_or_empty(result: Option<Vec<String>>) -> Seq<String> {
    match result {
        Some(ids) => ids@,
        None => Seq::empty(),
    }
}

/// Returns true iff some stroke has a point.
fn any_ink(strokes: &Vec<Stroke>) -> (r: bool)
    ensures
        r == has_ink(stroke_views(strokes@)),
{
    let mut i: usize = 0;
    while i < strokes.len()
        invariant
            i <= strokes@.len(),
            forall|j: int| 0 <= j < i ==> #[trigger] strokes@[j]@.len() == 0,
        decreases strokes@.len() - i,
    {
        if !strokes[i].is_empty() {
            assert(stroke_views(strokes@)[i as int].len() > 0);
            return true;
        }
        i = i + 1;
    }
    assert forall|j: int| 0 <= j < stroke_views(strokes@).len() implies #[trigger] stroke_views(
        strokes@,
    )[j].len() == 0 by {
        assert(stroke_views(strokes@)[j] == strokes@[j]@);
    }
    false
}

/// One step of the classification worker.
///
/// A request with no point to classify is answered at once with an empty
/// result; any other request goes to the classifier, whose result is sent on,
/// an abstention as an empty result. Once the queue is closed the worker
/// stops and accepts no further event.
pub fn worker_step(state: &mut WorkerState, event: WorkerEvent) -> (action: WorkerAction)
    requires
        accepts(*old(state), event),
    ensures
        *final(state) == next_state(event),
        event is Closed ==> action is Exit,
        event is Request ==> match direct_reply(stroke_views(event->Request_0@)) {
            None => action == WorkerAction::Classify(event->Request_0),
            Some(reply) => action is Reply && action->Reply_0@ == reply,
        },
        event is Classified ==> action is Reply && action->Reply_0@ == ranked_or_empty(
            event->Classified_0,
        ),
{
    match event {
        WorkerEvent::Request(strokes) => {
            if any_ink(&strokes) {
                *state = WorkerState::Classifying;
                WorkerAction::Classify(strokes)
            } else {
                *state = WorkerState::Waiting;
                WorkerAction::Reply(Vec::new())
            }
        },
        WorkerEvent::Classified(result) => {
            *state = WorkerState::Waiting;
            match result {
                Some(ids) => WorkerAction::Reply(ids),
                None => WorkerAction::Reply(Vec::new()),
            }
        },
        WorkerEvent::Closed => {
            *state = WorkerState::Stopped;
            WorkerAction::Exit
        },
    }
}

} // verus!
