use tex_match::capture::DrawingState;
use tex_match::geometry::{duplicate_strokes, Point, Stroke};
use tex_match::pipeline::{display_list, worker_step, WorkerAction, WorkerEvent, WorkerState, MAX_SHOWN};
use tex_match::render::DrawOp;

fn p(x: i64, y: i64) -> Point {
    Point::new(x, y)
}

fn ids(names: &[&str]) -> Vec<String> {
    names.iter().map(|s| s.to_string()).collect()
}

fn draw(state: &mut DrawingState, start: Point, deltas: &[(i64, i64)]) -> Vec<Stroke> {
    state.handle_drag_begin(start);
    for &(dx, dy) in deltas {
        state.handle_drag_update(dx, dy);
    }
    state.handle_drag_end()
}

fn reply_of(action: WorkerAction) -> Vec<String> {
    match action {
        WorkerAction::Reply(r) => r,
        other => panic!("expected a reply, got {:?}", other),
    }
}

#[test]
fn drag_update_is_relative_to_anchor() {
    let mut st = DrawingState::new();
    st.handle_drag_begin(p(10, 10));
    st.handle_drag_update(5, 5);
    assert_eq!(st.current().points(), &vec![p(10, 10), p(15, 15)]);
    st.handle_drag_update(7, -2);
    assert_eq!(st.current().points(), &vec![p(10, 10), p(15, 15), p(17, 8)]);
}

#[test]
fn single_point_stroke_renders_as_dot() {
    let mut st = DrawingState::new();
    let req = draw(&mut st, p(4, 9), &[]);
    assert_eq!(st.finalized().len(), 1);
    assert_eq!(st.finalized()[0].points(), &vec![p(4, 9)]);
    assert!(st.current().is_empty());
    assert_eq!(req.len(), 1);
    assert_eq!(st.render(), vec![DrawOp::Dot { at: p(4, 9) }]);
}

#[test]
fn render_draws_segments_then_current_stroke() {
    let mut st = DrawingState::new();
    draw(&mut st, p(0, 0), &[(10, 0), (10, 10)]);
    st.handle_drag_begin(p(50, 50));
    assert_eq!(
        st.render(),
        vec![
            DrawOp::Segment { from: p(0, 0), to: p(10, 0) },
            DrawOp::Segment { from: p(10, 0), to: p(10, 10) },
            DrawOp::Dot { at: p(50, 50) },
        ]
    );
    st.handle_drag_update(1, 2);
    assert_eq!(
        st.render()[2],
        DrawOp::Segment { from: p(50, 50), to: p(51, 52) }
    );
}

#[test]
fn empty_drawing_renders_nothing() {
    assert!(DrawingState::new().render().is_empty());
}

#[test]
fn display_list_keeps_first_entries() {
    let ranked: Vec<String> = (0..30).map(|i| format!("sym{}", i)).collect();
    let shown = display_list(ranked.clone());
    assert_eq!(MAX_SHOWN, 25);
    assert_eq!(shown.len(), 25);
    assert_eq!(&shown[..], &ranked[..25]);
    assert_eq!(display_list(ids(&["a", "b"])), ids(&["a", "b"]));
    assert!(display_list(Vec::new()).is_empty());
    let exact: Vec<String> = (0..25).map(|i| format!("s{}", i)).collect();
    assert_eq!(display_list(exact.clone()), exact);
}

#[test]
fn empty_submission_gives_empty_display() {
    let mut w = WorkerState::Waiting;
    let action = worker_step(&mut w, WorkerEvent::Request(Vec::new()));
    assert_eq!(w, WorkerState::Waiting);
    let reply = reply_of(action);
    assert!(reply.is_empty());
    assert!(display_list(reply).is_empty());
}

#[test]
fn request_of_empty_strokes_is_not_classified() {
    let mut w = WorkerState::Waiting;
    let action = worker_step(&mut w, WorkerEvent::Request(vec![Stroke::empty(), Stroke::empty()]));
    assert_eq!(w, WorkerState::Waiting);
    assert!(reply_of(action).is_empty());
}

#[test]
fn abstention_gives_empty_result() {
    let mut w = WorkerState::Classifying;
    let action = worker_step(&mut w, WorkerEvent::Classified(None));
    assert_eq!(w, WorkerState::Waiting);
    assert!(reply_of(action).is_empty());
}

#[test]
fn reset_clears_drawing() {
    let mut st = DrawingState::new();
    draw(&mut st, p(1, 1), &[(2, 2)]);
    st.handle_drag_begin(p(5, 5));
    st.reset();
    assert!(st.finalized().is_empty());
    assert!(st.current().is_empty());
    assert!(!st.is_capturing());
    assert!(st.render().is_empty());
}

#[test]
fn worker_exits_when_queue_closes() {
    let mut w = WorkerState::Waiting;
    let action = worker_step(&mut w, WorkerEvent::Closed);
    assert!(matches!(action, WorkerAction::Exit));
    assert_eq!(w, WorkerState::Stopped);
}

#[test]
fn requests_are_answered_in_order() {
    let mut st = DrawingState::new();
    let first = draw(&mut st, p(0, 0), &[(1, 0)]);
    let second = draw(&mut st, p(5, 5), &[(0, 1)]);
    assert_eq!(first.len(), 1);
    assert_eq!(second.len(), 2);
    let mut w = WorkerState::Waiting;
    let mut replies = Vec::new();
    for (req, result) in [(first, ids(&["one"])), (second, ids(&["two"]))] {
        match worker_step(&mut w, WorkerEvent::Request(req)) {
            WorkerAction::Classify(strokes) => assert!(!strokes.is_empty()),
            other => panic!("expected a classification, got {:?}", other),
        }
        assert_eq!(w, WorkerState::Classifying);
        replies.push(reply_of(worker_step(&mut w, WorkerEvent::Classified(Some(result)))));
        assert_eq!(w, WorkerState::Waiting);
    }
    assert_eq!(replies, vec![ids(&["one"]), ids(&["two"])]);
}

#[test]
fn three_point_stroke_is_classified_and_shown() {
    let mut st = DrawingState::new();
    let req = draw(&mut st, p(0, 0), &[(10, 0), (10, 10)]);
    assert_eq!(st.finalized().len(), 1);
    assert_eq!(st.finalized()[0].points(), &vec![p(0, 0), p(10, 0), p(10, 10)]);
    assert_eq!(req.len(), 1);
    assert_eq!(req[0].points(), &vec![p(0, 0), p(10, 0), p(10, 10)]);
    let mut w = WorkerState::Waiting;
    let sent = match worker_step(&mut w, WorkerEvent::Request(req)) {
        WorkerAction::Classify(strokes) => strokes,
        other => panic!("expected a classification, got {:?}", other),
    };
    assert_eq!(sent.len(), 1);
    assert_eq!(sent[0].points(), &vec![p(0, 0), p(10, 0), p(10, 10)]);
    let reply = reply_of(worker_step(&mut w, WorkerEvent::Classified(Some(ids(&["alpha", "beta"])))));
    assert_eq!(display_list(reply), ids(&["alpha", "beta"]));
}

#[test]
fn reset_does_not_cancel_classification() {
    let mut st = DrawingState::new();
    draw(&mut st, p(0, 0), &[(3, 3)]);
    let in_flight = draw(&mut st, p(8, 8), &[(1, 1)]);
    assert_eq!(in_flight.len(), 2);
    let mut w = WorkerState::Waiting;
    let sent = match worker_step(&mut w, WorkerEvent::Request(in_flight)) {
        WorkerAction::Classify(strokes) => strokes,
        other => panic!("expected a classification, got {:?}", other),
    };
    st.reset();
    assert!(st.finalized().is_empty());
    assert!(st.current().is_empty());
    assert_eq!(sent.len(), 2);
    let reply = reply_of(worker_step(&mut w, WorkerEvent::Classified(Some(ids(&["gamma"])))));
    assert_eq!(display_list(reply), ids(&["gamma"]));
}

#[test]
fn snapshot_is_independent_copy() {
    let mut st = DrawingState::new();
    let req = draw(&mut st, p(2, 3), &[(1, 1)]);
    let copy = duplicate_strokes(&req);
    st.reset();
    assert_eq!(copy.len(), 1);
    assert_eq!(copy[0].points(), &vec![p(2, 3), p(3, 4)]);
    assert_eq!(req[0].duplicate().len(), 2);
}
