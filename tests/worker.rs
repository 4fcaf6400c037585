use egui_demo::worker::{PanelWorker, WorkerAction, WorkerEvent, WorkerPhase};

#[test]
fn worker_renders_each_frame_then_waits() {
    let mut w = PanelWorker::new(1);
    assert_eq!(w.action(), WorkerAction::Receive);
    assert_eq!(w.step(WorkerEvent::Received { got_context: true }), WorkerAction::Render);
    assert_eq!(w.step(WorkerEvent::Rendered), WorkerAction::SignalDone);
    assert_eq!(w.step(WorkerEvent::Signalled { delivered: true }), WorkerAction::Receive);
    assert_eq!(w.phase, WorkerPhase::Waiting);
    assert_eq!(w.state.age, 22);
}

#[test]
fn blocked_workers_exit_when_their_channel_closes() {
    let mut a = PanelWorker::new(0);
    let mut b = PanelWorker::new(1);
    assert_eq!(a.step(WorkerEvent::Received { got_context: false }), WorkerAction::Exit);
    assert_eq!(b.step(WorkerEvent::Received { got_context: false }), WorkerAction::Exit);
    assert_eq!(a.phase, WorkerPhase::Exited);
    assert_eq!(b.phase, WorkerPhase::Exited);
}

#[test]
fn worker_exits_when_coordinator_is_gone() {
    let mut w = PanelWorker::new(0);
    w.step(WorkerEvent::Received { got_context: true });
    w.step(WorkerEvent::Rendered);
    assert_eq!(w.step(WorkerEvent::Signalled { delivered: false }), WorkerAction::Exit);
}

#[test]
fn out_of_order_event_is_ignored() {
    let mut w = PanelWorker::new(0);
    assert_eq!(w.step(WorkerEvent::Rendered), WorkerAction::Receive);
    assert_eq!(w.phase, WorkerPhase::Waiting);
    w.step(WorkerEvent::Received { got_context: false });
    assert_eq!(w.step(WorkerEvent::Received { got_context: true }), WorkerAction::Exit);
}
