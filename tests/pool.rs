use egui_demo::pool::{Action, Phase, PoolError, MAX_WORKERS};
use egui_demo::ThreadApp;

fn run_sends(pool: &mut ThreadApp, first: Action, delivered: &[bool]) -> Vec<Action> {
    let mut actions = vec![first];
    for d in delivered {
        actions.push(pool.send_finished(*d));
    }
    actions
}

#[test]
fn new_pool_spawns_two_workers() {
    let (pool, spawns) = ThreadApp::new();
    assert_eq!(pool.len(), 2);
    assert_eq!(pool.phase(), Phase::Idle);
    assert_eq!(
        spawns,
        vec![Action::SpawnWorker { thread_nr: 0 }, Action::SpawnWorker { thread_nr: 1 }]
    );
}

#[test]
fn frame_with_two_workers_waits_for_two_completions() {
    let (mut pool, _) = ThreadApp::new();
    let first = pool.drive_frame();
    let actions = run_sends(&mut pool, first, &[true, true]);
    assert_eq!(
        actions,
        vec![
            Action::SendContext { worker: 0 },
            Action::SendContext { worker: 1 },
            Action::AwaitCompletion,
        ]
    );
    assert_eq!(pool.completion_received(), Action::AwaitCompletion);
    assert_eq!(pool.phase(), Phase::Gathering { expected: 2, received: 1 });
    assert_eq!(pool.completion_received(), Action::FrameComplete);
    assert_eq!(pool.phase(), Phase::Idle);
    // A stray signal after the frame is not counted towards anything.
    assert_eq!(pool.completion_received(), Action::Ignored);
}

#[test]
fn third_spawn_makes_frames_wait_for_three() {
    let (mut pool, _) = ThreadApp::new();
    assert_eq!(pool.spawn_worker(), Action::SpawnWorker { thread_nr: 2 });
    assert_eq!(pool.len(), 3);
    let first = pool.drive_frame();
    let actions = run_sends(&mut pool, first, &[true, true, true]);
    assert_eq!(
        actions,
        vec![
            Action::SendContext { worker: 0 },
            Action::SendContext { worker: 1 },
            Action::SendContext { worker: 2 },
            Action::AwaitCompletion,
        ]
    );
    assert_eq!(pool.completion_received(), Action::AwaitCompletion);
    assert_eq!(pool.completion_received(), Action::AwaitCompletion);
    assert_eq!(pool.completion_received(), Action::FrameComplete);
}

#[test]
fn frame_is_ignored_during_shutdown() {
    let (mut pool, _) = ThreadApp::new();
    assert_eq!(pool.shutdown(), Action::CloseWorker { worker: 0 });
    assert_eq!(pool.drive_frame(), Action::Ignored);
}

#[test]
fn worker_that_did_not_take_the_context_is_not_awaited() {
    let (mut pool, _) = ThreadApp::new();
    let first = pool.drive_frame();
    let actions = run_sends(&mut pool, first, &[false, true]);
    assert_eq!(actions[2], Action::AwaitCompletion);
    assert_eq!(pool.phase(), Phase::Gathering { expected: 1, received: 0 });
    assert_eq!(pool.completion_received(), Action::FrameComplete);
}

#[test]
fn frame_where_no_worker_took_the_context_completes() {
    let (mut pool, _) = ThreadApp::new();
    pool.drive_frame();
    pool.send_finished(false);
    assert_eq!(pool.send_finished(false), Action::FrameComplete);
    assert_eq!(pool.phase(), Phase::Idle);
}

#[test]
fn spawn_is_ignored_mid_frame() {
    let (mut pool, _) = ThreadApp::new();
    pool.drive_frame();
    assert_eq!(pool.spawn_worker(), Action::Ignored);
    assert_eq!(pool.len(), 2);
    assert_eq!(pool.shutdown(), Action::Ignored);
}

#[test]
fn shutdown_joins_both_workers_in_order() {
    let (mut pool, _) = ThreadApp::new();
    assert_eq!(pool.shutdown(), Action::CloseWorker { worker: 0 });
    assert_eq!(pool.phase(), Phase::Joining { next: 0 });
    assert_eq!(pool.join_finished(false), Action::CloseWorker { worker: 1 });
    assert_eq!(pool.phase(), Phase::Joining { next: 1 });
    assert_eq!(pool.join_finished(false), Action::ShutdownComplete);
    assert_eq!(pool.phase(), Phase::Closed);
    assert_eq!(pool.outcome(), Ok(()));
    assert_eq!(pool.drive_frame(), Action::Ignored);
    assert_eq!(pool.spawn_worker(), Action::Ignored);
    assert_eq!(pool.completion_received(), Action::Ignored);
    assert_eq!(pool.join_finished(false), Action::Ignored);
}

#[test]
fn shutdown_reports_first_panicked_worker() {
    let (mut pool, _) = ThreadApp::new();
    pool.spawn_worker();
    pool.shutdown();
    pool.join_finished(false);
    pool.join_finished(true);
    assert_eq!(pool.join_finished(true), Action::ShutdownComplete);
    assert_eq!(pool.outcome(), Err(PoolError::WorkerPanicked { worker: 1 }));
}

#[test]
fn pool_size_limit() {
    assert_eq!(MAX_WORKERS, 429_496_729);
}
