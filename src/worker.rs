//! The loop that each panel worker runs: wait for the frame context, render
//! the panel, signal completion, until a channel closes.
use vstd::prelude::*;

use crate::panel::{ThreadState, MAX_THREAD_NR, panel_title};

verus! {

/// Where a worker's loop stands.
#[derive(Clone, Copy, Debug, PartialEq, Eq, Structural)]
pub enum WorkerPhase {
    /// Blocked on receiving the next frame context.
    Waiting,
    /// Holding a frame context; the panel is to be rendered.
    Rendering,
    /// The panel is rendered; the completion signal is to be sent.
    Signalling,
    /// The loop has ended.
    Exited,
}

/// What just happened to a worker.
#[derive(Clone, Copy, Debug, PartialEq, Eq, Structural)]
pub enum WorkerEvent {
    /// A receive finished: with a context, or because the channel was closed.
    Received { got_context: bool },
    /// The panel has been rendered for the current frame.
    Rendered,
    /// A completion send finished: `delivered` is false when the coordinator
    /// is gone.
    Signalled { delivered: bool },
}

/// What the worker does next.
#[derive(Clone, Copy, Debug, PartialEq, Eq, Structural)]
pub enum WorkerAction {
    Receive,
    Render,
    SignalDone,
    Exit,
}

/// The action that a phase calls for.
pub open spec fn pending_action(phase: WorkerPhase) -> WorkerAction {
    match phase {
        WorkerPhase::Waiting => WorkerAction::Receive,
        WorkerPhase::Rendering => WorkerAction::Render,
        WorkerPhase::Signalling => WorkerAction::SignalDone,
        WorkerPhase::Exited => WorkerAction::Exit,
    }
}

/// The phase that follows an event; an event that does not fit the phase
/// leaves it as it is. A closed channel on either side ends the loop.
pub open spec fn worker_next(phase: WorkerPhase, event: WorkerEvent) -> WorkerPhase {
    match (phase, event) {
        (WorkerPhase::Waiting, WorkerEvent::Received { got_context }) => {
            if got_context {
                WorkerPhase::Rendering
            } else {
                WorkerPhase::Exited
            }
        },
        (WorkerPhase::Rendering, WorkerEvent::Rendered) => WorkerPhase::Signalling,
        (WorkerPhase::Signalling, WorkerEvent::Signalled { delivered }) => {
            if delivered {
                WorkerPhase::Waiting
            } else {
                WorkerPhase::Exited
            }
        },
        _ => phase,
    }
}

/// A panel worker: the panel it owns and where its loop stands.
pub struct PanelWorker {
    pub state: ThreadState,
    pub phase: WorkerPhase,
}

impl PanelWorker {
    /// The worker of panel `thread_nr`, about to wait for its first frame.
    pub fn new(thread_nr: usize) -> (r: Self)
        requires
            thread_nr <= MAX_THREAD_NR,
        ensures
            r.phase == WorkerPhase::Waiting,
            r.state@.thread_nr == thread_nr,
            r.state@.title == panel_title(thread_nr as nat),
            r.state@.name == "Arthur"@,
            r.state@.age == 12 + 10 * thread_nr,
    {
        PanelWorker { state: ThreadState::new(thread_nr), phase: WorkerPhase::Waiting }
    }

    /// What the worker is to do now.
    pub fn action(&self) -> (r: WorkerAction)
        ensures
            r == pending_action(self.phase),
    {
        match self.phase {
            WorkerPhase::Waiting => WorkerAction::Receive,
            WorkerPhase::Rendering => WorkerAction::Render,
            WorkerPhase::Signalling => WorkerAction::SignalDone,
            WorkerPhase::Exited => WorkerAction::Exit,
        }
    }

    /// Takes in an event and returns the next action. The panel's state is
    /// not touched: only its own widgets change it.
    pub fn step(&mut self, event: WorkerEvent) -> (r: WorkerAction)
        ensures
            final(self).phase == worker_next(old(self).phase, event),
            final(self).state == old(self).state,
            r == pending_action(final(self).phase),
    {
        let next = match (self.phase, event) {
            (WorkerPhase::Waiting, WorkerEvent::Received { got_context }) => {
                if got_context {
                    WorkerPhase::Rendering
                } else {
                    WorkerPhase::Exited
                }
            },
            (WorkerPhase::Rendering, WorkerEvent::Rendered) => WorkerPhase::Signalling,
            (WorkerPhase::Signalling, WorkerEvent::Signalled { delivered }) => {
                if delivered {
                    WorkerPhase::Waiting
                } else {
                    WorkerPhase::Exited
                }
            },
            _ => self.phase,
        };
        self.phase = next;
        self.action()
    }
}

} // verus!
