//! Window mover: the state machine behind a move hotkey. It captures the
//! foreground window, grows the desktop set when the target index lies
//! beyond the current count — exactly as the navigator does — and then
//! moves the captured window there. No focus restoration follows a move,
//! and the origin desktop's remembered window is deliberately left alone.

use vstd::prelude::*;

verus! {

/// The failures a move can end in; each is reported to the user with a
/// blocking notification and aborts only this move.
#[derive(Clone, Copy, Debug, PartialEq, Eq, Structural)]
pub enum MoveError {
    /// There was no foreground window to move; nothing else was attempted.
    NoForegroundWindow,
    /// The desktop count could not be read; nothing was created or moved.
    CountQueryFailed,
    /// A desktop creation failed; the remaining creations and the move are
    /// abandoned.
    CreationFailed,
    /// The move call itself failed (window destroyed, minimized, or
    /// restricted); not retried.
    MoveFailed,
}

/// How a finished move ended.
#[derive(Clone, Copy, Debug, PartialEq, Eq, Structural)]
pub enum MoveOutcome {
    /// The captured window was moved to the target desktop.
    Moved { window: u64 },
    /// The move was aborted; the error was reported to the user.
    Failed(MoveError),
}

/// Where the machine stands between two events.
#[derive(Clone, Copy, Debug, PartialEq, Eq, Structural)]
pub enum MovePhase {
    /// Waiting for the foreground window handle.
    CapturingWindow,
    /// Waiting for the desktop count, holding the captured window.
    CountingDesktops { window: u64 },
    /// Growing the desktop set: `created` of `needed` new desktops exist
    /// so far.
    CreatingDesktops { window: u64, created: u32, needed: u32 },
    /// Waiting for the outcome of the move call.
    IssuingMove { window: u64 },
    /// Nothing further will be requested.
    Finished(MoveOutcome),
}

/// What the shell observed; each variant answers one request.
#[derive(Clone, Copy, Debug, PartialEq, Eq)]
pub enum MoveEvent {
    /// The current foreground window handle, `0` for none.
    ForegroundCaptured(u64),
    /// The desktop count, `None` when the query failed.
    CountQueried(Option<u32>),
    /// Whether creating one desktop succeeded.
    DesktopCreated(bool),
    /// Whether the move call succeeded.
    MoveIssued(bool),
}

/// The next call the shell is asked to make.
#[derive(Clone, Copy, Debug, PartialEq, Eq, Structural)]
pub enum MoveRequest {
    /// Ask the desktop subsystem for the current desktop count.
    QueryDesktopCount,
    /// Create one new desktop at the end of the desktop set.
    CreateDesktop,
    /// Move this window to the desktop at this index.
    MoveWindow { window: u64, target: u32 },
    /// Show the user a blocking failure notification; the move is over.
    ReportFailure(MoveError),
    /// Nothing to do beyond a log line; the move is over or the event did
    /// not belong to the current phase.
    NoRequest,
}

/// A move in progress: the validated target index and the phase reached.
pub struct MoveTask {
    pub target: u32,
    pub phase: MovePhase,
}

/// The transition relation of the mover: from a task and the event the
/// shell observed, the task's next state and the next request. An event
/// that does not belong to the current phase changes nothing.
pub open spec fn move_step(task: MoveTask, event: MoveEvent) -> (MoveTask, MoveRequest) {
    match (task.phase, event) {
        (MovePhase::CapturingWindow, MoveEvent::ForegroundCaptured(window)) => if window == 0 {
            (
                MoveTask {
                    target: task.target,
                    phase: MovePhase::Finished(MoveOutcome::Failed(MoveError::NoForegroundWindow)),
                },
                MoveRequest::ReportFailure(MoveError::NoForegroundWindow),
            )
        } else {
            (
                MoveTask { target: task.target, phase: MovePhase::CountingDesktops { window } },
                MoveRequest::QueryDesktopCount,
            )
        },
        (MovePhase::CountingDesktops { window }, MoveEvent::CountQueried(count)) => match count {
            Some(c) => if task.target < c {
                (
                    MoveTask { target: task.target, phase: MovePhase::IssuingMove { window } },
                    MoveRequest::MoveWindow { window, target: task.target },
                )
            } else {
                (
                    MoveTask {
                        target: task.target,
                        phase: MovePhase::CreatingDesktops {
                            window,
                            created: 0,
                            needed: (task.target - c + 1) as u32,
                        },
                    },
                    MoveRequest::CreateDesktop,
                )
            },
            None => (
                MoveTask {
                    target: task.target,
                    phase: MovePhase::Finished(MoveOutcome::Failed(MoveError::CountQueryFailed)),
                },
                MoveRequest::ReportFailure(MoveError::CountQueryFailed),
            ),
        },
        (
            MovePhase::CreatingDesktops { window, created, needed },
            MoveEvent::DesktopCreated(ok),
        ) => if !ok {
            (
                MoveTask {
                    target: task.target,
                    phase: MovePhase::Finished(MoveOutcome::Failed(MoveError::CreationFailed)),
                },
                MoveRequest::ReportFailure(MoveError::CreationFailed),
            )
        } else if created + 1 < needed {
            (
                MoveTask {
                    target: task.target,
                    phase: MovePhase::CreatingDesktops {
                        window,
                        created: (created + 1) as u32,
                        needed,
                    },
                },
                MoveRequest::CreateDesktop,
            )
        } else {
            (
                MoveTask { target: task.target, phase: MovePhase::IssuingMove { window } },
                MoveRequest::MoveWindow { window, target: task.target },
            )
        },
        (MovePhase::IssuingMove { window }, MoveEvent::MoveIssued(ok)) => if ok {
            (
                MoveTask {
                    target: task.target,
                    phase: MovePhase::Finished(MoveOutcome::Moved { window }),
                },
                MoveRequest::NoRequest,
            )
        } else {
            (
                MoveTask {
                    target: task.target,
                    phase: MovePhase::Finished(MoveOutcome::Failed(MoveError::MoveFailed)),
                },
                MoveRequest::ReportFailure(MoveError::MoveFailed),
            )
        },
        _ => (task, MoveRequest::NoRequest),
    }
}

impl MoveTask {
    /// The machine's invariant: the target is an addressable index, a
    /// captured window is never the null handle, and while desktops are
    /// being created the counters stay in bounds.
    pub open spec fn inv(&self) -> bool {
        &&& self.target <= 9
        &&& match self.phase {
            MovePhase::CountingDesktops { window } => window != 0,
            MovePhase::CreatingDesktops { window, created, needed } => window != 0 && created
                < needed && needed <= self.target + 1,
            MovePhase::IssuingMove { window } => window != 0,
            _ => true,
        }
    }

    /// Begins a move to a validated target index.
    pub fn new(target: u32) -> (task: MoveTask)
        requires
            target <= 9,
        ensures
            task.inv(),
            task.target == target,
            task.phase == MovePhase::CapturingWindow,
    {
        MoveTask { target, phase: MovePhase::CapturingWindow }
    }

    /// Feeds one observed event in; moves to the next phase and answers
    /// with the next request, exactly as `move_step` says. The window
    /// registry plays no part in a move: the origin desktop's remembered
    /// window is intentionally not updated.
    pub fn step(&mut self, event: MoveEvent) -> (request: MoveRequest)
        requires
            old(self).inv(),
        ensures
            final(self).inv(),
            final(self).target == old(self).target,
            *final(self) == move_step(*old(self), event).0,
            request == move_step(*old(self), event).1,
    {
        match (self.phase, event) {
            (MovePhase::CapturingWindow, MoveEvent::ForegroundCaptured(window)) => {
                if window == 0 {
                    self.phase = MovePhase::Finished(
                        MoveOutcome::Failed(MoveError::NoForegroundWindow),
                    );
                    MoveRequest::ReportFailure(MoveError::NoForegroundWindow)
                } else {
                    self.phase = MovePhase::CountingDesktops { window };
                    MoveRequest::QueryDesktopCount
                }
            },
            (MovePhase::CountingDesktops { window }, MoveEvent::CountQueried(count)) => match count {
                Some(c) => if self.target < c {
                    self.phase = MovePhase::IssuingMove { window };
                    MoveRequest::MoveWindow { window, target: self.target }
                } else {
                    let needed: u32 = self.target - c + 1;
                    self.phase = MovePhase::CreatingDesktops { window, created: 0, needed };
                    MoveRequest::CreateDesktop
                },
                None => {
                    self.phase = MovePhase::Finished(
                        MoveOutcome::Failed(MoveError::CountQueryFailed),
                    );
                    MoveRequest::ReportFailure(MoveError::CountQueryFailed)
                },
            },
            (
                MovePhase::CreatingDesktops { window, created, needed },
                MoveEvent::DesktopCreated(ok),
            ) => {
                if !ok {
                    self.phase = MovePhase::Finished(
                        MoveOutcome::Failed(MoveError::CreationFailed),
                    );
                    MoveRequest::ReportFailure(MoveError::CreationFailed)
                } else if created + 1 < needed {
                    self.phase = MovePhase::CreatingDesktops {
                        window,
                        created: created + 1,
                        needed,
                    };
                    MoveRequest::CreateDesktop
                } else {
                    self.phase = MovePhase::IssuingMove { window };
                    MoveRequest::MoveWindow { window, target: self.target }
                }
            },
            (MovePhase::IssuingMove { window }, MoveEvent::MoveIssued(ok)) => {
                if ok {
                    self.phase = MovePhase::Finished(MoveOutcome::Moved { window });
                    MoveRequest::NoRequest
                } else {
                    self.phase = MovePhase::Finished(MoveOutcome::Failed(MoveError::MoveFailed));
                    MoveRequest::ReportFailure(MoveError::MoveFailed)
                }
            },
            _ => MoveRequest::NoRequest,
        }
    }
}

/// The requests a task issues over a whole sequence of events, first to
/// last, stepping with `move_step`.
pub open spec fn move_run(task: MoveTask, events: Seq<MoveEvent>) -> Seq<MoveRequest>
    decreases events.len(),
{
    if events.len() == 0 {
        Seq::<MoveRequest>::empty()
    } else {
        seq![move_step(task, events[0]).1] + move_run(
            move_step(task, events[0]).0,
            events.drop_first(),
        )
    }
}

/// A run answers every event with exactly one request.
pub proof fn lemma_move_run_len(task: MoveTask, events: Seq<MoveEvent>)
    ensures
        move_run(task, events).len() == events.len(),
    decreases events.len(),
{
    if events.len() > 0 {
        lemma_move_run_len(move_step(task, events[0]).0, events.drop_first());
    }
}

/// A finished task issues no request of any kind, whatever events arrive.
proof fn lemma_move_finished_is_quiet(task: MoveTask, events: Seq<MoveEvent>)
    requires
        task.phase is Finished,
    ensures
        forall|k: int|
            0 <= k < events.len() ==> move_run(task, events)[k] == MoveRequest::NoRequest,
    decreases events.len(),
{
    if events.len() > 0 {
        let next = move_step(task, events[0]).0;
        lemma_move_run_len(task, events);
        lemma_move_run_len(next, events.drop_first());
        lemma_move_finished_is_quiet(next, events.drop_first());
        assert forall|k: int|
            0 <= k < events.len() implies move_run(task, events)[k] == MoveRequest::NoRequest by {
            if k > 0 {
                assert(move_run(task, events)[k] == move_run(next, events.drop_first())[k - 1]);
            }
        }
    }
}

/// Law: a move hotkey pressed with no foreground window fails immediately
/// and does nothing else. The very first step reports the failure, and no
/// step — then or later — requests a desktop creation or a move.
pub proof fn lemma_move_null_window_aborts(task: MoveTask, events: Seq<MoveEvent>)
    requires
        task.phase is CapturingWindow,
        events.len() > 0,
        events[0] == MoveEvent::ForegroundCaptured(0u64),
    ensures
        move_run(task, events)[0] == MoveRequest::ReportFailure(MoveError::NoForegroundWindow),
        forall|k: int|
            0 <= k < events.len() ==> move_run(task, events)[k] != MoveRequest::CreateDesktop,
        forall|k: int| 0 <= k < events.len() ==> !(move_run(task, events)[k] is MoveWindow),
{
    let next = move_step(task, events[0]).0;
    lemma_move_run_len(task, events);
    lemma_move_run_len(next, events.drop_first());
    lemma_move_finished_is_quiet(next, events.drop_first());
    assert forall|k: int|
        0 <= k < events.len() implies move_run(task, events)[k] != MoveRequest::CreateDesktop && !(
        move_run(task, events)[k] is MoveWindow) by {
        if k > 0 {
            assert(move_run(task, events)[k] == move_run(next, events.drop_first())[k - 1]);
        }
    }
}

/// While the machine is creating desktops and every creation succeeds, it
/// requests one creation per missing desktop and then — and only then —
/// the move of the captured window.
proof fn lemma_move_creation_loop(task: MoveTask, events: Seq<MoveEvent>)
    requires
        task.inv(),
        task.phase is CreatingDesktops,
        events.len() >= (task.phase->CreatingDesktops_needed - task.phase->CreatingDesktops_created),
        forall|i: int|
            0 <= i < task.phase->CreatingDesktops_needed - task.phase->CreatingDesktops_created
                ==> events[i] == MoveEvent::DesktopCreated(true),
    ensures
        ({
            let remaining = task.phase->CreatingDesktops_needed
                - task.phase->CreatingDesktops_created;
            &&& forall|i: int|
                0 <= i < remaining - 1 ==> move_run(task, events)[i] == MoveRequest::CreateDesktop
            &&& move_run(task, events)[remaining - 1] == (MoveRequest::MoveWindow {
                window: task.phase->CreatingDesktops_window,
                target: task.target,
            })
        }),
    decreases events.len(),
{
    let created = task.phase->CreatingDesktops_created;
    let needed = task.phase->CreatingDesktops_needed;
    let remaining = needed - created;
    let next = move_step(task, events[0]).0;
    lemma_move_run_len(task, events);
    lemma_move_run_len(next, events.drop_first());
    if created + 1 < needed {
        assert(forall|i: int|
            0 <= i < needed - (created + 1) ==> events.drop_first()[i] == events[i + 1] && events[i
                + 1] == MoveEvent::DesktopCreated(true));
        lemma_move_creation_loop(next, events.drop_first());
        assert forall|i: int|
            0 <= i < remaining - 1 implies move_run(task, events)[i]
            == MoveRequest::CreateDesktop by {
            if i > 0 {
                assert(move_run(task, events)[i] == move_run(next, events.drop_first())[i - 1]);
            }
        }
        assert(move_run(task, events)[remaining - 1] == move_run(next, events.drop_first())[
            remaining - 2]);
    } else {
        assert(remaining == 1);
    }
}

/// Law: moving to an index at or beyond the reported count creates the
/// missing desktops first: exactly `target - count + 1` creation requests,
/// and the move of the captured window comes only after the last of them.
pub proof fn lemma_move_creates_before_moving(
    task: MoveTask,
    window: u64,
    count: u32,
    events: Seq<MoveEvent>,
)
    requires
        task.inv(),
        task.phase == (MovePhase::CountingDesktops { window }),
        count <= task.target,
        events.len() > task.target - count + 1,
        events[0] == MoveEvent::CountQueried(Some(count)),
        forall|i: int|
            1 <= i <= task.target - count + 1 ==> events[i] == MoveEvent::DesktopCreated(true),
    ensures
        forall|i: int|
            0 <= i < task.target - count + 1 ==> move_run(task, events)[i]
                == MoveRequest::CreateDesktop,
        move_run(task, events)[task.target - count + 1] == (MoveRequest::MoveWindow {
            window,
            target: task.target,
        }),
{
    let missing = task.target - count + 1;
    let next = move_step(task, events[0]).0;
    lemma_move_run_len(task, events);
    lemma_move_run_len(next, events.drop_first());
    assert(next.phase == (MovePhase::CreatingDesktops {
        window,
        created: 0,
        needed: missing as u32,
    }));
    assert(forall|i: int|
        0 <= i < missing ==> events.drop_first()[i] == events[i + 1] && events[i + 1]
            == MoveEvent::DesktopCreated(true));
    lemma_move_creation_loop(next, events.drop_first());
    assert forall|i: int|
        0 <= i < missing implies move_run(task, events)[i] == MoveRequest::CreateDesktop by {
        if i > 0 {
            assert(move_run(task, events)[i] == move_run(next, events.drop_first())[i - 1]);
        }
    }
    assert(move_run(task, events)[missing] == move_run(next, events.drop_first())[missing - 1]);
}

} // verus!
