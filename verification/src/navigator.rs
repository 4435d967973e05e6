//! Desktop navigator: the state machine behind a switch hotkey. It records
//! the departed desktop's foreground window, grows the desktop set when the
//! target index lies beyond the current count, issues the switch, and hands
//! over to focus restoration on the desktop it lands on.
//!
//! The machine never calls the operating system itself. Each step consumes
//! the result of the previous call (an event) and answers with the next
//! call to make (a request); the shell performs it and feeds the result
//! back in.

use crate::registry::WindowRegistry;
use vstd::prelude::*;

verus! {

/// The failures a switch can end in; each is reported to the user with a
/// blocking notification and aborts only this switch.
#[derive(Clone, Copy, Debug, PartialEq, Eq, Structural)]
pub enum SwitchError {
    /// The desktop count could not be read; nothing was created or switched.
    CountQueryFailed,
    /// A desktop creation failed; the remaining creations and the switch
    /// are abandoned.
    CreationFailed,
    /// The switch call itself failed; no focus restoration is attempted.
    SwitchFailed,
}

/// How a finished switch ended.
#[derive(Clone, Copy, Debug, PartialEq, Eq, Structural)]
pub enum SwitchOutcome {
    /// The switch succeeded and focus restoration ran for the desktop the
    /// machine landed on.
    Completed { desktop: u32 },
    /// The switch succeeded but the landing desktop could not be learned;
    /// restoration was skipped with a warning.
    CompletedNoRestore,
    /// The switch was aborted; the error was reported to the user.
    Failed(SwitchError),
}

/// Where the machine stands between two events.
#[derive(Clone, Copy, Debug, PartialEq, Eq, Structural)]
pub enum SwitchPhase {
    /// Waiting for the departed desktop's identifier and foreground window,
    /// to be recorded in the registry before anything changes.
    RecordingDeparture,
    /// Waiting for the desktop count.
    CountingDesktops,
    /// Growing the desktop set: `created` of `needed` new desktops exist so
    /// far.
    CreatingDesktops { created: u32, needed: u32 },
    /// Waiting for the outcome of the switch call.
    IssuingSwitch,
    /// Waiting for the identifier of the desktop the switch landed on.
    FindingLanding,
    /// Waiting for focus restoration on the landing desktop to finish.
    RestoringFocus { desktop: u32 },
    /// Nothing further will be requested.
    Finished(SwitchOutcome),
}

/// What the shell observed; each variant answers one request.
#[derive(Clone, Copy, Debug, PartialEq, Eq)]
pub enum SwitchEvent {
    /// The desktop being departed (`None` when the query failed, which is
    /// non-fatal) and the current foreground window (`0` for none).
    DepartureObserved { desktop: Option<u32>, foreground: u64 },
    /// The desktop count, `None` when the query failed.
    CountQueried(Option<u32>),
    /// Whether creating one desktop succeeded.
    DesktopCreated(bool),
    /// Whether the switch call succeeded.
    SwitchIssued(bool),
    /// The desktop the switch landed on, `None` when the query failed.
    LandingQueried(Option<u32>),
    /// Focus restoration has run (it always finishes; see `crate::focus`).
    FocusRestored,
}

/// The next call the shell is asked to make.
#[derive(Clone, Copy, Debug, PartialEq, Eq, Structural)]
pub enum SwitchRequest {
    /// Ask the desktop subsystem for the current desktop count.
    QueryDesktopCount,
    /// Create one new desktop at the end of the desktop set.
    CreateDesktop,
    /// Switch to the desktop at this index.
    SwitchToDesktop(u32),
    /// Ask which desktop the switch landed on.
    QueryLandingDesktop,
    /// Wait the settle delay, then run focus restoration for this desktop.
    SettleThenRestore(u32),
    /// Show the user a blocking failure notification; the switch is over.
    ReportFailure(SwitchError),
    /// Nothing to do beyond a log line; the switch is over or the event
    /// did not belong to the current phase.
    NoRequest,
}

/// A switch in progress: the validated target index and the phase reached.
pub struct SwitchTask {
    pub target: u32,
    pub phase: SwitchPhase,
}

/// The transition relation of the navigator: from a task and the event the
/// shell observed, the task's next state and the next request. An event
/// that does not belong to the current phase changes nothing.
pub open spec fn switch_step(task: SwitchTask, event: SwitchEvent) -> (SwitchTask, SwitchRequest) {
    match (task.phase, event) {
        (SwitchPhase::RecordingDeparture, SwitchEvent::DepartureObserved { .. }) => (
            SwitchTask { target: task.target, phase: SwitchPhase::CountingDesktops },
            SwitchRequest::QueryDesktopCount,
        ),
        (SwitchPhase::CountingDesktops, SwitchEvent::CountQueried(count)) => match count {
            Some(c) => if task.target < c {
                (
                    SwitchTask { target: task.target, phase: SwitchPhase::IssuingSwitch },
                    SwitchRequest::SwitchToDesktop(task.target),
                )
            } else {
                (
                    SwitchTask {
                        target: task.target,
                        phase: SwitchPhase::CreatingDesktops {
                            created: 0,
                            needed: (task.target - c + 1) as u32,
                        },
                    },
                    SwitchRequest::CreateDesktop,
                )
            },
            None => (
                SwitchTask {
                    target: task.target,
                    phase: SwitchPhase::Finished(
                        SwitchOutcome::Failed(SwitchError::CountQueryFailed),
                    ),
                },
                SwitchRequest::ReportFailure(SwitchError::CountQueryFailed),
            ),
        },
        (
            SwitchPhase::CreatingDesktops { created, needed },
            SwitchEvent::DesktopCreated(ok),
        ) => if !ok {
            (
                SwitchTask {
                    target: task.target,
                    phase: SwitchPhase::Finished(SwitchOutcome::Failed(SwitchError::CreationFailed)),
                },
                SwitchRequest::ReportFailure(SwitchError::CreationFailed),
            )
        } else if created + 1 < needed {
            (
                SwitchTask {
                    target: task.target,
                    phase: SwitchPhase::CreatingDesktops {
                        created: (created + 1) as u32,
                        needed,
                    },
                },
                SwitchRequest::CreateDesktop,
            )
        } else {
            (
                SwitchTask { target: task.target, phase: SwitchPhase::IssuingSwitch },
                SwitchRequest::SwitchToDesktop(task.target),
            )
        },
        (SwitchPhase::IssuingSwitch, SwitchEvent::SwitchIssued(ok)) => if ok {
            (
                SwitchTask { target: task.target, phase: SwitchPhase::FindingLanding },
                SwitchRequest::QueryLandingDesktop,
            )
        } else {
            (
                SwitchTask {
                    target: task.target,
                    phase: SwitchPhase::Finished(SwitchOutcome::Failed(SwitchError::SwitchFailed)),
                },
                SwitchRequest::ReportFailure(SwitchError::SwitchFailed),
            )
        },
        (SwitchPhase::FindingLanding, SwitchEvent::LandingQueried(landing)) => match landing {
            Some(desktop) => (
                SwitchTask { target: task.target, phase: SwitchPhase::RestoringFocus { desktop } },
                SwitchRequest::SettleThenRestore(desktop),
            ),
            None => (
                SwitchTask {
                    target: task.target,
                    phase: SwitchPhase::Finished(SwitchOutcome::CompletedNoRestore),
                },
                SwitchRequest::NoRequest,
            ),
        },
        (SwitchPhase::RestoringFocus { desktop }, SwitchEvent::FocusRestored) => (
            SwitchTask {
                target: task.target,
                phase: SwitchPhase::Finished(SwitchOutcome::Completed { desktop }),
            },
            SwitchRequest::NoRequest,
        ),
        _ => (task, SwitchRequest::NoRequest),
    }
}

/// How the registry changes at a step: the departed desktop's foreground
/// window is recorded under the departed desktop's identifier — when both
/// are known — and nothing else ever touches it.
pub open spec fn departure_record(
    registry: Map<u32, u64>,
    phase: SwitchPhase,
    event: SwitchEvent,
) -> Map<u32, u64> {
    match (phase, event) {
        (
            SwitchPhase::RecordingDeparture,
            SwitchEvent::DepartureObserved { desktop, foreground },
        ) => match desktop {
            Some(departed) => if foreground != 0 {
                registry.insert(departed, foreground)
            } else {
                registry
            },
            None => registry,
        },
        _ => registry,
    }
}

impl SwitchTask {
    /// The machine's invariant: the target is an addressable index, and
    /// while desktops are being created the counters stay in bounds.
    pub open spec fn inv(&self) -> bool {
        &&& self.target <= 9
        &&& match self.phase {
            SwitchPhase::CreatingDesktops { created, needed } => created < needed && needed
                <= self.target + 1,
            _ => true,
        }
    }

    /// Begins a switch to a validated target index.
    pub fn new(target: u32) -> (task: SwitchTask)
        requires
            target <= 9,
        ensures
            task.inv(),
            task.target == target,
            task.phase == SwitchPhase::RecordingDeparture,
    {
        SwitchTask { target, phase: SwitchPhase::RecordingDeparture }
    }

    /// Feeds one observed event in; updates the registry when the event is
    /// the departure observation, moves to the next phase, and answers with
    /// the next request, exactly as `switch_step` says.
    pub fn step(&mut self, registry: &mut WindowRegistry, event: SwitchEvent) -> (request:
        SwitchRequest)
        requires
            old(self).inv(),
        ensures
            final(self).inv(),
            final(self).target == old(self).target,
            *final(self) == switch_step(*old(self), event).0,
            request == switch_step(*old(self), event).1,
            final(registry)@ == departure_record(old(registry)@, old(self).phase, event),
    {
        match (self.phase, event) {
            (
                SwitchPhase::RecordingDeparture,
                SwitchEvent::DepartureObserved { desktop, foreground },
            ) => {
                if let Some(departed) = desktop {
                    if foreground != 0 {
                        registry.remember(departed, foreground);
                    }
                }
                self.phase = SwitchPhase::CountingDesktops;
                SwitchRequest::QueryDesktopCount
            },
            (SwitchPhase::CountingDesktops, SwitchEvent::CountQueried(count)) => match count {
                Some(c) => if self.target < c {
                    self.phase = SwitchPhase::IssuingSwitch;
                    SwitchRequest::SwitchToDesktop(self.target)
                } else {
                    let needed: u32 = self.target - c + 1;
                    self.phase = SwitchPhase::CreatingDesktops { created: 0, needed };
                    SwitchRequest::CreateDesktop
                },
                None => {
                    self.phase = SwitchPhase::Finished(
                        SwitchOutcome::Failed(SwitchError::CountQueryFailed),
                    );
                    SwitchRequest::ReportFailure(SwitchError::CountQueryFailed)
                },
            },
            (
                SwitchPhase::CreatingDesktops { created, needed },
                SwitchEvent::DesktopCreated(ok),
            ) => {
                if !ok {
                    self.phase = SwitchPhase::Finished(
                        SwitchOutcome::Failed(SwitchError::CreationFailed),
                    );
                    SwitchRequest::ReportFailure(SwitchError::CreationFailed)
                } else if created + 1 < needed {
                    self.phase = SwitchPhase::CreatingDesktops { created: created + 1, needed };
                    SwitchRequest::CreateDesktop
                } else {
                    self.phase = SwitchPhase::IssuingSwitch;
                    SwitchRequest::SwitchToDesktop(self.target)
                }
            },
            (SwitchPhase::IssuingSwitch, SwitchEvent::SwitchIssued(ok)) => {
                if ok {
                    self.phase = SwitchPhase::FindingLanding;
                    SwitchRequest::QueryLandingDesktop
                } else {
                    self.phase = SwitchPhase::Finished(
                        SwitchOutcome::Failed(SwitchError::SwitchFailed),
                    );
                    SwitchRequest::ReportFailure(SwitchError::SwitchFailed)
                }
            },
            (SwitchPhase::FindingLanding, SwitchEvent::LandingQueried(landing)) => match landing {
                Some(desktop) => {
                    self.phase = SwitchPhase::RestoringFocus { desktop };
                    SwitchRequest::SettleThenRestore(desktop)
                },
                None => {
                    self.phase = SwitchPhase::Finished(SwitchOutcome::CompletedNoRestore);
                    SwitchRequest::NoRequest
                },
            },
            (SwitchPhase::RestoringFocus { desktop }, SwitchEvent::FocusRestored) => {
                self.phase = SwitchPhase::Finished(SwitchOutcome::Completed { desktop });
                SwitchRequest::NoRequest
            },
            _ => SwitchRequest::NoRequest,
        }
    }
}

/// The requests a task issues over a whole sequence of events, first to
/// last, stepping with `switch_step`.
pub open spec fn switch_run(task: SwitchTask, events: Seq<SwitchEvent>) -> Seq<SwitchRequest>
    decreases events.len(),
{
    if events.len() == 0 {
        Seq::<SwitchRequest>::empty()
    } else {
        seq![switch_step(task, events[0]).1] + switch_run(
            switch_step(task, events[0]).0,
            events.drop_first(),
        )
    }
}

/// A run answers every event with exactly one request.
pub proof fn lemma_switch_run_len(task: SwitchTask, events: Seq<SwitchEvent>)
    ensures
        switch_run(task, events).len() == events.len(),
    decreases events.len(),
{
    if events.len() > 0 {
        lemma_switch_run_len(switch_step(task, events[0]).0, events.drop_first());
    }
}

/// Phases from which no desktop creation can ever be requested again: the
/// switch has been issued or the whole operation is over.
pub open spec fn past_creation(phase: SwitchPhase) -> bool {
    ||| phase is IssuingSwitch
    ||| phase is FindingLanding
    ||| phase is RestoringFocus
    ||| phase is Finished
}

/// Once the machine is past creation, it stays there and never requests a
/// desktop creation again, whatever events arrive.
proof fn lemma_past_creation_stays(task: SwitchTask, events: Seq<SwitchEvent>)
    requires
        past_creation(task.phase),
    ensures
        switch_run(task, events).len() == events.len(),
        forall|k: int|
            0 <= k < events.len() ==> switch_run(task, events)[k] != SwitchRequest::CreateDesktop,
    decreases events.len(),
{
    if events.len() > 0 {
        let next = switch_step(task, events[0]).0;
        assert(past_creation(next.phase));
        lemma_past_creation_stays(next, events.drop_first());
        assert forall|k: int|
            0 <= k < events.len() implies switch_run(task, events)[k]
            != SwitchRequest::CreateDesktop by {
            if k > 0 {
                assert(switch_run(task, events)[k] == switch_run(next, events.drop_first())[k
                    - 1]);
            }
        }
    }
}

/// Law: switching to an index below the reported desktop count never
/// requests desktop creation. From the moment the count arrives and shows
/// the target already exists, the machine goes straight to the switch and
/// no later step — whatever else the shell observes — asks for a desktop
/// to be created.
pub proof fn lemma_switch_below_count_never_creates(
    task: SwitchTask,
    count: u32,
    events: Seq<SwitchEvent>,
)
    requires
        task.phase is CountingDesktops,
        task.target < count,
        events.len() > 0,
        events[0] == SwitchEvent::CountQueried(Some(count)),
    ensures
        switch_run(task, events)[0] == SwitchRequest::SwitchToDesktop(task.target),
        forall|k: int|
            0 <= k < events.len() ==> switch_run(task, events)[k] != SwitchRequest::CreateDesktop,
{
    let next = switch_step(task, events[0]).0;
    lemma_past_creation_stays(next, events.drop_first());
    assert forall|k: int|
        0 <= k < events.len() implies switch_run(task, events)[k]
        != SwitchRequest::CreateDesktop by {
        if k > 0 {
            assert(switch_run(task, events)[k] == switch_run(next, events.drop_first())[k - 1]);
        }
    }
}

/// While the machine is creating desktops and every creation succeeds, it
/// requests one creation per missing desktop and then — and only then —
/// the switch.
proof fn lemma_creation_loop(task: SwitchTask, events: Seq<SwitchEvent>)
    requires
        task.inv(),
        task.phase is CreatingDesktops,
        events.len() >= (task.phase->CreatingDesktops_needed - task.phase->CreatingDesktops_created),
        forall|i: int|
            0 <= i < task.phase->CreatingDesktops_needed - task.phase->CreatingDesktops_created
                ==> events[i] == SwitchEvent::DesktopCreated(true),
    ensures
        ({
            let remaining = task.phase->CreatingDesktops_needed
                - task.phase->CreatingDesktops_created;
            &&& forall|i: int|
                0 <= i < remaining - 1 ==> switch_run(task, events)[i]
                    == SwitchRequest::CreateDesktop
            &&& switch_run(task, events)[remaining - 1] == SwitchRequest::SwitchToDesktop(
                task.target,
            )
        }),
    decreases events.len(),
{
    let created = task.phase->CreatingDesktops_created;
    let needed = task.phase->CreatingDesktops_needed;
    let remaining = needed - created;
    let next = switch_step(task, events[0]).0;
    lemma_switch_run_len(task, events);
    lemma_switch_run_len(next, events.drop_first());
    if created + 1 < needed {
        assert(next.phase == (SwitchPhase::CreatingDesktops {
            created: (created + 1) as u32,
            needed,
        }));
        assert(forall|i: int|
            0 <= i < needed - (created + 1) ==> events.drop_first()[i] == events[i + 1]
                && events[i + 1] == SwitchEvent::DesktopCreated(true));
        lemma_creation_loop(next, events.drop_first());
        assert forall|i: int|
            0 <= i < remaining - 1 implies switch_run(task, events)[i]
            == SwitchRequest::CreateDesktop by {
            if i > 0 {
                assert(switch_run(task, events)[i] == switch_run(next, events.drop_first())[i
                    - 1]);
            }
        }
        assert(switch_run(task, events)[remaining - 1] == switch_run(next, events.drop_first())[
            remaining - 2]);
    } else {
        assert(remaining == 1);
        assert(switch_run(task, events)[0] == SwitchRequest::SwitchToDesktop(task.target));
    }
}

/// Law: switching to an index at or beyond the reported count requests
/// exactly `target - count + 1` desktop creations, and the switch itself
/// comes only after the last of them. The count arrives first; as long as
/// every creation succeeds, step `i` requests the `i`-th creation and the
/// step after the final successful creation requests the switch.
pub proof fn lemma_switch_creates_exactly_missing(
    task: SwitchTask,
    count: u32,
    events: Seq<SwitchEvent>,
)
    requires
        task.inv(),
        task.phase is CountingDesktops,
        count <= task.target,
        events.len() > task.target - count + 1,
        events[0] == SwitchEvent::CountQueried(Some(count)),
        forall|i: int|
            1 <= i <= task.target - count + 1 ==> events[i] == SwitchEvent::DesktopCreated(true),
    ensures
        forall|i: int|
            0 <= i < task.target - count + 1 ==> switch_run(task, events)[i]
                == SwitchRequest::CreateDesktop,
        switch_run(task, events)[task.target - count + 1] == SwitchRequest::SwitchToDesktop(
            task.target,
        ),
{
    let missing = task.target - count + 1;
    let next = switch_step(task, events[0]).0;
    lemma_switch_run_len(task, events);
    lemma_switch_run_len(next, events.drop_first());
    assert(next.phase == (SwitchPhase::CreatingDesktops {
        created: 0,
        needed: missing as u32,
    }));
    assert(forall|i: int|
        0 <= i < missing ==> events.drop_first()[i] == events[i + 1] && events[i + 1]
            == SwitchEvent::DesktopCreated(true));
    lemma_creation_loop(next, events.drop_first());
    assert forall|i: int|
        0 <= i < missing implies switch_run(task, events)[i] == SwitchRequest::CreateDesktop by {
        if i > 0 {
            assert(switch_run(task, events)[i] == switch_run(next, events.drop_first())[i - 1]);
        }
    }
    assert(switch_run(task, events)[missing] == switch_run(next, events.drop_first())[missing - 1]);
}

/// A finished task issues no request of any kind, whatever events arrive.
proof fn lemma_finished_is_quiet(task: SwitchTask, events: Seq<SwitchEvent>)
    requires
        task.phase is Finished,
    ensures
        forall|k: int|
            0 <= k < events.len() ==> switch_run(task, events)[k] == SwitchRequest::NoRequest,
    decreases events.len(),
{
    if events.len() > 0 {
        let next = switch_step(task, events[0]).0;
        lemma_switch_run_len(task, events);
        lemma_switch_run_len(next, events.drop_first());
        lemma_finished_is_quiet(next, events.drop_first());
        assert forall|k: int|
            0 <= k < events.len() implies switch_run(task, events)[k]
            == SwitchRequest::NoRequest by {
            if k > 0 {
                assert(switch_run(task, events)[k] == switch_run(next, events.drop_first())[k
                    - 1]);
            }
        }
    }
}

/// Law: a failed creation aborts the whole switch before it happens. The
/// step that sees the failure reports it to the user, and no step — then
/// or later — requests the switch or another creation.
pub proof fn lemma_creation_failure_aborts(task: SwitchTask, events: Seq<SwitchEvent>)
    requires
        task.phase is CreatingDesktops,
        events.len() > 0,
        events[0] == SwitchEvent::DesktopCreated(false),
    ensures
        switch_run(task, events)[0] == SwitchRequest::ReportFailure(SwitchError::CreationFailed),
        forall|k: int| 0 <= k < events.len() ==> !(switch_run(task, events)[k] is SwitchToDesktop),
        forall|k: int|
            0 <= k < events.len() ==> switch_run(task, events)[k] != SwitchRequest::CreateDesktop,
{
    let next = switch_step(task, events[0]).0;
    lemma_switch_run_len(task, events);
    lemma_switch_run_len(next, events.drop_first());
    lemma_finished_is_quiet(next, events.drop_first());
    assert forall|k: int|
        0 <= k < events.len() implies !(switch_run(task, events)[k] is SwitchToDesktop)
            && switch_run(task, events)[k] != SwitchRequest::CreateDesktop by {
        if k > 0 {
            assert(switch_run(task, events)[k] == switch_run(next, events.drop_first())[k - 1]);
        }
    }
}

/// Law: once the switch call has succeeded, nothing that follows — landing
/// query failing, focus restoration running on any observation — ever
/// reports an error to the user. Together with `crate::focus`, this is why
/// focus restoration is never user-visible when it goes wrong.
pub proof fn lemma_no_failure_after_switch(task: SwitchTask, events: Seq<SwitchEvent>)
    requires
        task.phase is IssuingSwitch,
        events.len() > 0,
        events[0] == SwitchEvent::SwitchIssued(true),
    ensures
        switch_run(task, events)[0] == SwitchRequest::QueryLandingDesktop,
        forall|k: int|
            1 <= k < events.len() ==> !(switch_run(task, events)[k] is ReportFailure),
{
    let next = switch_step(task, events[0]).0;
    lemma_switch_run_len(task, events);
    lemma_switch_run_len(next, events.drop_first());
    lemma_landed_never_fails(next, events.drop_first());
    assert forall|k: int|
        1 <= k < events.len() implies !(switch_run(task, events)[k] is ReportFailure) by {
        assert(switch_run(task, events)[k] == switch_run(next, events.drop_first())[k - 1]);
    }
}

/// Phases after a successful switch: landing, restoring, or finished.
pub open spec fn landed(phase: SwitchPhase) -> bool {
    ||| phase is FindingLanding
    ||| phase is RestoringFocus
    ||| phase is Finished
}

/// From any phase after a successful switch, no step reports a failure.
proof fn lemma_landed_never_fails(task: SwitchTask, events: Seq<SwitchEvent>)
    requires
        landed(task.phase),
    ensures
        forall|k: int|
            0 <= k < events.len() ==> !(switch_run(task, events)[k] is ReportFailure),
    decreases events.len(),
{
    if events.len() > 0 {
        let next = switch_step(task, events[0]).0;
        assert(landed(next.phase));
        lemma_switch_run_len(task, events);
        lemma_switch_run_len(next, events.drop_first());
        lemma_landed_never_fails(next, events.drop_first());
        assert forall|k: int|
            0 <= k < events.len() implies !(switch_run(task, events)[k] is ReportFailure) by {
            if k > 0 {
                assert(switch_run(task, events)[k] == switch_run(next, events.drop_first())[k
                    - 1]);
            }
        }
    }
}

/// Law: the departure observation records the departed desktop's
/// foreground window under that desktop's identifier, overwriting any
/// earlier entry rather than adding a second one, and leaving every other
/// desktop's entry alone. When there is no foreground window, or the
/// departed desktop is unknown, nothing is recorded.
pub proof fn lemma_departure_recording(
    registry: Map<u32, u64>,
    departed: u32,
    foreground: u64,
    phase: SwitchPhase,
)
    requires
        phase is RecordingDeparture,
    ensures
        foreground != 0 ==> ({
            let updated = departure_record(
                registry,
                phase,
                SwitchEvent::DepartureObserved { desktop: Some(departed), foreground },
            );
            &&& updated == registry.insert(departed, foreground)
            &&& updated[departed] == foreground
            &&& updated.dom() == registry.dom().insert(departed)
            &&& forall|other: u32|
                other != departed && registry.contains_key(other) ==> #[trigger] updated[other]
                    == registry[other]
        }),
        departure_record(
            registry,
            phase,
            SwitchEvent::DepartureObserved { desktop: Some(departed), foreground: 0 },
        ) == registry,
        departure_record(
            registry,
            phase,
            SwitchEvent::DepartureObserved { desktop: None, foreground },
        ) == registry,
{
    if foreground != 0 {
        assert(registry.insert(departed, foreground).dom() =~= registry.dom().insert(departed));
    }
}

} // verus!
