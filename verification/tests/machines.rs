use deskhopper::mover::{MoveError, MoveEvent, MoveOutcome, MovePhase, MoveRequest, MoveTask};
use deskhopper::navigator::{
    SwitchError, SwitchEvent, SwitchOutcome, SwitchPhase, SwitchRequest, SwitchTask,
};
use deskhopper::registry::WindowRegistry;

#[test]
fn switch_below_count_goes_straight_to_switch() {
    let mut registry = WindowRegistry::new();
    let mut task = SwitchTask::new(1);
    let r = task.step(
        &mut registry,
        SwitchEvent::DepartureObserved { desktop: Some(0), foreground: 42 },
    );
    assert_eq!(r, SwitchRequest::QueryDesktopCount);
    let r = task.step(&mut registry, SwitchEvent::CountQueried(Some(3)));
    assert_eq!(r, SwitchRequest::SwitchToDesktop(1));
    let r = task.step(&mut registry, SwitchEvent::SwitchIssued(true));
    assert_eq!(r, SwitchRequest::QueryLandingDesktop);
}

#[test]
fn switch_to_new_desktop_creates_the_missing_ones() {
    // Registry empty, two desktops exist, switch to index 3 from desktop 0:
    // two creations, then the switch, the departed desktop's foreground
    // window recorded, and no remembered window for the new desktop, so the
    // finder fallback is what restoration will use.
    let mut registry = WindowRegistry::new();
    let mut task = SwitchTask::new(3);
    let r = task.step(
        &mut registry,
        SwitchEvent::DepartureObserved { desktop: Some(0), foreground: 42 },
    );
    assert_eq!(r, SwitchRequest::QueryDesktopCount);
    assert_eq!(registry.lookup(0), Some(42));
    let r = task.step(&mut registry, SwitchEvent::CountQueried(Some(2)));
    assert_eq!(r, SwitchRequest::CreateDesktop);
    let r = task.step(&mut registry, SwitchEvent::DesktopCreated(true));
    assert_eq!(r, SwitchRequest::CreateDesktop);
    let r = task.step(&mut registry, SwitchEvent::DesktopCreated(true));
    assert_eq!(r, SwitchRequest::SwitchToDesktop(3));
    let r = task.step(&mut registry, SwitchEvent::SwitchIssued(true));
    assert_eq!(r, SwitchRequest::QueryLandingDesktop);
    let r = task.step(&mut registry, SwitchEvent::LandingQueried(Some(3)));
    assert_eq!(r, SwitchRequest::SettleThenRestore(3));
    assert_eq!(registry.lookup(3), None);
    let r = task.step(&mut registry, SwitchEvent::FocusRestored);
    assert_eq!(r, SwitchRequest::NoRequest);
    assert_eq!(task.phase, SwitchPhase::Finished(SwitchOutcome::Completed { desktop: 3 }));
}

#[test]
fn switch_records_departure_overwriting_previous_entry() {
    let mut registry = WindowRegistry::new();
    registry.remember(0, 7);
    let mut task = SwitchTask::new(2);
    task.step(
        &mut registry,
        SwitchEvent::DepartureObserved { desktop: Some(0), foreground: 42 },
    );
    assert_eq!(registry.lookup(0), Some(42));
}

#[test]
fn switch_with_null_foreground_records_nothing() {
    let mut registry = WindowRegistry::new();
    let mut task = SwitchTask::new(2);
    let r = task.step(
        &mut registry,
        SwitchEvent::DepartureObserved { desktop: Some(0), foreground: 0 },
    );
    assert_eq!(r, SwitchRequest::QueryDesktopCount);
    assert_eq!(registry.lookup(0), None);
}

#[test]
fn switch_with_unknown_departure_desktop_records_nothing_and_goes_on() {
    let mut registry = WindowRegistry::new();
    let mut task = SwitchTask::new(2);
    let r = task.step(
        &mut registry,
        SwitchEvent::DepartureObserved { desktop: None, foreground: 42 },
    );
    assert_eq!(r, SwitchRequest::QueryDesktopCount);
    assert_eq!(registry.lookup(0), None);
}

#[test]
fn switch_aborts_when_count_query_fails() {
    let mut registry = WindowRegistry::new();
    let mut task = SwitchTask::new(4);
    task.step(
        &mut registry,
        SwitchEvent::DepartureObserved { desktop: Some(1), foreground: 42 },
    );
    let r = task.step(&mut registry, SwitchEvent::CountQueried(None));
    assert_eq!(r, SwitchRequest::ReportFailure(SwitchError::CountQueryFailed));
    assert_eq!(
        task.phase,
        SwitchPhase::Finished(SwitchOutcome::Failed(SwitchError::CountQueryFailed))
    );
}

#[test]
fn switch_aborts_before_switching_when_a_creation_fails() {
    let mut registry = WindowRegistry::new();
    let mut task = SwitchTask::new(5);
    task.step(
        &mut registry,
        SwitchEvent::DepartureObserved { desktop: Some(0), foreground: 42 },
    );
    let r = task.step(&mut registry, SwitchEvent::CountQueried(Some(4)));
    assert_eq!(r, SwitchRequest::CreateDesktop);
    let r = task.step(&mut registry, SwitchEvent::DesktopCreated(false));
    assert_eq!(r, SwitchRequest::ReportFailure(SwitchError::CreationFailed));
    // The machine is finished: nothing further is requested, in particular
    // no switch.
    let r = task.step(&mut registry, SwitchEvent::DesktopCreated(true));
    assert_eq!(r, SwitchRequest::NoRequest);
    let r = task.step(&mut registry, SwitchEvent::SwitchIssued(true));
    assert_eq!(r, SwitchRequest::NoRequest);
    assert_eq!(
        task.phase,
        SwitchPhase::Finished(SwitchOutcome::Failed(SwitchError::CreationFailed))
    );
}

#[test]
fn switch_failure_is_reported_and_skips_restoration() {
    let mut registry = WindowRegistry::new();
    let mut task = SwitchTask::new(1);
    task.step(
        &mut registry,
        SwitchEvent::DepartureObserved { desktop: Some(0), foreground: 42 },
    );
    task.step(&mut registry, SwitchEvent::CountQueried(Some(3)));
    let r = task.step(&mut registry, SwitchEvent::SwitchIssued(false));
    assert_eq!(r, SwitchRequest::ReportFailure(SwitchError::SwitchFailed));
    let r = task.step(&mut registry, SwitchEvent::LandingQueried(Some(1)));
    assert_eq!(r, SwitchRequest::NoRequest);
}

#[test]
fn switch_without_landing_desktop_skips_restoration_quietly() {
    let mut registry = WindowRegistry::new();
    let mut task = SwitchTask::new(1);
    task.step(
        &mut registry,
        SwitchEvent::DepartureObserved { desktop: Some(0), foreground: 42 },
    );
    task.step(&mut registry, SwitchEvent::CountQueried(Some(3)));
    task.step(&mut registry, SwitchEvent::SwitchIssued(true));
    let r = task.step(&mut registry, SwitchEvent::LandingQueried(None));
    assert_eq!(r, SwitchRequest::NoRequest);
    assert_eq!(task.phase, SwitchPhase::Finished(SwitchOutcome::CompletedNoRestore));
}

#[test]
fn move_with_no_foreground_window_fails_immediately() {
    // Null handle: the failure is reported at once, and no desktop creation
    // or move call ever follows.
    let mut task = MoveTask::new(5);
    let r = task.step(MoveEvent::ForegroundCaptured(0));
    assert_eq!(r, MoveRequest::ReportFailure(MoveError::NoForegroundWindow));
    let r = task.step(MoveEvent::CountQueried(Some(1)));
    assert_eq!(r, MoveRequest::NoRequest);
    let r = task.step(MoveEvent::DesktopCreated(true));
    assert_eq!(r, MoveRequest::NoRequest);
    assert_eq!(task.phase, MovePhase::Finished(MoveOutcome::Failed(MoveError::NoForegroundWindow)));
}

#[test]
fn move_beyond_count_creates_desktops_first() {
    let mut task = MoveTask::new(4);
    let r = task.step(MoveEvent::ForegroundCaptured(11));
    assert_eq!(r, MoveRequest::QueryDesktopCount);
    let r = task.step(MoveEvent::CountQueried(Some(3)));
    assert_eq!(r, MoveRequest::CreateDesktop);
    let r = task.step(MoveEvent::DesktopCreated(true));
    assert_eq!(r, MoveRequest::CreateDesktop);
    let r = task.step(MoveEvent::DesktopCreated(true));
    assert_eq!(r, MoveRequest::MoveWindow { window: 11, target: 4 });
    let r = task.step(MoveEvent::MoveIssued(true));
    assert_eq!(r, MoveRequest::NoRequest);
    assert_eq!(task.phase, MovePhase::Finished(MoveOutcome::Moved { window: 11 }));
}

#[test]
fn move_below_count_moves_without_creating() {
    let mut task = MoveTask::new(1);
    task.step(MoveEvent::ForegroundCaptured(11));
    let r = task.step(MoveEvent::CountQueried(Some(3)));
    assert_eq!(r, MoveRequest::MoveWindow { window: 11, target: 1 });
}

#[test]
fn move_aborts_when_count_query_fails() {
    let mut task = MoveTask::new(2);
    task.step(MoveEvent::ForegroundCaptured(11));
    let r = task.step(MoveEvent::CountQueried(None));
    assert_eq!(r, MoveRequest::ReportFailure(MoveError::CountQueryFailed));
}

#[test]
fn move_aborts_when_a_creation_fails() {
    let mut task = MoveTask::new(6);
    task.step(MoveEvent::ForegroundCaptured(11));
    let r = task.step(MoveEvent::CountQueried(Some(5)));
    assert_eq!(r, MoveRequest::CreateDesktop);
    let r = task.step(MoveEvent::DesktopCreated(false));
    assert_eq!(r, MoveRequest::ReportFailure(MoveError::CreationFailed));
    let r = task.step(MoveEvent::MoveIssued(true));
    assert_eq!(r, MoveRequest::NoRequest);
}

#[test]
fn move_failure_is_reported_without_retry() {
    let mut task = MoveTask::new(0);
    task.step(MoveEvent::ForegroundCaptured(11));
    task.step(MoveEvent::CountQueried(Some(2)));
    let r = task.step(MoveEvent::MoveIssued(false));
    assert_eq!(r, MoveRequest::ReportFailure(MoveError::MoveFailed));
    assert_eq!(task.phase, MovePhase::Finished(MoveOutcome::Failed(MoveError::MoveFailed)));
}
