use deskhopper::dispatch::{move_action_for_digit, switch_action_for_digit, DispatchTable, HotkeyAction};
use deskhopper::finder::{find_window_on, window_qualifies, WindowProbe};
use deskhopper::focus::{assess_remembered, restore_focus_outcome, FocusOutcome};
use deskhopper::registry::WindowRegistry;

fn probe(handle: u64, visible: bool, child: bool, title_readable: bool, desktop: Option<u32>) -> WindowProbe {
    WindowProbe { handle, is_window: true, visible, child, title_readable, desktop }
}

#[test]
fn switch_hotkeys_map_digits_to_indices() {
    for digit in 1..=9u32 {
        assert_eq!(switch_action_for_digit(digit), HotkeyAction::Switch(digit - 1));
    }
    assert_eq!(switch_action_for_digit(0), HotkeyAction::Switch(9));
}

#[test]
fn move_hotkeys_map_digits_to_indices() {
    for digit in 1..=9u32 {
        assert_eq!(move_action_for_digit(digit), HotkeyAction::MoveWindow(digit - 1));
    }
    assert_eq!(move_action_for_digit(0), HotkeyAction::MoveWindow(9));
}

#[test]
fn dispatch_table_resolves_bound_identifiers() {
    let mut table = DispatchTable::new();
    table.bind_switch(101, 1);
    table.bind_switch(110, 0);
    table.bind_move(201, 3);
    assert_eq!(table.resolve(101), Some(HotkeyAction::Switch(0)));
    assert_eq!(table.resolve(110), Some(HotkeyAction::Switch(9)));
    assert_eq!(table.resolve(201), Some(HotkeyAction::MoveWindow(2)));
    assert_eq!(table.resolve(999), None);
}

#[test]
fn dispatch_table_last_binding_wins() {
    let mut table = DispatchTable::new();
    table.bind(7, HotkeyAction::Switch(1));
    table.bind(7, HotkeyAction::MoveWindow(4));
    assert_eq!(table.resolve(7), Some(HotkeyAction::MoveWindow(4)));
}

#[test]
fn registry_remembers_last_window_per_desktop() {
    let mut registry = WindowRegistry::new();
    assert_eq!(registry.lookup(0), None);
    registry.remember(0, 41);
    registry.remember(2, 55);
    assert_eq!(registry.lookup(0), Some(41));
    assert_eq!(registry.lookup(2), Some(55));
    assert_eq!(registry.lookup(1), None);
}

#[test]
fn registry_overwrites_instead_of_duplicating() {
    let mut registry = WindowRegistry::new();
    registry.remember(3, 41);
    registry.remember(3, 99);
    assert_eq!(registry.lookup(3), Some(99));
}

#[test]
fn finder_takes_first_qualifying_window_and_stops() {
    let windows = vec![
        probe(1, false, false, true, Some(4)),   // invisible
        probe(2, true, true, true, Some(4)),     // child window
        probe(3, true, false, false, Some(4)),   // title unreadable
        probe(4, true, false, true, Some(7)),    // other desktop
        probe(5, true, false, true, None),       // desktop query failed
        probe(6, true, false, true, Some(4)),    // first qualifying
        probe(7, true, false, true, Some(4)),    // never examined
    ];
    let (found, examined) = find_window_on(&windows, 4);
    assert_eq!(found, Some(6));
    assert_eq!(examined, 6);
}

#[test]
fn finder_reports_nothing_when_no_window_qualifies() {
    let windows = vec![
        probe(1, false, false, true, Some(4)),
        probe(2, true, false, true, Some(5)),
    ];
    let (found, examined) = find_window_on(&windows, 4);
    assert_eq!(found, None);
    assert_eq!(examined, 2);
}

#[test]
fn finder_step_checks_each_condition() {
    assert!(window_qualifies(&probe(9, true, false, true, Some(2)), 2));
    assert!(!window_qualifies(&probe(9, false, false, true, Some(2)), 2));
    assert!(!window_qualifies(&probe(9, true, true, true, Some(2)), 2));
    assert!(!window_qualifies(&probe(9, true, false, false, Some(2)), 2));
    assert!(!window_qualifies(&probe(9, true, false, true, Some(3)), 2));
    assert!(!window_qualifies(&probe(9, true, false, true, None), 2));
}

#[test]
fn restoration_uses_healthy_remembered_window() {
    let remembered = probe(42, true, false, true, Some(1));
    let outcome = restore_focus_outcome(Some(remembered), true, &vec![], true, 1);
    assert_eq!(outcome, FocusOutcome::RememberedFocused(42));
}

#[test]
fn restoration_falls_back_when_remembered_window_migrated() {
    // The remembered window for desktop 1 now lives on desktop 4: restoration
    // must pass it over and take the finder's candidate, and the registry
    // entry stays as it was.
    let mut registry = WindowRegistry::new();
    registry.remember(1, 42);
    let remembered = probe(registry.lookup(1).unwrap(), true, false, true, Some(4));
    assert!(!assess_remembered(&remembered, 1));
    let candidates = vec![probe(77, true, false, true, Some(1))];
    let outcome = restore_focus_outcome(Some(remembered), true, &candidates, true, 1);
    assert_eq!(outcome, FocusOutcome::FallbackFocused(77));
    assert_eq!(registry.lookup(1), Some(42));
}

#[test]
fn restoration_quiet_when_nothing_is_usable() {
    // Remembered handle no longer refers to a window, and nothing on the
    // desktop qualifies: the attempt ends quietly with no focus change.
    let stale = WindowProbe {
        handle: 42,
        is_window: false,
        visible: false,
        child: false,
        title_readable: false,
        desktop: None,
    };
    let outcome = restore_focus_outcome(Some(stale), true, &vec![], true, 6);
    assert_eq!(outcome, FocusOutcome::NothingToFocus);
}

#[test]
fn restoration_reports_failed_fallback_as_log_only_outcome() {
    let candidates = vec![probe(8, true, false, true, Some(0))];
    let outcome = restore_focus_outcome(None, true, &candidates, false, 0);
    assert_eq!(outcome, FocusOutcome::FallbackFocusFailed(8));
}

#[test]
fn restoration_falls_back_when_remembered_refuses_foreground() {
    let remembered = probe(42, true, false, true, Some(2));
    let candidates = vec![probe(9, true, false, true, Some(2))];
    let outcome = restore_focus_outcome(Some(remembered), false, &candidates, true, 2);
    assert_eq!(outcome, FocusOutcome::FallbackFocused(9));
}
