//! Hotkey dispatch: which action each digit key stands for, and the table
//! from system-assigned hotkey identifiers to actions.

use std::collections::HashMap;
use vstd::prelude::*;

verus! {

broadcast use vstd::std_specs::hash::group_hash_axioms;

/// Action bound to a hotkey: switch to a desktop, or move the foreground
/// window there. The payload is a zero-based desktop index in `0..=9`.
#[derive(Clone, Copy, Debug, PartialEq, Eq, Structural)]
pub enum HotkeyAction {
    Switch(u32),
    MoveWindow(u32),
}

/// Desktop index addressed by a digit key: keys `1..=9` address indices
/// `0..=8`, and the `0` key addresses index `9`.
pub open spec fn index_for_digit(digit: u32) -> u32 {
    if digit == 0 {
        9
    } else {
        (digit - 1) as u32
    }
}

/// Action registered for a switch hotkey on the given digit key.
pub fn switch_action_for_digit(digit: u32) -> (action: HotkeyAction)
    requires
        digit <= 9,
    ensures
        action == HotkeyAction::Switch(index_for_digit(digit)),
        digit == 0 ==> action == HotkeyAction::Switch(9u32),
        digit >= 1 ==> action == HotkeyAction::Switch((digit - 1) as u32),
{
    if digit == 0 {
        HotkeyAction::Switch(9)
    } else {
        HotkeyAction::Switch(digit - 1)
    }
}

/// Action registered for a move hotkey on the given digit key.
pub fn move_action_for_digit(digit: u32) -> (action: HotkeyAction)
    requires
        digit <= 9,
    ensures
        action == HotkeyAction::MoveWindow(index_for_digit(digit)),
        digit == 0 ==> action == HotkeyAction::MoveWindow(9u32),
        digit >= 1 ==> action == HotkeyAction::MoveWindow((digit - 1) as u32),
{
    if digit == 0 {
        HotkeyAction::MoveWindow(9)
    } else {
        HotkeyAction::MoveWindow(digit - 1)
    }
}

/// Law: every digit key resolves to the action on its own desktop index.
/// After a switch hotkey for `digit` is bound under the identifier the
/// hotkey subsystem assigned, that identifier resolves to `Switch` of the
/// digit's index — `digit - 1` for keys `1..=9`, `9` for the `0` key — and
/// the move hotkeys follow the same rule with `MoveWindow`.
pub proof fn lemma_bound_digit_resolves(table: Map<u32, HotkeyAction>, id: u32, digit: u32)
    requires
        digit <= 9,
    ensures
        table.insert(id, HotkeyAction::Switch(index_for_digit(digit)))[id] == HotkeyAction::Switch(
            index_for_digit(digit),
        ),
        table.insert(id, HotkeyAction::MoveWindow(index_for_digit(digit)))[id]
            == HotkeyAction::MoveWindow(index_for_digit(digit)),
        1 <= digit <= 9 ==> index_for_digit(digit) == digit - 1,
        digit == 0 ==> index_for_digit(digit) == 9,
{
}

/// Table from hotkey identifier (assigned by the hotkey subsystem at
/// registration time) to the action registered under it.
pub struct DispatchTable {
    actions: HashMap<u32, HotkeyAction>,
}

impl View for DispatchTable {
    type V = Map<u32, HotkeyAction>;

    closed spec fn view(&self) -> Map<u32, HotkeyAction> {
        self.actions@
    }
}

impl DispatchTable {
    /// An empty table: no identifier resolves to anything.
    pub fn new() -> (table: DispatchTable)
        ensures
            table@ == Map::<u32, HotkeyAction>::empty(),
    {
        DispatchTable { actions: HashMap::new() }
    }

    /// Records the action registered under a hotkey identifier. A later
    /// binding for the same identifier replaces the earlier one.
    pub fn bind(&mut self, id: u32, action: HotkeyAction)
        ensures
            final(self)@ == old(self)@.insert(id, action),
    {
        self.actions.insert(id, action);
    }

    /// Binds the identifier the hotkey subsystem assigned to the switch
    /// hotkey on the given digit key.
    pub fn bind_switch(&mut self, id: u32, digit: u32)
        requires
            digit <= 9,
        ensures
            final(self)@ == old(self)@.insert(id, HotkeyAction::Switch(index_for_digit(digit))),
    {
        let action = switch_action_for_digit(digit);
        self.actions.insert(id, action);
    }

    /// Binds the identifier the hotkey subsystem assigned to the move
    /// hotkey on the given digit key.
    pub fn bind_move(&mut self, id: u32, digit: u32)
        requires
            digit <= 9,
        ensures
            final(self)@ == old(self)@.insert(id, HotkeyAction::MoveWindow(index_for_digit(digit))),
    {
        let action = move_action_for_digit(digit);
        self.actions.insert(id, action);
    }

    /// Looks up the action for a pressed hotkey; `None` for an identifier
    /// that was never bound.
    pub fn resolve(&self, id: u32) -> (action: Option<HotkeyAction>)
        ensures
            action == if self@.contains_key(id) {
                Some(self@[id])
            } else {
                None::<HotkeyAction>
            },
    {
        match self.actions.get(&id) {
            Some(action) => Some(*action),
            None => None,
        }
    }
}

} // verus!
