//! Focus restorer: after a switch lands on a desktop, try to put the
//! remembered window for that desktop back in the foreground; when it is
//! absent, stale, migrated, or refuses the foreground, fall back to the
//! first qualifying window the finder sees. Every path ends in a quiet
//! outcome — at most a log line, never an error shown to the user.

use crate::finder::{first_match, WindowProbe};
use vstd::prelude::*;

verus! {

/// A remembered window may take the focus only when it still refers to a
/// window, is visible, is not a child window, and still lives on the
/// desktop it was remembered for (a window the user dragged elsewhere does
/// not count).
pub open spec fn remembered_usable(probe: WindowProbe, desktop: u32) -> bool {
    &&& probe.is_window
    &&& probe.visible
    &&& !probe.child
    &&& probe.desktop == Some(desktop)
}

/// Re-validates a remembered window against the probes the shell took for
/// it. `true` means restoration may try to bring it to the foreground;
/// `false` sends restoration to the finder fallback.
pub fn assess_remembered(probe: &WindowProbe, desktop: u32) -> (usable: bool)
    ensures
        usable == remembered_usable(*probe, desktop),
{
    probe.is_window && probe.visible && !probe.child && match probe.desktop {
        Some(owner) => owner == desktop,
        None => false,
    }
}

/// How a focus-restoration attempt ended. No variant is an error: each one
/// is reported at most as a log line, so a stale or missing window never
/// interrupts hotkey handling.
#[derive(Clone, Copy, Debug, PartialEq, Eq, Structural)]
pub enum FocusOutcome {
    /// The remembered window was still usable and took the foreground.
    RememberedFocused(u64),
    /// The finder's first candidate took the foreground.
    FallbackFocused(u64),
    /// The finder found a candidate but the foreground call failed;
    /// logged, nothing further is tried.
    FallbackFocusFailed(u64),
    /// No remembered window was usable and no candidate was found; the
    /// desktop is left without an explicit focus change.
    NothingToFocus,
}

/// Outcome of the finder fallback alone.
pub open spec fn fallback_outcome(
    candidates: Seq<WindowProbe>,
    fallback_foreground_ok: bool,
    desktop: u32,
) -> FocusOutcome {
    match first_match(candidates, desktop) {
        Some(handle) => if fallback_foreground_ok {
            FocusOutcome::FallbackFocused(handle)
        } else {
            FocusOutcome::FallbackFocusFailed(handle)
        },
        None => FocusOutcome::NothingToFocus,
    }
}

/// The outcome restoration reaches, given what the shell observed: the
/// probes for the remembered window (if the registry had one), whether the
/// foreground call on it succeeded, the enumeration snapshot for the
/// fallback, and whether the foreground call on the fallback succeeded.
pub open spec fn restoration_outcome(
    remembered: Option<WindowProbe>,
    remembered_foreground_ok: bool,
    candidates: Seq<WindowProbe>,
    fallback_foreground_ok: bool,
    desktop: u32,
) -> FocusOutcome {
    match remembered {
        Some(probe) => if remembered_usable(probe, desktop) && remembered_foreground_ok {
            FocusOutcome::RememberedFocused(probe.handle)
        } else {
            fallback_outcome(candidates, fallback_foreground_ok, desktop)
        },
        None => fallback_outcome(candidates, fallback_foreground_ok, desktop),
    }
}

/// Decides how a restoration attempt ends. `remembered` carries the probes
/// taken for the registry's entry (or `None` when the registry had none),
/// `remembered_foreground_ok` whether that window accepted the foreground,
/// `candidates` the enumeration snapshot in order, and
/// `fallback_foreground_ok` whether the fallback accepted the foreground.
/// The registry itself is read, never changed, by restoration: a stale
/// entry stays where it is and is merely passed over.
pub fn restore_focus_outcome(
    remembered: Option<WindowProbe>,
    remembered_foreground_ok: bool,
    candidates: &Vec<WindowProbe>,
    fallback_foreground_ok: bool,
    desktop: u32,
) -> (outcome: FocusOutcome)
    ensures
        outcome == restoration_outcome(
            remembered,
            remembered_foreground_ok,
            candidates@,
            fallback_foreground_ok,
            desktop,
        ),
{
    if let Some(probe) = remembered {
        if assess_remembered(&probe, desktop) && remembered_foreground_ok {
            return FocusOutcome::RememberedFocused(probe.handle);
        }
    }
    let found = crate::finder::find_window_on(candidates, desktop);
    match found.0 {
        Some(handle) => if fallback_foreground_ok {
            FocusOutcome::FallbackFocused(handle)
        } else {
            FocusOutcome::FallbackFocusFailed(handle)
        },
        None => FocusOutcome::NothingToFocus,
    }
}

/// Law: focus restoration never raises a user-visible error. It has no
/// precondition — whatever the shell observed (remembered window absent,
/// stale, migrated, or healthy; foreground calls succeeding or failing;
/// any enumeration snapshot), it reaches one of the four quiet outcomes,
/// and when the remembered window is unusable in any way it falls back to
/// the finder instead of failing.
pub proof fn lemma_restoration_never_errors(
    remembered: Option<WindowProbe>,
    remembered_foreground_ok: bool,
    candidates: Seq<WindowProbe>,
    fallback_foreground_ok: bool,
    desktop: u32,
)
    ensures
        ({
            let outcome = restoration_outcome(
                remembered,
                remembered_foreground_ok,
                candidates,
                fallback_foreground_ok,
                desktop,
            );
            ||| outcome is RememberedFocused
            ||| outcome is FallbackFocused
            ||| outcome is FallbackFocusFailed
            ||| outcome is NothingToFocus
        }),
        remembered is Some && !remembered_usable(remembered->Some_0, desktop)
            ==> restoration_outcome(
            remembered,
            remembered_foreground_ok,
            candidates,
            fallback_foreground_ok,
            desktop,
        ) == fallback_outcome(candidates, fallback_foreground_ok, desktop),
{
}

} // verus!
