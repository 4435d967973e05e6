//! Core logic of a virtual-desktop hotkey tool: the hotkey dispatch table,
//! the per-desktop last-active-window registry, the fallback window finder,
//! the focus restorer, and the state machines that drive desktop switching
//! and window moving.
//!
//! Everything here works on plain values (desktop indices, desktop
//! identifiers, window handles as numbers, probe results). The surrounding
//! shell performs the actual operating-system calls and feeds their results
//! back into these state machines one event at a time.

pub mod dispatch;
pub mod finder;
pub mod focus;
pub mod mover;
pub mod navigator;
pub mod registry;
