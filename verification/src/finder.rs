//! Window finder: the fallback that picks a window to focus on a desktop.
//! It scans top-level windows in enumeration order and takes the first one
//! that is visible, not a child window, has a readable title, and belongs
//! to the target desktop — stopping at that first match.

use vstd::prelude::*;

verus! {

/// What the shell observed about one top-level window: each field is the
/// answer of one probe call, taken at enumeration time. A handle is a plain
/// number; `0` stands for the null handle.
#[derive(Clone, Copy, Debug)]
pub struct WindowProbe {
    /// The window handle the probes were made for.
    pub handle: u64,
    /// The handle still refers to a window.
    pub is_window: bool,
    /// The window is visible.
    pub visible: bool,
    /// The child-window style bit is set.
    pub child: bool,
    /// Reading the window title succeeded (a lightweight existence probe).
    pub title_readable: bool,
    /// The desktop identifier the window belongs to; `None` when the query
    /// failed.
    pub desktop: Option<u32>,
}

/// A window qualifies as a focus candidate for `target` when it is visible,
/// not a child window, its title could be read, and it belongs to `target`.
pub open spec fn finder_qualifies(window: WindowProbe, target: u32) -> bool {
    &&& window.visible
    &&& !window.child
    &&& window.title_readable
    &&& window.desktop == Some(target)
}

/// The handle of the first window in enumeration order that qualifies for
/// `target`, or `None` when no window does.
pub open spec fn first_match(windows: Seq<WindowProbe>, target: u32) -> Option<u64>
    decreases windows.len(),
{
    if windows.len() == 0 {
        None
    } else if finder_qualifies(windows[0], target) {
        Some(windows[0].handle)
    } else {
        first_match(windows.drop_first(), target)
    }
}

/// One enumeration step: whether this window is a qualifying focus
/// candidate for `target`. The shell's per-window callback asks this and
/// ends the enumeration on the first `true`.
pub fn window_qualifies(window: &WindowProbe, target: u32) -> (qualifies: bool)
    ensures
        qualifies == finder_qualifies(*window, target),
{
    window.visible && !window.child && window.title_readable && match window.desktop {
        Some(desktop) => desktop == target,
        None => false,
    }
}

/// Skipping windows that do not qualify leaves the first match unchanged.
proof fn lemma_first_match_skip(windows: Seq<WindowProbe>, target: u32, i: int)
    requires
        0 <= i <= windows.len(),
        forall|j: int| 0 <= j < i ==> !finder_qualifies(windows[j], target),
    ensures
        first_match(windows, target) == first_match(windows.skip(i), target),
    decreases i,
{
    if i == 0 {
        assert(windows.skip(0) =~= windows);
    } else {
        lemma_first_match_skip(windows, target, i - 1);
        assert(windows.skip(i - 1)[0] == windows[i - 1]);
        assert(windows.skip(i - 1).drop_first() =~= windows.skip(i));
    }
}

/// Finds the first qualifying window for `target` among `windows`, given in
/// enumeration order. Returns the handle found (or `None`) together with
/// how many windows were examined: enumeration stops right after the first
/// match, so nothing past it is looked at.
pub fn find_window_on(windows: &Vec<WindowProbe>, target: u32) -> (found: (Option<u64>, usize))
    ensures
        found.0 == first_match(windows@, target),
        found.1 <= windows@.len(),
        found.0 is Some ==> {
            &&& 1 <= found.1
            &&& finder_qualifies(windows@[found.1 - 1], target)
            &&& found.0 == Some(windows@[found.1 - 1].handle)
            &&& forall|j: int| 0 <= j < found.1 - 1 ==> !finder_qualifies(windows@[j], target)
        },
        found.0 is None ==> {
            &&& found.1 == windows@.len()
            &&& forall|j: int| 0 <= j < windows@.len() ==> !finder_qualifies(windows@[j], target)
        },
{
    let mut i: usize = 0;
    while i < windows.len()
        invariant
            i <= windows@.len(),
            forall|j: int| 0 <= j < i ==> !finder_qualifies(windows@[j], target),
        decreases windows@.len() - i,
    {
        let window = &windows[i];
        if window_qualifies(window, target) {
            proof {
                lemma_first_match_skip(windows@, target, i as int);
                assert(windows@.skip(i as int)[0] == windows@[i as int]);
            }
            return (Some(window.handle), i + 1);
        }
        i = i + 1;
    }
    proof {
        lemma_first_match_skip(windows@, target, i as int);
        assert(windows@.skip(i as int) =~= Seq::<WindowProbe>::empty());
    }
    (None, i)
}

/// Law: the finder's answer is the earliest qualifying window. When it
/// returns a handle, some position holds a qualifying window with that
/// handle and every earlier position fails at least one check; when it
/// returns `None`, no position qualifies.
pub proof fn lemma_first_match_is_earliest(windows: Seq<WindowProbe>, target: u32)
    ensures
        match first_match(windows, target) {
            Some(handle) => exists|i: int|
                {
                    &&& 0 <= i < windows.len()
                    &&& #[trigger] finder_qualifies(windows[i], target)
                    &&& windows[i].handle == handle
                    &&& forall|j: int| 0 <= j < i ==> !finder_qualifies(windows[j], target)
                },
            None => forall|j: int|
                0 <= j < windows.len() ==> !finder_qualifies(windows[j], target),
        },
    decreases windows.len(),
{
    if windows.len() == 0 {
    } else if finder_qualifies(windows[0], target) {
        assert(finder_qualifies(windows[0], target));
    } else {
        lemma_first_match_is_earliest(windows.drop_first(), target);
        let rest = windows.drop_first();
        assert(forall|k: int| 0 <= k < rest.len() ==> rest[k] == windows[k + 1]);
        match first_match(rest, target) {
            Some(handle) => {
                let i0 = choose|i0: int|
                    {
                        &&& 0 <= i0 < rest.len()
                        &&& #[trigger] finder_qualifies(rest[i0], target)
                        &&& rest[i0].handle == handle
                        &&& forall|j: int| 0 <= j < i0 ==> !finder_qualifies(rest[j], target)
                    };
                assert(finder_qualifies(windows[i0 + 1], target));
                assert forall|j: int| 0 <= j < i0 + 1 implies !finder_qualifies(
                    windows[j],
                    target,
                ) by {
                    if j > 0 {
                        assert(windows[j] == rest[j - 1]);
                    }
                }
            },
            None => {
                assert forall|j: int| 0 <= j < windows.len() implies !finder_qualifies(
                    windows[j],
                    target,
                ) by {
                    if j > 0 {
                        assert(windows[j] == rest[j - 1]);
                    }
                }
            },
        }
    }
}

} // verus!
