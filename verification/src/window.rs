//! The main window's state as the tray sees it: a close request is rewritten
//! into a hide, so the process stays resident, and the "Open" action makes
//! the window visible and focused again. `present == false` stands for a
//! window that was never created or is already destroyed; both transitions
//! are no-ops on it.

use vstd::prelude::*;

verus! {

/// The tray's view of the main window.
#[derive(Clone, Copy, PartialEq, Eq, Structural, Debug)]
pub struct MainWindow {
    pub present: bool,
    pub visible: bool,
    pub focused: bool,
}

/// A close request hides a present window instead of destroying it.
pub open spec fn spec_hide(w: MainWindow) -> MainWindow {
    if w.present {
        MainWindow { present: true, visible: false, focused: false }
    } else {
        w
    }
}

/// The "Open" action shows and focuses a present window.
pub open spec fn spec_show(w: MainWindow) -> MainWindow {
    if w.present {
        MainWindow { present: true, visible: true, focused: true }
    } else {
        w
    }
}

/// Intercepts a close request: the default destroy is cancelled and the
/// window is hidden instead; a window that is not there is left alone.
pub fn handle_close_requested(w: &mut MainWindow)
    ensures
        *final(w) == spec_hide(*old(w)),
        final(w).present == old(w).present,
{
    if w.present {
        w.visible = false;
        w.focused = false;
    }
}

/// Shows and focuses the main window; a no-op when the window was never
/// created or is already destroyed.
pub fn show_main(w: &mut MainWindow)
    ensures
        *final(w) == spec_show(*old(w)),
        final(w).present == old(w).present,
{
    if w.present {
        w.visible = true;
        w.focused = true;
    }
}

/// Law: a close request on a present window leaves it hidden, not
/// destroyed, and a subsequent "Open" makes it visible and focused again.
pub proof fn lemma_close_then_open(w: MainWindow)
    requires
        w.present,
    ensures
        spec_hide(w).present,
        !spec_hide(w).visible,
        spec_show(spec_hide(w)) == (MainWindow { present: true, visible: true, focused: true }),
{
}

} // verus!
