//! The capture commands, and the visibility toggle of the assistant's window.
use vstd::prelude::*;
use crate::capture::{selects_display, CaptureError, Frame};
use crate::query::{asks_about_screen, capture_failure, from_capture, OutboundRequest, QueryError};

verus! {

/// What the host does to the window.
#[derive(Clone, Copy, Debug, PartialEq, Eq, Structural)]
pub enum WindowAction {
    /// Hide the window.
    Hide,
    /// Show the window and give it input focus.
    ShowAndFocus,
}

/// The toggle: a visible window is hidden, a hidden one is shown and focused.
pub open spec fn toggle_of(visible: bool) -> WindowAction {
    if visible {
        WindowAction::Hide
    } else {
        WindowAction::ShowAndFocus
    }
}

/// Whether the window is visible once `action` is done.
pub open spec fn visible_after(action: WindowAction) -> bool {
    action == WindowAction::ShowAndFocus
}

/// The action that toggles a window whose visibility is `visible`.
pub fn toggle_action(visible: bool) -> (r: WindowAction)
    ensures
        r == toggle_of(visible),
        visible_after(r) == !visible,
{
    if visible {
        WindowAction::Hide
    } else {
        WindowAction::ShowAndFocus
    }
}

/// The pixels of a capture together with the window action that follows it.
#[derive(Clone, Debug)]
pub struct Revealed {
    pub pixels: Vec<u8>,
    pub action: WindowAction,
}

/// `r` is what capturing alone yields from the capture outcome `shot`.
pub open spec fn captures_only(shot: Result<Frame, CaptureError>, r: Result<Vec<u8>, QueryError>) -> bool {
    match shot {
        Err(e) => r == Err::<Vec<u8>, QueryError>(capture_failure(e)),
        Ok(f) => r matches Ok(p) && p == f.rgba,
    }
}

/// `r` is what a reveal yields from the capture outcome `shot` on a window
/// whose visibility was `visible`.
pub open spec fn reveals(shot: Result<Frame, CaptureError>, visible: bool, r: Result<Revealed, QueryError>) -> bool {
    match shot {
        Err(e) => r == Err::<Revealed, QueryError>(capture_failure(e)),
        Ok(f) => r matches Ok(v) && v.pixels == f.rgba && v.action == toggle_of(visible),
    }
}

/// Hands the captured RGBA pixels to the caller; no model is asked.
pub fn capture_only(shot: Result<Frame, CaptureError>) -> (r: Result<Vec<u8>, QueryError>)
    ensures
        captures_only(shot, r),
{
    match shot {
        Err(e) => Err(from_capture(e)),
        Ok(f) => Ok(f.rgba),
    }
}

/// Captures, then toggles the window (it is a toggle, not a plain show: on a
/// visible window it hides it). The pixels are returned whatever the toggle
/// does; a failed capture returns its error and leaves the window alone.
pub fn capture_and_reveal(shot: Result<Frame, CaptureError>, visible: bool) -> (r: Result<Revealed, QueryError>)
    ensures
        reveals(shot, visible, r),
{
    match capture_only(shot) {
        Err(e) => Err(e),
        Ok(pixels) => Ok(Revealed { pixels, action: toggle_action(visible) }),
    }
}

/// Two reveals in a row, the first on a hidden window: the first leaves the
/// window visible, the second hides it again, and each hands back the pixels
/// of its own capture.
pub proof fn lemma_reveal_twice(
    first: Frame,
    second: Frame,
    r1: Result<Revealed, QueryError>,
    r2: Result<Revealed, QueryError>,
)
    requires
        reveals(Ok(first), false, r1),
        r1 matches Ok(v1) && reveals(Ok(second), visible_after(v1.action), r2),
    ensures
        r1 matches Ok(v1) && visible_after(v1.action) && v1.pixels == first.rgba,
        r2 matches Ok(v2) && !visible_after(v2.action) && v2.pixels == second.rgba,
{
}

/// With no display to select, capturing alone, capturing and revealing, and
/// asking about the screen all fail with the same no-display error: the reveal
/// leaves the window alone and the question plans no request.
pub proof fn lemma_no_display(
    selected: Result<usize, CaptureError>,
    visible: bool,
    credential: Option<String>,
    prompt: Seq<char>,
    r1: Result<Vec<u8>, QueryError>,
    r2: Result<Revealed, QueryError>,
    r3: Result<OutboundRequest, QueryError>,
)
    requires
        selects_display(0, selected),
        selected matches Err(e) ==> captures_only(Err(e), r1)
            && reveals(Err(e), visible, r2)
            && asks_about_screen(credential, prompt, Err(e), r3),
    ensures
        r1 matches Err(QueryError::NoDisplay),
        r2 matches Err(QueryError::NoDisplay),
        r3 matches Err(QueryError::NoDisplay),
{
}

} // verus!
