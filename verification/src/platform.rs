//! Plain platform descriptors: application activation policies, haptic
//! feedback styles, popup anchoring, and which tasks a run includes.

use vstd::prelude::*;

verus! {

/// Which tasks a run of the executor waits for.
#[derive(Clone, Copy, Debug, PartialEq, Eq)]
pub enum TasksIncluded {
    /// Only tasks that have completed.
    OnlyCompleted,
    /// Tasks that have completed and tasks still running.
    CompletedAndRunning,
}

/// The activation policy for a macOS application.
#[derive(Clone, Copy, Debug, PartialEq, Eq)]
pub enum MacActivationPolicy {
    /// An ordinary app that appears in the Dock and may have a user interface.
    Regular,
    /// Doesn't appear in the Dock and has no menu bar, but may be activated
    /// programmatically or by clicking one of its windows.
    Accessory,
    /// Doesn't appear in the Dock and may not create windows or be activated.
    Prohibited,
}

impl Default for MacActivationPolicy {
    /// An application is an ordinary one unless set otherwise.
    fn default() -> (r: Self)
        ensures
            r == MacActivationPolicy::Regular,
    {
        MacActivationPolicy::Regular
    }
}

/// Styles of haptic feedback that can be played via the platform.
#[derive(Clone, Copy, Debug, PartialEq, Eq)]
pub enum HapticFeedbackStyle {
    /// A generic haptic tap, suitable for most interactions.
    Generic,
    /// A sharp snap, for alignment guides, detents, and snapping.
    Alignment,
    /// A distinct level-change click, for slider steps, toggles, and discrete
    /// state changes.
    LevelChange,
}

/// The point of the anchor rectangle that a popup is anchored to.
#[derive(Clone, Copy, Debug, PartialEq, Eq)]
pub enum PopupAnchor {
    /// The center of the anchor rectangle.
    Center,
    /// The center of the top edge.
    Top,
    /// The center of the bottom edge.
    Bottom,
    /// The center of the left edge.
    Left,
    /// The center of the right edge.
    Right,
    /// The top-left corner.
    TopLeft,
    /// The bottom-left corner.
    BottomLeft,
    /// The top-right corner.
    TopRight,
    /// The bottom-right corner.
    BottomRight,
}

impl Default for PopupAnchor {
    /// A popup is anchored to the center unless set otherwise.
    fn default() -> (r: Self)
        ensures
            r == PopupAnchor::Center,
    {
        PopupAnchor::Center
    }
}

/// The direction in which a popup extends away from its anchor point.
#[derive(Clone, Copy, Debug, PartialEq, Eq)]
pub enum PopupGravity {
    /// The popup is centered over the anchor point.
    Center,
    /// The popup extends upwards.
    Top,
    /// The popup extends downwards.
    Bottom,
    /// The popup extends to the left.
    Left,
    /// The popup extends to the right.
    Right,
    /// The popup extends up and to the left.
    TopLeft,
    /// The popup extends down and to the left.
    BottomLeft,
    /// The popup extends up and to the right.
    TopRight,
    /// The popup extends down and to the right.
    BottomRight,
}

impl Default for PopupGravity {
    /// A popup is centered over its anchor unless set otherwise.
    fn default() -> (r: Self)
        ensures
            r == PopupGravity::Center,
    {
        PopupGravity::Center
    }
}

/// Returned when the current platform has no native popup implementation.
/// Callers that want a popup everywhere fall back to drawing it inside an
/// existing window.
#[derive(Clone, Copy, Debug, PartialEq, Eq)]
pub struct PopupNotSupportedError;

/// The message the error reads as.
pub open spec fn popup_not_supported_message() -> Seq<char> {
    seq![
        'p', 'o', 'p', 'u', 'p', 's', ' ', 'a', 'r', 'e', ' ', 'n', 'o', 't', ' ', 's', 'u', 'p',
        'p', 'o', 'r', 't', 'e', 'd', ' ', 'o', 'n', ' ', 't', 'h', 'i', 's', ' ', 'p', 'l', 'a',
        't', 'f', 'o', 'r', 'm',
    ]
}

impl PopupNotSupportedError {
    /// The error's message.
    pub fn to_string(&self) -> (r: String)
        ensures
            r@ == popup_not_supported_message(),
    {
        let m = "popups are not supported on this platform";
        proof {
            reveal_strlit("popups are not supported on this platform");
        }
        assert(m@ =~= popup_not_supported_message());
        m.to_owned()
    }
}

/// The compositor the toolkit expects to use on Linux and FreeBSD, without
/// connecting to it: headless when asked to be, else Wayland when a Wayland
/// display is named, else X11 when an X11 display is named, else headless.
pub open spec fn compositor_guess(
    headless_requested: bool,
    wayland_display_named: bool,
    x11_display_named: bool,
) -> Seq<char> {
    if headless_requested {
        seq!['H', 'e', 'a', 'd', 'l', 'e', 's', 's']
    } else if wayland_display_named {
        seq!['W', 'a', 'y', 'l', 'a', 'n', 'd']
    } else if x11_display_named {
        seq!['X', '1', '1']
    } else {
        seq!['H', 'e', 'a', 'd', 'l', 'e', 's', 's']
    }
}

/// Guesses the compositor from what the environment says: whether a
/// headless run is requested, and whether a Wayland or an X11 display is
/// named (present and non-empty).
pub fn guess_compositor(
    headless_requested: bool,
    wayland_display_named: bool,
    x11_display_named: bool,
) -> (r: &'static str)
    ensures
        r@ == compositor_guess(headless_requested, wayland_display_named, x11_display_named),
{
    proof {
        reveal_strlit("Headless");
        reveal_strlit("Wayland");
        reveal_strlit("X11");
    }
    let r = if headless_requested {
        "Headless"
    } else if wayland_display_named {
        "Wayland"
    } else if x11_display_named {
        "X11"
    } else {
        "Headless"
    };
    assert(r@ =~= compositor_guess(headless_requested, wayland_display_named, x11_display_named));
    r
}

} // verus!
