//! The mapping from action identifiers to window behaviour.
use crate::keys::token_is;
use crate::window::{
    show_focus_steps, show_main_window, toggle_bubble_window, transition, BubbleEvent,
    BubbleState, WindowName, WindowPlan, WindowStep,
};
use vstd::prelude::*;

verus! {

/// What a fired shortcut asks for.
#[derive(Clone, Copy, Debug, PartialEq, Eq, Structural)]
pub enum Action {
    /// `show-hide-bubble`: toggle the bubble window.
    ToggleBubble,
    /// `open-settings`: show and focus the main window.
    OpenSettings,
    /// Any other identifier: nothing is done.
    Unknown,
}

pub open spec fn action_of(id: Seq<char>) -> Action {
    if id == "show-hide-bubble"@ {
        Action::ToggleBubble
    } else if id == "open-settings"@ {
        Action::OpenSettings
    } else {
        Action::Unknown
    }
}

/// The action that an identifier names.
pub fn action_for_id(id: &String) -> (r: Action)
    ensures
        r == action_of(id@),
{
    if token_is(id, "show-hide-bubble") {
        Action::ToggleBubble
    } else if token_is(id, "open-settings") {
        Action::OpenSettings
    } else {
        Action::Unknown
    }
}

/// The window plan of an action, given whether the bubble window is
/// reported visible; `None` for an unknown action.
pub open spec fn dispatch_spec(a: Action, bubble_visible: bool) -> Option<
    (WindowName, Seq<WindowStep>),
> {
    match a {
        Action::ToggleBubble => Some(
            (
                WindowName::Bubble,
                transition(
                    if bubble_visible {
                        BubbleState::Visible
                    } else {
                        BubbleState::Hidden
                    },
                    BubbleEvent::ToggleRequested,
                ).1,
            ),
        ),
        Action::OpenSettings => Some((WindowName::Main, show_focus_steps())),
        Action::Unknown => None,
    }
}

/// Carries an action over to the window it concerns.
pub fn dispatch(action: Action, bubble_visible: bool) -> (r: Option<WindowPlan>)
    ensures
        r matches Some(p) ==> dispatch_spec(action, bubble_visible) == Some(p@),
        r is None <==> dispatch_spec(action, bubble_visible) is None,
{
    match action {
        Action::ToggleBubble => Some(toggle_bubble_window(bubble_visible)),
        Action::OpenSettings => Some(show_main_window()),
        Action::Unknown => None,
    }
}

} // verus!
