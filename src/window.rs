//! Show / hide / toggle behaviour of the application's windows, as plans of
//! steps that the window manager carries out in order.
use vstd::prelude::*;

verus! {

/// Logical width of the bubble window.
pub const BUBBLE_WIDTH: u32 = 700;

/// Logical height of the bubble window when it is placed.
pub const BUBBLE_HEIGHT: u32 = 600;

/// Logical distance between the bubble window's bottom edge and the
/// screen's bottom edge.
pub const BUBBLE_BOTTOM_MARGIN: u32 = 200;

/// Milliseconds between the hiding notification and the actual hide, so
/// that the closing animation can finish.
pub const HIDE_GRACE_MS: u64 = 200;

/// The three windows of the application.
#[derive(Clone, Copy, Debug, PartialEq, Eq, Structural)]
pub enum WindowName {
    Bubble,
    Main,
    Login,
}

pub open spec fn label_of(w: WindowName) -> Seq<char> {
    match w {
        WindowName::Bubble => "bubble"@,
        WindowName::Main => "main"@,
        WindowName::Login => "login"@,
    }
}

pub open spec fn not_found_text(w: WindowName) -> Seq<char> {
    match w {
        WindowName::Bubble => "Bubble window not found"@,
        WindowName::Main => "Main window not found"@,
        WindowName::Login => "Login window not found"@,
    }
}

impl WindowName {
    /// The label under which the window manager knows the window.
    pub fn label(&self) -> (r: &'static str)
        ensures
            r@ == label_of(*self),
    {
        match self {
            WindowName::Bubble => "bubble",
            WindowName::Main => "main",
            WindowName::Login => "login",
        }
    }

    /// The error reported when the window cannot be found.
    pub fn not_found_message(&self) -> (r: &'static str)
        ensures
            r@ == not_found_text(*self),
    {
        match self {
            WindowName::Bubble => "Bubble window not found",
            WindowName::Main => "Main window not found",
            WindowName::Login => "Login window not found",
        }
    }
}

/// One call on a window, or one notification to the UI layer.
#[derive(Clone, Copy, Debug, PartialEq, Eq, Structural)]
pub enum WindowStep {
    /// Place the bubble window from the geometry of its current monitor.
    Position,
    Show,
    Hide,
    Focus,
    /// Emit `window-showing` to the UI layer.
    EmitShowing,
    /// Emit `window-hiding` to the UI layer.
    EmitHiding,
    /// Hide the window on a separate worker after the given milliseconds.
    HideAfter(u64),
}

/// The steps of one command, with the window they apply to.
#[derive(Clone, Debug)]
pub struct WindowPlan {
    pub window: WindowName,
    pub steps: Vec<WindowStep>,
}

impl View for WindowPlan {
    type V = (WindowName, Seq<WindowStep>);

    open spec fn view(&self) -> (WindowName, Seq<WindowStep>) {
        (self.window, self.steps@)
    }
}

/// The bubble window's state: `HidingPending` is visible, with a delayed
/// hide in flight.
#[derive(Clone, Copy, Debug, PartialEq, Eq, Structural)]
pub enum BubbleState {
    Hidden,
    Visible,
    HidingPending,
}

/// What can happen to the bubble window.
#[derive(Clone, Copy, Debug, PartialEq, Eq, Structural)]
pub enum BubbleEvent {
    ShowRequested,
    HideRequested,
    ToggleRequested,
    /// The grace delay of a pending hide has elapsed.
    GraceElapsed,
}

pub open spec fn visible_in(s: BubbleState) -> bool {
    s != BubbleState::Hidden
}

/// Position before showing, so that the window does not jump; emit before
/// focusing, so that the entrance animation starts first.
pub open spec fn show_steps() -> Seq<WindowStep> {
    seq![WindowStep::Position, WindowStep::Show, WindowStep::EmitShowing, WindowStep::Focus]
}

/// Notify at once, hide after the grace delay.
pub open spec fn hide_steps() -> Seq<WindowStep> {
    seq![WindowStep::EmitHiding, WindowStep::HideAfter(HIDE_GRACE_MS)]
}

/// The next state of the bubble window and the steps that lead there.
pub open spec fn transition(s: BubbleState, e: BubbleEvent) -> (BubbleState, Seq<WindowStep>) {
    match e {
        BubbleEvent::ShowRequested => (BubbleState::Visible, show_steps()),
        BubbleEvent::HideRequested => (
            if s == BubbleState::Hidden {
                BubbleState::Hidden
            } else {
                BubbleState::HidingPending
            },
            hide_steps(),
        ),
        BubbleEvent::ToggleRequested => if visible_in(s) {
            (BubbleState::HidingPending, hide_steps())
        } else {
            (BubbleState::Visible, show_steps())
        },
        BubbleEvent::GraceElapsed => (BubbleState::Hidden, seq![WindowStep::Hide]),
    }
}

impl BubbleState {
    /// Whether the window manager reports the window as visible.
    pub fn is_visible(&self) -> (r: bool)
        ensures
            r == visible_in(*self),
    {
        match self {
            BubbleState::Hidden => false,
            _ => true,
        }
    }

    /// The state as far as a visibility query can tell it.
    pub fn observed(visible: bool) -> (r: BubbleState)
        ensures
            r == (if visible {
                BubbleState::Visible
            } else {
                BubbleState::Hidden
            }),
    {
        if visible {
            BubbleState::Visible
        } else {
            BubbleState::Hidden
        }
    }
}

fn show_step_list() -> (r: Vec<WindowStep>)
    ensures
        r@ == show_steps(),
{
    let r = vec![WindowStep::Position, WindowStep::Show, WindowStep::EmitShowing, WindowStep::Focus];
    assert(r@ =~= show_steps());
    r
}

fn hide_step_list() -> (r: Vec<WindowStep>)
    ensures
        r@ == hide_steps(),
{
    let r = vec![WindowStep::EmitHiding, WindowStep::HideAfter(HIDE_GRACE_MS)];
    assert(r@ =~= hide_steps());
    r
}

/// Handles one event of the bubble window. A delayed hide is not cancelled
/// by a later show: when its grace delay elapses the window is hidden.
pub fn bubble_transition(s: BubbleState, e: BubbleEvent) -> (r: (BubbleState, Vec<WindowStep>))
    ensures
        r.0 == transition(s, e).0,
        r.1@ == transition(s, e).1,
{
    match e {
        BubbleEvent::ShowRequested => (BubbleState::Visible, show_step_list()),
        BubbleEvent::HideRequested => {
            let next = if s.is_visible() {
                BubbleState::HidingPending
            } else {
                BubbleState::Hidden
            };
            (next, hide_step_list())
        },
        BubbleEvent::ToggleRequested => {
            if s.is_visible() {
                (BubbleState::HidingPending, hide_step_list())
            } else {
                (BubbleState::Visible, show_step_list())
            }
        },
        BubbleEvent::GraceElapsed => {
            let r = vec![WindowStep::Hide];
            assert(r@ =~= seq![WindowStep::Hide]);
            (BubbleState::Hidden, r)
        },
    }
}

/// Places, shows, announces and focuses the bubble window.
pub fn show_bubble_window() -> (r: WindowPlan)
    ensures
        r@ == (WindowName::Bubble, show_steps()),
{
    WindowPlan { window: WindowName::Bubble, steps: show_step_list() }
}

/// Announces the hide of the bubble window and hides it after the grace delay.
pub fn hide_bubble_window() -> (r: WindowPlan)
    ensures
        r@ == (WindowName::Bubble, hide_steps()),
{
    WindowPlan { window: WindowName::Bubble, steps: hide_step_list() }
}

/// Hides the bubble window if it is reported visible, shows it otherwise.
pub fn toggle_bubble_window(visible: bool) -> (r: WindowPlan)
    ensures
        r@ == (WindowName::Bubble, transition(
            if visible {
                BubbleState::Visible
            } else {
                BubbleState::Hidden
            },
            BubbleEvent::ToggleRequested,
        ).1),
        r@.1 == (if visible {
            hide_steps()
        } else {
            show_steps()
        }),
{
    let (_, steps) = bubble_transition(BubbleState::observed(visible), BubbleEvent::ToggleRequested);
    WindowPlan { window: WindowName::Bubble, steps }
}

pub open spec fn show_focus_steps() -> Seq<WindowStep> {
    seq![WindowStep::Show, WindowStep::Focus]
}

fn show_focus(window: WindowName) -> (r: WindowPlan)
    ensures
        r@ == (window, show_focus_steps()),
{
    let steps = vec![WindowStep::Show, WindowStep::Focus];
    assert(steps@ =~= show_focus_steps());
    WindowPlan { window, steps }
}

fn hide_now(window: WindowName) -> (r: WindowPlan)
    ensures
        r@ == (window, seq![WindowStep::Hide]),
{
    let steps = vec![WindowStep::Hide];
    assert(steps@ =~= seq![WindowStep::Hide]);
    WindowPlan { window, steps }
}

/// Shows and focuses the main window, at the window manager's placement.
pub fn show_main_window() -> (r: WindowPlan)
    ensures
        r@ == (WindowName::Main, show_focus_steps()),
{
    show_focus(WindowName::Main)
}

/// Hides the main window at once.
pub fn hide_main_window() -> (r: WindowPlan)
    ensures
        r@ == (WindowName::Main, seq![WindowStep::Hide]),
{
    hide_now(WindowName::Main)
}

/// Shows and focuses the login window, at the window manager's placement.
pub fn show_login_window() -> (r: WindowPlan)
    ensures
        r@ == (WindowName::Login, show_focus_steps()),
{
    show_focus(WindowName::Login)
}

/// Hides the login window at once.
pub fn hide_login_window() -> (r: WindowPlan)
    ensures
        r@ == (WindowName::Login, seq![WindowStep::Hide]),
{
    hide_now(WindowName::Login)
}

/// Toggling a hidden bubble window makes it visible, and it is placed from
/// its monitor's geometry before it is shown.
pub proof fn lemma_toggle_hidden_shows(s: BubbleState)
    requires
        !visible_in(s),
    ensures
        transition(s, BubbleEvent::ToggleRequested).0 == BubbleState::Visible,
        visible_in(transition(s, BubbleEvent::ToggleRequested).0),
        transition(s, BubbleEvent::ToggleRequested).1 == show_steps(),
        show_steps()[0] == WindowStep::Position,
        show_steps()[1] == WindowStep::Show,
{
}

/// A hide request leaves a visible bubble window visible until the grace
/// delay has elapsed; then the window is hidden.
pub proof fn lemma_hide_waits_for_grace(s: BubbleState)
    requires
        visible_in(s),
    ensures
        visible_in(transition(s, BubbleEvent::HideRequested).0),
        transition(s, BubbleEvent::HideRequested).1 == seq![
            WindowStep::EmitHiding,
            WindowStep::HideAfter(HIDE_GRACE_MS),
        ],
        !visible_in(
            transition(transition(s, BubbleEvent::HideRequested).0, BubbleEvent::GraceElapsed).0,
        ),
{
}

} // verus!
