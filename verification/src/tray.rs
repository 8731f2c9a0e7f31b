//! Minimize-to-tray close policy, tray menu actions and the notify-icon
//! intent recorder.
use vstd::prelude::*;
use crate::text::{concat2, owned};

verus! {

/// How the main window should react to a close request.
#[derive(Debug, Clone, Copy, PartialEq, Eq, Structural)]
pub enum CloseAction {
    /// Hide the window and keep the process running (tray).
    HideToTray,
    /// Quit the application.
    Quit,
}

/// Concrete side effects of a close request.
#[derive(Debug, Clone, Copy, PartialEq, Eq, Structural)]
pub struct CloseOutcome {
    /// Allow the platform window to close (and typically exit).
    pub allow_close: bool,
    /// Hide the app instead of destroying the window.
    pub hide_to_tray: bool,
}

/// Tray / window policy derived from user preferences.
#[derive(Debug, Clone, Copy, PartialEq, Eq, Structural)]
pub struct TrayPolicy {
    pub minimize_to_tray: bool,
}

impl TrayPolicy {
    pub fn from_pref(minimize_to_tray: bool) -> (r: Self)
        ensures
            r.minimize_to_tray == minimize_to_tray,
    {
        Self { minimize_to_tray }
    }

    pub fn on_close_requested(self) -> (r: CloseAction)
        ensures
            r == (if self.minimize_to_tray { CloseAction::HideToTray } else { CloseAction::Quit }),
    {
        if self.minimize_to_tray {
            CloseAction::HideToTray
        } else {
            CloseAction::Quit
        }
    }

    /// The outcome handed to the window's should-close callback: exactly one of
    /// closing and hiding.
    pub fn close_outcome(self) -> (r: CloseOutcome)
        ensures
            r.hide_to_tray == self.minimize_to_tray,
            r.allow_close == !self.minimize_to_tray,
    {
        match self.on_close_requested() {
            CloseAction::HideToTray => CloseOutcome { allow_close: false, hide_to_tray: true },
            CloseAction::Quit => CloseOutcome { allow_close: true, hide_to_tray: false },
        }
    }
}

/// Tray context-menu actions.
#[derive(Debug, Clone, Copy, PartialEq, Eq, Structural)]
pub enum TrayMenuAction {
    Show,
    Quit,
}

/// Side effects of a tray menu selection.
#[derive(Debug, Clone, Copy, PartialEq, Eq, Structural)]
pub struct TrayMenuOutcome {
    pub restore_window: bool,
    pub quit: bool,
}

impl TrayMenuAction {
    pub fn label(self) -> (r: &'static str)
        ensures
            self == TrayMenuAction::Show ==> r@ == "Show Picoo Camera"@,
            self == TrayMenuAction::Quit ==> r@ == "Quit"@,
    {
        match self {
            TrayMenuAction::Show => "Show Picoo Camera",
            TrayMenuAction::Quit => "Quit",
        }
    }

    pub fn apply(self) -> (r: TrayMenuOutcome)
        ensures
            r.restore_window == (self == TrayMenuAction::Show),
            r.quit == (self == TrayMenuAction::Quit),
    {
        match self {
            TrayMenuAction::Show => TrayMenuOutcome { restore_window: true, quit: false },
            TrayMenuAction::Quit => TrayMenuOutcome { restore_window: false, quit: true },
        }
    }
}

/// Shell notify-icon operation recorded for the platform layer to apply.
#[derive(Debug, Clone, Copy, PartialEq, Eq, Structural)]
pub enum NotifyIconOp {
    Add,
    Modify,
    Delete,
}

/// What a [`NotifyIconController`] holds.
pub struct NotifyIconState {
    pub visible: bool,
    pub tip: Seq<char>,
    pub hwnd: Option<isize>,
    /// Operations recorded since the last [`NotifyIconController::take_ops`].
    pub ops: Seq<NotifyIconOp>,
}

/// The state after showing the icon with `tip`: an `Add` when it was hidden, a
/// `Modify` when it was already visible.
pub open spec fn state_after_show(s: NotifyIconState, tip: Seq<char>) -> NotifyIconState {
    NotifyIconState {
        visible: true,
        tip: tip,
        hwnd: s.hwnd,
        ops: s.ops.push(if s.visible { NotifyIconOp::Modify } else { NotifyIconOp::Add }),
    }
}

/// The state after changing the tip: nothing when the tip is unchanged, a
/// `Modify` when the icon is visible.
pub open spec fn state_after_set_tip(s: NotifyIconState, tip: Seq<char>) -> NotifyIconState {
    if s.tip == tip {
        s
    } else {
        NotifyIconState {
            visible: s.visible,
            tip: tip,
            hwnd: s.hwnd,
            ops: if s.visible { s.ops.push(NotifyIconOp::Modify) } else { s.ops },
        }
    }
}

/// The state after hiding: a `Delete` when the icon was visible, otherwise unchanged.
pub open spec fn state_after_hide(s: NotifyIconState) -> NotifyIconState {
    if !s.visible {
        s
    } else {
        NotifyIconState { visible: false, tip: s.tip, hwnd: s.hwnd, ops: s.ops.push(NotifyIconOp::Delete) }
    }
}

/// Cross-platform notify-icon intent: whether the icon is shown, its hover tip,
/// the injected window handle and the shell operations still to apply.
#[derive(Debug)]
pub struct NotifyIconController {
    visible: bool,
    tip: String,
    hwnd: Option<isize>,
    ops: Vec<NotifyIconOp>,
}

impl View for NotifyIconController {
    type V = NotifyIconState;

    closed spec fn view(&self) -> NotifyIconState {
        NotifyIconState { visible: self.visible, tip: self.tip@, hwnd: self.hwnd, ops: self.ops@ }
    }
}

impl Default for NotifyIconController {
    fn default() -> (r: Self)
        ensures
            r@ == (NotifyIconState { visible: false, tip: Seq::empty(), hwnd: None, ops: Seq::empty() }),
    {
        NotifyIconController::new()
    }
}

impl NotifyIconController {
    pub fn new() -> (r: Self)
        ensures
            r@ == (NotifyIconState { visible: false, tip: Seq::empty(), hwnd: None, ops: Seq::empty() }),
    {
        let r = NotifyIconController { visible: false, tip: String::new(), hwnd: None, ops: Vec::new() };
        assert(r@.ops =~= Seq::empty());
        r
    }

    pub fn is_visible(&self) -> (r: bool)
        ensures
            r == self@.visible,
    {
        self.visible
    }

    pub fn tip(&self) -> (r: &str)
        ensures
            r@ == self@.tip,
    {
        self.tip.as_str()
    }

    pub fn hwnd(&self) -> (r: Option<isize>)
        ensures
            r == self@.hwnd,
    {
        self.hwnd
    }

    /// Injects the platform window handle once the window exists.
    pub fn set_hwnd(&mut self, hwnd: Option<isize>)
        ensures
            final(self)@ == (NotifyIconState { hwnd: hwnd, ..old(self)@ }),
    {
        self.hwnd = hwnd;
    }

    pub fn show(&mut self, tip: &str)
        ensures
            final(self)@ == state_after_show(old(self)@, tip@),
    {
        let op = if self.visible {
            NotifyIconOp::Modify
        } else {
            NotifyIconOp::Add
        };
        self.visible = true;
        self.tip = owned(tip);
        self.ops.push(op);
    }

    /// Updates the tip while the icon stays in its current visibility.
    pub fn set_tip(&mut self, tip: &str)
        ensures
            final(self)@ == state_after_set_tip(old(self)@, tip@),
    {
        let same = {
            let t = owned(tip);
            self.tip == t
        };
        if same {
            return;
        }
        self.tip = owned(tip);
        if self.visible {
            self.ops.push(NotifyIconOp::Modify);
        }
    }

    pub fn hide_icon(&mut self)
        ensures
            final(self)@ == state_after_hide(old(self)@),
    {
        if !self.visible {
            return;
        }
        self.visible = false;
        self.ops.push(NotifyIconOp::Delete);
    }

    /// Hands out the recorded operations, oldest first, and forgets them.
    pub fn take_ops(&mut self) -> (r: Vec<NotifyIconOp>)
        ensures
            r@ == old(self)@.ops,
            final(self)@ == (NotifyIconState { ops: Seq::empty(), ..old(self)@ }),
    {
        let mut out: Vec<NotifyIconOp> = Vec::new();
        std::mem::swap(&mut out, &mut self.ops);
        assert(self.ops@ =~= Seq::<NotifyIconOp>::empty());
        out
    }
}

/// Hover tip for a receiver status label.
pub fn tip_for_label(label: &str) -> (r: String)
    ensures
        r@ == "Picoo Camera — "@ + label@,
{
    concat2("Picoo Camera — ", label)
}

/// The process-wide tray: the notify icon and the menu action waiting for the
/// UI pump.
pub struct TrayShell {
    pub icon: NotifyIconController,
    pub pending_menu_action: Option<TrayMenuAction>,
}

impl TrayShell {
    pub fn new() -> (r: Self)
        ensures
            r.icon@ == (NotifyIconState { visible: false, tip: Seq::empty(), hwnd: None, ops: Seq::empty() }),
            r.pending_menu_action is None,
    {
        TrayShell { icon: NotifyIconController::new(), pending_menu_action: None }
    }
}

/// The window closed to the tray: show the icon with the product name as tip.
pub fn note_hidden_to_tray(shell: &mut TrayShell)
    ensures
        final(shell).icon@ == state_after_show(old(shell).icon@, "Picoo Camera"@),
        final(shell).pending_menu_action == old(shell).pending_menu_action,
{
    note_hidden_to_tray_with_tip(shell, "Picoo Camera");
}

/// The window closed to the tray: show the icon with a live status tip.
pub fn note_hidden_to_tray_with_tip(shell: &mut TrayShell, tip: &str)
    ensures
        final(shell).icon@ == state_after_show(old(shell).icon@, tip@),
        final(shell).pending_menu_action == old(shell).pending_menu_action,
{
    shell.icon.show(tip);
}

/// Keeps the tip in sync while the icon is visible.
pub fn sync_tray_tip(shell: &mut TrayShell, tip: &str)
    ensures
        old(shell).icon@.visible ==> final(shell).icon@ == state_after_set_tip(old(shell).icon@, tip@),
        !old(shell).icon@.visible ==> final(shell).icon@ == old(shell).icon@,
        final(shell).pending_menu_action == old(shell).pending_menu_action,
{
    if shell.icon.is_visible() {
        shell.icon.set_tip(tip);
    }
}

/// The application quits: remove the icon.
pub fn note_tray_cleared(shell: &mut TrayShell)
    ensures
        final(shell).icon@ == state_after_hide(old(shell).icon@),
        final(shell).pending_menu_action == old(shell).pending_menu_action,
{
    shell.icon.hide_icon();
}

pub fn set_notify_icon_hwnd(shell: &mut TrayShell, hwnd: Option<isize>)
    ensures
        final(shell).icon@ == (NotifyIconState { hwnd: hwnd, ..old(shell).icon@ }),
        final(shell).pending_menu_action == old(shell).pending_menu_action,
{
    shell.icon.set_hwnd(hwnd);
}

/// Queues a context-menu action for the UI pump; a newer action replaces an
/// unread one.
pub fn enqueue_menu_action(shell: &mut TrayShell, action: TrayMenuAction)
    ensures
        final(shell).pending_menu_action == Some(action),
        final(shell).icon@ == old(shell).icon@,
{
    shell.pending_menu_action = Some(action);
}

/// Takes the queued menu action, if any.
pub fn take_pending_menu_action(shell: &mut TrayShell) -> (r: Option<TrayMenuAction>)
    ensures
        r == old(shell).pending_menu_action,
        final(shell).pending_menu_action is None,
        final(shell).icon@ == old(shell).icon@,
{
    let r = shell.pending_menu_action;
    shell.pending_menu_action = None;
    r
}

/// Hiding is idempotent: hiding a hidden icon records nothing.
pub proof fn lemma_hide_idempotent(s: NotifyIconState)
    ensures
        state_after_hide(state_after_hide(s)) == state_after_hide(s),
{
}

/// Showing twice records an `Add` (or `Modify`) followed by one `Modify`, and
/// the second tip wins.
pub proof fn lemma_show_twice(s: NotifyIconState, a: Seq<char>, b: Seq<char>)
    ensures
        state_after_show(state_after_show(s, a), b).tip == b,
        state_after_show(state_after_show(s, a), b).ops == s.ops.push(
            if s.visible { NotifyIconOp::Modify } else { NotifyIconOp::Add },
        ).push(NotifyIconOp::Modify),
{
}

/// Every `Add` or `Delete` the recorder emits toggles visibility: after
/// showing, the icon is visible; after hiding, it is not; a tip change never
/// changes visibility.
pub proof fn lemma_visibility_follows_ops(s: NotifyIconState, tip: Seq<char>)
    ensures
        state_after_show(s, tip).visible,
        !state_after_hide(s).visible,
        state_after_set_tip(s, tip).visible == s.visible,
        state_after_set_tip(state_after_set_tip(s, tip), tip) == state_after_set_tip(s, tip),
{
}

} // verus!
