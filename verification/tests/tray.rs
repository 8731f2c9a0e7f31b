use picoo_desktop::tray::{
    enqueue_menu_action, note_hidden_to_tray, note_hidden_to_tray_with_tip, note_tray_cleared,
    set_notify_icon_hwnd, sync_tray_tip, take_pending_menu_action, tip_for_label, CloseAction,
    CloseOutcome, NotifyIconController, NotifyIconOp, TrayMenuAction, TrayMenuOutcome, TrayPolicy,
    TrayShell,
};

#[test]
fn close_hides_when_tray_enabled() {
    assert_eq!(
        TrayPolicy::from_pref(true).on_close_requested(),
        CloseAction::HideToTray
    );
    assert_eq!(
        TrayPolicy::from_pref(true).close_outcome(),
        CloseOutcome {
            allow_close: false,
            hide_to_tray: true,
        }
    );
}

#[test]
fn close_quits_when_tray_disabled() {
    assert_eq!(
        TrayPolicy::from_pref(false).on_close_requested(),
        CloseAction::Quit
    );
    assert_eq!(
        TrayPolicy::from_pref(false).close_outcome(),
        CloseOutcome {
            allow_close: true,
            hide_to_tray: false,
        }
    );
}

#[test]
fn tray_menu_labels_are_stable() {
    assert_eq!(TrayMenuAction::Show.label(), "Show Picoo Camera");
    assert_eq!(TrayMenuAction::Quit.label(), "Quit");
}

#[test]
fn tray_menu_apply_show_and_quit() {
    assert_eq!(
        TrayMenuAction::Show.apply(),
        TrayMenuOutcome {
            restore_window: true,
            quit: false,
        }
    );
    assert_eq!(
        TrayMenuAction::Quit.apply(),
        TrayMenuOutcome {
            restore_window: false,
            quit: true,
        }
    );
}

#[test]
fn notify_icon_records_add_modify_delete() {
    let mut icon = NotifyIconController::new();
    icon.show("Picoo Camera");
    icon.show("Picoo Camera — live");
    icon.hide_icon();
    icon.hide_icon(); // idempotent
    assert_eq!(
        icon.take_ops(),
        vec![
            NotifyIconOp::Add,
            NotifyIconOp::Modify,
            NotifyIconOp::Delete
        ]
    );
    assert!(!icon.is_visible());
    assert_eq!(icon.tip(), "Picoo Camera — live");
}

#[test]
fn set_tip_modifies_when_visible() {
    let mut icon = NotifyIconController::new();
    icon.show("Picoo Camera — Discovering");
    icon.take_ops();
    icon.set_tip("Picoo Camera — Streaming");
    assert_eq!(icon.take_ops(), vec![NotifyIconOp::Modify]);
    assert_eq!(icon.tip(), "Picoo Camera — Streaming");
    icon.set_tip("Picoo Camera — Streaming"); // no-op
    assert!(icon.take_ops().is_empty());
}

#[test]
fn note_hidden_to_tray_shows_global_icon() {
    let mut shell = TrayShell::new();
    note_tray_cleared(&mut shell);
    note_hidden_to_tray_with_tip(&mut shell, "Picoo Camera — Discovering");
    assert!(shell.icon.is_visible());
    assert_eq!(shell.icon.tip(), "Picoo Camera — Discovering");
    let ops = shell.icon.take_ops();
    assert!(ops.contains(&NotifyIconOp::Add) || ops.contains(&NotifyIconOp::Modify));
}

#[test]
fn enqueue_and_take_menu_action() {
    let mut shell = TrayShell::new();
    let _ = take_pending_menu_action(&mut shell);
    enqueue_menu_action(&mut shell, TrayMenuAction::Show);
    assert_eq!(take_pending_menu_action(&mut shell), Some(TrayMenuAction::Show));
    assert_eq!(take_pending_menu_action(&mut shell), None);
    enqueue_menu_action(&mut shell, TrayMenuAction::Quit);
    let outcome = take_pending_menu_action(&mut shell).unwrap().apply();
    assert!(outcome.quit);
}

#[test]
fn tray_tip_follows_the_status_only_while_visible() {
    let mut shell = TrayShell::new();
    sync_tray_tip(&mut shell, &tip_for_label("Streaming"));
    assert!(!shell.icon.is_visible());
    assert_eq!(shell.icon.tip(), "");
    note_hidden_to_tray(&mut shell);
    assert_eq!(shell.icon.tip(), "Picoo Camera");
    sync_tray_tip(&mut shell, &tip_for_label("Streaming"));
    assert_eq!(shell.icon.tip(), "Picoo Camera — Streaming");
    set_notify_icon_hwnd(&mut shell, Some(42));
    assert_eq!(shell.icon.hwnd(), Some(42));
    note_tray_cleared(&mut shell);
    assert!(!shell.icon.is_visible());
    assert_eq!(
        shell.icon.take_ops(),
        vec![NotifyIconOp::Add, NotifyIconOp::Modify, NotifyIconOp::Delete]
    );
}
