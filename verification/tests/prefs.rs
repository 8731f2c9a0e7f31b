use picoo_desktop::prefs::{DesktopPreferences, LogLevel, PlaceholderModePref};

fn legacy(use_default_placeholder: Option<bool>) -> DesktopPreferences {
    DesktopPreferences {
        first_launch_completed: true,
        display_name: "X".to_string(),
        auto_accept_paired: true,
        launch_at_startup: false,
        minimize_to_tray: true,
        placeholder_mode: PlaceholderModePref::default(),
        use_default_placeholder,
        log_level: LogLevel::Info,
    }
}

#[test]
fn migrates_legacy_use_default_placeholder_false() {
    let mut prefs = legacy(Some(false));
    prefs.migrate_placeholder();
    assert_eq!(prefs.placeholder_mode, PlaceholderModePref::Black);
    assert_eq!(prefs.use_default_placeholder, None);
    assert_eq!(prefs.display_name, "X");
}

#[test]
fn migrates_legacy_use_default_placeholder_true_and_absent() {
    let mut prefs = legacy(Some(true));
    prefs.placeholder_mode = PlaceholderModePref::Bars;
    prefs.migrate_placeholder();
    assert_eq!(prefs.placeholder_mode, PlaceholderModePref::Logo);

    let mut prefs = legacy(None);
    prefs.placeholder_mode = PlaceholderModePref::Bars;
    prefs.migrate_placeholder();
    assert_eq!(prefs.placeholder_mode, PlaceholderModePref::Bars);
    prefs.migrate_placeholder();
    assert_eq!(prefs.placeholder_mode, PlaceholderModePref::Bars);
}

#[test]
fn default_prefs_match_the_first_run() {
    let prefs = DesktopPreferences::default();
    assert_eq!(prefs.display_name, "Picoo Camera");
    assert!(prefs.auto_accept_paired);
    assert_eq!(prefs.placeholder_mode, PlaceholderModePref::Logo);
    assert!(!prefs.first_launch_completed);
    assert!(prefs.minimize_to_tray);
    assert_eq!(prefs.log_level, LogLevel::Info);
}
