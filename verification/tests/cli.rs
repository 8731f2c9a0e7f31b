use picoo_desktop::cli::{next_pairing_hint, parse_cli, parse_console_command, CliCommand, ConsoleCommand};

fn args(list: &[&str]) -> Vec<String> {
    list.iter().map(|s| s.to_string()).collect()
}

#[test]
fn flags_are_tried_in_order() {
    assert!(matches!(parse_cli(&args(&["picoo", "--serve", "--list-paired"]), false, false), CliCommand::ListPaired));
    assert!(matches!(parse_cli(&args(&["picoo", "--loopback-demo", "--serve"]), false, false), CliCommand::LoopbackDemo));
    assert!(matches!(parse_cli(&args(&["picoo", "--clear-paired"]), false, false), CliCommand::ClearPaired));
    assert!(matches!(parse_cli(&args(&["picoo", "--gpui"]), false, false), CliCommand::Gpui));
    assert!(matches!(parse_cli(&args(&["picoo"]), false, false), CliCommand::Banner));
    assert!(matches!(parse_cli(&args(&["picoo"]), false, true), CliCommand::LaunchGui));
    assert!(matches!(parse_cli(&args(&["picoo", "--unknown"]), false, true), CliCommand::Banner));
}

#[test]
fn remove_paired_needs_a_device_id() {
    match parse_cli(&args(&["picoo", "--remove-paired", "dev-1"]), false, false) {
        CliCommand::RemovePaired(id) => assert_eq!(id, "dev-1"),
        other => panic!("unexpected {other:?}"),
    }
    assert!(matches!(parse_cli(&args(&["picoo", "--remove-paired"]), false, false), CliCommand::RemovePairedUsage));
    assert!(matches!(parse_cli(&args(&["picoo", "--remove-paired", ""]), false, false), CliCommand::RemovePairedUsage));
}

#[test]
fn export_diagnostics_path_is_optional() {
    match parse_cli(&args(&["picoo", "--export-diagnostics", "/tmp/d.json"]), false, false) {
        CliCommand::ExportDiagnostics(Some(path)) => assert_eq!(path, "/tmp/d.json"),
        other => panic!("unexpected {other:?}"),
    }
    assert!(matches!(
        parse_cli(&args(&["picoo", "--export-diagnostics"]), false, false),
        CliCommand::ExportDiagnostics(None)
    ));
}

#[test]
fn virtual_camera_flags_exist_only_where_the_build_carries_them() {
    assert!(matches!(parse_cli(&args(&["picoo", "--register-vcam"]), false, false), CliCommand::Banner));
    assert!(matches!(parse_cli(&args(&["picoo", "--register-vcam", "--no-wait"]), true, false), CliCommand::RegisterVcam(true)));
    assert!(matches!(parse_cli(&args(&["picoo", "--register-vcam"]), true, false), CliCommand::RegisterVcam(false)));
    assert!(matches!(parse_cli(&args(&["picoo", "--unregister-vcam"]), true, false), CliCommand::UnregisterVcam));
    assert!(matches!(parse_cli(&args(&["picoo", "--verify-vcam-host"]), true, false), CliCommand::VerifyVcamHost));
    assert!(matches!(parse_cli(&args(&["picoo", "--verify-vcam-absent"]), true, false), CliCommand::VerifyVcamAbsentUsage));
    match parse_cli(&args(&["picoo", "--verify-vcam-absent", "\\\\?\\swd#x"]), true, false) {
        CliCommand::VerifyVcamAbsent(link) => assert_eq!(link, "\\\\?\\swd#x"),
        other => panic!("unexpected {other:?}"),
    }
}

#[test]
fn console_commands_are_trimmed_and_aliased() {
    assert!(matches!(parse_console_command("   "), ConsoleCommand::Ignore));
    assert!(matches!(parse_console_command(" confirm\n"), ConsoleCommand::Confirm));
    assert!(matches!(parse_console_command("confirm-pairing"), ConsoleCommand::Confirm));
    assert!(matches!(parse_console_command("list-paired"), ConsoleCommand::List));
    assert!(matches!(parse_console_command("export"), ConsoleCommand::Export));
    assert!(matches!(parse_console_command("live-stats"), ConsoleCommand::Stats));
    assert!(matches!(parse_console_command("help"), ConsoleCommand::Help));
    match parse_console_command("remove  dev-7 ") {
        ConsoleCommand::Remove(id) => assert_eq!(id, "dev-7"),
        other => panic!("unexpected {other:?}"),
    }
    match parse_console_command("remove remove dev-8") {
        ConsoleCommand::Remove(id) => assert_eq!(id, "dev-8"),
        other => panic!("unexpected {other:?}"),
    }
    match parse_console_command("removeall") {
        ConsoleCommand::Unknown(line) => assert_eq!(line, "removeall"),
        other => panic!("unexpected {other:?}"),
    }
}

#[test]
fn pairing_hint_is_printed_once_per_code() {
    let (print, last) = next_pairing_hint("", Some("123456"));
    assert_eq!(print.as_deref(), Some("Pairing code: 123456 — type `confirm` on desktop to approve"));
    let (again, same) = next_pairing_hint(&last, Some("123456"));
    assert_eq!(again, None);
    assert_eq!(same, last);
    let (gone, cleared) = next_pairing_hint(&last, None);
    assert_eq!(gone, None);
    assert_eq!(cleared, "");
}
