use picoo_desktop::diagnostics::{format_count, format_duration};
use picoo_desktop::model::{connection_security_status, status_label, ReceiverStatus};
use picoo_desktop::ui::{
    begin_recovery, endpoint_label, finish_recovery, format_pairing_code, vcam_setup_button_label,
    vcam_setup_feedback, DesktopSection, DiagnosticsExportState, PairingRecoveryKind,
    PairingRecoveryState, ReceiverErrorKind, ThemeMode, VcamSetupOperation, VcamSetupState,
    DEFAULT_THEME_MODE,
};
use picoo_desktop::vcam_status::VcamPlatform;

#[test]
fn desktop_defaults_to_light_theme() {
    assert!(!DEFAULT_THEME_MODE.is_dark());
}

#[test]
fn dark_theme_is_dark() {
    assert!(ThemeMode::Dark.is_dark());
}

#[test]
fn diagnostic_copy_distinguishes_missing_counts_and_formats_window() {
    assert_eq!(format_count(None, "帧"), "—");
    assert_eq!(format_count(Some(0), "帧"), "0 帧");
    assert_eq!(format_duration(0), "0 秒");
    assert_eq!(format_duration(125), "2 分 5 秒");
}

#[test]
fn durations_and_counts_at_the_edges() {
    assert_eq!(format_duration(59), "59 秒");
    assert_eq!(format_duration(60), "1 分 0 秒");
    assert_eq!(format_count(Some(u64::MAX), "KB"), "18446744073709551615 KB");
}

#[test]
fn diagnostics_reveal_action_tracks_last_successful_export() {
    let mut state = DiagnosticsExportState::default();
    assert!(!state.can_reveal());
    assert!(state.path().is_none());

    let path = std::path::PathBuf::from("diagnostics").join("picoo-diagnostics.json");
    state.succeeded(path.to_string_lossy().into_owned());
    assert!(state.can_reveal());
    assert_eq!(state.path(), Some(path.to_string_lossy().as_ref()));

    state.failed();
    assert!(!state.can_reveal());
    assert!(state.path().is_none());
}

#[test]
fn only_identity_and_trust_corruption_enter_recovery_ui() {
    assert_eq!(
        PairingRecoveryKind::classify(ReceiverErrorKind::Identity),
        Some(PairingRecoveryKind::Identity)
    );
    assert_eq!(
        PairingRecoveryKind::classify(ReceiverErrorKind::Store),
        Some(PairingRecoveryKind::TrustedStore)
    );
    assert_eq!(PairingRecoveryKind::classify(ReceiverErrorKind::Other), None);
}

#[test]
fn recovery_runs_once_and_records_its_end() {
    assert_eq!(PairingRecoveryKind::Identity.action_label(), "修复身份");
    assert_eq!(PairingRecoveryKind::TrustedStore.title(), "配对数据损坏");
    assert!(PairingRecoveryKind::TrustedStore.description().contains("保留本机设备身份"));
    let mut state = PairingRecoveryState::Ready;
    assert!(begin_recovery(&mut state));
    assert!(!begin_recovery(&mut state));
    finish_recovery(&mut state, Some("denied".into()));
    assert!(matches!(&state, PairingRecoveryState::Failed(m) if m == "denied"));
    assert!(begin_recovery(&mut state));
    finish_recovery(&mut state, None);
    assert!(matches!(state, PairingRecoveryState::Succeeded));
}

#[test]
fn security_copy_distinguishes_encryption_from_completed_pairing() {
    assert_eq!(
        connection_security_status(ReceiverStatus::Discovering),
        ("等待连接", false)
    );
    assert_eq!(
        connection_security_status(ReceiverStatus::Pairing),
        ("加密待确认", false)
    );
    assert_eq!(
        connection_security_status(ReceiverStatus::Streaming),
        ("已验证", true)
    );
}

#[test]
fn status_labels_are_never_empty() {
    for status in [
        ReceiverStatus::Discovering,
        ReceiverStatus::Pairing,
        ReceiverStatus::Connecting,
        ReceiverStatus::Negotiating,
        ReceiverStatus::Streaming,
        ReceiverStatus::Reconnecting,
        ReceiverStatus::Disconnected,
        ReceiverStatus::PermissionRequired,
        ReceiverStatus::VirtualCameraUnavailable,
        ReceiverStatus::NetworkUnstable,
    ] {
        assert!(!status_label(status).is_empty());
    }
}

#[test]
fn pairing_code_keeps_six_digits_in_two_groups() {
    assert_eq!(format_pairing_code("123456"), "123 456");
    assert_eq!(format_pairing_code("12-34-5678"), "123 456");
    assert_eq!(format_pairing_code("1a2"), "12");
    assert_eq!(format_pairing_code("1234"), "123 4");
    assert_eq!(format_pairing_code("١٢٣"), "");
    assert_eq!(format_pairing_code(""), "");
}

#[test]
fn sections_and_endpoint_captions() {
    assert_eq!(DesktopSection::Connect.label(), "连接");
    assert_eq!(DesktopSection::About.label(), "关于");
    assert_eq!(endpoint_label(""), "—");
    assert_eq!(endpoint_label("192.168.1.20"), "192.168.1.20:4433");
}

#[test]
fn setup_button_reflects_the_running_operation() {
    let activating = VcamSetupState::Running(VcamSetupOperation::Activate);
    assert_eq!(vcam_setup_button_label(&activating, VcamPlatform::Macos), "正在等待系统批准…");
    assert_eq!(vcam_setup_button_label(&activating, VcamPlatform::Windows), "正在等待管理员授权…");
    assert_eq!(vcam_setup_button_label(&VcamSetupState::Idle, VcamPlatform::Windows), "安装或修复…");
    assert!(activating.is_running());
    assert_eq!(vcam_setup_feedback(&VcamSetupState::Idle, VcamPlatform::Macos), None);
    assert_eq!(
        vcam_setup_feedback(&VcamSetupState::Failed("失败".into()), VcamPlatform::Macos),
        Some("失败".to_string())
    );
    assert!(vcam_setup_feedback(&activating, VcamPlatform::Windows)
        .unwrap()
        .contains("用户账户控制"));
}
