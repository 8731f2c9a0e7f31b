use picoo_desktop::macos_extension::{LifecycleOutcome, LifecycleRequest};
use picoo_desktop::model::VirtualCameraStatus;
use picoo_desktop::prefs::MacosCameraExtensionIntent;
use picoo_desktop::ui::{
    lifecycle_effect, macos_activation_precheck, pending_persist_failed, query_failed_state,
    refresh_setup_state, start_vcam_setup, status_debug_name, windows_repair_effect,
    windows_repair_verdict, VcamSetupOperation, VcamSetupState,
};

fn message(state: &VcamSetupState) -> (&'static str, String) {
    match state {
        VcamSetupState::Idle => ("idle", String::new()),
        VcamSetupState::Running(_) => ("running", String::new()),
        VcamSetupState::Succeeded(m) => ("ok", m.clone()),
        VcamSetupState::Failed(m) => ("failed", m.clone()),
    }
}

#[test]
fn setup_starts_only_when_idle() {
    let mut state = VcamSetupState::Idle;
    assert!(start_vcam_setup(&mut state, VcamSetupOperation::Activate));
    assert!(matches!(state, VcamSetupState::Running(VcamSetupOperation::Activate)));
    assert!(!start_vcam_setup(&mut state, VcamSetupOperation::Detect));
    assert!(matches!(state, VcamSetupState::Running(VcamSetupOperation::Activate)));

    let mut done = VcamSetupState::Failed("x".to_string());
    assert!(start_vcam_setup(&mut done, VcamSetupOperation::Deactivate));
    assert!(state.is_running());
}

#[test]
fn completed_activation_clears_the_pending_intent() {
    let effect = lifecycle_effect(LifecycleRequest::Activation, Ok(LifecycleOutcome::Completed));
    assert_eq!(effect.status, Some(VirtualCameraStatus::Active));
    assert!(effect.clear_pending);
    assert!(!effect.redetect);
    assert_eq!(effect.persist_intent, None);
    assert_eq!(
        message(&effect.state),
        ("ok", "Camera Extension 已激活。请重启已打开的会议应用。".to_string())
    );
}

#[test]
fn reboot_requirement_records_the_intent() {
    let activate = lifecycle_effect(LifecycleRequest::Activation, Ok(LifecycleOutcome::RestartRequired));
    assert_eq!(activate.status, Some(VirtualCameraStatus::RestartRequired));
    assert_eq!(activate.persist_intent, Some(MacosCameraExtensionIntent::Activate));
    assert!(!activate.clear_pending);

    let deactivate =
        lifecycle_effect(LifecycleRequest::Deactivation, Ok(LifecycleOutcome::RestartRequired));
    assert_eq!(deactivate.status, Some(VirtualCameraStatus::Uninstalling));
    assert_eq!(deactivate.persist_intent, Some(MacosCameraExtensionIntent::Deactivate));
    assert_eq!(
        message(&deactivate.state),
        ("ok", "Camera Extension 将在重新启动 Mac 后完成移除。".to_string())
    );
}

#[test]
fn completed_deactivation_returns_to_bundled() {
    let effect = lifecycle_effect(LifecycleRequest::Deactivation, Ok(LifecycleOutcome::Completed));
    assert_eq!(effect.status, Some(VirtualCameraStatus::Bundled));
    assert!(effect.clear_pending);
}

#[test]
fn failed_activation_probes_again_and_failed_deactivation_does_not() {
    let activate = lifecycle_effect(LifecycleRequest::Activation, Err("denied".to_string()));
    assert_eq!(activate.status, None);
    assert!(activate.redetect);
    assert_eq!(message(&activate.state), ("failed", "无法激活 Camera Extension：denied".to_string()));

    let deactivate = lifecycle_effect(LifecycleRequest::Deactivation, Err("busy".to_string()));
    assert!(!deactivate.redetect);
    assert_eq!(message(&deactivate.state), ("failed", "无法停用 Camera Extension：busy".to_string()));
}

#[test]
fn windows_repair_needs_an_enumerated_camera() {
    assert!(windows_repair_verdict(VirtualCameraStatus::Active).is_ok());
    assert_eq!(
        windows_repair_verdict(VirtualCameraStatus::Installed),
        Err("修复进程已结束，但 Windows 摄像头枚举状态仍为 Installed".to_string())
    );
    assert_eq!(status_debug_name(VirtualCameraStatus::NotInstalled), "NotInstalled");

    let ok = windows_repair_effect(Ok(()));
    assert_eq!(ok.status, Some(VirtualCameraStatus::Active));
    assert_eq!(message(&ok.state), ("ok", "虚拟摄像头已修复并激活。".to_string()));
    let failed = windows_repair_effect(Err("boom".to_string()));
    assert!(failed.redetect);
    assert_eq!(message(&failed.state), ("failed", "boom".to_string()));
}

#[test]
fn activation_needs_the_bundled_extension() {
    let state = macos_activation_precheck(VirtualCameraStatus::NotInstalled).expect("refused");
    assert_eq!(
        message(&state),
        ("failed", "当前应用包未包含 Camera Extension，请安装完整的 Picoo Camera.app。".to_string())
    );
    assert!(macos_activation_precheck(VirtualCameraStatus::Bundled).is_none());
}

#[test]
fn refresh_reports_unfinished_reboots_and_storage_errors() {
    assert_eq!(
        message(&refresh_setup_state(true, Some("disk"))),
        ("failed", "Mac 已重新启动，但 Camera Extension 未完成系统变更。请重试。".to_string())
    );
    assert_eq!(
        message(&refresh_setup_state(false, Some("disk"))),
        ("failed", "无法保存 Camera Extension 状态：disk".to_string())
    );
    assert_eq!(message(&refresh_setup_state(false, None)), ("idle", String::new()));
    assert_eq!(
        message(&query_failed_state("timeout")),
        ("failed", "无法读取 Camera Extension 系统状态：timeout".to_string())
    );
    assert_eq!(
        message(&pending_persist_failed("ro")),
        ("failed", "系统要求重新启动，但无法保存待处理状态：ro".to_string())
    );
}
