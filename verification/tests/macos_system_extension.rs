use std::cmp::Ordering;
use std::time::Duration;

use picoo_desktop::bundle_order::{compare_bundle_versions, should_replace_extension};
use picoo_desktop::macos_extension::{
    activate, classify_properties, compare_versions, deactivate, ensure_activation_location,
    lifecycle_step, query_outcome, version_components, wait_for_lifecycle, ExtensionProperties,
    ExtensionRequestEvent, InstalledState, LifecycleOutcome, LifecycleRequest, PathComponent,
    VersionOrder, CAMERA_EXTENSION_BUNDLE_ID, LIFECYCLE_TIMEOUT_SECS, QUERY_TIMEOUT_SECS,
};

#[test]
fn lifecycle_timeout_is_long_enough_for_system_settings_approval() {
    assert!(Duration::from_secs(LIFECYCLE_TIMEOUT_SECS) >= Duration::from_secs(5 * 60));
}

#[test]
fn camera_extension_identifier_matches_bundle_name() {
    assert!(CAMERA_EXTENSION_BUNDLE_ID.ends_with(".camera-extension"));
    assert!(!CAMERA_EXTENSION_BUNDLE_ID.ends_with(".systemextension"));
    assert!(!CAMERA_EXTENSION_BUNDLE_ID.contains(' '));
}

#[test]
fn replacement_requires_a_strictly_newer_build_number() {
    assert_eq!(compare_bundle_versions("2", "1"), Ordering::Greater);
    assert_eq!(compare_bundle_versions("2.1", "2.0.9"), Ordering::Greater);
    assert_eq!(compare_bundle_versions("2.0", "2"), Ordering::Equal);
    assert_eq!(compare_bundle_versions("9", "10"), Ordering::Less);
}

#[test]
fn non_numeric_version_parts_count_as_zero() {
    assert_eq!(compare_bundle_versions("1.x", "1.0"), Ordering::Equal);
    assert_eq!(compare_bundle_versions("", "0"), Ordering::Equal);
    assert_eq!(compare_versions("1.2", "1.10"), VersionOrder::Older);
    assert_eq!(version_components("3.04.x"), vec![3, 4, 0]);
}

#[test]
fn only_a_newer_build_replaces_the_installed_extension() {
    assert!(should_replace_extension("41", "42"));
    assert!(!should_replace_extension("42", "42"));
    assert!(!should_replace_extension("42.1", "42"));
}

#[test]
fn version_order_is_antisymmetric_on_samples() {
    let samples = ["1", "1.0", "1.0.1", "2", "10", "x", ""];
    for a in samples {
        for b in samples {
            let ab = compare_bundle_versions(a, b);
            let ba = compare_bundle_versions(b, a);
            assert_eq!(ab, ba.reverse(), "{a} vs {b}");
        }
    }
}

#[test]
fn enabled_properties_win_over_awaiting_approval() {
    let pending = ExtensionProperties { enabled: false, awaiting_user_approval: true, uninstalling: false };
    let enabled = ExtensionProperties { enabled: true, awaiting_user_approval: false, uninstalling: false };
    let uninstalling = ExtensionProperties { enabled: false, awaiting_user_approval: false, uninstalling: true };
    let bundled = ExtensionProperties { enabled: false, awaiting_user_approval: false, uninstalling: false };
    assert_eq!(classify_properties(&[]), InstalledState::Missing);
    assert_eq!(classify_properties(&[pending, enabled]), InstalledState::Active);
    assert_eq!(classify_properties(&[pending]), InstalledState::AwaitingApproval);
    assert_eq!(classify_properties(&[uninstalling, bundled]), InstalledState::Uninstalling);
    assert_eq!(classify_properties(&[bundled, uninstalling]), InstalledState::Bundled);
}

#[test]
fn lifecycle_waits_through_approval_and_decides_on_the_first_terminal_event() {
    assert_eq!(lifecycle_step(ExtensionRequestEvent::NeedsUserApproval), None);
    assert_eq!(
        lifecycle_step(ExtensionRequestEvent::Finished(1)),
        Some(Ok(LifecycleOutcome::RestartRequired))
    );
    assert_eq!(
        lifecycle_step(ExtensionRequestEvent::Finished(-7)),
        Some(Err("未知的系统扩展结果：-7".to_string()))
    );
    let events = vec![
        ExtensionRequestEvent::NeedsUserApproval,
        ExtensionRequestEvent::NeedsUserApproval,
        ExtensionRequestEvent::Finished(0),
        ExtensionRequestEvent::Failed("later".into()),
    ];
    assert_eq!(wait_for_lifecycle(&events), Ok(LifecycleOutcome::Completed));
    assert_eq!(
        wait_for_lifecycle(&[ExtensionRequestEvent::NeedsUserApproval]),
        Err("Camera Extension 系统请求意外结束".to_string())
    );
    assert_eq!(
        wait_for_lifecycle(&[ExtensionRequestEvent::TimedOut]),
        Err("等待 Camera Extension 系统批准超时，请在系统设置中批准后重试".to_string())
    );
}

#[test]
fn query_reports_properties_and_explains_other_events() {
    assert_eq!(
        query_outcome(ExtensionRequestEvent::Properties(InstalledState::Active)),
        Ok(InstalledState::Active)
    );
    assert_eq!(
        query_outcome(ExtensionRequestEvent::Finished(0)),
        Err("系统扩展状态请求返回了意外事件：Finished(OSSystemExtensionRequestResult(0))".to_string())
    );
    assert_eq!(
        query_outcome(ExtensionRequestEvent::TimedOut),
        Err("检测 Camera Extension 超时".to_string())
    );
    assert!(QUERY_TIMEOUT_SECS < LIFECYCLE_TIMEOUT_SECS);
}

#[test]
fn activation_requires_the_applications_folder() {
    let installed = vec![
        PathComponent::RootDir,
        PathComponent::Normal("Applications".into()),
        PathComponent::Normal("Picoo Camera.app".into()),
    ];
    let downloads = vec![
        PathComponent::RootDir,
        PathComponent::Normal("Users".into()),
        PathComponent::Normal("me".into()),
    ];
    assert_eq!(ensure_activation_location(&installed), Ok(()));
    assert_eq!(activate(&installed), Ok(LifecycleRequest::Activation));
    assert_eq!(deactivate(&installed), Ok(LifecycleRequest::Deactivation));
    let refused = activate(&downloads).unwrap_err();
    assert!(refused.contains("/Applications"));
    assert!(ensure_activation_location(&[PathComponent::RootDir]).is_err());
}
