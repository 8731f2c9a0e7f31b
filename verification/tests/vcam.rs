use picoo_desktop::macos_extension::InstalledState;
use picoo_desktop::model::VirtualCameraStatus;
use picoo_desktop::prefs::{MacosCameraExtensionIntent, PendingMacosCameraExtension};
use picoo_desktop::vcam_register::{
    absence_precheck, camera_identity_matches, com_server_registered, decode_registry_utf16,
    ensure_com_server_registered, first_matching_link, guid_string, host_contract_precheck,
    picoo_vcam_clsid, registered_camera_symbolic_link, registration_timeout_message,
    resolve_vcam_dll, system_registration_identity_persisted, ComServerAction,
};
use picoo_desktop::vcam_status::{
    detect_vcam_status, macos_activation_action_visible, macos_deactivation_action_visible,
    pending_macos_vcam_display_status, query_macos_vcam_status, resolve_pending_macos_vcam_status,
    should_auto_start_vcam, vcam_label_zh, vcam_repair_hint, vcam_repair_hint_for,
    vcam_setup_action_label, vcam_setup_unavailable_message, VcamPlatform, VcamProbe,
    WindowsVcamProbe,
};

const ALL_STATUSES: [VirtualCameraStatus; 8] = [
    VirtualCameraStatus::Unknown,
    VirtualCameraStatus::Bundled,
    VirtualCameraStatus::AwaitingApproval,
    VirtualCameraStatus::RestartRequired,
    VirtualCameraStatus::Uninstalling,
    VirtualCameraStatus::Installed,
    VirtualCameraStatus::NotInstalled,
    VirtualCameraStatus::Active,
];

#[test]
fn detect_returns_known_variant() {
    let status = detect_vcam_status(&VcamProbe::Other { dll_present: false, windows: None });
    assert!(matches!(
        status,
        VirtualCameraStatus::Unknown
            | VirtualCameraStatus::Bundled
            | VirtualCameraStatus::AwaitingApproval
            | VirtualCameraStatus::RestartRequired
            | VirtualCameraStatus::Uninstalling
            | VirtualCameraStatus::Installed
            | VirtualCameraStatus::NotInstalled
            | VirtualCameraStatus::Active
    ));
}

#[test]
fn probes_map_to_statuses() {
    assert_eq!(
        detect_vcam_status(&VcamProbe::Macos { extension_present: true }),
        VirtualCameraStatus::Bundled
    );
    assert_eq!(
        detect_vcam_status(&VcamProbe::Macos { extension_present: false }),
        VirtualCameraStatus::NotInstalled
    );
    assert_eq!(
        detect_vcam_status(&VcamProbe::Other { dll_present: true, windows: None }),
        VirtualCameraStatus::Unknown
    );
    let windows = |registered: bool, enumeration: Result<Option<String>, String>| VcamProbe::Other {
        dll_present: true,
        windows: Some(WindowsVcamProbe { com_server_registered: registered, enumeration }),
    };
    assert_eq!(detect_vcam_status(&windows(false, Ok(Some("x".into())))), VirtualCameraStatus::NotInstalled);
    assert_eq!(detect_vcam_status(&windows(true, Ok(Some("x".into())))), VirtualCameraStatus::Active);
    assert_eq!(detect_vcam_status(&windows(true, Ok(None))), VirtualCameraStatus::NotInstalled);
    assert_eq!(detect_vcam_status(&windows(true, Err("e".into()))), VirtualCameraStatus::Unknown);
}

#[test]
fn macos_query_maps_the_installed_state() {
    assert_eq!(query_macos_vcam_status(Ok(InstalledState::Active), false), Ok(VirtualCameraStatus::Active));
    assert_eq!(
        query_macos_vcam_status(Ok(InstalledState::Missing), true),
        Ok(VirtualCameraStatus::Bundled)
    );
    assert_eq!(
        query_macos_vcam_status(Ok(InstalledState::Missing), false),
        Ok(VirtualCameraStatus::NotInstalled)
    );
    assert_eq!(query_macos_vcam_status(Err("boom".into()), true), Err("boom".to_string()));
}

#[test]
fn macos_copy_describes_camera_extension_without_windows_installer_terms() {
    for status in ALL_STATUSES {
        let hint = vcam_repair_hint_for(VcamPlatform::Macos, status);
        assert!(!hint.contains("Windows"));
        assert!(!hint.contains("MSI"));
        assert!(!hint.contains("COM/MF"));
    }
}

#[test]
fn bundled_component_is_not_described_as_already_active() {
    let hint = vcam_repair_hint_for(VcamPlatform::Macos, VirtualCameraStatus::Bundled);
    assert!(hint.contains("已随应用提供"));
    assert!(hint.contains("激活 Camera Extension"));
    assert!(!hint.contains("已激活"));
}

#[test]
fn windows_repair_copy_matches_the_current_virtual_camera_page() {
    let hint = vcam_repair_hint_for(VcamPlatform::Windows, VirtualCameraStatus::NotInstalled);
    assert!(hint.contains("安装或修复"));
    assert!(hint.contains("Windows 用户账户控制"));
    assert!(!hint.contains("设置页"));
}

#[test]
fn platform_copy_is_consistent() {
    for status in ALL_STATUSES {
        for platform in [VcamPlatform::Windows, VcamPlatform::Macos, VcamPlatform::Other] {
            assert_eq!(vcam_repair_hint(platform, status), vcam_repair_hint_for(platform, status));
            assert!(!vcam_repair_hint(platform, status).is_empty());
        }
        assert!(!vcam_label_zh(status).is_empty());
    }
    assert_eq!(vcam_setup_action_label(VcamPlatform::Windows), "安装或修复…");
    assert_eq!(vcam_setup_action_label(VcamPlatform::Macos), "激活 Camera Extension…");
    assert_eq!(
        vcam_setup_unavailable_message(VcamPlatform::Other),
        "当前平台构建不提供系统虚拟摄像头激活能力。"
    );
}

#[test]
fn only_an_installed_virtual_camera_is_started_automatically() {
    assert!(should_auto_start_vcam(VirtualCameraStatus::Installed));
    assert!(should_auto_start_vcam(VirtualCameraStatus::Active));
    assert!(!should_auto_start_vcam(VirtualCameraStatus::NotInstalled));
    assert!(!should_auto_start_vcam(VirtualCameraStatus::Unknown));
}

fn check_actions_follow_lifecycle_state() {
    for status in [
        VirtualCameraStatus::Unknown,
        VirtualCameraStatus::AwaitingApproval,
        VirtualCameraStatus::RestartRequired,
        VirtualCameraStatus::Uninstalling,
        VirtualCameraStatus::Installed,
        VirtualCameraStatus::NotInstalled,
        VirtualCameraStatus::Active,
    ] {
        assert!(!macos_activation_action_visible(status));
    }
    assert!(macos_activation_action_visible(
        VirtualCameraStatus::Bundled
    ));
    assert!(macos_deactivation_action_visible(
        VirtualCameraStatus::Installed
    ));
    assert!(macos_deactivation_action_visible(
        VirtualCameraStatus::Active
    ));
    assert!(!macos_deactivation_action_visible(
        VirtualCameraStatus::RestartRequired
    ));
    assert!(!macos_deactivation_action_visible(
        VirtualCameraStatus::Uninstalling
    ));
}

fn check_pending_intent_survives() {
    let activation = PendingMacosCameraExtension {
        intent: MacosCameraExtensionIntent::Activate,
        boot_session: "boot-a".into(),
    };
    let deactivation = PendingMacosCameraExtension {
        intent: MacosCameraExtensionIntent::Deactivate,
        boot_session: "boot-a".into(),
    };
    assert_eq!(
        resolve_pending_macos_vcam_status(
            VirtualCameraStatus::Bundled,
            Some(&activation),
            Some("boot-a")
        ),
        (VirtualCameraStatus::RestartRequired, false, false)
    );
    assert_eq!(
        resolve_pending_macos_vcam_status(
            VirtualCameraStatus::Active,
            Some(&activation),
            Some("boot-a")
        ),
        (VirtualCameraStatus::Active, true, false)
    );
    assert_eq!(
        resolve_pending_macos_vcam_status(
            VirtualCameraStatus::Active,
            Some(&deactivation),
            Some("boot-a")
        ),
        (VirtualCameraStatus::Uninstalling, false, false)
    );
    assert_eq!(
        resolve_pending_macos_vcam_status(
            VirtualCameraStatus::Bundled,
            Some(&deactivation),
            Some("boot-a")
        ),
        (VirtualCameraStatus::Bundled, true, false)
    );
}

fn check_pending_intent_unlocks_retry() {
    let activation = PendingMacosCameraExtension {
        intent: MacosCameraExtensionIntent::Activate,
        boot_session: "boot-a".into(),
    };
    assert_eq!(
        resolve_pending_macos_vcam_status(
            VirtualCameraStatus::Bundled,
            Some(&activation),
            Some("boot-b")
        ),
        (VirtualCameraStatus::Bundled, true, true)
    );
}

#[test]
fn vcam_macos_camera_extension_actions_follow_lifecycle_state() {
    check_actions_follow_lifecycle_state();
}

#[test]
fn vcam_tests_macos_camera_extension_actions_follow_lifecycle_state() {
    check_actions_follow_lifecycle_state();
}

#[test]
fn vcam_macos_reboot_pending_intent_survives_until_system_state_converges() {
    check_pending_intent_survives();
}

#[test]
fn vcam_tests_macos_reboot_pending_intent_survives_until_system_state_converges() {
    check_pending_intent_survives();
}

#[test]
fn macos_reboot_pending_intent_unlocks_retry_when_system_did_not_converge() {
    check_pending_intent_unlocks_retry();
}

#[test]
fn macos_reboot_pending_intent_unlocks_retry_when_system_state_did_not_converge() {
    check_pending_intent_unlocks_retry();
}

#[test]
fn no_pending_intent_keeps_the_probed_status() {
    assert_eq!(
        resolve_pending_macos_vcam_status(VirtualCameraStatus::Active, None, Some("boot-a")),
        (VirtualCameraStatus::Active, false, false)
    );
    assert_eq!(
        pending_macos_vcam_display_status(None, VirtualCameraStatus::Active),
        VirtualCameraStatus::Active
    );
}

#[test]
fn clsid_is_stable() {
    assert_eq!(
        guid_string(picoo_vcam_clsid()),
        "A7C4E2F1-8B3D-4C6A-9E5F-1D2C3B4A5E6F"
    );
}

#[test]
fn camera_identity_uses_symbolic_link_not_windows_owned_display_name() {
    let expected = r"\\?\swd#vcamdevapi#picoo";
    assert!(camera_identity_matches(expected, Some(expected)));
    assert!(camera_identity_matches(
        expected,
        Some(r"\\?\SWD#VCAMDEVAPI#PICOO")
    ));
    assert!(!camera_identity_matches(
        expected,
        Some(r"\\?\swd#vcamdevapi#another-camera")
    ));
    assert!(!camera_identity_matches(expected, None));
}

#[test]
fn identity_matching_remains_case_insensitive() {
    assert!(camera_identity_matches(
        "picoo-link",
        Some("PICOO-LINK")
    ));
}

#[test]
fn registry_strings_stop_at_the_first_nul() {
    let bytes = [b'C', 0, b':', 0, 0, 0, b'x', 0, 7];
    assert_eq!(decode_registry_utf16(&bytes), Some(vec![b'C' as u16, b':' as u16]));
    assert_eq!(decode_registry_utf16(&[0, 0, b'a', 0]), None);
    assert_eq!(decode_registry_utf16(&[0x34, 0x12]), Some(vec![0x1234]));
    assert_eq!(decode_registry_utf16(&[1]), None);
    assert!(system_registration_identity_persisted(Some("link")));
    assert!(!system_registration_identity_persisted(Some("")));
    assert!(!system_registration_identity_persisted(None));
}

#[test]
fn registration_helpers_pick_the_first_match() {
    let candidates = vec![
        ("a.dll".to_string(), false),
        ("b.dll".to_string(), true),
        ("c.dll".to_string(), true),
    ];
    assert_eq!(resolve_vcam_dll(&candidates), Some("b.dll".to_string()));
    assert_eq!(resolve_vcam_dll(&candidates[..1]), None);
    assert!(com_server_registered(Some("b.dll"), Some("B.DLL"), true));
    assert!(!com_server_registered(None, Some("b.dll"), true));
    let links = vec![None, Some("OTHER".to_string()), Some("LINK-A".to_string()), Some("link-a".to_string())];
    assert_eq!(first_matching_link("link-a", &links), Some("LINK-A".to_string()));
    assert_eq!(registered_camera_symbolic_link(None, Err("unused".into())), Ok(None));
    assert_eq!(
        registered_camera_symbolic_link(Some("link-a"), Ok(links.clone())),
        Ok(Some("LINK-A".to_string()))
    );
    assert_eq!(
        registered_camera_symbolic_link(Some("link-a"), Err("枚举失败".into())),
        Err("枚举失败".to_string())
    );
    assert_eq!(registered_camera_symbolic_link(Some("zzz"), Ok(links)), Ok(None));
}

#[test]
fn com_registration_repair_decisions() {
    assert!(ensure_com_server_registered(None, false).unwrap_err().contains("PicooVirtualCameraSource.dll"));
    assert!(matches!(
        ensure_com_server_registered(Some("x.dll"), true),
        Ok(ComServerAction::AlreadyRegistered)
    ));
    match ensure_com_server_registered(Some("x.dll"), false) {
        Ok(ComServerAction::Register(path)) => assert_eq!(path, "x.dll"),
        other => panic!("unexpected {other:?}"),
    }
}

#[test]
fn host_contract_prechecks_report_each_failure() {
    assert_eq!(
        host_contract_precheck("C:\\a.dll", None, false, Some("l")),
        Err("Picoo Camera COM server is not registered in HKLM".to_string())
    );
    assert_eq!(
        host_contract_precheck("C:\\a.dll", Some("D:\\b.dll"), false, Some("l")),
        Err("Picoo Camera COM server points to `D:\\b.dll` instead of installed DLL `C:\\a.dll`".to_string())
    );
    assert_eq!(
        host_contract_precheck("C:\\a.dll", Some("C:\\a.dll"), true, Some("")),
        Err("Picoo Camera system registration identity is missing".to_string())
    );
    assert_eq!(
        host_contract_precheck("C:\\a.dll", Some("C:\\a.dll"), true, Some("link")),
        Ok("link".to_string())
    );
    assert!(absence_precheck("").is_err());
    assert_eq!(absence_precheck("link"), Ok(()));
    assert_eq!(
        registration_timeout_message(10, None),
        "虚拟摄像头注册命令已完成，但等待 10 秒后仍不可枚举；Windows 尚未把设备发布到 Media Foundation 摄像头列表"
    );
    assert_eq!(
        registration_timeout_message(3, Some("E")),
        "虚拟摄像头注册命令已完成，但等待 3 秒后仍不可枚举；最后一次枚举错误：E"
    );
}
