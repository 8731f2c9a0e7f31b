//! Virtual camera status: how probes map to a status, the platform-correct
//! setup copy, and the macOS reboot-pending lifecycle.
use vstd::prelude::*;
use crate::macos_extension::InstalledState;
use crate::model::VirtualCameraStatus;
use crate::prefs::{MacosCameraExtensionIntent, PendingMacosCameraExtension};
use crate::text::{contains_at, contains_seq};

verus! {

/// The platform family whose virtual-camera adapter the build carries.
#[derive(Debug, Clone, Copy, PartialEq, Eq, Structural)]
pub enum VcamPlatform {
    Windows,
    Macos,
    Other,
}

/// What the Windows adapter found on disk and in Media Foundation.
#[derive(Debug)]
pub struct WindowsVcamProbe {
    /// HKLM COM registration points at the DLL that was found.
    pub com_server_registered: bool,
    /// The persisted symbolic link as enumerated by Media Foundation.
    pub enumeration: Result<Option<String>, String>,
}

/// What a status probe found on the current machine.
#[derive(Debug)]
pub enum VcamProbe {
    /// macOS: whether the camera extension ships inside the host app.
    Macos { extension_present: bool },
    /// Other platforms: whether the source DLL exists, and the Windows
    /// registration checks when the build carries the Windows adapter.
    Other { dll_present: bool, windows: Option<WindowsVcamProbe> },
}

pub open spec fn probe_status(probe: VcamProbe) -> VirtualCameraStatus {
    match probe {
        VcamProbe::Macos { extension_present } => if extension_present {
            VirtualCameraStatus::Bundled
        } else {
            VirtualCameraStatus::NotInstalled
        },
        VcamProbe::Other { dll_present, windows } => if !dll_present {
            VirtualCameraStatus::NotInstalled
        } else {
            match windows {
                None => VirtualCameraStatus::Unknown,
                Some(w) => if !w.com_server_registered {
                    VirtualCameraStatus::NotInstalled
                } else {
                    match w.enumeration {
                        Ok(Some(_)) => VirtualCameraStatus::Active,
                        Ok(None) => VirtualCameraStatus::NotInstalled,
                        Err(_) => VirtualCameraStatus::Unknown,
                    }
                },
            }
        },
    }
}

/// A camera is shown active only when the Windows adapter found the DLL,
/// the COM registration and an enumerated camera; a missing DLL or extension
/// is always shown as not installed.
pub proof fn lemma_probe_active_needs_enumeration(probe: VcamProbe)
    ensures
        probe_status(probe) == VirtualCameraStatus::Active ==> match probe {
            VcamProbe::Other { dll_present, windows } => dll_present && match windows {
                Some(w) => w.com_server_registered && (w.enumeration matches Ok(Some(_))),
                None => false,
            },
            VcamProbe::Macos { .. } => false,
        },
        match probe {
            VcamProbe::Other { dll_present, .. } => !dll_present,
            VcamProbe::Macos { extension_present } => !extension_present,
        } ==> probe_status(probe) == VirtualCameraStatus::NotInstalled,
{
}

/// Whether the Picoo virtual camera appears installed: on macOS a bundled
/// extension is only `Bundled` (it still needs approval); elsewhere a missing
/// DLL or COM registration means not installed, and only a camera that Media
/// Foundation enumerates is active.
pub fn detect_vcam_status(probe: &VcamProbe) -> (r: VirtualCameraStatus)
    ensures
        r == probe_status(*probe),
{
    match probe {
        VcamProbe::Macos { extension_present } => {
            if *extension_present {
                VirtualCameraStatus::Bundled
            } else {
                VirtualCameraStatus::NotInstalled
            }
        },
        VcamProbe::Other { dll_present, windows } => detect_non_macos_vcam_status(*dll_present, windows),
    }
}

/// Status on platforms other than macOS.
pub fn detect_non_macos_vcam_status(dll_present: bool, windows: &Option<WindowsVcamProbe>) -> (r:
    VirtualCameraStatus)
    ensures
        r == probe_status(VcamProbe::Other { dll_present, windows: *windows }),
{
    if !dll_present {
        return VirtualCameraStatus::NotInstalled;
    }
    match windows {
        None => VirtualCameraStatus::Unknown,
        Some(w) => {
            if !w.com_server_registered {
                VirtualCameraStatus::NotInstalled
            } else {
                match &w.enumeration {
                    Ok(Some(_)) => VirtualCameraStatus::Active,
                    Ok(None) => VirtualCameraStatus::NotInstalled,
                    Err(_) => VirtualCameraStatus::Unknown,
                }
            }
        },
    }
}

pub open spec fn macos_status(state: InstalledState, extension_present: bool) -> VirtualCameraStatus {
    match state {
        InstalledState::Active => VirtualCameraStatus::Active,
        InstalledState::Missing => if !extension_present {
            VirtualCameraStatus::NotInstalled
        } else {
            VirtualCameraStatus::Bundled
        },
        InstalledState::Bundled => VirtualCameraStatus::Bundled,
        InstalledState::AwaitingApproval => VirtualCameraStatus::AwaitingApproval,
        InstalledState::Uninstalling => VirtualCameraStatus::Uninstalling,
    }
}

/// The macOS status keeps the registry's meaning: a registry awaiting
/// approval, uninstalling or active is shown as exactly that and nothing else
/// is; a registry that knows nothing is bundled when the extension ships in
/// the app and not installed otherwise.
pub proof fn lemma_macos_status_keeps_meaning(state: InstalledState, extension_present: bool)
    ensures
        (state == InstalledState::AwaitingApproval) <==> (macos_status(state, extension_present)
            == VirtualCameraStatus::AwaitingApproval),
        (state == InstalledState::Uninstalling) <==> (macos_status(state, extension_present)
            == VirtualCameraStatus::Uninstalling),
        (state == InstalledState::Active) <==> (macos_status(state, extension_present) == VirtualCameraStatus::Active),
        (macos_status(state, extension_present) == VirtualCameraStatus::NotInstalled) <==> (state
            == InstalledState::Missing && !extension_present),
        (macos_status(state, extension_present) == VirtualCameraStatus::Bundled) <==> (state == InstalledState::Bundled
            || (state == InstalledState::Missing && extension_present)),
{
}

/// Status from the macOS SystemExtensions registry query: a registry that
/// knows nothing falls back to whether the extension ships in the bundle.
pub fn query_macos_vcam_status(query: Result<InstalledState, String>, extension_present: bool) -> (r:
    Result<VirtualCameraStatus, String>)
    ensures
        query matches Ok(state) ==> r == Ok::<VirtualCameraStatus, String>(macos_status(state, extension_present)),
        query matches Err(e) ==> r == Err::<VirtualCameraStatus, String>(e),
{
    let state = match query {
        Ok(state) => state,
        Err(e) => return Err(e),
    };
    Ok(match state {
        InstalledState::Active => VirtualCameraStatus::Active,
        InstalledState::Missing => if !extension_present {
            VirtualCameraStatus::NotInstalled
        } else {
            VirtualCameraStatus::Bundled
        },
        InstalledState::Bundled => VirtualCameraStatus::Bundled,
        InstalledState::AwaitingApproval => VirtualCameraStatus::AwaitingApproval,
        InstalledState::Uninstalling => VirtualCameraStatus::Uninstalling,
    })
}

pub open spec fn repair_hint(platform: VcamPlatform, status: VirtualCameraStatus) -> Seq<char> {
    match platform {
        VcamPlatform::Windows => match status {
            VirtualCameraStatus::Installed | VirtualCameraStatus::Active =>
                "虚拟摄像头已注册。若会议软件中不可见，请重启会议应用或重新运行安装程序。"@,
            VirtualCameraStatus::Unknown =>
                "Windows 无法完成摄像头枚举。请点下方「安装或修复…」；若仍失败，请重新运行 PicooCamera.msi。"@,
            _ =>
                "未检测到 Picoo Camera 系统注册。若已安装，请点下方「安装或修复…」并在 Windows 用户账户控制中允许；若组件缺失，请重新运行 PicooCamera.msi。"@,
        },
        VcamPlatform::Macos => match status {
            VirtualCameraStatus::Bundled =>
                "Camera Extension 已随应用提供。点下方「激活 Camera Extension…」，并按 macOS 提示在系统设置中批准。"@,
            VirtualCameraStatus::AwaitingApproval =>
                "Camera Extension 正在等待批准。请在系统设置的“登录项与扩展”中允许 Picoo Camera。"@,
            VirtualCameraStatus::RestartRequired => "Camera Extension 已获批准，将在重新启动 Mac 后生效。"@,
            VirtualCameraStatus::Uninstalling => "macOS 正在移除 Camera Extension；若系统要求，请重新启动 Mac。"@,
            VirtualCameraStatus::Installed | VirtualCameraStatus::Active =>
                "Camera Extension 已激活。若会议软件中不可见，请重启会议应用。"@,
            VirtualCameraStatus::NotInstalled =>
                "当前应用包未包含 Camera Extension，请重新构建或安装完整的 Picoo Camera.app。"@,
            VirtualCameraStatus::Unknown => "正在检测 Camera Extension 状态…"@,
        },
        VcamPlatform::Other => match status {
            VirtualCameraStatus::Bundled => "虚拟摄像头组件已随应用提供，但尚未激活。"@,
            VirtualCameraStatus::AwaitingApproval => "虚拟摄像头组件正在等待系统批准。"@,
            VirtualCameraStatus::RestartRequired => "虚拟摄像头将在系统重启后生效。"@,
            VirtualCameraStatus::Uninstalling => "系统正在移除虚拟摄像头组件。"@,
            VirtualCameraStatus::Installed | VirtualCameraStatus::Active => "虚拟摄像头已就绪。"@,
            VirtualCameraStatus::NotInstalled => "当前平台构建未提供虚拟摄像头组件。"@,
            VirtualCameraStatus::Unknown => "当前平台无法检测虚拟摄像头状态。"@,
        },
    }
}

/// Human-readable repair hint for settings and first launch.
pub fn vcam_repair_hint_for(platform: VcamPlatform, status: VirtualCameraStatus) -> (r: &'static str)
    ensures
        r@ == repair_hint(platform, status),
{
    match platform {
        VcamPlatform::Windows => match status {
            VirtualCameraStatus::Installed | VirtualCameraStatus::Active => {
                "虚拟摄像头已注册。若会议软件中不可见，请重启会议应用或重新运行安装程序。"
            },
            VirtualCameraStatus::Bundled
            | VirtualCameraStatus::AwaitingApproval
            | VirtualCameraStatus::RestartRequired
            | VirtualCameraStatus::Uninstalling
            | VirtualCameraStatus::NotInstalled => {
                "未检测到 Picoo Camera 系统注册。若已安装，请点下方「安装或修复…」并在 Windows 用户账户控制中允许；若组件缺失，请重新运行 PicooCamera.msi。"
            },
            VirtualCameraStatus::Unknown => {
                "Windows 无法完成摄像头枚举。请点下方「安装或修复…」；若仍失败，请重新运行 PicooCamera.msi。"
            },
        },
        VcamPlatform::Macos => match status {
            VirtualCameraStatus::Bundled => {
                "Camera Extension 已随应用提供。点下方「激活 Camera Extension…」，并按 macOS 提示在系统设置中批准。"
            },
            VirtualCameraStatus::AwaitingApproval => {
                "Camera Extension 正在等待批准。请在系统设置的“登录项与扩展”中允许 Picoo Camera。"
            },
            VirtualCameraStatus::RestartRequired => {
                "Camera Extension 已获批准，将在重新启动 Mac 后生效。"
            },
            VirtualCameraStatus::Uninstalling => {
                "macOS 正在移除 Camera Extension；若系统要求，请重新启动 Mac。"
            },
            VirtualCameraStatus::Installed | VirtualCameraStatus::Active => {
                "Camera Extension 已激活。若会议软件中不可见，请重启会议应用。"
            },
            VirtualCameraStatus::NotInstalled => {
                "当前应用包未包含 Camera Extension，请重新构建或安装完整的 Picoo Camera.app。"
            },
            VirtualCameraStatus::Unknown => "正在检测 Camera Extension 状态…",
        },
        VcamPlatform::Other => match status {
            VirtualCameraStatus::Bundled => "虚拟摄像头组件已随应用提供，但尚未激活。",
            VirtualCameraStatus::AwaitingApproval => "虚拟摄像头组件正在等待系统批准。",
            VirtualCameraStatus::RestartRequired => "虚拟摄像头将在系统重启后生效。",
            VirtualCameraStatus::Uninstalling => "系统正在移除虚拟摄像头组件。",
            VirtualCameraStatus::Installed | VirtualCameraStatus::Active => "虚拟摄像头已就绪。",
            VirtualCameraStatus::NotInstalled => "当前平台构建未提供虚拟摄像头组件。",
            VirtualCameraStatus::Unknown => "当前平台无法检测虚拟摄像头状态。",
        },
    }
}

/// Copy that speaks of the Windows installer: Windows itself, the MSI
/// package or the COM/Media Foundation registration.
pub open spec fn mentions_windows_installer(text: Seq<char>) -> bool {
    contains_seq(text, "Windows"@) || contains_seq(text, "MSI"@) || contains_seq(text, "COM/MF"@)
}

/// A text without the character `needle[k]` does not contain `needle`.
proof fn lemma_missing_char_not_contained(hay: Seq<char>, needle: Seq<char>, k: int)
    requires
        0 <= k < needle.len(),
        forall|i: int| 0 <= i < hay.len() ==> hay[i] != needle[k],
    ensures
        !contains_seq(hay, needle),
{
    assert forall|at: int| !contains_at(hay, needle, at) by {
        if contains_at(hay, needle, at) {
            assert(hay.subrange(at, at + needle.len())[k] == hay[at + k]);
        }
    }
}

/// No character of the installer terms' letters `W`, `I` and `/` occurs in
/// `text`, so it names none of them.
proof fn lemma_no_installer_letters(text: Seq<char>)
    requires
        forall|i: int| 0 <= i < text.len() ==> text[i] != 'W' && text[i] != 'I' && text[i] != '/',
    ensures
        !mentions_windows_installer(text),
{
    reveal_strlit("Windows");
    reveal_strlit("MSI");
    reveal_strlit("COM/MF");
    lemma_missing_char_not_contained(text, "Windows"@, 0);
    lemma_missing_char_not_contained(text, "MSI"@, 2);
    lemma_missing_char_not_contained(text, "COM/MF"@, 3);
}

/// The macOS repair hints never speak of the Windows installer.
pub proof fn lemma_macos_hints_name_no_windows_terms(status: VirtualCameraStatus)
    ensures
        !mentions_windows_installer(repair_hint(VcamPlatform::Macos, status)),
{
    let h = repair_hint(VcamPlatform::Macos, status);
    reveal_strlit("Camera Extension 已随应用提供。点下方「激活 Camera Extension…」，并按 macOS 提示在系统设置中批准。");
    reveal_strlit("Camera Extension 正在等待批准。请在系统设置的“登录项与扩展”中允许 Picoo Camera。");
    reveal_strlit("Camera Extension 已获批准，将在重新启动 Mac 后生效。");
    reveal_strlit("macOS 正在移除 Camera Extension；若系统要求，请重新启动 Mac。");
    reveal_strlit("Camera Extension 已激活。若会议软件中不可见，请重启会议应用。");
    reveal_strlit("当前应用包未包含 Camera Extension，请重新构建或安装完整的 Picoo Camera.app。");
    reveal_strlit("正在检测 Camera Extension 状态…");
    assert forall|i: int| 0 <= i < h.len() implies h[i] != 'W' && h[i] != 'I' && h[i] != '/' by {}
    lemma_no_installer_letters(h);
}

/// Repair hint of the virtual-camera page for the build's platform.
pub fn vcam_repair_hint(platform: VcamPlatform, status: VirtualCameraStatus) -> (r: &'static str)
    ensures
        r@ == repair_hint(platform, status),
{
    vcam_repair_hint_for(platform, status)
}

/// Label of the explicit setup or repair action.
pub open spec fn setup_action_text(platform: VcamPlatform) -> Seq<char> {
    match platform {
        VcamPlatform::Windows => "安装或修复…"@,
        VcamPlatform::Macos => "激活 Camera Extension…"@,
        VcamPlatform::Other => "检查虚拟摄像头"@,
    }
}

/// Label of the explicit setup or repair action.
pub fn vcam_setup_action_label(platform: VcamPlatform) -> (r: &'static str)
    ensures
        r@ == setup_action_text(platform),
        platform == VcamPlatform::Windows ==> r@ == "安装或修复…"@,
        platform == VcamPlatform::Macos ==> r@ == "激活 Camera Extension…"@,
        platform == VcamPlatform::Other ==> r@ == "检查虚拟摄像头"@,
{
    match platform {
        VcamPlatform::Windows => "安装或修复…",
        VcamPlatform::Macos => "激活 Camera Extension…",
        VcamPlatform::Other => "检查虚拟摄像头",
    }
}

/// Why a build without a lifecycle adapter cannot activate the camera.
pub fn vcam_setup_unavailable_message(platform: VcamPlatform) -> (r: &'static str)
    ensures
        platform == VcamPlatform::Macos ==> r@
            == "当前应用无法提交 Camera Extension 系统请求。请确认从完整的 Picoo Camera.app 启动，并使用已签名的发布构建。"@,
        platform == VcamPlatform::Other ==> r@ == "当前平台构建不提供系统虚拟摄像头激活能力。"@,
        platform == VcamPlatform::Windows ==> r@ == "请重新运行 Windows 虚拟摄像头修复。"@,
{
    match platform {
        VcamPlatform::Macos => {
            "当前应用无法提交 Camera Extension 系统请求。请确认从完整的 Picoo Camera.app 启动，并使用已签名的发布构建。"
        },
        VcamPlatform::Other => "当前平台构建不提供系统虚拟摄像头激活能力。",
        VcamPlatform::Windows => "请重新运行 Windows 虚拟摄像头修复。",
    }
}

/// Chinese status caption of the virtual-camera page.
pub fn vcam_label_zh(status: VirtualCameraStatus) -> (r: &'static str)
    ensures
        status == VirtualCameraStatus::Unknown ==> r@ == "检测中"@,
        status == VirtualCameraStatus::Bundled ==> r@ == "已随附 · 待激活"@,
        status == VirtualCameraStatus::AwaitingApproval ==> r@ == "等待系统批准"@,
        status == VirtualCameraStatus::RestartRequired ==> r@ == "重启后生效"@,
        status == VirtualCameraStatus::Uninstalling ==> r@ == "正在移除"@,
        status == VirtualCameraStatus::Installed ==> r@ == "就绪 (Ready)"@,
        status == VirtualCameraStatus::NotInstalled ==> r@ == "未安装 (Not Installed)"@,
        status == VirtualCameraStatus::Active ==> r@ == "就绪 (Active)"@,
{
    match status {
        VirtualCameraStatus::Unknown => "检测中",
        VirtualCameraStatus::Bundled => "已随附 · 待激活",
        VirtualCameraStatus::AwaitingApproval => "等待系统批准",
        VirtualCameraStatus::RestartRequired => "重启后生效",
        VirtualCameraStatus::Uninstalling => "正在移除",
        VirtualCameraStatus::Installed => "就绪 (Ready)",
        VirtualCameraStatus::NotInstalled => "未安装 (Not Installed)",
        VirtualCameraStatus::Active => "就绪 (Active)",
    }
}

/// Only a registered camera is started automatically.
pub fn should_auto_start_vcam(status: VirtualCameraStatus) -> (r: bool)
    ensures
        r == (status == VirtualCameraStatus::Installed || status == VirtualCameraStatus::Active),
{
    match status {
        VirtualCameraStatus::Installed | VirtualCameraStatus::Active => true,
        _ => false,
    }
}

/// Activation is offered only for a bundled, not yet active extension.
pub fn macos_activation_action_visible(status: VirtualCameraStatus) -> (r: bool)
    ensures
        r == (status == VirtualCameraStatus::Bundled),
{
    status == VirtualCameraStatus::Bundled
}

/// Deactivation is offered only for an installed or active extension.
pub fn macos_deactivation_action_visible(status: VirtualCameraStatus) -> (r: bool)
    ensures
        r == (status == VirtualCameraStatus::Installed || status == VirtualCameraStatus::Active),
{
    match status {
        VirtualCameraStatus::Installed | VirtualCameraStatus::Active => true,
        _ => false,
    }
}

/// The status to show while a reboot-pending request is recorded, whether the
/// record can be cleared, and whether the retry lock must be released:
/// a converged system clears it; a new boot session that did not converge
/// unlocks a retry; otherwise the request keeps showing as pending.
pub open spec fn pending_resolution(
    status: VirtualCameraStatus,
    pending: Option<PendingMacosCameraExtension>,
    current_boot_session: Option<Seq<char>>,
) -> (VirtualCameraStatus, bool, bool) {
    match pending {
        None => (status, false, false),
        Some(p) => if p.intent == MacosCameraExtensionIntent::Activate && status
            == VirtualCameraStatus::Active {
            (status, true, false)
        } else if p.intent == MacosCameraExtensionIntent::Deactivate && (status
            == VirtualCameraStatus::Bundled || status == VirtualCameraStatus::NotInstalled) {
            (status, true, false)
        } else if current_boot_session matches Some(boot) && boot != p.boot_session@ {
            (status, true, true)
        } else if p.intent == MacosCameraExtensionIntent::Activate {
            (VirtualCameraStatus::RestartRequired, false, false)
        } else {
            (VirtualCameraStatus::Uninstalling, false, false)
        },
    }
}

pub fn resolve_pending_macos_vcam_status(
    status: VirtualCameraStatus,
    pending: Option<&PendingMacosCameraExtension>,
    current_boot_session: Option<&str>,
) -> (r: (VirtualCameraStatus, bool, bool))
    ensures
        r == pending_resolution(
            status,
            match pending { Some(p) => Some(*p), None => None },
            match current_boot_session { Some(b) => Some(b@), None => None },
        ),
{
    match pending {
        None => (status, false, false),
        Some(p) => {
            if p.intent == MacosCameraExtensionIntent::Activate && status == VirtualCameraStatus::Active {
                (status, true, false)
            } else if p.intent == MacosCameraExtensionIntent::Deactivate && (status
                == VirtualCameraStatus::Bundled || status == VirtualCameraStatus::NotInstalled) {
                (status, true, false)
            } else {
                let other_boot = match current_boot_session {
                    Some(boot) => {
                        let b = boot.to_owned();
                        !(b == p.boot_session)
                    },
                    None => false,
                };
                if other_boot {
                    (status, true, true)
                } else if p.intent == MacosCameraExtensionIntent::Activate {
                    (VirtualCameraStatus::RestartRequired, false, false)
                } else {
                    (VirtualCameraStatus::Uninstalling, false, false)
                }
            }
        },
    }
}

/// Status shown while a lifecycle request is pending: restart-required for an
/// activation, uninstalling for a deactivation.
pub fn pending_macos_vcam_display_status(
    pending: Option<&PendingMacosCameraExtension>,
    fallback: VirtualCameraStatus,
) -> (r: VirtualCameraStatus)
    ensures
        pending is None ==> r == fallback,
        pending matches Some(p) ==> r == (if p.intent == MacosCameraExtensionIntent::Activate {
            VirtualCameraStatus::RestartRequired
        } else {
            VirtualCameraStatus::Uninstalling
        }),
{
    match pending {
        Some(p) => match p.intent {
            MacosCameraExtensionIntent::Activate => VirtualCameraStatus::RestartRequired,
            MacosCameraExtensionIntent::Deactivate => VirtualCameraStatus::Uninstalling,
        },
        None => fallback,
    }
}

} // verus!
