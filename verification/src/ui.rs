//! Window-independent state and copy of the desktop shell: the pairing code
//! display, navigation sections, the endpoint caption, diagnostics export,
//! pairing recovery and the virtual-camera setup button.
use vstd::prelude::*;
use crate::macos_extension::{LifecycleOutcome, LifecycleRequest};
use crate::model::VirtualCameraStatus;
use crate::prefs::MacosCameraExtensionIntent;
use crate::text::{chars_of, concat2, decimal, owned, push_char, string_from_chars};
use crate::text::decimal_digits;
use crate::vcam_status::{setup_action_text, vcam_setup_action_label, VcamPlatform};

verus! {

/// QUIC port on which the receiver listens and that it advertises.
pub const DEFAULT_QUIC_PORT: u16 = 4433;

pub open spec fn is_ascii_digit(c: char) -> bool {
    '0' <= c && c <= '9'
}

/// The ASCII digits of `s`, in order.
pub open spec fn ascii_digits(s: Seq<char>) -> Seq<char>
    decreases s.len(),
{
    if s.len() == 0 {
        Seq::empty()
    } else if is_ascii_digit(s.last()) {
        ascii_digits(s.drop_last()).push(s.last())
    } else {
        ascii_digits(s.drop_last())
    }
}

/// At most the first `n` items of `s`.
pub open spec fn first_n(s: Seq<char>, n: nat) -> Seq<char> {
    if s.len() <= n {
        s
    } else {
        s.take(n as int)
    }
}

/// The pairing code as shown: its first six ASCII digits, split `ddd ddd`
/// once there are more than three.
pub open spec fn pairing_code_text(code: Seq<char>) -> Seq<char> {
    let digits = first_n(ascii_digits(code), 6);
    if digits.len() <= 3 {
        digits
    } else {
        digits.subrange(0, 3) + seq![' '] + digits.subrange(3, digits.len() as int)
    }
}

/// Format the pairing short code for display.
pub fn format_pairing_code(code: &str) -> (r: String)
    ensures
        r@ == pairing_code_text(code@),
{
    let cs = chars_of(code);
    let mut digits: Vec<char> = Vec::new();
    let mut i: usize = 0;
    assert(ascii_digits(cs@.take(0)) =~= Seq::<char>::empty());
    while i < cs.len()
        invariant
            cs@ == code@,
            i <= cs@.len(),
            digits@ == first_n(ascii_digits(cs@.take(i as int)), 6),
        decreases cs@.len() - i,
    {
        let c = cs[i];
        assert(cs@.take(i + 1).drop_last() =~= cs@.take(i as int));
        let ghost prev = ascii_digits(cs@.take(i as int));
        if '0' <= c && c <= '9' && digits.len() < 6 {
            digits.push(c);
            assert(digits@ =~= first_n(ascii_digits(cs@.take(i + 1)), 6));
        } else {
            if '0' <= c && c <= '9' {
                assert(prev.len() >= 6);
                assert(prev.push(c).take(6) =~= prev.take(6));
            }
            assert(digits@ =~= first_n(ascii_digits(cs@.take(i + 1)), 6));
        }
        i = i + 1;
    }
    assert(cs@.take(cs@.len() as int) =~= cs@);
    if digits.len() <= 3 {
        return string_from_chars(digits.as_slice());
    }
    let mut out = string_from_chars(&digits.as_slice()[0..3]);
    push_char(&mut out, ' ');
    let rest = string_from_chars(&digits.as_slice()[3..digits.len()]);
    out.append(rest.as_str());
    out
}

/// Sections of the desktop navigation.
#[derive(Debug, Clone, Copy, PartialEq, Eq, Structural)]
pub enum DesktopSection {
    Connect,
    VirtualCamera,
    Network,
    General,
    Help,
    About,
}

impl DesktopSection {
    pub fn label(self) -> (r: &'static str)
        ensures
            r@ == match self {
                DesktopSection::Connect => "连接"@,
                DesktopSection::VirtualCamera => "虚拟摄像头"@,
                DesktopSection::Network => "网络"@,
                DesktopSection::General => "通用"@,
                DesktopSection::Help => "帮助"@,
                DesktopSection::About => "关于"@,
            },
    {
        match self {
            DesktopSection::Connect => "连接",
            DesktopSection::VirtualCamera => "虚拟摄像头",
            DesktopSection::Network => "网络",
            DesktopSection::General => "通用",
            DesktopSection::Help => "帮助",
            DesktopSection::About => "关于",
        }
    }
}

/// `host:4433` for the advertised host, or a dash when there is none.
pub fn endpoint_label(advertise_host: &str) -> (r: String)
    ensures
        advertise_host@.len() == 0 ==> r@ == "—"@,
        advertise_host@.len() > 0 ==> r@ == advertise_host@ + seq![':'] + decimal_digits(DEFAULT_QUIC_PORT as nat),
{
    if advertise_host.is_empty() {
        return owned("—");
    }
    let mut out = owned(advertise_host);
    push_char(&mut out, ':');
    let port = decimal(DEFAULT_QUIC_PORT as u64);
    crate::text::append_chars(&mut out, port.as_slice());
    out
}

/// Where the last diagnostics export was written, if it succeeded.
#[derive(Debug, Clone)]
pub struct DiagnosticsExportState {
    pub path: Option<String>,
}

impl DiagnosticsExportState {
    pub fn new() -> (r: Self)
        ensures
            r.path is None,
    {
        DiagnosticsExportState { path: None }
    }

    pub fn succeeded(&mut self, path: String)
        ensures
            final(self).path == Some(path),
    {
        self.path = Some(path);
    }

    pub fn failed(&mut self)
        ensures
            final(self).path is None,
    {
        self.path = None;
    }

    /// The reveal action is offered only after a successful export.
    pub fn can_reveal(&self) -> (r: bool)
        ensures
            r == self.path is Some,
    {
        self.path.is_some()
    }

    pub fn path(&self) -> (r: Option<&str>)
        ensures
            match self.path {
                Some(p) => r matches Some(q) && q@ == p@,
                None => r is None,
            },
    {
        match &self.path {
            Some(p) => Some(p.as_str()),
            None => None,
        }
    }
}

impl Default for DiagnosticsExportState {
    fn default() -> (r: Self)
        ensures
            r.path is None,
    {
        Self::new()
    }
}

/// Kinds of receiver start-up failure.
#[derive(Debug, Clone, Copy, PartialEq, Eq, Structural)]
pub enum ReceiverErrorKind {
    Identity,
    Store,
    Other,
}

/// The two corruptions that the recovery screen can repair.
#[derive(Debug, Clone, Copy, PartialEq, Eq, Structural)]
pub enum PairingRecoveryKind {
    Identity,
    TrustedStore,
}

impl PairingRecoveryKind {
    /// Only a corrupt identity or trusted store enters recovery.
    pub fn classify(error: ReceiverErrorKind) -> (r: Option<Self>)
        ensures
            r == match error {
                ReceiverErrorKind::Identity => Some(PairingRecoveryKind::Identity),
                ReceiverErrorKind::Store => Some(PairingRecoveryKind::TrustedStore),
                ReceiverErrorKind::Other => None,
            },
    {
        match error {
            ReceiverErrorKind::Identity => Some(PairingRecoveryKind::Identity),
            ReceiverErrorKind::Store => Some(PairingRecoveryKind::TrustedStore),
            ReceiverErrorKind::Other => None,
        }
    }

    pub fn title(self) -> (r: &'static str)
        ensures
            self == PairingRecoveryKind::Identity ==> r@ == "设备身份损坏"@,
            self == PairingRecoveryKind::TrustedStore ==> r@ == "配对数据损坏"@,
    {
        match self {
            PairingRecoveryKind::Identity => "设备身份损坏",
            PairingRecoveryKind::TrustedStore => "配对数据损坏",
        }
    }

    pub fn description(self) -> (r: &'static str)
        ensures
            self == PairingRecoveryKind::Identity ==> r@
                == "Picoo Camera 无法验证保存在系统安全存储中的设备身份，因此没有启动连接或媒体服务。修复会生成新的设备身份并清除全部配对；所有手机都需要重新核对配对短码。"@,
            self == PairingRecoveryKind::TrustedStore ==> r@
                == "Picoo Camera 无法验证本机配对数据，因此没有启动连接或媒体服务。重置会保留本机设备身份，但清除全部可信设备；所有手机都需要重新核对配对短码。"@,
    {
        match self {
            PairingRecoveryKind::Identity => {
                "Picoo Camera 无法验证保存在系统安全存储中的设备身份，因此没有启动连接或媒体服务。修复会生成新的设备身份并清除全部配对；所有手机都需要重新核对配对短码。"
            },
            PairingRecoveryKind::TrustedStore => {
                "Picoo Camera 无法验证本机配对数据，因此没有启动连接或媒体服务。重置会保留本机设备身份，但清除全部可信设备；所有手机都需要重新核对配对短码。"
            },
        }
    }

    pub fn action_label(self) -> (r: &'static str)
        ensures
            self == PairingRecoveryKind::Identity ==> r@ == "修复身份"@,
            self == PairingRecoveryKind::TrustedStore ==> r@ == "重置配对"@,
    {
        match self {
            PairingRecoveryKind::Identity => "修复身份",
            PairingRecoveryKind::TrustedStore => "重置配对",
        }
    }
}

/// Progress of a pairing recovery.
#[derive(Debug, Clone)]
pub enum PairingRecoveryState {
    Ready,
    Running,
    Succeeded,
    Failed(String),
}

/// Start a recovery unless one is running; returns whether it started.
pub fn begin_recovery(state: &mut PairingRecoveryState) -> (r: bool)
    ensures
        r == !(*old(state) is Running),
        *final(state) is Running,
{
    if let PairingRecoveryState::Running = state {
        return false;
    }
    *state = PairingRecoveryState::Running;
    true
}

/// Record how the recovery ended.
pub fn finish_recovery(state: &mut PairingRecoveryState, failure: Option<String>)
    ensures
        match failure {
            None => *final(state) is Succeeded,
            Some(e) => *final(state) matches PairingRecoveryState::Failed(m) && m@ == e@,
        },
{
    *state = match failure {
        None => PairingRecoveryState::Succeeded,
        Some(e) => PairingRecoveryState::Failed(e),
    };
}

/// The virtual-camera setup operation in progress.
#[derive(Debug, Clone, Copy, PartialEq, Eq, Structural)]
pub enum VcamSetupOperation {
    Activate,
    Deactivate,
    Detect,
}

/// State of the virtual-camera setup button.
#[derive(Debug, Clone)]
pub enum VcamSetupState {
    Idle,
    Running(VcamSetupOperation),
    Succeeded(String),
    Failed(String),
}

impl VcamSetupState {
    pub fn is_running(&self) -> (r: bool)
        ensures
            r == self is Running,
    {
        match self {
            VcamSetupState::Running(_) => true,
            _ => false,
        }
    }
}

/// Label of the setup button: what is running, else the platform's action.
pub fn vcam_setup_button_label(state: &VcamSetupState, platform: VcamPlatform) -> (r: &'static str)
    ensures
        match state {
            VcamSetupState::Running(VcamSetupOperation::Activate) => if platform == VcamPlatform::Macos {
                r@ == "正在等待系统批准…"@
            } else {
                r@ == "正在等待管理员授权…"@
            },
            VcamSetupState::Running(VcamSetupOperation::Detect) => r@ == "正在检测…"@,
            VcamSetupState::Running(VcamSetupOperation::Deactivate) => r@ == "正在停用…"@,
            _ => r@ == setup_action_text(platform),
        },
{
    match state {
        VcamSetupState::Running(VcamSetupOperation::Activate) => {
            match platform {
                VcamPlatform::Macos => "正在等待系统批准…",
                _ => "正在等待管理员授权…",
            }
        },
        VcamSetupState::Running(VcamSetupOperation::Detect) => "正在检测…",
        VcamSetupState::Running(VcamSetupOperation::Deactivate) => "正在停用…",
        _ => vcam_setup_action_label(platform),
    }
}

/// Feedback under the setup button: the approval hint while activating, the
/// removal note while deactivating, the outcome message afterwards.
pub fn vcam_setup_feedback(state: &VcamSetupState, platform: VcamPlatform) -> (r: Option<String>)
    ensures
        match state {
            VcamSetupState::Idle => r is None,
            VcamSetupState::Running(VcamSetupOperation::Detect) => r is None,
            VcamSetupState::Running(VcamSetupOperation::Activate) => r matches Some(t) && (if platform
                == VcamPlatform::Macos {
                t@ == "若 macOS 要求批准，请打开系统设置中的“登录项与扩展”，允许 Picoo Camera，然后返回此窗口。"@
            } else {
                t@ == "请在 Windows 用户账户控制中允许 Picoo Camera 修改设备，然后返回此窗口。"@
            }),
            VcamSetupState::Running(VcamSetupOperation::Deactivate) => r matches Some(t) && t@
                == "正在请求 macOS 停用并移除 Camera Extension…"@,
            VcamSetupState::Succeeded(m) => r matches Some(t) && t@ == m@,
            VcamSetupState::Failed(m) => r matches Some(t) && t@ == m@,
        },
{
    match state {
        VcamSetupState::Idle => None,
        VcamSetupState::Running(VcamSetupOperation::Detect) => None,
        VcamSetupState::Running(VcamSetupOperation::Activate) => Some(
            match platform {
                VcamPlatform::Macos => owned(
                    "若 macOS 要求批准，请打开系统设置中的“登录项与扩展”，允许 Picoo Camera，然后返回此窗口。",
                ),
                _ => owned("请在 Windows 用户账户控制中允许 Picoo Camera 修改设备，然后返回此窗口。"),
            },
        ),
        VcamSetupState::Running(VcamSetupOperation::Deactivate) => Some(
            owned("正在请求 macOS 停用并移除 Camera Extension…"),
        ),
        VcamSetupState::Succeeded(m) => Some(owned(m.as_str())),
        VcamSetupState::Failed(m) => Some(owned(m.as_str())),
    }
}


/// Light or dark appearance of the window theme.
#[derive(Debug, Clone, Copy, PartialEq, Eq, Structural)]
pub enum ThemeMode {
    Light,
    Dark,
}

impl ThemeMode {
    pub fn is_dark(self) -> (r: bool)
        ensures
            r == (self == ThemeMode::Dark),
    {
        match self {
            ThemeMode::Light => false,
            ThemeMode::Dark => true,
        }
    }
}

/// The desktop starts in the light theme.
pub const DEFAULT_THEME_MODE: ThemeMode = ThemeMode::Light;

/// Start a setup operation unless one is running; returns whether it started.
pub fn start_vcam_setup(state: &mut VcamSetupState, operation: VcamSetupOperation) -> (r: bool)
    ensures
        r == !(*old(state) is Running),
        r ==> *final(state) == VcamSetupState::Running(operation),
        !r ==> *final(state) == *old(state),
{
    if state.is_running() {
        return false;
    }
    *state = VcamSetupState::Running(operation);
    true
}

/// What a finished setup operation changes: the status shown (or a fresh
/// probe), the macOS pending intent, and the setup state. When an intent is
/// to be saved, `state` is the outcome if saving succeeds.
#[derive(Debug, Clone)]
pub struct VcamSetupEffect {
    pub status: Option<VirtualCameraStatus>,
    pub redetect: bool,
    pub clear_pending: bool,
    pub persist_intent: Option<MacosCameraExtensionIntent>,
    pub state: VcamSetupState,
}

/// A setup state as a tag and its message: 0 idle, 2 succeeded and 3
/// failed with the message shown, 4, 5 and 6 running the activation, the
/// deactivation and the detection.
pub open spec fn setup_state_view(s: VcamSetupState) -> (int, Seq<char>) {
    match s {
        VcamSetupState::Idle => (0, Seq::empty()),
        VcamSetupState::Running(VcamSetupOperation::Activate) => (4, Seq::empty()),
        VcamSetupState::Running(VcamSetupOperation::Deactivate) => (5, Seq::empty()),
        VcamSetupState::Running(VcamSetupOperation::Detect) => (6, Seq::empty()),
        VcamSetupState::Succeeded(m) => (2, m@),
        VcamSetupState::Failed(m) => (3, m@),
    }
}

fn effect(
    status: Option<VirtualCameraStatus>,
    redetect: bool,
    clear_pending: bool,
    persist_intent: Option<MacosCameraExtensionIntent>,
    state: VcamSetupState,
) -> (r: VcamSetupEffect)
    ensures
        r.status == status,
        r.redetect == redetect,
        r.clear_pending == clear_pending,
        r.persist_intent == persist_intent,
        r.state == state,
{
    VcamSetupEffect { status, redetect, clear_pending, persist_intent, state }
}

/// The end of a macOS activation or deactivation: completion clears the
/// pending intent and shows the new state; a reboot requirement records the
/// intent; a failed activation probes the status again, a failed
/// deactivation leaves it.
pub fn lifecycle_effect(request: LifecycleRequest, outcome: Result<LifecycleOutcome, String>) -> (r: VcamSetupEffect)
    ensures
        match (request, outcome) {
            (LifecycleRequest::Activation, Ok(LifecycleOutcome::Completed)) => r.status == Some(
                VirtualCameraStatus::Active,
            ) && !r.redetect && r.clear_pending && r.persist_intent is None && setup_state_view(r.state) == (
                2int,
                "Camera Extension 已激活。请重启已打开的会议应用。"@,
            ),
            (LifecycleRequest::Activation, Ok(LifecycleOutcome::RestartRequired)) => r.status == Some(
                VirtualCameraStatus::RestartRequired,
            ) && !r.redetect && !r.clear_pending && r.persist_intent == Some(MacosCameraExtensionIntent::Activate)
                && setup_state_view(r.state) == (2int, "Camera Extension 将在重新启动 Mac 后激活。"@),
            (LifecycleRequest::Activation, Err(e)) => r.status is None && r.redetect && !r.clear_pending
                && r.persist_intent is None && setup_state_view(r.state) == (3int, "无法激活 Camera Extension："@ + e@),
            (LifecycleRequest::Deactivation, Ok(LifecycleOutcome::Completed)) => r.status == Some(
                VirtualCameraStatus::Bundled,
            ) && !r.redetect && r.clear_pending && r.persist_intent is None && setup_state_view(r.state) == (
                2int,
                "Camera Extension 已停用并从系统移除，可随时重新激活。"@,
            ),
            (LifecycleRequest::Deactivation, Ok(LifecycleOutcome::RestartRequired)) => r.status == Some(
                VirtualCameraStatus::Uninstalling,
            ) && !r.redetect && !r.clear_pending && r.persist_intent == Some(
                MacosCameraExtensionIntent::Deactivate,
            ) && setup_state_view(r.state) == (2int, "Camera Extension 将在重新启动 Mac 后完成移除。"@),
            (LifecycleRequest::Deactivation, Err(e)) => r.status is None && !r.redetect && !r.clear_pending
                && r.persist_intent is None && setup_state_view(r.state) == (3int, "无法停用 Camera Extension："@ + e@),
        },
{
    match request {
        LifecycleRequest::Activation => match outcome {
            Ok(LifecycleOutcome::Completed) => effect(
                Some(VirtualCameraStatus::Active),
                false,
                true,
                None,
                VcamSetupState::Succeeded(owned("Camera Extension 已激活。请重启已打开的会议应用。")),
            ),
            Ok(LifecycleOutcome::RestartRequired) => effect(
                Some(VirtualCameraStatus::RestartRequired),
                false,
                false,
                Some(MacosCameraExtensionIntent::Activate),
                VcamSetupState::Succeeded(owned("Camera Extension 将在重新启动 Mac 后激活。")),
            ),
            Err(e) => effect(
                None,
                true,
                false,
                None,
                VcamSetupState::Failed(concat2("无法激活 Camera Extension：", e.as_str())),
            ),
        },
        LifecycleRequest::Deactivation => match outcome {
            Ok(LifecycleOutcome::Completed) => effect(
                Some(VirtualCameraStatus::Bundled),
                false,
                true,
                None,
                VcamSetupState::Succeeded(owned("Camera Extension 已停用并从系统移除，可随时重新激活。")),
            ),
            Ok(LifecycleOutcome::RestartRequired) => effect(
                Some(VirtualCameraStatus::Uninstalling),
                false,
                false,
                Some(MacosCameraExtensionIntent::Deactivate),
                VcamSetupState::Succeeded(owned("Camera Extension 将在重新启动 Mac 后完成移除。")),
            ),
            Err(e) => effect(
                None,
                false,
                false,
                None,
                VcamSetupState::Failed(concat2("无法停用 Camera Extension：", e.as_str())),
            ),
        },
    }
}

/// The setup state when the pending intent of a reboot could not be saved.
pub fn pending_persist_failed(err: &str) -> (r: VcamSetupState)
    ensures
        setup_state_view(r) == (3int, "系统要求重新启动，但无法保存待处理状态："@ + err@),
{
    VcamSetupState::Failed(concat2("系统要求重新启动，但无法保存待处理状态：", err))
}

/// Name of a status as `{:?}` prints it.
pub open spec fn status_name(status: VirtualCameraStatus) -> Seq<char> {
    match status {
        VirtualCameraStatus::Unknown => "Unknown"@,
        VirtualCameraStatus::Bundled => "Bundled"@,
        VirtualCameraStatus::AwaitingApproval => "AwaitingApproval"@,
        VirtualCameraStatus::RestartRequired => "RestartRequired"@,
        VirtualCameraStatus::Uninstalling => "Uninstalling"@,
        VirtualCameraStatus::Installed => "Installed"@,
        VirtualCameraStatus::NotInstalled => "NotInstalled"@,
        VirtualCameraStatus::Active => "Active"@,
    }
}

pub fn status_debug_name(status: VirtualCameraStatus) -> (r: &'static str)
    ensures
        r@ == status_name(status),
{
    match status {
        VirtualCameraStatus::Unknown => "Unknown",
        VirtualCameraStatus::Bundled => "Bundled",
        VirtualCameraStatus::AwaitingApproval => "AwaitingApproval",
        VirtualCameraStatus::RestartRequired => "RestartRequired",
        VirtualCameraStatus::Uninstalling => "Uninstalling",
        VirtualCameraStatus::Installed => "Installed",
        VirtualCameraStatus::NotInstalled => "NotInstalled",
        VirtualCameraStatus::Active => "Active",
    }
}

/// The Windows repair succeeded only if the camera now enumerates.
pub fn windows_repair_verdict(status_after: VirtualCameraStatus) -> (r: Result<(), String>)
    ensures
        status_after == VirtualCameraStatus::Active <==> r is Ok,
        r matches Err(e) ==> e@ == "修复进程已结束，但 Windows 摄像头枚举状态仍为 "@ + status_name(status_after),
{
    match status_after {
        VirtualCameraStatus::Active => Ok(()),
        other => Err(concat2("修复进程已结束，但 Windows 摄像头枚举状态仍为 ", status_debug_name(other))),
    }
}

/// The end of a Windows repair: an active camera on success, otherwise a
/// fresh probe and the error.
pub fn windows_repair_effect(result: Result<(), String>) -> (r: VcamSetupEffect)
    ensures
        result is Ok ==> r.status == Some(VirtualCameraStatus::Active) && !r.redetect && setup_state_view(r.state) == (
            2int,
            "虚拟摄像头已修复并激活。"@,
        ),
        result matches Err(e) ==> r.status is None && r.redetect && setup_state_view(r.state) == (3int, e@),
        !r.clear_pending,
        r.persist_intent is None,
{
    match result {
        Ok(()) => effect(
            Some(VirtualCameraStatus::Active),
            false,
            false,
            None,
            VcamSetupState::Succeeded(owned("虚拟摄像头已修复并激活。")),
        ),
        Err(e) => effect(None, true, false, None, VcamSetupState::Failed(e)),
    }
}

/// A macOS app bundle without the camera extension cannot activate it.
pub fn macos_activation_precheck(detected: VirtualCameraStatus) -> (r: Option<VcamSetupState>)
    ensures
        detected == VirtualCameraStatus::NotInstalled ==> (r matches Some(s) && setup_state_view(s) == (
            3int,
            "当前应用包未包含 Camera Extension，请安装完整的 Picoo Camera.app。"@,
        )),
        detected != VirtualCameraStatus::NotInstalled ==> r is None,
{
    match detected {
        VirtualCameraStatus::NotInstalled => Some(
            VcamSetupState::Failed(owned("当前应用包未包含 Camera Extension，请安装完整的 Picoo Camera.app。")),
        ),
        _ => None,
    }
}

/// The setup state after a successful macOS status query: the reboot did
/// not complete the change, or the pending intent could not be cleared, or
/// all is settled.
pub fn refresh_setup_state(failed_after_reboot: bool, persistence_error: Option<&str>) -> (r: VcamSetupState)
    ensures
        failed_after_reboot ==> setup_state_view(r) == (3int, "Mac 已重新启动，但 Camera Extension 未完成系统变更。请重试。"@),
        !failed_after_reboot ==> match persistence_error {
            Some(e) => setup_state_view(r) == (3int, "无法保存 Camera Extension 状态："@ + e@),
            None => r is Idle,
        },
{
    if failed_after_reboot {
        VcamSetupState::Failed(owned("Mac 已重新启动，但 Camera Extension 未完成系统变更。请重试。"))
    } else {
        match persistence_error {
            Some(e) => VcamSetupState::Failed(concat2("无法保存 Camera Extension 状态：", e)),
            None => VcamSetupState::Idle,
        }
    }
}

/// The setup state after the macOS status query failed.
pub fn query_failed_state(err: &str) -> (r: VcamSetupState)
    ensures
        setup_state_view(r) == (3int, "无法读取 Camera Extension 系统状态："@ + err@),
{
    VcamSetupState::Failed(concat2("无法读取 Camera Extension 系统状态：", err))
}
} // verus!
