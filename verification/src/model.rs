//! Desktop UI state shared by the shell, the tray and the diagnostics views.
use vstd::prelude::*;

verus! {

/// A Sender seen by discovery.
#[derive(Debug, Clone, Default)]
pub struct DeviceSummary {
    pub device_id: String,
    pub display_name: String,
    pub platform: String,
    pub paired: bool,
}

/// The stream currently received.
#[derive(Debug, Clone)]
pub struct SessionSummary {
    pub sender_name: String,
    pub width: u32,
    pub height: u32,
    pub fps: u32,
}

/// Installation / activation state of the Picoo virtual camera.
#[derive(Debug, Clone, Copy, PartialEq, Eq, Structural)]
pub enum VirtualCameraStatus {
    Unknown,
    /// Shipped inside the app bundle but not yet activated.
    Bundled,
    AwaitingApproval,
    RestartRequired,
    Uninstalling,
    Installed,
    NotInstalled,
    Active,
}

impl Default for VirtualCameraStatus {
    fn default() -> (r: Self)
        ensures
            r == VirtualCameraStatus::Unknown,
    {
        VirtualCameraStatus::Unknown
    }
}

/// A user-facing error with a stable code.
#[derive(Debug, Clone)]
pub struct AppError {
    pub code: String,
    pub message: String,
}

/// Session status reported by the receiver.
#[derive(Debug, Clone, Copy, PartialEq, Eq, Structural)]
pub enum ReceiverStatus {
    Discovering,
    Pairing,
    Connecting,
    Negotiating,
    Streaming,
    Reconnecting,
    Disconnected,
    PermissionRequired,
    VirtualCameraUnavailable,
    NetworkUnstable,
}

/// Chinese status caption of the desktop shell.
pub fn status_label(status: ReceiverStatus) -> (r: &'static str)
    ensures
        status == ReceiverStatus::Discovering ==> r@ == "等待连接"@,
        status == ReceiverStatus::Pairing ==> r@ == "配对中"@,
        status == ReceiverStatus::Connecting ==> r@ == "连接中"@,
        status == ReceiverStatus::Negotiating ==> r@ == "协商中"@,
        status == ReceiverStatus::Streaming ==> r@ == "直播中"@,
        status == ReceiverStatus::Reconnecting ==> r@ == "重连中"@,
        status == ReceiverStatus::Disconnected ==> r@ == "未连接"@,
        status == ReceiverStatus::PermissionRequired ==> r@ == "需要权限"@,
        status == ReceiverStatus::VirtualCameraUnavailable ==> r@ == "虚拟摄像头不可用"@,
        status == ReceiverStatus::NetworkUnstable ==> r@ == "网络不稳定"@,
{
    match status {
        ReceiverStatus::Discovering => "等待连接",
        ReceiverStatus::Pairing => "配对中",
        ReceiverStatus::Connecting => "连接中",
        ReceiverStatus::Negotiating => "协商中",
        ReceiverStatus::Streaming => "直播中",
        ReceiverStatus::Reconnecting => "重连中",
        ReceiverStatus::Disconnected => "未连接",
        ReceiverStatus::PermissionRequired => "需要权限",
        ReceiverStatus::VirtualCameraUnavailable => "虚拟摄像头不可用",
        ReceiverStatus::NetworkUnstable => "网络不稳定",
    }
}

/// Whether the link is verified end to end: only an established session is.
pub open spec fn link_verified(status: ReceiverStatus) -> bool {
    status == ReceiverStatus::Streaming || status == ReceiverStatus::Reconnecting || status
        == ReceiverStatus::NetworkUnstable
}

/// Security caption of the connection card and whether the link is verified;
/// an encrypted but unconfirmed pairing is never shown as verified.
pub fn connection_security_status(status: ReceiverStatus) -> (r: (&'static str, bool))
    ensures
        r.1 == link_verified(status),
        status == ReceiverStatus::Pairing ==> r.0@ == "加密待确认"@,
        (status == ReceiverStatus::Connecting || status == ReceiverStatus::Negotiating) ==> r.0@
            == "正在建立"@,
        link_verified(status) ==> r.0@ == "已验证"@,
        (status == ReceiverStatus::Disconnected || status == ReceiverStatus::Discovering || status
            == ReceiverStatus::PermissionRequired || status
            == ReceiverStatus::VirtualCameraUnavailable) ==> r.0@ == "等待连接"@,
{
    match status {
        ReceiverStatus::Pairing => ("加密待确认", false),
        ReceiverStatus::Connecting | ReceiverStatus::Negotiating => ("正在建立", false),
        ReceiverStatus::Streaming | ReceiverStatus::Reconnecting | ReceiverStatus::NetworkUnstable => (
            "已验证",
            true,
        ),
        ReceiverStatus::Disconnected
        | ReceiverStatus::Discovering
        | ReceiverStatus::PermissionRequired
        | ReceiverStatus::VirtualCameraUnavailable => ("等待连接", false),
    }
}

} // verus!
