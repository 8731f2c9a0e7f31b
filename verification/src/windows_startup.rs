//! Messages shown when the desktop receiver cannot start.
use vstd::prelude::*;
use crate::text::{concat2, contains, contains_seq, owned};
use crate::wide::{truncated_wide, utf16_of};

verus! {

/// Whether this process owns the single-instance lock.
#[derive(Debug, Clone, Copy, PartialEq, Eq, Structural)]
pub enum InstanceClaim {
    Unique,
    AlreadyRunning,
}

/// The error says that the QUIC port is taken (Windows error 10048, its
/// localized text, or the POSIX text).
pub open spec fn port_in_use(error: Seq<char>) -> bool {
    contains_seq(error, "10048"@) || contains_seq(error, "只允许使用一次"@) || contains_seq(
        error,
        "Address already in use"@,
    )
}

fn mentions_port_in_use(error: &str) -> (r: bool)
    ensures
        r == port_in_use(error@),
{
    contains(error, "10048") || contains(error, "只允许使用一次") || contains(error, "Address already in use")
}

/// Startup failure text of the Windows process: a taken port is explained
/// with the tray hint; any other error is shown after a fixed prefix.
pub fn startup_error_message(error: &str) -> (r: String)
    ensures
        port_in_use(error@) ==> r@
            == "无法启动 Picoo Camera：局域网端口 4433 已被占用。请先退出任务栏托盘中已运行的 Picoo Camera，或关闭占用该端口的程序。"@,
        !port_in_use(error@) ==> r@ == "无法启动 Picoo Camera："@ + error@,
{
    if mentions_port_in_use(error) {
        owned("无法启动 Picoo Camera：局域网端口 4433 已被占用。请先退出任务栏托盘中已运行的 Picoo Camera，或关闭占用该端口的程序。")
    } else {
        concat2("无法启动 Picoo Camera：", error)
    }
}

/// Receiver startup failure text of the desktop shell; the tray is mentioned
/// only on Windows, where the running instance hides there.
pub fn receiver_startup_error_message(error: &str, windows: bool) -> (r: String)
    ensures
        port_in_use(error@) && windows ==> r@
            == "无法启动 Picoo Camera：局域网端口 4433 已被占用。请先退出任务栏托盘中已运行的 Picoo Camera，或关闭占用该端口的程序。"@,
        port_in_use(error@) && !windows ==> r@
            == "无法启动 Picoo Camera：局域网端口 4433 已被占用。请先退出已运行的 Picoo Camera，或关闭占用该端口的程序。"@,
        !port_in_use(error@) ==> r@ == "无法启动 Picoo Camera："@ + error@,
{
    if mentions_port_in_use(error) {
        if windows {
            owned("无法启动 Picoo Camera：局域网端口 4433 已被占用。请先退出任务栏托盘中已运行的 Picoo Camera，或关闭占用该端口的程序。")
        } else {
            owned("无法启动 Picoo Camera：局域网端口 4433 已被占用。请先退出已运行的 Picoo Camera，或关闭占用该端口的程序。")
        }
    } else {
        concat2("无法启动 Picoo Camera：", error)
    }
}

/// Shown when a second instance cannot bring the running one to the front.
pub fn already_running_message() -> (r: &'static str)
    ensures
        r@ == "Picoo Camera 已在运行。请点击任务栏托盘图标打开窗口，或在任务管理器中结束 picoo-desktop 后再试。"@,
{
    "Picoo Camera 已在运行。请点击任务栏托盘图标打开窗口，或在任务管理器中结束 picoo-desktop 后再试。"
}


/// The message reported for a startup error, given the error's text.
pub fn report_error(error: &str) -> (r: String)
    ensures
        port_in_use(error@) ==> r@
            == "无法启动 Picoo Camera：局域网端口 4433 已被占用。请先退出任务栏托盘中已运行的 Picoo Camera，或关闭占用该端口的程序。"@,
        !port_in_use(error@) ==> r@ == "无法启动 Picoo Camera："@ + error@,
{
    startup_error_message(error)
}

/// The most UTF-16 units of an error shown in the message box.
pub const MESSAGE_BOX_MAX_UNITS: usize = 2000;

/// The NUL-terminated text handed to the error message box: the message's
/// first `MESSAGE_BOX_MAX_UNITS` UTF-16 units.
pub fn message_box_text(message: &str) -> (r: Vec<u16>)
    ensures
        r@ == (if utf16_of(message@).len() <= MESSAGE_BOX_MAX_UNITS {
            utf16_of(message@)
        } else {
            utf16_of(message@).take(MESSAGE_BOX_MAX_UNITS as int)
        }).push(0),
{
    truncated_wide(message, MESSAGE_BOX_MAX_UNITS)
}
} // verus!
