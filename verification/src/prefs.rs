//! Desktop preferences: log level, placeholder mode and their legacy migration.
use vstd::prelude::*;
use crate::text::owned;

verus! {

#[derive(Debug, Clone, Copy, PartialEq, Eq, Structural)]
pub enum LogLevel {
    Error,
    Warn,
    Info,
    Debug,
    Trace,
}

impl Default for LogLevel {
    fn default() -> (r: Self)
        ensures
            r == LogLevel::Info,
    {
        LogLevel::Info
    }
}

impl LogLevel {
    /// Every level, most severe first.
    pub const ALL: [LogLevel; 5] = [
        LogLevel::Error,
        LogLevel::Warn,
        LogLevel::Info,
        LogLevel::Debug,
        LogLevel::Trace,
    ];

    pub fn label(self) -> (r: &'static str)
        ensures
            self == LogLevel::Error ==> r@ == "Error"@,
            self == LogLevel::Warn ==> r@ == "Warn"@,
            self == LogLevel::Info ==> r@ == "Info"@,
            self == LogLevel::Debug ==> r@ == "Debug"@,
            self == LogLevel::Trace ==> r@ == "Trace"@,
    {
        match self {
            LogLevel::Error => "Error",
            LogLevel::Warn => "Warn",
            LogLevel::Info => "Info",
            LogLevel::Debug => "Debug",
            LogLevel::Trace => "Trace",
        }
    }

    /// The `tracing` filter directive for this level.
    pub fn env_filter(self) -> (r: &'static str)
        ensures
            self == LogLevel::Error ==> r@ == "error"@,
            self == LogLevel::Warn ==> r@ == "warn"@,
            self == LogLevel::Info ==> r@ == "info"@,
            self == LogLevel::Debug ==> r@ == "debug"@,
            self == LogLevel::Trace ==> r@ == "trace"@,
    {
        match self {
            LogLevel::Error => "error",
            LogLevel::Warn => "warn",
            LogLevel::Info => "info",
            LogLevel::Debug => "debug",
            LogLevel::Trace => "trace",
        }
    }
}

/// What the virtual camera shows while no Sender streams.
#[derive(Debug, Clone, Copy, PartialEq, Eq, Structural)]
pub enum PlaceholderModePref {
    Logo,
    Black,
    Bars,
}

impl Default for PlaceholderModePref {
    fn default() -> (r: Self)
        ensures
            r == PlaceholderModePref::Logo,
    {
        PlaceholderModePref::Logo
    }
}

impl PlaceholderModePref {
    /// Every mode, in menu order.
    pub const ALL: [PlaceholderModePref; 3] = [
        PlaceholderModePref::Logo,
        PlaceholderModePref::Black,
        PlaceholderModePref::Bars,
    ];

    pub fn label(self) -> (r: &'static str)
        ensures
            self == PlaceholderModePref::Logo ==> r@ == "Picoo Camera Logo"@,
            self == PlaceholderModePref::Black ==> r@ == "纯黑画面"@,
            self == PlaceholderModePref::Bars ==> r@ == "测试彩条"@,
    {
        match self {
            PlaceholderModePref::Logo => "Picoo Camera Logo",
            PlaceholderModePref::Black => "纯黑画面",
            PlaceholderModePref::Bars => "测试彩条",
        }
    }
}

/// What the user asked the macOS camera extension to do before a reboot.
#[derive(Debug, Clone, Copy, PartialEq, Eq, Structural)]
pub enum MacosCameraExtensionIntent {
    Activate,
    Deactivate,
}

/// A lifecycle request that macOS completes after the next reboot, with the
/// boot session in which it was made.
#[derive(Debug, Clone, PartialEq, Eq)]
pub struct PendingMacosCameraExtension {
    pub intent: MacosCameraExtensionIntent,
    pub boot_session: String,
}

/// Persisted desktop preferences.
#[derive(Debug, Clone)]
pub struct DesktopPreferences {
    pub first_launch_completed: bool,
    pub display_name: String,
    pub auto_accept_paired: bool,
    pub launch_at_startup: bool,
    pub minimize_to_tray: bool,
    pub placeholder_mode: PlaceholderModePref,
    /// Legacy flag; migrated into `placeholder_mode` on load when present.
    pub use_default_placeholder: Option<bool>,
    pub log_level: LogLevel,
}

impl Default for DesktopPreferences {
    fn default() -> (r: Self)
        ensures
            !r.first_launch_completed,
            r.display_name@ == "Picoo Camera"@,
            r.auto_accept_paired,
            !r.launch_at_startup,
            r.minimize_to_tray,
            r.placeholder_mode == PlaceholderModePref::Logo,
            r.use_default_placeholder is None,
            r.log_level == LogLevel::Info,
    {
        DesktopPreferences {
            first_launch_completed: false,
            display_name: owned("Picoo Camera"),
            auto_accept_paired: true,
            launch_at_startup: false,
            minimize_to_tray: true,
            placeholder_mode: PlaceholderModePref::Logo,
            use_default_placeholder: None,
            log_level: LogLevel::Info,
        }
    }
}

/// The placeholder mode after migrating the legacy flag: the logo when it was
/// set, black when it was cleared, unchanged when absent.
pub open spec fn migrated_placeholder(
    mode: PlaceholderModePref,
    legacy: Option<bool>,
) -> PlaceholderModePref {
    match legacy {
        Some(true) => PlaceholderModePref::Logo,
        Some(false) => PlaceholderModePref::Black,
        None => mode,
    }
}

impl DesktopPreferences {
    /// Applies the legacy `use_default_placeholder` flag, if present, and
    /// drops it.
    pub fn migrate_placeholder(&mut self)
        ensures
            final(self).placeholder_mode == migrated_placeholder(
                old(self).placeholder_mode,
                old(self).use_default_placeholder,
            ),
            final(self).use_default_placeholder is None,
            final(self).first_launch_completed == old(self).first_launch_completed,
            final(self).display_name == old(self).display_name,
            final(self).auto_accept_paired == old(self).auto_accept_paired,
            final(self).launch_at_startup == old(self).launch_at_startup,
            final(self).minimize_to_tray == old(self).minimize_to_tray,
            final(self).log_level == old(self).log_level,
    {
        if let Some(use_logo) = self.use_default_placeholder.take() {
            self.placeholder_mode = if use_logo {
                PlaceholderModePref::Logo
            } else {
                PlaceholderModePref::Black
            };
        }
    }
}

/// Migration is idempotent: a second migration changes nothing.
pub proof fn lemma_migration_idempotent(mode: PlaceholderModePref, legacy: Option<bool>)
    ensures
        migrated_placeholder(migrated_placeholder(mode, legacy), None) == migrated_placeholder(
            mode,
            legacy,
        ),
{
}

} // verus!
