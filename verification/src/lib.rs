//! Decision, formatting and state logic of the Picoo Camera desktop receiver.
pub mod bundle_order;
pub mod calendar;
pub mod cli;
pub mod diagnostics;
pub mod macos_extension;
pub mod model;
pub mod nav;
pub mod paths;
pub mod prefs;
pub mod preview;
pub mod preview_page;
pub mod pump;
pub mod qr_display;
pub mod receiver_runtime;
pub mod recording;
pub mod startup;
pub mod text;
pub mod tray;
pub mod ui;
pub mod vcam_register;
pub mod vcam_status;
pub mod wide;
pub mod windows_startup;
