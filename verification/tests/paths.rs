use picoo_desktop::paths::{
    candidate_vcam_dll_paths, config_file_components, default_diagnostics_path,
    default_trusted_store_path, legacy_identity_path, prefs_path_components, status_vcam_dll_paths,
};

fn strings(parts: &[&str]) -> Vec<String> {
    parts.iter().map(|p| p.to_string()).collect()
}

#[test]
fn default_trusted_store_path_is_non_empty() {
    let path = default_trusted_store_path(None, false, None, Some("/home/me"));
    assert!(!path.is_empty());
    assert_eq!(
        path,
        strings(&["/home/me", ".config", "picoo-camera", "trusted_devices.json"])
    );
    let bare = default_trusted_store_path(None, true, None, None);
    assert_eq!(bare, strings(&["trusted_devices.json"]));
}

#[test]
fn candidate_paths_include_exe_dir() {
    let paths = candidate_vcam_dll_paths(Some("C:\\Program Files\\Picoo"));
    assert!(!paths.is_empty());
    assert_eq!(paths.len(), 4);
    assert_eq!(paths[0], strings(&["C:\\Program Files\\Picoo", "PicooVirtualCameraSource.dll"]));
    assert_eq!(
        paths[1],
        strings(&["C:\\Program Files\\Picoo", "extensions", "PicooVirtualCameraSource.dll"])
    );
    assert_eq!(paths[2], strings(&["target/release/PicooVirtualCameraSource.dll"]));
    assert_eq!(paths[3], strings(&["target/release/picoo_virtual_camera_source.dll"]));
    assert_eq!(candidate_vcam_dll_paths(None).len(), 2);
}

#[test]
fn overrides_win_over_platform_defaults() {
    assert_eq!(
        prefs_path_components(Some("/tmp/p.json"), true, Some("C:\\AppData"), None),
        strings(&["/tmp/p.json"])
    );
    assert_eq!(
        default_trusted_store_path(Some("store.json"), false, None, Some("/h")),
        strings(&["store.json"])
    );
}

#[test]
fn windows_files_live_under_appdata() {
    assert_eq!(
        prefs_path_components(None, true, Some("C:\\Users\\me\\AppData\\Roaming"), Some("/ignored")),
        strings(&["C:\\Users\\me\\AppData\\Roaming", "picoo-camera", "prefs.json"])
    );
    assert_eq!(
        legacy_identity_path(true, Some("D:\\A"), None),
        strings(&["D:\\A", "picoo-camera", "receiver_identity.json"])
    );
    assert_eq!(prefs_path_components(None, true, None, Some("/h")), strings(&["prefs.json"]));
}

#[test]
fn unix_files_fall_back_to_the_current_directory() {
    assert_eq!(
        legacy_identity_path(false, Some("ignored"), None),
        strings(&[".", ".config", "picoo-camera", "receiver_identity.json"])
    );
    assert_eq!(
        config_file_components(None, false, None, Some("/u"), "x.json"),
        strings(&["/u", ".config", "picoo-camera", "x.json"])
    );
}

#[test]
fn diagnostics_export_defaults_to_temp_or_home() {
    assert_eq!(
        default_diagnostics_path(true, Some("C:\\Temp"), Some("/h")),
        strings(&["C:\\Temp", "picoo-diagnostics.json"])
    );
    assert_eq!(
        default_diagnostics_path(false, Some("C:\\Temp"), Some("/h")),
        strings(&["/h", "picoo-diagnostics.json"])
    );
    assert_eq!(default_diagnostics_path(false, None, None), strings(&["picoo-diagnostics.json"]));
}

#[test]
fn status_probe_paths_without_the_windows_adapter() {
    let paths = status_vcam_dll_paths(false, Some("/opt/picoo"));
    assert_eq!(paths.len(), 2);
    assert_eq!(paths[0], strings(&["/opt/picoo", "PicooVirtualCameraSource.dll"]));
    assert_eq!(
        paths[1],
        strings(&["extensions/windows-virtual-camera/mf-source/build/PicooVirtualCameraSource.dll"])
    );
    assert_eq!(status_vcam_dll_paths(false, None).len(), 1);
    assert_eq!(status_vcam_dll_paths(true, Some("C:\\P")), candidate_vcam_dll_paths(Some("C:\\P")));
}
