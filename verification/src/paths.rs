//! Where the desktop app keeps its files. Each path is given by its
//! components, first the base directory, which the caller joins with the
//! platform's separator; the environment is read by the caller and handed
//! in.
use vstd::prelude::*;
use crate::text::owned;

verus! {

/// Directory of the app's files under the per-user configuration root.
pub const APP_DIR: &'static str = "picoo-camera";

/// File name of the desktop preferences.
pub const PREFS_FILE: &'static str = "prefs.json";

/// File name of the trusted-device store.
pub const TRUSTED_STORE_FILE: &'static str = "trusted_devices.json";

/// File name of the receiver identity written by older versions.
pub const LEGACY_IDENTITY_FILE: &'static str = "receiver_identity.json";

/// File name of an exported diagnostics report.
pub const DIAGNOSTICS_FILE: &'static str = "picoo-diagnostics.json";

/// File name of the virtual camera media source.
pub const VCAM_DLL_FILE: &'static str = "PicooVirtualCameraSource.dll";

/// Components of a per-user configuration file: an explicit override as it
/// is; on Windows `%APPDATA%\picoo-camera\<file>`, or the bare file name
/// without `APPDATA`; elsewhere `$HOME/.config/picoo-camera/<file>`, with
/// `.` for a missing `HOME`.
pub open spec fn config_file_spec(
    override_path: Option<Seq<char>>,
    windows: bool,
    appdata: Option<Seq<char>>,
    home: Option<Seq<char>>,
    file: Seq<char>,
) -> Seq<Seq<char>> {
    match override_path {
        Some(p) => seq![p],
        None => if windows {
            match appdata {
                Some(a) => seq![a, APP_DIR@, file],
                None => seq![file],
            }
        } else {
            let h = match home {
                Some(h) => h,
                None => "."@,
            };
            seq![h, ".config"@, APP_DIR@, file]
        },
    }
}

/// The view of optional text.
pub open spec fn opt_view(s: Option<&str>) -> Option<Seq<char>> {
    match s {
        Some(t) => Some(t@),
        None => None,
    }
}

/// The views of a list of path components.
pub open spec fn components_view(v: Seq<String>) -> Seq<Seq<char>> {
    v.map_values(|c: String| c@)
}

/// Path components of a per-user configuration file (see
/// `config_file_spec`).
pub fn config_file_components(
    override_path: Option<&str>,
    windows: bool,
    appdata: Option<&str>,
    home: Option<&str>,
    file: &str,
) -> (r: Vec<String>)
    ensures
        components_view(r@) == config_file_spec(
            opt_view(override_path),
            windows,
            opt_view(appdata),
            opt_view(home),
            file@,
        ),
{
    let mut out: Vec<String> = Vec::new();
    match override_path {
        Some(p) => {
            out.push(owned(p));
        },
        None => {
            if windows {
                match appdata {
                    Some(a) => {
                        out.push(owned(a));
                        out.push(owned(APP_DIR));
                        out.push(owned(file));
                    },
                    None => {
                        out.push(owned(file));
                    },
                }
            } else {
                let h = match home {
                    Some(h) => h,
                    None => ".",
                };
                out.push(owned(h));
                out.push(owned(".config"));
                out.push(owned(APP_DIR));
                out.push(owned(file));
            }
        },
    }
    assert(components_view(out@) =~= config_file_spec(
        opt_view(override_path),
        windows,
        opt_view(appdata),
        opt_view(home),
        file@,
    ));
    out
}

/// Components of the preferences file; `PICOO_PREFS` overrides it.
pub fn prefs_path_components(
    prefs_override: Option<&str>,
    windows: bool,
    appdata: Option<&str>,
    home: Option<&str>,
) -> (r: Vec<String>)
    ensures
        components_view(r@) == config_file_spec(
            opt_view(prefs_override),
            windows,
            opt_view(appdata),
            opt_view(home),
            PREFS_FILE@,
        ),
{
    config_file_components(prefs_override, windows, appdata, home, PREFS_FILE)
}

/// Components of the trusted-device store; `PICOO_TRUSTED_STORE` overrides
/// it.
pub fn default_trusted_store_path(
    store_override: Option<&str>,
    windows: bool,
    appdata: Option<&str>,
    home: Option<&str>,
) -> (r: Vec<String>)
    ensures
        components_view(r@) == config_file_spec(
            opt_view(store_override),
            windows,
            opt_view(appdata),
            opt_view(home),
            TRUSTED_STORE_FILE@,
        ),
        r@.len() > 0,
{
    let r = config_file_components(store_override, windows, appdata, home, TRUSTED_STORE_FILE);
    assert(components_view(r@).len() == r@.len());
    r
}

/// Components of the receiver identity file of older versions.
pub fn legacy_identity_path(windows: bool, appdata: Option<&str>, home: Option<&str>) -> (r: Vec<String>)
    ensures
        components_view(r@) == config_file_spec(
            None,
            windows,
            opt_view(appdata),
            opt_view(home),
            LEGACY_IDENTITY_FILE@,
        ),
{
    config_file_components(None, windows, appdata, home, LEGACY_IDENTITY_FILE)
}

/// Components of the default diagnostics export: in `%TEMP%` on Windows
/// and in `$HOME` elsewhere, or the bare file name when that variable is
/// missing.
pub fn default_diagnostics_path(windows: bool, temp: Option<&str>, home: Option<&str>) -> (r: Vec<String>)
    ensures
        components_view(r@) == (match (if windows { opt_view(temp) } else { opt_view(home) }) {
            Some(d) => seq![d, DIAGNOSTICS_FILE@],
            None => seq![DIAGNOSTICS_FILE@],
        }),
{
    let dir = if windows { temp } else { home };
    let mut out: Vec<String> = Vec::new();
    match dir {
        Some(d) => {
            out.push(owned(d));
            out.push(owned(DIAGNOSTICS_FILE));
        },
        None => {
            out.push(owned(DIAGNOSTICS_FILE));
        },
    }
    assert(components_view(out@) =~= (match (if windows { opt_view(temp) } else { opt_view(home) }) {
        Some(d) => seq![d, DIAGNOSTICS_FILE@],
        None => seq![DIAGNOSTICS_FILE@],
    }));
    out
}

/// Where the virtual camera DLL is looked for, in order: beside the
/// executable, in its `extensions` directory (when the executable's
/// directory is known), then the two build outputs of a development tree.
pub open spec fn vcam_dll_candidates_spec(exe_dir: Option<Seq<char>>) -> Seq<Seq<Seq<char>>> {
    let dev = seq![
        seq!["target/release/PicooVirtualCameraSource.dll"@],
        seq!["target/release/picoo_virtual_camera_source.dll"@],
    ];
    match exe_dir {
        Some(d) => seq![seq![d, VCAM_DLL_FILE@], seq![d, "extensions"@, VCAM_DLL_FILE@]] + dev,
        None => dev,
    }
}

/// The candidate paths of the virtual camera DLL, each by its components.
pub fn candidate_vcam_dll_paths(exe_dir: Option<&str>) -> (r: Vec<Vec<String>>)
    ensures
        r@.map_values(|p: Vec<String>| components_view(p@)) == vcam_dll_candidates_spec(
            opt_view(exe_dir),
        ),
        r@.len() >= 2,
{
    let mut out: Vec<Vec<String>> = Vec::new();
    if let Some(d) = exe_dir {
        let mut beside: Vec<String> = Vec::new();
        beside.push(owned(d));
        beside.push(owned(VCAM_DLL_FILE));
        assert(components_view(beside@) =~= seq![d@, VCAM_DLL_FILE@]);
        out.push(beside);
        let mut ext: Vec<String> = Vec::new();
        ext.push(owned(d));
        ext.push(owned("extensions"));
        ext.push(owned(VCAM_DLL_FILE));
        assert(components_view(ext@) =~= seq![d@, "extensions"@, VCAM_DLL_FILE@]);
        out.push(ext);
    }
    let mut dev1: Vec<String> = Vec::new();
    dev1.push(owned("target/release/PicooVirtualCameraSource.dll"));
    assert(components_view(dev1@) =~= seq!["target/release/PicooVirtualCameraSource.dll"@]);
    out.push(dev1);
    let mut dev2: Vec<String> = Vec::new();
    dev2.push(owned("target/release/picoo_virtual_camera_source.dll"));
    assert(components_view(dev2@) =~= seq!["target/release/picoo_virtual_camera_source.dll"@]);
    out.push(dev2);
    assert(out@.map_values(|p: Vec<String>| components_view(p@)) =~= vcam_dll_candidates_spec(
        opt_view(exe_dir),
    ));
    out
}

/// Where the status probe looks for the DLL in a build without the Windows
/// camera adapter: beside the executable (when its directory is known), then
/// the build output of the media source in a development tree.
pub open spec fn fallback_vcam_dll_spec(exe_dir: Option<Seq<char>>) -> Seq<Seq<Seq<char>>> {
    let dev = seq![seq!["extensions/windows-virtual-camera/mf-source/build/PicooVirtualCameraSource.dll"@]];
    match exe_dir {
        Some(d) => seq![seq![d, VCAM_DLL_FILE@]] + dev,
        None => dev,
    }
}

/// The DLL paths the virtual-camera status probe checks: the registration
/// candidates when the Windows adapter is built in, the fallback list
/// otherwise.
pub fn status_vcam_dll_paths(windows_adapter: bool, exe_dir: Option<&str>) -> (r: Vec<Vec<String>>)
    ensures
        r@.map_values(|p: Vec<String>| components_view(p@)) == (if windows_adapter {
            vcam_dll_candidates_spec(opt_view(exe_dir))
        } else {
            fallback_vcam_dll_spec(opt_view(exe_dir))
        }),
{
    if windows_adapter {
        return candidate_vcam_dll_paths(exe_dir);
    }
    let mut out: Vec<Vec<String>> = Vec::new();
    if let Some(d) = exe_dir {
        let mut beside: Vec<String> = Vec::new();
        beside.push(owned(d));
        beside.push(owned(VCAM_DLL_FILE));
        assert(components_view(beside@) =~= seq![d@, VCAM_DLL_FILE@]);
        out.push(beside);
    }
    let mut dev: Vec<String> = Vec::new();
    dev.push(owned("extensions/windows-virtual-camera/mf-source/build/PicooVirtualCameraSource.dll"));
    assert(components_view(dev@) =~= seq![
        "extensions/windows-virtual-camera/mf-source/build/PicooVirtualCameraSource.dll"@,
    ]);
    out.push(dev);
    assert(out@.map_values(|p: Vec<String>| components_view(p@)) =~= fallback_vcam_dll_spec(opt_view(exe_dir)));
    out
}

} // verus!
