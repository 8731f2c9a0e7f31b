//! Windows virtual-camera registration logic: the COM class identity, the
//! device identity match, and the decoding of registry string values.
use vstd::prelude::*;
use crate::receiver_runtime::equal_str;
use crate::text::{
    append_chars, ascii_lower, concat3, decimal, decimal_digits, eq_ignoring_ascii_case,
    equal_ignoring_ascii_case, owned, string_from_chars,
};

verus! {

/// A COM class identifier in its four fields.
#[derive(Debug, Clone, Copy)]
pub struct Guid {
    pub data1: u32,
    pub data2: u16,
    pub data3: u16,
    pub data4: [u8; 8],
}

/// CLSID of the `PicooVirtualCameraSource.dll` COM server,
/// `{A7C4E2F1-8B3D-4C6A-9E5F-1D2C3B4A5E6F}`.
pub fn picoo_vcam_clsid() -> (r: Guid)
    ensures
        r.data1 == 0xa7c4e2f1u32,
        r.data2 == 0x8b3du16,
        r.data3 == 0x4c6au16,
        r.data4@ == seq![0x9eu8, 0x5fu8, 0x1du8, 0x2cu8, 0x3bu8, 0x4au8, 0x5eu8, 0x6fu8],
{
    Guid {
        data1: 0xa7c4e2f1,
        data2: 0x8b3d,
        data3: 0x4c6a,
        data4: [0x9e, 0x5f, 0x1d, 0x2c, 0x3b, 0x4a, 0x5e, 0x6f],
    }
}

/// Upper-case hexadecimal digit character of `d` (`d < 16`).
pub open spec fn hex_char(d: nat) -> char {
    if d < 10 {
        ((d + 48) as u8) as char
    } else {
        ((d + 55) as u8) as char
    }
}

/// The `width` lowest hexadecimal digits of `v`, most significant first
/// (`{:0width$X}` for values below `16^width`).
pub open spec fn hex_fixed(v: nat, width: nat) -> Seq<char>
    decreases width,
{
    if width == 0 {
        Seq::empty()
    } else {
        hex_fixed(v / 16, (width - 1) as nat).push(hex_char(v % 16))
    }
}

fn hex_digit(d: u64) -> (c: char)
    requires
        d < 16,
    ensures
        c == hex_char(d as nat),
{
    let b: u8 = if d < 10 { (d + 48) as u8 } else { (d + 55) as u8 };
    b as char
}

fn push_hex(out: &mut Vec<char>, v: u64, width: usize)
    requires
        width <= 16,
    ensures
        final(out)@ == old(out)@ + hex_fixed(v as nat, width as nat),
    decreases width,
{
    if width == 0 {
        assert(hex_fixed(v as nat, 0) =~= Seq::<char>::empty());
        return;
    }
    push_hex(out, v / 16, width - 1);
    out.push(hex_digit(v % 16));
}

/// `XXXXXXXX-XXXX-XXXX-XXXX-XXXXXXXXXXXX` text of a GUID.
pub open spec fn guid_text(g: Guid) -> Seq<char> {
    hex_fixed(g.data1 as nat, 8) + seq!['-'] + hex_fixed(g.data2 as nat, 4) + seq!['-'] + hex_fixed(
        g.data3 as nat,
        4,
    ) + seq!['-'] + hex_fixed(g.data4@[0] as nat, 2) + hex_fixed(g.data4@[1] as nat, 2) + seq!['-']
        + hex_fixed(g.data4@[2] as nat, 2) + hex_fixed(g.data4@[3] as nat, 2) + hex_fixed(
        g.data4@[4] as nat,
        2,
    ) + hex_fixed(g.data4@[5] as nat, 2) + hex_fixed(g.data4@[6] as nat, 2) + hex_fixed(
        g.data4@[7] as nat,
        2,
    )
}

/// Registry text of a GUID, upper-case hexadecimal without braces.
pub fn guid_string(g: Guid) -> (r: String)
    ensures
        r@ == guid_text(g),
{
    let mut out: Vec<char> = Vec::new();
    push_hex(&mut out, g.data1 as u64, 8);
    out.push('-');
    push_hex(&mut out, g.data2 as u64, 4);
    out.push('-');
    push_hex(&mut out, g.data3 as u64, 4);
    out.push('-');
    push_hex(&mut out, g.data4[0] as u64, 2);
    push_hex(&mut out, g.data4[1] as u64, 2);
    out.push('-');
    push_hex(&mut out, g.data4[2] as u64, 2);
    push_hex(&mut out, g.data4[3] as u64, 2);
    push_hex(&mut out, g.data4[4] as u64, 2);
    push_hex(&mut out, g.data4[5] as u64, 2);
    push_hex(&mut out, g.data4[6] as u64, 2);
    push_hex(&mut out, g.data4[7] as u64, 2);
    let r = string_from_chars(out.as_slice());
    assert(r@ =~= guid_text(g));
    r
}

/// Windows device-interface paths compare case-insensitively; a device
/// without a symbolic link never matches.
pub fn camera_identity_matches(expected_link: &str, actual_link: Option<&str>) -> (r: bool)
    ensures
        actual_link is None ==> !r,
        actual_link matches Some(actual) ==> r == eq_ignoring_ascii_case(actual@, expected_link@),
{
    match actual_link {
        Some(actual) => equal_ignoring_ascii_case(actual, expected_link),
        None => false,
    }
}

/// A persisted, non-empty symbolic link records a committed system
/// registration.
pub fn system_registration_identity_persisted(value: Option<&str>) -> (r: bool)
    ensures
        r == (value matches Some(v) && v@.len() > 0),
{
    match value {
        Some(v) => !v.is_empty(),
        None => false,
    }
}

/// Little-endian UTF-16 code units of a `REG_SZ` payload, up to the first NUL;
/// a trailing odd byte is ignored.
pub open spec fn utf16_units(bytes: Seq<u8>) -> Seq<u16> {
    Seq::new(bytes.len() / 2, |i: int| (bytes[2 * i] as int + 256 * bytes[2 * i + 1] as int) as u16)
}

/// The units before the first NUL.
pub open spec fn before_nul(units: Seq<u16>, n: int) -> bool {
    0 <= n <= units.len() && (forall|i: int| 0 <= i < n ==> #[trigger] units[i] != 0) && (n
        == units.len() || units[n] == 0)
}

/// The string units of a `REG_SZ` value, or `None` when it is empty.
pub fn decode_registry_utf16(bytes: &[u8]) -> (r: Option<Vec<u16>>)
    ensures
        r matches Some(u) ==> u@.len() > 0 && before_nul(utf16_units(bytes@), u@.len() as int) && u@
            == utf16_units(bytes@).take(u@.len() as int),
        r is None ==> before_nul(utf16_units(bytes@), 0),
{
    let ghost units = utf16_units(bytes@);
    let mut out: Vec<u16> = Vec::new();
    let pairs = bytes.len() / 2;
    let mut i: usize = 0;
    let mut done = false;
    while i < pairs && !done
        invariant
            pairs == bytes@.len() / 2,
            2 * pairs <= bytes.len(),
            units == utf16_units(bytes@),
            units.len() == pairs,
            i <= pairs,
            out@ == units.take(i as int),
            forall|k: int| 0 <= k < i ==> #[trigger] units[k] != 0,
            done ==> i < pairs && units[i as int] == 0,
        decreases pairs - i, if done { 0int } else { 1int },
    {
        assert(2 * i + 1 < bytes@.len());
        let lo = bytes[2 * i] as u16;
        let hi = bytes[2 * i + 1] as u16;
        let unit: u16 = lo + 256 * hi;
        assert(unit == units[i as int]);
        if unit == 0 {
            done = true;
        } else {
            out.push(unit);
            assert(units.take(i + 1) =~= units.take(i as int).push(units[i as int]));
            i = i + 1;
        }
    }
    if out.len() == 0 {
        None
    } else {
        Some(out)
    }
}


/// The first candidate DLL path that exists as a file, given each
/// candidate path and whether it is a file.
pub fn resolve_vcam_dll(candidates: &[(String, bool)]) -> (r: Option<String>)
    ensures
        match r {
            Some(p) => exists|i: int|
                0 <= i < candidates@.len() && (#[trigger] candidates@[i]).1 && candidates@[i].0@ == p@
                    && forall|j: int| 0 <= j < i ==> !(#[trigger] candidates@[j]).1,
            None => forall|j: int| 0 <= j < candidates@.len() ==> !(#[trigger] candidates@[j]).1,
        },
{
    let mut i: usize = 0;
    while i < candidates.len()
        invariant
            i <= candidates@.len(),
            forall|j: int| 0 <= j < i ==> !(#[trigger] candidates@[j]).1,
        decreases candidates@.len() - i,
    {
        if candidates[i].1 {
            let p = candidates[i].0.clone();
            assert(candidates@[i as int].1);
            return Some(p);
        }
        i = i + 1;
    }
    None
}

/// The HKLM COM registration points at the DLL that was found: both paths
/// exist and `equivalent` says they name the same file.
pub fn com_server_registered(resolved_dll: Option<&str>, registered_path: Option<&str>, equivalent: bool) -> (r: bool)
    ensures
        r == (resolved_dll is Some && registered_path is Some && equivalent),
{
    match (resolved_dll, registered_path) {
        (Some(_), Some(_)) => equivalent,
        _ => false,
    }
}

/// The link of the first enumerated device whose link matches `expected`.
pub open spec fn first_match(expected: Seq<char>, links: Seq<Option<Seq<char>>>) -> Option<Seq<char>>
    decreases links.len(),
{
    if links.len() == 0 {
        None
    } else {
        match links[0] {
            Some(l) => if eq_ignoring_ascii_case(l, expected) {
                Some(l)
            } else {
                first_match(expected, links.drop_first())
            },
            None => first_match(expected, links.drop_first()),
        }
    }
}

pub open spec fn link_views(links: Seq<Option<String>>) -> Seq<Option<Seq<char>>> {
    links.map_values(|l: Option<String>| match l {
        Some(s) => Some(s@),
        None => None,
    })
}

/// The enumerated device matching the persisted identity, by its own link.
pub fn first_matching_link(expected: &str, links: &[Option<String>]) -> (r: Option<String>)
    ensures
        match r {
            Some(l) => first_match(expected@, link_views(links@)) == Some(l@),
            None => first_match(expected@, link_views(links@)) is None,
        },
{
    let ghost views = link_views(links@);
    let mut i: usize = 0;
    assert(views.skip(0) =~= views);
    while i < links.len()
        invariant
            views == link_views(links@),
            i <= links@.len(),
            first_match(expected@, views.skip(i as int)) == first_match(expected@, views),
        decreases links@.len() - i,
    {
        assert(views.skip(i as int).drop_first() =~= views.skip(i + 1));
        assert(views.skip(i as int)[0] == views[i as int]);
        let found = match &links[i] {
            Some(l) => camera_identity_matches(expected, Some(l.as_str())),
            None => false,
        };
        if found {
            return links[i].clone();
        }
        i = i + 1;
    }
    assert(views.skip(i as int) =~= Seq::<Option<Seq<char>>>::empty());
    None
}

/// The symbolic link of the registered camera as the current user sees it:
/// none without a persisted identity; otherwise the enumeration's error, or
/// the first enumerated device matching the identity.
pub fn registered_camera_symbolic_link(
    persisted_link: Option<&str>,
    enumeration: Result<Vec<Option<String>>, String>,
) -> (r: Result<Option<String>, String>)
    ensures
        persisted_link is None ==> r == Ok::<Option<String>, String>(None),
        persisted_link matches Some(expected) ==> match enumeration {
            Err(e) => r == Err::<Option<String>, String>(e),
            Ok(links) => r matches Ok(found) && match found {
                Some(l) => first_match(expected@, link_views(links@)) == Some(l@),
                None => first_match(expected@, link_views(links@)) is None,
            },
        },
{
    match persisted_link {
        None => Ok(None),
        Some(expected) => match enumeration {
            Err(e) => Err(e),
            Ok(links) => Ok(first_matching_link(expected, links.as_slice())),
        },
    }
}

/// What registering the COM server still requires.
#[derive(Debug, Clone)]
pub enum ComServerAction {
    AlreadyRegistered,
    /// Write the registration for the DLL at this path.
    Register(String),
}

/// Repair of the declarative COM registration: the DLL must be found; an
/// existing correct registration is kept; otherwise it is written.
pub fn ensure_com_server_registered(resolved_dll: Option<&str>, registered: bool) -> (r: Result<ComServerAction, String>)
    ensures
        resolved_dll is None ==> (r matches Err(e) && e@
            == "PicooVirtualCameraSource.dll not found beside picoo-desktop.exe; reinstall MSI or run from the Windows bundle directory"@),
        resolved_dll is Some && registered ==> r matches Ok(ComServerAction::AlreadyRegistered),
        resolved_dll matches Some(d) ==> (!registered ==> (r matches Ok(ComServerAction::Register(p)) && p@ == d@)),
{
    match resolved_dll {
        None => Err(owned("PicooVirtualCameraSource.dll not found beside picoo-desktop.exe; reinstall MSI or run from the Windows bundle directory")),
        Some(dll) => if registered {
            Ok(ComServerAction::AlreadyRegistered)
        } else {
            Ok(ComServerAction::Register(owned(dll)))
        },
    }
}

/// Registry key (under `HKLM`) of the COM class.
pub const CLSID_KEY: &'static str = "SOFTWARE\\Classes\\CLSID\\{A7C4E2F1-8B3D-4C6A-9E5F-1D2C3B4A5E6F}";

/// Registry key (under `HKLM`) of the in-process server of the COM class.
pub const INPROC_SERVER_KEY: &'static str =
    "SOFTWARE\\Classes\\CLSID\\{A7C4E2F1-8B3D-4C6A-9E5F-1D2C3B4A5E6F}\\InprocServer32";

/// Display name of the COM class and of the camera.
pub const FRIENDLY_NAME: &'static str = "Picoo Camera";

/// One `REG_SZ` value to write: the key, the value name (`None` for the
/// key's default value) and the text.
#[derive(Debug, Clone)]
pub struct RegistryWrite {
    pub key: &'static str,
    pub name: Option<&'static str>,
    pub value: String,
}

/// The registration of the COM server at `dll`, in the order it is written:
/// the class's name, the server's path and its threading model.
pub fn com_server_registry_writes(dll: &str) -> (r: Vec<RegistryWrite>)
    ensures
        r@.len() == 3,
        r@[0].key@ == CLSID_KEY@ && r@[0].name is None && r@[0].value@ == FRIENDLY_NAME@,
        r@[1].key@ == INPROC_SERVER_KEY@ && r@[1].name is None && r@[1].value@ == dll@,
        r@[2].key@ == INPROC_SERVER_KEY@ && (r@[2].name matches Some(n) && n@ == "ThreadingModel"@)
            && r@[2].value@ == "Both"@,
{
    let mut out: Vec<RegistryWrite> = Vec::new();
    out.push(RegistryWrite { key: CLSID_KEY, name: None, value: owned(FRIENDLY_NAME) });
    out.push(RegistryWrite { key: INPROC_SERVER_KEY, name: None, value: owned(dll) });
    out.push(RegistryWrite { key: INPROC_SERVER_KEY, name: Some("ThreadingModel"), value: owned("Both") });
    out
}

/// After the writes, the registration must be seen at the DLL.
pub fn com_registration_verdict(registered_after: bool) -> (r: Result<(), String>)
    ensures
        registered_after <==> r is Ok,
        r matches Err(e) ==> e@
            == "COM registration is still missing; run as Administrator or reinstall PicooCamera.msi"@,
{
    if registered_after {
        Ok(())
    } else {
        Err(owned("COM registration is still missing; run as Administrator or reinstall PicooCamera.msi"))
    }
}

/// `prefix` is a leading run of the components of `path`
/// (`Path::starts_with`).
pub open spec fn starts_with_components(path: Seq<Seq<char>>, prefix: Seq<Seq<char>>) -> bool {
    prefix.len() <= path.len() && forall|i: int| 0 <= i < prefix.len() ==> #[trigger] path[i] == prefix[i]
}

/// The views of path components.
pub open spec fn component_views(v: Seq<String>) -> Seq<Seq<char>> {
    v.map_values(|c: String| c@)
}

/// The installed DLL beside the installed executable: the executable must
/// run from under Program Files; the DLL path is its directory joined with
/// the DLL's file name. Paths are given by their components.
pub fn installed_vcam_dll(executable: &[String], program_files: &[String]) -> (r: Result<Vec<String>, String>)
    ensures
        !starts_with_components(component_views(executable@), component_views(program_files@)) ==> (r matches Err(
            e,
        ) && e@
            == "当前程序不是从 Windows 的 Picoo Camera 安装目录运行。请先运行 PicooCamera.msi；便携目录不会写入系统 COM 注册。"@),
        starts_with_components(component_views(executable@), component_views(program_files@))
            && executable@.len() == 0 ==> (r matches Err(e) && e@ == "Picoo Camera 程序路径没有父目录"@),
        starts_with_components(component_views(executable@), component_views(program_files@))
            && executable@.len() > 0 ==> (r matches Ok(dll) && component_views(dll@) == component_views(
            executable@,
        ).drop_last().push("PicooVirtualCameraSource.dll"@)),
{
    let mut under = program_files.len() <= executable.len();
    let mut i: usize = 0;
    while under && i < program_files.len()
        invariant
            under ==> program_files@.len() <= executable@.len(),
            i <= program_files@.len(),
            under ==> forall|k: int| 0 <= k < i ==> #[trigger] executable@[k]@ == program_files@[k]@,
            !under ==> !starts_with_components(component_views(executable@), component_views(program_files@)),
        decreases program_files@.len() - i,
    {
        if !equal_str(executable[i].as_str(), program_files[i].as_str()) {
            under = false;
            assert(component_views(executable@)[i as int] != component_views(program_files@)[i as int]);
        }
        i = i + 1;
    }
    if !under {
        return Err(owned(
            "当前程序不是从 Windows 的 Picoo Camera 安装目录运行。请先运行 PicooCamera.msi；便携目录不会写入系统 COM 注册。",
        ));
    }
    assert(starts_with_components(component_views(executable@), component_views(program_files@))) by {
        assert forall|k: int| 0 <= k < component_views(program_files@).len() implies #[trigger] component_views(
            executable@,
        )[k] == component_views(program_files@)[k] by {
            assert(executable@[k]@ == program_files@[k]@);
        }
    }
    if executable.len() == 0 {
        return Err(owned("Picoo Camera 程序路径没有父目录"));
    }
    let mut dll: Vec<String> = Vec::new();
    let parent_len = executable.len() - 1;
    let mut j: usize = 0;
    while j < parent_len
        invariant
            executable@.len() > 0,
            parent_len == executable@.len() - 1,
            j <= parent_len,
            dll@.len() == j,
            forall|k: int| 0 <= k < j ==> #[trigger] dll@[k]@ == executable@[k]@,
        decreases executable@.len() - j,
    {
        dll.push(owned(executable[j].as_str()));
        j = j + 1;
    }
    dll.push(owned("PicooVirtualCameraSource.dll"));
    assert(component_views(dll@) =~= component_views(executable@).drop_last().push("PicooVirtualCameraSource.dll"@));
    Ok(dll)
}

/// The DLL must exist in the installation directory.
pub fn installed_dll_verdict(dll: Vec<String>, dll_is_file: bool) -> (r: Result<Vec<String>, String>)
    ensures
        dll_is_file ==> (r matches Ok(d) && d@ == dll@),
        !dll_is_file ==> (r matches Err(e) && e@ == "安装目录缺少 PicooVirtualCameraSource.dll。请重新运行 PicooCamera.msi。"@),
{
    if dll_is_file {
        Ok(dll)
    } else {
        Err(owned("安装目录缺少 PicooVirtualCameraSource.dll。请重新运行 PicooCamera.msi。"))
    }
}

/// The installed, system-registered camera that passed the host check.
#[derive(Debug, Clone)]
pub struct InstalledHostContract {
    pub installed_dll: String,
    pub symbolic_link: String,
}

/// The read-only checks before the installed camera is activated: the COM
/// server is registered, at the installed DLL, and a non-empty identity is
/// persisted. Returns the identity to look for.
pub fn host_contract_precheck(
    installed_dll: &str,
    registered_dll: Option<&str>,
    equivalent: bool,
    persisted_link: Option<&str>,
) -> (r: Result<String, String>)
    ensures
        registered_dll is None ==> (r matches Err(e) && e@ == "Picoo Camera COM server is not registered in HKLM"@),
        registered_dll matches Some(reg) ==> (!equivalent ==> (r matches Err(e) && e@
            == "Picoo Camera COM server points to `"@ + reg@ + "` instead of installed DLL `"@ + installed_dll@
            + "`"@)),
        registered_dll is Some && equivalent ==> match persisted_link {
            Some(l) if l@.len() > 0 => r matches Ok(link) && link@ == l@,
            _ => r matches Err(e) && e@ == "Picoo Camera system registration identity is missing"@,
        },
{
    let reg = match registered_dll {
        None => return Err(owned("Picoo Camera COM server is not registered in HKLM")),
        Some(r) => r,
    };
    if !equivalent {
        let mut m = concat3("Picoo Camera COM server points to `", reg, "` instead of installed DLL `");
        m.append(installed_dll);
        m.append("`");
        return Err(m);
    }
    match persisted_link {
        Some(l) => if l.is_empty() {
            Err(owned("Picoo Camera system registration identity is missing"))
        } else {
            Ok(owned(l))
        },
        None => Err(owned("Picoo Camera system registration identity is missing")),
    }
}

/// The saved identity whose absence is awaited must not be empty.
pub fn absence_precheck(expected_link: &str) -> (r: Result<(), String>)
    ensures
        expected_link@.len() == 0 <==> r is Err,
        r matches Err(e) ==> e@ == "expected symbolic link must not be empty"@,
{
    if expected_link.is_empty() {
        Err(owned("expected symbolic link must not be empty"))
    } else {
        Ok(())
    }
}

/// The verdict after waiting `timeout_secs` seconds for the registered camera
/// to become enumerable, with the last enumeration error if there was one.
pub fn registration_timeout_message(timeout_secs: u64, last_error: Option<&str>) -> (r: String)
    ensures
        r@ == "虚拟摄像头注册命令已完成，但等待 "@ + decimal_digits(timeout_secs as nat) + " 秒后仍不可枚举；"@
            + match last_error {
            Some(e) => "最后一次枚举错误："@ + e@,
            None => "Windows 尚未把设备发布到 Media Foundation 摄像头列表"@,
        },
{
    let mut m = owned("虚拟摄像头注册命令已完成，但等待 ");
    append_chars(&mut m, decimal(timeout_secs).as_slice());
    m.append(" 秒后仍不可枚举；");
    match last_error {
        Some(e) => {
            m.append("最后一次枚举错误：");
            m.append(e);
        },
        None => {
            m.append("Windows 尚未把设备发布到 Media Foundation 摄像头列表");
        },
    }
    m
}

} // verus!
