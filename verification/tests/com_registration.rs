use picoo_desktop::vcam_register::{
    com_registration_verdict, com_server_registry_writes, guid_string, installed_dll_verdict,
    installed_vcam_dll, picoo_vcam_clsid, CLSID_KEY, FRIENDLY_NAME, INPROC_SERVER_KEY,
};

fn parts(p: &[&str]) -> Vec<String> {
    p.iter().map(|s| s.to_string()).collect()
}

#[test]
fn com_keys_name_the_picoo_clsid() {
    let clsid = guid_string(picoo_vcam_clsid());
    assert_eq!(CLSID_KEY, format!("SOFTWARE\\Classes\\CLSID\\{{{clsid}}}"));
    assert_eq!(INPROC_SERVER_KEY, format!("{CLSID_KEY}\\InprocServer32"));
    assert_eq!(FRIENDLY_NAME, "Picoo Camera");
}

#[test]
fn registration_writes_name_path_and_threading_model() {
    let writes = com_server_registry_writes("C:\\Program Files\\Picoo\\PicooVirtualCameraSource.dll");
    assert_eq!(writes.len(), 3);
    assert_eq!(writes[0].key, CLSID_KEY);
    assert_eq!(writes[0].name, None);
    assert_eq!(writes[0].value, "Picoo Camera");
    assert_eq!(writes[1].key, INPROC_SERVER_KEY);
    assert_eq!(writes[1].name, None);
    assert_eq!(writes[1].value, "C:\\Program Files\\Picoo\\PicooVirtualCameraSource.dll");
    assert_eq!(writes[2].name, Some("ThreadingModel"));
    assert_eq!(writes[2].value, "Both");
}

#[test]
fn registration_must_be_visible_afterwards() {
    assert_eq!(com_registration_verdict(true), Ok(()));
    assert_eq!(
        com_registration_verdict(false),
        Err("COM registration is still missing; run as Administrator or reinstall PicooCamera.msi".to_string())
    );
}

#[test]
fn installed_dll_sits_beside_the_installed_executable() {
    let exe = parts(&["C:\\", "Program Files", "Picoo Camera", "picoo-desktop.exe"]);
    let pf = parts(&["C:\\", "Program Files"]);
    assert_eq!(
        installed_vcam_dll(&exe, &pf),
        Ok(parts(&["C:\\", "Program Files", "Picoo Camera", "PicooVirtualCameraSource.dll"]))
    );
}

#[test]
fn portable_copies_are_not_registered() {
    let exe = parts(&["D:\\", "tools", "picoo-desktop.exe"]);
    let pf = parts(&["C:\\", "Program Files"]);
    assert_eq!(
        installed_vcam_dll(&exe, &pf),
        Err("当前程序不是从 Windows 的 Picoo Camera 安装目录运行。请先运行 PicooCamera.msi；便携目录不会写入系统 COM 注册。".to_string())
    );
    let short = parts(&["C:\\"]);
    assert!(installed_vcam_dll(&short, &pf).is_err());
    assert_eq!(
        installed_vcam_dll(&[], &[]),
        Err("Picoo Camera 程序路径没有父目录".to_string())
    );
}

#[test]
fn missing_installed_dll_is_reported() {
    let dll = parts(&["C:\\", "x.dll"]);
    assert_eq!(installed_dll_verdict(dll.clone(), true), Ok(dll.clone()));
    assert_eq!(
        installed_dll_verdict(dll, false),
        Err("安装目录缺少 PicooVirtualCameraSource.dll。请重新运行 PicooCamera.msi。".to_string())
    );
}
