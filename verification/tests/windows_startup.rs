use picoo_desktop::windows_startup::{
    already_running_message, receiver_startup_error_message, report_error, startup_error_message,
};

const ADDRESS_IN_USE: &str =
    "transport: connection failed: I/O error: 通常每个套接字地址(协议/网络地址/端口)只允许使用一次。 (os error 10048)";

#[test]
fn windows_startup_address_in_use_explains_the_quic_port() {
    let message = startup_error_message(ADDRESS_IN_USE);
    assert!(message.contains("4433"), "{message}");
    assert!(message.contains("托盘"), "{message}");
}

#[test]
fn receiver_startup_address_in_use_explains_the_quic_port() {
    for windows in [true, false] {
        let message = receiver_startup_error_message(ADDRESS_IN_USE, windows);
        assert!(message.contains("4433"), "{message}");
        assert!(message.contains("已运行"), "{message}");
        if windows {
            assert!(message.contains("托盘"), "{message}");
        } else {
            assert!(!message.contains("托盘"), "{message}");
        }
    }
}

#[test]
fn other_startup_errors_are_shown_after_the_prefix() {
    assert_eq!(startup_error_message("disk full"), "无法启动 Picoo Camera：disk full");
    assert_eq!(report_error("Address already in use"), startup_error_message("10048"));
    assert_eq!(
        receiver_startup_error_message("x", false),
        "无法启动 Picoo Camera：x"
    );
    assert!(already_running_message().contains("picoo-desktop"));
}
