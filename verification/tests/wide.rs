use picoo_desktop::windows_startup::{message_box_text, MESSAGE_BOX_MAX_UNITS};
use picoo_desktop::wide::{
    encode_utf16, notify_icon_tip_units, read_back_registry_value, registry_value_bytes,
    truncated_wide, wide,
};

#[test]
fn encode_utf16_splits_astral_characters_into_surrogates() {
    assert_eq!(encode_utf16("a\u{1F600}"), vec![0x61, 0xD83D, 0xDE00]);
    assert_eq!(encode_utf16(""), Vec::<u16>::new());
    assert_eq!(encode_utf16("相机"), "相机".encode_utf16().collect::<Vec<u16>>());
}

#[test]
fn wide_appends_a_single_nul() {
    assert_eq!(wide("C:\\x"), vec![0x43, 0x3A, 0x5C, 0x78, 0]);
    assert_eq!(wide(""), vec![0]);
}

#[test]
fn registry_value_bytes_are_little_endian_with_terminator() {
    assert_eq!(registry_value_bytes("A"), vec![0x41, 0x00, 0x00, 0x00]);
    assert_eq!(registry_value_bytes("\u{00E9}\u{4E2D}"), vec![0xE9, 0x00, 0x2D, 0x4E, 0x00, 0x00]);
}

#[test]
fn registry_value_reads_back_as_written() {
    assert_eq!(
        read_back_registry_value("C:\\x"),
        Some("C:\\x".encode_utf16().collect::<Vec<u16>>())
    );
    assert_eq!(read_back_registry_value(""), None);
}

#[test]
fn notify_icon_tip_is_truncated_and_padded_to_the_buffer() {
    let short = notify_icon_tip_units("Picoo");
    assert_eq!(short.len(), 128);
    assert_eq!(&short[..5], &[0x50, 0x69, 0x63, 0x6F, 0x6F]);
    assert!(short[5..].iter().all(|u| *u == 0));

    let long: String = std::iter::repeat('x').take(200).collect();
    let buf = notify_icon_tip_units(&long);
    assert_eq!(buf.len(), 128);
    assert!(buf[..127].iter().all(|u| *u == 0x78));
    assert_eq!(buf[127], 0);
}

#[test]
fn message_box_text_is_capped_and_terminated() {
    assert_eq!(truncated_wide("abc", 2000), vec![0x61, 0x62, 0x63, 0]);
    assert_eq!(truncated_wide("abc", 2), vec![0x61, 0x62, 0]);
    let long: String = std::iter::repeat('y').take(2500).collect();
    let text = truncated_wide(&long, 2000);
    assert_eq!(text.len(), 2001);
    assert_eq!(text[2000], 0);
}

#[test]
fn error_message_box_text_keeps_two_thousand_units() {
    assert_eq!(MESSAGE_BOX_MAX_UNITS, 2000);
    let long: String = std::iter::repeat('z').take(2100).collect();
    let text = message_box_text(&long);
    assert_eq!(text.len(), 2001);
    assert_eq!(message_box_text("ok"), vec![0x6F, 0x6B, 0]);
}
