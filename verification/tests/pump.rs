use picoo_desktop::model::ReceiverStatus;
use picoo_desktop::pump::{
    identity_replacement_due, leave_pairing, next_page, pairing_dialog_settled, pairing_prompt,
    DesktopPage, PairingUiState,
};
use picoo_desktop::receiver_runtime::{ActiveSenderSummary, TrustedDeviceSummary};

fn idle_ui() -> PairingUiState {
    PairingUiState {
        dialog_code: None,
        dialog_pending: None,
        locally_confirmed: true,
    }
}

fn trusted(id: &str) -> TrustedDeviceSummary {
    TrustedDeviceSummary {
        device_id: id.to_string(),
        device_name: "Pixel".to_string(),
        certificate_fingerprint: "aa".to_string(),
        identity_prefix: "aa".to_string(),
        last_connected_at_ms: 0,
        platform: "Android",
    }
}

fn sender(id: &str, name: &str) -> ActiveSenderSummary {
    ActiveSenderSummary {
        sender_id: id.to_string(),
        device_name: name.to_string(),
    }
}

#[test]
fn streaming_opens_the_live_page_except_over_first_launch() {
    assert_eq!(next_page(DesktopPage::Waiting, ReceiverStatus::Streaming), DesktopPage::Live);
    assert_eq!(next_page(DesktopPage::FirstLaunch, ReceiverStatus::Streaming), DesktopPage::FirstLaunch);
    assert_eq!(next_page(DesktopPage::Live, ReceiverStatus::Disconnected), DesktopPage::Waiting);
    assert_eq!(next_page(DesktopPage::Live, ReceiverStatus::Discovering), DesktopPage::Waiting);
    assert_eq!(next_page(DesktopPage::Live, ReceiverStatus::Reconnecting), DesktopPage::Live);
    assert_eq!(next_page(DesktopPage::FirstLaunch, ReceiverStatus::Disconnected), DesktopPage::FirstLaunch);
}

#[test]
fn pairing_code_is_offered_once() {
    let mut ui = idle_ui();
    let prompt = pairing_prompt(&mut ui, ReceiverStatus::Pairing, Some("123456"), 0, &[], None)
        .expect("first offer");
    assert_eq!(prompt.code, "123456");
    assert_eq!(prompt.sender_name, "手机");
    assert!(prompt.first_time);
    assert_eq!(ui.dialog_pending.as_deref(), Some("123456"));
    assert!(!ui.locally_confirmed);

    assert!(pairing_prompt(&mut ui, ReceiverStatus::Pairing, Some("123456"), 0, &[], None).is_none());

    pairing_dialog_settled(&mut ui, "123456", true);
    assert_eq!(ui.dialog_pending, None);
    assert_eq!(ui.dialog_code.as_deref(), Some("123456"));
    assert!(pairing_prompt(&mut ui, ReceiverStatus::Pairing, Some("123456"), 0, &[], None).is_none());
    assert!(pairing_prompt(&mut ui, ReceiverStatus::Pairing, Some("654321"), 0, &[], None).is_some());
}

#[test]
fn no_offer_outside_pairing_or_without_code() {
    let mut ui = idle_ui();
    assert!(pairing_prompt(&mut ui, ReceiverStatus::Streaming, Some("123456"), 0, &[], None).is_none());
    assert!(pairing_prompt(&mut ui, ReceiverStatus::Pairing, None, 0, &[], None).is_none());
    assert!(ui.locally_confirmed);
}

#[test]
fn known_sender_is_not_a_first_pairing() {
    let devices = vec![trusted("phone-1")];
    let known = sender("phone-1", "Pixel 9");
    let mut ui = idle_ui();
    let prompt = pairing_prompt(&mut ui, ReceiverStatus::Pairing, Some("111111"), 1, &devices, Some(&known))
        .expect("offer");
    assert!(!prompt.first_time);
    assert_eq!(prompt.sender_name, "Pixel 9");

    let stranger = sender("phone-2", "Galaxy");
    let mut ui = idle_ui();
    let prompt = pairing_prompt(&mut ui, ReceiverStatus::Pairing, Some("222222"), 1, &devices, Some(&stranger))
        .expect("offer");
    assert!(prompt.first_time);

    let mut ui = idle_ui();
    let prompt = pairing_prompt(&mut ui, ReceiverStatus::Pairing, Some("333333"), 1, &devices, None)
        .expect("offer");
    assert!(prompt.first_time);
}

#[test]
fn failed_dialog_keeps_the_previous_code() {
    let mut ui = idle_ui();
    pairing_prompt(&mut ui, ReceiverStatus::Pairing, Some("123456"), 0, &[], None);
    pairing_dialog_settled(&mut ui, "123456", false);
    assert_eq!(ui.dialog_pending, None);
    assert_eq!(ui.dialog_code, None);
}

#[test]
fn leaving_pairing_resets_the_dialog_state() {
    let mut ui = PairingUiState {
        dialog_code: Some("1".to_string()),
        dialog_pending: Some("2".to_string()),
        locally_confirmed: true,
    };
    assert!(!leave_pairing(&mut ui, ReceiverStatus::Pairing));
    assert_eq!(ui.dialog_code.as_deref(), Some("1"));
    assert!(leave_pairing(&mut ui, ReceiverStatus::Streaming));
    assert_eq!(ui.dialog_code, None);
    assert_eq!(ui.dialog_pending, None);
    assert!(!ui.locally_confirmed);
}

#[test]
fn identity_cleanup_is_offered_once_per_revision() {
    assert_eq!(identity_replacement_due(ReceiverStatus::Streaming, false, None, Some(7)), Some(7));
    assert_eq!(identity_replacement_due(ReceiverStatus::Streaming, false, Some(7), Some(7)), None);
    assert_eq!(identity_replacement_due(ReceiverStatus::Streaming, false, Some(6), Some(7)), Some(7));
    assert_eq!(identity_replacement_due(ReceiverStatus::Pairing, false, None, Some(7)), None);
    assert_eq!(identity_replacement_due(ReceiverStatus::Streaming, true, None, Some(7)), None);
    assert_eq!(identity_replacement_due(ReceiverStatus::Streaming, false, None, None), None);
}
