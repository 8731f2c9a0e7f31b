//! Decisions of the desktop shell's periodic pump: which page is shown, when
//! the pairing dialog is offered, and when the identity-cleanup dialog is.
use vstd::prelude::*;
use crate::model::ReceiverStatus;
use crate::receiver_runtime::{equal_str, ActiveSenderSummary, TrustedDeviceSummary};
use crate::text::owned;

verus! {

/// The main page of the desktop window.
#[derive(Debug, Clone, Copy, PartialEq, Eq, Structural)]
pub enum DesktopPage {
    FirstLaunch,
    Waiting,
    Live,
}

/// The page after a pump: streaming shows the live page unless the
/// first-launch guide is open; losing the sender returns from live to
/// waiting.
pub open spec fn page_after(page: DesktopPage, status: ReceiverStatus) -> DesktopPage {
    if status == ReceiverStatus::Streaming {
        if page != DesktopPage::FirstLaunch {
            DesktopPage::Live
        } else {
            page
        }
    } else if (status == ReceiverStatus::Disconnected || status == ReceiverStatus::Discovering) && page
        == DesktopPage::Live {
        DesktopPage::Waiting
    } else {
        page
    }
}

/// Streaming always leads to the live page unless the first-launch guide is
/// open; the live page is left only for the waiting page and only when the
/// sender is gone; the first-launch guide is never left by the pump, and
/// any other status keeps the page.
pub proof fn lemma_page_transitions(page: DesktopPage, status: ReceiverStatus)
    ensures
        status == ReceiverStatus::Streaming && page != DesktopPage::FirstLaunch ==> page_after(page, status)
            == DesktopPage::Live,
        page == DesktopPage::FirstLaunch ==> page_after(page, status) == DesktopPage::FirstLaunch,
        page == DesktopPage::Live && page_after(page, status) != DesktopPage::Live ==> page_after(page, status)
            == DesktopPage::Waiting && (status == ReceiverStatus::Disconnected || status
            == ReceiverStatus::Discovering),
        status != ReceiverStatus::Streaming && status != ReceiverStatus::Disconnected && status
            != ReceiverStatus::Discovering ==> page_after(page, status) == page,
{
}

pub fn next_page(page: DesktopPage, status: ReceiverStatus) -> (r: DesktopPage)
    ensures
        r == page_after(page, status),
{
    match status {
        ReceiverStatus::Streaming => {
            if page != DesktopPage::FirstLaunch {
                DesktopPage::Live
            } else {
                page
            }
        },
        ReceiverStatus::Disconnected | ReceiverStatus::Discovering => {
            if page == DesktopPage::Live {
                DesktopPage::Waiting
            } else {
                page
            }
        },
        _ => page,
    }
}

/// Which pairing code the dialog shows or is about to show.
#[derive(Debug, Clone)]
pub struct PairingUiState {
    pub dialog_code: Option<String>,
    pub dialog_pending: Option<String>,
    pub locally_confirmed: bool,
}

/// What the pairing dialog is opened with.
#[derive(Debug, Clone)]
pub struct PairingPrompt {
    pub code: String,
    pub sender_name: String,
    pub first_time: bool,
}

pub open spec fn opt_is(o: Option<String>, code: Seq<char>) -> bool {
    o matches Some(c) && c@ == code
}

/// The sender is paired for the first time: nothing is trusted yet, or the
/// active sender (when known) is not among the trusted devices.
pub open spec fn first_pairing(
    trusted_device_count: usize,
    trusted: Seq<TrustedDeviceSummary>,
    active_sender: Option<ActiveSenderSummary>,
) -> bool {
    trusted_device_count == 0 || match active_sender {
        Some(s) => !(exists|i: int| 0 <= i < trusted.len() && (#[trigger] trusted[i]).device_id@ == s.sender_id@),
        None => true,
    }
}

fn is_trusted(trusted: &[TrustedDeviceSummary], sender_id: &str) -> (r: bool)
    ensures
        r == exists|i: int| 0 <= i < trusted@.len() && (#[trigger] trusted@[i]).device_id@ == sender_id@,
{
    let mut i: usize = 0;
    while i < trusted.len()
        invariant
            i <= trusted@.len(),
            forall|k: int| 0 <= k < i ==> (#[trigger] trusted@[k]).device_id@ != sender_id@,
        decreases trusted@.len() - i,
    {
        if equal_str(trusted[i].device_id.as_str(), sender_id) {
            return true;
        }
        i = i + 1;
    }
    false
}

/// The view of optional text.
pub open spec fn opt_text(s: Option<&str>) -> Option<Seq<char>> {
    match s {
        Some(t) => Some(t@),
        None => None,
    }
}

/// A pairing dialog is due for this code: the receiver is pairing and the
/// dialog neither shows nor is about to show the code.
pub open spec fn prompt_due(ui: PairingUiState, status: ReceiverStatus, code: Option<Seq<char>>) -> bool {
    match code {
        Some(c) => status == ReceiverStatus::Pairing && !opt_is(ui.dialog_code, c) && !opt_is(
            ui.dialog_pending,
            c,
        ),
        None => false,
    }
}

/// Offering `code` marks it pending, withdraws any local confirmation and
/// keeps the code the dialog shows.
pub open spec fn offer_recorded(before: PairingUiState, after: PairingUiState, code: Seq<char>) -> bool {
    opt_is(after.dialog_pending, code) && !after.locally_confirmed && after.dialog_code == before.dialog_code
}

/// A pairing code is offered once: after it was offered, the dialog is no
/// longer due for it until the pending mark is cleared.
pub proof fn lemma_pairing_code_offered_once(
    before: PairingUiState,
    after: PairingUiState,
    status: ReceiverStatus,
    code: Seq<char>,
)
    requires
        offer_recorded(before, after, code),
    ensures
        !prompt_due(after, status, Some(code)),
{
}

/// Offer the pairing dialog for a new code: only while pairing, and not for
/// the code the dialog shows or is about to show. Offering marks the code as
/// pending and withdraws any local confirmation.
pub fn pairing_prompt(
    ui: &mut PairingUiState,
    status: ReceiverStatus,
    short_code: Option<&str>,
    trusted_device_count: usize,
    trusted: &[TrustedDeviceSummary],
    active_sender: Option<&ActiveSenderSummary>,
) -> (r: Option<PairingPrompt>)
    ensures
        !prompt_due(*old(ui), status, opt_text(short_code)) ==> r is None && *final(ui) == *old(ui),
        prompt_due(*old(ui), status, opt_text(short_code)) ==> (r matches Some(p) && Some(p.code@) == opt_text(
            short_code,
        ) && p.first_time == first_pairing(
            trusted_device_count,
            trusted@,
            match active_sender {
                Some(s) => Some(*s),
                None => None,
            },
        ) && p.sender_name@ == match active_sender {
            Some(s) => s.device_name@,
            None => "手机"@,
        } && offer_recorded(*old(ui), *final(ui), p.code@)),
{
    let code = match short_code {
        Some(c) => c,
        None => return None,
    };
    let pairing = match status {
        ReceiverStatus::Pairing => true,
        _ => false,
    };
    let shown = match &ui.dialog_code {
        Some(c) => equal_str(c.as_str(), code),
        None => false,
    };
    let pending = match &ui.dialog_pending {
        Some(c) => equal_str(c.as_str(), code),
        None => false,
    };
    if !pairing || shown || pending {
        return None;
    }
    let first_time = trusted_device_count == 0 || match active_sender {
        Some(s) => !is_trusted(trusted, s.sender_id.as_str()),
        None => true,
    };
    let sender_name = match active_sender {
        Some(s) => owned(s.device_name.as_str()),
        None => owned("手机"),
    };
    ui.dialog_pending = Some(owned(code));
    ui.locally_confirmed = false;
    Some(PairingPrompt { code: owned(code), sender_name, first_time })
}

/// The dialog for `code` was handed to the window: it is no longer pending,
/// and when it opened it is the code shown.
pub fn pairing_dialog_settled(ui: &mut PairingUiState, code: &str, opened: bool)
    ensures
        opt_is(old(ui).dialog_pending, code@) ==> final(ui).dialog_pending is None,
        !opt_is(old(ui).dialog_pending, code@) ==> final(ui).dialog_pending == old(ui).dialog_pending,
        opened ==> opt_is(final(ui).dialog_code, code@),
        !opened ==> final(ui).dialog_code == old(ui).dialog_code,
        final(ui).locally_confirmed == old(ui).locally_confirmed,
{
    let was_pending = match &ui.dialog_pending {
        Some(c) => equal_str(c.as_str(), code),
        None => false,
    };
    if was_pending {
        ui.dialog_pending = None;
    }
    if opened {
        ui.dialog_code = Some(owned(code));
    }
}

/// Outside pairing, the dialog state is reset; returns whether the open
/// pairing dialog must be asked to close.
pub fn leave_pairing(ui: &mut PairingUiState, status: ReceiverStatus) -> (r: bool)
    ensures
        r == (status != ReceiverStatus::Pairing),
        r ==> final(ui).dialog_code is None && final(ui).dialog_pending is None && !final(ui).locally_confirmed,
        !r ==> *final(ui) == *old(ui),
{
    match status {
        ReceiverStatus::Pairing => false,
        _ => {
            ui.dialog_code = None;
            ui.dialog_pending = None;
            ui.locally_confirmed = false;
            true
        },
    }
}

/// The replacement revision whose cleanup dialog is due, if any.
pub open spec fn replacement_due(
    status: ReceiverStatus,
    pairing_dialog_visible: bool,
    shown_revision: Option<u64>,
    replacement_revision: Option<u64>,
) -> Option<u64> {
    match replacement_revision {
        Some(rev) => if status != ReceiverStatus::Pairing && !pairing_dialog_visible && shown_revision != Some(
            rev,
        ) {
            Some(rev)
        } else {
            None
        },
        None => None,
    }
}

/// Once the dialog for a revision was shown (and recorded), the same
/// revision is not offered again.
pub proof fn lemma_identity_cleanup_offered_once(status: ReceiverStatus, visible: bool, revision: u64)
    ensures
        replacement_due(status, visible, Some(revision), Some(revision)) is None,
{
}

/// The identity-cleanup dialog is offered once per replacement revision,
/// only outside pairing and while no pairing dialog is visible.
pub fn identity_replacement_due(
    status: ReceiverStatus,
    pairing_dialog_visible: bool,
    shown_revision: Option<u64>,
    replacement_revision: Option<u64>,
) -> (r: Option<u64>)
    ensures
        r == replacement_due(status, pairing_dialog_visible, shown_revision, replacement_revision),
{
    match replacement_revision {
        Some(rev) => {
            let pairing = match status {
                ReceiverStatus::Pairing => true,
                _ => false,
            };
            let shown = match shown_revision {
                Some(s) => s == rev,
                None => false,
            };
            if !pairing && !pairing_dialog_visible && !shown {
                Some(rev)
            } else {
                None
            }
        },
        None => None,
    }
}

} // verus!
