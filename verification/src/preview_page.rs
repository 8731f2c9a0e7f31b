//! The first page painted by the desktop shell, optionally overridden for previews.
use vstd::prelude::*;
use crate::text::{ascii_lower, chars_of, is_trim_of, string_from_chars, to_ascii_lower, trim_bounds};

verus! {

#[derive(Debug, Clone, Copy, PartialEq, Eq, Structural)]
pub enum UiPreviewPage {
    FirstLaunch,
    Waiting,
    Live,
    Settings,
}

#[derive(Debug, Clone, Copy, PartialEq, Eq, Structural)]
pub enum InitialDesktopPage {
    FirstLaunch,
    Waiting,
    Live,
}

#[derive(Debug, Clone, Copy, PartialEq, Eq, Structural)]
pub struct InitialShell {
    pub page: InitialDesktopPage,
    pub settings_open: bool,
}

/// The page named by a normalized (trimmed, ASCII-lowercased) override.
pub open spec fn page_named(name: Seq<char>) -> Option<UiPreviewPage> {
    if name == "first-launch"@ || name == "first_launch"@ {
        Some(UiPreviewPage::FirstLaunch)
    } else if name == "waiting"@ {
        Some(UiPreviewPage::Waiting)
    } else if name == "live"@ {
        Some(UiPreviewPage::Live)
    } else if name == "settings"@ {
        Some(UiPreviewPage::Settings)
    } else {
        None
    }
}

/// `s` with surrounding Unicode white space removed and ASCII letters lowercased.
pub open spec fn normalized(s: Seq<char>, start: int, end: int) -> Seq<char> {
    s.subrange(start, end).map_values(|c: char| ascii_lower(c))
}

/// Parses a preview-page override, ignoring case and surrounding white space.
pub fn parse_ui_preview_page(raw: Option<&str>) -> (r: Option<UiPreviewPage>)
    ensures
        raw is None ==> r is None,
        raw matches Some(s) ==> exists|start: int, end: int|
            is_trim_of(s@, start, end) && r == page_named(#[trigger] normalized(s@, start, end)),
{
    let s = match raw {
        Some(s) => s,
        None => return None,
    };
    let cs = chars_of(s);
    let (start, end) = trim_bounds(&cs);
    let mut lowered: Vec<char> = Vec::new();
    let mut i: usize = start;
    while i < end
        invariant
            start <= i <= end <= cs@.len(),
            lowered@ == cs@.subrange(start as int, i as int).map_values(|c: char| ascii_lower(c)),
        decreases end - i,
    {
        lowered.push(to_ascii_lower(cs[i]));
        assert(cs@.subrange(start as int, i + 1).map_values(|c: char| ascii_lower(c)) =~= cs@.subrange(
            start as int,
            i as int,
        ).map_values(|c: char| ascii_lower(c)).push(ascii_lower(cs@[i as int])));
        i = i + 1;
    }
    let name = string_from_chars(lowered.as_slice());
    assert(name@ == normalized(s@, start as int, end as int));
    let r = if name == owned_str("first-launch") || name == owned_str("first_launch") {
        Some(UiPreviewPage::FirstLaunch)
    } else if name == owned_str("waiting") {
        Some(UiPreviewPage::Waiting)
    } else if name == owned_str("live") {
        Some(UiPreviewPage::Live)
    } else if name == owned_str("settings") {
        Some(UiPreviewPage::Settings)
    } else {
        None
    };
    assert(is_trim_of(s@, start as int, end as int));
    r
}

fn owned_str(s: &str) -> (r: String)
    ensures
        r@ == s@,
{
    s.to_owned()
}

/// The shell painted first: an explicit preview wins (settings open over the
/// waiting page); otherwise the first-launch gate until it was completed,
/// except where no virtual camera can be installed.
pub fn resolve_initial_shell(
    preview: Option<UiPreviewPage>,
    first_launch_completed: bool,
    vcam_unsupported: bool,
) -> (r: InitialShell)
    ensures
        r == (match preview {
            Some(UiPreviewPage::FirstLaunch) => InitialShell { page: InitialDesktopPage::FirstLaunch, settings_open: false },
            Some(UiPreviewPage::Waiting) => InitialShell { page: InitialDesktopPage::Waiting, settings_open: false },
            Some(UiPreviewPage::Live) => InitialShell { page: InitialDesktopPage::Live, settings_open: false },
            Some(UiPreviewPage::Settings) => InitialShell { page: InitialDesktopPage::Waiting, settings_open: true },
            None => if vcam_unsupported || first_launch_completed {
                InitialShell { page: InitialDesktopPage::Waiting, settings_open: false }
            } else {
                InitialShell { page: InitialDesktopPage::FirstLaunch, settings_open: false }
            },
        }),
{
    match preview {
        Some(UiPreviewPage::FirstLaunch) => InitialShell {
            page: InitialDesktopPage::FirstLaunch,
            settings_open: false,
        },
        Some(UiPreviewPage::Waiting) => InitialShell {
            page: InitialDesktopPage::Waiting,
            settings_open: false,
        },
        Some(UiPreviewPage::Live) => InitialShell {
            page: InitialDesktopPage::Live,
            settings_open: false,
        },
        Some(UiPreviewPage::Settings) => InitialShell {
            page: InitialDesktopPage::Waiting,
            settings_open: true,
        },
        None => if vcam_unsupported || first_launch_completed {
            InitialShell { page: InitialDesktopPage::Waiting, settings_open: false }
        } else {
            InitialShell { page: InitialDesktopPage::FirstLaunch, settings_open: false }
        },
    }
}

} // verus!
