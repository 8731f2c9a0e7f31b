//! The collapsible sidebar: its widths, the animated width transition and
//! the toggle button's copy. Widths are logical pixels.
use vstd::prelude::*;

verus! {

/// Width of the expanded sidebar.
pub const SIDEBAR_EXPANDED_WIDTH: u32 = 204;

/// Width of the collapsed sidebar.
pub const SIDEBAR_COLLAPSED_WIDTH: u32 = 48;

/// The width the sidebar animates to.
pub fn sidebar_target_width(collapsed: bool) -> (r: u32)
    ensures
        r == (if collapsed { SIDEBAR_COLLAPSED_WIDTH } else { SIDEBAR_EXPANDED_WIDTH }),
{
    if collapsed {
        SIDEBAR_COLLAPSED_WIDTH
    } else {
        SIDEBAR_EXPANDED_WIDTH
    }
}

/// An animated change of the sidebar width: from the previous target to the
/// current one.
#[derive(Debug, Clone, Copy, PartialEq, Eq, Structural)]
pub struct SidebarWidthTransition {
    pub from_width: u32,
    pub target_width: u32,
}

impl SidebarWidthTransition {
    /// A transition at rest on `target_width`.
    pub fn new(target_width: u32) -> (r: Self)
        ensures
            r.from_width == target_width,
            r.target_width == target_width,
    {
        SidebarWidthTransition { from_width: target_width, target_width }
    }

    /// Retarget: a new target starts from the previous target; the same
    /// target leaves the transition unchanged.
    pub fn update_target(&mut self, target_width: u32)
        ensures
            old(self).target_width != target_width ==> final(self).from_width == old(self).target_width
                && final(self).target_width == target_width,
            old(self).target_width == target_width ==> *final(self) == *old(self),
    {
        if self.target_width != target_width {
            self.from_width = self.target_width;
            self.target_width = target_width;
        }
    }
}

/// The key of one width animation: the pair of widths packed in one number.
pub open spec fn animation_key(from: u32, to: u32) -> int {
    from * 0x1_0000_0000 + to
}

/// The animation id of a change from `from` to `to`; each pair of widths
/// has its own id.
pub fn sidebar_width_animation_id(from: u32, to: u32) -> (r: u64)
    ensures
        r == animation_key(from, to),
{
    assert(from * 0x1_0000_0000 + to <= u64::MAX) by (nonlinear_arith)
        requires
            from <= u32::MAX,
            to <= u32::MAX,
    ;
    (from as u64) * 0x1_0000_0000 + (to as u64)
}

/// Distinct width changes get distinct animation ids.
pub proof fn lemma_animation_key_injective(a: u32, b: u32, c: u32, d: u32)
    requires
        animation_key(a, b) == animation_key(c, d),
    ensures
        a == c,
        b == d,
{
    assert(a == c && b == d) by (nonlinear_arith)
        requires
            a * 0x1_0000_0000 + b == c * 0x1_0000_0000 + d,
            0 <= a <= u32::MAX,
            0 <= b <= u32::MAX,
            0 <= c <= u32::MAX,
            0 <= d <= u32::MAX,
    ;
}

/// Tooltip and accessibility label of the sidebar toggle.
pub fn sidebar_toggle_label(collapsed: bool) -> (r: &'static str)
    ensures
        collapsed ==> r@ == "展开侧边栏"@,
        !collapsed ==> r@ == "折叠侧边栏"@,
{
    if collapsed {
        "展开侧边栏"
    } else {
        "折叠侧边栏"
    }
}

/// Icon of the sidebar toggle.
pub fn sidebar_toggle_icon(collapsed: bool) -> (r: &'static str)
    ensures
        collapsed ==> r@ == "sidebar-right"@,
        !collapsed ==> r@ == "sidebar-left"@,
{
    if collapsed {
        "sidebar-right"
    } else {
        "sidebar-left"
    }
}

} // verus!
