use picoo_desktop::nav::{
    sidebar_target_width, sidebar_toggle_icon, sidebar_toggle_label, sidebar_width_animation_id,
    SidebarWidthTransition, SIDEBAR_COLLAPSED_WIDTH, SIDEBAR_EXPANDED_WIDTH,
};

#[test]
fn sidebar_width_transition_tracks_the_previous_target() {
    let mut transition = SidebarWidthTransition::new(SIDEBAR_EXPANDED_WIDTH);

    transition.update_target(SIDEBAR_COLLAPSED_WIDTH);
    assert_eq!(transition.from_width, SIDEBAR_EXPANDED_WIDTH);
    assert_eq!(transition.target_width, SIDEBAR_COLLAPSED_WIDTH);

    transition.update_target(SIDEBAR_EXPANDED_WIDTH);
    assert_eq!(transition.from_width, SIDEBAR_COLLAPSED_WIDTH);
    assert_eq!(transition.target_width, SIDEBAR_EXPANDED_WIDTH);
}

#[test]
fn retargeting_to_the_same_width_keeps_the_transition() {
    let mut transition = SidebarWidthTransition::new(SIDEBAR_EXPANDED_WIDTH);
    transition.update_target(SIDEBAR_COLLAPSED_WIDTH);
    transition.update_target(SIDEBAR_COLLAPSED_WIDTH);
    assert_eq!(transition.from_width, SIDEBAR_EXPANDED_WIDTH);
    assert_eq!(transition.target_width, SIDEBAR_COLLAPSED_WIDTH);
}

#[test]
fn sidebar_widths_and_toggle_copy() {
    assert_eq!(SIDEBAR_EXPANDED_WIDTH, 204);
    assert_eq!(SIDEBAR_COLLAPSED_WIDTH, 48);
    assert_eq!(sidebar_target_width(true), 48);
    assert_eq!(sidebar_target_width(false), 204);
    assert_eq!(sidebar_toggle_label(true), "展开侧边栏");
    assert_eq!(sidebar_toggle_label(false), "折叠侧边栏");
    assert_eq!(sidebar_toggle_icon(true), "sidebar-right");
    assert_eq!(sidebar_toggle_icon(false), "sidebar-left");
}

#[test]
fn animation_ids_differ_per_width_pair() {
    assert_eq!(sidebar_width_animation_id(204, 48), (204u64 << 32) | 48);
    assert_ne!(sidebar_width_animation_id(204, 48), sidebar_width_animation_id(48, 204));
    assert_eq!(sidebar_width_animation_id(u32::MAX, u32::MAX), u64::MAX);
}
