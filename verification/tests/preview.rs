use std::time::Duration;

use picoo_desktop::preview::{
    target_width_for_viewport_width, PreparedPreview, PreviewCadence, PreviewPipeline,
    PreviewRequest, PreviewViewportTracker, VideoSurface, WorkerState, PREVIEW_MAX_DETAIL_WIDTH,
    PREVIEW_TARGET_FRAME_INTERVAL_NANOS,
};
use picoo_desktop::preview_page::{
    parse_ui_preview_page, resolve_initial_shell, InitialDesktopPage, InitialShell, UiPreviewPage,
};

fn nanos(d: Duration) -> u64 {
    d.as_nanos() as u64
}

#[test]
fn parses_known_pages() {
    assert_eq!(
        parse_ui_preview_page(Some("first-launch")),
        Some(UiPreviewPage::FirstLaunch)
    );
    assert_eq!(
        parse_ui_preview_page(Some("WAITING")),
        Some(UiPreviewPage::Waiting)
    );
    assert_eq!(
        parse_ui_preview_page(Some("settings")),
        Some(UiPreviewPage::Settings)
    );
    assert_eq!(parse_ui_preview_page(Some("nope")), None);
    assert_eq!(parse_ui_preview_page(None), None);
}

#[test]
fn preview_page_names_ignore_surrounding_white_space() {
    assert_eq!(parse_ui_preview_page(Some("  Live\n")), Some(UiPreviewPage::Live));
    assert_eq!(parse_ui_preview_page(Some("first_launch")), Some(UiPreviewPage::FirstLaunch));
    assert_eq!(parse_ui_preview_page(Some("")), None);
}

#[test]
fn linux_verification_defaults_to_waiting() {
    let shell = resolve_initial_shell(None, false, true);
    assert_eq!(
        shell,
        InitialShell {
            page: InitialDesktopPage::Waiting,
            settings_open: false,
        }
    );
}

#[test]
fn windows_first_launch_gate_stays_until_completed() {
    let shell = resolve_initial_shell(None, false, false);
    assert_eq!(shell.page, InitialDesktopPage::FirstLaunch);
    let done = resolve_initial_shell(None, true, false);
    assert_eq!(done.page, InitialDesktopPage::Waiting);
}

#[test]
fn preview_override_can_open_settings_on_waiting() {
    let shell = resolve_initial_shell(Some(UiPreviewPage::Settings), false, true);
    assert_eq!(shell.page, InitialDesktopPage::Waiting);
    assert!(shell.settings_open);
}

#[test]
fn pending_slot_keeps_only_the_latest_frame() {
    let mut state: WorkerState<u32, ()> = WorkerState::new();
    state.enqueue_latest(PreviewRequest { sequence: 1, generation: 0, frame: 10, target_width: 1280 });
    state.enqueue_latest(PreviewRequest { sequence: 2, generation: 0, frame: 20, target_width: 1280 });
    assert_eq!(state.pending.expect("latest request").sequence, 2);
}

#[test]
fn completed_slot_keeps_newest_result_without_starving_rendering() {
    let mut state: WorkerState<(), u32> = WorkerState::new();
    state.publish_latest(PreparedPreview { sequence: 2, surface: 2 });
    state.publish_latest(PreparedPreview { sequence: 1, surface: 1 });
    assert_eq!(state.completed.expect("latest result").sequence, 2);
}

#[test]
fn target_width_tracks_physical_viewport_with_bounded_detail() {
    assert_eq!(target_width_for_viewport_width(960.0f32.ceil() as u32), 960);
    assert_eq!(target_width_for_viewport_width(1440.1f32.ceil() as u32), 1440);
    assert_eq!(target_width_for_viewport_width(2560.0f32.ceil() as u32), 1920);
}

#[test]
fn target_width_is_even_and_at_least_two() {
    assert_eq!(target_width_for_viewport_width(0), 2);
    assert_eq!(target_width_for_viewport_width(3), 2);
    assert_eq!(target_width_for_viewport_width(1281), 1280);
    assert_eq!(target_width_for_viewport_width(u32::MAX), PREVIEW_MAX_DETAIL_WIDTH);
}

#[test]
fn cadence_stays_near_sixty_fps_across_common_ui_check_intervals() {
    for check_interval in [
        Duration::from_millis(16),
        Duration::from_micros(16_200),
        Duration::from_micros(16_667),
    ] {
        let start = nanos(Duration::from_secs(1));
        let end = start + nanos(Duration::from_secs(100));
        let mut cadence = PreviewCadence::new(PREVIEW_TARGET_FRAME_INTERVAL_NANOS);
        let mut now = start;
        let mut submitted = 0_u32;
        while now <= end {
            submitted += u32::from(cadence.take_due(now));
            now += nanos(check_interval);
        }
        let fps = f64::from(submitted) / 100.0;
        assert!(
            (59.9..=60.1).contains(&fps),
            "check interval {check_interval:?} produced {fps:.2} fps"
        );
    }
}

#[test]
fn cadence_skips_hidden_periods_without_replaying_them() {
    let start = nanos(Duration::from_secs(1));
    let mut cadence = PreviewCadence::new(PREVIEW_TARGET_FRAME_INTERVAL_NANOS);
    assert!(cadence.take_due(start));
    assert!(cadence.take_due(start + nanos(Duration::from_secs(5))));
    assert!(!cadence.take_due(
        start + nanos(Duration::from_secs(5)) + nanos(Duration::from_millis(1))
    ));
}

#[test]
fn cadence_keeps_phase_after_small_jitter() {
    let mut cadence = PreviewCadence::new(100);
    assert!(cadence.take_due(1_000));
    assert_eq!(cadence.next_deadline, Some(1_100));
    assert!(!cadence.take_due(1_099));
    assert!(cadence.take_due(1_130));
    assert_eq!(cadence.next_deadline, Some(1_200));
    assert!(cadence.take_due(1_500));
    assert_eq!(cadence.next_deadline, Some(1_600));
    cadence.next_deadline = Some(u64::MAX - 10);
    assert!(cadence.take_due(u64::MAX - 5));
    assert_eq!(cadence.next_deadline, None);
}

#[test]
fn repeated_frame_sequence_does_not_request_another_render() {
    let mut surface: VideoSurface<()> = VideoSurface::new();

    assert!(surface.accepts_sequence(1));
    assert!(!surface.accepts_sequence(1));
}

#[test]
fn clear_allows_a_new_source_to_present_from_sequence_one() {
    let mut surface: VideoSurface<()> = VideoSurface::new();
    assert!(surface.accepts_sequence(8));
    surface.clear();
    assert!(surface.accepts_sequence(1));
}

#[test]
fn surface_presents_only_newer_previews() {
    let mut surface: VideoSurface<&str> = VideoSurface::new();
    assert!(surface.present(PreparedPreview { sequence: 3, surface: "three" }));
    assert!(!surface.present(PreparedPreview { sequence: 2, surface: "two" }));
    assert_eq!(surface.native_surface, Some("three"));
    assert_eq!(surface.last_sequence, 3);
}

#[test]
fn pipeline_submits_each_frame_once_per_width_and_clears_generations() {
    let mut pipeline = PreviewPipeline::new();
    let mut worker: WorkerState<&str, ()> = WorkerState::new();
    let t0 = 1_000_000_000;
    assert!(pipeline.submit_latest(&mut worker, 7, "frame-7", t0));
    let request = worker.take_pending().expect("request");
    assert_eq!((request.sequence, request.generation, request.frame), (1, 0, "frame-7"));
    assert_eq!(request.target_width, PREVIEW_MAX_DETAIL_WIDTH);
    let later = t0 + PREVIEW_TARGET_FRAME_INTERVAL_NANOS;
    assert!(!pipeline.submit_latest(&mut worker, 7, "frame-7", later));
    pipeline.set_viewport_physical_width(1280);
    assert!(pipeline.submit_latest(&mut worker, 7, "frame-7", later));
    assert_eq!(worker.pending.as_ref().map(|r| r.target_width), Some(1280));
    assert!(!pipeline.submit_latest(&mut worker, 8, "frame-8", later + 1));
    assert!(pipeline.clear(&mut worker));
    assert_eq!(worker.generation, 1);
    assert!(worker.pending.is_none());
    assert!(!pipeline.clear(&mut worker));
    assert!(worker.complete(0, Some(PreparedPreview { sequence: 9, surface: () })));
    assert!(worker.completed.is_none());
    assert!(worker.complete(1, Some(PreparedPreview { sequence: 9, surface: () })));
    assert_eq!(pipeline.take_prepared(&mut worker).map(|p| p.sequence), Some(9));
    worker.stop();
    assert!(worker.take_pending().is_none());
    assert!(!worker.complete(1, None));
}

#[test]
fn preview_demand_survives_a_source_gap_and_is_consumed_once() {
    let mut viewport = PreviewViewportTracker::default();
    viewport.request_frame(1280, 720);
    assert_eq!(viewport.take_target_physical_width(), Some(1280));
    assert_eq!(viewport.take_target_physical_width(), None);
    viewport.request_frame(1920, 1080);
    assert_eq!(viewport.take_target_physical_width(), Some(1920));
}

#[test]
fn empty_viewport_demand_is_dropped() {
    let mut viewport = PreviewViewportTracker::new();
    assert_eq!(viewport.take_target_physical_width(), None);
    viewport.request_frame(0, 720);
    assert_eq!(viewport.take_target_physical_width(), None);
    assert!(!viewport.pending);
}
