use std::time::Duration;

use picoo_desktop::diagnostics::{
    analyze, DiagnosticAnalysis, DiagnosticHealth, LiveMetricSample, LiveMetricsHistory,
    MetricSignals, HISTORY_WINDOW_NANOS,
};
use picoo_desktop::model::{ReceiverStatus, VirtualCameraStatus};

/// The measured quantities of one receiver statistics window.
#[derive(Clone, Copy)]
struct Stats {
    rtt_ms: f64,
    packet_loss: f64,
    jitter_ms: f64,
    reassembly_drop: u64,
    decoder_drop: u64,
    jitter_buffer_target_ms: f64,
    jitter_buffer_actual_delay_ms: f64,
    receive_queue_age_ms: f64,
}

fn stats() -> Stats {
    Stats {
        rtt_ms: 24.0,
        packet_loss: 0.0,
        jitter_ms: 2.0,
        reassembly_drop: 0,
        decoder_drop: 0,
        jitter_buffer_target_ms: 33.0,
        jitter_buffer_actual_delay_ms: 23.0,
        receive_queue_age_ms: 0.0,
    }
}

fn signals(s: &Stats) -> MetricSignals {
    MetricSignals {
        packet_loss_severe: s.packet_loss >= 0.05,
        rtt_high: s.rtt_ms >= 120.0,
        packet_loss_elevated: s.packet_loss > 0.03,
        jitter_high: s.jitter_ms >= 30.0
            || s.jitter_buffer_target_ms >= 80.0
            || s.jitter_buffer_actual_delay_ms >= 100.0
            || s.receive_queue_age_ms >= 100.0,
        decoder_drop: s.decoder_drop,
        reassembly_drop: s.reassembly_drop,
    }
}

fn analyze_stats(
    stats: Option<&Stats>,
    actual_fps: u32,
    target_fps: u32,
    media_error: Option<&str>,
    status: ReceiverStatus,
    virtual_camera: VirtualCameraStatus,
    shared_ring_error: Option<&str>,
) -> DiagnosticAnalysis {
    let signals = stats.map(signals);
    analyze(signals.as_ref(), actual_fps, target_fps, media_error, status, virtual_camera, shared_ring_error)
}

#[test]
fn missing_sample_is_not_reported_as_excellent_or_zero_loss() {
    let analysis = analyze_stats(
        None,
        0,
        30,
        None,
        ReceiverStatus::Streaming,
        VirtualCameraStatus::Active,
        None,
    );
    assert_eq!(analysis.health, DiagnosticHealth::Waiting);
    assert_eq!(analysis.label, "等待样本");
}

#[test]
fn analysis_prioritizes_loss_and_decoder_faults() {
    let mut loss = stats();
    loss.packet_loss = 0.06;
    assert_eq!(
        analyze_stats(
            Some(&loss),
            30,
            30,
            None,
            ReceiverStatus::Streaming,
            VirtualCameraStatus::Active,
            None,
        )
        .health,
        DiagnosticHealth::Poor
    );

    let mut decode = stats();
    decode.decoder_drop = 1;
    assert_eq!(
        analyze_stats(
            Some(&decode),
            30,
            30,
            None,
            ReceiverStatus::Streaming,
            VirtualCameraStatus::Active,
            None,
        )
        .label,
        "解码丢帧"
    );
}

#[test]
fn low_actual_fps_is_visible_after_network_checks_pass() {
    let analysis = analyze_stats(
        Some(&stats()),
        20,
        30,
        None,
        ReceiverStatus::Streaming,
        VirtualCameraStatus::Active,
        None,
    );
    assert_eq!(analysis.health, DiagnosticHealth::Attention);
    assert_eq!(analysis.label, "帧率不足");
}

#[test]
fn loss_attention_matches_the_strict_three_percent_control_threshold() {
    let mut at_boundary = stats();
    at_boundary.packet_loss = 0.03;
    assert_eq!(
        analyze_stats(
            Some(&at_boundary),
            30,
            30,
            None,
            ReceiverStatus::Streaming,
            VirtualCameraStatus::Active,
            None,
        )
        .health,
        DiagnosticHealth::Healthy
    );

    at_boundary.packet_loss = 0.030_001;
    assert_eq!(
        analyze_stats(
            Some(&at_boundary),
            30,
            30,
            None,
            ReceiverStatus::Streaming,
            VirtualCameraStatus::Active,
            None,
        )
        .label,
        "网络不稳定"
    );
}

#[test]
fn output_and_decoder_faults_override_healthy_network_or_missing_stats() {
    let media = analyze_stats(
        None,
        0,
        30,
        Some("decoder failed"),
        ReceiverStatus::Streaming,
        VirtualCameraStatus::Active,
        None,
    );
    assert_eq!(media.label, "解码异常");
    assert_eq!(media.health, DiagnosticHealth::Poor);

    let ring = analyze_stats(
        Some(&stats()),
        30,
        30,
        None,
        ReceiverStatus::Streaming,
        VirtualCameraStatus::Active,
        Some("permission denied"),
    );
    assert_eq!(ring.label, "输出发布异常");

    let unavailable = analyze_stats(
        Some(&stats()),
        30,
        30,
        None,
        ReceiverStatus::Streaming,
        VirtualCameraStatus::NotInstalled,
        None,
    );
    assert_eq!(unavailable.label, "输出不可用");
    assert_ne!(unavailable.health, DiagnosticHealth::Healthy);
}

#[test]
fn messages_carry_the_reported_errors_and_fps_saturates() {
    let media = analyze_stats(None, 0, 0, Some("E1"), ReceiverStatus::Streaming, VirtualCameraStatus::Active, Some("E2"));
    assert_eq!(media.message, "平台解码器报告错误：E1");
    let ring = analyze_stats(None, 0, 0, None, ReceiverStatus::Streaming, VirtualCameraStatus::Active, Some("E2"));
    assert_eq!(ring.message, "Receiver 无法向虚拟摄像头发布共享帧：E2");
    let fast = analyze_stats(Some(&stats()), u32::MAX, u32::MAX, None, ReceiverStatus::Streaming, VirtualCameraStatus::Active, None);
    assert_eq!(fast.label, "运行正常");
    let unknown = analyze_stats(Some(&stats()), 30, 30, None, ReceiverStatus::Streaming, VirtualCameraStatus::Unknown, None);
    assert_eq!(unknown.health, DiagnosticHealth::Waiting);
    let unstable = analyze_stats(Some(&stats()), 30, 30, None, ReceiverStatus::NetworkUnstable, VirtualCameraStatus::Active, None);
    assert_eq!(unstable.label, "网络不稳定");
    let pending = analyze_stats(None, 0, 30, None, ReceiverStatus::Streaming, VirtualCameraStatus::AwaitingApproval, None);
    assert_eq!(pending.label, "输出未就绪");
}

fn nanos(d: Duration) -> u64 {
    d.as_nanos() as u64
}

#[test]
fn history_records_each_receiver_stats_revision_once() {
    let start = nanos(Duration::from_secs(1));
    let mut history: LiveMetricsHistory<Stats> = LiveMetricsHistory::new();
    let stats = stats();
    let window = |s: &Stats| Some((*s, s.reassembly_drop, s.decoder_drop));

    history.observe(window(&stats), 7, 30, start);
    history.observe(window(&stats), 7, 30, start + nanos(Duration::from_secs(1)));
    assert_eq!(history.counts().sample_count, 1);

    history.observe(window(&stats), 8, 30, start + nanos(Duration::from_secs(2)));
    assert_eq!(history.counts().sample_count, 2);

    history.observe(None, 8, 0, start + nanos(Duration::from_secs(3)));
    assert_eq!(history.counts().sample_count, 2);
}

#[test]
fn history_is_bounded_and_summarizes_same_unit_windows() {
    let start = nanos(Duration::from_secs(1));
    let mut history: LiveMetricsHistory<(f64, f64)> = LiveMetricsHistory::new();
    let sample = |captured_at, rtt_ms: f64, loss: f64, fps, reassembly_drop, decoder_drop| LiveMetricSample {
        captured_at,
        actual_fps: fps,
        reassembly_drop,
        decoder_drop,
        metrics: (rtt_ms, loss),
    };

    history.record(sample(start, 10.0, 0.01, 30, 1, 0), start);
    history.record(
        sample(start + nanos(Duration::from_secs(300)), 80.0, 0.04, 21, 2, 1),
        start + nanos(Duration::from_secs(300)),
    );
    history.record(
        sample(start + nanos(Duration::from_secs(601)), 40.0, 0.02, 25, 3, 0),
        start + nanos(Duration::from_secs(601)),
    );

    let summary = history.counts();
    let peak_rtt_ms = (0..history.len()).map(|i| history.sample(i).metrics.0).fold(0.0, f64::max);
    let peak_packet_loss = (0..history.len()).map(|i| history.sample(i).metrics.1).fold(0.0, f64::max);
    assert_eq!(summary.sample_count, 2);
    assert_eq!(summary.observed_seconds, 301);
    assert_eq!(peak_rtt_ms, 80.0);
    assert_eq!(peak_packet_loss, 0.04);
    assert_eq!(summary.minimum_fps, 21);
    assert_eq!(summary.reassembly_drops, 5);
    assert_eq!(summary.decoder_drops, 1);
}

#[test]
fn empty_history_summarizes_to_zero_and_drops_saturate() {
    let mut history: LiveMetricsHistory<()> = LiveMetricsHistory::new();
    assert_eq!(history.counts().sample_count, 0);
    assert_eq!(history.counts().minimum_fps, 0);
    let big = |at: u64| LiveMetricSample { captured_at: at, actual_fps: 60, reassembly_drop: u64::MAX, decoder_drop: 1, metrics: () };
    history.record(big(10), 10);
    history.record(big(20), 20);
    assert_eq!(history.counts().reassembly_drops, u64::MAX);
    assert_eq!(history.counts().decoder_drops, 2);
    history.discard_expired(20 + HISTORY_WINDOW_NANOS + 11);
    assert_eq!(history.counts().sample_count, 0);
}

#[test]
fn from_metrics_matches_analyze() {
    let mut loss = stats();
    loss.packet_loss = 0.06;
    let sig = signals(&loss);
    let a = DiagnosticAnalysis::from_metrics(
        Some(&sig),
        30,
        30,
        None,
        ReceiverStatus::Streaming,
        VirtualCameraStatus::Active,
        None,
    );
    let b = analyze(
        Some(&sig),
        30,
        30,
        None,
        ReceiverStatus::Streaming,
        VirtualCameraStatus::Active,
        None,
    );
    assert_eq!(a.health, b.health);
    assert_eq!(a.label, b.label);
    assert_eq!(a.message, b.message);
    assert_eq!(a.health, DiagnosticHealth::Poor);
}
