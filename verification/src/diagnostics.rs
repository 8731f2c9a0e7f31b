//! Live diagnostics: fault attribution of the receiver's health, and the
//! captions of counts and observation windows.
use vstd::prelude::*;
use crate::model::{ReceiverStatus, VirtualCameraStatus};
use crate::text::{append_chars, concat2, decimal, decimal_digits, owned, string_from_chars};
use std::collections::VecDeque;

verus! {

/// Overall health shown on the diagnostics page.
#[derive(Debug, Clone, Copy, PartialEq, Eq, Structural)]
pub enum DiagnosticHealth {
    Waiting,
    Healthy,
    Attention,
    Poor,
}

/// Health, short label and explanation of the current live metrics.
#[derive(Debug, Clone)]
pub struct DiagnosticAnalysis {
    pub health: DiagnosticHealth,
    pub label: &'static str,
    pub message: String,
}

/// What the analysis reads of one receiver statistics window: the threshold
/// tests on its measured quantities and its drop counters.
#[derive(Debug, Clone, Copy, PartialEq, Eq, Structural)]
pub struct MetricSignals {
    /// Packet loss of at least 5 %.
    pub packet_loss_severe: bool,
    /// Round-trip time of at least 120 ms.
    pub rtt_high: bool,
    /// Packet loss above 3 %.
    pub packet_loss_elevated: bool,
    /// Jitter of at least 30 ms, a jitter-buffer target of at least 80 ms,
    /// an actual buffer delay of at least 100 ms or a receive-queue age of at
    /// least 100 ms.
    pub jitter_high: bool,
    pub decoder_drop: u64,
    pub reassembly_drop: u64,
}

/// `v * k`, saturated at `u32::MAX`.
pub open spec fn saturating_mul_u32(v: u32, k: u32) -> int {
    if v * k > u32::MAX {
        u32::MAX as int
    } else {
        v * k
    }
}

/// The decoded frame rate is below 75 % of a non-zero negotiated target.
pub open spec fn frame_rate_low(actual_fps: u32, target_fps: u32) -> bool {
    target_fps > 0 && saturating_mul_u32(actual_fps, 4) < saturating_mul_u32(target_fps, 3)
}

pub open spec fn opt_view(o: Option<&str>) -> Option<Seq<char>> {
    match o {
        Some(s) => Some(s@),
        None => None,
    }
}

/// The attribution, checked in priority order: a decoder error, a frame
/// publishing error, an unusable virtual camera, a missing sample, then the
/// network and media signals, the frame rate and finally an unconfirmed
/// camera state.
pub open spec fn analysis(
    stats: Option<MetricSignals>,
    actual_fps: u32,
    target_fps: u32,
    media_error: Option<Seq<char>>,
    status: ReceiverStatus,
    virtual_camera: VirtualCameraStatus,
    shared_ring_error: Option<Seq<char>>,
) -> (DiagnosticHealth, Seq<char>, Seq<char>) {
    if media_error is Some {
        (DiagnosticHealth::Poor, "解码异常"@, "平台解码器报告错误："@ + media_error->0)
    } else if shared_ring_error is Some {
        (DiagnosticHealth::Poor, "输出发布异常"@, "Receiver 无法向虚拟摄像头发布共享帧："@ + shared_ring_error->0)
    } else if virtual_camera == VirtualCameraStatus::NotInstalled {
        (DiagnosticHealth::Poor, "输出不可用"@, "系统尚未安装或枚举 Picoo 虚拟摄像头，会议软件无法使用当前画面。"@)
    } else if virtual_camera == VirtualCameraStatus::Installed {
        (DiagnosticHealth::Attention, "等待系统发布"@, "虚拟摄像头已注册，但系统尚未将其发布到当前用户会话。"@)
    } else if virtual_camera != VirtualCameraStatus::Unknown && virtual_camera != VirtualCameraStatus::Active {
        (DiagnosticHealth::Attention, "输出未就绪"@, "虚拟摄像头仍在激活、批准、重启或移除流程中。"@)
    } else if stats is None {
        (DiagnosticHealth::Waiting, "等待样本"@, "收到首个完整统计窗口后，将在这里判断网络与媒体瓶颈。"@)
    } else if stats->0.packet_loss_severe {
        (DiagnosticHealth::Poor, "丢片严重"@, "已决视频帧中的缺失分片达到 5%，参考链可能反复等待关键帧恢复。"@)
    } else if stats->0.rtt_high {
        (DiagnosticHealth::Poor, "链路延迟高"@, "QUIC 往返延迟已达到 120 ms，优先检查 Wi-Fi 信号、频段和 AP 负载。"@)
    } else if stats->0.packet_loss_elevated || status == ReceiverStatus::NetworkUnstable {
        (DiagnosticHealth::Attention, "网络不稳定"@, "可观测丢片达到降码率阈值，Receiver 会要求 Sender 快速降低码率。"@)
    } else if stats->0.decoder_drop > 0 {
        (DiagnosticHealth::Attention, "解码丢帧"@, "最近统计窗口出现解码丢帧；若持续发生，应先排查参考帧恢复和平台解码器。"@)
    } else if stats->0.reassembly_drop > 0 {
        (DiagnosticHealth::Attention, "重组丢帧"@, "最近统计窗口有 Access Unit 被重组层确认丢弃。"@)
    } else if stats->0.jitter_high {
        (DiagnosticHealth::Attention, "抖动偏高"@, "播放控制器已接近低延迟上限，或实际缓冲停留偏高；不会继续扩大缓冲掩盖问题。"@)
    } else if frame_rate_low(actual_fps, target_fps) {
        (DiagnosticHealth::Attention, "帧率不足"@, "实际解码帧率低于协商目标的 75%，瓶颈可能位于发送、网络或解码阶段。"@)
    } else if virtual_camera == VirtualCameraStatus::Unknown {
        (DiagnosticHealth::Waiting, "确认输出状态"@, "网络与媒体指标正常，虚拟摄像头的系统枚举状态仍在确认。"@)
    } else {
        (DiagnosticHealth::Healthy, "运行正常"@, "当前链路与媒体处理指标均在实时视频的正常范围内。"@)
    }
}

fn scaled(v: u32, k: u64) -> (r: u64)
    requires
        k <= 4,
    ensures
        r == saturating_mul_u32(v, k as u32),
{
    assert(v as u64 * k <= 4 * 0xffff_ffffu64) by (nonlinear_arith)
        requires
            k <= 4,
            v <= 0xffff_ffffu64,
    ;
    let p: u64 = v as u64 * k;
    if p > 0xffff_ffffu64 {
        0xffff_ffffu64
    } else {
        p
    }
}

fn verdict(health: DiagnosticHealth, label: &'static str, message: &str) -> (r: DiagnosticAnalysis)
    ensures
        r.health == health,
        r.label == label,
        r.message@ == message@,
{
    DiagnosticAnalysis { health, label, message: owned(message) }
}

impl DiagnosticAnalysis {
    /// Attribute the live metrics; see [`analysis`].
    pub fn from_metrics(
        stats: Option<&MetricSignals>,
        actual_fps: u32,
        target_fps: u32,
        media_error: Option<&str>,
        status: ReceiverStatus,
        virtual_camera: VirtualCameraStatus,
        shared_ring_error: Option<&str>,
    ) -> (r: Self)
        ensures
            (r.health, r.label@, r.message@) == analysis(
                match stats {
                    Some(s) => Some(*s),
                    None => None,
                },
                actual_fps,
                target_fps,
                opt_view(media_error),
                status,
                virtual_camera,
                opt_view(shared_ring_error),
            ),
    {
        analyze(stats, actual_fps, target_fps, media_error, status, virtual_camera, shared_ring_error)
    }
}

/// Attribute the live metrics; see [`analysis`].
pub fn analyze(
    stats: Option<&MetricSignals>,
    actual_fps: u32,
    target_fps: u32,
    media_error: Option<&str>,
    status: ReceiverStatus,
    virtual_camera: VirtualCameraStatus,
    shared_ring_error: Option<&str>,
) -> (r: DiagnosticAnalysis)
    ensures
        (r.health, r.label@, r.message@) == analysis(
            match stats {
                Some(s) => Some(*s),
                None => None,
            },
            actual_fps,
            target_fps,
            opt_view(media_error),
            status,
            virtual_camera,
            opt_view(shared_ring_error),
        ),
{
    proof {
        reveal_strlit("解码异常");
        reveal_strlit("输出发布异常");
        reveal_strlit("输出不可用");
        reveal_strlit("等待系统发布");
        reveal_strlit("输出未就绪");
        reveal_strlit("等待样本");
        reveal_strlit("丢片严重");
        reveal_strlit("链路延迟高");
        reveal_strlit("网络不稳定");
        reveal_strlit("解码丢帧");
        reveal_strlit("重组丢帧");
        reveal_strlit("抖动偏高");
        reveal_strlit("帧率不足");
        reveal_strlit("确认输出状态");
        reveal_strlit("运行正常");
    }
    if let Some(error) = media_error {
        return DiagnosticAnalysis {
            health: DiagnosticHealth::Poor,
            label: "解码异常",
            message: concat2("平台解码器报告错误：", error),
        };
    }
    if let Some(error) = shared_ring_error {
        return DiagnosticAnalysis {
            health: DiagnosticHealth::Poor,
            label: "输出发布异常",
            message: concat2("Receiver 无法向虚拟摄像头发布共享帧：", error),
        };
    }
    match virtual_camera {
        VirtualCameraStatus::NotInstalled => {
            return verdict(
                DiagnosticHealth::Poor,
                "输出不可用",
                "系统尚未安装或枚举 Picoo 虚拟摄像头，会议软件无法使用当前画面。",
            );
        },
        VirtualCameraStatus::Installed => {
            return verdict(
                DiagnosticHealth::Attention,
                "等待系统发布",
                "虚拟摄像头已注册，但系统尚未将其发布到当前用户会话。",
            );
        },
        VirtualCameraStatus::Bundled
        | VirtualCameraStatus::AwaitingApproval
        | VirtualCameraStatus::RestartRequired
        | VirtualCameraStatus::Uninstalling => {
            return verdict(
                DiagnosticHealth::Attention,
                "输出未就绪",
                "虚拟摄像头仍在激活、批准、重启或移除流程中。",
            );
        },
        VirtualCameraStatus::Unknown | VirtualCameraStatus::Active => {},
    }
    let stats = match stats {
        Some(s) => s,
        None => {
            return verdict(
                DiagnosticHealth::Waiting,
                "等待样本",
                "收到首个完整统计窗口后，将在这里判断网络与媒体瓶颈。",
            );
        },
    };
    if stats.packet_loss_severe {
        return verdict(
            DiagnosticHealth::Poor,
            "丢片严重",
            "已决视频帧中的缺失分片达到 5%，参考链可能反复等待关键帧恢复。",
        );
    }
    if stats.rtt_high {
        return verdict(
            DiagnosticHealth::Poor,
            "链路延迟高",
            "QUIC 往返延迟已达到 120 ms，优先检查 Wi-Fi 信号、频段和 AP 负载。",
        );
    }
    let unstable = match status {
        ReceiverStatus::NetworkUnstable => true,
        _ => false,
    };
    if stats.packet_loss_elevated || unstable {
        return verdict(
            DiagnosticHealth::Attention,
            "网络不稳定",
            "可观测丢片达到降码率阈值，Receiver 会要求 Sender 快速降低码率。",
        );
    }
    if stats.decoder_drop > 0 {
        return verdict(
            DiagnosticHealth::Attention,
            "解码丢帧",
            "最近统计窗口出现解码丢帧；若持续发生，应先排查参考帧恢复和平台解码器。",
        );
    }
    if stats.reassembly_drop > 0 {
        return verdict(
            DiagnosticHealth::Attention,
            "重组丢帧",
            "最近统计窗口有 Access Unit 被重组层确认丢弃。",
        );
    }
    if stats.jitter_high {
        return verdict(
            DiagnosticHealth::Attention,
            "抖动偏高",
            "播放控制器已接近低延迟上限，或实际缓冲停留偏高；不会继续扩大缓冲掩盖问题。",
        );
    }
    if target_fps > 0 && scaled(actual_fps, 4) < scaled(target_fps, 3) {
        return verdict(
            DiagnosticHealth::Attention,
            "帧率不足",
            "实际解码帧率低于协商目标的 75%，瓶颈可能位于发送、网络或解码阶段。",
        );
    }
    match virtual_camera {
        VirtualCameraStatus::Unknown => {
            return verdict(
                DiagnosticHealth::Waiting,
                "确认输出状态",
                "网络与媒体指标正常，虚拟摄像头的系统枚举状态仍在确认。",
            );
        },
        _ => {},
    }
    verdict(
        DiagnosticHealth::Healthy,
        "运行正常",
        "当前链路与媒体处理指标均在实时视频的正常范围内。",
    )
}

/// A decoder or frame-publishing error, or a virtual camera that is not
/// installed, is reported as poor health whatever the network says.
pub proof fn lemma_output_faults_are_poor(
    stats: Option<MetricSignals>,
    actual_fps: u32,
    target_fps: u32,
    media_error: Option<Seq<char>>,
    status: ReceiverStatus,
    virtual_camera: VirtualCameraStatus,
    shared_ring_error: Option<Seq<char>>,
)
    requires
        media_error is Some || shared_ring_error is Some || virtual_camera == VirtualCameraStatus::NotInstalled,
    ensures
        analysis(stats, actual_fps, target_fps, media_error, status, virtual_camera, shared_ring_error).0
            == DiagnosticHealth::Poor,
{
}

/// Without a statistics window and without an output fault, the analysis
/// waits: a missing sample is never reported as healthy.
pub proof fn lemma_missing_sample_is_not_healthy(
    actual_fps: u32,
    target_fps: u32,
    status: ReceiverStatus,
    virtual_camera: VirtualCameraStatus,
)
    ensures
        analysis(None, actual_fps, target_fps, None, status, virtual_camera, None).0 != DiagnosticHealth::Healthy,
{
}

/// With no output fault and a usable camera, a statistics window is
/// attributed to its worst network signal first: severe loss, then a high
/// round-trip time (both poor), then elevated loss or an unstable network
/// (attention). A high round-trip time is never reported as healthy.
pub proof fn lemma_network_faults_attributed(
    s: MetricSignals,
    actual_fps: u32,
    target_fps: u32,
    status: ReceiverStatus,
    virtual_camera: VirtualCameraStatus,
)
    requires
        virtual_camera == VirtualCameraStatus::Active || virtual_camera == VirtualCameraStatus::Unknown,
    ensures
        ({
            let a = analysis(Some(s), actual_fps, target_fps, None, status, virtual_camera, None);
            &&& s.packet_loss_severe ==> a.0 == DiagnosticHealth::Poor && a.1 == "丢片严重"@
            &&& !s.packet_loss_severe && s.rtt_high ==> a.0 == DiagnosticHealth::Poor && a.1 == "链路延迟高"@
            &&& !s.packet_loss_severe && !s.rtt_high && (s.packet_loss_elevated || status
                == ReceiverStatus::NetworkUnstable) ==> a.0 == DiagnosticHealth::Attention && a.1 == "网络不稳定"@
        }),
{
}

/// Healthy is reported only for a clean window: no output fault, an active
/// camera, a statistics window without any loss, latency or jitter signal or
/// drop, a stable network and a frame rate at the target.
pub proof fn lemma_healthy_means_clean(
    stats: Option<MetricSignals>,
    actual_fps: u32,
    target_fps: u32,
    media_error: Option<Seq<char>>,
    status: ReceiverStatus,
    virtual_camera: VirtualCameraStatus,
    shared_ring_error: Option<Seq<char>>,
)
    requires
        analysis(stats, actual_fps, target_fps, media_error, status, virtual_camera, shared_ring_error).0
            == DiagnosticHealth::Healthy,
    ensures
        media_error is None,
        shared_ring_error is None,
        virtual_camera == VirtualCameraStatus::Active,
        status != ReceiverStatus::NetworkUnstable,
        !frame_rate_low(actual_fps, target_fps),
        stats matches Some(s) && !s.packet_loss_severe && !s.rtt_high && !s.packet_loss_elevated
            && !s.jitter_high && s.decoder_drop == 0 && s.reassembly_drop == 0,
{
}

/// Caption of an optional count: the value and its unit, or a dash.
pub fn format_count(value: Option<u64>, unit: &str) -> (r: String)
    ensures
        match value {
            Some(v) => r@ == decimal_digits(v as nat) + seq![' '] + unit@,
            None => r@ == "—"@,
        },
{
    match value {
        Some(v) => {
            let mut out = string_from_chars(decimal(v).as_slice());
            let sep: [char; 1] = [' '];
            append_chars(&mut out, &sep);
            out.append(unit);
            out
        },
        None => owned("—"),
    }
}

/// Caption of an observation window: seconds alone under a minute,
/// otherwise minutes and seconds.
pub fn format_duration(seconds: u64) -> (r: String)
    ensures
        seconds / 60 == 0 ==> r@ == decimal_digits(seconds as nat) + " 秒"@,
        seconds / 60 != 0 ==> r@ == decimal_digits((seconds / 60) as nat) + " 分 "@ + decimal_digits(
            (seconds % 60) as nat,
        ) + " 秒"@,
{
    let minutes = seconds / 60;
    let rest = seconds % 60;
    if minutes == 0 {
        let mut out = string_from_chars(decimal(rest).as_slice());
        out.append(" 秒");
        out
    } else {
        let mut out = string_from_chars(decimal(minutes).as_slice());
        out.append(" 分 ");
        append_chars(&mut out, decimal(rest).as_slice());
        out.append(" 秒");
        out
    }
}

/// Where a diagnostics export was written.
#[derive(Debug, Clone)]
pub struct DiagnosticsExportResult {
    pub path: Option<String>,
}


/// How long live metrics stay in the history, in nanoseconds (ten minutes).
pub const HISTORY_WINDOW_NANOS: u64 = 600_000_000_000;

/// One statistics window kept in the history; `metrics` carries the measured
/// quantities that the summary only takes peaks of. Times are nanoseconds
/// on a monotonic clock.
#[derive(Debug, Clone)]
pub struct LiveMetricSample<P> {
    pub captured_at: u64,
    pub actual_fps: u32,
    pub reassembly_drop: u64,
    pub decoder_drop: u64,
    pub metrics: P,
}

/// `later - earlier`, or zero when `later` is earlier
/// (`Instant::saturating_duration_since`).
pub open spec fn elapsed(later: u64, earlier: u64) -> int {
    if later >= earlier {
        later - earlier
    } else {
        0
    }
}

pub open spec fn expired<P>(s: LiveMetricSample<P>, now: u64) -> bool {
    elapsed(now, s.captured_at) > HISTORY_WINDOW_NANOS
}

/// `samples` without its leading run of expired samples.
pub open spec fn drop_expired<P>(samples: Seq<LiveMetricSample<P>>, now: u64) -> Seq<LiveMetricSample<P>>
    decreases samples.len(),
{
    if samples.len() > 0 && expired(samples[0], now) {
        drop_expired(samples.drop_first(), now)
    } else {
        samples
    }
}

/// The bounded history of live statistics windows.
#[derive(Debug, Clone)]
pub struct LiveMetricsHistory<P> {
    samples: VecDeque<LiveMetricSample<P>>,
    last_stats_revision: Option<u64>,
}

/// The counting part of the history summary.
#[derive(Debug, Clone, Copy, PartialEq, Eq, Structural)]
pub struct HistoryCounts {
    pub sample_count: usize,
    pub observed_seconds: u64,
    pub minimum_fps: u32,
    pub reassembly_drops: u64,
    pub decoder_drops: u64,
}

pub open spec fn total_reassembly<P>(s: Seq<LiveMetricSample<P>>) -> int
    decreases s.len(),
{
    if s.len() == 0 {
        0
    } else {
        total_reassembly(s.drop_last()) + s.last().reassembly_drop
    }
}

pub open spec fn total_decoder<P>(s: Seq<LiveMetricSample<P>>) -> int
    decreases s.len(),
{
    if s.len() == 0 {
        0
    } else {
        total_decoder(s.drop_last()) + s.last().decoder_drop
    }
}

pub open spec fn min_fps<P>(s: Seq<LiveMetricSample<P>>) -> u32
    decreases s.len(),
{
    if s.len() == 0 {
        u32::MAX
    } else {
        let m = min_fps(s.drop_last());
        if s.last().actual_fps < m {
            s.last().actual_fps
        } else {
            m
        }
    }
}

pub open spec fn saturated(v: int) -> u64 {
    if v > u64::MAX {
        u64::MAX
    } else {
        v as u64
    }
}

/// The counts of a history: all zero when empty; otherwise the number of
/// samples, the whole seconds between the first and the last, the lowest
/// frame rate and the saturated drop totals.
pub open spec fn history_counts<P>(s: Seq<LiveMetricSample<P>>) -> HistoryCounts {
    if s.len() == 0 {
        HistoryCounts { sample_count: 0, observed_seconds: 0, minimum_fps: 0, reassembly_drops: 0, decoder_drops: 0 }
    } else {
        HistoryCounts {
            sample_count: s.len() as usize,
            observed_seconds: (elapsed(s.last().captured_at, s[0].captured_at) / 1_000_000_000) as u64,
            minimum_fps: min_fps(s),
            reassembly_drops: saturated(total_reassembly(s)),
            decoder_drops: saturated(total_decoder(s)),
        }
    }
}

impl<P> LiveMetricsHistory<P> {
    /// The kept samples, oldest first.
    pub closed spec fn samples_seq(&self) -> Seq<LiveMetricSample<P>> {
        self.samples@
    }

    /// The revision of the last statistics window taken in.
    pub closed spec fn last_revision(&self) -> Option<u64> {
        self.last_stats_revision
    }

    /// Number of kept samples.
    pub fn len(&self) -> (r: usize)
        ensures
            r == self.samples_seq().len(),
    {
        self.samples.len()
    }

    /// The kept sample at `index`, oldest first.
    pub fn sample(&self, index: usize) -> (r: &LiveMetricSample<P>)
        requires
            index < self.samples_seq().len(),
        ensures
            *r == self.samples_seq()[index as int],
    {
        &self.samples[index]
    }

    pub fn new() -> (r: Self)
        ensures
            r.samples_seq().len() == 0,
            r.last_revision() is None,
    {
        LiveMetricsHistory { samples: VecDeque::new(), last_stats_revision: None }
    }

    /// Drop the samples at the front that fell out of the window.
    pub fn discard_expired(&mut self, now: u64)
        ensures
            final(self).samples_seq() == drop_expired(old(self).samples_seq(), now),
            final(self).last_revision() == old(self).last_revision(),
    {
        while self.samples.len() > 0 && now >= self.samples[0].captured_at && now - self.samples[0].captured_at
            > HISTORY_WINDOW_NANOS
            invariant
                drop_expired(self.samples@, now) == drop_expired(old(self).samples_seq(), now),
                self.last_stats_revision == old(self).last_revision(),
            decreases self.samples@.len(),
        {
            let ghost before = self.samples@;
            let _ = self.samples.pop_front();
            assert(self.samples@ =~= before.drop_first());
        }
    }

    /// Keep `sample` and drop what fell out of the window.
    pub fn record(&mut self, sample: LiveMetricSample<P>, now: u64)
        ensures
            final(self).samples_seq() == drop_expired(old(self).samples_seq().push(sample), now),
            final(self).last_revision() == old(self).last_revision(),
    {
        self.samples.push_back(sample);
        self.discard_expired(now);
    }

    /// Take a statistics window into the history, once per revision: a
    /// window whose revision was the last one seen is not added again, and
    /// no window adds nothing. Expired samples leave either way.
    pub fn observe(&mut self, stats: Option<(P, u64, u64)>, stats_revision: u64, actual_fps: u32, now: u64)
        ensures
            match stats {
                Some((metrics, reassembly_drop, decoder_drop)) => if old(self).last_revision() != Some(
                    stats_revision,
                ) {
                    final(self).samples_seq() == drop_expired(
                        old(self).samples_seq().push(
                            LiveMetricSample {
                                captured_at: now,
                                actual_fps,
                                reassembly_drop,
                                decoder_drop,
                                metrics,
                            },
                        ),
                        now,
                    ) && final(self).last_revision() == Some(stats_revision)
                } else {
                    final(self).samples_seq() == drop_expired(old(self).samples_seq(), now)
                        && final(self).last_revision() == old(self).last_revision()
                },
                None => final(self).samples_seq() == drop_expired(old(self).samples_seq(), now)
                    && final(self).last_revision() == old(self).last_revision(),
            },
    {
        match stats {
            Some((metrics, reassembly_drop, decoder_drop)) => {
                let seen = match self.last_stats_revision {
                    Some(r) => r == stats_revision,
                    None => false,
                };
                if !seen {
                    self.samples.push_back(
                        LiveMetricSample { captured_at: now, actual_fps, reassembly_drop, decoder_drop, metrics },
                    );
                    self.last_stats_revision = Some(stats_revision);
                }
            },
            None => {},
        }
        self.discard_expired(now);
    }

    /// The counting part of the history summary; see [`history_counts`].
    pub fn counts(&self) -> (r: HistoryCounts)
        ensures
            r == history_counts(self.samples_seq()),
    {
        let n = self.samples.len();
        if n == 0 {
            return HistoryCounts {
                sample_count: 0,
                observed_seconds: 0,
                minimum_fps: 0,
                reassembly_drops: 0,
                decoder_drops: 0,
            };
        }
        let first = self.samples[0].captured_at;
        let last = self.samples[n - 1].captured_at;
        let span: u64 = if last >= first { last - first } else { 0 };
        let mut minimum: u32 = 0xffff_ffffu32;
        let mut reassembly: u64 = 0;
        let mut decoder: u64 = 0;
        let mut i: usize = 0;
        while i < n
            invariant
                n == self.samples@.len(),
                i <= n,
                minimum == min_fps(self.samples@.take(i as int)),
                reassembly == saturated(total_reassembly(self.samples@.take(i as int))),
                decoder == saturated(total_decoder(self.samples@.take(i as int))),
                total_reassembly(self.samples@.take(i as int)) >= 0,
                total_decoder(self.samples@.take(i as int)) >= 0,
            decreases n - i,
        {
            let s = &self.samples[i];
            assert(self.samples@.take(i + 1).drop_last() =~= self.samples@.take(i as int));
            if s.actual_fps < minimum {
                minimum = s.actual_fps;
            }
            reassembly = reassembly.saturating_add(s.reassembly_drop);
            decoder = decoder.saturating_add(s.decoder_drop);
            i = i + 1;
        }
        assert(self.samples@.take(n as int) =~= self.samples@);
        HistoryCounts {
            sample_count: n,
            observed_seconds: span / 1_000_000_000,
            minimum_fps: minimum,
            reassembly_drops: reassembly,
            decoder_drops: decoder,
        }
    }
}

/// Discarding expired samples never adds any.
pub proof fn lemma_discard_never_grows<P>(samples: Seq<LiveMetricSample<P>>, now: u64)
    ensures
        drop_expired(samples, now).len() <= samples.len(),
    decreases samples.len(),
{
    if samples.len() > 0 && expired(samples[0], now) {
        lemma_discard_never_grows(samples.drop_first(), now);
    }
}

/// After any update, the oldest kept sample is inside the window.
pub proof fn lemma_front_within_window<P>(samples: Seq<LiveMetricSample<P>>, now: u64)
    ensures
        drop_expired(samples, now).len() > 0 ==> !expired(drop_expired(samples, now)[0], now),
        exists|k: int| 0 <= k <= samples.len() && drop_expired(samples, now) == #[trigger] samples.skip(k),
    decreases samples.len(),
{
    if samples.len() > 0 && expired(samples[0], now) {
        lemma_front_within_window(samples.drop_first(), now);
        let k = choose|k: int| 0 <= k <= samples.drop_first().len() && drop_expired(samples.drop_first(), now)
            == #[trigger] samples.drop_first().skip(k);
        assert(samples.drop_first().skip(k) =~= samples.skip(k + 1));
    } else {
        assert(samples.skip(0) =~= samples);
    }
}
} // verus!
