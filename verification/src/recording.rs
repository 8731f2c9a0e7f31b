//! Recording commands and their presentation: what each menu action asks
//! the receiver for, the per-mode pending and error state, the snapshot of a
//! recording, and the captions of the recording toolbar.
use vstd::prelude::*;
use crate::text::{decimal_digits, digit_char, owned};

verus! {

/// Raw received stream, or the picture as processed for display.
#[derive(Debug, Clone, Copy, PartialEq, Eq, Structural)]
pub enum RecordingMode {
    Encoded,
    Rendered,
}

/// Lifecycle of one recording bundle.
#[derive(Debug, Clone, Copy, PartialEq, Eq, Structural)]
pub enum RecordingState {
    Arming,
    Recording,
    Complete,
    HasGaps,
    Failed,
}

#[derive(Debug, Clone, Copy, PartialEq, Eq, Structural)]
pub enum VideoCodec {
    Avc,
    Hevc,
}

/// What a start command asks the receiver to record.
#[derive(Debug, Clone, Copy, PartialEq, Eq, Structural)]
pub enum RecordingRequest {
    Encoded,
    Rendered { codec: VideoCodec, fps: u32 },
}

impl RecordingRequest {
    pub fn mode(&self) -> (r: RecordingMode)
        ensures
            r == match *self {
                RecordingRequest::Encoded => RecordingMode::Encoded,
                RecordingRequest::Rendered { .. } => RecordingMode::Rendered,
            },
    {
        match self {
            RecordingRequest::Encoded => RecordingMode::Encoded,
            RecordingRequest::Rendered { .. } => RecordingMode::Rendered,
        }
    }
}

/// Entries of the recording menu.
#[derive(Debug, Clone, Copy, PartialEq, Eq, Structural)]
pub enum RecordingAction {
    StartEncoded,
    StopEncoded,
    StartRenderedAvc30,
    StartRenderedAvc60,
    StartRenderedHevc30,
    StartRenderedHevc60,
    StopRendered,
}

impl RecordingAction {
    /// The recording a start entry asks for; stop entries ask for none.
    pub fn start_request(&self) -> (r: Option<RecordingRequest>)
        ensures
            r == action_request(*self),
            r == match *self {
                RecordingAction::StartEncoded => Some(RecordingRequest::Encoded),
                RecordingAction::StartRenderedAvc30 => Some(
                    RecordingRequest::Rendered { codec: VideoCodec::Avc, fps: 30 },
                ),
                RecordingAction::StartRenderedAvc60 => Some(
                    RecordingRequest::Rendered { codec: VideoCodec::Avc, fps: 60 },
                ),
                RecordingAction::StartRenderedHevc30 => Some(
                    RecordingRequest::Rendered { codec: VideoCodec::Hevc, fps: 30 },
                ),
                RecordingAction::StartRenderedHevc60 => Some(
                    RecordingRequest::Rendered { codec: VideoCodec::Hevc, fps: 60 },
                ),
                RecordingAction::StopEncoded | RecordingAction::StopRendered => None,
            },
    {
        match self {
            RecordingAction::StartEncoded => Some(RecordingRequest::Encoded),
            RecordingAction::StartRenderedAvc30 => Some(RecordingRequest::Rendered { codec: VideoCodec::Avc, fps: 30 }),
            RecordingAction::StartRenderedAvc60 => Some(RecordingRequest::Rendered { codec: VideoCodec::Avc, fps: 60 }),
            RecordingAction::StartRenderedHevc30 => Some(RecordingRequest::Rendered { codec: VideoCodec::Hevc, fps: 30 }),
            RecordingAction::StartRenderedHevc60 => Some(RecordingRequest::Rendered { codec: VideoCodec::Hevc, fps: 60 }),
            RecordingAction::StopEncoded | RecordingAction::StopRendered => None,
        }
    }

    /// The recording a stop entry ends; start entries end none.
    pub fn stop_mode(&self) -> (r: Option<RecordingMode>)
        ensures
            r == match *self {
                RecordingAction::StopEncoded => Some(RecordingMode::Encoded),
                RecordingAction::StopRendered => Some(RecordingMode::Rendered),
                _ => None,
            },
    {
        match self {
            RecordingAction::StopEncoded => Some(RecordingMode::Encoded),
            RecordingAction::StopRendered => Some(RecordingMode::Rendered),
            _ => None,
        }
    }
}

/// Every menu entry either starts or stops a recording, never both.
pub proof fn lemma_action_starts_or_stops(a: RecordingAction)
    ensures
        (match a {
            RecordingAction::StopEncoded | RecordingAction::StopRendered => true,
            _ => false,
        }) != (match a {
            RecordingAction::StartEncoded | RecordingAction::StartRenderedAvc30
            | RecordingAction::StartRenderedAvc60 | RecordingAction::StartRenderedHevc30
            | RecordingAction::StartRenderedHevc60 => true,
            _ => false,
        }),
{
}

/// A start or stop command waiting for the receiver's reply.
#[derive(Debug, Clone, Copy, PartialEq, Eq, Structural)]
pub enum RecordingPending {
    Starting,
    Stopping,
}

/// Per-mode pending command and last command error of the toolbar.
#[derive(Debug, Clone)]
pub struct RecordingUiState {
    pub encoded_pending: Option<RecordingPending>,
    pub rendered_pending: Option<RecordingPending>,
    pub encoded_error: Option<String>,
    pub rendered_error: Option<String>,
}

impl RecordingUiState {
    pub fn new() -> (r: Self)
        ensures
            r.encoded_pending is None,
            r.rendered_pending is None,
            r.encoded_error is None,
            r.rendered_error is None,
    {
        RecordingUiState { encoded_pending: None, rendered_pending: None, encoded_error: None, rendered_error: None }
    }

    pub open spec fn pending_of(&self, mode: RecordingMode) -> Option<RecordingPending> {
        match mode {
            RecordingMode::Encoded => self.encoded_pending,
            RecordingMode::Rendered => self.rendered_pending,
        }
    }

    pub open spec fn error_of(&self, mode: RecordingMode) -> Option<Seq<char>> {
        match mode {
            RecordingMode::Encoded => match self.encoded_error {
                Some(e) => Some(e@),
                None => None,
            },
            RecordingMode::Rendered => match self.rendered_error {
                Some(e) => Some(e@),
                None => None,
            },
        }
    }

    pub fn pending(&self, mode: RecordingMode) -> (r: Option<RecordingPending>)
        ensures
            r == self.pending_of(mode),
    {
        match mode {
            RecordingMode::Encoded => self.encoded_pending,
            RecordingMode::Rendered => self.rendered_pending,
        }
    }

    /// Set the pending command of `mode`; the other mode is untouched.
    pub fn set_pending(&mut self, mode: RecordingMode, pending: Option<RecordingPending>)
        ensures
            final(self).pending_of(mode) == pending,
            forall|m: RecordingMode| m != mode ==> #[trigger] final(self).pending_of(m) == old(self).pending_of(m),
            forall|m: RecordingMode| #[trigger] final(self).error_of(m) == old(self).error_of(m),
    {
        match mode {
            RecordingMode::Encoded => self.encoded_pending = pending,
            RecordingMode::Rendered => self.rendered_pending = pending,
        }
    }

    pub fn error(&self, mode: RecordingMode) -> (r: Option<&str>)
        ensures
            match r {
                Some(e) => self.error_of(mode) == Some(e@),
                None => self.error_of(mode) is None,
            },
    {
        match mode {
            RecordingMode::Encoded => match &self.encoded_error {
                Some(e) => Some(e.as_str()),
                None => None,
            },
            RecordingMode::Rendered => match &self.rendered_error {
                Some(e) => Some(e.as_str()),
                None => None,
            },
        }
    }

    /// Set the error of `mode`; the other mode is untouched.
    pub fn set_error(&mut self, mode: RecordingMode, error: Option<String>)
        ensures
            final(self).error_of(mode) == match error {
                Some(e) => Some(e@),
                None => None::<Seq<char>>,
            },
            forall|m: RecordingMode| m != mode ==> #[trigger] final(self).error_of(m) == old(self).error_of(m),
            forall|m: RecordingMode| #[trigger] final(self).pending_of(m) == old(self).pending_of(m),
    {
        match mode {
            RecordingMode::Encoded => self.encoded_error = error,
            RecordingMode::Rendered => self.rendered_error = error,
        }
    }
}

/// The final result of a recording.
#[derive(Debug, Clone)]
pub struct RecordingResult {
    pub state: RecordingState,
    pub path: Option<String>,
    pub error: Option<String>,
}

/// One recording mode as the UI sees it.
#[derive(Debug, Clone)]
pub struct RecordingSnapshot {
    pub available: bool,
    pub state: Option<RecordingState>,
    pub stopping: bool,
    pub stalled: bool,
    pub result: Option<RecordingResult>,
}

impl RecordingSnapshot {
    /// A mode that this platform cannot record.
    pub fn unavailable() -> (r: Self)
        ensures
            !r.available,
            r.state is None,
            !r.stopping,
            !r.stalled,
            r.result is None,
    {
        RecordingSnapshot { available: false, state: None, stopping: false, stalled: false, result: None }
    }
}

/// Both recording modes and whether the current source can be rendered.
#[derive(Debug, Clone)]
pub struct RecordingSnapshots {
    pub encoded: RecordingSnapshot,
    pub rendered: RecordingSnapshot,
    pub rendered_source_supported: bool,
}

/// What the receiver reports of one recording mode.
#[derive(Debug, Clone)]
pub struct RecordingProbe {
    pub result: Option<RecordingResult>,
    pub state: Option<RecordingState>,
    pub stopping: bool,
    pub stalled: bool,
}

pub open spec fn terminal(state: Option<RecordingState>) -> bool {
    state matches Some(s) && (s == RecordingState::Complete || s == RecordingState::HasGaps || s
        == RecordingState::Failed)
}

/// The snapshot of one mode: the final result wins over the live state; a
/// recording is still finishing while no result is published and either a
/// stop is in flight or the state is already terminal; a stall only counts
/// before the result.
pub fn capture_recording(probe: RecordingProbe) -> (r: RecordingSnapshot)
    ensures
        r.available,
        r.state == match probe.result {
            Some(res) => Some(res.state),
            None => probe.state,
        },
        r.stopping == (probe.result is None && (probe.stopping || terminal(r.state))),
        r.stalled == (probe.result is None && probe.stalled),
        r.result == probe.result,
{
    let state = match &probe.result {
        Some(res) => Some(res.state),
        None => probe.state,
    };
    let finished = match state {
        Some(RecordingState::Complete) | Some(RecordingState::HasGaps) | Some(RecordingState::Failed) => true,
        _ => false,
    };
    let no_result = probe.result.is_none();
    RecordingSnapshot {
        available: true,
        state,
        stopping: no_result && (probe.stopping || finished),
        stalled: no_result && probe.stalled,
        result: probe.result,
    }
}

impl RecordingSnapshots {
    /// Snapshots of both modes. Platforms without recording support (neither
    /// Windows nor macOS) show both modes unavailable and no rendered source.
    pub fn capture(
        platform_records: bool,
        encoded: RecordingProbe,
        rendered: RecordingProbe,
        rendered_source_supported: bool,
    ) -> (r: Self)
        ensures
            platform_records ==> r.encoded == capture_recording_spec(encoded) && r.rendered
                == capture_recording_spec(rendered) && r.rendered_source_supported == rendered_source_supported,
            !platform_records ==> !r.encoded.available && r.encoded.state is None && !r.encoded.stopping
                && !r.encoded.stalled && r.encoded.result is None && !r.rendered.available
                && r.rendered.state is None && !r.rendered.stopping && !r.rendered.stalled
                && r.rendered.result is None && !r.rendered_source_supported,
    {
        if platform_records {
            RecordingSnapshots {
                encoded: capture_recording(encoded),
                rendered: capture_recording(rendered),
                rendered_source_supported,
            }
        } else {
            RecordingSnapshots {
                encoded: RecordingSnapshot::unavailable(),
                rendered: RecordingSnapshot::unavailable(),
                rendered_source_supported: false,
            }
        }
    }
}

/// [`capture_recording`] as a function.
pub open spec fn capture_recording_spec(probe: RecordingProbe) -> RecordingSnapshot {
    let state = match probe.result {
        Some(res) => Some(res.state),
        None => probe.state,
    };
    RecordingSnapshot {
        available: true,
        state,
        stopping: probe.result is None && (probe.stopping || terminal(state)),
        stalled: probe.result is None && probe.stalled,
        result: probe.result,
    }
}

/// A recording that is arming or running and has no result yet.
pub fn active(snapshot: &RecordingSnapshot) -> (r: bool)
    ensures
        r == (snapshot.result is None && (snapshot.state == Some(RecordingState::Arming) || snapshot.state
            == Some(RecordingState::Recording))),
{
    snapshot.result.is_none() && match snapshot.state {
        Some(RecordingState::Arming) | Some(RecordingState::Recording) => true,
        _ => false,
    }
}

/// Accessible name of the recording toolbar button.
pub open spec fn toolbar_accessibility_text(any_active: bool, pending: Option<RecordingPending>, stopping: bool) -> Seq<char> {
    match pending {
        Some(RecordingPending::Starting) => "正在开始录像"@,
        Some(RecordingPending::Stopping) => "正在提交停止"@,
        None => if stopping {
            "正在结束录像"@
        } else if any_active {
            "正在录像"@
        } else {
            "录像"@
        },
    }
}

pub fn toolbar_accessibility(any_active: bool, pending: Option<RecordingPending>, stopping: bool) -> (r: &'static str)
    ensures
        r@ == toolbar_accessibility_text(any_active, pending, stopping),
{
    match pending {
        Some(RecordingPending::Starting) => return "正在开始录像",
        Some(RecordingPending::Stopping) => return "正在提交停止",
        None => {},
    }
    if stopping {
        "正在结束录像"
    } else if any_active {
        "正在录像"
    } else {
        "录像"
    }
}

/// Status caption of one mode.
pub open spec fn status_text(mode: RecordingMode, snapshot: RecordingSnapshot) -> Seq<char> {
    if snapshot.stalled && snapshot.result is None {
        "录像写入无响应"@
    } else if snapshot.stopping {
        "正在结束录像"@
    } else {
        match snapshot.state {
            None => match mode {
                RecordingMode::Encoded => "保存接收到的原始画面"@,
                RecordingMode::Rendered => "保存方向与处理效果一致的画面"@,
            },
            Some(RecordingState::Arming) => "正在准备录制"@,
            Some(RecordingState::Recording) => "正在录制"@,
            Some(RecordingState::Complete) => "录像已保存"@,
            Some(RecordingState::HasGaps) => "录像已保存，含画面缺口"@,
            Some(RecordingState::Failed) => "录像未完成"@,
        }
    }
}

pub fn status(mode: RecordingMode, snapshot: &RecordingSnapshot) -> (r: &'static str)
    ensures
        r@ == status_text(mode, *snapshot),
{
    if snapshot.stalled && snapshot.result.is_none() {
        return "录像写入无响应";
    }
    if snapshot.stopping {
        return "正在结束录像";
    }
    match snapshot.state {
        None => match mode {
            RecordingMode::Encoded => "保存接收到的原始画面",
            RecordingMode::Rendered => "保存方向与处理效果一致的画面",
        },
        Some(RecordingState::Arming) => "正在准备录制",
        Some(RecordingState::Recording) => "正在录制",
        Some(RecordingState::Complete) => "录像已保存",
        Some(RecordingState::HasGaps) => "录像已保存，含画面缺口",
        Some(RecordingState::Failed) => "录像未完成",
    }
}

/// Explanation of a stalled recording worker.
pub open spec fn stalled_detail() -> Seq<char> {
    "录制工作者超过 15 秒未推进，可能仍在等待系统写入。直播不受影响；文件结果将在写入与清理返回后更新。"@
}

/// Detail shown for one mode: the last command error, else the result's
/// error, else the stall explanation, else nothing.
pub fn recording_detail(ui: &RecordingUiState, mode: RecordingMode, recording: &RecordingSnapshot) -> (r: Option<String>)
    ensures
        match ui.error_of(mode) {
            Some(e) => r matches Some(d) && d@ == e,
            None => match recording.result {
                Some(res) if res.error is Some => r matches Some(d) && d@ == res.error->0@,
                _ => if recording.stalled {
                    r matches Some(d) && d@ == stalled_detail()
                } else {
                    r is None
                },
            },
        },
{
    if let Some(e) = ui.error(mode) {
        return Some(owned(e));
    }
    if let Some(res) = &recording.result {
        if let Some(e) = &res.error {
            return Some(e.clone());
        }
    }
    if recording.stalled {
        Some(owned("录制工作者超过 15 秒未推进，可能仍在等待系统写入。直播不受影响；文件结果将在写入与清理返回后更新。"))
    } else {
        None
    }
}

/// Tooltip of the recording toolbar button.
pub open spec fn recording_tooltip_text(
    any_active: bool,
    disconnected: bool,
    has_error: bool,
    encoded: RecordingSnapshot,
    rendered: RecordingSnapshot,
) -> Seq<char> {
    if disconnected && !any_active {
        "连接手机并准备视频后可录制"@
    } else if has_error {
        "录像操作未完成"@
    } else if encoded.stalled || encoded.stopping || encoded.state is Some {
        status_text(RecordingMode::Encoded, encoded)
    } else if rendered.stalled || rendered.stopping || rendered.state is Some {
        status_text(RecordingMode::Rendered, rendered)
    } else {
        "保存原码流或处理后画面"@
    }
}

pub fn recording_tooltip(
    any_active: bool,
    disconnected: bool,
    has_error: bool,
    encoded: &RecordingSnapshot,
    rendered: &RecordingSnapshot,
) -> (r: &'static str)
    ensures
        r@ == recording_tooltip_text(any_active, disconnected, has_error, *encoded, *rendered),
{
    if disconnected && !any_active {
        "连接手机并准备视频后可录制"
    } else if has_error {
        "录像操作未完成"
    } else if encoded.stalled || encoded.stopping || encoded.state.is_some() {
        status(RecordingMode::Encoded, encoded)
    } else if rendered.stalled || rendered.stopping || rendered.state.is_some() {
        status(RecordingMode::Rendered, rendered)
    } else {
        "保存原码流或处理后画面"
    }
}

/// The recording a user command may start: none while a command of that
/// mode is pending. Starting marks the mode pending and clears its error.
pub fn begin_recording(ui: &mut RecordingUiState, request: RecordingRequest) -> (r: bool)
    ensures
        r == old(ui).pending_of(request.mode_spec()) is None,
        r ==> final(ui).pending_of(request.mode_spec()) == Some(RecordingPending::Starting)
            && final(ui).error_of(request.mode_spec()) is None,
        r ==> forall|m: RecordingMode| m != request.mode_spec() ==> #[trigger] final(ui).pending_of(m)
            == old(ui).pending_of(m) && final(ui).error_of(m) == old(ui).error_of(m),
        !r ==> forall|m: RecordingMode| #[trigger] final(ui).pending_of(m) == old(ui).pending_of(m)
            && final(ui).error_of(m) == old(ui).error_of(m),
{
    let mode = request.mode();
    if ui.pending(mode).is_some() {
        return false;
    }
    ui.set_pending(mode, Some(RecordingPending::Starting));
    ui.set_error(mode, None);
    true
}

/// Ending a recording is refused while a command of that mode is pending;
/// otherwise the mode is marked stopping and its error cleared.
pub fn end_recording(ui: &mut RecordingUiState, mode: RecordingMode) -> (r: bool)
    ensures
        r == old(ui).pending_of(mode) is None,
        r ==> final(ui).pending_of(mode) == Some(RecordingPending::Stopping) && final(ui).error_of(mode) is None,
        r ==> forall|m: RecordingMode| m != mode ==> #[trigger] final(ui).pending_of(m) == old(ui).pending_of(m)
            && final(ui).error_of(m) == old(ui).error_of(m),
        !r ==> forall|m: RecordingMode| #[trigger] final(ui).pending_of(m) == old(ui).pending_of(m)
            && final(ui).error_of(m) == old(ui).error_of(m),
{
    if ui.pending(mode).is_some() {
        return false;
    }
    ui.set_pending(mode, Some(RecordingPending::Stopping));
    ui.set_error(mode, None);
    true
}

impl RecordingRequest {
    pub open spec fn mode_spec(&self) -> RecordingMode {
        match *self {
            RecordingRequest::Encoded => RecordingMode::Encoded,
            RecordingRequest::Rendered { .. } => RecordingMode::Rendered,
        }
    }
}

/// The reply to a start or stop command arrived: the mode is no longer
/// pending, and a failure is kept as its error behind `prefix`.
pub fn finish_command(ui: &mut RecordingUiState, mode: RecordingMode, failure: Option<&str>, prefix: &str)
    ensures
        final(ui).pending_of(mode) is None,
        final(ui).error_of(mode) == match failure {
            Some(e) => Some(prefix@ + e@),
            None => None::<Seq<char>>,
        },
        forall|m: RecordingMode| m != mode ==> #[trigger] final(ui).pending_of(m) == old(ui).pending_of(m)
            && final(ui).error_of(m) == old(ui).error_of(m),
{
    ui.set_pending(mode, None);
    let error = match failure {
        Some(e) => Some(crate::text::concat2(prefix, e)),
        None => None,
    };
    ui.set_error(mode, error);
}


impl Default for RecordingUiState {
    fn default() -> (r: Self)
        ensures
            r.encoded_pending is None,
            r.rendered_pending is None,
            r.encoded_error is None,
            r.rendered_error is None,
    {
        Self::new()
    }
}

impl Default for RecordingSnapshot {
    fn default() -> (r: Self)
        ensures
            !r.available,
            r.state is None,
            !r.stopping,
            !r.stalled,
            r.result is None,
    {
        Self::unavailable()
    }
}

/// One line of the recording menu.
#[derive(Debug, Clone)]
pub enum MenuEntry {
    /// A command; disabled entries are shown greyed out.
    Command { label: String, action: RecordingAction, enabled: bool },
    /// A caption over the entries that follow.
    Caption(String),
    Separator,
    /// Opens the detail text of a recording.
    ShowDetail { label: String, detail: String },
    /// Reveals the folder of a saved recording.
    RevealFolder { label: String, path: String },
}

/// [`MenuEntry`] with its texts as character sequences.
pub enum MenuEntrySpec {
    Command { label: Seq<char>, action: RecordingAction, enabled: bool },
    Caption(Seq<char>),
    Separator,
    ShowDetail { label: Seq<char>, detail: Seq<char> },
    RevealFolder { label: Seq<char>, path: Seq<char> },
}

pub open spec fn entry_view(e: MenuEntry) -> MenuEntrySpec {
    match e {
        MenuEntry::Command { label, action, enabled } => MenuEntrySpec::Command { label: label@, action, enabled },
        MenuEntry::Caption(c) => MenuEntrySpec::Caption(c@),
        MenuEntry::Separator => MenuEntrySpec::Separator,
        MenuEntry::ShowDetail { label, detail } => MenuEntrySpec::ShowDetail { label: label@, detail: detail@ },
        MenuEntry::RevealFolder { label, path } => MenuEntrySpec::RevealFolder { label: label@, path: path@ },
    }
}

/// The recording toolbar button and its menu.
#[derive(Debug, Clone)]
pub struct RecordingControls {
    /// Some recording is arming or running: the button shows as toggled.
    pub any_active: bool,
    pub accessibility_label: &'static str,
    pub loading: bool,
    pub disabled: bool,
    pub tooltip: &'static str,
    pub menu: Vec<MenuEntry>,
}

pub open spec fn opt_text(o: Option<String>) -> Option<Seq<char>> {
    match o {
        Some(s) => Some(s@),
        None => None,
    }
}

pub open spec fn result_path(s: RecordingSnapshot) -> Option<Seq<char>> {
    match s.result {
        Some(res) => opt_text(res.path),
        None => None,
    }
}

/// Detail text of one mode; see [`recording_detail`].
pub open spec fn detail_text(ui: RecordingUiState, mode: RecordingMode, s: RecordingSnapshot) -> Option<Seq<char>> {
    match ui.error_of(mode) {
        Some(e) => Some(e),
        None => match s.result {
            Some(res) if res.error is Some => Some(res.error->0@),
            _ => if s.stalled {
                Some(stalled_detail())
            } else {
                None
            },
        },
    }
}

pub open spec fn active_spec(s: RecordingSnapshot) -> bool {
    s.result is None && (s.state == Some(RecordingState::Arming) || s.state == Some(RecordingState::Recording))
}

/// The detail and folder entries of one mode, behind a separator.
pub open spec fn result_entries(kind: Seq<char>, reveal: Option<Seq<char>>, detail: Option<Seq<char>>) -> Seq<MenuEntrySpec> {
    (if reveal is Some || detail is Some {
        seq![MenuEntrySpec::Separator]
    } else {
        Seq::empty()
    }) + (match detail {
        Some(d) => seq![MenuEntrySpec::ShowDetail { label: "查看"@ + kind + "原因"@, detail: d }],
        None => Seq::empty(),
    }) + (match reveal {
        Some(p) => seq![MenuEntrySpec::RevealFolder { label: "打开"@ + kind + "文件夹"@, path: p }],
        None => Seq::empty(),
    })
}

/// The raw-stream entry: stop while a recording runs or finishes, else start.
pub open spec fn encoded_entries(enc: RecordingSnapshot, ui: RecordingUiState, stream_connected: bool) -> Seq<MenuEntrySpec> {
    let encoded_busy = ui.pending_of(RecordingMode::Encoded) is Some || enc.stopping;
    if enc.available {
        if active_spec(enc) || enc.stopping {
            seq![MenuEntrySpec::Command { label: "停止原码流录像"@, action: RecordingAction::StopEncoded, enabled: active_spec(enc) && !encoded_busy }]
        } else {
            seq![MenuEntrySpec::Command { label: "原码流录像"@, action: RecordingAction::StartEncoded, enabled: stream_connected && !encoded_busy }]
        }
    } else {
        Seq::empty()
    }
}

/// The processed-recording entries: stop while one runs or finishes, else
/// the codec and frame-rate starts, each needing a supported, connected
/// source whose frame rate is at least as high.
pub open spec fn rendered_entries(
    recordings: RecordingSnapshots,
    ui: RecordingUiState,
    stream_connected: bool,
    source_fps: u32,
) -> Seq<MenuEntrySpec> {
    let enc = recordings.encoded;
    let ren = recordings.rendered;
    let rendered_busy = ui.pending_of(RecordingMode::Rendered) is Some || ren.stopping;
    let ok = stream_connected && recordings.rendered_source_supported && !rendered_busy;
    if ren.available {
        (if enc.available {
            seq![MenuEntrySpec::Separator]
        } else {
            Seq::empty()
        }) + if active_spec(ren) || ren.stopping {
            seq![MenuEntrySpec::Command { label: "停止处理后录像"@, action: RecordingAction::StopRendered, enabled: active_spec(ren) && !rendered_busy }]
        } else {
            seq![
                MenuEntrySpec::Caption("处理后录像"@),
                MenuEntrySpec::Command { label: "H.264 · 30 fps"@, action: RecordingAction::StartRenderedAvc30, enabled: ok && source_fps >= 30 },
                MenuEntrySpec::Command { label: "H.264 · 60 fps"@, action: RecordingAction::StartRenderedAvc60, enabled: ok && source_fps >= 60 },
                MenuEntrySpec::Separator,
                MenuEntrySpec::Command { label: "HEVC · 30 fps"@, action: RecordingAction::StartRenderedHevc30, enabled: ok && source_fps >= 30 },
                MenuEntrySpec::Command { label: "HEVC · 60 fps"@, action: RecordingAction::StartRenderedHevc60, enabled: ok && source_fps >= 60 },
            ]
        }
    } else {
        Seq::empty()
    }
}

/// The recording menu: the raw-stream entry, the processed-recording
/// entries, then the detail and folder entries of each mode.
pub open spec fn recording_menu(
    recordings: RecordingSnapshots,
    ui: RecordingUiState,
    stream_connected: bool,
    source_fps: u32,
) -> Seq<MenuEntrySpec> {
    encoded_entries(recordings.encoded, ui, stream_connected) + rendered_entries(
        recordings,
        ui,
        stream_connected,
        source_fps,
    ) + result_entries("原码流"@, result_path(recordings.encoded), detail_text(ui, RecordingMode::Encoded, recordings.encoded))
        + result_entries("处理后"@, result_path(recordings.rendered), detail_text(ui, RecordingMode::Rendered, recordings.rendered))
}

pub open spec fn menu_view(menu: Seq<MenuEntry>) -> Seq<MenuEntrySpec> {
    menu.map_values(|e: MenuEntry| entry_view(e))
}

fn push_encoded_entries(menu: &mut Vec<MenuEntry>, enc: &RecordingSnapshot, ui: &RecordingUiState, stream_connected: bool)
    ensures
        menu_view(final(menu)@) == menu_view(old(menu)@) + encoded_entries(*enc, *ui, stream_connected),
{
    let ghost start = menu_view(menu@);
    if enc.available {
        let active_now = active(enc);
        let busy = ui.pending(RecordingMode::Encoded).is_some() || enc.stopping;
        if active_now || enc.stopping {
            menu.push(command("停止原码流录像", RecordingAction::StopEncoded, active_now && !busy));
        } else {
            menu.push(command("原码流录像", RecordingAction::StartEncoded, stream_connected && !busy));
        }
    }
    assert(menu_view(menu@) =~= start + encoded_entries(*enc, *ui, stream_connected));
}

fn push_rendered_entries(
    menu: &mut Vec<MenuEntry>,
    recordings: &RecordingSnapshots,
    ui: &RecordingUiState,
    stream_connected: bool,
    source_fps: u32,
)
    ensures
        menu_view(final(menu)@) == menu_view(old(menu)@) + rendered_entries(*recordings, *ui, stream_connected, source_fps),
{
    let ghost start = menu_view(menu@);
    let ren = &recordings.rendered;
    if !ren.available {
        assert(menu_view(menu@) =~= start + rendered_entries(*recordings, *ui, stream_connected, source_fps));
        return;
    }
    let ghost sep: Seq<MenuEntrySpec> = if recordings.encoded.available {
        seq![MenuEntrySpec::Separator]
    } else {
        Seq::empty()
    };
    if recordings.encoded.available {
        menu.push(MenuEntry::Separator);
    }
    assert(menu_view(menu@) =~= start + sep);
    let ghost mid = menu_view(menu@);
    let active_now = active(ren);
    let busy = ui.pending(RecordingMode::Rendered).is_some() || ren.stopping;
    if active_now || ren.stopping {
        menu.push(command("停止处理后录像", RecordingAction::StopRendered, active_now && !busy));
    } else {
        let ok = stream_connected && recordings.rendered_source_supported && !busy;
        menu.push(MenuEntry::Caption(owned("处理后录像")));
        menu.push(command("H.264 · 30 fps", RecordingAction::StartRenderedAvc30, ok && source_fps >= 30));
        menu.push(command("H.264 · 60 fps", RecordingAction::StartRenderedAvc60, ok && source_fps >= 60));
        menu.push(MenuEntry::Separator);
        menu.push(command("HEVC · 30 fps", RecordingAction::StartRenderedHevc30, ok && source_fps >= 30));
        menu.push(command("HEVC · 60 fps", RecordingAction::StartRenderedHevc60, ok && source_fps >= 60));
    }
    assert(menu_view(menu@) =~= start + rendered_entries(*recordings, *ui, stream_connected, source_fps));
}

fn command(label: &str, action: RecordingAction, enabled: bool) -> (r: MenuEntry)
    ensures
        entry_view(r) == (MenuEntrySpec::Command { label: label@, action, enabled }),
{
    MenuEntry::Command { label: owned(label), action, enabled }
}

fn push_result_entries(menu: &mut Vec<MenuEntry>, kind: &str, reveal: Option<String>, detail: Option<String>)
    ensures
        menu_view(final(menu)@) == menu_view(old(menu)@) + result_entries(kind@, opt_text(reveal), opt_text(detail)),
{
    let ghost start = menu_view(menu@);
    let ghost sep: Seq<MenuEntrySpec> = if reveal is Some || detail is Some {
        seq![MenuEntrySpec::Separator]
    } else {
        Seq::empty()
    };
    if reveal.is_some() || detail.is_some() {
        menu.push(MenuEntry::Separator);
    }
    assert(menu_view(menu@) =~= start + sep);
    let ghost mid = menu_view(menu@);
    let ghost det: Seq<MenuEntrySpec> = match opt_text(detail) {
        Some(d) => seq![MenuEntrySpec::ShowDetail { label: "查看"@ + kind@ + "原因"@, detail: d }],
        None => Seq::empty(),
    };
    match detail {
        Some(d) => {
            let label = crate::text::concat3("查看", kind, "原因");
            menu.push(MenuEntry::ShowDetail { label, detail: d });
        },
        None => {},
    }
    assert(menu_view(menu@) =~= mid + det);
    let ghost mid2 = menu_view(menu@);
    let ghost rev: Seq<MenuEntrySpec> = match opt_text(reveal) {
        Some(p) => seq![MenuEntrySpec::RevealFolder { label: "打开"@ + kind@ + "文件夹"@, path: p }],
        None => Seq::empty(),
    };
    match reveal {
        Some(p) => {
            let label = crate::text::concat3("打开", kind, "文件夹");
            menu.push(MenuEntry::RevealFolder { label, path: p });
        },
        None => {},
    }
    assert(menu_view(menu@) =~= mid2 + rev);
    assert(start + sep + det + rev =~= start + result_entries(kind@, opt_text(reveal), opt_text(detail)));
}

fn copy_path(s: &RecordingSnapshot) -> (r: Option<String>)
    ensures
        opt_text(r) == result_path(*s),
{
    match &s.result {
        Some(res) => match &res.path {
            Some(p) => Some(p.clone()),
            None => None,
        },
        None => None,
    }
}

/// The recording toolbar of the live page, or nothing when neither mode can
/// record here. The button is busy while a command is pending, disabled
/// while a command is pending, while a recording finishes with none active,
/// or when nothing is connected and nothing records.
pub fn recording_controls(
    recordings: &RecordingSnapshots,
    ui: &RecordingUiState,
    stream_connected: bool,
    source_fps: u32,
) -> (r: Option<RecordingControls>)
    ensures
        !recordings.encoded.available && !recordings.rendered.available ==> r is None,
        recordings.encoded.available || recordings.rendered.available ==> (r matches Some(c) && {
            let any_active = active_spec(recordings.encoded) || active_spec(recordings.rendered);
            let pending = match ui.pending_of(RecordingMode::Encoded) {
                Some(p) => Some(p),
                None => ui.pending_of(RecordingMode::Rendered),
            };
            let stopping = recordings.encoded.stopping || recordings.rendered.stopping;
            let has_detail = detail_text(*ui, RecordingMode::Encoded, recordings.encoded) is Some || detail_text(
                *ui,
                RecordingMode::Rendered,
                recordings.rendered,
            ) is Some;
            &&& c.any_active == any_active
            &&& c.accessibility_label@ == toolbar_accessibility_text(any_active, pending, stopping)
            &&& c.loading == pending is Some
            &&& c.disabled == (pending is Some || (stopping && !any_active) || (!any_active && !stream_connected))
            &&& c.tooltip@ == recording_tooltip_text(
                any_active,
                !stream_connected,
                has_detail,
                recordings.encoded,
                recordings.rendered,
            )
            &&& menu_view(c.menu@) == recording_menu(
                *recordings,
                *ui,
                stream_connected,
                source_fps,
            )
        }),
{
    let enc = &recordings.encoded;
    let ren = &recordings.rendered;
    if !enc.available && !ren.available {
        return None;
    }
    let encoded_active = active(enc);
    let rendered_active = active(ren);
    let any_active = encoded_active || rendered_active;
    let encoded_pending = ui.pending(RecordingMode::Encoded);
    let rendered_pending = ui.pending(RecordingMode::Rendered);
    let pending = match encoded_pending {
        Some(p) => Some(p),
        None => rendered_pending,
    };
    let stopping = enc.stopping || ren.stopping;
    let disconnected = !stream_connected;
    let encoded_detail = recording_detail(ui, RecordingMode::Encoded, enc);
    let rendered_detail = recording_detail(ui, RecordingMode::Rendered, ren);
    let has_detail = encoded_detail.is_some() || rendered_detail.is_some();
    let ghost target = recording_menu(*recordings, *ui, stream_connected, source_fps);
    let mut menu: Vec<MenuEntry> = Vec::new();
    push_encoded_entries(&mut menu, enc, ui, stream_connected);
    push_rendered_entries(&mut menu, recordings, ui, stream_connected, source_fps);
    push_result_entries(&mut menu, "原码流", copy_path(enc), encoded_detail);
    push_result_entries(&mut menu, "处理后", copy_path(ren), rendered_detail);
    proof {
        reveal_strlit("原码流");
        reveal_strlit("处理后");
        assert(menu_view(menu@) =~= target);
    }
    Some(
        RecordingControls {
            any_active,
            accessibility_label: toolbar_accessibility(any_active, pending, stopping),
            loading: pending.is_some(),
            disabled: pending.is_some() || (stopping && !any_active) || (!any_active && disconnected),
            tooltip: recording_tooltip(any_active, disconnected, has_detail, enc, ren),
            menu,
        },
    )
}
/// The recording a menu action asks for.
pub open spec fn action_request(a: RecordingAction) -> Option<RecordingRequest> {
    match a {
        RecordingAction::StartEncoded => Some(RecordingRequest::Encoded),
        RecordingAction::StartRenderedAvc30 => Some(RecordingRequest::Rendered { codec: VideoCodec::Avc, fps: 30 }),
        RecordingAction::StartRenderedAvc60 => Some(RecordingRequest::Rendered { codec: VideoCodec::Avc, fps: 60 }),
        RecordingAction::StartRenderedHevc30 => Some(RecordingRequest::Rendered { codec: VideoCodec::Hevc, fps: 30 }),
        RecordingAction::StartRenderedHevc60 => Some(RecordingRequest::Rendered { codec: VideoCodec::Hevc, fps: 60 }),
        RecordingAction::StopEncoded | RecordingAction::StopRendered => None,
    }
}

/// The frame rate of the processed recording an action asks for.
pub open spec fn rendered_fps(a: RecordingAction) -> Option<u32> {
    match action_request(a) {
        Some(RecordingRequest::Rendered { fps, .. }) => Some(fps),
        _ => None,
    }
}

/// The name a codec goes by in the menu.
pub open spec fn codec_name(c: VideoCodec) -> Seq<char> {
    match c {
        VideoCodec::Avc => "H.264"@,
        VideoCodec::Hevc => "HEVC"@,
    }
}

/// The label of a menu command, from what it does: a processed recording
/// is named by its codec and frame rate (`<codec> · <fps> fps`).
pub open spec fn action_label(a: RecordingAction) -> Seq<char> {
    match action_request(a) {
        Some(RecordingRequest::Rendered { codec, fps }) => codec_name(codec) + " · "@ + decimal_digits(fps as nat)
            + " fps"@,
        Some(RecordingRequest::Encoded) => "原码流录像"@,
        None => if a == RecordingAction::StopEncoded {
            "停止原码流录像"@
        } else {
            "停止处理后录像"@
        },
    }
}

/// Every command of a menu says what it does, and a processed recording is
/// offered only for a connected source at least as fast as its frame rate.
pub open spec fn commands_agree(m: Seq<MenuEntrySpec>, stream_connected: bool, source_fps: u32) -> bool {
    forall|i: int|
        0 <= i < m.len() ==> match #[trigger] m[i] {
            MenuEntrySpec::Command { label, action, enabled } => label == action_label(action) && (enabled && rendered_fps(action) is Some
                ==> stream_connected && source_fps >= rendered_fps(action)->0),
            _ => true,
        }
}

proof fn lemma_commands_agree_concat(a: Seq<MenuEntrySpec>, b: Seq<MenuEntrySpec>, c: bool, f: u32)
    requires
        commands_agree(a, c, f),
        commands_agree(b, c, f),
    ensures
        commands_agree(a + b, c, f),
{
    assert forall|i: int| 0 <= i < (a + b).len() implies match #[trigger] (a + b)[i] {
        MenuEntrySpec::Command { label, action, enabled } => label == action_label(action) && (enabled && rendered_fps(action) is Some
            ==> c && f >= rendered_fps(action)->0),
        _ => true,
    } by {
        if i < a.len() {
            assert((a + b)[i] == a[i]);
        } else {
            assert((a + b)[i] == b[i - a.len()]);
        }
    }
}

proof fn lemma_fps_digits()
    ensures
        decimal_digits(30) == "30"@,
        decimal_digits(60) == "60"@,
{
    reveal_strlit("30");
    reveal_strlit("60");
    reveal_with_fuel(decimal_digits, 2);
    assert(decimal_digits(3) == seq![digit_char(3)]);
    assert(decimal_digits(6) == seq![digit_char(6)]);
    assert(decimal_digits(30) =~= "30"@);
    assert(decimal_digits(60) =~= "60"@);
}

/// Every command of the recording menu is labelled by what it does (a
/// processed recording by its codec and frame rate), and a processed
/// recording is enabled only for a connected source whose frame rate is at
/// least the recording's.
pub proof fn lemma_menu_labels_match_actions(
    recordings: RecordingSnapshots,
    ui: RecordingUiState,
    stream_connected: bool,
    source_fps: u32,
)
    ensures
        commands_agree(recording_menu(recordings, ui, stream_connected, source_fps), stream_connected, source_fps),
{
    lemma_fps_digits();
    reveal_strlit("30");
    reveal_strlit("60");
    reveal_strlit("H.264");
    reveal_strlit("HEVC");
    reveal_strlit(" · ");
    reveal_strlit(" fps");
    reveal_strlit("H.264 · 30 fps");
    reveal_strlit("H.264 · 60 fps");
    reveal_strlit("HEVC · 30 fps");
    reveal_strlit("HEVC · 60 fps");
    assert("H.264 · 30 fps"@ =~= "H.264"@ + " · "@ + "30"@ + " fps"@);
    assert("H.264 · 60 fps"@ =~= "H.264"@ + " · "@ + "60"@ + " fps"@);
    assert("HEVC · 30 fps"@ =~= "HEVC"@ + " · "@ + "30"@ + " fps"@);
    assert("HEVC · 60 fps"@ =~= "HEVC"@ + " · "@ + "60"@ + " fps"@);
    let enc = encoded_entries(recordings.encoded, ui, stream_connected);
    let ren = rendered_entries(recordings, ui, stream_connected, source_fps);
    let r1 = result_entries("原码流"@, result_path(recordings.encoded), detail_text(ui, RecordingMode::Encoded, recordings.encoded));
    let r2 = result_entries("处理后"@, result_path(recordings.rendered), detail_text(ui, RecordingMode::Rendered, recordings.rendered));
    assert(commands_agree(enc, stream_connected, source_fps));
    assert(commands_agree(ren, stream_connected, source_fps));
    assert(commands_agree(r1, stream_connected, source_fps));
    assert(commands_agree(r2, stream_connected, source_fps));
    lemma_commands_agree_concat(enc, ren, stream_connected, source_fps);
    lemma_commands_agree_concat(enc + ren, r1, stream_connected, source_fps);
    lemma_commands_agree_concat(enc + ren + r1, r2, stream_connected, source_fps);
}

} // verus!
