//! Bounded desktop preview preparation: the submission cadence, the
//! capacity-one hand-off between the UI and the preparation worker, and the
//! surface that only ever shows newer prepared frames.
use vstd::prelude::*;

verus! {

/// Widest preview surface that is ever prepared.
pub const PREVIEW_MAX_DETAIL_WIDTH: u32 = 1920;

/// Target interval between preview submissions, in nanoseconds (60 Hz).
pub const PREVIEW_TARGET_FRAME_INTERVAL_NANOS: u64 = 16_666_667;

/// `a + b` when it fits in a `u64` (`Instant::checked_add`).
pub open spec fn checked_sum(a: u64, b: u64) -> Option<u64> {
    if a + b <= u64::MAX {
        Some((a + b) as u64)
    } else {
        None
    }
}

/// Paces preview submissions; times are nanoseconds on a monotonic clock.
#[derive(Debug, Clone, Copy)]
pub struct PreviewCadence {
    pub interval: u64,
    pub next_deadline: Option<u64>,
}

/// One poll of the cadence at `now`: whether a submission is due, and the
/// cadence afterwards. The first poll is always due. A poll before the
/// deadline is not. A due poll keeps the phase after ordinary jitter and
/// starts a fresh interval after a missed period, so a hidden stretch is
/// never replayed as a burst.
pub open spec fn cadence_step(c: PreviewCadence, now: u64) -> (bool, PreviewCadence) {
    match c.next_deadline {
        None => (true, PreviewCadence { next_deadline: checked_sum(now, c.interval), ..c }),
        Some(deadline) => if now < deadline {
            (false, c)
        } else if now - deadline >= c.interval {
            (true, PreviewCadence { next_deadline: checked_sum(now, c.interval), ..c })
        } else {
            (true, PreviewCadence { next_deadline: checked_sum(deadline, c.interval), ..c })
        },
    }
}

impl PreviewCadence {
    pub fn new(interval: u64) -> (r: Self)
        ensures
            r.interval == interval,
            r.next_deadline is None,
    {
        PreviewCadence { interval, next_deadline: None }
    }

    /// Whether a submission is due at `now`; see [`cadence_step`]. The first
    /// poll adds the interval to `now` unchecked, so it must fit.
    pub fn take_due(&mut self, now: u64) -> (r: bool)
        requires
            old(self).next_deadline is None ==> now + old(self).interval <= u64::MAX,
        ensures
            (r, *final(self)) == cadence_step(*old(self), now),
    {
        match self.next_deadline {
            None => {
                self.next_deadline = Some(now + self.interval);
                true
            },
            Some(deadline) => {
                if now < deadline {
                    return false;
                }
                self.next_deadline = if now - deadline >= self.interval {
                    now.checked_add(self.interval)
                } else {
                    deadline.checked_add(self.interval)
                };
                true
            },
        }
    }
}

/// After a due poll, the next deadline lies after `now` and at most one
/// interval ahead of it, and it is at least one interval past the previous
/// deadline: due polls never come in bursts.
pub proof fn lemma_due_polls_are_spaced(c: PreviewCadence, now: u64)
    requires
        c.interval > 0,
        cadence_step(c, now).0,
        cadence_step(c, now).1.next_deadline is Some,
    ensures
        now < cadence_step(c, now).1.next_deadline->0 <= now + c.interval,
        c.next_deadline matches Some(d) ==> d + c.interval <= cadence_step(c, now).1.next_deadline->0,
{
}

/// Polls of the cadence at the times `polls`, in order, from `c`: how many
/// were due, and the cadence afterwards.
pub open spec fn run_cadence(c: PreviewCadence, polls: Seq<u64>) -> (nat, PreviewCadence)
    decreases polls.len(),
{
    if polls.len() == 0 {
        (0, c)
    } else {
        let (n, before) = run_cadence(c, polls.drop_last());
        let (due, after) = cadence_step(before, polls.last());
        (if due { n + 1 } else { n }, after)
    }
}

/// Polls in time order, each at most one interval after the previous one.
pub open spec fn steady_polls(polls: Seq<u64>, interval: u64) -> bool {
    forall|i: int| 0 <= i < polls.len() - 1 ==> #[trigger] polls[i] <= polls[i + 1] <= polls[i] + interval
}

/// A fresh cadence polled steadily, never slower than its interval, keeps
/// its phase: after `n` due polls the deadline is `n` intervals after the
/// first poll, and the last poll lies in the `n`-th interval. So the number
/// of due polls over a run of length `T` is `T / interval + 1`: at the
/// 60 Hz interval, one per frame whatever the polling period.
pub proof fn lemma_steady_polling_keeps_rate(interval: u64, polls: Seq<u64>)
    requires
        interval > 0,
        polls.len() > 0,
        steady_polls(polls, interval),
        polls.last() + interval <= u64::MAX,
    ensures
        ({
            let (n, c) = run_cadence(PreviewCadence { interval, next_deadline: None }, polls);
            &&& n >= 1
            &&& c.interval == interval
            &&& c.next_deadline == Some((polls[0] + n * interval) as u64)
            &&& polls[0] + (n - 1) * interval <= polls.last() < polls[0] + n * interval
        }),
    decreases polls.len(),
{
    let c0 = PreviewCadence { interval, next_deadline: None };
    if polls.len() == 1 {
        assert(polls.drop_last() =~= Seq::<u64>::empty());
        assert(run_cadence(c0, polls.drop_last()) == (0nat, c0));
        assert(1 * interval == interval);
        assert(0 * interval == 0);
    } else {
        let init = polls.drop_last();
        assert forall|i: int| 0 <= i < init.len() - 1 implies #[trigger] init[i] <= init[i + 1] <= init[i]
            + interval by {
            assert(polls[i] <= polls[i + 1] <= polls[i] + interval);
        }
        assert(init.last() <= polls.last()) by {
            assert(polls[polls.len() - 2] <= polls[polls.len() - 1]);
        }
        lemma_steady_polling_keeps_rate(interval, init);
        let (n, c) = run_cadence(c0, init);
        let q = polls.last();
        let p = init.last();
        assert(p <= q <= p + interval) by {
            assert(polls[polls.len() - 2] <= polls[polls.len() - 1] <= polls[polls.len() - 2] + interval);
        }
        assert(init[0] == polls[0]);
        let d = polls[0] + n * interval;
        assert((n + 1) * interval == n * interval + interval) by (nonlinear_arith);
        assert((n - 1) * interval == n * interval - interval) by (nonlinear_arith);
        if q >= d {
            assert(q - d < interval);
        }
    }
}

/// A request to prepare one frame at a target width.
#[derive(Debug)]
pub struct PreviewRequest<F> {
    pub sequence: u64,
    pub generation: u64,
    pub frame: F,
    pub target_width: u32,
}

/// A prepared surface and the sequence of the request it came from.
#[derive(Debug)]
pub struct PreparedPreview<S> {
    pub sequence: u64,
    pub surface: S,
}

/// The state shared with the preparation worker: one pending request and one
/// completed preview at most.
#[derive(Debug)]
pub struct WorkerState<F, S> {
    pub generation: u64,
    pub pending: Option<PreviewRequest<F>>,
    pub completed: Option<PreparedPreview<S>>,
    pub stopped: bool,
}

/// The completed slot after publishing `p`: only a newer sequence replaces it.
pub open spec fn published<S>(completed: Option<PreparedPreview<S>>, p: PreparedPreview<S>) -> Option<PreparedPreview<S>> {
    match completed {
        None => Some(p),
        Some(c) => if p.sequence > c.sequence {
            Some(p)
        } else {
            completed
        },
    }
}

impl<F, S> WorkerState<F, S> {
    pub fn new() -> (r: Self)
        ensures
            r.generation == 0,
            r.pending is None,
            r.completed is None,
            !r.stopped,
    {
        WorkerState { generation: 0, pending: None, completed: None, stopped: false }
    }

    /// Replace any not-yet-started request with `request`.
    pub fn enqueue_latest(&mut self, request: PreviewRequest<F>)
        ensures
            final(self).pending == Some(request),
            final(self).generation == old(self).generation,
            final(self).completed == old(self).completed,
            final(self).stopped == old(self).stopped,
    {
        self.pending = Some(request);
    }

    /// Keep `preview` unless the completed slot already holds a newer one.
    pub fn publish_latest(&mut self, preview: PreparedPreview<S>)
        ensures
            final(self).completed == published(old(self).completed, preview),
            final(self).generation == old(self).generation,
            final(self).pending == old(self).pending,
            final(self).stopped == old(self).stopped,
    {
        let newer = match &self.completed {
            None => true,
            Some(completed) => preview.sequence > completed.sequence,
        };
        if newer {
            self.completed = Some(preview);
        }
    }

    /// The worker's next request: none once stopped, else the pending one,
    /// which leaves the slot.
    pub fn take_pending(&mut self) -> (r: Option<PreviewRequest<F>>)
        ensures
            old(self).stopped ==> r is None && *final(self) == *old(self),
            !old(self).stopped ==> r == old(self).pending && final(self).pending is None
                && final(self).generation == old(self).generation && final(self).completed == old(
                self,
            ).completed && !final(self).stopped,
    {
        if self.stopped {
            return None;
        }
        self.pending.take()
    }

    /// The worker finished a request of `generation`: a result of the current
    /// generation is published, one of a cleared generation is dropped.
    /// Returns whether the worker keeps running.
    pub fn complete(&mut self, generation: u64, prepared: Option<PreparedPreview<S>>) -> (r: bool)
        ensures
            r == !old(self).stopped,
            final(self).generation == old(self).generation,
            final(self).pending == old(self).pending,
            final(self).stopped == old(self).stopped,
            final(self).completed == if !old(self).stopped && generation == old(self).generation
                && prepared is Some {
                published(old(self).completed, prepared->0)
            } else {
                old(self).completed
            },
    {
        if self.stopped {
            return false;
        }
        if self.generation != generation {
            return true;
        }
        if let Some(p) = prepared {
            self.publish_latest(p);
        }
        true
    }

    /// Stop the worker.
    pub fn stop(&mut self)
        ensures
            final(self).stopped,
            final(self).generation == old(self).generation,
            final(self).pending == old(self).pending,
            final(self).completed == old(self).completed,
    {
        self.stopped = true;
    }
}

/// Largest even width in `[2, PREVIEW_MAX_DETAIL_WIDTH]` not above the
/// ceiled physical viewport width (values below 2 give 2).
pub open spec fn target_width(ceiled: u32) -> u32 {
    let clamped: u32 = if ceiled < 2 {
        2
    } else if ceiled > PREVIEW_MAX_DETAIL_WIDTH {
        PREVIEW_MAX_DETAIL_WIDTH
    } else {
        ceiled
    };
    (clamped - clamped % 2) as u32
}

/// The latest preview viewport reported by the UI, in physical pixels
/// rounded up, and whether a frame was asked for since the worker last took
/// the demand.
#[derive(Debug, Clone, Copy, PartialEq, Eq, Structural)]
pub struct PreviewViewportTracker {
    pub width: u32,
    pub height: u32,
    pub pending: bool,
}

/// Taking the demand: the width when a frame was asked for on a non-empty
/// viewport, and the demand is cleared either way.
pub open spec fn take_demand(v: PreviewViewportTracker) -> (Option<u32>, PreviewViewportTracker) {
    let taken = PreviewViewportTracker { pending: false, ..v };
    if v.pending && v.width > 0 && v.height > 0 {
        (Some(v.width), taken)
    } else {
        (None, taken)
    }
}

impl PreviewViewportTracker {
    /// No viewport yet and no demand.
    pub fn new() -> (r: Self)
        ensures
            r.width == 0 && r.height == 0 && !r.pending,
    {
        PreviewViewportTracker { width: 0, height: 0, pending: false }
    }

    /// The UI asks for a frame for a viewport of this size.
    pub fn request_frame(&mut self, width: u32, height: u32)
        ensures
            *final(self) == (PreviewViewportTracker { width, height, pending: true }),
    {
        *self = PreviewViewportTracker { width, height, pending: true };
    }

    /// The worker takes the demand: the viewport width once per request.
    pub fn take_target_physical_width(&mut self) -> (r: Option<u32>)
        ensures
            (r, *final(self)) == take_demand(*old(self)),
    {
        let pending = self.pending;
        self.pending = false;
        if !pending || self.width == 0 || self.height == 0 {
            None
        } else {
            Some(self.width)
        }
    }
}

impl Default for PreviewViewportTracker {
    fn default() -> (r: Self)
        ensures
            r.width == 0 && r.height == 0 && !r.pending,
    {
        Self::new()
    }
}

/// A request for a frame is taken once: a second take without a new request
/// finds nothing, and a new request is taken again.
pub proof fn lemma_demand_taken_once(v: PreviewViewportTracker, width: u32, height: u32)
    ensures
        take_demand(take_demand(v).1).0 is None,
        width > 0 && height > 0 ==> take_demand(
            PreviewViewportTracker { width, height, pending: true },
        ).0 == Some(width),
{
}

/// Preview width for a physical viewport width already rounded up to whole
/// pixels: clamped to `[2, 1920]` and made even.
pub fn target_width_for_viewport_width(ceiled: u32) -> (r: u32)
    ensures
        r == target_width(ceiled),
        r % 2 == 0,
        2 <= r <= PREVIEW_MAX_DETAIL_WIDTH,
{
    let clamped: u32 = if ceiled < 2 {
        2
    } else if ceiled > PREVIEW_MAX_DETAIL_WIDTH {
        PREVIEW_MAX_DETAIL_WIDTH
    } else {
        ceiled
    };
    clamped - clamped % 2
}

/// The UI side of the preview pipeline: what was submitted last, the
/// cadence and the target width. The frame handle is identified by a key
/// (equal keys are the same shared frame).
#[derive(Debug)]
pub struct PreviewPipeline {
    pub last_submitted_sequence: u64,
    pub last_submitted_frame: Option<u64>,
    pub last_submitted_width: u32,
    pub cadence: PreviewCadence,
    pub target_width: u32,
}

impl PreviewPipeline {
    pub fn new() -> (r: Self)
        ensures
            r.last_submitted_sequence == 0,
            r.last_submitted_frame is None,
            r.last_submitted_width == 0,
            r.cadence.interval == PREVIEW_TARGET_FRAME_INTERVAL_NANOS,
            r.cadence.next_deadline is None,
            r.target_width == PREVIEW_MAX_DETAIL_WIDTH,
    {
        PreviewPipeline {
            last_submitted_sequence: 0,
            last_submitted_frame: None,
            last_submitted_width: 0,
            cadence: PreviewCadence::new(PREVIEW_TARGET_FRAME_INTERVAL_NANOS),
            target_width: PREVIEW_MAX_DETAIL_WIDTH,
        }
    }

    /// Bound the prepared width by the ceiled physical viewport width.
    pub fn set_viewport_physical_width(&mut self, ceiled: u32)
        ensures
            final(self).target_width == target_width(ceiled),
            final(self).last_submitted_sequence == old(self).last_submitted_sequence,
            final(self).last_submitted_frame == old(self).last_submitted_frame,
            final(self).last_submitted_width == old(self).last_submitted_width,
            final(self).cadence == old(self).cadence,
    {
        self.target_width = target_width_for_viewport_width(ceiled);
    }

    /// Submit the newest frame at `now`. The same frame at the same width is
    /// not submitted again; otherwise a submission waits for the cadence, and
    /// is refused once the sequence counter is exhausted. A submitted request
    /// carries the next sequence, the worker's generation and the target
    /// width, and replaces any request the worker has not started.
    pub fn submit_latest<F, S>(&mut self, worker: &mut WorkerState<F, S>, frame_key: u64, frame: F, now: u64) -> (r: bool)
        requires
            old(self).cadence.next_deadline is None ==> now + old(self).cadence.interval <= u64::MAX,
        ensures
            old(self).last_submitted_frame == Some(frame_key) && old(self).last_submitted_width
                == old(self).target_width ==> !r && *final(self) == *old(self) && *final(worker) == *old(worker),
            !(old(self).last_submitted_frame == Some(frame_key) && old(self).last_submitted_width
                == old(self).target_width) ==> {
                let (due, cadence) = cadence_step(old(self).cadence, now);
                &&& final(self).cadence == cadence
                &&& final(self).target_width == old(self).target_width
                &&& r == (due && old(self).last_submitted_sequence < u64::MAX)
                &&& r ==> final(self).last_submitted_sequence == old(self).last_submitted_sequence + 1
                    && final(self).last_submitted_frame == Some(frame_key)
                    && final(self).last_submitted_width == old(self).target_width
                    && final(worker).pending == Some(PreviewRequest {
                        sequence: final(self).last_submitted_sequence,
                        generation: old(worker).generation,
                        frame,
                        target_width: old(self).target_width,
                    })
                    && final(worker).generation == old(worker).generation
                    && final(worker).completed == old(worker).completed
                    && final(worker).stopped == old(worker).stopped
                &&& !r ==> final(self).last_submitted_sequence == old(self).last_submitted_sequence
                    && final(self).last_submitted_frame == old(self).last_submitted_frame
                    && final(self).last_submitted_width == old(self).last_submitted_width
                    && *final(worker) == *old(worker)
            },
    {
        let same_frame = match self.last_submitted_frame {
            Some(key) => key == frame_key,
            None => false,
        };
        if same_frame && self.last_submitted_width == self.target_width {
            return false;
        }
        if !self.cadence.take_due(now) {
            return false;
        }
        self.last_submitted_sequence = match self.last_submitted_sequence.checked_add(1) {
            Some(sequence) => sequence,
            None => return false,
        };
        self.last_submitted_frame = Some(frame_key);
        self.last_submitted_width = self.target_width;
        let request = PreviewRequest {
            sequence: self.last_submitted_sequence,
            generation: worker.generation,
            frame,
            target_width: self.target_width,
        };
        worker.enqueue_latest(request);
        true
    }

    /// Forget the current source: nothing happens unless a frame was
    /// submitted; otherwise the worker moves to a new generation (or stops
    /// when the generation counter is exhausted) and both slots empty.
    pub fn clear<F, S>(&mut self, worker: &mut WorkerState<F, S>) -> (r: bool)
        ensures
            r == old(self).last_submitted_frame is Some,
            final(self).last_submitted_frame is None,
            final(self).last_submitted_sequence == old(self).last_submitted_sequence,
            final(self).last_submitted_width == old(self).last_submitted_width,
            final(self).cadence == old(self).cadence,
            final(self).target_width == old(self).target_width,
            !r ==> *final(worker) == *old(worker),
            r ==> final(worker).pending is None && final(worker).completed is None && (if old(
                worker,
            ).generation < u64::MAX {
                final(worker).generation == old(worker).generation + 1 && final(worker).stopped
                    == old(worker).stopped
            } else {
                final(worker).generation == old(worker).generation && final(worker).stopped
            }),
    {
        if self.last_submitted_frame.take().is_none() {
            return false;
        }
        match worker.generation.checked_add(1) {
            Some(next) => worker.generation = next,
            None => worker.stopped = true,
        }
        worker.pending = None;
        worker.completed = None;
        true
    }

    /// The prepared preview waiting for the UI, which leaves the slot.
    pub fn take_prepared<F, S>(&self, worker: &mut WorkerState<F, S>) -> (r: Option<PreparedPreview<S>>)
        ensures
            r == old(worker).completed,
            final(worker).completed is None,
            final(worker).pending == old(worker).pending,
            final(worker).generation == old(worker).generation,
            final(worker).stopped == old(worker).stopped,
    {
        worker.completed.take()
    }
}

/// The preview surface on screen: it only accepts a sequence newer than the
/// last one it showed.
#[derive(Debug)]
pub struct VideoSurface<S> {
    pub native_surface: Option<S>,
    pub last_sequence: u64,
}

impl<S> VideoSurface<S> {
    pub fn new() -> (r: Self)
        ensures
            r.native_surface is None,
            r.last_sequence == 0,
    {
        VideoSurface { native_surface: None, last_sequence: 0 }
    }

    /// Drop the shown surface; the next source may start again from 1.
    pub fn clear(&mut self)
        ensures
            final(self).native_surface is None,
            final(self).last_sequence == 0,
    {
        self.native_surface = None;
        self.last_sequence = 0;
    }

    /// Accept `sequence` when it is newer than the last one shown.
    pub fn accepts_sequence(&mut self, sequence: u64) -> (r: bool)
        ensures
            r == (sequence > old(self).last_sequence),
            final(self).last_sequence == if r { sequence } else { old(self).last_sequence },
            final(self).native_surface == old(self).native_surface,
    {
        if sequence <= self.last_sequence {
            false
        } else {
            self.last_sequence = sequence;
            true
        }
    }

    /// Show `preview` when its sequence is newer than the last one shown.
    pub fn present(&mut self, preview: PreparedPreview<S>) -> (r: bool)
        ensures
            r == (preview.sequence > old(self).last_sequence),
            r ==> final(self).last_sequence == preview.sequence && final(self).native_surface == Some(
                preview.surface,
            ),
            !r ==> *final(self) == *old(self),
    {
        if !self.accepts_sequence(preview.sequence) {
            return false;
        }
        self.native_surface = Some(preview.surface);
        true
    }
}

} // verus!
