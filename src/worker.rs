use vstd::prelude::*;

use crate::capture::copy_range;
use crate::error::TranscribeError;
use crate::playback::min_nat;

verus! {

/// When the worker runs inference, and how much audio it keeps afterwards.
/// Lengths are in samples at the inference rate.
#[derive(Clone, Copy, Debug, PartialEq, Eq, Structural)]
pub struct InferenceThresholds {
    /// A window this long is inferred at once.
    pub full_window: usize,
    /// A window this long is inferred once `min_interval_ms` has passed
    /// since the last pass.
    pub min_window: usize,
    pub min_interval_ms: u64,
    /// Trailing samples kept for context after a successful pass.
    pub retain: usize,
}

impl InferenceThresholds {
    /// Two seconds at once, one second after half a second's pause, half a
    /// second kept.
    pub fn standard(sample_rate: u32) -> (r: Self)
        requires
            2 * sample_rate <= usize::MAX,
        ensures
            r.full_window == 2 * sample_rate,
            r.min_window == sample_rate,
            r.min_interval_ms == 500,
            r.retain == sample_rate / 2,
    {
        InferenceThresholds {
            full_window: 2 * (sample_rate as usize),
            min_window: sample_rate as usize,
            min_interval_ms: 500,
            retain: (sample_rate / 2) as usize,
        }
    }
}

/// The dual trigger: a full window, or a minimal window once enough time
/// has passed since the last pass.
pub open spec fn inference_due(len: nat, elapsed_ms: nat, th: InferenceThresholds) -> bool {
    len >= th.full_window || (len >= th.min_window && elapsed_ms >= th.min_interval_ms)
}

/// Milliseconds from `since` to `now`; a clock that went back counts as none.
pub open spec fn elapsed_ms(since: u64, now: u64) -> nat {
    if now >= since {
        (now - since) as nat
    } else {
        0
    }
}

/// The last `keep` items of `s`, or all of them when there are fewer.
pub open spec fn tail<T>(s: Seq<T>, keep: nat) -> Seq<T> {
    s.subrange(s.len() - min_nat(keep, s.len()), s.len() as int)
}

/// The samples that wait for the next inference pass.
pub struct RollingInferenceBuffer<T> {
    samples: Vec<T>,
}

impl<T> View for RollingInferenceBuffer<T> {
    type V = Seq<T>;

    closed spec fn view(&self) -> Seq<T> {
        self.samples@
    }
}

impl<T: Copy> RollingInferenceBuffer<T> {
    pub fn new() -> (r: Self)
        ensures
            r@ == Seq::<T>::empty(),
    {
        RollingInferenceBuffer { samples: Vec::new() }
    }

    pub fn len(&self) -> (r: usize)
        ensures
            r == self@.len(),
    {
        self.samples.len()
    }

    /// The window as it stands, for the engine to read.
    pub fn as_slice(&self) -> (r: &[T])
        ensures
            r@ == self@,
    {
        self.samples.as_slice()
    }

    pub fn append(&mut self, chunk: &[T])
        requires
            old(self)@.len() + chunk@.len() <= usize::MAX,
        ensures
            final(self)@ == old(self)@ + chunk@,
    {
        let mut k: usize = 0;
        while k < chunk.len()
            invariant
                k <= chunk@.len(),
                self@ == old(self)@ + chunk@.subrange(0, k as int),
                old(self)@.len() + chunk@.len() <= usize::MAX,
            decreases chunk@.len() - k,
        {
            self.samples.push(chunk[k]);
            k += 1;
            assert(self@ =~= old(self)@ + chunk@.subrange(0, k as int));
        }
        assert(chunk@.subrange(0, chunk@.len() as int) == chunk@);
    }

    pub fn is_due(&self, thresholds: &InferenceThresholds, elapsed: u64) -> (r: bool)
        ensures
            r == inference_due(self@.len(), elapsed as nat, *thresholds),
    {
        let len = self.samples.len();
        len >= thresholds.full_window || (len >= thresholds.min_window && elapsed
            >= thresholds.min_interval_ms)
    }

    /// Keeps only the trailing `keep` samples.
    pub fn keep_tail(&mut self, keep: usize)
        ensures
            final(self)@ == tail(old(self)@, keep as nat),
    {
        let len = self.samples.len();
        let start = if keep < len {
            len - keep
        } else {
            0
        };
        self.samples = copy_range(self.samples.as_slice(), start, len);
    }

    pub fn clear(&mut self)
        ensures
            final(self)@ == Seq::<T>::empty(),
    {
        self.samples = Vec::new();
    }
}

/// What the worker's poll of its inbound channel brought.
pub enum WorkerEvent<T> {
    /// A chunk of mono samples arrived.
    Chunk(Vec<T>),
    /// Nothing arrived within the poll interval.
    Timeout,
    /// The capture side has gone away.
    Disconnected,
}

/// What the worker's loop does next.
#[derive(Clone, Copy, Debug, PartialEq, Eq, Structural)]
pub enum WorkerAction {
    /// Poll the channel again.
    Poll,
    /// Run an inference pass over the window.
    Infer,
    /// Leave the loop.
    Exit,
}

/// How an inference pass ended.
#[derive(Clone, Copy, Debug, PartialEq, Eq, Structural)]
pub enum PassOutcome {
    /// The engine ran and its segments were published.
    Completed,
    /// The engine failed on this window.
    Failed,
    /// The engine was held elsewhere; the pass was skipped.
    Busy,
}

/// The decisions of the transcription worker's loop: it accumulates chunks,
/// says when a pass is due, and trims the window after each pass. Times are
/// milliseconds on one monotonic clock, counted from the worker's start.
pub struct TranscriptionWorker<T> {
    window: RollingInferenceBuffer<T>,
    thresholds: InferenceThresholds,
    last_pass_ms: u64,
}

impl<T: Copy> TranscriptionWorker<T> {
    pub closed spec fn window(&self) -> Seq<T> {
        self.window@
    }

    pub closed spec fn thresholds(&self) -> InferenceThresholds {
        self.thresholds
    }

    /// When the last pass ended, or the start.
    pub closed spec fn last_pass_ms(&self) -> u64 {
        self.last_pass_ms
    }

    /// A worker that has seen nothing yet.
    pub fn new(thresholds: InferenceThresholds) -> (r: Self)
        ensures
            r.window() == Seq::<T>::empty(),
            r.thresholds() == thresholds,
            r.last_pass_ms() == 0,
    {
        TranscriptionWorker { window: RollingInferenceBuffer::new(), thresholds, last_pass_ms: 0 }
    }

    pub fn window_len(&self) -> (r: usize)
        ensures
            r == self.window().len(),
    {
        self.window.len()
    }

    /// The samples of the current window, for the engine.
    pub fn window_samples(&self) -> (r: &[T])
        ensures
            r@ == self.window(),
    {
        self.window.as_slice()
    }

    /// Takes what one poll brought. A chunk joins the window and a pass is
    /// asked for when the window is non-empty and due; a timeout asks for
    /// another poll; a closed channel ends the loop.
    pub fn on_event(&mut self, event: WorkerEvent<T>, now_ms: u64) -> (action: WorkerAction)
        requires
            event matches WorkerEvent::Chunk(c) ==> old(self).window().len() + c@.len()
                <= usize::MAX,
        ensures
            final(self).thresholds() == old(self).thresholds(),
            final(self).last_pass_ms() == old(self).last_pass_ms(),
            match event {
                WorkerEvent::Chunk(c) => {
                    &&& final(self).window() == old(self).window() + c@
                    &&& action == if final(self).window().len() > 0 && inference_due(
                        final(self).window().len(),
                        elapsed_ms(old(self).last_pass_ms(), now_ms),
                        old(self).thresholds(),
                    ) {
                        WorkerAction::Infer
                    } else {
                        WorkerAction::Poll
                    }
                },
                WorkerEvent::Timeout => final(self).window() == old(self).window() && action
                    == WorkerAction::Poll,
                WorkerEvent::Disconnected => final(self).window() == old(self).window() && action
                    == WorkerAction::Exit,
            },
    {
        match event {
            WorkerEvent::Chunk(c) => {
                self.window.append(c.as_slice());
                let elapsed = if now_ms >= self.last_pass_ms {
                    now_ms - self.last_pass_ms
                } else {
                    0
                };
                if self.window.len() > 0 && self.window.is_due(&self.thresholds, elapsed) {
                    WorkerAction::Infer
                } else {
                    WorkerAction::Poll
                }
            },
            WorkerEvent::Timeout => WorkerAction::Poll,
            WorkerEvent::Disconnected => WorkerAction::Exit,
        }
    }

    /// Takes the end of a pass. A completed pass keeps the trailing
    /// continuity window, a failed one drops the window; both restart the
    /// clock. A skipped pass changes nothing.
    pub fn on_pass(&mut self, outcome: PassOutcome, now_ms: u64)
        ensures
            final(self).thresholds() == old(self).thresholds(),
            match outcome {
                PassOutcome::Completed => {
                    &&& final(self).window() == tail(old(self).window(), old(self).thresholds().retain as nat)
                    &&& final(self).last_pass_ms() == now_ms
                },
                PassOutcome::Failed => {
                    &&& final(self).window() == Seq::<T>::empty()
                    &&& final(self).last_pass_ms() == now_ms
                },
                PassOutcome::Busy => {
                    &&& final(self).window() == old(self).window()
                    &&& final(self).last_pass_ms() == old(self).last_pass_ms()
                },
            },
    {
        match outcome {
            PassOutcome::Completed => {
                self.window.keep_tail(self.thresholds.retain);
                self.last_pass_ms = now_ms;
            },
            PassOutcome::Failed => {
                self.window.clear();
                self.last_pass_ms = now_ms;
            },
            PassOutcome::Busy => {},
        }
    }
}

/// Phases of the transcription worker.
#[derive(Clone, Copy, Debug, PartialEq, Eq, Structural)]
pub enum WorkerPhase {
    Idle,
    ModelLoaded,
    Running,
    StopRequested,
    Stopped,
}

/// The transcription worker's lifecycle. A loaded model waits until
/// processing starts and then belongs to the worker thread; stopping sets the
/// stop signal and then waits for the thread.
#[derive(Clone, Copy, Debug, PartialEq, Eq, Structural)]
pub struct WorkerLifecycle {
    pub phase: WorkerPhase,
    /// A loaded model waits for the next start.
    pub model_ready: bool,
}

/// The phase once the stop signal is set.
pub open spec fn stop_signalled(p: WorkerPhase) -> WorkerPhase {
    if p == WorkerPhase::Running {
        WorkerPhase::StopRequested
    } else {
        p
    }
}

/// The phase once the worker thread has been joined.
pub open spec fn stop_joined(p: WorkerPhase) -> WorkerPhase {
    if p == WorkerPhase::StopRequested {
        WorkerPhase::Stopped
    } else {
        p
    }
}

/// The phase after a whole stop: signal, then join.
pub open spec fn after_stop(p: WorkerPhase) -> WorkerPhase {
    stop_joined(stop_signalled(p))
}

impl WorkerLifecycle {
    pub fn new() -> (r: Self)
        ensures
            r.phase == WorkerPhase::Idle,
            !r.model_ready,
    {
        WorkerLifecycle { phase: WorkerPhase::Idle, model_ready: false }
    }

    /// Records how loading a model ended: `found` says whether the path led
    /// to a model file, `engine_ok` whether the engine accepted it.
    pub fn finish_load(&mut self, found: bool, engine_ok: bool) -> (r: Result<(), TranscribeError>)
        ensures
            r == if !found {
                Err(TranscribeError::ModelNotFound)
            } else if !engine_ok {
                Err(TranscribeError::ModelLoad)
            } else {
                Ok(())
            },
            r is Err ==> *final(self) == *old(self),
            r is Ok ==> final(self).model_ready,
            r is Ok ==> final(self).phase == if old(self).phase == WorkerPhase::Idle
                || old(self).phase == WorkerPhase::Stopped {
                WorkerPhase::ModelLoaded
            } else {
                old(self).phase
            },
    {
        if !found {
            return Err(TranscribeError::ModelNotFound);
        }
        if !engine_ok {
            return Err(TranscribeError::ModelLoad);
        }
        self.model_ready = true;
        if self.phase == WorkerPhase::Idle || self.phase == WorkerPhase::Stopped {
            self.phase = WorkerPhase::ModelLoaded;
        }
        Ok(())
    }

    /// Starts processing: the waiting model goes to the worker thread.
    pub fn begin(&mut self) -> (r: Result<(), TranscribeError>)
        ensures
            r is Ok <==> old(self).model_ready,
            r matches Err(e) ==> e == TranscribeError::ModelNotLoaded && *final(self) == *old(self),
            r is Ok ==> final(self).phase == WorkerPhase::Running && !final(self).model_ready,
    {
        if !self.model_ready {
            return Err(TranscribeError::ModelNotLoaded);
        }
        self.model_ready = false;
        self.phase = WorkerPhase::Running;
        Ok(())
    }

    /// Sets the stop signal. Returns whether there is a worker thread to wait for.
    pub fn request_stop(&mut self) -> (join: bool)
        ensures
            join == (old(self).phase == WorkerPhase::Running),
            final(self).model_ready == old(self).model_ready,
            final(self).phase == stop_signalled(old(self).phase),
    {
        if self.phase == WorkerPhase::Running {
            self.phase = WorkerPhase::StopRequested;
            true
        } else {
            false
        }
    }

    /// The worker thread has been joined.
    pub fn finish_stop(&mut self)
        ensures
            final(self).model_ready == old(self).model_ready,
            final(self).phase == stop_joined(old(self).phase),
    {
        if self.phase == WorkerPhase::StopRequested {
            self.phase = WorkerPhase::Stopped;
        }
    }
}

/// A pass is due once the window holds the full length, whatever the time
/// since the last pass; and once it holds the minimal length, if the pause
/// since the last pass has reached the interval.
pub proof fn law_trigger_thresholds(th: InferenceThresholds, len: nat, elapsed: nat)
    ensures
        len >= th.full_window ==> inference_due(len, elapsed, th),
        len >= th.min_window && elapsed >= th.min_interval_ms ==> inference_due(len, elapsed, th),
        len < th.min_window && len < th.full_window ==> !inference_due(len, elapsed, th),
        len < th.full_window && elapsed < th.min_interval_ms ==> !inference_due(len, elapsed, th),
{
}

/// After a completed pass the window holds exactly the trailing `keep`
/// samples, or all of them when there were fewer.
pub proof fn law_retained_tail<T>(s: Seq<T>, keep: nat)
    ensures
        tail(s, keep).len() == min_nat(keep, s.len()),
        forall|i: int|
            0 <= i < tail(s, keep).len() ==> #[trigger] tail(s, keep)[i] == s[s.len() - tail(
                s,
                keep,
            ).len() + i],
        keep >= s.len() ==> tail(s, keep) == s,
{
    if keep >= s.len() {
        assert(tail(s, keep) =~= s);
    }
}

/// Stopping is idempotent: from any phase, a whole stop leaves no running
/// worker, so a second stop finds no thread to wait for and changes nothing.
pub proof fn law_stop_idempotent(p: WorkerPhase)
    ensures
        after_stop(p) != WorkerPhase::Running,
        after_stop(p) != WorkerPhase::StopRequested,
        stop_signalled(after_stop(p)) == after_stop(p),
        after_stop(after_stop(p)) == after_stop(p),
{
}

} // verus!
