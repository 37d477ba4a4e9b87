use autotalk::error::TranscribeError;
use autotalk::segments::{keep_nonempty, publishable_segments};
use autotalk::worker::{
    InferenceThresholds, PassOutcome, RollingInferenceBuffer, TranscriptionWorker, WorkerAction,
    WorkerEvent, WorkerLifecycle, WorkerPhase,
};

fn worker() -> TranscriptionWorker<f32> {
    TranscriptionWorker::new(InferenceThresholds::standard(16000))
}

fn second() -> Vec<f32> {
    vec![0.5; 16000]
}

#[test]
fn standard_thresholds() {
    let th = InferenceThresholds::standard(16000);
    assert_eq!(th.full_window, 32000);
    assert_eq!(th.min_window, 16000);
    assert_eq!(th.min_interval_ms, 500);
    assert_eq!(th.retain, 8000);
}

#[test]
fn two_seconds_trigger_without_a_pause() {
    let mut w = worker();
    assert_eq!(w.on_event(WorkerEvent::Chunk(second()), 100), WorkerAction::Poll);
    assert_eq!(w.on_event(WorkerEvent::Chunk(second()), 200), WorkerAction::Infer);
    assert_eq!(w.window_len(), 32000);
}

#[test]
fn one_second_triggers_after_half_a_second() {
    let mut w = worker();
    assert_eq!(w.on_event(WorkerEvent::Chunk(second()), 499), WorkerAction::Poll);
    let mut w = worker();
    assert_eq!(w.on_event(WorkerEvent::Chunk(second()), 500), WorkerAction::Infer);
}

#[test]
fn pass_clock_restarts_after_a_pass() {
    let mut w = worker();
    w.on_event(WorkerEvent::Chunk(second()), 1000);
    w.on_pass(PassOutcome::Completed, 1000);
    assert_eq!(w.on_event(WorkerEvent::Chunk(second()), 1200), WorkerAction::Poll);
    assert_eq!(w.on_event(WorkerEvent::Chunk(second()), 1300), WorkerAction::Infer);
}

#[test]
fn completed_pass_keeps_half_a_second() {
    let mut w = worker();
    let mut chunk: Vec<f32> = (0..32000).map(|i| i as f32).collect();
    assert_eq!(w.on_event(WorkerEvent::Chunk(chunk.clone()), 10), WorkerAction::Infer);
    w.on_pass(PassOutcome::Completed, 20);
    assert_eq!(w.window_len(), 8000);
    let tail = chunk.split_off(24000);
    assert_eq!(w.window_samples(), &tail[..]);
}

#[test]
fn completed_pass_keeps_everything_when_short() {
    let mut b: RollingInferenceBuffer<f32> = RollingInferenceBuffer::new();
    b.append(&[1.0, 2.0, 3.0]);
    b.keep_tail(8000);
    assert_eq!(b.as_slice(), &[1.0, 2.0, 3.0]);
    b.keep_tail(1);
    assert_eq!(b.as_slice(), &[3.0]);
}

#[test]
fn failed_pass_empties_the_window() {
    let mut w = worker();
    w.on_event(WorkerEvent::Chunk(vec![0.1; 40000]), 10);
    w.on_pass(PassOutcome::Failed, 20);
    assert_eq!(w.window_len(), 0);
}

#[test]
fn busy_engine_skips_the_pass() {
    let mut w = worker();
    w.on_event(WorkerEvent::Chunk(vec![0.1; 40000]), 10);
    w.on_pass(PassOutcome::Busy, 20);
    assert_eq!(w.window_len(), 40000);
    assert_eq!(w.on_event(WorkerEvent::Chunk(vec![0.1; 10]), 30), WorkerAction::Infer);
}

#[test]
fn disconnect_ends_the_loop() {
    let mut w = worker();
    w.on_event(WorkerEvent::Chunk(vec![0.1; 100]), 10);
    assert_eq!(w.on_event(WorkerEvent::Disconnected, 20), WorkerAction::Exit);
    assert_eq!(w.window_len(), 100);
}

#[test]
fn timeout_polls_again() {
    let mut w = worker();
    w.on_event(WorkerEvent::Chunk(vec![0.1; 16000]), 10);
    assert_eq!(w.on_event(WorkerEvent::Timeout, 5000), WorkerAction::Poll);
    assert_eq!(w.window_len(), 16000);
}

#[test]
fn empty_chunk_never_triggers() {
    let mut w = TranscriptionWorker::<f32>::new(InferenceThresholds {
        full_window: 0,
        min_window: 0,
        min_interval_ms: 0,
        retain: 0,
    });
    assert_eq!(w.on_event(WorkerEvent::Chunk(Vec::new()), 10), WorkerAction::Poll);
}

#[test]
fn start_needs_a_loaded_model() {
    let mut l = WorkerLifecycle::new();
    assert_eq!(l.begin(), Err(TranscribeError::ModelNotLoaded));
    assert_eq!(l.finish_load(false, true), Err(TranscribeError::ModelNotFound));
    assert_eq!(l.finish_load(true, false), Err(TranscribeError::ModelLoad));
    assert_eq!(l.phase, WorkerPhase::Idle);
    assert_eq!(l.finish_load(true, true), Ok(()));
    assert_eq!(l.phase, WorkerPhase::ModelLoaded);
    assert_eq!(l.begin(), Ok(()));
    assert_eq!(l.phase, WorkerPhase::Running);
    assert_eq!(l.begin(), Err(TranscribeError::ModelNotLoaded));
}

#[test]
fn stopping_twice_is_safe() {
    let mut l = WorkerLifecycle::new();
    l.finish_load(true, true).unwrap();
    l.begin().unwrap();
    assert!(l.request_stop());
    assert_eq!(l.phase, WorkerPhase::StopRequested);
    l.finish_stop();
    assert_eq!(l.phase, WorkerPhase::Stopped);
    assert!(!l.request_stop());
    l.finish_stop();
    assert_eq!(l.phase, WorkerPhase::Stopped);
}

#[test]
fn segments_are_trimmed_and_empty_ones_dropped() {
    let raw = vec![
        "  你好，世界 ".to_string(),
        "   ".to_string(),
        String::new(),
        "\tsecond line\n".to_string(),
    ];
    assert_eq!(
        publishable_segments(&raw),
        vec!["你好，世界".to_string(), "second line".to_string()]
    );
    assert_eq!(
        keep_nonempty(&vec![String::new(), " a ".to_string()]),
        vec![" a ".to_string()]
    );
}
