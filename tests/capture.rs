use autotalk::capture::{split_frames, split_whole, ChunkAccumulator};
use autotalk::device::{SampleFormat, StreamConfig};
use autotalk::playback::{loopback_action, LoopbackAction, PlaybackQueue};

fn config(sample_rate: u32, channels: u16) -> StreamConfig {
    StreamConfig { sample_rate, channels, format: SampleFormat::F32 }
}

#[test]
fn one_second_of_mono_gives_one_chunk() {
    let mut acc: ChunkAccumulator<f32> = ChunkAccumulator::new(&config(16000, 1));
    let input: Vec<f32> = (0..16000).map(|i| i as f32 / 16000.0).collect();
    let chunks = acc.push(&input);
    assert_eq!(chunks.len(), 1);
    assert_eq!(chunks[0].len(), 16000);
    assert_eq!(chunks[0], input);
    assert_eq!(acc.pending_len(), 0);
}

#[test]
fn one_extra_sample_stays_buffered() {
    let mut acc: ChunkAccumulator<f32> = ChunkAccumulator::new(&config(16000, 1));
    let input: Vec<f32> = vec![0.25; 16001];
    let chunks = acc.push(&input);
    assert_eq!(chunks.len(), 1);
    assert_eq!(chunks[0].len(), 16000);
    assert_eq!(acc.pending_len(), 1);
}

#[test]
fn chunks_span_callbacks_in_arrival_order() {
    let mut acc: ChunkAccumulator<i32> = ChunkAccumulator::new(&config(3, 2));
    assert_eq!(acc.chunk_size(), 6);
    assert!(acc.push(&[1, 2, 3, 4]).is_empty());
    let chunks = acc.push(&[5, 6, 7, 8, 9, 10, 11, 12, 13]);
    assert_eq!(chunks, vec![vec![1, 2, 3, 4, 5, 6], vec![7, 8, 9, 10, 11, 12]]);
    assert_eq!(acc.pending_len(), 1);
    assert!(acc.push(&[]).is_empty());
}

#[test]
fn frames_group_interleaved_samples() {
    let chunk = [1.0f32, 3.0, -0.5, 0.5, 0.25, 0.75];
    let frames = split_frames(&chunk, 2);
    assert_eq!(frames.len(), 3);
    let mono: Vec<f32> = frames.iter().map(|f| f.iter().sum::<f32>() / f.len() as f32).collect();
    assert_eq!(mono, vec![2.0, 0.0, 0.5]);
    assert_eq!(split_frames(&chunk, 1).len(), 6);
    assert_eq!(split_frames(&chunk, 3), vec![vec![1.0, 3.0, -0.5], vec![0.5, 0.25, 0.75]]);
}

#[test]
fn whole_pieces_only() {
    assert_eq!(split_whole(&[1u8, 2, 3, 4, 5], 2), vec![vec![1, 2], vec![3, 4]]);
    assert!(split_whole(&[1u8], 2).is_empty());
}

#[test]
fn playback_copies_then_fills_with_silence() {
    let mut q: PlaybackQueue<f32> = PlaybackQueue::new();
    q.append(&[0.1, 0.2, 0.3]);
    assert_eq!(q.drain_front(2, 0.0), vec![0.1, 0.2]);
    assert_eq!(q.len(), 1);
    assert_eq!(q.drain_front(3, 0.0), vec![0.3, 0.0, 0.0]);
    assert_eq!(q.len(), 0);
    let mut q: PlaybackQueue<u16> = PlaybackQueue::new();
    assert_eq!(q.drain_front(2, 32768), vec![32768, 32768]);
}

#[test]
fn loopback_switching() {
    assert_eq!(loopback_action(true, false), LoopbackAction::Build);
    assert_eq!(loopback_action(false, true), LoopbackAction::Drop);
    assert_eq!(loopback_action(true, true), LoopbackAction::Keep);
    assert_eq!(loopback_action(false, false), LoopbackAction::Keep);
}
