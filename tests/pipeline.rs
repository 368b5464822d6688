use passthrough::{
    CaptureFeed, PipelineError, PipelineState, PipelineSupervisor, RenderSink, SampleQueue,
    Sizing, StreamFormat,
};

const CD: StreamFormat = StreamFormat { sample_rate: 44100, channel_count: 2 };

#[test]
fn start_prefills_silence_before_running() {
    let mut sup = PipelineSupervisor::new();
    assert_eq!(sup.state(), PipelineState::Idle);
    let sizing = sup.start(CD, 30000).unwrap();
    assert_eq!(sizing, Sizing { capacity: 5292000, prefill: 2646000 });
    assert_eq!(sup.state(), PipelineState::PreFilled);
    assert_eq!(sup.queued(), 2646000);
    assert_eq!(sup.attach(Some(CD), Some(CD)), Ok(()));
    assert_eq!(sup.state(), PipelineState::Running);
    let mut out = vec![1u32; 8];
    assert!(!sup.render_block(&mut out));
    assert_eq!(out, vec![0u32; 8]);
}

#[test]
fn capture_overflow_flags_block_once() {
    let mut q = SampleQueue::new(2);
    assert!(q.push(1));
    assert!(q.push(2));
    let mut feed = CaptureFeed::new();
    assert!(feed.on_block(&mut q, &[3, 4, 5, 6]));
    assert!(feed.overflowed_this_block);
    assert_eq!(q.pop(), Some(1));
    assert_eq!(q.pop(), Some(2));
    assert_eq!(q.pop(), None);
    assert!(!feed.on_block(&mut q, &[9]));
    assert!(!feed.overflowed_this_block);
}

#[test]
fn render_empty_queue_writes_silence() {
    let mut q = SampleQueue::new(4);
    let mut sink = RenderSink::new();
    let mut out = vec![0x3f80_0000u32; 6];
    assert!(sink.on_block(&mut q, &mut out));
    assert!(sink.underflowed_this_block);
    assert_eq!(out, vec![0u32; 6]);
}

#[test]
fn render_partial_queue_pads_with_silence() {
    let mut q = SampleQueue::new(4);
    q.push_slice(&[11, 12]);
    let mut sink = RenderSink::new();
    let mut out = vec![99u32; 4];
    assert!(sink.on_block(&mut q, &mut out));
    assert_eq!(out, vec![11, 12, 0, 0]);
    assert!(q.is_empty());
    q.push_slice(&[1, 2, 3]);
    let mut out2 = vec![99u32; 2];
    assert!(!sink.on_block(&mut q, &mut out2));
    assert!(!sink.underflowed_this_block);
    assert_eq!(out2, vec![1, 2]);
    assert_eq!(q.len(), 1);
}

#[test]
fn stop_twice_stays_stopped() {
    let mut sup = PipelineSupervisor::new();
    sup.start(CD, 10).unwrap();
    sup.attach(Some(CD), Some(CD)).unwrap();
    sup.stop();
    assert_eq!(sup.state(), PipelineState::Stopped);
    sup.stop();
    assert_eq!(sup.state(), PipelineState::Stopped);
    assert_eq!(sup.queued(), 0);
}

#[test]
fn start_while_active_is_refused() {
    let mut sup = PipelineSupervisor::new();
    sup.start(CD, 10).unwrap();
    assert_eq!(sup.start(CD, 10), Err(PipelineError::AlreadyActive));
    sup.attach(Some(CD), Some(CD)).unwrap();
    assert_eq!(sup.start(CD, 10), Err(PipelineError::AlreadyActive));
    sup.stop();
    assert!(sup.start(CD, 10).is_ok());
    assert_eq!(sup.state(), PipelineState::PreFilled);
}

#[test]
fn start_with_invalid_format_changes_nothing() {
    let mut sup = PipelineSupervisor::new();
    let bad = StreamFormat { sample_rate: 0, channel_count: 2 };
    assert_eq!(sup.start(bad, 550), Err(PipelineError::InvalidFormat));
    assert_eq!(sup.start(CD, 0), Err(PipelineError::InvalidFormat));
    assert_eq!(sup.state(), PipelineState::Idle);
}

#[test]
fn attach_missing_device_is_unavailable() {
    let mut sup = PipelineSupervisor::new();
    sup.start(CD, 10).unwrap();
    assert_eq!(sup.attach(None, Some(CD)), Err(PipelineError::DeviceUnavailable));
    assert_eq!(sup.state(), PipelineState::Stopped);
}

#[test]
fn attach_differing_format_is_mismatch() {
    let mut sup = PipelineSupervisor::new();
    sup.start(CD, 10).unwrap();
    let other = StreamFormat { sample_rate: 48000, channel_count: 2 };
    assert_eq!(sup.attach(Some(CD), Some(other)), Err(PipelineError::StreamConfigMismatch));
    assert_eq!(sup.state(), PipelineState::Stopped);
}

#[test]
fn attach_without_prefill_is_refused() {
    let mut sup = PipelineSupervisor::new();
    assert_eq!(sup.attach(Some(CD), Some(CD)), Err(PipelineError::NotPrefilled));
    assert_eq!(sup.state(), PipelineState::Idle);
}

#[test]
fn running_pipeline_passes_samples_through() {
    let mut sup = PipelineSupervisor::new();
    // 10 ms of 100 Hz mono: one silent sample pre-filled, room for two
    let f = StreamFormat { sample_rate: 100, channel_count: 1 };
    assert_eq!(sup.start(f, 10), Ok(Sizing { capacity: 2, prefill: 1 }));
    sup.attach(Some(f), Some(f)).unwrap();
    assert!(sup.capture_block(&[5, 6, 7]));
    let mut out = vec![9u32; 3];
    assert!(sup.render_block(&mut out));
    assert_eq!(out, vec![0, 5, 0]);
}

#[test]
fn idle_pipeline_ignores_blocks() {
    let mut sup = PipelineSupervisor::new();
    assert!(!sup.capture_block(&[1, 2]));
    let mut out = vec![4u32; 2];
    assert!(!sup.render_block(&mut out));
    assert_eq!(out, vec![0, 0]);
}

#[test]
fn split_queue_keeps_order_across_ends() {
    let mut q = SampleQueue::new(3);
    q.push_slice(&[1, 2]);
    let (mut producer, mut consumer) = q.split();
    let mut feed = CaptureFeed::new();
    assert_eq!(feed.on_shared_block(&mut producer, &[3, 4, 5]), 2);
    assert!(feed.overflowed_this_block);
    let mut sink = RenderSink::new();
    let mut out = vec![7u32; 5];
    assert_eq!(sink.on_shared_block(&mut consumer, &mut out), 2);
    assert!(sink.underflowed_this_block);
    assert_eq!(out, vec![1, 2, 3, 0, 0]);
    assert_eq!(consumer.pop(), None);
    assert!(producer.push(8));
    assert_eq!(consumer.pop(), Some(8));
}

#[test]
fn take_ends_only_while_running() {
    let mut sup = PipelineSupervisor::new();
    assert!(sup.take_ends().is_none());
    let f = StreamFormat { sample_rate: 100, channel_count: 1 };
    sup.start(f, 20).unwrap();
    assert!(sup.take_ends().is_none());
    sup.attach(Some(f), Some(f)).unwrap();
    let (_producer, mut consumer) = sup.take_ends().unwrap();
    assert_eq!(sup.state(), PipelineState::Running);
    assert_eq!(sup.queued(), 0);
    assert!(sup.take_ends().is_none());
    assert_eq!(consumer.pop(), Some(0));
    assert_eq!(consumer.pop(), Some(0));
    assert_eq!(consumer.pop(), None);
    assert!(!sup.capture_block(&[1]));
    sup.stop();
    assert_eq!(sup.state(), PipelineState::Stopped);
}

#[test]
fn slot_value_plays_sample_or_silence() {
    assert_eq!(passthrough::feed::slot_value(Some(42)), 42);
    assert_eq!(passthrough::feed::slot_value(None), 0);
}
