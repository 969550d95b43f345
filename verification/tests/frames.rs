use dextreamer::bus::{monitor_stops, wait_for_video_to_load, BusMessage};
use dextreamer::frame_handler::FrameHandler;
use dextreamer::streamer::{FrameData, InternalMessage, VideoStreamEvent};
use dextreamer::video_sink::{memory_video_sink, FlowError, Sample, SinkStep};
use std::sync::atomic::{AtomicUsize, Ordering};
use std::sync::Arc;

struct CountingHandler {
    frames: Arc<AtomicUsize>,
    bytes: Arc<AtomicUsize>,
}

impl FrameHandler for CountingHandler {
    fn handle_new_frame(&self, frame_data: &[u8], frame_size: (u32, u32)) {
        assert_eq!(frame_data.len(), 4 * frame_size.0 as usize * frame_size.1 as usize);
        self.frames.fetch_add(1, Ordering::SeqCst);
        self.bytes.fetch_add(frame_data.len(), Ordering::SeqCst);
    }
}

fn frame(width: usize, height: usize, fill: u8) -> FrameData {
    FrameData { data: vec![fill; 4 * width * height], size: [width, height] }
}

#[test]
fn frame_is_requested_handled_and_announced_in_order() {
    let picture = frame(2, 3, 7);
    let delivery = memory_video_sink(Sample::Frame(picture.clone()));
    assert_eq!(
        delivery.steps,
        vec![
            SinkStep::Enqueue(InternalMessage::RequestPositionUpdate),
            SinkStep::Handle(picture),
            SinkStep::Emit(VideoStreamEvent::NewFrame),
        ]
    );
    assert_eq!(delivery.flow, Ok(()));
}

#[test]
fn missing_sample_ends_the_stream_without_a_step() {
    let delivery = memory_video_sink(Sample::Missing);
    assert_eq!(delivery.steps, Vec::<SinkStep>::new());
    assert_eq!(delivery.flow, Err(FlowError::Eos));
}

#[test]
fn sample_without_buffer_is_an_error_of_this_delivery() {
    let delivery = memory_video_sink(Sample::NoBuffer);
    assert_eq!(
        delivery.steps,
        vec![SinkStep::PostError("Failed to get buffer from appsink".to_string())]
    );
    assert_eq!(delivery.flow, Err(FlowError::Error));
}

#[test]
fn unreadable_buffer_is_an_error_of_this_delivery() {
    let delivery = memory_video_sink(Sample::NotReadable);
    assert_eq!(
        delivery.steps,
        vec![SinkStep::PostError("Failed to map buffer readable".to_string())]
    );
    assert_eq!(delivery.flow, Err(FlowError::Error));
}

#[test]
fn sample_without_format_is_an_error_of_this_delivery() {
    let delivery = memory_video_sink(Sample::NoFormat);
    assert_eq!(
        delivery.steps,
        vec![SinkStep::PostError("Failed to read the format of the sample".to_string())]
    );
    assert_eq!(delivery.flow, Err(FlowError::Error));
}

#[test]
fn frames_handler_calls_and_events_are_equally_many() {
    let handler = CountingHandler {
        frames: Arc::new(AtomicUsize::new(0)),
        bytes: Arc::new(AtomicUsize::new(0)),
    };
    let samples = vec![
        Sample::Frame(frame(1, 1, 0)),
        Sample::NoBuffer,
        Sample::Frame(frame(2, 2, 1)),
        Sample::NotReadable,
        Sample::NoFormat,
        Sample::Frame(frame(3, 1, 2)),
        Sample::Missing,
    ];
    let mut requests = 0;
    let mut events = 0;
    let mut accepted = 0;
    for sample in samples {
        let delivery = memory_video_sink(sample);
        if delivery.flow.is_ok() {
            accepted += 1;
        }
        for step in delivery.steps {
            match step {
                SinkStep::Enqueue(message) => {
                    assert_eq!(message, InternalMessage::RequestPositionUpdate);
                    requests += 1;
                }
                SinkStep::Handle(frame) => {
                    assert_eq!(events, handler.frames.load(Ordering::SeqCst));
                    handler.handle_new_frame(
                        &frame.data,
                        (frame.size[0] as u32, frame.size[1] as u32),
                    );
                }
                SinkStep::Emit(event) => {
                    assert_eq!(event, VideoStreamEvent::NewFrame);
                    events += 1;
                    assert_eq!(events, handler.frames.load(Ordering::SeqCst));
                }
                SinkStep::PostError(_) => {}
            }
        }
    }
    assert_eq!(accepted, 3);
    assert_eq!(handler.frames.load(Ordering::SeqCst), 3);
    assert_eq!(events, 3);
    assert_eq!(requests, 3);
    assert_eq!(handler.bytes.load(Ordering::SeqCst), 4 + 16 + 12);
}

#[test]
fn default_frame_is_empty() {
    let empty = FrameData::default();
    assert_eq!(empty.data, Vec::<u8>::new());
    assert_eq!(empty.size, [0, 0]);
}

#[test]
fn only_async_done_ends_the_wait_for_the_video() {
    assert!(wait_for_video_to_load(BusMessage::AsyncDone));
    assert!(!wait_for_video_to_load(BusMessage::Eos));
    assert!(!wait_for_video_to_load(BusMessage::Error));
    assert!(!wait_for_video_to_load(BusMessage::Other));
}

#[test]
fn monitor_stops_at_end_of_stream_and_at_an_error() {
    assert!(monitor_stops(BusMessage::Eos));
    assert!(monitor_stops(BusMessage::Error));
    assert!(!monitor_stops(BusMessage::AsyncDone));
    assert!(!monitor_stops(BusMessage::Other));
}
