//! The sink that takes decoded frames from the pipeline.
//!
//! The pipeline calls the sink from a thread of its own whenever a frame is
//! ready. For each call the sink decides what is to happen, as a list of
//! [`SinkStep`]s to carry out from first to last, and what to answer the
//! pipeline.

use crate::streamer::{
    FrameData, FrameDataView, InternalMessage, VideoStreamEvent, VideoStreamEventView,
};
use vstd::prelude::*;

verus! {

broadcast use vstd::string::group_string_axioms;

/// What the sink found when the pipeline announced a frame.
#[derive(Clone, Debug, PartialEq, Eq)]
pub enum Sample {
    /// No sample could be pulled.
    Missing,
    /// The sample holds no buffer.
    NoBuffer,
    /// The buffer cannot be mapped for reading.
    NotReadable,
    /// The sample does not say, in a form that can be read, what format its
    /// frame has.
    NoFormat,
    /// The sample holds this frame.
    Frame(FrameData),
}

/// What the specifications say of a [`Sample`].
pub enum SampleView {
    Missing,
    NoBuffer,
    NotReadable,
    NoFormat,
    Frame(FrameDataView),
}

impl DeepView for Sample {
    type V = SampleView;

    open spec fn deep_view(&self) -> SampleView {
        match self {
            Sample::Missing => SampleView::Missing,
            Sample::NoBuffer => SampleView::NoBuffer,
            Sample::NotReadable => SampleView::NotReadable,
            Sample::NoFormat => SampleView::NoFormat,
            Sample::Frame(frame) => SampleView::Frame(frame.deep_view()),
        }
    }
}

/// Why the sink turns a frame down, as the pipeline is told.
#[derive(Clone, Copy, Debug, PartialEq, Eq)]
pub enum FlowError {
    /// Nothing more is to come.
    Eos,
    /// The frame could not be taken.
    Error,
}

/// One step of what the sink has decided to do.
#[derive(Clone, Debug, PartialEq, Eq)]
pub enum SinkStep {
    /// Put this message into the controller's inbox, without waiting for it
    /// to be handled.
    Enqueue(InternalMessage),
    /// Call the frame handler with this frame.
    Handle(FrameData),
    /// Send this event to the caller.
    Emit(VideoStreamEvent),
    /// Post an error with this text on the pipeline's bus.
    PostError(String),
}

/// What the specifications say of a [`SinkStep`].
pub enum SinkStepView {
    Enqueue(InternalMessage),
    Handle(FrameDataView),
    Emit(VideoStreamEventView),
    PostError(Seq<char>),
}

impl DeepView for SinkStep {
    type V = SinkStepView;

    open spec fn deep_view(&self) -> SinkStepView {
        match self {
            SinkStep::Enqueue(message) => SinkStepView::Enqueue(*message),
            SinkStep::Handle(frame) => SinkStepView::Handle(frame.deep_view()),
            SinkStep::Emit(event) => SinkStepView::Emit(event.deep_view()),
            SinkStep::PostError(text) => SinkStepView::PostError(text@),
        }
    }
}

/// What the sink does about one announced frame.
#[derive(Debug, PartialEq, Eq)]
pub struct Delivery {
    /// The steps to carry out, from first to last.
    pub steps: Vec<SinkStep>,
    /// The answer to the pipeline once the steps are done.
    pub flow: Result<(), FlowError>,
}

/// The text posted on the bus for a sample without a buffer.
pub open spec fn no_buffer_text() -> Seq<char> {
    "Failed to get buffer from appsink"@
}

/// The text posted on the bus for a buffer that cannot be read.
pub open spec fn not_readable_text() -> Seq<char> {
    "Failed to map buffer readable"@
}

/// The text posted on the bus for a sample whose format cannot be read.
pub open spec fn no_format_text() -> Seq<char> {
    "Failed to read the format of the sample"@
}

/// The steps that the sink takes for a sample.
///
/// For a frame the sink asks the controller to report the position afresh,
/// hands the frame to the frame handler, and then tells the caller that a
/// frame has arrived: once each, in this order. A sample that yields no
/// frame reaches neither the controller nor the handler nor the caller; what
/// is wrong with it is posted on the bus, unless there was no sample at all.
pub open spec fn sink_steps(sample: SampleView) -> Seq<SinkStepView> {
    match sample {
        SampleView::Missing => Seq::empty(),
        SampleView::NoBuffer => seq![SinkStepView::PostError(no_buffer_text())],
        SampleView::NotReadable => seq![SinkStepView::PostError(not_readable_text())],
        SampleView::NoFormat => seq![SinkStepView::PostError(no_format_text())],
        SampleView::Frame(frame) => seq![
            SinkStepView::Enqueue(InternalMessage::RequestPositionUpdate),
            SinkStepView::Handle(frame),
            SinkStepView::Emit(VideoStreamEventView::NewFrame),
        ],
    }
}

/// The sink's answer to the pipeline for a sample.
///
/// A frame is accepted. Where no sample could be pulled the stream has
/// ended; any other sample without a frame is an error of this one
/// delivery, after which the pipeline may go on.
pub open spec fn sink_flow(sample: SampleView) -> Result<(), FlowError> {
    match sample {
        SampleView::Missing => Err(FlowError::Eos),
        SampleView::Frame(_) => Ok(()),
        _ => Err(FlowError::Error),
    }
}

/// Decides what to do about a frame that the pipeline has announced.
pub fn memory_video_sink(sample: Sample) -> (delivery: Delivery)
    ensures
        delivery.steps.deep_view() == sink_steps(sample.deep_view()),
        delivery.flow == sink_flow(sample.deep_view()),
{
    let mut steps: Vec<SinkStep> = Vec::new();
    let flow = match sample {
        Sample::Missing => Err(FlowError::Eos),
        Sample::NoBuffer => {
            steps.push(SinkStep::PostError("Failed to get buffer from appsink".to_string()));
            Err(FlowError::Error)
        },
        Sample::NotReadable => {
            steps.push(SinkStep::PostError("Failed to map buffer readable".to_string()));
            Err(FlowError::Error)
        },
        Sample::NoFormat => {
            steps.push(SinkStep::PostError("Failed to read the format of the sample".to_string()));
            Err(FlowError::Error)
        },
        Sample::Frame(frame) => {
            steps.push(SinkStep::Enqueue(InternalMessage::RequestPositionUpdate));
            steps.push(SinkStep::Handle(frame));
            steps.push(SinkStep::Emit(VideoStreamEvent::NewFrame));
            Ok(())
        },
    };
    assert(steps.deep_view() =~= sink_steps(sample.deep_view()));
    Delivery { steps, flow }
}

/// The steps that the sink takes for a run of samples, one after the other.
pub open spec fn sink_steps_of_all(samples: Seq<SampleView>) -> Seq<SinkStepView>
    decreases samples.len(),
{
    if samples.len() == 0 {
        Seq::empty()
    } else {
        sink_steps(samples.first()) + sink_steps_of_all(samples.drop_first())
    }
}

/// The frames among a run of samples, in the order of their arrival.
pub open spec fn frames_of(samples: Seq<SampleView>) -> Seq<FrameDataView>
    decreases samples.len(),
{
    if samples.len() == 0 {
        Seq::empty()
    } else {
        match samples.first() {
            SampleView::Frame(frame) => seq![frame] + frames_of(samples.drop_first()),
            _ => frames_of(samples.drop_first()),
        }
    }
}

/// The frames that a list of steps hands to the frame handler, call by call.
pub open spec fn handled_frames(steps: Seq<SinkStepView>) -> Seq<FrameDataView>
    decreases steps.len(),
{
    if steps.len() == 0 {
        Seq::empty()
    } else {
        match steps.first() {
            SinkStepView::Handle(frame) => seq![frame] + handled_frames(steps.drop_first()),
            _ => handled_frames(steps.drop_first()),
        }
    }
}

/// How often a list of steps tells the caller of a new frame.
pub open spec fn new_frame_events(steps: Seq<SinkStepView>) -> nat
    decreases steps.len(),
{
    if steps.len() == 0 {
        0
    } else if steps.first() == SinkStepView::Emit(VideoStreamEventView::NewFrame) {
        1 + new_frame_events(steps.drop_first())
    } else {
        new_frame_events(steps.drop_first())
    }
}

/// How often a list of steps asks the controller to report the position
/// afresh.
pub open spec fn position_requests(steps: Seq<SinkStepView>) -> nat
    decreases steps.len(),
{
    if steps.len() == 0 {
        0
    } else if steps.first() == SinkStepView::Enqueue(InternalMessage::RequestPositionUpdate) {
        1 + position_requests(steps.drop_first())
    } else {
        position_requests(steps.drop_first())
    }
}

proof fn lemma_counts_concat(first: Seq<SinkStepView>, second: Seq<SinkStepView>)
    ensures
        handled_frames(first + second) == handled_frames(first) + handled_frames(second),
        new_frame_events(first + second) == new_frame_events(first) + new_frame_events(second),
        position_requests(first + second) == position_requests(first) + position_requests(second),
    decreases first.len(),
{
    if first.len() == 0 {
        assert(first + second =~= second);
        assert(handled_frames(first) + handled_frames(second) =~= handled_frames(second));
    } else {
        assert((first + second).drop_first() =~= first.drop_first() + second);
        lemma_counts_concat(first.drop_first(), second);
        match first.first() {
            SinkStepView::Handle(frame) => {
                assert(seq![frame] + (handled_frames(first.drop_first()) + handled_frames(second))
                    =~= (seq![frame] + handled_frames(first.drop_first())) + handled_frames(
                    second,
                ));
            },
            _ => {},
        }
    }
}

proof fn lemma_counts_of_sample(sample: SampleView)
    ensures
        handled_frames(sink_steps(sample)) == match sample {
            SampleView::Frame(frame) => seq![frame],
            _ => Seq::empty(),
        },
        new_frame_events(sink_steps(sample)) == (if sample is Frame { 1nat } else { 0nat }),
        position_requests(sink_steps(sample)) == (if sample is Frame { 1nat } else { 0nat }),
{
    let steps = sink_steps(sample);
    reveal_with_fuel(handled_frames, 4);
    reveal_with_fuel(new_frame_events, 4);
    reveal_with_fuel(position_requests, 4);
    match sample {
        SampleView::Missing => {},
        SampleView::Frame(frame) => {
            assert(steps.drop_first() =~= seq![steps[1], steps[2]]);
            assert(steps.drop_first().drop_first() =~= seq![steps[2]]);
            assert(steps.drop_first().drop_first().drop_first() =~= Seq::empty());
            assert(handled_frames(steps) =~= seq![frame]);
        },
        _ => {
            assert(steps.drop_first() =~= Seq::empty());
            assert(handled_frames(steps) =~= Seq::empty());
        },
    }
}

/// Each frame that arrives is handed to the frame handler once and told to
/// the caller once, and causes one request for the position.
///
/// Over any run of samples, the frames that the sink hands to the handler
/// are the frames among the samples, each once and in the order of arrival;
/// and there are as many new-frame events, and as many requests for the
/// position, as there are frames.
pub proof fn law_one_delivery_per_frame(samples: Seq<SampleView>)
    ensures
        handled_frames(sink_steps_of_all(samples)) == frames_of(samples),
        new_frame_events(sink_steps_of_all(samples)) == frames_of(samples).len(),
        position_requests(sink_steps_of_all(samples)) == frames_of(samples).len(),
    decreases samples.len(),
{
    if samples.len() == 0 {
    } else {
        law_one_delivery_per_frame(samples.drop_first());
        lemma_counts_of_sample(samples.first());
        lemma_counts_concat(sink_steps(samples.first()), sink_steps_of_all(samples.drop_first()));
        assert(handled_frames(sink_steps_of_all(samples)) =~= frames_of(samples));
    }
}

/// The caller hears of a frame only after the handler has had it.
///
/// Wherever, among the steps for any run of samples, a new-frame event is
/// sent, the step just before it hands a frame to the frame handler, and the
/// step before that asks the controller to report the position afresh.
pub proof fn law_frame_handled_before_announced(samples: Seq<SampleView>, i: int)
    requires
        0 <= i < sink_steps_of_all(samples).len(),
        sink_steps_of_all(samples)[i] == SinkStepView::Emit(VideoStreamEventView::NewFrame),
    ensures
        i >= 2,
        sink_steps_of_all(samples)[i - 1] is Handle,
        sink_steps_of_all(samples)[i - 2] == SinkStepView::Enqueue(
            InternalMessage::RequestPositionUpdate,
        ),
    decreases samples.len(),
{
    if samples.len() > 0 {
        let head = sink_steps(samples.first());
        if i >= head.len() {
            law_frame_handled_before_announced(samples.drop_first(), i - head.len());
        }
    }
}

} // verus!
