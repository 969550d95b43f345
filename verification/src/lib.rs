//! A message-passing control surface over a media playback pipeline.
//!
//! A caller opens a session on a video, sends it actions and receives
//! events, while a frame handler of the caller's is handed every decoded
//! frame. This crate holds the decisions of such a session: what the
//! controller does about each message and in which order, how the session
//! moves from opening to closed, what the frame sink does about each frame,
//! when the command relay and the bus monitor stop, and how the snapshot of a
//! loaded video is made from what the pipeline reports.
//!
//! Nothing here touches a pipeline, a channel or a thread. Each decision is a
//! value: a list of steps that the thread owning the pipeline carries out.
//! What is stated of these lists holds of every run of messages, and is
//! proved.

pub mod bus;
pub mod frame_handler;
pub mod playbin_query;
pub mod session;
pub mod streamer;
pub mod units;
pub mod video_info;
pub mod video_sink;

pub use bus::BusMessage;
pub use frame_handler::FrameHandler;
pub use playbin_query::{QueryReply, TrackTags};
pub use session::{Session, SessionError, SessionState, Worker};
pub use streamer::{
    Effect, FailurePolicy, FrameData, InternalMessage, Outcome, PipelineCall, VideoStreamAction,
    VideoStreamEvent,
};
pub use units::{MediaTime, Volume, FULL_VOLUME_BITS};
pub use video_info::{AudioTrack, PlayingState, SubtitleTrack, VideoInfo};
pub use video_sink::{Delivery, FlowError, Sample, SinkStep};
