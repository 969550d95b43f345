//! The vocabulary of a session and the decisions of its controller.
//!
//! A caller sends [`VideoStreamAction`]s and receives [`VideoStreamEvent`]s.
//! The controller owns the pipeline; for each message from its inbox it
//! decides which events to emit and which calls to make on the pipeline, and
//! in which order. The decision is a list of [`Effect`]s that the thread
//! owning the pipeline carries out from first to last.

use crate::playbin_query::{reported_nanoseconds, QueryReply};
use crate::units::{MediaTime, Volume};
use crate::video_info::{PlayingState, VideoInfo, VideoInfoView};
use vstd::prelude::*;

verus! {

broadcast use vstd::string::group_string_axioms;

/// An action that a caller asks of the video stream.
#[derive(Clone, Copy, Debug, PartialEq, Eq)]
pub enum VideoStreamAction {
    /// Show the subtitle track with this id. `None` asks for no subtitles,
    /// which the controller rejects with an error event.
    SetCurrentSubtitleTrack(Option<usize>),
    /// Play the audio track with this id. `None` asks for no audio, which the
    /// controller rejects with an error event.
    SetCurrentAudioTrack(Option<usize>),
    /// Set the volume.
    SetVolume(Volume),
    /// Start or resume playback.
    SetPlay,
    /// Pause playback.
    SetPause,
    /// Seek to an absolute position.
    SeekToSeconds(MediaTime),
    /// Close the session.
    Close,
}

/// An event that the video stream reports to the caller.
#[derive(Clone, Debug, PartialEq, Eq)]
pub enum VideoStreamEvent {
    /// The video has loaded; the snapshot describes it.
    VideoLoaded(VideoInfo),
    /// A frame has been handed to the frame handler.
    NewFrame,
    /// An action could not be carried out.
    Error(String),
    /// The audio track with this id is now playing.
    CurrentAudioTrackChanged(usize),
    /// The subtitle track with this id is now shown.
    CurrentSubtitleTrackChanged(usize),
    /// The volume has changed.
    VolumeChanged(Volume),
    /// Playback has been resumed or paused.
    PlayingStateChanged(PlayingState),
    /// The playback position has changed.
    PositionChanged(MediaTime),
    /// The session has closed; no event follows.
    Closed,
}

/// What the specifications say of a [`VideoStreamEvent`].
pub enum VideoStreamEventView {
    VideoLoaded(VideoInfoView),
    NewFrame,
    Error(Seq<char>),
    CurrentAudioTrackChanged(usize),
    CurrentSubtitleTrackChanged(usize),
    VolumeChanged(Volume),
    PlayingStateChanged(PlayingState),
    PositionChanged(MediaTime),
    Closed,
}

impl DeepView for VideoStreamEvent {
    type V = VideoStreamEventView;

    open spec fn deep_view(&self) -> VideoStreamEventView {
        match self {
            VideoStreamEvent::VideoLoaded(info) => VideoStreamEventView::VideoLoaded(
                info.deep_view(),
            ),
            VideoStreamEvent::NewFrame => VideoStreamEventView::NewFrame,
            VideoStreamEvent::Error(message) => VideoStreamEventView::Error(message@),
            VideoStreamEvent::CurrentAudioTrackChanged(id) => {
                VideoStreamEventView::CurrentAudioTrackChanged(*id)
            },
            VideoStreamEvent::CurrentSubtitleTrackChanged(id) => {
                VideoStreamEventView::CurrentSubtitleTrackChanged(*id)
            },
            VideoStreamEvent::VolumeChanged(volume) => VideoStreamEventView::VolumeChanged(*volume),
            VideoStreamEvent::PlayingStateChanged(state) => {
                VideoStreamEventView::PlayingStateChanged(*state)
            },
            VideoStreamEvent::PositionChanged(position) => {
                VideoStreamEventView::PositionChanged(*position)
            },
            VideoStreamEvent::Closed => VideoStreamEventView::Closed,
        }
    }
}

/// What the specifications say of a [`FrameData`].
pub struct FrameDataView {
    pub data: Seq<u8>,
    pub width: usize,
    pub height: usize,
}

/// One video frame in memory of its own.
///
/// `data` holds four bytes per pixel in the order red, green, blue, alpha;
/// `size` is the width and the height of the frame in pixels. A frame belongs
/// to whoever holds it and is not changed once it has been made.
#[derive(Clone, Debug, PartialEq, Eq)]
pub struct FrameData {
    pub data: Vec<u8>,
    pub size: [usize; 2],
}

impl DeepView for FrameData {
    type V = FrameDataView;

    open spec fn deep_view(&self) -> FrameDataView {
        FrameDataView { data: self.data@, width: self.size@[0], height: self.size@[1] }
    }
}

impl Default for FrameData {
    fn default() -> (frame: Self)
        ensures
            frame.deep_view() == (FrameDataView { data: Seq::empty(), width: 0, height: 0 }),
    {
        FrameData { data: Vec::new(), size: [0, 0] }
    }
}

/// A message in the controller's inbox: an action of the caller, or the
/// frame sink's request to report the playback position afresh.
#[derive(Clone, Copy, Debug, PartialEq, Eq)]
pub enum InternalMessage {
    VideoStreamAction(VideoStreamAction),
    RequestPositionUpdate,
}

/// A call that the controller makes on the pipeline.
#[derive(Clone, Copy, Debug, PartialEq, Eq)]
pub enum PipelineCall {
    /// Make the text stream with this number the current one.
    SelectSubtitleTrack(i32),
    /// Make the audio stream with this number the current one.
    SelectAudioTrack(i32),
    /// Set the volume.
    SetVolume(Volume),
    /// Bring the pipeline into this state; `Stopped` shuts it down.
    SetState(PlayingState),
    /// Seek to this position at normal rate, flushing the pipeline and
    /// landing on the position exactly.
    Seek(MediaTime),
    /// Ask for the current playback position.
    QueryPosition,
}

/// One step of what the controller has decided to do.
#[derive(Clone, Debug, PartialEq, Eq)]
pub enum Effect {
    /// Send this event to the caller.
    Emit(VideoStreamEvent),
    /// Make this call on the pipeline.
    Call(PipelineCall),
}

/// What the specifications say of an [`Effect`].
pub enum EffectView {
    Emit(VideoStreamEventView),
    Call(PipelineCall),
}

impl DeepView for Effect {
    type V = EffectView;

    open spec fn deep_view(&self) -> EffectView {
        match self {
            Effect::Emit(event) => EffectView::Emit(event.deep_view()),
            Effect::Call(call) => EffectView::Call(*call),
        }
    }
}

/// What the controller does about one message.
#[derive(Clone, Debug, PartialEq, Eq)]
pub struct Outcome {
    /// The steps to carry out, from first to last.
    pub effects: Vec<Effect>,
    /// Whether the controller leaves its loop once the steps are done.
    pub close: bool,
}

/// The number of the stream that the pipeline is given for a track id.
///
/// The pipeline numbers its streams with 32 bits and a sign. An id in that
/// range is the number. A larger id is cut to its lowest 32 bits, which are
/// read as a number in two's complement.
pub open spec fn stream_number(id: usize) -> i32 {
    let low = id as int % 0x1_0000_0000;
    if low < 0x8000_0000 {
        low as i32
    } else {
        (low - 0x1_0000_0000) as i32
    }
}

/// Computes the number of the stream that the pipeline is given for a
/// track id.
pub fn track_stream(id: usize) -> (number: i32)
    ensures
        number == stream_number(id),
{
    let low: u64 = (id as u64) % 0x1_0000_0000;
    if low < 0x8000_0000 {
        low as i32
    } else {
        (low as i64 - 0x1_0000_0000) as i32
    }
}

/// The text of the error event that answers a request for no subtitles.
pub open spec fn subtitles_cannot_be_disabled() -> Seq<char> {
    "disabling subtitles is not supported"@
}

/// The text of the error event that answers a request for no audio.
pub open spec fn audio_cannot_be_disabled() -> Seq<char> {
    "disabling audio is not supported"@
}

/// The steps by which the controller carries out an action.
///
/// A track is selected, and playback started, paused or stopped, before the
/// event tells of it. A new volume and a seek are announced first and
/// applied after. A request for no subtitles or no audio touches nothing and
/// is answered with an error event.
pub open spec fn action_effects(action: VideoStreamAction) -> Seq<EffectView> {
    match action {
        VideoStreamAction::SetCurrentSubtitleTrack(Some(id)) => seq![
            EffectView::Call(PipelineCall::SelectSubtitleTrack(stream_number(id))),
            EffectView::Emit(VideoStreamEventView::CurrentSubtitleTrackChanged(id)),
        ],
        VideoStreamAction::SetCurrentSubtitleTrack(None) => seq![
            EffectView::Emit(VideoStreamEventView::Error(subtitles_cannot_be_disabled())),
        ],
        VideoStreamAction::SetCurrentAudioTrack(Some(id)) => seq![
            EffectView::Call(PipelineCall::SelectAudioTrack(stream_number(id))),
            EffectView::Emit(VideoStreamEventView::CurrentAudioTrackChanged(id)),
        ],
        VideoStreamAction::SetCurrentAudioTrack(None) => seq![
            EffectView::Emit(VideoStreamEventView::Error(audio_cannot_be_disabled())),
        ],
        VideoStreamAction::SetVolume(volume) => seq![
            EffectView::Emit(VideoStreamEventView::VolumeChanged(volume)),
            EffectView::Call(PipelineCall::SetVolume(volume)),
        ],
        VideoStreamAction::SetPlay => seq![
            EffectView::Call(PipelineCall::SetState(PlayingState::Playing)),
            EffectView::Emit(VideoStreamEventView::PlayingStateChanged(PlayingState::Playing)),
        ],
        VideoStreamAction::SetPause => seq![
            EffectView::Call(PipelineCall::SetState(PlayingState::Paused)),
            EffectView::Emit(VideoStreamEventView::PlayingStateChanged(PlayingState::Paused)),
        ],
        VideoStreamAction::SeekToSeconds(position) => seq![
            EffectView::Emit(VideoStreamEventView::PositionChanged(position)),
            EffectView::Call(PipelineCall::Seek(position)),
        ],
        VideoStreamAction::Close => seq![
            EffectView::Call(PipelineCall::SetState(PlayingState::Stopped)),
            EffectView::Emit(VideoStreamEventView::Closed),
        ],
    }
}

/// Decides how to carry out an action of the caller.
///
/// Only `Close` ends the controller's loop.
pub fn handle_action(action: VideoStreamAction) -> (outcome: Outcome)
    ensures
        outcome.effects.deep_view() == action_effects(action),
        outcome.close == (action is Close),
{
    let mut effects: Vec<Effect> = Vec::new();
    let mut close = false;
    match action {
        VideoStreamAction::SetCurrentSubtitleTrack(Some(id)) => {
            effects.push(Effect::Call(PipelineCall::SelectSubtitleTrack(track_stream(id))));
            effects.push(Effect::Emit(VideoStreamEvent::CurrentSubtitleTrackChanged(id)));
        },
        VideoStreamAction::SetCurrentSubtitleTrack(None) => {
            let message = "disabling subtitles is not supported".to_string();
            effects.push(Effect::Emit(VideoStreamEvent::Error(message)));
        },
        VideoStreamAction::SetCurrentAudioTrack(Some(id)) => {
            effects.push(Effect::Call(PipelineCall::SelectAudioTrack(track_stream(id))));
            effects.push(Effect::Emit(VideoStreamEvent::CurrentAudioTrackChanged(id)));
        },
        VideoStreamAction::SetCurrentAudioTrack(None) => {
            let message = "disabling audio is not supported".to_string();
            effects.push(Effect::Emit(VideoStreamEvent::Error(message)));
        },
        VideoStreamAction::SetVolume(volume) => {
            effects.push(Effect::Emit(VideoStreamEvent::VolumeChanged(volume)));
            effects.push(Effect::Call(PipelineCall::SetVolume(volume)));
        },
        VideoStreamAction::SetPlay => {
            effects.push(Effect::Call(PipelineCall::SetState(PlayingState::Playing)));
            effects.push(Effect::Emit(VideoStreamEvent::PlayingStateChanged(PlayingState::Playing)));
        },
        VideoStreamAction::SetPause => {
            effects.push(Effect::Call(PipelineCall::SetState(PlayingState::Paused)));
            effects.push(Effect::Emit(VideoStreamEvent::PlayingStateChanged(PlayingState::Paused)));
        },
        VideoStreamAction::SeekToSeconds(position) => {
            effects.push(Effect::Emit(VideoStreamEvent::PositionChanged(position)));
            effects.push(Effect::Call(PipelineCall::Seek(position)));
        },
        VideoStreamAction::Close => {
            effects.push(Effect::Call(PipelineCall::SetState(PlayingState::Stopped)));
            effects.push(Effect::Emit(VideoStreamEvent::Closed));
            close = true;
        },
    }
    assert(effects.deep_view() =~= action_effects(action));
    Outcome { effects, close }
}

/// The steps by which the controller deals with a message from its inbox.
///
/// An action is carried out as [`action_effects`] says. A request to refresh
/// the position makes the controller ask the pipeline where playback stands;
/// what it does with the answer is [`position_reply_effects`].
pub open spec fn message_effects(message: InternalMessage) -> Seq<EffectView> {
    match message {
        InternalMessage::VideoStreamAction(action) => action_effects(action),
        InternalMessage::RequestPositionUpdate => seq![
            EffectView::Call(PipelineCall::QueryPosition),
        ],
    }
}

/// Whether a message ends the controller's loop: only the action `Close` does.
pub open spec fn message_closes(message: InternalMessage) -> bool {
    message == InternalMessage::VideoStreamAction(VideoStreamAction::Close)
}

/// Decides how to deal with a message from the controller's inbox.
pub fn handle_message(message: InternalMessage) -> (outcome: Outcome)
    ensures
        outcome.effects.deep_view() == message_effects(message),
        outcome.close == message_closes(message),
{
    match message {
        InternalMessage::VideoStreamAction(action) => handle_action(action),
        InternalMessage::RequestPositionUpdate => {
            let mut effects: Vec<Effect> = Vec::new();
            effects.push(Effect::Call(PipelineCall::QueryPosition));
            assert(effects.deep_view() =~= message_effects(message));
            Outcome { effects, close: false }
        },
    }
}

/// The steps that follow the pipeline's answer to a position query.
///
/// A position that the answer reports is passed on to the caller as a
/// position-changed event. Where the answer reports none, because the query
/// failed or because it holds no known time, there is no step: no position
/// is made up, and the caller hears of the position at the next refresh.
pub open spec fn position_reply_effects(reply: QueryReply) -> Seq<EffectView> {
    match reported_nanoseconds(reply) {
        Some(nanoseconds) => seq![
            EffectView::Emit(
                VideoStreamEventView::PositionChanged(MediaTime::Nanoseconds(nanoseconds)),
            ),
        ],
        None => Seq::empty(),
    }
}

/// Decides what to do with the pipeline's answer to a position query.
pub fn handle_position_reply(reply: QueryReply) -> (effects: Vec<Effect>)
    ensures
        effects.deep_view() == position_reply_effects(reply),
{
    let mut effects: Vec<Effect> = Vec::new();
    match crate::playbin_query::nanoseconds(reply) {
        Some(nanoseconds) => {
            effects.push(
                Effect::Emit(VideoStreamEvent::PositionChanged(MediaTime::Nanoseconds(nanoseconds))),
            );
        },
        None => {},
    }
    assert(effects.deep_view() =~= position_reply_effects(reply));
    effects
}

/// What the controller makes of a pipeline call that failed.
#[derive(Clone, Copy, Debug, PartialEq, Eq)]
pub enum FailurePolicy {
    /// The session cannot go on: the controller gives up.
    Fatal,
    /// The failure is passing: the controller goes on with the next step,
    /// and the caller hears nothing of it.
    Ignored,
}

/// How a failure of each pipeline call is taken.
///
/// A seek or a position query that fails is passed over. Any other failure
/// means that the pipeline is not what the session was set up for, and is
/// fatal.
pub open spec fn failure_policy_of(call: PipelineCall) -> FailurePolicy {
    match call {
        PipelineCall::Seek(_) => FailurePolicy::Ignored,
        PipelineCall::QueryPosition => FailurePolicy::Ignored,
        _ => FailurePolicy::Fatal,
    }
}

/// Decides what a failed pipeline call means for the session.
pub fn failure_policy(call: PipelineCall) -> (policy: FailurePolicy)
    ensures
        policy == failure_policy_of(call),
{
    match call {
        PipelineCall::Seek(_) => FailurePolicy::Ignored,
        PipelineCall::QueryPosition => FailurePolicy::Ignored,
        PipelineCall::SelectSubtitleTrack(_) => FailurePolicy::Fatal,
        PipelineCall::SelectAudioTrack(_) => FailurePolicy::Fatal,
        PipelineCall::SetVolume(_) => FailurePolicy::Fatal,
        PipelineCall::SetState(_) => FailurePolicy::Fatal,
    }
}

/// Decides how the command relay passes on an action of the caller.
///
/// Every action goes into the controller's inbox as it is. After `Close`
/// the relay stops: no action is taken from the caller any more.
pub fn relay_action(action: VideoStreamAction) -> (relayed: (InternalMessage, bool))
    ensures
        relayed.0 == InternalMessage::VideoStreamAction(action),
        relayed.1 == (action is Close),
{
    let stop = match action {
        VideoStreamAction::Close => true,
        _ => false,
    };
    (InternalMessage::VideoStreamAction(action), stop)
}

/// The messages that the command relay puts into the controller's inbox
/// for a run of actions: every action up to the first `Close`, and that
/// `Close` itself.
pub open spec fn relayed(actions: Seq<VideoStreamAction>) -> Seq<InternalMessage>
    decreases actions.len(),
{
    if actions.len() == 0 {
        Seq::empty()
    } else if actions.first() is Close {
        seq![InternalMessage::VideoStreamAction(actions.first())]
    } else {
        seq![InternalMessage::VideoStreamAction(actions.first())] + relayed(actions.drop_first())
    }
}

/// The messages as which a run of actions would reach the controller's
/// inbox if each of them were forwarded.
pub open spec fn as_messages(actions: Seq<VideoStreamAction>) -> Seq<InternalMessage> {
    actions.map_values(|action: VideoStreamAction| InternalMessage::VideoStreamAction(action))
}

/// The message that closes a session.
pub open spec fn close_message() -> InternalMessage {
    InternalMessage::VideoStreamAction(VideoStreamAction::Close)
}

/// The command relay drops no action before `Close`, and forwards none
/// after it.
///
/// A run of actions without `Close` is forwarded whole. Where `Close`
/// follows such a run, it is forwarded as well, and whatever `tail` of
/// actions comes after it is not.
pub proof fn law_relay_forwards_until_close(
    head: Seq<VideoStreamAction>,
    tail: Seq<VideoStreamAction>,
)
    requires
        forall|i: int| 0 <= i < head.len() ==> !(#[trigger] head[i] is Close),
    ensures
        relayed(head) == as_messages(head),
        relayed(head + seq![VideoStreamAction::Close] + tail) == as_messages(head).push(
            close_message(),
        ),
    decreases head.len(),
{
    let closing = seq![VideoStreamAction::Close];
    if head.len() == 0 {
        assert(relayed(head) =~= as_messages(head));
        assert((head + closing + tail).first() == VideoStreamAction::Close);
        assert(relayed(head + closing + tail) =~= as_messages(head).push(close_message()));
    } else {
        assert(!(head[0] is Close));
        assert forall|i: int| 0 <= i < head.drop_first().len() implies !(
        #[trigger] head.drop_first()[i] is Close) by {
            assert(head.drop_first()[i] == head[i + 1]);
        }
        law_relay_forwards_until_close(head.drop_first(), tail);
        assert((head + closing + tail).first() == head.first());
        assert((head + closing + tail).drop_first() =~= head.drop_first() + closing + tail);
        assert(relayed(head) =~= as_messages(head));
        assert(relayed(head + closing + tail) =~= as_messages(head).push(close_message()));
    }
}

/// A new volume is announced to the caller before the pipeline is told of
/// it: the controller's two steps for `SetVolume` are the event and then the
/// call, both with the volume that was asked for.
pub proof fn law_volume_announced_before_applied(volume: Volume)
    ensures
        action_effects(VideoStreamAction::SetVolume(volume)) == seq![
            EffectView::Emit(VideoStreamEventView::VolumeChanged(volume)),
            EffectView::Call(PipelineCall::SetVolume(volume)),
        ],
{
}

/// A seek is announced to the caller before the pipeline is told of it: the
/// controller's two steps for `SeekToSeconds` are the event and then the
/// call, both with the position that was asked for. Should the seek fail,
/// the failure is passed over: the session goes on and the caller hears
/// nothing more.
pub proof fn law_seek_announced_before_issued(position: MediaTime)
    ensures
        action_effects(VideoStreamAction::SeekToSeconds(position)) == seq![
            EffectView::Emit(VideoStreamEventView::PositionChanged(position)),
            EffectView::Call(PipelineCall::Seek(position)),
        ],
        failure_policy_of(PipelineCall::Seek(position)) == FailurePolicy::Ignored,
{
}

} // verus!
