//! The life of a session, from opening to closed.
//!
//! A session is opening until its video has loaded. It then plays or is
//! paused, as the caller's actions say, until the action `Close` arrives.
//! From then on it is closing: the pipeline is stopped, the caller has been
//! told, and no further message is handled. Once the session's two helper
//! threads have been joined it is closed. A running session also becomes
//! closing, without a word to the caller, should its inbox close.
//!
//! [`Session`] keeps track of this. The thread that owns the pipeline calls
//! it at each point and carries out what it returns.

use crate::streamer::{
    action_effects, as_messages, audio_cannot_be_disabled, close_message, handle_message,
    law_relay_forwards_until_close, message_closes, message_effects, relayed,
    subtitles_cannot_be_disabled, Effect, EffectView, InternalMessage, PipelineCall,
    VideoStreamAction, VideoStreamEvent, VideoStreamEventView,
};
use crate::playbin_query::{
    audio_tracks, listed_tracks, reported_duration, subtitle_tracks, video_duration, QueryReply,
    TrackTags,
};
use crate::units::{MediaTime, Volume};
use crate::video_info::{loaded_video_info, PlayingState, VideoInfo};
use vstd::prelude::*;

verus! {

/// Where a session stands in its life.
#[derive(Clone, Copy, Debug, PartialEq, Eq)]
pub enum SessionState {
    /// The pipeline has been told to start and the video is loading.
    Opening,
    /// The video plays.
    Playing,
    /// The video is paused.
    Paused,
    /// `Close` has been handled; the helper threads are still to be joined.
    Closing,
    /// Nothing of the session is left.
    Closed,
}

impl SessionState {
    /// Whether messages are handled in this state: while the video plays or
    /// is paused.
    pub open spec fn is_running(self) -> bool {
        self is Playing || self is Paused
    }
}

/// Why a session refused a step of its life.
#[derive(Clone, Copy, Debug, PartialEq, Eq)]
pub enum SessionError {
    /// The video was reported as loaded to a session that is not opening.
    NotOpening,
    /// A message, or the news that the inbox has closed, was handed to a
    /// session that neither plays nor is paused.
    NotRunning,
    /// A session that is not closing was asked to shut down.
    NotClosing,
}

/// A helper thread of a session.
#[derive(Clone, Copy, Debug, PartialEq, Eq)]
pub enum Worker {
    /// Forwards the caller's actions to the controller's inbox.
    CommandRelay,
    /// Watches the notifications of the pipeline.
    BusMonitor,
}

/// The state in which a message leaves a session.
///
/// Playing and pausing move a running session between its two running
/// states, and `Close` makes it closing. A session that is not running
/// handles no message and stays as it is.
pub open spec fn state_after(state: SessionState, message: InternalMessage) -> SessionState {
    if !state.is_running() {
        state
    } else {
        match message {
            InternalMessage::VideoStreamAction(VideoStreamAction::SetPlay) => SessionState::Playing,
            InternalMessage::VideoStreamAction(VideoStreamAction::SetPause) => SessionState::Paused,
            InternalMessage::VideoStreamAction(VideoStreamAction::Close) => SessionState::Closing,
            _ => state,
        }
    }
}

/// The steps that a message causes in a session: those of
/// [`message_effects`] while it is running, and none otherwise.
pub open spec fn effects_in(state: SessionState, message: InternalMessage) -> Seq<EffectView> {
    if state.is_running() {
        message_effects(message)
    } else {
        Seq::empty()
    }
}

/// The order in which a closing session joins its helper threads.
pub open spec fn join_order() -> Seq<Worker> {
    seq![Worker::CommandRelay, Worker::BusMonitor]
}

/// One playback session.
pub struct Session {
    state: SessionState,
}

impl View for Session {
    type V = SessionState;

    closed spec fn view(&self) -> SessionState {
        self.state
    }
}

impl Session {
    /// Opens a session on a pipeline that has just been built.
    ///
    /// The one step to carry out is to start the pipeline. The session stays
    /// opening until [`Session::video_loaded`] is called, which is due when
    /// the pipeline has reported that loading is complete.
    pub fn open() -> (opened: (Session, Vec<Effect>))
        ensures
            opened.0@ == SessionState::Opening,
            opened.1.deep_view() == seq![
                EffectView::Call(PipelineCall::SetState(PlayingState::Playing)),
            ],
    {
        let mut effects: Vec<Effect> = Vec::new();
        effects.push(Effect::Call(PipelineCall::SetState(PlayingState::Playing)));
        assert(effects.deep_view() =~= seq![
            EffectView::Call(PipelineCall::SetState(PlayingState::Playing)),
        ]);
        (Session { state: SessionState::Opening }, effects)
    }

    /// The state of the session.
    pub fn state(&self) -> (state: SessionState)
        ensures
            state == self@,
    {
        self.state
    }

    /// Whether the session handles messages.
    pub fn is_running(&self) -> (running: bool)
        ensures
            running == self@.is_running(),
    {
        match self.state {
            SessionState::Playing => true,
            SessionState::Paused => true,
            _ => false,
        }
    }

    /// Records that the video has loaded, and reports it.
    ///
    /// All arguments are what the pipeline reported: the `title` of the
    /// video; the current subtitle and audio track; for each text stream
    /// and each audio stream the tags that it returned (`text_tags`,
    /// `audio_tags`); and its answer to a query for the length of the video
    /// (`duration`). An opening session starts to play and tells the caller
    /// that the video has loaded, with a snapshot made of these. Any other
    /// session refuses and stays as it is.
    pub fn video_loaded(
        &mut self,
        title: String,
        current_subtitle_track: Option<usize>,
        current_audio_track: Option<usize>,
        text_tags: &Vec<Option<TrackTags>>,
        audio_tags: &Vec<Option<TrackTags>>,
        duration: QueryReply,
    ) -> (result: Result<Vec<Effect>, SessionError>)
        ensures
            old(self)@ is Opening ==> {
                &&& final(self)@ == SessionState::Playing
                &&& result is Ok
                &&& result->Ok_0.deep_view() == seq![
                    EffectView::Emit(
                        VideoStreamEventView::VideoLoaded(
                            loaded_video_info(
                                title@,
                                current_subtitle_track,
                                current_audio_track,
                                listed_tracks(text_tags.deep_view()),
                                listed_tracks(audio_tags.deep_view()),
                                reported_duration(duration),
                            ),
                        ),
                    ),
                ]
            },
            !(old(self)@ is Opening) ==> {
                &&& final(self)@ == old(self)@
                &&& result is Err
                &&& result->Err_0 == SessionError::NotOpening
            },
    {
        match self.state {
            SessionState::Opening => {
                let info = VideoInfo::loaded(
                    title,
                    current_subtitle_track,
                    current_audio_track,
                    subtitle_tracks(text_tags),
                    audio_tracks(audio_tags),
                    video_duration(duration),
                );
                let mut effects: Vec<Effect> = Vec::new();
                effects.push(Effect::Emit(VideoStreamEvent::VideoLoaded(info)));
                assert(effects.deep_view() =~= seq![
                    EffectView::Emit(VideoStreamEventView::VideoLoaded(info.deep_view())),
                ]);
                self.state = SessionState::Playing;
                Ok(effects)
            },
            _ => Err(SessionError::NotOpening),
        }
    }

    /// Handles a message from the controller's inbox.
    ///
    /// A running session decides as [`handle_message`] does and moves to the
    /// state that the message asks for. Any other session refuses and stays
    /// as it is.
    pub fn handle_message(&mut self, message: InternalMessage) -> (result: Result<
        Vec<Effect>,
        SessionError,
    >)
        ensures
            final(self)@ == state_after(old(self)@, message),
            old(self)@.is_running() ==> {
                &&& result is Ok
                &&& result->Ok_0.deep_view() == effects_in(old(self)@, message)
            },
            !old(self)@.is_running() ==> {
                &&& result is Err
                &&& result->Err_0 == SessionError::NotRunning
            },
    {
        if !self.is_running() {
            return Err(SessionError::NotRunning);
        }
        let outcome = handle_message(message);
        match message {
            InternalMessage::VideoStreamAction(VideoStreamAction::SetPlay) => {
                self.state = SessionState::Playing;
            },
            InternalMessage::VideoStreamAction(VideoStreamAction::SetPause) => {
                self.state = SessionState::Paused;
            },
            InternalMessage::VideoStreamAction(VideoStreamAction::Close) => {
                self.state = SessionState::Closing;
            },
            _ => {},
        }
        Ok(outcome.effects)
    }

    /// Records that the controller's inbox has closed: every sender of
    /// messages is gone, so that none can arrive any more.
    ///
    /// A running session stops the pipeline and becomes closing, so that it
    /// can be shut down. No `Close` was handled, and the caller is told
    /// nothing. Any other session refuses and stays as it is.
    pub fn inbox_closed(&mut self) -> (result: Result<Vec<Effect>, SessionError>)
        ensures
            old(self)@.is_running() ==> {
                &&& final(self)@ == SessionState::Closing
                &&& result is Ok
                &&& result->Ok_0.deep_view() == seq![
                    EffectView::Call(PipelineCall::SetState(PlayingState::Stopped)),
                ]
            },
            !old(self)@.is_running() ==> {
                &&& final(self)@ == old(self)@
                &&& result is Err
                &&& result->Err_0 == SessionError::NotRunning
            },
    {
        if !self.is_running() {
            return Err(SessionError::NotRunning);
        }
        let mut effects: Vec<Effect> = Vec::new();
        effects.push(Effect::Call(PipelineCall::SetState(PlayingState::Stopped)));
        assert(effects.deep_view() =~= seq![
            EffectView::Call(PipelineCall::SetState(PlayingState::Stopped)),
        ]);
        self.state = SessionState::Closing;
        Ok(effects)
    }

    /// Ends a closing session.
    ///
    /// The helper threads are to be joined in the order returned: the
    /// command relay first, the bus monitor second. Any session that is not
    /// closing refuses and stays as it is.
    pub fn shutdown(&mut self) -> (result: Result<Vec<Worker>, SessionError>)
        ensures
            old(self)@ is Closing ==> {
                &&& final(self)@ == SessionState::Closed
                &&& result is Ok
                &&& result->Ok_0@ == join_order()
            },
            !(old(self)@ is Closing) ==> {
                &&& final(self)@ == old(self)@
                &&& result is Err
                &&& result->Err_0 == SessionError::NotClosing
            },
    {
        match self.state {
            SessionState::Closing => {
                let mut workers: Vec<Worker> = Vec::new();
                workers.push(Worker::CommandRelay);
                workers.push(Worker::BusMonitor);
                assert(workers@ =~= join_order());
                self.state = SessionState::Closed;
                Ok(workers)
            },
            _ => Err(SessionError::NotClosing),
        }
    }
}

/// The state in which a run of messages, handled one after the other,
/// leaves a session.
pub open spec fn state_after_all(state: SessionState, messages: Seq<InternalMessage>) -> SessionState
    decreases messages.len(),
{
    if messages.len() == 0 {
        state
    } else {
        state_after_all(state_after(state, messages.first()), messages.drop_first())
    }
}

/// The steps that a run of messages, handled one after the other, causes in
/// a session, from first to last.
pub open spec fn effects_of_all(state: SessionState, messages: Seq<InternalMessage>) -> Seq<
    EffectView,
>
    decreases messages.len(),
{
    if messages.len() == 0 {
        Seq::empty()
    } else {
        effects_in(state, messages.first()) + effects_of_all(
            state_after(state, messages.first()),
            messages.drop_first(),
        )
    }
}

/// The events among a list of steps, in the order in which they are sent.
pub open spec fn emitted(effects: Seq<EffectView>) -> Seq<VideoStreamEventView>
    decreases effects.len(),
{
    if effects.len() == 0 {
        Seq::empty()
    } else {
        match effects.first() {
            EffectView::Emit(event) => seq![event] + emitted(effects.drop_first()),
            EffectView::Call(_) => emitted(effects.drop_first()),
        }
    }
}

/// The event that tells the caller what became of an action.
pub open spec fn reflected_event(action: VideoStreamAction) -> VideoStreamEventView {
    match action {
        VideoStreamAction::SetCurrentSubtitleTrack(Some(id)) => {
            VideoStreamEventView::CurrentSubtitleTrackChanged(id)
        },
        VideoStreamAction::SetCurrentSubtitleTrack(None) => VideoStreamEventView::Error(
            subtitles_cannot_be_disabled(),
        ),
        VideoStreamAction::SetCurrentAudioTrack(Some(id)) => {
            VideoStreamEventView::CurrentAudioTrackChanged(id)
        },
        VideoStreamAction::SetCurrentAudioTrack(None) => VideoStreamEventView::Error(
            audio_cannot_be_disabled(),
        ),
        VideoStreamAction::SetVolume(volume) => VideoStreamEventView::VolumeChanged(volume),
        VideoStreamAction::SetPlay => VideoStreamEventView::PlayingStateChanged(
            PlayingState::Playing,
        ),
        VideoStreamAction::SetPause => VideoStreamEventView::PlayingStateChanged(
            PlayingState::Paused,
        ),
        VideoStreamAction::SeekToSeconds(position) => VideoStreamEventView::PositionChanged(
            position,
        ),
        VideoStreamAction::Close => VideoStreamEventView::Closed,
    }
}


proof fn lemma_emitted_concat(first: Seq<EffectView>, second: Seq<EffectView>)
    ensures
        emitted(first + second) == emitted(first) + emitted(second),
    decreases first.len(),
{
    if first.len() == 0 {
        assert(first + second =~= second);
        assert(emitted(first) + emitted(second) =~= emitted(second));
    } else {
        assert((first + second).drop_first() =~= first.drop_first() + second);
        lemma_emitted_concat(first.drop_first(), second);
        match first.first() {
            EffectView::Emit(event) => {
                assert(seq![event] + (emitted(first.drop_first()) + emitted(second)) =~= (seq![
                    event,
                ] + emitted(first.drop_first())) + emitted(second));
            },
            EffectView::Call(_) => {},
        }
    }
}

proof fn lemma_emitted_of_action(action: VideoStreamAction)
    ensures
        emitted(action_effects(action)) == seq![reflected_event(action)],
{
    let effects = action_effects(action);
    reveal_with_fuel(emitted, 3);
    if effects.len() == 1 {
        assert(effects.drop_first() =~= Seq::empty());
        assert(emitted(effects) =~= seq![reflected_event(action)]);
    } else {
        assert(effects.len() == 2);
        assert(effects.drop_first() =~= seq![effects[1]]);
        assert(effects.drop_first().drop_first() =~= Seq::empty());
        assert(emitted(effects) =~= seq![reflected_event(action)]);
    }
}

proof fn lemma_not_running_is_inert(state: SessionState, messages: Seq<InternalMessage>)
    requires
        !state.is_running(),
    ensures
        state_after_all(state, messages) == state,
        effects_of_all(state, messages) == Seq::<EffectView>::empty(),
    decreases messages.len(),
{
    if messages.len() > 0 {
        lemma_not_running_is_inert(state, messages.drop_first());
        assert(effects_of_all(state, messages) =~= Seq::<EffectView>::empty());
    }
}

proof fn lemma_run_concat(
    state: SessionState,
    first: Seq<InternalMessage>,
    second: Seq<InternalMessage>,
)
    ensures
        state_after_all(state, first + second) == state_after_all(
            state_after_all(state, first),
            second,
        ),
        effects_of_all(state, first + second) == effects_of_all(state, first) + effects_of_all(
            state_after_all(state, first),
            second,
        ),
    decreases first.len(),
{
    if first.len() == 0 {
        assert(first + second =~= second);
        assert(effects_of_all(state, first) + effects_of_all(state, second) =~= effects_of_all(
            state,
            second,
        ));
    } else {
        let next = state_after(state, first.first());
        assert((first + second).first() == first.first());
        assert((first + second).drop_first() =~= first.drop_first() + second);
        lemma_run_concat(next, first.drop_first(), second);
        assert(effects_in(state, first.first()) + (effects_of_all(next, first.drop_first())
            + effects_of_all(state_after_all(state, first), second)) =~= (effects_in(
            state,
            first.first(),
        ) + effects_of_all(next, first.drop_first())) + effects_of_all(
            state_after_all(state, first),
            second,
        ));
    }
}

proof fn lemma_run_without_close(state: SessionState, messages: Seq<InternalMessage>)
    requires
        state.is_running(),
        forall|i: int| 0 <= i < messages.len() ==> !message_closes(#[trigger] messages[i]),
    ensures
        state_after_all(state, messages).is_running(),
        forall|i: int|
            0 <= i < emitted(effects_of_all(state, messages)).len() ==> emitted(
                effects_of_all(state, messages),
            )[i] != VideoStreamEventView::Closed,
    decreases messages.len(),
{
    if messages.len() > 0 {
        let head = messages.first();
        let next = state_after(state, head);
        assert(!message_closes(messages[0]));
        assert forall|i: int| 0 <= i < messages.drop_first().len() implies !message_closes(
            #[trigger] messages.drop_first()[i],
        ) by {
            assert(messages.drop_first()[i] == messages[i + 1]);
        }
        lemma_run_without_close(next, messages.drop_first());
        let rest = effects_of_all(next, messages.drop_first());
        lemma_emitted_concat(effects_in(state, head), rest);
        match head {
            InternalMessage::VideoStreamAction(action) => {
                lemma_emitted_of_action(action);
            },
            InternalMessage::RequestPositionUpdate => {
                reveal_with_fuel(emitted, 2);
                assert(effects_in(state, head).drop_first() =~= Seq::empty());
                assert(emitted(effects_in(state, head)) =~= Seq::empty());
            },
        }
    }
}

/// Every action is answered by exactly one event, and the events come in the
/// order of the actions.
///
/// This holds of a running session and of any run of actions that holds no
/// `Close`. The command relay forwards each of the actions, and the events
/// that the controller then emits are, action by action, those of
/// [`reflected_event`]: a request for no subtitles or no audio is answered
/// too, with an error event. The session is still running afterwards.
pub proof fn law_actions_reflected_in_order(state: SessionState, actions: Seq<VideoStreamAction>)
    requires
        state.is_running(),
        forall|i: int| 0 <= i < actions.len() ==> !(#[trigger] actions[i] is Close),
    ensures
        relayed(actions) == as_messages(actions),
        emitted(effects_of_all(state, relayed(actions))) == actions.map_values(
            |action: VideoStreamAction| reflected_event(action),
        ),
        state_after_all(state, relayed(actions)).is_running(),
    decreases actions.len(),
{
    law_relay_forwards_until_close(actions, Seq::empty());
    assert(actions + Seq::<VideoStreamAction>::empty() =~= actions);
    let messages = as_messages(actions);
    let reflect = |action: VideoStreamAction| reflected_event(action);
    if actions.len() == 0 {
        assert(emitted(effects_of_all(state, messages)) =~= actions.map_values(reflect));
    } else {
        let head = actions.first();
        let next = state_after(state, messages.first());
        assert(messages.first() == InternalMessage::VideoStreamAction(head));
        assert(!(actions[0] is Close));
        assert(messages.drop_first() =~= as_messages(actions.drop_first()));
        assert forall|i: int| 0 <= i < actions.drop_first().len() implies !(
        #[trigger] actions.drop_first()[i] is Close) by {
            assert(actions.drop_first()[i] == actions[i + 1]);
        }
        law_actions_reflected_in_order(next, actions.drop_first());
        lemma_emitted_of_action(head);
        lemma_emitted_concat(
            effects_in(state, messages.first()),
            effects_of_all(next, messages.drop_first()),
        );
        assert(seq![reflected_event(head)] + actions.drop_first().map_values(reflect)
            =~= actions.map_values(reflect));
    }
}

/// Closing a session is told to the caller exactly once, and nothing
/// happens after it.
///
/// Take a running session and any run of messages in which `Close` occurs:
/// `before` it come messages that do not close, `after` it comes anything.
/// Then the steps of the whole run are those of `before` followed by the two
/// steps of `Close`, which stop the pipeline and emit `Closed`. So `Closed`
/// is the last event, no event before it is `Closed`, and the messages after
/// `Close` cause nothing. The session ends up closing, the state in which
/// [`Session::shutdown`] joins the helper threads.
pub proof fn law_close_is_answered_once(
    state: SessionState,
    before: Seq<InternalMessage>,
    after: Seq<InternalMessage>,
)
    requires
        state.is_running(),
        forall|i: int| 0 <= i < before.len() ==> !message_closes(#[trigger] before[i]),
    ensures
        ({
            let messages = before + seq![close_message()] + after;
            let effects = effects_of_all(state, messages);
            let events = emitted(effects);
            &&& state_after_all(state, messages) == SessionState::Closing
            &&& effects == effects_of_all(state, before) + action_effects(VideoStreamAction::Close)
            &&& events == emitted(effects_of_all(state, before)).push(VideoStreamEventView::Closed)
            &&& forall|i: int| 0 <= i < events.len() - 1 ==> events[i] != VideoStreamEventView::Closed
        }),
{
    let closing = seq![close_message()];
    let messages = before + closing + after;
    let reached = state_after_all(state, before);
    lemma_run_without_close(state, before);
    lemma_run_concat(state, before + closing, after);
    lemma_run_concat(state, before, closing);
    assert(effects_of_all(reached, closing) =~= action_effects(VideoStreamAction::Close)
        && state_after_all(reached, closing) == SessionState::Closing) by {
        reveal_with_fuel(effects_of_all, 2);
        reveal_with_fuel(state_after_all, 2);
        assert(closing.first() == close_message());
        assert(closing.drop_first() =~= Seq::empty());
    }
    lemma_not_running_is_inert(SessionState::Closing, after);
    let effects = effects_of_all(state, messages);
    assert(effects =~= effects_of_all(state, before) + action_effects(VideoStreamAction::Close));
    lemma_emitted_concat(effects_of_all(state, before), action_effects(VideoStreamAction::Close));
    lemma_emitted_of_action(VideoStreamAction::Close);
    assert(emitted(effects) =~= emitted(effects_of_all(state, before)).push(
        VideoStreamEventView::Closed,
    ));
}

/// The pipeline's volume is changed only after the caller has been told.
///
/// Wherever, among the steps of any run of messages, the pipeline is told
/// to set a volume, the step just before it is the event that announces
/// this volume.
pub proof fn law_volume_applied_only_after_announced(
    state: SessionState,
    messages: Seq<InternalMessage>,
    i: int,
    volume: Volume,
)
    requires
        0 <= i < effects_of_all(state, messages).len(),
        effects_of_all(state, messages)[i] == EffectView::Call(PipelineCall::SetVolume(volume)),
    ensures
        i >= 1,
        effects_of_all(state, messages)[i - 1] == EffectView::Emit(
            VideoStreamEventView::VolumeChanged(volume),
        ),
    decreases messages.len(),
{
    if messages.len() > 0 {
        let head = effects_in(state, messages.first());
        if i >= head.len() {
            law_volume_applied_only_after_announced(
                state_after(state, messages.first()),
                messages.drop_first(),
                i - head.len(),
                volume,
            );
        }
    }
}

/// A seek is issued to the pipeline only after the caller has been told.
///
/// Wherever, among the steps of any run of messages, the pipeline is told
/// to seek, the step just before it is the event that announces the
/// position sought.
pub proof fn law_seek_issued_only_after_announced(
    state: SessionState,
    messages: Seq<InternalMessage>,
    i: int,
    position: MediaTime,
)
    requires
        0 <= i < effects_of_all(state, messages).len(),
        effects_of_all(state, messages)[i] == EffectView::Call(PipelineCall::Seek(position)),
    ensures
        i >= 1,
        effects_of_all(state, messages)[i - 1] == EffectView::Emit(
            VideoStreamEventView::PositionChanged(position),
        ),
    decreases messages.len(),
{
    if messages.len() > 0 {
        let head = effects_in(state, messages.first());
        if i >= head.len() {
            law_seek_issued_only_after_announced(
                state_after(state, messages.first()),
                messages.drop_first(),
                i - head.len(),
                position,
            );
        }
    }
}

} // verus!
