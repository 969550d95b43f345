use dextreamer::playbin_query::QueryReply;
use dextreamer::streamer::{
    failure_policy, handle_action, handle_message, handle_position_reply, relay_action,
    track_stream, Effect, FailurePolicy, InternalMessage, PipelineCall, VideoStreamAction,
    VideoStreamEvent,
};
use dextreamer::units::{MediaTime, Volume};
use dextreamer::video_info::PlayingState;

fn seconds(value: f64) -> MediaTime {
    MediaTime::Seconds(value.to_bits())
}

fn volume(value: f32) -> Volume {
    Volume { bits: value.to_bits() }
}

#[test]
fn volume_is_announced_before_it_is_applied() {
    let half = volume(0.5);
    let outcome = handle_action(VideoStreamAction::SetVolume(half));
    assert_eq!(
        outcome.effects,
        vec![
            Effect::Emit(VideoStreamEvent::VolumeChanged(half)),
            Effect::Call(PipelineCall::SetVolume(half)),
        ]
    );
    assert!(!outcome.close);
}

#[test]
fn volume_is_passed_through_at_both_ends_of_its_range() {
    for value in [0.0f32, 1.0f32] {
        let asked = volume(value);
        let outcome = handle_action(VideoStreamAction::SetVolume(asked));
        assert_eq!(outcome.effects[0], Effect::Emit(VideoStreamEvent::VolumeChanged(asked)));
        assert_eq!(outcome.effects[1], Effect::Call(PipelineCall::SetVolume(asked)));
        assert_eq!(outcome.effects.len(), 2);
    }
}

#[test]
fn seek_is_announced_before_it_is_issued() {
    let target = seconds(5.0);
    let outcome = handle_action(VideoStreamAction::SeekToSeconds(target));
    assert_eq!(
        outcome.effects,
        vec![
            Effect::Emit(VideoStreamEvent::PositionChanged(target)),
            Effect::Call(PipelineCall::Seek(target)),
        ]
    );
    assert!(!outcome.close);
}

#[test]
fn subtitle_track_is_selected_before_it_is_announced() {
    let outcome = handle_action(VideoStreamAction::SetCurrentSubtitleTrack(Some(2)));
    assert_eq!(
        outcome.effects,
        vec![
            Effect::Call(PipelineCall::SelectSubtitleTrack(2)),
            Effect::Emit(VideoStreamEvent::CurrentSubtitleTrackChanged(2)),
        ]
    );
    assert!(!outcome.close);
}

#[test]
fn audio_track_is_selected_before_it_is_announced() {
    let outcome = handle_action(VideoStreamAction::SetCurrentAudioTrack(Some(1)));
    assert_eq!(
        outcome.effects,
        vec![
            Effect::Call(PipelineCall::SelectAudioTrack(1)),
            Effect::Emit(VideoStreamEvent::CurrentAudioTrackChanged(1)),
        ]
    );
    assert!(!outcome.close);
}

#[test]
fn request_for_no_subtitles_is_rejected_with_an_error_event() {
    let outcome = handle_action(VideoStreamAction::SetCurrentSubtitleTrack(None));
    assert_eq!(
        outcome.effects,
        vec![Effect::Emit(VideoStreamEvent::Error(
            "disabling subtitles is not supported".to_string()
        ))]
    );
    assert!(!outcome.close);
}

#[test]
fn request_for_no_audio_is_rejected_with_an_error_event() {
    let outcome = handle_action(VideoStreamAction::SetCurrentAudioTrack(None));
    assert_eq!(
        outcome.effects,
        vec![Effect::Emit(VideoStreamEvent::Error(
            "disabling audio is not supported".to_string()
        ))]
    );
    assert!(!outcome.close);
}

#[test]
fn play_and_pause_are_applied_before_they_are_announced() {
    let play = handle_action(VideoStreamAction::SetPlay);
    assert_eq!(
        play.effects,
        vec![
            Effect::Call(PipelineCall::SetState(PlayingState::Playing)),
            Effect::Emit(VideoStreamEvent::PlayingStateChanged(PlayingState::Playing)),
        ]
    );
    assert!(!play.close);
    let pause = handle_action(VideoStreamAction::SetPause);
    assert_eq!(
        pause.effects,
        vec![
            Effect::Call(PipelineCall::SetState(PlayingState::Paused)),
            Effect::Emit(VideoStreamEvent::PlayingStateChanged(PlayingState::Paused)),
        ]
    );
    assert!(!pause.close);
}

#[test]
fn close_stops_the_pipeline_then_reports_and_ends_the_loop() {
    let outcome = handle_action(VideoStreamAction::Close);
    assert_eq!(
        outcome.effects,
        vec![
            Effect::Call(PipelineCall::SetState(PlayingState::Stopped)),
            Effect::Emit(VideoStreamEvent::Closed),
        ]
    );
    assert!(outcome.close);
}

#[test]
fn message_with_an_action_is_handled_as_the_action() {
    let action = VideoStreamAction::SetPause;
    let by_message = handle_message(InternalMessage::VideoStreamAction(action));
    let by_action = handle_action(action);
    assert_eq!(by_message, by_action);
    let closing = handle_message(InternalMessage::VideoStreamAction(VideoStreamAction::Close));
    assert!(closing.close);
}

#[test]
fn position_request_makes_the_controller_ask_the_pipeline() {
    let outcome = handle_message(InternalMessage::RequestPositionUpdate);
    assert_eq!(outcome.effects, vec![Effect::Call(PipelineCall::QueryPosition)]);
    assert!(!outcome.close);
}

#[test]
fn answered_position_query_is_reported() {
    assert_eq!(
        handle_position_reply(QueryReply::Time(Some(2_500_000_000))),
        vec![Effect::Emit(VideoStreamEvent::PositionChanged(MediaTime::Nanoseconds(
            2_500_000_000
        )))]
    );
}

#[test]
fn position_answer_without_a_known_time_reports_nothing() {
    assert_eq!(handle_position_reply(QueryReply::Time(None)), Vec::<Effect>::new());
    assert_eq!(handle_position_reply(QueryReply::Other), Vec::<Effect>::new());
}

#[test]
fn answered_position_of_zero_is_reported() {
    assert_eq!(
        handle_position_reply(QueryReply::Time(Some(0))),
        vec![Effect::Emit(VideoStreamEvent::PositionChanged(MediaTime::Nanoseconds(0)))]
    );
}

#[test]
fn failed_position_query_reports_nothing() {
    assert_eq!(handle_position_reply(QueryReply::Failed), Vec::<Effect>::new());
}

#[test]
fn seek_and_query_failures_are_passed_over() {
    assert_eq!(failure_policy(PipelineCall::Seek(seconds(3.0))), FailurePolicy::Ignored);
    assert_eq!(failure_policy(PipelineCall::QueryPosition), FailurePolicy::Ignored);
}

#[test]
fn other_failures_are_fatal() {
    for state in [PlayingState::Playing, PlayingState::Paused, PlayingState::Stopped] {
        assert_eq!(failure_policy(PipelineCall::SetState(state)), FailurePolicy::Fatal);
    }
    assert_eq!(failure_policy(PipelineCall::SetVolume(volume(0.25))), FailurePolicy::Fatal);
    assert_eq!(failure_policy(PipelineCall::SelectSubtitleTrack(0)), FailurePolicy::Fatal);
    assert_eq!(failure_policy(PipelineCall::SelectAudioTrack(0)), FailurePolicy::Fatal);
}

#[test]
fn relay_forwards_an_action_and_goes_on() {
    let action = VideoStreamAction::SeekToSeconds(seconds(1.5));
    assert_eq!(relay_action(action), (InternalMessage::VideoStreamAction(action), false));
}

#[test]
fn relay_forwards_close_and_stops() {
    assert_eq!(
        relay_action(VideoStreamAction::Close),
        (InternalMessage::VideoStreamAction(VideoStreamAction::Close), true)
    );
}

#[test]
fn stream_number_is_the_id_cut_to_32_bits_with_a_sign() {
    assert_eq!(track_stream(0), 0);
    assert_eq!(track_stream(7), 7);
    assert_eq!(track_stream(i32::MAX as usize), i32::MAX);
    let ids: [u64; 6] = [
        0x8000_0000,
        0xFFFF_FFFF,
        0x1_0000_0000,
        0x1_0000_0005,
        0x1_8000_0001,
        u64::MAX,
    ];
    for id in ids {
        if let Ok(id) = usize::try_from(id) {
            assert_eq!(track_stream(id), id as i32);
        }
    }
    assert_eq!(track_stream(0x8000_0000), i32::MIN);
    assert_eq!(track_stream(0xFFFF_FFFF), -1);
}

#[test]
fn track_id_beyond_the_stream_numbers_is_still_announced_as_it_was_sent() {
    let id: usize = 0xFFFF_FFFE;
    let outcome = handle_action(VideoStreamAction::SetCurrentSubtitleTrack(Some(id)));
    assert_eq!(
        outcome.effects,
        vec![
            Effect::Call(PipelineCall::SelectSubtitleTrack(-2)),
            Effect::Emit(VideoStreamEvent::CurrentSubtitleTrackChanged(id)),
        ]
    );
}

#[test]
fn relay_forwards_every_action_up_to_close_and_none_after() {
    let sent = vec![
        VideoStreamAction::SetPause,
        VideoStreamAction::SetVolume(volume(0.75)),
        VideoStreamAction::Close,
        VideoStreamAction::SetPlay,
        VideoStreamAction::Close,
    ];
    let mut forwarded = Vec::new();
    for action in &sent {
        let (message, stop) = relay_action(*action);
        forwarded.push(message);
        if stop {
            break;
        }
    }
    assert_eq!(
        forwarded,
        vec![
            InternalMessage::VideoStreamAction(VideoStreamAction::SetPause),
            InternalMessage::VideoStreamAction(VideoStreamAction::SetVolume(volume(0.75))),
            InternalMessage::VideoStreamAction(VideoStreamAction::Close),
        ]
    );
}

#[test]
fn controller_loop_ends_with_the_first_close() {
    let inbox = vec![
        InternalMessage::RequestPositionUpdate,
        InternalMessage::VideoStreamAction(VideoStreamAction::SetPlay),
        InternalMessage::VideoStreamAction(VideoStreamAction::Close),
        InternalMessage::VideoStreamAction(VideoStreamAction::SetPause),
    ];
    let mut handled = 0;
    let mut closed_events = 0;
    for message in inbox {
        let outcome = handle_message(message);
        handled += 1;
        for effect in &outcome.effects {
            if *effect == Effect::Emit(VideoStreamEvent::Closed) {
                closed_events += 1;
            }
        }
        if outcome.close {
            break;
        }
    }
    assert_eq!(handled, 3);
    assert_eq!(closed_events, 1);
}
