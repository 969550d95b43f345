//! The snapshot of a video that a session reports once it has loaded.

use crate::units::{MediaTime, Volume};
use vstd::prelude::*;

verus! {

/// What the specifications say of one track: its id, title and language.
pub struct TrackView {
    pub id: usize,
    pub title: Seq<char>,
    pub language: Seq<char>,
}

/// A subtitle track of a video.
///
/// `title` and `language` are empty where the stream carries no such tag.
#[derive(Clone, Debug, PartialEq, Eq)]
pub struct SubtitleTrack {
    pub id: usize,
    pub title: String,
    pub language: String,
}

impl DeepView for SubtitleTrack {
    type V = TrackView;

    open spec fn deep_view(&self) -> TrackView {
        TrackView { id: self.id, title: self.title@, language: self.language@ }
    }
}

impl Default for SubtitleTrack {
    fn default() -> (track: Self)
        ensures
            track.deep_view() == (TrackView { id: 0, title: Seq::empty(), language: Seq::empty() }),
    {
        SubtitleTrack { id: 0, title: String::new(), language: String::new() }
    }
}

/// An audio track of a video.
///
/// `title` and `language` are empty where the stream carries no such tag.
#[derive(Clone, Debug, PartialEq, Eq)]
pub struct AudioTrack {
    pub id: usize,
    pub title: String,
    pub language: String,
}

impl DeepView for AudioTrack {
    type V = TrackView;

    open spec fn deep_view(&self) -> TrackView {
        TrackView { id: self.id, title: self.title@, language: self.language@ }
    }
}

impl Default for AudioTrack {
    fn default() -> (track: Self)
        ensures
            track.deep_view() == (TrackView { id: 0, title: Seq::empty(), language: Seq::empty() }),
    {
        AudioTrack { id: 0, title: String::new(), language: String::new() }
    }
}

/// The playback state of a video.
#[derive(Clone, Copy, Debug, PartialEq, Eq, Structural)]
pub enum PlayingState {
    /// The video is playing.
    Playing,
    /// The video is paused.
    Paused,
    /// The video is stopped.
    Stopped,
}

impl Default for PlayingState {
    fn default() -> (state: Self)
        ensures
            state == PlayingState::Paused,
    {
        PlayingState::Paused
    }
}

/// What the specifications say of a [`VideoInfo`].
pub struct VideoInfoView {
    pub title: Seq<char>,
    pub current_subtitle_track: Option<usize>,
    pub current_audio_track: Option<usize>,
    pub volume: Volume,
    pub subtitle_tracks: Seq<TrackView>,
    pub audio_tracks: Seq<TrackView>,
    pub playing_state: PlayingState,
    pub duration: MediaTime,
    pub current_position: MediaTime,
}

/// Everything a session knows of a video at the moment it has loaded.
///
/// The current tracks are given by the ids of the streams that the pipeline
/// has chosen; `None` means that no stream of that kind is chosen. A
/// snapshot is never updated: later changes reach the caller as events.
#[derive(Clone, Debug, PartialEq, Eq)]
pub struct VideoInfo {
    pub title: String,
    pub current_subtitle_track: Option<usize>,
    pub current_audio_track: Option<usize>,
    pub volume: Volume,
    pub subtitle_tracks: Vec<SubtitleTrack>,
    pub audio_tracks: Vec<AudioTrack>,
    pub playing_state: PlayingState,
    pub duration: MediaTime,
    pub current_position: MediaTime,
}

impl DeepView for VideoInfo {
    type V = VideoInfoView;

    open spec fn deep_view(&self) -> VideoInfoView {
        VideoInfoView {
            title: self.title@,
            current_subtitle_track: self.current_subtitle_track,
            current_audio_track: self.current_audio_track,
            volume: self.volume,
            subtitle_tracks: self.subtitle_tracks.deep_view(),
            audio_tracks: self.audio_tracks.deep_view(),
            playing_state: self.playing_state,
            duration: self.duration,
            current_position: self.current_position,
        }
    }
}

/// The snapshot of a video of which nothing is known yet: no title, no
/// tracks, the first track of each kind selected, full volume, stopped at the
/// start of a timeline of length zero.
pub open spec fn blank_video_info() -> VideoInfoView {
    VideoInfoView {
        title: Seq::empty(),
        current_subtitle_track: Some(0usize),
        current_audio_track: Some(0usize),
        volume: Volume { bits: crate::units::FULL_VOLUME_BITS },
        subtitle_tracks: Seq::empty(),
        audio_tracks: Seq::empty(),
        playing_state: PlayingState::Stopped,
        duration: MediaTime::Nanoseconds(0),
        current_position: MediaTime::Nanoseconds(0),
    }
}

/// The snapshot of a video that has just loaded and started to play.
///
/// Title, current tracks, track lists and length are what the pipeline
/// reported. The video plays at full volume from the start of the timeline.
pub open spec fn loaded_video_info(
    title: Seq<char>,
    current_subtitle_track: Option<usize>,
    current_audio_track: Option<usize>,
    subtitle_tracks: Seq<TrackView>,
    audio_tracks: Seq<TrackView>,
    duration: MediaTime,
) -> VideoInfoView {
    VideoInfoView {
        title,
        current_subtitle_track,
        current_audio_track,
        volume: Volume { bits: crate::units::FULL_VOLUME_BITS },
        subtitle_tracks,
        audio_tracks,
        playing_state: PlayingState::Playing,
        duration,
        current_position: MediaTime::Nanoseconds(0),
    }
}

impl VideoInfo {
    /// The snapshot of a video that has just loaded and started to play,
    /// with the title, the current tracks, the track lists and the length
    /// that the pipeline reported.
    pub fn loaded(
        title: String,
        current_subtitle_track: Option<usize>,
        current_audio_track: Option<usize>,
        subtitle_tracks: Vec<SubtitleTrack>,
        audio_tracks: Vec<AudioTrack>,
        duration: MediaTime,
    ) -> (info: Self)
        ensures
            info.deep_view() == loaded_video_info(
                title@,
                current_subtitle_track,
                current_audio_track,
                subtitle_tracks.deep_view(),
                audio_tracks.deep_view(),
                duration,
            ),
    {
        VideoInfo {
            title,
            current_subtitle_track,
            current_audio_track,
            volume: Volume::full(),
            subtitle_tracks,
            audio_tracks,
            playing_state: PlayingState::Playing,
            duration,
            current_position: MediaTime::zero(),
        }
    }

    /// The snapshot of a video of which nothing is known yet.
    pub fn new() -> (info: Self)
        ensures
            info.deep_view() == blank_video_info(),
    {
        let info = VideoInfo {
            title: String::new(),
            current_subtitle_track: Some(0),
            subtitle_tracks: Vec::new(),
            audio_tracks: Vec::new(),
            volume: Volume::full(),
            current_audio_track: Some(0),
            playing_state: PlayingState::Stopped,
            duration: MediaTime::zero(),
            current_position: MediaTime::zero(),
        };
        assert(info.subtitle_tracks.deep_view() =~= Seq::empty());
        assert(info.audio_tracks.deep_view() =~= Seq::empty());
        info
    }

    /// The subtitle tracks of the video, in stream order.
    pub fn subtitle_tracks(&self) -> (tracks: &[SubtitleTrack])
        ensures
            tracks@ == self.subtitle_tracks@,
    {
        self.subtitle_tracks.as_slice()
    }

    /// The audio tracks of the video, in stream order.
    pub fn audio_tracks(&self) -> (tracks: &[AudioTrack])
        ensures
            tracks@ == self.audio_tracks@,
    {
        self.audio_tracks.as_slice()
    }
}

impl Default for VideoInfo {
    fn default() -> (info: Self)
        ensures
            info.deep_view() == blank_video_info(),
    {
        VideoInfo::new()
    }
}

} // verus!
