//! What a session reads from the pipeline when the video has loaded.

use crate::units::MediaTime;
use crate::video_info::{AudioTrack, SubtitleTrack, TrackView};
use vstd::prelude::*;

verus! {

/// The tags of one stream that a track listing reads.
#[derive(Clone, Debug, PartialEq, Eq)]
pub struct TrackTags {
    /// The title tag, if the stream has one.
    pub title: Option<String>,
    /// The tag that names the language, if the stream has one.
    pub language: Option<String>,
}

/// What the specifications say of a [`TrackTags`].
pub struct TrackTagsView {
    pub title: Option<Seq<char>>,
    pub language: Option<Seq<char>>,
}

impl DeepView for TrackTags {
    type V = TrackTagsView;

    open spec fn deep_view(&self) -> TrackTagsView {
        TrackTagsView { title: self.title.deep_view(), language: self.language.deep_view() }
    }
}

/// The text of a tag, or no text where the tag is absent.
pub open spec fn tag_text(tag: Option<Seq<char>>) -> Seq<char> {
    match tag {
        Some(text) => text,
        None => Seq::empty(),
    }
}

/// The track that stands for the stream with this number and these tags.
pub open spec fn track_of(id: usize, tags: TrackTagsView) -> TrackView {
    TrackView { id, title: tag_text(tags.title), language: tag_text(tags.language) }
}

/// The tracks of a video, given for each of its streams of one kind the
/// tags that the pipeline returned for it, or `None` where it returned none.
///
/// Each stream with tags becomes a track whose id is the stream's number;
/// a stream without tags is left out. The tracks come in stream order.
pub open spec fn listed_tracks(tags: Seq<Option<TrackTagsView>>) -> Seq<TrackView>
    decreases tags.len(),
{
    if tags.len() == 0 {
        Seq::empty()
    } else {
        let earlier = listed_tracks(tags.drop_last());
        match tags.last() {
            Some(found) => earlier.push(track_of((tags.len() - 1) as usize, found)),
            None => earlier,
        }
    }
}

/// Copies the text of a tag, or makes an empty text where the tag is absent.
fn text_of(tag: &Option<String>) -> (text: String)
    ensures
        text@ == tag_text(tag.deep_view()),
{
    match tag {
        Some(found) => found.clone(),
        None => String::new(),
    }
}

/// Lists the subtitle tracks of a video from the tags of its text streams.
pub fn subtitle_tracks(tags: &Vec<Option<TrackTags>>) -> (tracks: Vec<SubtitleTrack>)
    ensures
        tracks.deep_view() == listed_tracks(tags.deep_view()),
{
    let mut tracks: Vec<SubtitleTrack> = Vec::new();
    let mut i: usize = 0;
    assert(tags.deep_view().take(0) =~= Seq::empty());
    while i < tags.len()
        invariant
            i <= tags.len(),
            tracks.deep_view() == listed_tracks(tags.deep_view().take(i as int)),
        decreases tags.len() - i,
    {
        let ghost before = tracks.deep_view();
        assert(tags.deep_view().take(i + 1).drop_last() =~= tags.deep_view().take(i as int));
        match &tags[i] {
            Some(found) => {
                let track = SubtitleTrack {
                    id: i,
                    title: text_of(&found.title),
                    language: text_of(&found.language),
                };
                tracks.push(track);
                assert(tracks.deep_view() =~= before.push(track.deep_view()));
            },
            None => {},
        }
        i += 1;
    }
    assert(tags.deep_view().take(i as int) =~= tags.deep_view());
    tracks
}

/// Lists the audio tracks of a video from the tags of its audio streams.
pub fn audio_tracks(tags: &Vec<Option<TrackTags>>) -> (tracks: Vec<AudioTrack>)
    ensures
        tracks.deep_view() == listed_tracks(tags.deep_view()),
{
    let mut tracks: Vec<AudioTrack> = Vec::new();
    let mut i: usize = 0;
    assert(tags.deep_view().take(0) =~= Seq::empty());
    while i < tags.len()
        invariant
            i <= tags.len(),
            tracks.deep_view() == listed_tracks(tags.deep_view().take(i as int)),
        decreases tags.len() - i,
    {
        let ghost before = tracks.deep_view();
        assert(tags.deep_view().take(i + 1).drop_last() =~= tags.deep_view().take(i as int));
        match &tags[i] {
            Some(found) => {
                let track = AudioTrack {
                    id: i,
                    title: text_of(&found.title),
                    language: text_of(&found.language),
                };
                tracks.push(track);
                assert(tracks.deep_view() =~= before.push(track.deep_view()));
            },
            None => {},
        }
        i += 1;
    }
    assert(tags.deep_view().take(i as int) =~= tags.deep_view());
    tracks
}

/// The pipeline's answer to a query for a time value.
#[derive(Clone, Copy, Debug, PartialEq, Eq)]
pub enum QueryReply {
    /// The pipeline could not answer the query.
    Failed,
    /// The answer is a time in nanoseconds, or a time that is not known.
    Time(Option<u64>),
    /// The answer is in another format than time.
    Other,
}

/// The time that an answer reports, in nanoseconds.
///
/// Only an answer in the format of time that holds a known time reports
/// one. A query that failed, a time that is not known and an answer in
/// another format report none.
pub open spec fn reported_nanoseconds(reply: QueryReply) -> Option<u64> {
    match reply {
        QueryReply::Time(Some(nanoseconds)) => Some(nanoseconds),
        _ => None,
    }
}

/// Reads the time, in nanoseconds, out of the pipeline's answer to a time
/// query.
pub fn nanoseconds(reply: QueryReply) -> (time: Option<u64>)
    ensures
        time == reported_nanoseconds(reply),
{
    match reply {
        QueryReply::Time(Some(nanoseconds)) => Some(nanoseconds),
        _ => None,
    }
}

/// The track that is current, given the number of the current stream as
/// the pipeline reports it: the stream's number, or no track where the
/// number is negative, which is how the pipeline says that none is chosen.
pub open spec fn reported_track(stream: i32) -> Option<usize> {
    if stream >= 0 {
        Some(stream as usize)
    } else {
        None
    }
}

/// Reads the current track out of the number of the current stream.
pub fn current_track(stream: i32) -> (track: Option<usize>)
    ensures
        track == reported_track(stream),
{
    if stream >= 0 {
        Some(stream as usize)
    } else {
        None
    }
}

/// The title of a video, given the tags that the pipeline returned for its
/// video stream, or `None` where it returned none: the text of the title
/// tag, and no text where there is none.
pub open spec fn reported_title(tags: Option<TrackTagsView>) -> Seq<char> {
    match tags {
        Some(found) => tag_text(found.title),
        None => Seq::empty(),
    }
}

/// Reads the title of the video out of the tags of its video stream.
pub fn video_title(tags: &Option<TrackTags>) -> (title: String)
    ensures
        title@ == reported_title(tags.deep_view()),
{
    match tags {
        Some(found) => text_of(&found.title),
        None => String::new(),
    }
}

/// The length of a video, given the pipeline's answer to a query for it.
///
/// A video whose length the answer does not report has length zero.
pub open spec fn reported_duration(reply: QueryReply) -> MediaTime {
    match reported_nanoseconds(reply) {
        Some(nanoseconds) => MediaTime::Nanoseconds(nanoseconds),
        None => MediaTime::Nanoseconds(0),
    }
}

/// Reads the length of the video out of the pipeline's answer to a query
/// for it.
pub fn video_duration(reply: QueryReply) -> (duration: MediaTime)
    ensures
        duration == reported_duration(reply),
{
    match nanoseconds(reply) {
        Some(nanoseconds) => MediaTime::Nanoseconds(nanoseconds),
        None => MediaTime::Nanoseconds(0),
    }
}

} // verus!
