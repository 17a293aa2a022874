//! The track that is playing, and the state a sample reports.

use vstd::prelude::*;

verus! {

/// Artist and title of one track.
#[derive(Debug)]
pub struct SongInfo {
    pub artist: String,
    pub title: String,
}

/// What a [`SongInfo`] means: its two texts as character sequences.
#[verifier::ext_equal]
pub struct SongView {
    pub artist: Seq<char>,
    pub title: Seq<char>,
}

/// A sample of the player: a track, or nothing playing.
pub type PlaybackState = Option<SongInfo>;

/// What a [`PlaybackState`] means.
pub type PlaybackView = Option<SongView>;

impl View for SongInfo {
    type V = SongView;

    open spec fn view(&self) -> SongView {
        SongView { artist: self.artist@, title: self.title@ }
    }
}

/// The meaning of a playback state: the view of its track, if it has one.
pub open spec fn playing(state: PlaybackState) -> PlaybackView {
    match state {
        Some(song) => Some(song@),
        None => None,
    }
}

/// The meaning of a list of playback states, element by element.
pub open spec fn playing_all(states: Seq<PlaybackState>) -> Seq<PlaybackView> {
    Seq::new(states.len(), |i: int| playing(states[i]))
}

impl SongInfo {
    pub fn new(artist: String, title: String) -> (song: SongInfo)
        ensures
            song.artist == artist,
            song.title == title,
            song@ == (SongView { artist: artist@, title: title@ }),
    {
        SongInfo { artist, title }
    }
}

impl PartialEq for SongInfo {
    /// Two tracks are equal when both texts are.
    fn eq(&self, other: &Self) -> (same: bool) {
        self.artist == other.artist && self.title == other.title
    }
}

impl vstd::std_specs::cmp::PartialEqSpecImpl for SongInfo {
    open spec fn obeys_eq_spec() -> bool {
        true
    }

    open spec fn eq_spec(&self, other: &Self) -> bool {
        self@ == other@
    }
}

impl Clone for SongInfo {
    fn clone(&self) -> (copy: Self)
        ensures
            copy@ == self@,
    {
        SongInfo { artist: self.artist.clone(), title: self.title.clone() }
    }
}

/// Whether two playback states mean the same: both nothing, or the same
/// artist and title.
pub fn same_state(a: &PlaybackState, b: &PlaybackState) -> (same: bool)
    ensures
        same == (playing(*a) == playing(*b)),
{
    match (a, b) {
        (Some(x), Some(y)) => x == y,
        (None, None) => true,
        _ => false,
    }
}

/// A copy of a playback state, for handing the same state to several owners.
pub fn copy_state(state: &PlaybackState) -> (copy: PlaybackState)
    ensures
        playing(copy) == playing(*state),
{
    match state {
        Some(song) => Some(song.clone()),
        None => None,
    }
}

} // verus!
