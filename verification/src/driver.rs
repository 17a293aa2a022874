//! Drivers find out what is playing; this module names them and reads the
//! window titles that a desktop player shows.

use vstd::prelude::*;
use vstd::string::StrSliceExecFns;
use crate::song::{PlaybackState, PlaybackView, SongInfo, SongView, playing};
use crate::text::{chars_of, find, first_occurrence, matches_at, occurs_at, same_text};

verus! {

/// Driver connects to one or more media players to fetch music data.
pub trait Driver {
    /// Get currently playing song's info, if it exists.
    fn fetch_song_info(&mut self) -> Option<SongInfo>;
}

/// A [`Driver`] that does nothing.
pub struct NoopDriver {}

impl Driver for NoopDriver {
    fn fetch_song_info(&mut self) -> (song: Option<SongInfo>)
        ensures
            song is None,
    {
        None
    }
}

/// Creates a new [`Driver`] that does nothing.
pub fn noop() -> Box<NoopDriver> {
    Box::new(NoopDriver {  })
}

/// The drivers that have a name.
#[derive(Clone, Copy, Debug, PartialEq, Eq, Structural)]
pub enum DriverKind {
    /// Finds nothing, ever.
    Noop,
    /// Reads the window title of a locally installed Spotify app.
    SpotifyDesktop,
}

/// Names the driver of the given name: `spotify-desktop` is the one name
/// that is known.
pub fn create(name: &str) -> (kind: Option<DriverKind>)
    ensures
        kind == if name@ == "spotify-desktop"@ {
            Some(DriverKind::SpotifyDesktop)
        } else {
            None::<DriverKind>
        },
{
    if same_text(name, "spotify-desktop") {
        Some(DriverKind::SpotifyDesktop)
    } else {
        None
    }
}

/// Names the driver to run with: the one of the given name, or the one
/// that does nothing where the name is unknown. The flag says whether the
/// name was known.
pub fn create_or_noop(name: &str) -> (choice: (DriverKind, bool))
    ensures
        choice.1 == (name@ == "spotify-desktop"@),
        choice.0 == if choice.1 {
            DriverKind::SpotifyDesktop
        } else {
            DriverKind::Noop
        },
{
    match create(name) {
        Some(kind) => (kind, true),
        None => (DriverKind::Noop, false),
    }
}

/// Whether a window title is that of the player while nothing plays: it
/// begins with the player's name.
pub open spec fn is_idle_title(title: Seq<char>) -> bool {
    occurs_at(title, 0, "Spotify"@)
}

/// The track that a window title names: what stands before the first
/// `" - "` is the artist, all that follows it the title.
pub open spec fn track_of_title(title: Seq<char>) -> PlaybackView {
    match first_occurrence(title, " - "@, 0) {
        Some(at) => Some(
            SongView {
                artist: title.subrange(0, at),
                title: title.subrange(at + 3, title.len() as int),
            },
        ),
        None => None,
    }
}

/// What one window title says.
pub enum TitleReading {
    /// The title of the idle player: look at the next window.
    Idle,
    /// A title that names no track: nothing is known to be playing.
    Unreadable,
    /// A title that names a track.
    Track(SongInfo),
}

/// Reads one window title.
pub fn read_title(title: &str) -> (reading: TitleReading)
    ensures
        is_idle_title(title@) ==> reading is Idle,
        !is_idle_title(title@) && track_of_title(title@) is None ==> reading is Unreadable,
        !is_idle_title(title@) && track_of_title(title@) is Some ==> reading is Track && Some(
            reading->0@,
        ) == track_of_title(title@),
{
    let text = chars_of(title);
    let idle = chars_of("Spotify");
    if matches_at(&text, 0, &idle) {
        return TitleReading::Idle;
    }
    let separator = chars_of(" - ");
    proof {
        reveal_strlit(" - ");
        assert(separator@.len() == 3);
    }
    match find(&text, &separator) {
        Some(at) => {
            let end = text.len();
            let artist = title.substring_char(0, at).to_owned();
            let name = title.substring_char(at + 3, end).to_owned();
            TitleReading::Track(SongInfo::new(artist, name))
        },
        None => TitleReading::Unreadable,
    }
}

/// What the windows of the player's processes say together, taken in
/// order: windows without a title and idle titles are passed over, and the
/// first other title decides.
pub open spec fn song_of_titles(titles: Seq<Option<String>>) -> PlaybackView
    decreases titles.len(),
{
    if titles.len() == 0 {
        None
    } else {
        match titles[0] {
            Some(title) => if is_idle_title(title@) {
                song_of_titles(titles.skip(1))
            } else {
                track_of_title(title@)
            },
            None => song_of_titles(titles.skip(1)),
        }
    }
}

/// Reads the titles of the player's windows in order.
pub fn song_from_titles(titles: &Vec<Option<String>>) -> (song: PlaybackState)
    ensures
        playing(song) == song_of_titles(titles@),
{
    let mut i: usize = 0;
    assert(titles@.skip(0) =~= titles@);
    while i < titles.len()
        invariant
            i <= titles.len(),
            song_of_titles(titles@) == song_of_titles(titles@.skip(i as int)),
        decreases titles.len() - i,
    {
        let ghost rest = titles@.skip(i as int);
        assert(rest[0] == titles@[i as int]);
        assert(rest.skip(1) =~= titles@.skip(i + 1));
        match &titles[i] {
            Some(title) => {
                match read_title(title.as_str()) {
                    TitleReading::Idle => {},
                    TitleReading::Unreadable => {
                        return None;
                    },
                    TitleReading::Track(song) => {
                        return Some(song);
                    },
                }
            },
            None => {},
        }
        i = i + 1;
    }
    None
}

} // verus!
