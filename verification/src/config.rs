//! The two settings of the program.

use vstd::prelude::*;
use vstd::string::StringExecFns;
use crate::song::SongInfo;
use crate::text::{replace, replaced};

verus! {

/// The name of the driver that is used when nothing else is configured.
pub open spec fn default_driver() -> Seq<char> {
    "spotify-desktop"@
}

/// The display format that is used when nothing else is configured.
pub open spec fn default_format() -> Seq<char> {
    "\u{266b} {artist} - {title}"@
}

/// Which driver to use, and how to write a track as text.
#[derive(Debug)]
pub struct Config {
    driver: String,
    song_format: String,
}

/// What a [`Config`] means: its two texts.
#[verifier::ext_equal]
pub struct ConfigView {
    pub driver: Seq<char>,
    pub song_format: Seq<char>,
}

impl View for Config {
    type V = ConfigView;

    closed spec fn view(&self) -> ConfigView {
        ConfigView { driver: self.driver@, song_format: self.song_format@ }
    }
}

/// The text of a track in a display format: every `{artist}` of the format
/// gives way to the artist, then every `{title}` of the result to the
/// title. Nothing is escaped.
pub open spec fn rendered(format: Seq<char>, artist: Seq<char>, title: Seq<char>) -> Seq<char> {
    replaced(replaced(format, "{artist}"@, artist), "{title}"@, title)
}

impl Default for Config {
    fn default() -> (config: Config)
        ensures
            config@ == (ConfigView { driver: default_driver(), song_format: default_format() }),
    {
        Config {
            driver: String::from_str("spotify-desktop"),
            song_format: String::from_str("\u{266b} {artist} - {title}"),
        }
    }
}

impl Clone for Config {
    fn clone(&self) -> (copy: Self)
        ensures
            copy@ == self@,
    {
        Config { driver: self.driver.clone(), song_format: self.song_format.clone() }
    }
}

impl Config {
    /// A configuration with the given driver name and display format.
    pub fn new(driver: String, song_format: String) -> (config: Config)
        ensures
            config@ == (ConfigView { driver: driver@, song_format: song_format@ }),
    {
        Config { driver, song_format }
    }

    pub fn driver_name(&self) -> (name: &str)
        ensures
            name@ == self@.driver,
    {
        self.driver.as_str()
    }

    pub fn song_format(&self) -> (format: &str)
        ensures
            format@ == self@.song_format,
    {
        self.song_format.as_str()
    }

    /// The configuration to run with: the one that was read, or the default
    /// where none could be read. The flag says that the default was taken
    /// and is to be saved.
    pub fn or_default(read: Option<Config>) -> (chosen: (Config, bool))
        ensures
            chosen.1 == read is None,
            read is Some ==> chosen.0@ == read->0@,
            read is None ==> chosen.0@ == (ConfigView {
                driver: default_driver(),
                song_format: default_format(),
            }),
    {
        match read {
            Some(config) => (config, false),
            None => (Config::default(), true),
        }
    }

    /// The text of a track in the configured display format.
    pub fn render(&self, song: &SongInfo) -> (text: String)
        ensures
            text@ == rendered(self@.song_format, song@.artist, song@.title),
    {
        let with_artist = replace(self.song_format.as_str(), "{artist}", song.artist.as_str());
        replace(with_artist.as_str(), "{title}", song.title.as_str())
    }
}

} // verus!
