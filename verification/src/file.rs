//! The sink that keeps the current track in a text file.

use vstd::prelude::*;
use std::path::PathBuf;
use std::sync::Arc;
use crate::actor::SinkEvent;
use crate::config::{Config, ConfigView, rendered};

verus! {

/// `std::path::PathBuf`, carried through to the worker that opens the file.
#[verifier::external_type_specification]
#[verifier::external_body]
pub struct ExPathBuf(PathBuf);

/// What the file worker does next.
#[derive(Debug)]
pub enum FileAction {
    /// Replace the content of the file by this text.
    Write(String),
    /// Truncate the file: nothing is playing.
    Clear,
    /// The channel was closed: truncate the file a last time and stop.
    ClearAndStop,
}

pub struct FileWriterActor {
    config: Arc<Config>,
    path: PathBuf,
}

impl FileWriterActor {
    pub fn new(path: PathBuf, config: Arc<Config>) -> (actor: Self)
        ensures
            actor.config_view() == (*config)@,
            actor.path_spec() == path,
    {
        Self { config, path }
    }

    /// The configuration that the text is written with.
    pub closed spec fn config_view(&self) -> ConfigView {
        (*self.config)@
    }

    /// The file that the worker writes.
    pub closed spec fn path_spec(&self) -> PathBuf {
        self.path
    }

    pub fn path(&self) -> (path: &PathBuf)
        ensures
            *path == self.path_spec(),
    {
        &self.path
    }

    /// What the worker does before it receives anything: the file starts
    /// empty.
    pub fn start(&self) -> (action: FileAction)
        ensures
            action is Clear,
    {
        FileAction::Clear
    }

    /// What to do about what the worker received: a track is written in the
    /// configured format, nothing playing empties the file at once, and the
    /// end of the channel empties it and ends the worker.
    pub fn react(&self, event: &SinkEvent) -> (action: FileAction)
        ensures
            match *event {
                SinkEvent::Update(Some(song)) => action is Write && action->0@ == rendered(
                    self.config_view().song_format,
                    song@.artist,
                    song@.title,
                ),
                SinkEvent::Update(None) => action is Clear,
                SinkEvent::Closed => action is ClearAndStop,
            },
    {
        match event {
            SinkEvent::Update(Some(song)) => FileAction::Write(self.config.render(song)),
            SinkEvent::Update(None) => FileAction::Clear,
            SinkEvent::Closed => FileAction::ClearAndStop,
        }
    }
}

} // verus!
