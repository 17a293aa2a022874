//! The sink that writes each state to the console.

use vstd::prelude::*;
use vstd::string::StringExecFns;
use std::sync::Arc;
use crate::actor::SinkEvent;
use crate::config::{Config, ConfigView, rendered};
use crate::song::{PlaybackState, PlaybackView, playing};

verus! {

/// The line that the console shows for a state.
pub open spec fn console_line(format: Seq<char>, state: PlaybackView) -> Seq<char> {
    match state {
        Some(song) => "Now: "@ + rendered(format, song.artist, song.title),
        None => "Now: ---"@,
    }
}

/// What the console worker does next.
#[derive(Debug)]
pub enum ConsoleAction {
    /// Print this line and go on receiving.
    Print(String),
    /// The channel was closed: stop.
    Stop,
}

pub struct ConsoleActor {
    config: Arc<Config>,
}

impl ConsoleActor {
    pub fn new(config: Arc<Config>) -> (actor: Self)
        ensures
            actor.config_view() == (*config)@,
    {
        Self { config }
    }

    /// The configuration that the lines are written with.
    pub closed spec fn config_view(&self) -> ConfigView {
        (*self.config)@
    }

    /// The line for one state.
    pub fn line(&self, state: &PlaybackState) -> (line: String)
        ensures
            line@ == console_line(self.config_view().song_format, playing(*state)),
    {
        match state {
            Some(song) => {
                let text = self.config.render(song);
                String::from_str("Now: ").concat(text.as_str())
            },
            None => String::from_str("Now: ---"),
        }
    }

    /// What to do about what the worker received: a state is printed, the
    /// end of the channel ends the worker.
    pub fn react(&self, event: &SinkEvent) -> (action: ConsoleAction)
        ensures
            match *event {
                SinkEvent::Update(state) => action is Print && action->0@ == console_line(
                    self.config_view().song_format,
                    playing(state),
                ),
                SinkEvent::Closed => action is Stop,
            },
    {
        match event {
            SinkEvent::Update(state) => ConsoleAction::Print(self.line(state)),
            SinkEvent::Closed => ConsoleAction::Stop,
        }
    }
}

} // verus!
