//! The sink that shows the current track in a desktop window.

use vstd::prelude::*;
use vstd::string::StringExecFns;
use std::sync::Arc;
use crate::channel::SendReceipt;
use crate::config::{Config, ConfigView, rendered};
use crate::lifecycle::{ExitRequester, LifecycleEvent};
use crate::song::{PlaybackState, PlaybackView, playing};
use crate::text::replace;

verus! {

/// What a window reports to its owner.
#[derive(Clone, Copy, Debug, PartialEq, Eq, Structural)]
pub enum WindowEvent {
    Closed,
}

impl WindowEvent {
    /// The lifecycle event that a window event stands for: a window closed
    /// by the user asks the program to end, as an interrupt does.
    pub fn lifecycle_event(self) -> (event: LifecycleEvent)
        ensures
            event == LifecycleEvent::Exit,
    {
        match self {
            WindowEvent::Closed => LifecycleEvent::Exit,
        }
    }
}

/// The two labels of the window for a state: artist above title.
pub open spec fn labels_of(state: PlaybackView) -> (Seq<char>, Seq<char>) {
    match state {
        Some(song) => (song.artist, song.title),
        None => ("N/A"@, "---"@),
    }
}

/// The one line that a painted window shows for a state.
pub open spec fn caption_of(state: PlaybackView) -> Seq<char> {
    match state {
        Some(song) => rendered("{artist} - {title}"@, song.artist, song.title),
        None => "..."@,
    }
}

/// The one line that a painted window shows for a state.
pub fn caption(state: &PlaybackState) -> (text: String)
    ensures
        text@ == caption_of(playing(*state)),
{
    match state {
        Some(song) => {
            let with_artist = replace("{artist} - {title}", "{artist}", song.artist.as_str());
            replace(with_artist.as_str(), "{title}", song.title.as_str())
        },
        None => String::from_str("..."),
    }
}

pub struct WindowActor {
    sender: ExitRequester,
    config: Arc<Config>,
}

impl WindowActor {
    pub fn new(sender: flume::Sender<LifecycleEvent>, config: Arc<Config>) -> (actor: Self)
        ensures
            actor.config_view() == (*config)@,
            actor.exit_end() == sender,
    {
        Self { sender: ExitRequester::new(sender), config }
    }

    /// The configuration of the window.
    pub closed spec fn config_view(&self) -> ConfigView {
        (*self.config)@
    }

    /// The sending end of the lifecycle channel on which the window asks
    /// the program to end.
    pub closed spec fn exit_end(&self) -> flume::Sender<LifecycleEvent> {
        self.sender.end()
    }

    /// The two labels for a state: artist above title, or placeholders
    /// while nothing is playing.
    pub fn labels(&self, state: &PlaybackState) -> (labels: (String, String))
        ensures
            (labels.0@, labels.1@) == labels_of(playing(*state)),
    {
        match state {
            Some(song) => (song.artist.clone(), song.title.clone()),
            None => (String::from_str("N/A"), String::from_str("---")),
        }
    }

    /// The user closed the window: sends one exit request on the window's
    /// end of the lifecycle channel. The receipt tells whether the channel
    /// took it.
    pub fn on_window_close(&self) -> (receipt: SendReceipt<LifecycleEvent>)
        ensures
            receipt.sender() == self.exit_end(),
            receipt.message() == LifecycleEvent::Exit,
    {
        self.sender.request_exit()
    }
}

} // verus!
