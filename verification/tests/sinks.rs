use current_song::actor::SinkEvent;
use current_song::config::Config;
use current_song::console::{ConsoleAction, ConsoleActor};
use current_song::file::{FileAction, FileWriterActor};
use current_song::lifecycle::{LifecycleEvent, LifecycleController, LifecycleState, WaitOutcome};
use current_song::song::{PlaybackState, SongInfo};
use current_song::window::{caption, WindowActor, WindowEvent};
use std::path::PathBuf;
use std::sync::Arc;

fn track(artist: &str, title: &str) -> PlaybackState {
    Some(SongInfo::new(artist.to_string(), title.to_string()))
}

fn default_config() -> Arc<Config> {
    Arc::new(Config::default())
}

#[test]
fn the_console_prints_a_track_in_the_configured_format() {
    let console = ConsoleActor::new(default_config());
    assert_eq!(console.line(&track("A", "T1")), "Now: \u{266b} A - T1");
    let plain = ConsoleActor::new(Arc::new(Config::new("d".to_string(), "{title}".to_string())));
    assert_eq!(plain.line(&track("A", "T1")), "Now: T1");
}

#[test]
fn the_console_prints_dashes_when_nothing_plays() {
    let console = ConsoleActor::new(default_config());
    assert_eq!(console.line(&None), "Now: ---");
}

#[test]
fn the_console_worker_prints_updates_and_stops_at_the_end() {
    let console = ConsoleActor::new(default_config());
    match console.react(&SinkEvent::Update(track("A", "T1"))) {
        ConsoleAction::Print(line) => assert_eq!(line, "Now: \u{266b} A - T1"),
        other => panic!("unexpected action {:?}", other),
    }
    match console.react(&SinkEvent::Update(None)) {
        ConsoleAction::Print(line) => assert_eq!(line, "Now: ---"),
        other => panic!("unexpected action {:?}", other),
    }
    assert!(matches!(console.react(&SinkEvent::Closed), ConsoleAction::Stop));
}

#[test]
fn the_file_worker_starts_with_an_empty_file() {
    let file = FileWriterActor::new(PathBuf::from("song.txt"), default_config());
    assert!(matches!(file.start(), FileAction::Clear));
    assert_eq!(file.path(), &PathBuf::from("song.txt"));
}

#[test]
fn the_file_worker_writes_a_track_and_clears_on_nothing() {
    let file = FileWriterActor::new(PathBuf::from("song.txt"), default_config());
    match file.react(&SinkEvent::Update(track("A", "T1"))) {
        FileAction::Write(text) => assert_eq!(text, "\u{266b} A - T1"),
        other => panic!("unexpected action {:?}", other),
    }
    assert!(matches!(file.react(&SinkEvent::Update(None)), FileAction::Clear));
}

#[test]
fn the_file_worker_clears_the_file_when_the_channel_ends() {
    let file = FileWriterActor::new(PathBuf::from("song.txt"), default_config());
    assert!(matches!(file.react(&SinkEvent::Closed), FileAction::ClearAndStop));
}

#[test]
fn the_window_shows_artist_and_title() {
    let controller = LifecycleController::new();
    let window = WindowActor::new(controller.sender(), default_config());
    assert_eq!(window.labels(&track("A", "T1")), ("A".to_string(), "T1".to_string()));
    assert_eq!(window.labels(&None), ("N/A".to_string(), "---".to_string()));
}

#[test]
fn closing_the_window_requests_the_exit() {
    let mut controller = LifecycleController::new();
    let window = WindowActor::new(controller.sender(), default_config());
    assert_eq!(controller.wait(1).outcome(), WaitOutcome::Timeout);
    assert!(window.on_window_close().accepted());
    assert_eq!(controller.wait(1000).outcome(), WaitOutcome::Exit);
    assert_eq!(controller.state(), LifecycleState::ExitRequested);
}

#[test]
fn a_closed_window_means_exit() {
    assert_eq!(WindowEvent::Closed.lifecycle_event(), LifecycleEvent::Exit);
}

#[test]
fn the_painted_caption_joins_artist_and_title() {
    assert_eq!(caption(&track("A", "T1")), "A - T1");
    assert_eq!(caption(&None), "...");
    assert_eq!(caption(&track("{title}", "T")), "T - T");
}
