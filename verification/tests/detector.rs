use current_song::detector::ChangeDetector;
use current_song::song::{copy_state, same_state, PlaybackState, SongInfo};

fn track(artist: &str, title: &str) -> PlaybackState {
    Some(SongInfo::new(artist.to_string(), title.to_string()))
}

#[test]
fn song_info_keeps_both_texts() {
    let song = SongInfo::new("A".to_string(), "T1".to_string());
    assert_eq!(song.artist, "A");
    assert_eq!(song.title, "T1");
}

#[test]
fn song_equality_is_structural() {
    let a = SongInfo::new("A".to_string(), "T1".to_string());
    let b = SongInfo::new("A".to_string(), "T1".to_string());
    let other_title = SongInfo::new("A".to_string(), "T2".to_string());
    let other_artist = SongInfo::new("B".to_string(), "T1".to_string());
    assert_eq!(a, b);
    assert_ne!(a, other_title);
    assert_ne!(a, other_artist);
    assert_eq!(a.clone(), a);
}

#[test]
fn same_state_compares_none_and_tracks() {
    assert!(same_state(&None, &None));
    assert!(same_state(&track("A", "T1"), &track("A", "T1")));
    assert!(!same_state(&track("A", "T1"), &None));
    assert!(!same_state(&None, &track("A", "T1")));
    assert!(!same_state(&track("A", "T1"), &track("A", "T2")));
    assert_eq!(copy_state(&track("A", "T1")), track("A", "T1"));
    assert_eq!(copy_state(&None), None);
}

#[test]
fn new_detector_has_forwarded_nothing() {
    let detector = ChangeDetector::new();
    assert_eq!(*detector.last(), None);
}

#[test]
fn first_none_sample_is_no_change() {
    let mut detector = ChangeDetector::new();
    assert_eq!(detector.update(None), None);
    assert_eq!(*detector.last(), None);
}

#[test]
fn a_new_track_is_handed_back_and_kept() {
    let mut detector = ChangeDetector::new();
    assert_eq!(detector.update(track("A", "T1")), Some(track("A", "T1")));
    assert_eq!(*detector.last(), track("A", "T1"));
}

#[test]
fn a_repeated_track_is_not_handed_back() {
    let mut detector = ChangeDetector::new();
    detector.update(track("A", "T1"));
    assert_eq!(detector.update(track("A", "T1")), None);
    assert_eq!(*detector.last(), track("A", "T1"));
}

#[test]
fn going_silent_is_a_change() {
    let mut detector = ChangeDetector::new();
    detector.update(track("A", "T1"));
    assert_eq!(detector.update(None), Some(None));
    assert_eq!(*detector.last(), None);
}

#[test]
fn scenario_five_samples_give_three_broadcasts() {
    let samples = vec![None, track("A", "T1"), track("A", "T1"), track("B", "T2"), None];
    let mut detector = ChangeDetector::new();
    let changes = detector.feed(&samples);
    assert_eq!(changes, vec![track("A", "T1"), track("B", "T2"), None]);
    assert_eq!(*detector.last(), None);
}

#[test]
fn scenario_five_samples_one_update_at_a_time() {
    let samples = vec![None, track("A", "T1"), track("A", "T1"), track("B", "T2"), None];
    let mut detector = ChangeDetector::new();
    let mut changes = Vec::new();
    for sample in samples {
        if let Some(change) = detector.update(sample) {
            changes.push(change);
        }
    }
    assert_eq!(changes, vec![track("A", "T1"), track("B", "T2"), None]);
}

fn count_runs(samples: &[PlaybackState]) -> usize {
    let mut runs = 0;
    for i in 0..samples.len() {
        if i == 0 || samples[i] != samples[i - 1] {
            runs += 1;
        }
    }
    runs
}

#[test]
fn broadcasts_equal_runs_when_the_first_sample_is_a_track() {
    let samples = vec![
        track("A", "1"),
        track("A", "1"),
        None,
        None,
        None,
        track("A", "1"),
        track("B", "1"),
        track("B", "1"),
        track("B", "2"),
    ];
    let mut detector = ChangeDetector::new();
    let changes = detector.feed(&samples);
    assert_eq!(count_runs(&samples), 5);
    assert_eq!(changes.len(), 5);
}

#[test]
fn a_leading_run_of_none_gives_no_broadcast() {
    let samples = vec![None, None, track("A", "1"), None];
    let mut detector = ChangeDetector::new();
    let changes = detector.feed(&samples);
    assert_eq!(count_runs(&samples), 3);
    assert_eq!(changes.len(), 2);
    assert_eq!(changes, vec![track("A", "1"), None]);
}

#[test]
fn feeding_nothing_changes_nothing() {
    let mut detector = ChangeDetector::new();
    detector.update(track("A", "1"));
    let changes = detector.feed(&Vec::new());
    assert!(changes.is_empty());
    assert_eq!(*detector.last(), track("A", "1"));
}

#[test]
fn feed_continues_from_the_state_forwarded_last() {
    let mut detector = ChangeDetector::new();
    detector.update(track("A", "1"));
    let changes = detector.feed(&vec![track("A", "1"), track("B", "1")]);
    assert_eq!(changes, vec![track("B", "1")]);
    assert_eq!(*detector.last(), track("B", "1"));
}

#[test]
fn no_two_broadcasts_in_a_row_are_equal() {
    let samples = vec![
        track("A", "1"),
        track("A", "1"),
        track("B", "1"),
        track("A", "1"),
        track("A", "1"),
        None,
    ];
    let mut detector = ChangeDetector::new();
    let changes = detector.feed(&samples);
    for i in 1..changes.len() {
        assert_ne!(changes[i], changes[i - 1]);
    }
    assert_eq!(changes.last(), Some(detector.last()));
}
