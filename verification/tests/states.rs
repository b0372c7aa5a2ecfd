use shortwave::song_state::SwSongState;
use shortwave::track_state::SwTrackState;

#[test]
fn song_state_history_excludes_ignored_and_short() {
    assert!(SwSongState::Recorded.include_in_history());
    assert!(SwSongState::NoRecording.include_in_history());
    assert!(!SwSongState::SkippedIgnored.include_in_history());
    assert!(!SwSongState::BelowThreshold.include_in_history());
}

#[test]
fn song_state_texts() {
    assert_eq!(SwSongState::Recording.title(), "Recording…");
    assert_eq!(SwSongState::NoRecording.title(), "Not Recorded");
    assert_eq!(SwSongState::Discarded.title(), "Discarded Recording");
    assert_eq!(
        SwSongState::BelowThreshold.description(),
        "Track has been discarded as the duration was below the set threshold"
    );
}

#[test]
fn track_state_texts() {
    assert_eq!(SwTrackState::Cancelled.title(), "Cancelled Recording");
    assert_eq!(SwTrackState::Saved.description(), "The track was saved in the configured directory");
    assert!(!SwTrackState::BelowThreshold.include_in_history());
    assert!(SwTrackState::Cancelled.include_in_history());
    assert_eq!(SwTrackState::default(), SwTrackState::NoRecording);
}

#[test]
fn track_descriptions_differ() {
    let all = [
        SwTrackState::NoRecording,
        SwTrackState::Recording,
        SwTrackState::Recorded,
        SwTrackState::SkippedIncomplete,
        SwTrackState::SkippedIgnored,
        SwTrackState::BelowThreshold,
        SwTrackState::Cancelled,
        SwTrackState::Saved,
    ];
    for (i, a) in all.iter().enumerate() {
        assert!(!a.description().is_empty());
        for b in &all[i + 1..] {
            assert_ne!(a.description(), b.description());
        }
    }
}
