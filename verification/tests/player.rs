use shortwave::discovery::SwDeviceKind;
use shortwave::player::{
    cast_connect_check, cast_incompatible, dlna_failure_text, dlna_playback_step,
    new_track_recording, notification_buttons, playback_inhibit, playing_track_matches,
    reached_maximum_duration, recording_mode_change_cancels, recording_outcome,
    set_inhibit_action, song_recorded_from_start, song_stop_outcome, start_on_connected_device,
    station_refused_by_device, toggle_action, volume_key, CastConnectError, DlnaPlaybackError,
    DlnaPlaybackStep, InhibitAction, NewTrackRecording, RecordingStopReason, StationStream,
    SwPlaybackState, SwRecordingMode, SwRecordingState, ToggleAction, VolumeKey, GstMessage,
    SongPlayerState,
};
use shortwave::song_state::SwSongState;

#[test]
fn discard_reasons() {
    assert!(!RecordingStopReason::TrackChange.discard_data());
    assert!(!RecordingStopReason::ReachedMaximumDuration.discard_data());
    assert!(RecordingStopReason::StoppedPlayback.discard_data());
    assert!(RecordingStopReason::Cancelled.discard_data());
    assert!(RecordingStopReason::StreamFailure.discard_data());
    assert!(SwRecordingState::Recorded.is_recorded());
    assert!(SwRecordingState::RecordedReachedMaxDuration.is_recorded());
    assert!(!SwRecordingState::DiscardedBelowMinDuration.is_recorded());
}

#[test]
fn recording_outcomes() {
    let o = recording_outcome(RecordingStopReason::TrackChange, 120, 30, SwRecordingMode::Decide, false);
    assert_eq!(o.state, SwRecordingState::Recorded);
    assert_eq!(o.duration, 120);
    assert!(!o.discard_data);
    assert!(!o.save_track);

    let o = recording_outcome(RecordingStopReason::TrackChange, 120, 30, SwRecordingMode::Everything, false);
    assert!(o.save_track);

    let o = recording_outcome(RecordingStopReason::TrackChange, 10, 30, SwRecordingMode::Everything, true);
    assert_eq!(o.state, SwRecordingState::DiscardedBelowMinDuration);
    assert_eq!(o.duration, 10);
    assert!(o.discard_data);
    assert!(!o.save_track);

    let o = recording_outcome(RecordingStopReason::Cancelled, 500, 30, SwRecordingMode::Everything, true);
    assert_eq!(o.state, SwRecordingState::DiscardedCancelled);
    assert_eq!(o.duration, 0);
    assert!(o.discard_data);

    let o = recording_outcome(RecordingStopReason::ReachedMaximumDuration, 3600, 30, SwRecordingMode::Decide, true);
    assert_eq!(o.state, SwRecordingState::RecordedReachedMaxDuration);
    assert!(o.save_track);
}

#[test]
fn negative_minimum_duration_converts_as_unsigned() {
    // A negative setting becomes a huge unsigned minimum, so nothing is kept.
    let o = recording_outcome(RecordingStopReason::TrackChange, 120, -1, SwRecordingMode::Decide, false);
    assert_eq!(o.state, SwRecordingState::DiscardedBelowMinDuration);
    assert!(reached_maximum_duration(5, -1) == false);
    assert!(reached_maximum_duration(600, 600));
    assert!(!reached_maximum_duration(599, 600));
}

#[test]
fn new_tracks_recorded_from_their_start() {
    assert_eq!(new_track_recording(SwRecordingMode::Nothing, true), NewTrackRecording::NotRecorded);
    assert_eq!(new_track_recording(SwRecordingMode::Decide, true), NewTrackRecording::StartRecording);
    assert_eq!(new_track_recording(SwRecordingMode::Everything, false), NewTrackRecording::Incomplete);
    assert!(recording_mode_change_cancels(SwRecordingMode::Decide, SwRecordingMode::Nothing));
    assert!(!recording_mode_change_cancels(SwRecordingMode::Nothing, SwRecordingMode::Nothing));
    assert!(!recording_mode_change_cancels(SwRecordingMode::Nothing, SwRecordingMode::Decide));
}

#[test]
fn toggling_playback() {
    assert_eq!(toggle_action(SwPlaybackState::Playing), ToggleAction::Stop);
    assert_eq!(toggle_action(SwPlaybackState::Loading), ToggleAction::Stop);
    assert_eq!(toggle_action(SwPlaybackState::Stopped), ToggleAction::Start);
    assert_eq!(toggle_action(SwPlaybackState::Failure), ToggleAction::Start);
    assert!(start_on_connected_device(SwPlaybackState::Loading));
    assert!(!start_on_connected_device(SwPlaybackState::Failure));
}

#[test]
fn cast_compatibility() {
    assert!(cast_incompatible("https://example.org/stream.m3u8"));
    assert!(cast_incompatible("https://example.org/live/radio"));
    assert!(cast_incompatible("https://example.org/playlist.pls"));
    assert!(!cast_incompatible("https://example.org/radio.mp3"));

    let ok = StationStream::Url("https://example.org/radio.mp3".to_string());
    let hls = StationStream::Url("https://example.org/a.m3u8".to_string());
    assert_eq!(cast_connect_check(SwDeviceKind::Cast, &ok), Ok(()));
    assert_eq!(cast_connect_check(SwDeviceKind::Cast, &hls), Err(CastConnectError::IncompatibleStream));
    assert_eq!(cast_connect_check(SwDeviceKind::Cast, &StationStream::NoUrl), Err(CastConnectError::NoStreamUrl));
    assert_eq!(cast_connect_check(SwDeviceKind::Cast, &StationStream::NoStation), Err(CastConnectError::NoStation));
    assert_eq!(cast_connect_check(SwDeviceKind::Dlna, &StationStream::NoStation), Ok(()));
    assert_eq!(CastConnectError::IncompatibleStream.message(), "Radio stream incompatible with cast device!");
    assert_eq!(CastConnectError::NoStreamUrl.message(), "No stream URL available for cast device!");
    assert_eq!(
        CastConnectError::NoStation.message(),
        "Please select a radio station before connecting to cast device!"
    );

    assert!(station_refused_by_device(Some(SwDeviceKind::Cast), Some("http://a/live/x")));
    assert!(!station_refused_by_device(Some(SwDeviceKind::Dlna), Some("http://a/live/x")));
    assert!(!station_refused_by_device(None, Some("http://a/live/x")));
    assert!(!station_refused_by_device(Some(SwDeviceKind::Cast), None));
}

#[test]
fn volume_keys_per_output() {
    assert_eq!(volume_key(None), VolumeKey::PlaybackVolumeLocal);
    assert_eq!(volume_key(Some(SwDeviceKind::Cast)), VolumeKey::PlaybackVolumeCast);
    assert_eq!(volume_key(Some(SwDeviceKind::Dlna)), VolumeKey::PlaybackVolumeDlna);
}

#[test]
fn notification_buttons_by_mode() {
    assert_eq!(notification_buttons(SwRecordingState::Recording, SwRecordingMode::Decide), (true, true));
    assert_eq!(notification_buttons(SwRecordingState::Recording, SwRecordingMode::Everything), (false, true));
    assert_eq!(notification_buttons(SwRecordingState::Recording, SwRecordingMode::Nothing), (false, false));
    assert_eq!(notification_buttons(SwRecordingState::Recorded, SwRecordingMode::Decide), (false, false));
}

#[test]
fn dlna_playback_steps() {
    let url = StationStream::Url("http://a/".to_string());
    assert_eq!(dlna_playback_step(true, &StationStream::NoStation), Ok(DlnaPlaybackStep::PlayOnly));
    assert_eq!(dlna_playback_step(false, &url), Ok(DlnaPlaybackStep::LoadMedia));
    assert_eq!(dlna_playback_step(false, &StationStream::NoUrl), Err(DlnaPlaybackError::NoStreamUrl));
    assert_eq!(dlna_playback_step(false, &StationStream::NoStation), Err(DlnaPlaybackError::NoStation));
    assert_eq!(DlnaPlaybackError::NoStreamUrl.message(), "No stream URL available");
    assert_eq!(DlnaPlaybackError::NoStation.message(), "No station loaded");
    assert_eq!(dlna_failure_text("timeout"), "DLNA playback failed: timeout");
}

#[test]
fn playing_track_lookup() {
    assert!(playing_track_matches(Some("u1"), "u1"));
    assert!(!playing_track_matches(Some("u1"), "u2"));
    assert!(!playing_track_matches(None, "u1"));
}

#[test]
fn song_stop_outcomes() {
    let o = song_stop_outcome(true, 100, 10);
    assert_eq!(o.state, SwSongState::Discarded);
    assert_eq!(o.duration, None);
    assert!(o.discard_data);
    let o = song_stop_outcome(false, 100, 10);
    assert_eq!(o.state, SwSongState::Recorded);
    assert_eq!(o.duration, Some(100));
    assert!(!o.discard_data);
    let o = song_stop_outcome(false, 10, 10);
    assert_eq!(o.state, SwSongState::BelowThreshold);
    assert!(o.discard_data);
    assert!(song_recorded_from_start(true));
    assert!(!song_recorded_from_start(false));
}

#[test]
fn inhibitor_follows_playback() {
    assert_eq!(playback_inhibit(SwPlaybackState::Playing, 0), InhibitAction::Install);
    assert_eq!(playback_inhibit(SwPlaybackState::Playing, 7), InhibitAction::Keep);
    assert_eq!(playback_inhibit(SwPlaybackState::Stopped, 7), InhibitAction::Remove);
    assert_eq!(playback_inhibit(SwPlaybackState::Loading, 0), InhibitAction::Keep);
    assert_eq!(set_inhibit_action(true, 0), InhibitAction::Install);
    assert_eq!(set_inhibit_action(false, 7), InhibitAction::Remove);
    assert_eq!(set_inhibit_action(false, 0), InhibitAction::Keep);
    // A repeated request while one is held removes it.
    assert_eq!(set_inhibit_action(true, 7), InhibitAction::Remove);
}

fn song_player(has_device: bool) -> SongPlayerState {
    SongPlayerState {
        playing_song: None,
        previous_song: None,
        state: SwPlaybackState::Stopped,
        inhibit_cookie: 0,
        has_device,
        last_failure: String::new(),
    }
}

#[test]
fn backend_reports_change_the_player() {
    let mut p = song_player(false);
    let e = p.handle_message(GstMessage::Title("A".to_string()), false);
    assert_eq!(e.stop_recording, Some(false));
    assert!(e.start_recording);
    p.handle_message(GstMessage::Title("B".to_string()), true);
    assert_eq!(p.playing_song.as_deref(), Some("B"));
    assert_eq!(p.previous_song.as_deref(), Some("A"));
    let e = p.handle_message(GstMessage::PlaybackState(SwPlaybackState::Playing), true);
    assert_eq!(e.inhibit, InhibitAction::Install);
    p.inhibitor_done(e.inhibit, 9);
    assert_eq!(p.inhibit_cookie, 9);
    let e = p.handle_message(GstMessage::PlaybackState(SwPlaybackState::Failure), true);
    assert_eq!(e.stop_recording, Some(true));
    assert_eq!(e.inhibit, InhibitAction::Remove);
    assert!(p.playing_song.is_none() && p.previous_song.is_none());
    assert_eq!(p.state, SwPlaybackState::Failure);
    p.inhibitor_done(e.inhibit, 3);
    assert_eq!(p.inhibit_cookie, 0);
    assert!(p.handle_message(GstMessage::Volume { differs: true }, false).take_volume);
    assert!(!p.handle_message(GstMessage::Volume { differs: false }, false).take_volume);
    p.handle_message(GstMessage::Failure("lost".to_string()), false);
    assert_eq!(p.last_failure, "lost");
}

#[test]
fn volume_reports_ignored_with_device() {
    let mut p = song_player(true);
    assert!(!p.handle_message(GstMessage::Volume { differs: true }, false).take_volume);
}
