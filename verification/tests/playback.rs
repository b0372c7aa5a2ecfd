use shortwave::discovery::SwDeviceKind;
use shortwave::track_state::SwTrackState;
use shortwave::playback::{
    after_connect_plan, connect_result_plan, reset_track_keeps, restore_choice, RestoreChoice, connect_steps, disconnect_plan, dlna_outcome_plan, dlna_sequence_plan,
    dlna_volume_saved, playback_change_plan, set_station_plan, set_volume_plan,
    start_playback_plan, stop_playback_plan, title_change_plan, PlayerFailure,
};
use shortwave::player::{
    DlnaPlaybackError, RecordingStopReason, SwPlaybackState, SwRecordingMode, VolumeKey,
};
use shortwave::playback::PlayerStep::{
    ClearDevice, ClearFailure, ConnectCast, ConnectDlna, DisconnectCast, DisconnectDlna,
    LoadDlnaMedia, MarkIncomplete, NotifyTrack, PlayDlna, ResetTrack, RestoreLocalVolume,
    RestoreVolume, RunDlnaSequence, SaveLastStation, SaveVolume, SetBackendVolume,
    SetDlnaVolume, SetInhibit, SetLocalSource, SetPlayingTrack, SetState, ShiftPlayingTrack,
    ShowFailure, StartCast, StartLocal, StartPlayback, StartRecording, StopCast, StopDiscovery,
    StopDlna, StopFfmpegServer, StopLocal, StopPlayback, StopRecording, StoreDevice,
    StoreStation,
};

#[test]
fn local_station_starts_locally() {
    assert_eq!(
        set_station_plan(None, Some("http://a/radio.mp3"), true),
        vec![
            StopPlayback,
            StoreStation,
            SaveLastStation,
            SetLocalSource,
            RestoreVolume(VolumeKey::PlaybackVolumeLocal),
            StartLocal,
        ]
    );
    assert_eq!(
        set_station_plan(None, Some("http://a/radio.mp3"), false),
        vec![
            StopPlayback,
            StoreStation,
            SaveLastStation,
            SetLocalSource,
            RestoreVolume(VolumeKey::PlaybackVolumeLocal),
        ]
    );
}

#[test]
fn station_on_device_starts_device() {
    assert_eq!(
        set_station_plan(Some(SwDeviceKind::Dlna), Some("http://a/radio.mp3"), true),
        vec![
            StopPlayback,
            StoreStation,
            SaveLastStation,
            RestoreVolume(VolumeKey::PlaybackVolumeDlna),
            SetState(SwPlaybackState::Loading),
            StartPlayback,
        ]
    );
    assert!(!set_station_plan(Some(SwDeviceKind::Cast), Some("http://a/radio.mp3"), true).contains(&StartLocal));
}

#[test]
fn incompatible_station_is_refused_on_cast() {
    assert_eq!(
        set_station_plan(Some(SwDeviceKind::Cast), Some("http://a/live/radio"), true),
        vec![ShowFailure(PlayerFailure::CastIncompatible)]
    );
    assert_eq!(PlayerFailure::CastIncompatible.message(), "Radio stream incompatible with cast device!");
}

#[test]
fn station_without_url_fails() {
    assert_eq!(
        set_station_plan(None, None, true),
        vec![StopPlayback, StoreStation, ShowFailure(PlayerFailure::NotStreamable)]
    );
    assert_eq!(PlayerFailure::NotStreamable.message(), "Station cannot be streamed. URL is not valid.");
}

#[test]
fn start_playback_plans() {
    assert!(start_playback_plan(false, None).is_empty());
    assert_eq!(
        start_playback_plan(true, None),
        vec![SetState(SwPlaybackState::Loading), StartLocal, RestoreVolume(VolumeKey::PlaybackVolumeLocal)]
    );
    assert_eq!(
        start_playback_plan(true, Some(SwDeviceKind::Cast)),
        vec![
            SetState(SwPlaybackState::Loading),
            RestoreVolume(VolumeKey::PlaybackVolumeCast),
            StartCast,
            SetState(SwPlaybackState::Playing),
        ]
    );
    assert_eq!(
        start_playback_plan(true, Some(SwDeviceKind::Dlna)),
        vec![SetState(SwPlaybackState::Loading), RestoreVolume(VolumeKey::PlaybackVolumeDlna), RunDlnaSequence]
    );
}

#[test]
fn dlna_sequences() {
    assert_eq!(dlna_sequence_plan(true, false, false), Ok(vec![SetDlnaVolume, PlayDlna]));
    assert_eq!(dlna_sequence_plan(false, true, true), Ok(vec![SetDlnaVolume, LoadDlnaMedia]));
    assert_eq!(dlna_sequence_plan(false, false, true), Err(DlnaPlaybackError::NoStation));
    assert_eq!(dlna_sequence_plan(false, true, false), Err(DlnaPlaybackError::NoStreamUrl));
    assert_eq!(dlna_outcome_plan(true), vec![SetState(SwPlaybackState::Playing)]);
    assert_eq!(
        dlna_outcome_plan(false),
        vec![SetState(SwPlaybackState::Stopped), ShowFailure(PlayerFailure::DlnaFailed)]
    );
    assert_eq!(PlayerFailure::DlnaFailed.message(), "DLNA playback failed: ");
}

#[test]
fn stopping_playback() {
    let base = vec![
        StopRecording(RecordingStopReason::StoppedPlayback),
        ResetTrack,
        StopLocal,
        StopCast,
    ];
    assert_eq!(stop_playback_plan(None), base);
    assert_eq!(stop_playback_plan(Some(SwDeviceKind::Cast)), base);
    let mut dlna = base.clone();
    dlna.push(StopDlna);
    dlna.push(StopFfmpegServer);
    assert_eq!(stop_playback_plan(Some(SwDeviceKind::Dlna)), dlna);
}

#[test]
fn connecting_devices() {
    assert_eq!(connect_steps(SwDeviceKind::Cast), vec![ConnectCast]);
    assert_eq!(connect_steps(SwDeviceKind::Dlna), vec![StopFfmpegServer, ConnectDlna]);
    assert_eq!(after_connect_plan(SwDeviceKind::Cast, SwPlaybackState::Stopped, true), vec![StoreDevice]);
    assert_eq!(
        after_connect_plan(SwDeviceKind::Cast, SwPlaybackState::Playing, true),
        vec![StoreDevice, StopLocal, StartCast]
    );
    assert_eq!(
        after_connect_plan(SwDeviceKind::Dlna, SwPlaybackState::Loading, true),
        vec![StoreDevice, StopLocal, LoadDlnaMedia, PlayDlna, SetState(SwPlaybackState::Playing)]
    );
    assert_eq!(
        after_connect_plan(SwDeviceKind::Dlna, SwPlaybackState::Playing, false),
        vec![StoreDevice, StopLocal]
    );
}

#[test]
fn disconnecting_devices() {
    assert!(disconnect_plan(None).is_empty());
    let tail = [
        StopDiscovery,
        ClearDevice,
        SetState(SwPlaybackState::Stopped),
        ClearFailure,
        RestoreLocalVolume,
    ];
    let mut cast = vec![StopCast, DisconnectCast];
    cast.extend_from_slice(&tail);
    assert_eq!(disconnect_plan(Some(SwDeviceKind::Cast)), cast);
    let mut dlna = vec![StopDlna, DisconnectDlna];
    dlna.extend_from_slice(&tail);
    assert_eq!(disconnect_plan(Some(SwDeviceKind::Dlna)), dlna);
}

#[test]
fn reported_playback_states() {
    assert_eq!(
        playback_change_plan(SwPlaybackState::Failure, true),
        vec![
            StopRecording(RecordingStopReason::StreamFailure),
            ResetTrack,
            SetState(SwPlaybackState::Failure),
            SetInhibit(false),
        ]
    );
    assert_eq!(
        playback_change_plan(SwPlaybackState::Playing, true),
        vec![SetState(SwPlaybackState::Playing), SetInhibit(true)]
    );
    assert_eq!(
        playback_change_plan(SwPlaybackState::Failure, false),
        vec![SetState(SwPlaybackState::Failure), SetInhibit(false)]
    );
}

#[test]
fn new_titles() {
    assert_eq!(
        title_change_plan(true, SwRecordingMode::Decide, true),
        vec![
            StopRecording(RecordingStopReason::TrackChange),
            ShiftPlayingTrack,
            StartRecording,
            SetPlayingTrack,
            NotifyTrack,
        ]
    );
    assert_eq!(
        title_change_plan(false, SwRecordingMode::Everything, false),
        vec![StopRecording(RecordingStopReason::TrackChange), MarkIncomplete, SetPlayingTrack]
    );
    assert_eq!(
        title_change_plan(true, SwRecordingMode::Nothing, false),
        vec![StopRecording(RecordingStopReason::TrackChange), ShiftPlayingTrack, SetPlayingTrack]
    );
}

#[test]
fn volume_changes() {
    assert!(set_volume_plan(false, None).is_empty());
    assert_eq!(
        set_volume_plan(true, None),
        vec![SetBackendVolume, SaveVolume(VolumeKey::PlaybackVolumeLocal)]
    );
    assert_eq!(
        set_volume_plan(true, Some(SwDeviceKind::Cast)),
        vec![SetBackendVolume, SaveVolume(VolumeKey::PlaybackVolumeCast)]
    );
    assert_eq!(set_volume_plan(true, Some(SwDeviceKind::Dlna)), vec![SetDlnaVolume]);
    assert_eq!(dlna_volume_saved(true), vec![SaveVolume(VolumeKey::PlaybackVolumeDlna)]);
    assert!(dlna_volume_saved(false).is_empty());
}

#[test]
fn failed_connect_keeps_device() {
    assert!(connect_result_plan(SwDeviceKind::Dlna, false, SwPlaybackState::Playing, true).is_empty());
    assert_eq!(
        connect_result_plan(SwDeviceKind::Cast, true, SwPlaybackState::Playing, true),
        vec![StoreDevice, StopLocal, StartCast]
    );
}

#[test]
fn restoring_the_last_station() {
    assert_eq!(restore_choice(false, true, true), RestoreChoice::Nothing);
    assert_eq!(restore_choice(true, false, true), RestoreChoice::Unreadable);
    assert_eq!(restore_choice(true, true, true), RestoreChoice::LibraryStation);
    assert_eq!(restore_choice(true, true, false), RestoreChoice::NewStation);
}

#[test]
fn reset_track_history() {
    assert!(reset_track_keeps(Some(SwTrackState::Recorded)));
    assert!(!reset_track_keeps(Some(SwTrackState::SkippedIgnored)));
    assert!(!reset_track_keeps(Some(SwTrackState::BelowThreshold)));
    assert!(!reset_track_keeps(None));
}
