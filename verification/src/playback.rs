//! How the player sequences its outputs: the steps that setting a station,
//! starting and stopping playback, connecting and disconnecting a device,
//! and the backend's reports lead to. Performing a step (GStreamer, the
//! Cast and DLNA senders, the settings) is left to the caller, which hands
//! the outcome of a step that can fail back to the next decision.

use vstd::prelude::*;
use vstd::string::*;
use crate::discovery::SwDeviceKind;
use crate::track_state::SwTrackState;
use crate::player::{
    cast_incompatible, spec_cast_incompatible, spec_discard_data, spec_volume_key, volume_key,
    RecordingStopReason, SwPlaybackState, SwRecordingMode, VolumeKey,
};

verus! {

broadcast use vstd::string::group_string_axioms;

/// A failure the player reports.
#[derive(Debug, Clone, Copy, PartialEq, Eq, Structural)]
pub enum PlayerFailure {
    /// A connected Cast device cannot play the new station's stream.
    CastIncompatible,
    /// The station has no stream URL.
    NotStreamable,
    /// The DLNA playback sequence failed; its error follows the step.
    DlnaFailed,
}

/// The message of a failure with a fixed text.
pub open spec fn spec_player_failure_message(f: PlayerFailure) -> Seq<char> {
    match f {
        PlayerFailure::CastIncompatible => "Radio stream incompatible with cast device!"@,
        PlayerFailure::NotStreamable => "Station cannot be streamed. URL is not valid."@,
        PlayerFailure::DlnaFailed => "DLNA playback failed: "@,
    }
}

impl PlayerFailure {
    /// The message of this failure (for `DlnaFailed`, the prefix of the
    /// error text).
    pub fn message(&self) -> (m: String)
        ensures
            m@ == spec_player_failure_message(*self),
    {
        match self {
            PlayerFailure::CastIncompatible => String::from_str("Radio stream incompatible with cast device!"),
            PlayerFailure::NotStreamable => String::from_str("Station cannot be streamed. URL is not valid."),
            PlayerFailure::DlnaFailed => String::from_str("DLNA playback failed: "),
        }
    }
}

/// One step the player performs.
#[derive(Debug, Clone, Copy, PartialEq, Eq, Structural)]
pub enum PlayerStep {
    /// Run the whole stop sequence (see `stop_playback_plan`).
    StopPlayback,
    /// The new station becomes the current one.
    StoreStation,
    /// Remember the station as the last one played.
    SaveLastStation,
    /// Hand the station's stream to the local backend.
    SetLocalSource,
    /// Apply the volume saved under the key (half volume when none is).
    RestoreVolume(VolumeKey),
    /// Start local playback.
    StartLocal,
    /// Stop local playback.
    StopLocal,
    /// Report a playback state.
    SetState(SwPlaybackState),
    /// Report a failure.
    ShowFailure(PlayerFailure),
    /// Clear the last failure.
    ClearFailure,
    /// Run the whole start sequence (see `start_playback_plan`).
    StartPlayback,
    /// Connect the Cast sender to the device.
    ConnectCast,
    /// Start playback on the Cast device.
    StartCast,
    /// Stop playback on the Cast device.
    StopCast,
    /// Disconnect the Cast sender.
    DisconnectCast,
    /// Run the DLNA playback sequence (see `dlna_sequence_plan`).
    RunDlnaSequence,
    /// Set the saved volume on the DLNA renderer.
    SetDlnaVolume,
    /// Connect the DLNA sender, fetching the renderer's services.
    ConnectDlna,
    /// Load the station's stream onto the DLNA renderer.
    LoadDlnaMedia,
    /// Send `Play` to the DLNA renderer.
    PlayDlna,
    /// Send `Stop` to the DLNA renderer.
    StopDlna,
    /// Stop the FFmpeg proxy.
    StopFfmpegServer,
    /// Disconnect the DLNA sender.
    DisconnectDlna,
    /// Stop the recording of the playing track for this reason.
    StopRecording(RecordingStopReason),
    /// Move the playing track to the history and forget the previous one.
    ResetTrack,
    /// Stop scanning for devices.
    StopDiscovery,
    /// The device becomes the connected one.
    StoreDevice,
    /// No device is connected any more.
    ClearDevice,
    /// Take the local backend's volume again, unmuted.
    RestoreLocalVolume,
    /// Inhibit suspend (or stop inhibiting it).
    SetInhibit(bool),
    /// The playing track becomes the previous one and enters the history.
    ShiftPlayingTrack,
    /// Start recording the new track.
    StartRecording,
    /// Mark the new track as not recordable from its beginning.
    MarkIncomplete,
    /// The new track becomes the playing one.
    SetPlayingTrack,
    /// Show the track notification.
    NotifyTrack,
    /// Set the volume on the local backend.
    SetBackendVolume,
    /// Save the volume under the key.
    SaveVolume(VolumeKey),
}

/// The steps of setting a station with the stream `url`, with `device`
/// connected, starting playback when `start` is set. A Cast device refuses
/// a stream it cannot play, and the current station then keeps playing.
/// Otherwise playback stops and the station is stored; local audio is only
/// set up without a device (so nothing plays twice), and a device is started
/// through the start sequence.
pub open spec fn spec_set_station_plan(device: Option<SwDeviceKind>, url: Option<Seq<char>>, start: bool) -> Seq<PlayerStep> {
    match url {
        Some(u) => if device == Some(SwDeviceKind::Cast) && spec_cast_incompatible(u) {
            seq![PlayerStep::ShowFailure(PlayerFailure::CastIncompatible)]
        } else {
            let head = seq![PlayerStep::StopPlayback, PlayerStep::StoreStation, PlayerStep::SaveLastStation];
            let output = if device is None {
                seq![PlayerStep::SetLocalSource, PlayerStep::RestoreVolume(VolumeKey::PlaybackVolumeLocal)]
                    + if start { seq![PlayerStep::StartLocal] } else { Seq::empty() }
            } else {
                seq![PlayerStep::RestoreVolume(spec_volume_key(device))]
            };
            let remote = if start && device is Some {
                seq![PlayerStep::SetState(SwPlaybackState::Loading), PlayerStep::StartPlayback]
            } else {
                Seq::empty()
            };
            head + output + remote
        },
        None => seq![
            PlayerStep::StopPlayback,
            PlayerStep::StoreStation,
            PlayerStep::ShowFailure(PlayerFailure::NotStreamable),
        ],
    }
}

/// The view of an optional string.
pub open spec fn opt_str_view(s: Option<&str>) -> Option<Seq<char>> {
    match s {
        Some(v) => Some(v@),
        None => None,
    }
}

/// The steps of setting a station.
pub fn set_station_plan(device: Option<SwDeviceKind>, url: Option<&str>, start: bool) -> (r: Vec<PlayerStep>)
    ensures
        r@ == spec_set_station_plan(device, opt_str_view(url), start),
{
    let mut r: Vec<PlayerStep> = Vec::new();
    match url {
        Some(u) => {
            if device == Some(SwDeviceKind::Cast) && cast_incompatible(u) {
                r.push(PlayerStep::ShowFailure(PlayerFailure::CastIncompatible));
                return r;
            }
            r.push(PlayerStep::StopPlayback);
            r.push(PlayerStep::StoreStation);
            r.push(PlayerStep::SaveLastStation);
            if device.is_none() {
                r.push(PlayerStep::SetLocalSource);
                r.push(PlayerStep::RestoreVolume(VolumeKey::PlaybackVolumeLocal));
                if start {
                    r.push(PlayerStep::StartLocal);
                }
            } else {
                r.push(PlayerStep::RestoreVolume(volume_key(device)));
            }
            if start && device.is_some() {
                r.push(PlayerStep::SetState(SwPlaybackState::Loading));
                r.push(PlayerStep::StartPlayback);
            }
        },
        None => {
            r.push(PlayerStep::StopPlayback);
            r.push(PlayerStep::StoreStation);
            r.push(PlayerStep::ShowFailure(PlayerFailure::NotStreamable));
        },
    }
    r
}

/// The steps of starting playback: nothing without a station; otherwise the
/// player loads, starts local audio only without a device, restores the
/// volume saved for the output, and starts the device: a Cast device is
/// playing once started, a DLNA renderer runs its sequence.
pub open spec fn spec_start_playback_plan(has_station: bool, device: Option<SwDeviceKind>) -> Seq<PlayerStep> {
    if !has_station {
        Seq::empty()
    } else {
        seq![PlayerStep::SetState(SwPlaybackState::Loading)] + (match device {
            None => seq![PlayerStep::StartLocal, PlayerStep::RestoreVolume(VolumeKey::PlaybackVolumeLocal)],
            Some(SwDeviceKind::Cast) => seq![
                PlayerStep::RestoreVolume(VolumeKey::PlaybackVolumeCast),
                PlayerStep::StartCast,
                PlayerStep::SetState(SwPlaybackState::Playing),
            ],
            Some(SwDeviceKind::Dlna) => seq![
                PlayerStep::RestoreVolume(VolumeKey::PlaybackVolumeDlna),
                PlayerStep::RunDlnaSequence,
            ],
        })
    }
}

/// The steps of starting playback.
pub fn start_playback_plan(has_station: bool, device: Option<SwDeviceKind>) -> (r: Vec<PlayerStep>)
    ensures
        r@ == spec_start_playback_plan(has_station, device),
{
    let mut r: Vec<PlayerStep> = Vec::new();
    if !has_station {
        return r;
    }
    r.push(PlayerStep::SetState(SwPlaybackState::Loading));
    match device {
        None => {
            r.push(PlayerStep::StartLocal);
            r.push(PlayerStep::RestoreVolume(VolumeKey::PlaybackVolumeLocal));
        },
        Some(SwDeviceKind::Cast) => {
            r.push(PlayerStep::RestoreVolume(VolumeKey::PlaybackVolumeCast));
            r.push(PlayerStep::StartCast);
            r.push(PlayerStep::SetState(SwPlaybackState::Playing));
        },
        Some(SwDeviceKind::Dlna) => {
            r.push(PlayerStep::RestoreVolume(VolumeKey::PlaybackVolumeDlna));
            r.push(PlayerStep::RunDlnaSequence);
        },
    }
    r
}

/// The DLNA playback sequence: set the saved volume (its failure is only
/// logged), then either send `Play` to the running proxy or load the
/// station's stream, which needs a station with a stream URL.
pub open spec fn spec_dlna_sequence_plan(proxy_running: bool, has_station: bool, has_url: bool) -> Result<Seq<PlayerStep>, crate::player::DlnaPlaybackError> {
    if proxy_running {
        Ok(seq![PlayerStep::SetDlnaVolume, PlayerStep::PlayDlna])
    } else if !has_station {
        Err(crate::player::DlnaPlaybackError::NoStation)
    } else if !has_url {
        Err(crate::player::DlnaPlaybackError::NoStreamUrl)
    } else {
        Ok(seq![PlayerStep::SetDlnaVolume, PlayerStep::LoadDlnaMedia])
    }
}

/// The steps of the DLNA playback sequence, or why it cannot run.
pub fn dlna_sequence_plan(proxy_running: bool, has_station: bool, has_url: bool) -> (r: Result<Vec<PlayerStep>, crate::player::DlnaPlaybackError>)
    ensures
        match (r, spec_dlna_sequence_plan(proxy_running, has_station, has_url)) {
            (Ok(v), Ok(s)) => v@ == s,
            (Err(e), Err(f)) => e == f,
            _ => false,
        },
{
    if !proxy_running && !has_station {
        return Err(crate::player::DlnaPlaybackError::NoStation);
    }
    if !proxy_running && !has_url {
        return Err(crate::player::DlnaPlaybackError::NoStreamUrl);
    }
    let mut r: Vec<PlayerStep> = Vec::new();
    r.push(PlayerStep::SetDlnaVolume);
    if proxy_running {
        r.push(PlayerStep::PlayDlna);
    } else {
        r.push(PlayerStep::LoadDlnaMedia);
    }
    Ok(r)
}

/// What the outcome of the DLNA sequence leads to: playing, or stopped with
/// a failure.
pub open spec fn spec_dlna_outcome_plan(succeeded: bool) -> Seq<PlayerStep> {
    if succeeded {
        seq![PlayerStep::SetState(SwPlaybackState::Playing)]
    } else {
        seq![
            PlayerStep::SetState(SwPlaybackState::Stopped),
            PlayerStep::ShowFailure(PlayerFailure::DlnaFailed),
        ]
    }
}

/// The steps after the DLNA sequence ran.
pub fn dlna_outcome_plan(succeeded: bool) -> (r: Vec<PlayerStep>)
    ensures
        r@ == spec_dlna_outcome_plan(succeeded),
{
    let mut r: Vec<PlayerStep> = Vec::new();
    if succeeded {
        r.push(PlayerStep::SetState(SwPlaybackState::Playing));
    } else {
        r.push(PlayerStep::SetState(SwPlaybackState::Stopped));
        r.push(PlayerStep::ShowFailure(PlayerFailure::DlnaFailed));
    }
    r
}

/// The steps of stopping playback with `device` connected: the recording is
/// stopped (discarding its data), the track reset, local audio and the Cast
/// sender stopped, and a DLNA renderer stopped together with its proxy.
pub open spec fn spec_stop_playback_plan(device: Option<SwDeviceKind>) -> Seq<PlayerStep> {
    seq![
        PlayerStep::StopRecording(RecordingStopReason::StoppedPlayback),
        PlayerStep::ResetTrack,
        PlayerStep::StopLocal,
        PlayerStep::StopCast,
    ] + if device == Some(SwDeviceKind::Dlna) {
        seq![PlayerStep::StopDlna, PlayerStep::StopFfmpegServer]
    } else {
        Seq::empty()
    }
}

/// The steps of stopping playback.
pub fn stop_playback_plan(device: Option<SwDeviceKind>) -> (r: Vec<PlayerStep>)
    ensures
        r@ == spec_stop_playback_plan(device),
{
    let mut r: Vec<PlayerStep> = Vec::new();
    r.push(PlayerStep::StopRecording(RecordingStopReason::StoppedPlayback));
    r.push(PlayerStep::ResetTrack);
    r.push(PlayerStep::StopLocal);
    r.push(PlayerStep::StopCast);
    if device == Some(SwDeviceKind::Dlna) {
        r.push(PlayerStep::StopDlna);
        r.push(PlayerStep::StopFfmpegServer);
    }
    r
}

/// The steps of connecting a device of `kind` (after the Cast check): a
/// Cast sender connects; for a DLNA renderer the old proxy is stopped and
/// the renderer's services are fetched.
pub open spec fn spec_connect_steps(kind: SwDeviceKind) -> Seq<PlayerStep> {
    match kind {
        SwDeviceKind::Cast => seq![PlayerStep::ConnectCast],
        SwDeviceKind::Dlna => seq![PlayerStep::StopFfmpegServer, PlayerStep::ConnectDlna],
    }
}

/// The steps of connecting a device.
pub fn connect_steps(kind: SwDeviceKind) -> (r: Vec<PlayerStep>)
    ensures
        r@ == spec_connect_steps(kind),
{
    let mut r: Vec<PlayerStep> = Vec::new();
    match kind {
        SwDeviceKind::Cast => {
            r.push(PlayerStep::ConnectCast);
        },
        SwDeviceKind::Dlna => {
            r.push(PlayerStep::StopFfmpegServer);
            r.push(PlayerStep::ConnectDlna);
        },
    }
    r
}

/// The steps once a device is connected: it is stored, and what was playing
/// (or loading) locally moves to it: local audio stops first, then the Cast
/// device starts, or the DLNA renderer loads the stream and plays it.
pub open spec fn spec_after_connect_plan(kind: SwDeviceKind, state: SwPlaybackState, has_url: bool) -> Seq<PlayerStep> {
    seq![PlayerStep::StoreDevice] + if state == SwPlaybackState::Playing || state == SwPlaybackState::Loading {
        seq![PlayerStep::StopLocal] + (match kind {
            SwDeviceKind::Cast => seq![PlayerStep::StartCast],
            SwDeviceKind::Dlna => if has_url {
                seq![
                    PlayerStep::LoadDlnaMedia,
                    PlayerStep::PlayDlna,
                    PlayerStep::SetState(SwPlaybackState::Playing),
                ]
            } else {
                Seq::empty()
            },
        })
    } else {
        Seq::empty()
    }
}

/// The steps once a device is connected.
pub fn after_connect_plan(kind: SwDeviceKind, state: SwPlaybackState, has_url: bool) -> (r: Vec<PlayerStep>)
    ensures
        r@ == spec_after_connect_plan(kind, state, has_url),
{
    let mut r: Vec<PlayerStep> = Vec::new();
    r.push(PlayerStep::StoreDevice);
    if state == SwPlaybackState::Playing || state == SwPlaybackState::Loading {
        r.push(PlayerStep::StopLocal);
        match kind {
            SwDeviceKind::Cast => {
                r.push(PlayerStep::StartCast);
            },
            SwDeviceKind::Dlna => {
                if has_url {
                    r.push(PlayerStep::LoadDlnaMedia);
                    r.push(PlayerStep::PlayDlna);
                    r.push(PlayerStep::SetState(SwPlaybackState::Playing));
                }
            },
        }
    }
    r
}

/// The steps once connecting a device of `kind` ended: after a failure
/// nothing more happens, so the device connected before stays the player's
/// device; after success, the steps of `after_connect_plan`.
pub open spec fn spec_connect_result_plan(kind: SwDeviceKind, connected: bool, state: SwPlaybackState, has_url: bool) -> Seq<PlayerStep> {
    if connected {
        spec_after_connect_plan(kind, state, has_url)
    } else {
        Seq::empty()
    }
}

/// The steps once connecting a device ended.
pub fn connect_result_plan(kind: SwDeviceKind, connected: bool, state: SwPlaybackState, has_url: bool) -> (r: Vec<PlayerStep>)
    ensures
        r@ == spec_connect_result_plan(kind, connected, state, has_url),
{
    if connected {
        after_connect_plan(kind, state, has_url)
    } else {
        Vec::new()
    }
}

/// Connecting a DLNA renderer stops the old proxy before it connects; a
/// connect that fails neither stores nor clears a device, and one that
/// succeeds stores it first.
pub proof fn law_connect_keeps_device_on_failure(kind: SwDeviceKind, state: SwPlaybackState, has_url: bool)
    ensures
        spec_connect_steps(SwDeviceKind::Dlna) == seq![PlayerStep::StopFfmpegServer, PlayerStep::ConnectDlna],
        !spec_connect_result_plan(kind, false, state, has_url).contains(PlayerStep::StoreDevice),
        !spec_connect_result_plan(kind, false, state, has_url).contains(PlayerStep::ClearDevice),
        spec_connect_result_plan(kind, true, state, has_url)[0] == PlayerStep::StoreDevice,
{
}

/// The steps of disconnecting `device`: nothing without one; otherwise the
/// device is stopped and disconnected, the scan stops, the device is
/// forgotten before the state returns to stopped without a failure, and the
/// local volume comes back.
pub open spec fn spec_disconnect_plan(device: Option<SwDeviceKind>) -> Seq<PlayerStep> {
    match device {
        None => Seq::empty(),
        Some(kind) => (match kind {
            SwDeviceKind::Cast => seq![PlayerStep::StopCast, PlayerStep::DisconnectCast],
            SwDeviceKind::Dlna => seq![PlayerStep::StopDlna, PlayerStep::DisconnectDlna],
        }) + seq![
            PlayerStep::StopDiscovery,
            PlayerStep::ClearDevice,
            PlayerStep::SetState(SwPlaybackState::Stopped),
            PlayerStep::ClearFailure,
            PlayerStep::RestoreLocalVolume,
        ],
    }
}

/// The steps of disconnecting the device.
pub fn disconnect_plan(device: Option<SwDeviceKind>) -> (r: Vec<PlayerStep>)
    ensures
        r@ == spec_disconnect_plan(device),
{
    let mut r: Vec<PlayerStep> = Vec::new();
    match device {
        None => {
            return r;
        },
        Some(SwDeviceKind::Cast) => {
            r.push(PlayerStep::StopCast);
            r.push(PlayerStep::DisconnectCast);
        },
        Some(SwDeviceKind::Dlna) => {
            r.push(PlayerStep::StopDlna);
            r.push(PlayerStep::DisconnectDlna);
        },
    }
    r.push(PlayerStep::StopDiscovery);
    r.push(PlayerStep::ClearDevice);
    r.push(PlayerStep::SetState(SwPlaybackState::Stopped));
    r.push(PlayerStep::ClearFailure);
    r.push(PlayerStep::RestoreLocalVolume);
    r
}

/// The steps of a playback state reported by the backend: a failure while
/// recording stops the recording (discarding it) and resets the track; the
/// state is taken, and suspend is inhibited exactly while playing.
pub open spec fn spec_playback_change_plan(state: SwPlaybackState, is_recording: bool) -> Seq<PlayerStep> {
    (if state == SwPlaybackState::Failure && is_recording {
        seq![PlayerStep::StopRecording(RecordingStopReason::StreamFailure), PlayerStep::ResetTrack]
    } else {
        Seq::empty()
    }) + seq![PlayerStep::SetState(state), PlayerStep::SetInhibit(state == SwPlaybackState::Playing)]
}

/// The steps of a reported playback state.
pub fn playback_change_plan(state: SwPlaybackState, is_recording: bool) -> (r: Vec<PlayerStep>)
    ensures
        r@ == spec_playback_change_plan(state, is_recording),
{
    let mut r: Vec<PlayerStep> = Vec::new();
    if state == SwPlaybackState::Failure && is_recording {
        r.push(PlayerStep::StopRecording(RecordingStopReason::StreamFailure));
        r.push(PlayerStep::ResetTrack);
    }
    r.push(PlayerStep::SetState(state));
    r.push(PlayerStep::SetInhibit(state == SwPlaybackState::Playing));
    r
}

/// The steps of a new stream title: the old track's recording stops (its
/// data kept), the playing track becomes the previous one; unless nothing is
/// recorded, the new track is recorded only when a track played before it
/// (else it is marked incomplete); it becomes the playing track, and a
/// notification is shown when they are enabled.
pub open spec fn spec_title_change_plan(had_playing_track: bool, mode: SwRecordingMode, notify: bool) -> Seq<PlayerStep> {
    seq![PlayerStep::StopRecording(RecordingStopReason::TrackChange)]
        + (if had_playing_track { seq![PlayerStep::ShiftPlayingTrack] } else { Seq::empty() })
        + (if mode == SwRecordingMode::Nothing {
            Seq::empty()
        } else if had_playing_track {
            seq![PlayerStep::StartRecording]
        } else {
            seq![PlayerStep::MarkIncomplete]
        })
        + seq![PlayerStep::SetPlayingTrack]
        + (if notify { seq![PlayerStep::NotifyTrack] } else { Seq::empty() })
}

/// The steps of a new stream title.
pub fn title_change_plan(had_playing_track: bool, mode: SwRecordingMode, notify: bool) -> (r: Vec<PlayerStep>)
    ensures
        r@ == spec_title_change_plan(had_playing_track, mode, notify),
{
    let mut r: Vec<PlayerStep> = Vec::new();
    r.push(PlayerStep::StopRecording(RecordingStopReason::TrackChange));
    if had_playing_track {
        r.push(PlayerStep::ShiftPlayingTrack);
    }
    if mode != SwRecordingMode::Nothing {
        if had_playing_track {
            r.push(PlayerStep::StartRecording);
        } else {
            r.push(PlayerStep::MarkIncomplete);
        }
    }
    r.push(PlayerStep::SetPlayingTrack);
    if notify {
        r.push(PlayerStep::NotifyTrack);
    }
    r
}

/// The steps of a volume change: none when the volume is unchanged; without
/// a device and with a Cast device the backend takes it and it is saved
/// under the output's key; a DLNA renderer is sent it, and it is saved only
/// once the renderer accepted it (see `dlna_volume_saved`).
pub open spec fn spec_set_volume_plan(changed: bool, device: Option<SwDeviceKind>) -> Seq<PlayerStep> {
    if !changed {
        Seq::empty()
    } else if device == Some(SwDeviceKind::Dlna) {
        seq![PlayerStep::SetDlnaVolume]
    } else {
        seq![PlayerStep::SetBackendVolume, PlayerStep::SaveVolume(spec_volume_key(device))]
    }
}

/// The steps of a volume change.
pub fn set_volume_plan(changed: bool, device: Option<SwDeviceKind>) -> (r: Vec<PlayerStep>)
    ensures
        r@ == spec_set_volume_plan(changed, device),
{
    let mut r: Vec<PlayerStep> = Vec::new();
    if !changed {
        return r;
    }
    if device == Some(SwDeviceKind::Dlna) {
        r.push(PlayerStep::SetDlnaVolume);
    } else {
        r.push(PlayerStep::SetBackendVolume);
        r.push(PlayerStep::SaveVolume(volume_key(device)));
    }
    r
}

/// The step after a DLNA renderer answered a volume change: the volume is
/// saved only when it was accepted.
pub fn dlna_volume_saved(accepted: bool) -> (r: Vec<PlayerStep>)
    ensures
        accepted ==> r@ == seq![PlayerStep::SaveVolume(VolumeKey::PlaybackVolumeDlna)],
        !accepted ==> r@.len() == 0,
{
    let mut r: Vec<PlayerStep> = Vec::new();
    if accepted {
        r.push(PlayerStep::SaveVolume(VolumeKey::PlaybackVolumeDlna));
    }
    r
}

/// With a device connected, neither setting a station nor starting playback
/// starts local audio: nothing plays twice.
pub proof fn law_no_local_audio_with_device(device: Option<SwDeviceKind>, url: Option<Seq<char>>, start: bool, has_station: bool)
    requires
        device is Some,
    ensures
        !spec_set_station_plan(device, url, start).contains(PlayerStep::StartLocal),
        !spec_start_playback_plan(has_station, device).contains(PlayerStep::StartLocal),
{
    let p = spec_set_station_plan(device, url, start);
    let q = spec_start_playback_plan(has_station, device);
    assert(forall|i: int| 0 <= i < p.len() ==> p[i] != PlayerStep::StartLocal);
    assert(forall|i: int| 0 <= i < q.len() ==> q[i] != PlayerStep::StartLocal);
}

/// A station that the connected Cast device cannot play is refused with a
/// failure: playback is not stopped and the station is not taken.
pub proof fn law_refused_station_keeps_playing(url: Seq<char>, start: bool)
    requires
        spec_cast_incompatible(url),
    ensures
        spec_set_station_plan(Some(SwDeviceKind::Cast), Some(url), start) == seq![
            PlayerStep::ShowFailure(PlayerFailure::CastIncompatible),
        ],
        !spec_set_station_plan(Some(SwDeviceKind::Cast), Some(url), start).contains(PlayerStep::StopPlayback),
        !spec_set_station_plan(Some(SwDeviceKind::Cast), Some(url), start).contains(PlayerStep::StoreStation),
{
    let p = spec_set_station_plan(Some(SwDeviceKind::Cast), Some(url), start);
    assert(forall|i: int| 0 <= i < p.len() ==> p[i] != PlayerStep::StopPlayback);
    assert(forall|i: int| 0 <= i < p.len() ==> p[i] != PlayerStep::StoreStation);
}

/// Stopping playback first stops the recording, discarding its data, and
/// with a DLNA renderer also stops the renderer and its proxy.
pub proof fn law_stop_discards_recording(device: Option<SwDeviceKind>)
    ensures
        spec_stop_playback_plan(device)[0] == PlayerStep::StopRecording(RecordingStopReason::StoppedPlayback),
        spec_discard_data(RecordingStopReason::StoppedPlayback),
        device == Some(SwDeviceKind::Dlna) ==> spec_stop_playback_plan(device).contains(PlayerStep::StopDlna)
            && spec_stop_playback_plan(device).contains(PlayerStep::StopFfmpegServer),
{
    let p = spec_stop_playback_plan(device);
    if device == Some(SwDeviceKind::Dlna) {
        assert(p[4] == PlayerStep::StopDlna);
        assert(p[5] == PlayerStep::StopFfmpegServer);
    }
}

/// Disconnecting a device stops it first, and forgets it before the player
/// returns to the stopped state, so no device check runs on the way back to
/// local playback; without a device nothing happens.
pub proof fn law_disconnect_returns_to_local(device: Option<SwDeviceKind>)
    ensures
        device is None ==> spec_disconnect_plan(device).len() == 0,
        device == Some(SwDeviceKind::Cast) ==> spec_disconnect_plan(device)[0] == PlayerStep::StopCast,
        device == Some(SwDeviceKind::Dlna) ==> spec_disconnect_plan(device)[0] == PlayerStep::StopDlna,
        device is Some ==> ({
            let p = spec_disconnect_plan(device);
            exists|i: int, j: int|
                0 <= i < j < p.len() && p[i] == PlayerStep::ClearDevice && p[j] == PlayerStep::SetState(
                    SwPlaybackState::Stopped,
                )
        }),
{
    if device is Some {
        let p = spec_disconnect_plan(device);
        assert(p[3] == PlayerStep::ClearDevice);
        assert(p[4] == PlayerStep::SetState(SwPlaybackState::Stopped));
    }
}

/// Connecting a device while playing (or loading) stops local audio before
/// the device is started.
pub proof fn law_connect_stops_local_first(kind: SwDeviceKind, state: SwPlaybackState, has_url: bool)
    requires
        state == SwPlaybackState::Playing || state == SwPlaybackState::Loading,
    ensures
        spec_after_connect_plan(kind, state, has_url)[0] == PlayerStep::StoreDevice,
        spec_after_connect_plan(kind, state, has_url)[1] == PlayerStep::StopLocal,
        kind == SwDeviceKind::Cast ==> spec_after_connect_plan(kind, state, has_url)[2] == PlayerStep::StartCast,
        kind == SwDeviceKind::Dlna && has_url ==> spec_after_connect_plan(kind, state, has_url)[2]
            == PlayerStep::LoadDlnaMedia,
{
}

/// The last step of a reported playback state sets the inhibitor: held
/// exactly while playing.
pub proof fn law_inhibit_follows_playback(state: SwPlaybackState, is_recording: bool)
    ensures
        ({
            let p = spec_playback_change_plan(state, is_recording);
            &&& p.len() >= 2
            &&& p[p.len() - 1] == PlayerStep::SetInhibit(state == SwPlaybackState::Playing)
            &&& p[p.len() - 2] == PlayerStep::SetState(state)
        }),
{
}

/// Where restoring the last played station takes the station from.
#[derive(Debug, Clone, Copy, PartialEq, Eq, Structural)]
pub enum RestoreChoice {
    /// Nothing was saved: nothing is restored.
    Nothing,
    /// The saved station could not be read: only a warning.
    Unreadable,
    /// The library holds the station: its object is reused (it may carry a
    /// custom cover).
    LibraryStation,
    /// A new station is made from the saved data.
    NewStation,
}

/// Restoring the last station: nothing without saved data, a warning when
/// it cannot be read, else the library's station when it has one, or a new
/// one; a restored station is set without starting playback.
pub open spec fn spec_restore_choice(has_saved: bool, readable: bool, in_library: bool) -> RestoreChoice {
    if !has_saved {
        RestoreChoice::Nothing
    } else if !readable {
        RestoreChoice::Unreadable
    } else if in_library {
        RestoreChoice::LibraryStation
    } else {
        RestoreChoice::NewStation
    }
}

/// Decides where restoring the last station takes it from.
pub fn restore_choice(has_saved: bool, readable: bool, in_library: bool) -> (r: RestoreChoice)
    ensures
        r == spec_restore_choice(has_saved, readable, in_library),
{
    if !has_saved {
        RestoreChoice::Nothing
    } else if !readable {
        RestoreChoice::Unreadable
    } else if in_library {
        RestoreChoice::LibraryStation
    } else {
        RestoreChoice::NewStation
    }
}

/// Resetting the track adds the playing track, if any, to the past tracks
/// when its state is listed in the history.
pub fn reset_track_keeps(playing: Option<SwTrackState>) -> (r: bool)
    ensures
        r == match playing {
            Some(st) => st != SwTrackState::SkippedIgnored && st != SwTrackState::BelowThreshold,
            None => false,
        },
{
    match playing {
        Some(st) => st.include_in_history(),
        None => false,
    }
}

/// Setting a station that plays (with start asked for) always ends by
/// starting it: with any connected device that does not refuse the stream,
/// the steps end with loading and then starting playback on the device;
/// without a device, local audio is started. A station that is not started
/// is never started.
pub proof fn law_started_station_plays(device: Option<SwDeviceKind>, url: Seq<char>, start: bool)
    ensures
        ({
            let p = spec_set_station_plan(device, Some(url), start);
            &&& start && device is Some && !(device == Some(SwDeviceKind::Cast) && spec_cast_incompatible(url))
                ==> p.len() >= 2 && p[p.len() - 2] == PlayerStep::SetState(SwPlaybackState::Loading)
                && p[p.len() - 1] == PlayerStep::StartPlayback
            &&& start && device is None ==> p.contains(PlayerStep::StartLocal)
            &&& !start ==> !p.contains(PlayerStep::StartPlayback) && !p.contains(PlayerStep::StartLocal)
            &&& !(device == Some(SwDeviceKind::Cast) && spec_cast_incompatible(url)) ==> p[0]
                == PlayerStep::StopPlayback && p[1] == PlayerStep::StoreStation
        }),
{
    let p = spec_set_station_plan(device, Some(url), start);
    if start && device is None {
        assert(p[5] == PlayerStep::StartLocal);
    }
    if !start {
        assert(forall|i: int| 0 <= i < p.len() ==> p[i] != PlayerStep::StartPlayback);
        assert(forall|i: int| 0 <= i < p.len() ==> p[i] != PlayerStep::StartLocal);
    }
}

} // verus!
