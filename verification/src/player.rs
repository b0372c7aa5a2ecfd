//! The decisions of the player: recording a track or song and stopping the
//! recording, toggling playback, restoring volumes, and checking streams
//! against the connected device.

use vstd::prelude::*;
use vstd::string::*;
use crate::discovery::SwDeviceKind;
use crate::song_state::SwSongState;
use crate::text::{chars_of, contains, contains_exec, push_str, str_eq, string_from_chars};

verus! {

broadcast use vstd::string::group_string_axioms;

/// The playback state of the player.
#[derive(Debug, Clone, Copy, PartialEq, Eq, Structural, Default)]
pub enum SwPlaybackState {
    #[default]
    Stopped,
    Playing,
    Loading,
    Failure,
}

/// What is recorded while playing.
#[derive(Debug, Clone, Copy, PartialEq, Eq, Structural, Default)]
pub enum SwRecordingMode {
    /// Every track is recorded and saved.
    Everything,
    /// Every track is recorded; the user decides what is saved.
    #[default]
    Decide,
    /// Nothing is recorded.
    Nothing,
}

/// The recording state of a track.
#[derive(Debug, Clone, Copy, PartialEq, Eq, Structural, Default)]
pub enum SwRecordingState {
    #[default]
    Idle,
    IdleIncomplete,
    Recording,
    Recorded,
    RecordedReachedMaxDuration,
    DiscardedCancelled,
    DiscardedBelowMinDuration,
}

/// The states in which recorded data is kept.
pub open spec fn spec_is_recorded(s: SwRecordingState) -> bool {
    s == SwRecordingState::Recorded || s == SwRecordingState::RecordedReachedMaxDuration
}

impl SwRecordingState {
    /// Whether recorded data is kept in this state.
    pub fn is_recorded(&self) -> (r: bool)
        ensures
            r == spec_is_recorded(*self),
    {
        *self == SwRecordingState::Recorded || *self == SwRecordingState::RecordedReachedMaxDuration
    }
}

/// Why a recording stops.
#[derive(Debug, Clone, Copy, PartialEq, Eq, Structural)]
pub enum RecordingStopReason {
    TrackChange,
    StoppedPlayback,
    Cancelled,
    ReachedMaximumDuration,
    StreamFailure,
}

/// Recorded data is kept only when the track changes or reaches the maximum
/// duration.
pub open spec fn spec_discard_data(r: RecordingStopReason) -> bool {
    r != RecordingStopReason::TrackChange && r != RecordingStopReason::ReachedMaximumDuration
}

impl RecordingStopReason {
    /// Whether stopping for this reason discards the recorded data.
    pub fn discard_data(&self) -> (d: bool)
        ensures
            d == spec_discard_data(*self),
    {
        *self != RecordingStopReason::TrackChange && *self != RecordingStopReason::ReachedMaximumDuration
    }
}

/// What stopping a track's recording leads to.
#[derive(Debug, Clone, Copy, PartialEq, Eq, Structural)]
pub struct RecordingOutcome {
    /// The track's new state.
    pub state: SwRecordingState,
    /// The duration set on the track.
    pub duration: u64,
    /// Whether the recorded data is thrown away.
    pub discard_data: bool,
    /// Whether the track is saved right away.
    pub save_track: bool,
}

/// The outcome of stopping a recording of `recorded` seconds: a discarding
/// reason cancels it (duration 0); otherwise it is recorded (noting a reached
/// maximum), unless shorter than the minimum duration (compared as the
/// setting converts to `u64`). Recorded tracks are saved right away in mode
/// `Everything` or when the user asked for it.
pub open spec fn spec_recording_outcome(
    reason: RecordingStopReason,
    recorded: u64,
    minimum_duration: i32,
    mode: SwRecordingMode,
    save_when_recorded: bool,
) -> RecordingOutcome {
    let discard = spec_discard_data(reason);
    let duration: u64 = if discard { 0 } else { recorded };
    let state0 = if discard {
        SwRecordingState::DiscardedCancelled
    } else if reason == RecordingStopReason::ReachedMaximumDuration {
        SwRecordingState::RecordedReachedMaxDuration
    } else {
        SwRecordingState::Recorded
    };
    let below = spec_is_recorded(state0) && duration < (minimum_duration as u64);
    let state = if below { SwRecordingState::DiscardedBelowMinDuration } else { state0 };
    RecordingOutcome {
        state,
        duration,
        discard_data: discard || below,
        save_track: spec_is_recorded(state) && (mode == SwRecordingMode::Everything || save_when_recorded),
    }
}

/// Decides what stopping a track's recording does.
pub fn recording_outcome(
    reason: RecordingStopReason,
    recorded: u64,
    minimum_duration: i32,
    mode: SwRecordingMode,
    save_when_recorded: bool,
) -> (o: RecordingOutcome)
    ensures
        o == spec_recording_outcome(reason, recorded, minimum_duration, mode, save_when_recorded),
{
    let mut duration = recorded;
    let mut discard = reason.discard_data();
    let mut state = if reason.discard_data() {
        duration = 0;
        SwRecordingState::DiscardedCancelled
    } else if reason == RecordingStopReason::ReachedMaximumDuration {
        SwRecordingState::RecordedReachedMaxDuration
    } else {
        SwRecordingState::Recorded
    };
    if state.is_recorded() && duration < minimum_duration as u64 {
        discard = true;
        state = SwRecordingState::DiscardedBelowMinDuration;
    }
    let save = state.is_recorded() && (mode == SwRecordingMode::Everything || save_when_recorded);
    RecordingOutcome { state, duration, discard_data: discard, save_track: save }
}

/// Data is kept only if it is at least as long as the minimum, and a
/// recording that is kept is never thrown away.
pub proof fn law_kept_recordings_meet_minimum(
    reason: RecordingStopReason,
    recorded: u64,
    minimum_duration: i32,
    mode: SwRecordingMode,
    save_when_recorded: bool,
)
    ensures
        ({
            let o = spec_recording_outcome(reason, recorded, minimum_duration, mode, save_when_recorded);
            &&& spec_is_recorded(o.state) ==> !o.discard_data && o.duration >= (minimum_duration as u64)
                && o.duration == recorded
            &&& !spec_is_recorded(o.state) ==> o.discard_data && !o.save_track
            &&& spec_discard_data(reason) ==> o.state == SwRecordingState::DiscardedCancelled
        }),
{
}

/// The recording is stopped once it reaches the maximum duration (compared
/// as the setting converts to `u64`).
pub fn reached_maximum_duration(recorded: u64, maximum_duration: i32) -> (r: bool)
    ensures
        r == (recorded >= (maximum_duration as u64)),
{
    recorded >= maximum_duration as u64
}

/// What happens to a new track when the title changes.
#[derive(Debug, Clone, Copy, PartialEq, Eq, Structural)]
pub enum NewTrackRecording {
    /// Nothing is recorded.
    NotRecorded,
    /// The new track is recorded.
    StartRecording,
    /// The new track is not recorded: its beginning was missed.
    Incomplete,
}

/// A new track is recorded, unless recording is off, only when a track was
/// playing before it (else its beginning was missed).
pub open spec fn spec_new_track_recording(mode: SwRecordingMode, had_playing_track: bool) -> NewTrackRecording {
    if mode == SwRecordingMode::Nothing {
        NewTrackRecording::NotRecorded
    } else if had_playing_track {
        NewTrackRecording::StartRecording
    } else {
        NewTrackRecording::Incomplete
    }
}

/// Decides whether a new track is recorded.
pub fn new_track_recording(mode: SwRecordingMode, had_playing_track: bool) -> (r: NewTrackRecording)
    ensures
        r == spec_new_track_recording(mode, had_playing_track),
{
    if mode == SwRecordingMode::Nothing {
        NewTrackRecording::NotRecorded
    } else if had_playing_track {
        NewTrackRecording::StartRecording
    } else {
        NewTrackRecording::Incomplete
    }
}

/// Changing the recording mode to `Nothing` cancels the running recording.
pub fn recording_mode_change_cancels(old_mode: SwRecordingMode, new_mode: SwRecordingMode) -> (r: bool)
    ensures
        r == (old_mode != new_mode && new_mode == SwRecordingMode::Nothing),
{
    old_mode != new_mode && new_mode == SwRecordingMode::Nothing
}

/// What toggling playback does.
#[derive(Debug, Clone, Copy, PartialEq, Eq, Structural)]
pub enum ToggleAction {
    Start,
    Stop,
}

/// Playing or loading stops; stopped or failed starts.
pub open spec fn spec_toggle_action(state: SwPlaybackState) -> ToggleAction {
    if state == SwPlaybackState::Playing || state == SwPlaybackState::Loading {
        ToggleAction::Stop
    } else {
        ToggleAction::Start
    }
}

/// Decides what toggling playback does.
pub fn toggle_action(state: SwPlaybackState) -> (a: ToggleAction)
    ensures
        a == spec_toggle_action(state),
{
    if state == SwPlaybackState::Playing || state == SwPlaybackState::Loading {
        ToggleAction::Stop
    } else {
        ToggleAction::Start
    }
}

/// Toggling twice first stops and then starts, or the other way round.
pub proof fn law_toggle_alternates(state: SwPlaybackState)
    ensures
        spec_toggle_action(state) == ToggleAction::Stop ==> spec_toggle_action(SwPlaybackState::Stopped)
            == ToggleAction::Start,
        spec_toggle_action(state) == ToggleAction::Start ==> spec_toggle_action(SwPlaybackState::Playing)
            == ToggleAction::Stop,
{
}

/// Whether a device plays what was playing locally when it is connected.
pub fn start_on_connected_device(state: SwPlaybackState) -> (r: bool)
    ensures
        r == (state == SwPlaybackState::Playing || state == SwPlaybackState::Loading),
{
    state == SwPlaybackState::Playing || state == SwPlaybackState::Loading
}

/// A stream that a Cast device cannot play: an HLS playlist, a `/live/`
/// path or a playlist.
pub open spec fn spec_cast_incompatible(url: Seq<char>) -> bool {
    contains(url, ".m3u8"@) || contains(url, "/live/"@) || contains(url, "playlist"@)
}

/// Whether a stream URL cannot be cast.
pub fn cast_incompatible(url: &str) -> (r: bool)
    ensures
        r == spec_cast_incompatible(url@),
{
    let u = chars_of(url);
    contains_exec(&u, &chars_of(".m3u8")) || contains_exec(&u, &chars_of("/live/")) || contains_exec(
        &u,
        &chars_of("playlist"),
    )
}

/// Why a Cast device cannot be connected.
#[derive(Debug, Clone, Copy, PartialEq, Eq, Structural)]
pub enum CastConnectError {
    IncompatibleStream,
    NoStreamUrl,
    NoStation,
}

/// The message shown for a refused Cast connection.
pub open spec fn spec_cast_connect_message(e: CastConnectError) -> Seq<char> {
    match e {
        CastConnectError::IncompatibleStream => "Radio stream incompatible with cast device!"@,
        CastConnectError::NoStreamUrl => "No stream URL available for cast device!"@,
        CastConnectError::NoStation => "Please select a radio station before connecting to cast device!"@,
    }
}

impl CastConnectError {
    /// The message shown for this error.
    pub fn message(&self) -> (m: String)
        ensures
            m@ == spec_cast_connect_message(*self),
    {
        match self {
            CastConnectError::IncompatibleStream => String::from_str("Radio stream incompatible with cast device!"),
            CastConnectError::NoStreamUrl => String::from_str("No stream URL available for cast device!"),
            CastConnectError::NoStation => String::from_str("Please select a radio station before connecting to cast device!"),
        }
    }
}

/// The station being played, as far as connecting a device is concerned:
/// none, one without a stream URL, or one with this URL.
pub enum StationStream {
    NoStation,
    NoUrl,
    Url(String),
}

/// A Cast device needs a station with a castable stream; other devices
/// connect regardless.
pub open spec fn spec_cast_connect_check(kind: SwDeviceKind, station: StationStream) -> Result<(), CastConnectError> {
    if kind == SwDeviceKind::Cast {
        match station {
            StationStream::NoStation => Err(CastConnectError::NoStation),
            StationStream::NoUrl => Err(CastConnectError::NoStreamUrl),
            StationStream::Url(u) => if spec_cast_incompatible(u@) {
                Err(CastConnectError::IncompatibleStream)
            } else {
                Ok(())
            },
        }
    } else {
        Ok(())
    }
}

/// Checks whether a device may be connected for the current station.
pub fn cast_connect_check(kind: SwDeviceKind, station: &StationStream) -> (r: Result<(), CastConnectError>)
    ensures
        r == spec_cast_connect_check(kind, *station),
{
    match kind {
        SwDeviceKind::Cast => match station {
            StationStream::NoStation => Err(CastConnectError::NoStation),
            StationStream::NoUrl => Err(CastConnectError::NoStreamUrl),
            StationStream::Url(u) => if cast_incompatible(u.as_str()) {
                Err(CastConnectError::IncompatibleStream)
            } else {
                Ok(())
            },
        },
        SwDeviceKind::Dlna => Ok(()),
    }
}

/// A new station is refused while a Cast device is connected and cannot
/// play its stream; the current stream then keeps playing.
pub fn station_refused_by_device(device: Option<SwDeviceKind>, stream_url: Option<&str>) -> (r: bool)
    ensures
        r == (device == Some(SwDeviceKind::Cast) && match stream_url {
            Some(u) => spec_cast_incompatible(u@),
            None => false,
        }),
{
    match (device, stream_url) {
        (Some(SwDeviceKind::Cast), Some(u)) => cast_incompatible(u),
        _ => false,
    }
}

/// The settings key under which a volume is kept.
#[derive(Debug, Clone, Copy, PartialEq, Eq, Structural)]
pub enum VolumeKey {
    PlaybackVolumeLocal,
    PlaybackVolumeCast,
    PlaybackVolumeDlna,
}

/// Each output keeps its own volume.
pub open spec fn spec_volume_key(device: Option<SwDeviceKind>) -> VolumeKey {
    match device {
        None => VolumeKey::PlaybackVolumeLocal,
        Some(SwDeviceKind::Cast) => VolumeKey::PlaybackVolumeCast,
        Some(SwDeviceKind::Dlna) => VolumeKey::PlaybackVolumeDlna,
    }
}

/// The settings key of the volume for the connected device, if any.
pub fn volume_key(device: Option<SwDeviceKind>) -> (k: VolumeKey)
    ensures
        k == spec_volume_key(device),
{
    match device {
        None => VolumeKey::PlaybackVolumeLocal,
        Some(SwDeviceKind::Cast) => VolumeKey::PlaybackVolumeCast,
        Some(SwDeviceKind::Dlna) => VolumeKey::PlaybackVolumeDlna,
    }
}

/// The buttons of a track notification: (save, don't record).
pub open spec fn spec_notification_buttons(state: SwRecordingState, mode: SwRecordingMode) -> (bool, bool) {
    if state == SwRecordingState::Recording {
        (
            mode == SwRecordingMode::Decide,
            mode == SwRecordingMode::Everything || mode == SwRecordingMode::Decide,
        )
    } else {
        (false, false)
    }
}

/// Which buttons a track notification offers.
pub fn notification_buttons(state: SwRecordingState, mode: SwRecordingMode) -> (r: (bool, bool))
    ensures
        r == spec_notification_buttons(state, mode),
{
    if state == SwRecordingState::Recording {
        (
            mode == SwRecordingMode::Decide,
            mode == SwRecordingMode::Everything || mode == SwRecordingMode::Decide,
        )
    } else {
        (false, false)
    }
}

/// How DLNA playback starts.
#[derive(Debug, Clone, Copy, PartialEq, Eq, Structural)]
pub enum DlnaPlaybackStep {
    /// The proxy runs: only send `Play`.
    PlayOnly,
    /// Load the station's stream onto the renderer.
    LoadMedia,
}

/// Why DLNA playback cannot start.
#[derive(Debug, Clone, Copy, PartialEq, Eq, Structural)]
pub enum DlnaPlaybackError {
    NoStreamUrl,
    NoStation,
}

/// The message of a DLNA playback error.
pub open spec fn spec_dlna_playback_message(e: DlnaPlaybackError) -> Seq<char> {
    match e {
        DlnaPlaybackError::NoStreamUrl => "No stream URL available"@,
        DlnaPlaybackError::NoStation => "No station loaded"@,
    }
}

impl DlnaPlaybackError {
    /// The message of this error.
    pub fn message(&self) -> (m: String)
        ensures
            m@ == spec_dlna_playback_message(*self),
    {
        match self {
            DlnaPlaybackError::NoStreamUrl => String::from_str("No stream URL available"),
            DlnaPlaybackError::NoStation => String::from_str("No station loaded"),
        }
    }
}

/// With the proxy running only `Play` is sent; otherwise the station's
/// stream is loaded, which needs a station with a URL.
pub open spec fn spec_dlna_playback_step(proxy_running: bool, station: StationStream) -> Result<DlnaPlaybackStep, DlnaPlaybackError> {
    if proxy_running {
        Ok(DlnaPlaybackStep::PlayOnly)
    } else {
        match station {
            StationStream::NoStation => Err(DlnaPlaybackError::NoStation),
            StationStream::NoUrl => Err(DlnaPlaybackError::NoStreamUrl),
            StationStream::Url(_) => Ok(DlnaPlaybackStep::LoadMedia),
        }
    }
}

/// Decides how DLNA playback starts.
pub fn dlna_playback_step(proxy_running: bool, station: &StationStream) -> (r: Result<DlnaPlaybackStep, DlnaPlaybackError>)
    ensures
        r == spec_dlna_playback_step(proxy_running, *station),
{
    if proxy_running {
        return Ok(DlnaPlaybackStep::PlayOnly);
    }
    match station {
        StationStream::NoStation => Err(DlnaPlaybackError::NoStation),
        StationStream::NoUrl => Err(DlnaPlaybackError::NoStreamUrl),
        StationStream::Url(_) => Ok(DlnaPlaybackStep::LoadMedia),
    }
}

/// The failure text shown when DLNA playback fails with `error`.
pub open spec fn spec_dlna_failure_text(error: Seq<char>) -> Seq<char> {
    "DLNA playback failed: "@ + error
}

/// Builds the failure text of failed DLNA playback.
pub fn dlna_failure_text(error: &str) -> (r: String)
    ensures
        r@ == spec_dlna_failure_text(error@),
{
    let mut v = chars_of("DLNA playback failed: ");
    push_str(&mut v, error);
    string_from_chars(&v)
}

/// The playing track if it has this uuid.
pub fn playing_track_matches(playing_uuid: Option<&str>, uuid: &str) -> (r: bool)
    ensures
        r == match playing_uuid {
            Some(p) => p@ == uuid@,
            None => false,
        },
{
    match playing_uuid {
        Some(p) => str_eq(p, uuid),
        None => false,
    }
}

/// Recording and saving a song that was playing from the beginning; the
/// outcome of stopping it.
#[derive(Debug, Clone, Copy, PartialEq, Eq, Structural)]
pub struct SongStopOutcome {
    /// The song's new state.
    pub state: SwSongState,
    /// The duration set on the song, when it was recorded.
    pub duration: Option<u64>,
    /// Whether the recorded data is thrown away.
    pub discard_data: bool,
}

/// Stopping a song's recording: discarded on request, recorded when longer
/// than the threshold, else below the threshold.
pub open spec fn spec_song_stop_outcome(discard: bool, recorded: u64, threshold: i32) -> SongStopOutcome {
    if discard {
        SongStopOutcome { state: SwSongState::Discarded, duration: None, discard_data: true }
    } else if recorded > (threshold as u64) {
        SongStopOutcome { state: SwSongState::Recorded, duration: Some(recorded), discard_data: false }
    } else {
        SongStopOutcome { state: SwSongState::BelowThreshold, duration: None, discard_data: true }
    }
}

/// Decides what stopping a song's recording does.
pub fn song_stop_outcome(discard: bool, recorded: u64, threshold: i32) -> (o: SongStopOutcome)
    ensures
        o == spec_song_stop_outcome(discard, recorded, threshold),
{
    if discard {
        SongStopOutcome { state: SwSongState::Discarded, duration: None, discard_data: true }
    } else if recorded > threshold as u64 {
        SongStopOutcome { state: SwSongState::Recorded, duration: Some(recorded), discard_data: false }
    } else {
        SongStopOutcome { state: SwSongState::BelowThreshold, duration: None, discard_data: true }
    }
}

/// A song is recorded only when another song played before it.
pub fn song_recorded_from_start(has_previous_song: bool) -> (r: bool)
    ensures
        r == has_previous_song,
{
    has_previous_song
}

/// What to do with the session inhibitor.
#[derive(Debug, Clone, Copy, PartialEq, Eq, Structural)]
pub enum InhibitAction {
    Install,
    Remove,
    Keep,
}

/// Suspend is inhibited while playing: an inhibitor is installed when
/// playback starts and none is held, and removed when playback ends.
pub open spec fn spec_playback_inhibit(state: SwPlaybackState, cookie: u32) -> InhibitAction {
    if state == SwPlaybackState::Playing && cookie == 0 {
        InhibitAction::Install
    } else if state != SwPlaybackState::Playing && cookie != 0 {
        InhibitAction::Remove
    } else {
        InhibitAction::Keep
    }
}

/// Decides what a playback state change does to the inhibitor.
pub fn playback_inhibit(state: SwPlaybackState, cookie: u32) -> (a: InhibitAction)
    ensures
        a == spec_playback_inhibit(state, cookie),
{
    if state == SwPlaybackState::Playing && cookie == 0 {
        InhibitAction::Install
    } else if state != SwPlaybackState::Playing && cookie != 0 {
        InhibitAction::Remove
    } else {
        InhibitAction::Keep
    }
}

/// An application asked to inhibit installs an inhibitor when none is held;
/// any other request removes the one held.
pub open spec fn spec_set_inhibit(inhibit: bool, cookie: u32) -> InhibitAction {
    if inhibit && cookie == 0 {
        InhibitAction::Install
    } else if cookie != 0 {
        InhibitAction::Remove
    } else {
        InhibitAction::Keep
    }
}

/// Decides what a request to (not) inhibit suspend does.
pub fn set_inhibit_action(inhibit: bool, cookie: u32) -> (a: InhibitAction)
    ensures
        a == spec_set_inhibit(inhibit, cookie),
{
    if inhibit && cookie == 0 {
        InhibitAction::Install
    } else if cookie != 0 {
        InhibitAction::Remove
    } else {
        InhibitAction::Keep
    }
}

/// After a request to inhibit suspend or not, an inhibitor is held exactly
/// when one was asked for, unless one was already held when asked for.
pub proof fn law_set_inhibit_follows_request(inhibit: bool, cookie: u32, new_cookie: u32)
    requires
        new_cookie != 0,
        !(inhibit && cookie != 0),
    ensures
        ({
            let after = match spec_set_inhibit(inhibit, cookie) {
                InhibitAction::Install => new_cookie,
                InhibitAction::Remove => 0,
                InhibitAction::Keep => cookie,
            };
            (after != 0) == inhibit
        }),
{
}

/// The inhibitor is held exactly while playing: after acting on a state
/// change, a cookie is held (non-zero) iff the state is `Playing`.
pub proof fn law_inhibitor_held_while_playing(state: SwPlaybackState, cookie: u32, new_cookie: u32)
    requires
        new_cookie != 0,
    ensures
        ({
            let after = match spec_playback_inhibit(state, cookie) {
                InhibitAction::Install => new_cookie,
                InhibitAction::Remove => 0,
                InhibitAction::Keep => cookie,
            };
            (after != 0) == (state == SwPlaybackState::Playing)
        }),
{
}

/// What the playback backend reports. A volume report carries only whether
/// it differs, in its first two decimals, from the player's volume.
pub enum GstMessage {
    Title(String),
    PlaybackState(SwPlaybackState),
    Volume { differs: bool },
    Failure(String),
}

/// What handling a report asks of the caller besides the state change.
#[derive(Debug, Clone, Copy, PartialEq, Eq, Structural)]
pub struct MessageEffects {
    /// Stop the running recording, discarding its data when `Some(true)`
    /// (a stopped song is added to the past songs).
    pub stop_recording: Option<bool>,
    /// Start recording the new song.
    pub start_recording: bool,
    /// Take the reported volume.
    pub take_volume: bool,
    /// What to do with the suspend inhibitor.
    pub inhibit: InhibitAction,
}

/// The player's state as the backend's reports change it: the playing and
/// the previous song (by title), the playback state, the inhibitor cookie
/// (0 when none is held), whether a device is connected, and the last
/// failure.
pub struct SongPlayerState {
    pub playing_song: Option<String>,
    pub previous_song: Option<String>,
    pub state: SwPlaybackState,
    pub inhibit_cookie: u32,
    pub has_device: bool,
    pub last_failure: String,
}

impl SongPlayerState {
    /// Handles one report of the backend; `is_recording` is whether the
    /// backend records. A new title hands the playing song over to be the
    /// previous one, stops its recording (keeping the data) and records the
    /// new song; a playback state is taken, a failure while recording
    /// discards the recording and clears the songs, and the inhibitor is
    /// held exactly while playing; a volume report is ignored while a device
    /// is connected and otherwise taken when it differs; a failure text is
    /// kept as the last failure.
    pub fn handle_message(&mut self, message: GstMessage, is_recording: bool) -> (e: MessageEffects)
        ensures
            final(self).has_device == old(self).has_device,
            final(self).inhibit_cookie == old(self).inhibit_cookie,
            match message {
                GstMessage::Title(t) => {
                    &&& final(self).previous_song == old(self).playing_song
                    &&& final(self).playing_song == Some(t)
                    &&& final(self).state == old(self).state
                    &&& final(self).last_failure == old(self).last_failure
                    &&& e == (MessageEffects {
                        stop_recording: Some(false),
                        start_recording: true,
                        take_volume: false,
                        inhibit: InhibitAction::Keep,
                    })
                },
                GstMessage::PlaybackState(st) => {
                    let clear = st == SwPlaybackState::Failure && is_recording;
                    &&& final(self).state == st
                    &&& clear ==> final(self).playing_song is None && final(self).previous_song is None
                    &&& !clear ==> final(self).playing_song == old(self).playing_song
                        && final(self).previous_song == old(self).previous_song
                    &&& final(self).last_failure == old(self).last_failure
                    &&& e == (MessageEffects {
                        stop_recording: if clear { Some(true) } else { None },
                        start_recording: false,
                        take_volume: false,
                        inhibit: spec_playback_inhibit(st, old(self).inhibit_cookie),
                    })
                },
                GstMessage::Volume { differs } => {
                    &&& final(self).playing_song == old(self).playing_song
                    &&& final(self).previous_song == old(self).previous_song
                    &&& final(self).state == old(self).state
                    &&& final(self).last_failure == old(self).last_failure
                    &&& e == (MessageEffects {
                        stop_recording: None,
                        start_recording: false,
                        take_volume: !old(self).has_device && differs,
                        inhibit: InhibitAction::Keep,
                    })
                },
                GstMessage::Failure(f) => {
                    &&& final(self).last_failure == f
                    &&& final(self).playing_song == old(self).playing_song
                    &&& final(self).previous_song == old(self).previous_song
                    &&& final(self).state == old(self).state
                    &&& e == (MessageEffects {
                        stop_recording: None,
                        start_recording: false,
                        take_volume: false,
                        inhibit: InhibitAction::Keep,
                    })
                },
            },
    {
        match message {
            GstMessage::Title(t) => {
                let old_song = self.playing_song.take();
                self.previous_song = old_song;
                self.playing_song = Some(t);
                MessageEffects {
                    stop_recording: Some(false),
                    start_recording: true,
                    take_volume: false,
                    inhibit: InhibitAction::Keep,
                }
            },
            GstMessage::PlaybackState(st) => {
                let clear = st == SwPlaybackState::Failure && is_recording;
                if clear {
                    self.playing_song = None;
                    self.previous_song = None;
                }
                self.state = st;
                MessageEffects {
                    stop_recording: if clear { Some(true) } else { None },
                    start_recording: false,
                    take_volume: false,
                    inhibit: playback_inhibit(st, self.inhibit_cookie),
                }
            },
            GstMessage::Volume { differs } => MessageEffects {
                stop_recording: None,
                start_recording: false,
                take_volume: !self.has_device && differs,
                inhibit: InhibitAction::Keep,
            },
            GstMessage::Failure(f) => {
                self.last_failure = f;
                MessageEffects {
                    stop_recording: None,
                    start_recording: false,
                    take_volume: false,
                    inhibit: InhibitAction::Keep,
                }
            },
        }
    }

    /// Records what was done with the inhibitor: an installed one is held
    /// under `new_cookie`, a removed one leaves none.
    pub fn inhibitor_done(&mut self, action: InhibitAction, new_cookie: u32)
        ensures
            final(self).inhibit_cookie == match action {
                InhibitAction::Install => new_cookie,
                InhibitAction::Remove => 0,
                InhibitAction::Keep => old(self).inhibit_cookie,
            },
            final(self).playing_song == old(self).playing_song,
            final(self).previous_song == old(self).previous_song,
            final(self).state == old(self).state,
            final(self).has_device == old(self).has_device,
            final(self).last_failure == old(self).last_failure,
    {
        match action {
            InhibitAction::Install => {
                self.inhibit_cookie = new_cookie;
            },
            InhibitAction::Remove => {
                self.inhibit_cookie = 0;
            },
            InhibitAction::Keep => {},
        }
    }
}

/// A track the user asked to save while it recorded is saved once it is
/// recorded, whatever stopped the recording and whatever the mode; in mode
/// `Everything` every recorded track is saved; and only a recorded track is
/// ever saved.
pub proof fn law_save_request_honoured(
    reason: RecordingStopReason,
    recorded: u64,
    minimum_duration: i32,
    mode: SwRecordingMode,
    save_when_recorded: bool,
)
    ensures
        ({
            let o = spec_recording_outcome(reason, recorded, minimum_duration, mode, save_when_recorded);
            &&& spec_is_recorded(o.state) && save_when_recorded ==> o.save_track
            &&& spec_is_recorded(o.state) && mode == SwRecordingMode::Everything ==> o.save_track
            &&& o.save_track ==> spec_is_recorded(o.state)
            &&& o.save_track ==> save_when_recorded || mode == SwRecordingMode::Everything
        }),
{
}

/// A stream is refused for Cast only for an HLS playlist (`.m3u8`), a
/// `/live/` path segment or a `playlist`, and always for those; so a Cast
/// device connects for any other stream, even one whose host or name holds
/// `live`.
pub proof fn law_cast_refuses_only_playlists_and_live_paths(u: String)
    ensures
        spec_cast_incompatible(u@) ==> contains(u@, ".m3u8"@) || contains(u@, "/live/"@) || contains(
            u@,
            "playlist"@,
        ),
        contains(u@, ".m3u8"@) || contains(u@, "/live/"@) || contains(u@, "playlist"@) ==> spec_cast_incompatible(
            u@,
        ),
        !contains(u@, ".m3u8"@) && !contains(u@, "/live/"@) && !contains(u@, "playlist"@)
            ==> spec_cast_connect_check(SwDeviceKind::Cast, StationStream::Url(u)) is Ok,
{
}

} // verus!
