//! The FFmpeg streaming proxy: which stream type a URL names, how it is
//! transcoded, the FFmpeg command line, and the session state machine of the
//! proxy thread.

use vstd::prelude::*;
use vstd::string::*;
use crate::dlna::ProcessStatus;
use crate::text::{
    chars_of, contains, contains_exec, ends_with, ends_with_exec, push_decimal, spec_decimal,
    str_eq, string_from_chars, views_of,
};

verus! {

broadcast use vstd::string::group_string_axioms;

/// Commands sent to the proxy thread.
#[derive(Debug, Clone)]
pub enum FfmpegCommand {
    StartStream { stream_url: String, stream_id: String, force_restart: bool },
    StopStream,
    GetStatus,
    Shutdown,
}

/// Status reports from the proxy thread.
#[derive(Debug)]
pub enum FfmpegStatus {
    Starting { stream_id: String },
    Streaming {
        stream_id: String,
        proxy_url: String,
        bytes_sent: u64,
        duration: std::time::Duration,
    },
    Stopped { stream_id: String, reason: String },
    Error { stream_id: String, error: String },
}

/// Stream output formats.
#[derive(Debug, Clone, Copy, PartialEq, Eq, Structural)]
pub enum OutputFormat {
    Mp3 { bitrate: u32 },
    Aac { bitrate: u32 },
    Opus { bitrate: u32 },
    /// No transcoding.
    Passthrough,
}

/// Stream types, as told by the URL.
#[derive(Debug, Clone, Copy, PartialEq, Eq, Structural)]
pub enum StreamType {
    Mp3,
    Aac,
    Hls,
    Ogg,
    Unknown,
}

/// Parameters for starting a stream.
#[derive(Debug, Clone)]
pub struct StreamStartParams {
    pub stream_url: String,
    pub stream_id: String,
    pub local_ip: String,
    /// 0 for an automatically chosen port.
    pub listen_port: u16,
    pub force_transcode: bool,
    pub output_format: OutputFormat,
    pub bitrate: Option<u32>,
    pub station_title: String,
    pub station_favicon: String,
}

/// The stream type of a URL: `.mp3` at the end, `aac` anywhere, `.m3u8`
/// anywhere, `.ogg` at the end or `opus` anywhere, tested in that order.
pub open spec fn spec_detect_stream_type(url: Seq<char>) -> StreamType {
    if ends_with(url, ".mp3"@) {
        StreamType::Mp3
    } else if ends_with(url, ".aac"@) || contains(url, "aac"@) {
        StreamType::Aac
    } else if contains(url, ".m3u8"@) {
        StreamType::Hls
    } else if ends_with(url, ".ogg"@) || contains(url, "opus"@) {
        StreamType::Ogg
    } else {
        StreamType::Unknown
    }
}

/// Detects the stream type from a URL.
pub fn detect_stream_type(url: &str) -> (t: StreamType)
    ensures
        t == spec_detect_stream_type(url@),
{
    let u = chars_of(url);
    if ends_with_exec(&u, &chars_of(".mp3")) {
        StreamType::Mp3
    } else if ends_with_exec(&u, &chars_of(".aac")) || contains_exec(&u, &chars_of("aac")) {
        StreamType::Aac
    } else if contains_exec(&u, &chars_of(".m3u8")) {
        StreamType::Hls
    } else if ends_with_exec(&u, &chars_of(".ogg")) || contains_exec(&u, &chars_of("opus")) {
        StreamType::Ogg
    } else {
        StreamType::Unknown
    }
}

/// MP3 streams pass through; everything else is transcoded to 128 kbit/s MP3.
pub open spec fn spec_session_output_format(t: StreamType) -> OutputFormat {
    if t == StreamType::Mp3 {
        OutputFormat::Passthrough
    } else {
        OutputFormat::Mp3 { bitrate: 128000 }
    }
}

/// The output format of a proxy session for a stream type.
pub fn session_output_format(t: StreamType) -> (f: OutputFormat)
    ensures
        f == spec_session_output_format(t),
{
    match t {
        StreamType::Mp3 => OutputFormat::Passthrough,
        _ => OutputFormat::Mp3 { bitrate: 128000 },
    }
}

/// The FFmpeg arguments of a proxy session: read `stream_url`, encode as
/// `format` says, and serve once over HTTP on port 8080.
pub open spec fn spec_session_args(stream_url: Seq<char>, format: OutputFormat) -> Seq<Seq<char>> {
    let codec = match format {
        OutputFormat::Mp3 { bitrate } => seq![
            "-c:a"@,
            "libmp3lame"@,
            "-b:a"@,
            spec_decimal((bitrate / 1000) as nat) + "k"@,
            "-f"@,
            "mp3"@,
        ],
        OutputFormat::Passthrough => seq!["-c"@, "copy"@],
        _ => Seq::empty(),
    };
    seq!["-i"@, stream_url] + codec + seq!["-listen"@, "1"@, "http://0.0.0.0:8080/stream"@]
}

/// Builds the FFmpeg arguments of a proxy session.
pub fn session_args(stream_url: &str, format: OutputFormat) -> (r: Vec<String>)
    ensures
        views_of(r@) == spec_session_args(stream_url@, format),
{
    let mut r: Vec<String> = Vec::new();
    r.push(String::from_str("-i"));
    r.push(String::from_str(stream_url));
    match format {
        OutputFormat::Mp3 { bitrate } => {
            r.push(String::from_str("-c:a"));
            r.push(String::from_str("libmp3lame"));
            r.push(String::from_str("-b:a"));
            let mut k: Vec<char> = Vec::new();
            push_decimal(&mut k, (bitrate / 1000) as u64);
            k.push('k');
            proof {
                reveal_strlit("k");
                assert(k@ =~= spec_decimal((bitrate / 1000) as nat) + "k"@);
            }
            r.push(string_from_chars(&k));
            r.push(String::from_str("-f"));
            r.push(String::from_str("mp3"));
        },
        OutputFormat::Passthrough => {
            r.push(String::from_str("-c"));
            r.push(String::from_str("copy"));
        },
        _ => {},
    }
    r.push(String::from_str("-listen"));
    r.push(String::from_str("1"));
    r.push(String::from_str("http://0.0.0.0:8080/stream"));
    assert(views_of(r@) =~= spec_session_args(stream_url@, format));
    r
}

/// The URL the proxy serves a session at.
pub open spec fn spec_session_proxy_url() -> Seq<char> {
    "http://localhost:8080/stream"@
}

/// What the proxy thread knows of its running session.
#[derive(Debug, Clone)]
pub struct SessionInfo {
    pub stream_id: String,
    pub stream_url: String,
    pub proxy_url: String,
    pub is_transcoding: bool,
}

/// A session that is to be started: its description and FFmpeg arguments.
#[derive(Debug, Clone)]
pub struct SessionLaunch {
    pub info: SessionInfo,
    pub args: Vec<String>,
}

/// The session the proxy thread starts for `stream_url` under `stream_id`.
pub open spec fn launch_matches(l: SessionLaunch, stream_url: Seq<char>, stream_id: Seq<char>) -> bool {
    let format = spec_session_output_format(spec_detect_stream_type(stream_url));
    &&& l.info.stream_id@ == stream_id
    &&& l.info.stream_url@ == stream_url
    &&& l.info.proxy_url@ == spec_session_proxy_url()
    &&& l.info.is_transcoding == (format != OutputFormat::Passthrough)
    &&& views_of(l.args@) == spec_session_args(stream_url, format)
}

/// Plans a proxy session for `stream_url` under `stream_id`.
pub fn plan_session(stream_url: &str, stream_id: &str) -> (l: SessionLaunch)
    ensures
        launch_matches(l, stream_url@, stream_id@),
{
    let t = detect_stream_type(stream_url);
    let format = session_output_format(t);
    let args = session_args(stream_url, format);
    let is_transcoding = match format {
        OutputFormat::Passthrough => false,
        _ => true,
    };
    SessionLaunch {
        info: SessionInfo {
            stream_id: String::from_str(stream_id),
            stream_url: String::from_str(stream_url),
            proxy_url: String::from_str("http://localhost:8080/stream"),
            is_transcoding,
        },
        args,
    }
}

/// What the proxy thread does for a command.
#[derive(Debug, Clone)]
pub enum ThreadAction {
    /// Report the running session as streaming (it is reused, or asked for).
    ReportSession,
    /// Report that no session runs (stream id `none`).
    ReportIdle,
    /// Kill and reap the running session's process when `stop_existing`,
    /// report `Starting`, then spawn FFmpeg for `launch`.
    Start { stop_existing: bool, launch: SessionLaunch },
    /// Kill and reap the session's process and report it stopped.
    Stop { stream_id: String },
    /// Nothing to do.
    Nothing,
    /// Kill the session's process if `kill` and leave the command loop.
    Exit { kill: bool },
}

/// The session state of the proxy thread.
pub struct FfmpegSessionState {
    pub session: Option<SessionInfo>,
}

/// A `StartStream` command reuses the running session exactly when its
/// process is alive, serves the same URL, and no restart is forced.
pub open spec fn reuses_session(session: Option<SessionInfo>, status: ProcessStatus, stream_url: Seq<char>, force_restart: bool) -> bool {
    session matches Some(s) && status == ProcessStatus::Running && s.stream_url@ == stream_url
        && !force_restart
}

impl FfmpegSessionState {
    /// No session.
    pub fn new() -> (s: FfmpegSessionState)
        ensures
            s.session is None,
    {
        FfmpegSessionState { session: None }
    }

    /// Handles a command; `status` is what `try_wait` says of the running
    /// session's process.
    pub fn handle_command(&mut self, command: &FfmpegCommand, status: ProcessStatus) -> (a: ThreadAction)
        ensures
            final(self).session == spec_after_command(old(self).session, *command, status),
            action_kind(a) == spec_command_action(old(self).session, *command, status),
            match *command {
                FfmpegCommand::StartStream { stream_url, stream_id, force_restart } => {
                    if reuses_session(old(self).session, status, stream_url@, force_restart) {
                        &&& a is ReportSession
                        &&& final(self).session == old(self).session
                    } else {
                        &&& a matches ThreadAction::Start { stop_existing, launch }
                        &&& stop_existing == old(self).session is Some
                        &&& launch_matches(launch, stream_url@, stream_id@)
                        &&& final(self).session is None
                    }
                },
                FfmpegCommand::StopStream => {
                    &&& final(self).session is None
                    &&& match old(self).session {
                        Some(s) => a matches ThreadAction::Stop { stream_id } && stream_id@ == s.stream_id@,
                        None => a is Nothing,
                    }
                },
                FfmpegCommand::GetStatus => {
                    &&& final(self).session == old(self).session
                    &&& (if old(self).session is Some { a is ReportSession } else { a is ReportIdle })
                },
                FfmpegCommand::Shutdown => {
                    &&& final(self).session is None
                    &&& a == ThreadAction::Exit { kill: old(self).session is Some }
                },
            },
    {
        match command {
            FfmpegCommand::StartStream { stream_url, stream_id, force_restart } => {
                let reuse = match &self.session {
                    Some(s) => match status {
                        ProcessStatus::Running => str_eq(s.stream_url.as_str(), stream_url.as_str())
                            && !*force_restart,
                        _ => false,
                    },
                    None => false,
                };
                if reuse {
                    ThreadAction::ReportSession
                } else {
                    let stop_existing = self.session.is_some();
                    self.session = None;
                    let launch = plan_session(stream_url.as_str(), stream_id.as_str());
                    ThreadAction::Start { stop_existing, launch }
                }
            },
            FfmpegCommand::StopStream => {
                let a = match &self.session {
                    Some(s) => ThreadAction::Stop { stream_id: s.stream_id.clone() },
                    None => ThreadAction::Nothing,
                };
                self.session = None;
                a
            },
            FfmpegCommand::GetStatus => {
                if self.session.is_some() {
                    ThreadAction::ReportSession
                } else {
                    ThreadAction::ReportIdle
                }
            },
            FfmpegCommand::Shutdown => {
                let kill = self.session.is_some();
                self.session = None;
                ThreadAction::Exit { kill }
            },
        }
    }

    /// Records that FFmpeg was spawned for `info`.
    pub fn session_started(&mut self, info: SessionInfo)
        ensures
            final(self).session == Some(info),
    {
        self.session = Some(info);
    }
}


/// The kinds of thread actions.
#[derive(Debug, Clone, Copy, PartialEq, Eq, Structural)]
pub enum ActionKind {
    ReportSession,
    ReportIdle,
    Start,
    Stop,
    Nothing,
    Exit,
}

/// The kind of a thread action.
pub open spec fn action_kind(a: ThreadAction) -> ActionKind {
    match a {
        ThreadAction::ReportSession => ActionKind::ReportSession,
        ThreadAction::ReportIdle => ActionKind::ReportIdle,
        ThreadAction::Start { .. } => ActionKind::Start,
        ThreadAction::Stop { .. } => ActionKind::Stop,
        ThreadAction::Nothing => ActionKind::Nothing,
        ThreadAction::Exit { .. } => ActionKind::Exit,
    }
}

/// The session after a command is handled (a started session is recorded
/// only once FFmpeg runs).
pub open spec fn spec_after_command(session: Option<SessionInfo>, command: FfmpegCommand, status: ProcessStatus) -> Option<SessionInfo> {
    match command {
        FfmpegCommand::StartStream { stream_url, stream_id, force_restart } => if reuses_session(
            session,
            status,
            stream_url@,
            force_restart,
        ) {
            session
        } else {
            None
        },
        FfmpegCommand::StopStream => None,
        FfmpegCommand::GetStatus => session,
        FfmpegCommand::Shutdown => None,
    }
}

/// The kind of action a command leads to.
pub open spec fn spec_command_action(session: Option<SessionInfo>, command: FfmpegCommand, status: ProcessStatus) -> ActionKind {
    match command {
        FfmpegCommand::StartStream { stream_url, stream_id, force_restart } => if reuses_session(
            session,
            status,
            stream_url@,
            force_restart,
        ) {
            ActionKind::ReportSession
        } else {
            ActionKind::Start
        },
        FfmpegCommand::StopStream => if session is Some {
            ActionKind::Stop
        } else {
            ActionKind::Nothing
        },
        FfmpegCommand::GetStatus => if session is Some {
            ActionKind::ReportSession
        } else {
            ActionKind::ReportIdle
        },
        FfmpegCommand::Shutdown => ActionKind::Exit,
    }
}

/// After a stop, asking for the status reports that no session runs.
pub proof fn law_stop_then_status_is_idle(session: Option<SessionInfo>, s1: ProcessStatus, s2: ProcessStatus)
    ensures
        spec_command_action(
            spec_after_command(session, FfmpegCommand::StopStream, s1),
            FfmpegCommand::GetStatus,
            s2,
        ) == ActionKind::ReportIdle,
{
}

/// Asking again for the stream a live session serves reuses it, unless a
/// restart is forced.
pub proof fn law_same_stream_reuses_session(info: SessionInfo, stream_url: String, stream_id: String)
    requires
        info.stream_url@ == stream_url@,
    ensures
        ({
            let cmd = FfmpegCommand::StartStream { stream_url, stream_id, force_restart: false };
            &&& spec_command_action(Some(info), cmd, ProcessStatus::Running) == ActionKind::ReportSession
            &&& spec_after_command(Some(info), cmd, ProcessStatus::Running) == Some(info)
        }),
{
}

/// A dead process or a forced restart always starts a new session.
pub proof fn law_dead_or_forced_restarts(session: Option<SessionInfo>, status: ProcessStatus, stream_url: String, stream_id: String, force_restart: bool)
    requires
        status != ProcessStatus::Running || force_restart,
    ensures
        spec_command_action(
            session,
            FfmpegCommand::StartStream { stream_url, stream_id, force_restart },
            status,
        ) == ActionKind::Start,
{
}

/// Shutting down leaves the command loop with no session.
pub proof fn law_shutdown_ends_session(session: Option<SessionInfo>, status: ProcessStatus)
    ensures
        spec_after_command(session, FfmpegCommand::Shutdown, status) is None,
        spec_command_action(session, FfmpegCommand::Shutdown, status) == ActionKind::Exit,
{
}

/// A session serves on port 8080; an MP3 stream is copied as it is, and
/// every other stream is transcoded to MP3 at 128 kbit/s.
pub proof fn law_sessions_serve_mp3(stream_url: Seq<char>)
    ensures
        ({
            let args = spec_session_args(
                stream_url,
                spec_session_output_format(spec_detect_stream_type(stream_url)),
            );
            &&& args.last() == "http://0.0.0.0:8080/stream"@
            &&& ends_with(stream_url, ".mp3"@) ==> args == seq![
                "-i"@,
                stream_url,
                "-c"@,
                "copy"@,
                "-listen"@,
                "1"@,
                "http://0.0.0.0:8080/stream"@,
            ]
            &&& !ends_with(stream_url, ".mp3"@) ==> args == seq![
                "-i"@,
                stream_url,
                "-c:a"@,
                "libmp3lame"@,
                "-b:a"@,
                "128k"@,
                "-f"@,
                "mp3"@,
                "-listen"@,
                "1"@,
                "http://0.0.0.0:8080/stream"@,
            ]
        }),
{
    reveal_strlit("128k");
    reveal_strlit("k");
    reveal_with_fuel(spec_decimal, 3);
    assert(spec_decimal(128) =~= seq!['1', '2', '8']);
    assert(spec_decimal(128) + "k"@ =~= "128k"@);
}

} // verus!
