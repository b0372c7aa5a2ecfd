use shortwave::dlna::ProcessStatus;
use shortwave::ffmpeg::{
    detect_stream_type, plan_session, session_args, session_output_format, FfmpegCommand,
    FfmpegSessionState, OutputFormat, StreamType, ThreadAction,
};

#[test]
fn stream_types() {
    assert_eq!(detect_stream_type("http://x/stream.mp3"), StreamType::Mp3);
    assert_eq!(detect_stream_type("http://x/aacplus"), StreamType::Aac);
    assert_eq!(detect_stream_type("http://x/a.aac"), StreamType::Aac);
    assert_eq!(detect_stream_type("http://x/live.m3u8"), StreamType::Hls);
    assert_eq!(detect_stream_type("http://x/radio.ogg"), StreamType::Ogg);
    assert_eq!(detect_stream_type("http://x/opus128"), StreamType::Ogg);
    assert_eq!(detect_stream_type("http://x/stream"), StreamType::Unknown);
}

#[test]
fn formats_and_arguments() {
    assert_eq!(session_output_format(StreamType::Mp3), OutputFormat::Passthrough);
    assert_eq!(session_output_format(StreamType::Hls), OutputFormat::Mp3 { bitrate: 128000 });
    assert_eq!(
        session_args("http://x/s", OutputFormat::Mp3 { bitrate: 128000 }),
        vec!["-i", "http://x/s", "-c:a", "libmp3lame", "-b:a", "128k", "-f", "mp3", "-listen", "1", "http://0.0.0.0:8080/stream"]
    );
    assert_eq!(
        session_args("http://x/s.mp3", OutputFormat::Passthrough),
        vec!["-i", "http://x/s.mp3", "-c", "copy", "-listen", "1", "http://0.0.0.0:8080/stream"]
    );
    assert_eq!(session_args("u", OutputFormat::Opus { bitrate: 1 }), vec!["-i", "u", "-listen", "1", "http://0.0.0.0:8080/stream"]);
    let l = plan_session("http://x/s.mp3", "id1");
    assert!(!l.info.is_transcoding);
    assert_eq!(l.info.proxy_url, "http://localhost:8080/stream");
}

fn start(url: &str, force: bool) -> FfmpegCommand {
    FfmpegCommand::StartStream { stream_url: url.to_string(), stream_id: "s1".to_string(), force_restart: force }
}

#[test]
fn session_state_machine() {
    let mut s = FfmpegSessionState::new();
    assert!(matches!(s.handle_command(&FfmpegCommand::GetStatus, ProcessStatus::NoProcess), ThreadAction::ReportIdle));
    let launch = match s.handle_command(&start("http://x/a", false), ProcessStatus::NoProcess) {
        ThreadAction::Start { stop_existing, launch } => {
            assert!(!stop_existing);
            launch
        }
        _ => panic!("expected a start"),
    };
    s.session_started(launch.info);
    assert!(matches!(s.handle_command(&start("http://x/a", false), ProcessStatus::Running), ThreadAction::ReportSession));
    assert!(matches!(s.handle_command(&start("http://x/a", true), ProcessStatus::Running), ThreadAction::Start { stop_existing: true, .. }));
    assert!(s.session.is_none());
    assert!(matches!(s.handle_command(&FfmpegCommand::StopStream, ProcessStatus::NoProcess), ThreadAction::Nothing));
    let l = plan_session("http://x/b", "s2");
    s.session_started(l.info);
    match s.handle_command(&FfmpegCommand::StopStream, ProcessStatus::Running) {
        ThreadAction::Stop { stream_id } => assert_eq!(stream_id, "s2"),
        _ => panic!("expected a stop"),
    }
    assert!(matches!(s.handle_command(&FfmpegCommand::Shutdown, ProcessStatus::NoProcess), ThreadAction::Exit { kill: false }));
}
