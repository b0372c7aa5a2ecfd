pub mod text;
pub mod url_ext;
pub mod dlna;
pub mod ffmpeg;
pub mod discovery;
pub mod gcast;
pub mod song_state;
pub mod track_state;
pub mod library;
pub mod player;
pub mod playback;
pub mod ui;
pub mod song;
pub mod timeout;
