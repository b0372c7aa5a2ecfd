use shortwave::song::{
    join_path, recording_file_name, recording_file_name_from, recording_path, SwSong, SwSongModel,
};
use shortwave::song_state::SwSongState;

#[test]
fn song_model_keeps_order_without_repeats() {
    let mut m = SwSongModel::new();
    assert_eq!(m.n_items(), 0);
    assert_eq!(m.add_song(7, "First".to_string()), Some(0));
    assert_eq!(m.add_song(3, "Second".to_string()), Some(1));
    assert_eq!(m.add_song(7, "Again".to_string()), None);
    assert_eq!(m.n_items(), 2);
    assert_eq!(m.item(0), Some((7, "First".to_string())));
    assert_eq!(m.item(1), Some((3, "Second".to_string())));
    assert_eq!(m.item(2), None);
}

#[test]
fn song_model_removal_shifts_later_songs() {
    let mut m = SwSongModel::new();
    m.add_song(1, "a".to_string());
    m.add_song(2, "b".to_string());
    m.add_song(3, "c".to_string());
    assert_eq!(m.remove_song(2), Some(1));
    assert_eq!(m.remove_song(2), None);
    assert_eq!(m.n_items(), 2);
    assert_eq!(m.item(1), Some((3, "c".to_string())));
    assert_eq!(m.add_song(2, "b".to_string()), Some(2));
    assert_eq!(m.remove_song(2), Some(2));
    assert_eq!(m.n_items(), 2);
}

#[test]
fn saved_file_names_are_sanitized() {
    assert_eq!(recording_file_name("AC/DC: Back in Black?"), "ACDC Back in Black.ogg");
    assert_eq!(recording_file_name("Plain Title"), "Plain Title.ogg");
    assert_eq!(recording_file_name_from("x"), "x.ogg");
}

#[test]
fn paths_join_like_pathbuf() {
    assert_eq!(join_path("/data", "recording"), "/data/recording");
    assert_eq!(join_path("/data/", "recording"), "/data/recording");
    assert_eq!(join_path("", "recording"), "recording");
    assert_eq!(recording_path("/home/u/.local/share/shortwave", "abc"), "/home/u/.local/share/shortwave/recording/abc.ogg");
}

#[test]
fn new_songs_get_a_uuid_file() {
    let s = SwSong::new("Title", "/data");
    assert_eq!(s.uuid.len(), 36);
    assert_eq!(s.uuid.chars().nth(14), Some('4'));
    assert_eq!(s.file, format!("/data/recording/{}.ogg", s.uuid));
    assert_eq!(s.state, SwSongState::NoRecording);
    assert_eq!(s.duration, 0);
    assert_eq!(s.title, "Title");
    let t = SwSong::new("Title", "/data");
    assert_ne!(s.uuid, t.uuid);
}

#[test]
fn only_recorded_songs_are_saved() {
    let mut s = SwSong::new("AC/DC: Thunderstruck", "/data");
    assert!(!s.can_save());
    assert!(!s.deletes_file_on_dispose());
    s.state = SwSongState::Recorded;
    assert!(s.can_save());
    assert!(s.deletes_file_on_dispose());
    assert_eq!(s.save_path("/music"), "/music/ACDC Thunderstruck.ogg");
    s.mark_saved();
    assert_eq!(s.state, SwSongState::Saved);
    assert!(!s.can_save());
}
