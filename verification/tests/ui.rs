use shortwave::player::SwPlaybackState;
use shortwave::song_state::SwSongState;
use shortwave::track_state::SwTrackState;
use shortwave::ui::{
    about_debug_info, about_version, background_decision, check_sort_order, close_hides_window,
    favicon_layout, favicon_page, gadget_switch, play_button, play_button_toggles,
    quit_after_window_removed, recording_indicator, results_limit_text, search_name,
    search_results_view, search_starts, sidebar_playback_view, sidebar_song_title, sort_direction,
    sorting, station_input_state, station_subtitle, subtitle_from, track_dialog_visibility,
    validate_station_input, BackgroundDecision, GadgetSwitch, PlaybackState, SearchRequest,
    SwFaviconSize, SEARCH_RESULTS_LIMIT,
};

#[test]
fn favicon_sizes() {
    assert_eq!(favicon_layout(SwFaviconSize::Mini), (48, false, 24));
    assert_eq!(favicon_layout(SwFaviconSize::Small), (64, false, 32));
    assert_eq!(favicon_layout(SwFaviconSize::Big), (192, true, 96));
    assert_eq!(favicon_page(true), "image");
    assert_eq!(favicon_page(false), "placeholder");
}

#[test]
fn play_buttons() {
    assert_eq!(
        play_button("a", Some("a"), SwPlaybackState::Playing),
        ("media-playback-stop-symbolic".to_string(), "Stop".to_string())
    );
    assert_eq!(
        play_button("a", Some("a"), SwPlaybackState::Loading),
        ("media-playback-start-symbolic".to_string(), "Play".to_string())
    );
    assert_eq!(
        play_button("a", Some("b"), SwPlaybackState::Playing),
        ("media-playback-start-symbolic".to_string(), "Play".to_string())
    );
    assert_eq!(
        play_button("a", None, SwPlaybackState::Playing),
        ("media-playback-start-symbolic".to_string(), "Play".to_string())
    );
    assert!(play_button_toggles("a", Some("a")));
    assert!(!play_button_toggles("a", Some("b")));
    assert!(!play_button_toggles("a", None));
}

#[test]
fn station_subtitles() {
    assert_eq!(station_subtitle("united states", "rock,pop", "rock, pop"), "United States · rock, pop");
    assert_eq!(station_subtitle("germany", "", ""), "Germany");
    assert_eq!(station_subtitle("", "jazz", "Jazz"), "jazz");
    assert_eq!(subtitle_from("France".to_string(), "news", "News"), "France · News");
}

#[test]
fn search_sorting() {
    assert!(check_sort_order("Votes"));
    assert!(!check_sort_order("votes"));
    assert_eq!(sorting("Bitrate"), ("Bitrate".to_string(), "bitrate".to_string()));
    assert_eq!(sorting("Name"), ("Name".to_string(), "name".to_string()));
    assert_eq!(sort_direction("Ascending"), (false, "view-sort-ascending-symbolic".to_string()));
    assert_eq!(sort_direction("Descending"), (true, "view-sort-descending-symbolic".to_string()));
}

#[test]
fn search_pages() {
    assert_eq!(search_results_view(0, 250), ("no-results".to_string(), false));
    assert_eq!(search_results_view(12, 250), ("results".to_string(), false));
    assert_eq!(search_results_view(250, 250), ("results".to_string(), true));
    assert_eq!(search_starts(Some("jazz")), (true, "spinner".to_string()));
    assert_eq!(search_starts(None), (false, "empty".to_string()));
    assert_eq!(search_name(""), None);
    assert_eq!(search_name("bbc"), Some("bbc".to_string()));
}

#[test]
fn search_requests() {
    let mut r = SearchRequest::new();
    assert_eq!(r.limit, SEARCH_RESULTS_LIMIT);
    assert_eq!(r.limit, 250);
    assert!(r.name.is_none());
    assert_eq!(r.set_sorting("Country"), ("Country".to_string(), false));
    assert_eq!(r.order.as_deref(), Some("country"));
    assert!(r.set_text("bbc"));
    assert_eq!(r.name.as_deref(), Some("bbc"));
    assert_eq!(r.set_direction("Ascending"), ("view-sort-ascending-symbolic".to_string(), true));
    assert_eq!(r.reverse, Some(false));
    assert_eq!(r.order.as_deref(), Some("country"));
    assert!(!r.set_text(""));
    assert!(r.name.is_none());
    assert_eq!(r.set_direction("Descending").1, false);
    assert_eq!(r.reverse, Some(true));
}

#[test]
fn results_limit_note() {
    assert_eq!(
        results_limit_text(250),
        "The number of results is limited to 250 items. Try using a more specific search term."
    );
    assert_eq!(
        results_limit_text(1),
        "The number of results is limited to 1 item. Try using a more specific search term."
    );
}

#[test]
fn sidebar_views() {
    assert_eq!(
        sidebar_playback_view(&PlaybackState::Playing, "Error"),
        ("stop_playback".to_string(), "Error".to_string())
    );
    assert_eq!(
        sidebar_playback_view(&PlaybackState::Stopped, "Error"),
        ("start_playback".to_string(), "Error".to_string())
    );
    assert_eq!(
        sidebar_playback_view(&PlaybackState::Loading, "Error"),
        ("loading".to_string(), "Error".to_string())
    );
    assert_eq!(
        sidebar_playback_view(&PlaybackState::Failure("no stream".to_string()), "Error:"),
        ("error".to_string(), "Error: no stream".to_string())
    );
    assert_eq!(sidebar_song_title(""), (false, "".to_string()));
    assert_eq!(sidebar_song_title("Song"), (true, "Song".to_string()));
}

#[test]
fn about_texts() {
    assert_eq!(about_version("development", "4.0.0"), "4.0.0-devel");
    assert_eq!(about_version("default", "4.0.0"), "4.0.0");
    assert_eq!(about_debug_info("abc123"), "Git Commit: abc123");
}

#[test]
fn gadget_follows_height() {
    assert_eq!(gadget_switch(100, false), GadgetSwitch::Enable);
    assert_eq!(gadget_switch(100, true), GadgetSwitch::Keep);
    assert_eq!(gadget_switch(150, true), GadgetSwitch::Disable);
    assert_eq!(gadget_switch(400, false), GadgetSwitch::Keep);
}

#[test]
fn window_closing() {
    assert!(close_hides_window(true, SwPlaybackState::Playing, true));
    assert!(!close_hides_window(true, SwPlaybackState::Stopped, true));
    assert!(!close_hides_window(false, SwPlaybackState::Playing, true));
    assert_eq!(
        background_decision(true, ""),
        BackgroundDecision { ask: false, disable_background: false, hide: false, close: true }
    );
    assert_eq!(
        background_decision(false, "disable"),
        BackgroundDecision { ask: true, disable_background: true, hide: false, close: true }
    );
    assert_eq!(
        background_decision(false, "keep"),
        BackgroundDecision { ask: true, disable_background: false, hide: true, close: true }
    );
    assert!(quit_after_window_removed(false, true, SwPlaybackState::Stopped));
    assert!(!quit_after_window_removed(false, true, SwPlaybackState::Playing));
    assert!(!quit_after_window_removed(true, true, SwPlaybackState::Stopped));
}

#[test]
fn track_dialog_parts() {
    assert_eq!(track_dialog_visibility(SwTrackState::Recorded), (true, true, false));
    assert_eq!(track_dialog_visibility(SwTrackState::Saved), (true, false, true));
    assert_eq!(track_dialog_visibility(SwTrackState::NoRecording), (false, false, false));
}

#[test]
fn recording_indicator_texts() {
    assert_eq!(
        recording_indicator(SwSongState::Recording),
        (
            true,
            "Recording in Progress".to_string(),
            "The current song will be recorded until a new song is detected.".to_string()
        )
    );
    assert_eq!(recording_indicator(SwSongState::SkippedIgnored).1, "Ignored");
    assert_eq!(recording_indicator(SwSongState::SkippedIncomplete).1, "Incomplete");
    assert_eq!(recording_indicator(SwSongState::Recorded), (false, String::new(), String::new()));
}

#[test]
fn station_input() {
    assert_eq!(station_input_state("Radio", true), (true, true));
    assert_eq!(station_input_state("", true), (true, false));
    assert_eq!(station_input_state("Radio", false), (false, false));
    assert_eq!(validate_station_input("Radio", "https://example.org/stream"), (true, true));
    assert_eq!(validate_station_input("Radio", "not a url"), (false, false));
    assert_eq!(validate_station_input("", "https://example.org/stream"), (true, false));
}
