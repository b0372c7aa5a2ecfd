//! The decisions of the user interface: sizes, icons, labels, visibility
//! and window behaviour, separated from the widgets that show them.

use vstd::prelude::*;
use vstd::string::*;
use crate::player::SwPlaybackState;
use crate::song_state::SwSongState;
use crate::text::{chars_of, push_decimal, push_str, spec_decimal, str_eq, string_from_chars};
use crate::track_state::SwTrackState;
use crate::url_ext::{url_host, url_host_of};

verus! {

broadcast use vstd::string::group_string_axioms;

/// The sizes of station favicons.
#[derive(Debug, Clone, Copy, PartialEq, Eq, Structural, Default)]
pub enum SwFaviconSize {
    #[default]
    Mini,
    Small,
    Big,
}

/// How a favicon of a size is drawn: (pixel size, drawn as a card,
/// placeholder icon size).
pub open spec fn spec_favicon_layout(size: SwFaviconSize) -> (i32, bool, i32) {
    match size {
        SwFaviconSize::Mini => (48, false, 24),
        SwFaviconSize::Small => (64, false, 32),
        SwFaviconSize::Big => (192, true, 96),
    }
}

/// The layout of a favicon: (pixel size, card, placeholder size).
pub fn favicon_layout(size: SwFaviconSize) -> (r: (i32, bool, i32))
    ensures
        r == spec_favicon_layout(size),
{
    let (px, card): (i32, bool) = match size {
        SwFaviconSize::Mini => (48, false),
        SwFaviconSize::Small => (64, false),
        SwFaviconSize::Big => (192, true),
    };
    (px, card, px / 2)
}

/// The stack page a favicon shows: the image when it has one.
pub fn favicon_page(has_paintable: bool) -> (r: String)
    ensures
        r@ == if has_paintable { "image"@ } else { "placeholder"@ },
{
    if has_paintable {
        String::from_str("image")
    } else {
        String::from_str("placeholder")
    }
}

/// A station row shows a stop button for the station that plays, and a play
/// button otherwise: (icon name, tooltip).
pub open spec fn spec_play_button(row_uuid: Seq<char>, current: Option<Seq<char>>, state: SwPlaybackState) -> (Seq<char>, Seq<char>) {
    if current == Some(row_uuid) && state == SwPlaybackState::Playing {
        ("media-playback-stop-symbolic"@, "Stop"@)
    } else {
        ("media-playback-start-symbolic"@, "Play"@)
    }
}

/// The icon and tooltip of a station row's play button.
pub fn play_button(row_uuid: &str, current: Option<&str>, state: SwPlaybackState) -> (r: (String, String))
    ensures
        (r.0@, r.1@) == spec_play_button(row_uuid@, match current {
            Some(c) => Some(c@),
            None => None,
        }, state),
{
    let same = match current {
        Some(c) => str_eq(c, row_uuid),
        None => false,
    };
    if same && state == SwPlaybackState::Playing {
        (String::from_str("media-playback-stop-symbolic"), String::from_str("Stop"))
    } else {
        (String::from_str("media-playback-start-symbolic"), String::from_str("Play"))
    }
}

/// Clicking a row's play button toggles playback of the station that is
/// already selected, and selects any other one.
pub fn play_button_toggles(row_uuid: &str, current: Option<&str>) -> (r: bool)
    ensures
        r == match current {
            Some(c) => c@ == row_uuid@,
            None => false,
        },
{
    match current {
        Some(c) => str_eq(c, row_uuid),
        None => false,
    }
}

/// What `inflector`'s `to_title_case` returns for `s`.
pub uninterp spec fn title_case_of(s: Seq<char>) -> Seq<char>;

/// Calls `inflector::cases::titlecase::to_title_case`. The contract only
/// names the result (`title_case_of`); the word splitting and capitalization
/// rules are Inflector's.
#[verifier::external_body]
fn title_case(s: &str) -> (r: String)
    ensures
        r@ == title_case_of(s@),
{
    inflector::cases::titlecase::to_title_case(s)
}

/// A row's subtitle: the title-cased country, the tags when there is no
/// country, or both joined by ` · ` (the tags as formatted for display).
pub open spec fn spec_station_subtitle(country: Seq<char>, tags: Seq<char>, formatted_tags: Seq<char>) -> Seq<char> {
    if country.len() == 0 {
        tags
    } else if tags.len() > 0 {
        country + " · "@ + formatted_tags
    } else {
        country
    }
}

/// The subtitle of a row, from the already title-cased country.
pub fn subtitle_from(title_cased_country: String, tags: &str, formatted_tags: &str) -> (r: String)
    ensures
        r@ == spec_station_subtitle(title_cased_country@, tags@, formatted_tags@),
{
    if title_cased_country.as_str().is_empty() {
        String::from_str(tags)
    } else if !tags.is_empty() {
        let mut v = chars_of(title_cased_country.as_str());
        push_str(&mut v, " · ");
        push_str(&mut v, formatted_tags);
        string_from_chars(&v)
    } else {
        title_cased_country
    }
}

/// The subtitle of a station row.
pub fn station_subtitle(country: &str, tags: &str, formatted_tags: &str) -> (r: String)
    ensures
        r@ == spec_station_subtitle(title_case_of(country@), tags@, formatted_tags@),
{
    subtitle_from(title_case(country), tags, formatted_tags)
}

/// The sort orders a search offers.
pub open spec fn is_sort_order(order: Seq<char>) -> bool {
    order == "Name"@ || order == "Language"@ || order == "Country"@ || order == "State"@ || order
        == "Votes"@ || order == "Bitrate"@
}

/// The label and request order of a sort order: the order itself, and it in
/// lower case.
pub open spec fn spec_sorting(order: Seq<char>) -> (Seq<char>, Seq<char>) {
    if order == "Name"@ {
        ("Name"@, "name"@)
    } else if order == "Language"@ {
        ("Language"@, "language"@)
    } else if order == "Country"@ {
        ("Country"@, "country"@)
    } else if order == "State"@ {
        ("State"@, "state"@)
    } else if order == "Votes"@ {
        ("Votes"@, "votes"@)
    } else {
        ("Bitrate"@, "bitrate"@)
    }
}

/// The label shown for a sort order and the order requested from the
/// station database.
pub fn sorting(order: &str) -> (r: (String, String))
    requires
        is_sort_order(order@),
    ensures
        (r.0@, r.1@) == spec_sorting(order@),
{
    if str_eq(order, "Name") {
        (String::from_str("Name"), String::from_str("name"))
    } else if str_eq(order, "Language") {
        (String::from_str("Language"), String::from_str("language"))
    } else if str_eq(order, "Country") {
        (String::from_str("Country"), String::from_str("country"))
    } else if str_eq(order, "State") {
        (String::from_str("State"), String::from_str("state"))
    } else if str_eq(order, "Votes") {
        (String::from_str("Votes"), String::from_str("votes"))
    } else {
        (String::from_str("Bitrate"), String::from_str("bitrate"))
    }
}

/// Whether a name is one of the offered sort orders.
pub fn check_sort_order(order: &str) -> (r: bool)
    ensures
        r == is_sort_order(order@),
{
    str_eq(order, "Name") || str_eq(order, "Language") || str_eq(order, "Country") || str_eq(
        order,
        "State",
    ) || str_eq(order, "Votes") || str_eq(order, "Bitrate")
}

/// Results are listed in reverse unless the order is `Ascending`; the icon
/// follows: (reverse, icon name).
pub fn sort_direction(order: &str) -> (r: (bool, String))
    ensures
        r.0 == (order@ != "Ascending"@),
        r.1@ == if order@ == "Ascending"@ {
            "view-sort-ascending-symbolic"@
        } else {
            "view-sort-descending-symbolic"@
        },
{
    if str_eq(order, "Ascending") {
        (false, String::from_str("view-sort-ascending-symbolic"))
    } else {
        (true, String::from_str("view-sort-descending-symbolic"))
    }
}

/// The page a search shows once results arrive, and whether the note that
/// results are limited is shown: (page, limited).
pub fn search_results_view(n_items: u32, max_results: u32) -> (r: (String, bool))
    ensures
        r.0@ == if n_items == 0 { "no-results"@ } else { "results"@ },
        r.1 == (n_items >= max_results),
{
    let page = if n_items == 0 {
        String::from_str("no-results")
    } else {
        String::from_str("results")
    };
    (page, n_items >= max_results)
}

/// A search without a name shows the empty page and stops the spinner;
/// otherwise it shows the spinner and is sent.
pub fn search_starts(name: Option<&str>) -> (r: (bool, String))
    ensures
        r.0 == name is Some,
        r.1@ == if name is Some { "spinner"@ } else { "empty"@ },
{
    match name {
        Some(_) => (true, String::from_str("spinner")),
        None => (false, String::from_str("empty")),
    }
}

/// An empty search text is no name.
pub fn search_name(text: &str) -> (r: Option<String>)
    ensures
        match r {
            Some(n) => text@.len() > 0 && n@ == text@,
            None => text@.len() == 0,
        },
{
    if text.is_empty() {
        None
    } else {
        Some(String::from_str(text))
    }
}

/// The note that the results of a search are limited to `max` items.
pub open spec fn spec_results_limit_text(max: u32) -> Seq<char> {
    "The number of results is limited to "@ + spec_decimal(max as nat) + (if max == 1 {
        " item."@
    } else {
        " items."@
    }) + " Try using a more specific search term."@
}

/// The note that the results are limited, in the singular for one item.
pub fn results_limit_text(max: u32) -> (r: String)
    ensures
        r@ == spec_results_limit_text(max),
{
    let mut v = chars_of("The number of results is limited to ");
    push_decimal(&mut v, max as u64);
    if max == 1 {
        push_str(&mut v, " item.");
    } else {
        push_str(&mut v, " items.");
    }
    push_str(&mut v, " Try using a more specific search term.");
    string_from_chars(&v)
}

/// The number of results a search asks for.
pub const SEARCH_RESULTS_LIMIT: u32 = 250;

/// What a search asks the station database: the name searched for, the
/// order and direction of the results, and how many are wanted.
pub struct SearchRequest {
    pub name: Option<String>,
    pub order: Option<String>,
    pub reverse: Option<bool>,
    pub limit: u32,
}

impl SearchRequest {
    /// A search for no name yet, for at most `SEARCH_RESULTS_LIMIT` results.
    pub fn new() -> (r: SearchRequest)
        ensures
            r.name is None,
            r.order is None,
            r.reverse is None,
            r.limit == SEARCH_RESULTS_LIMIT,
    {
        SearchRequest { name: None, order: None, reverse: None, limit: SEARCH_RESULTS_LIMIT }
    }

    /// Takes the search text: an empty text searches for no name. Returns
    /// whether the search is sent (otherwise the empty page shows).
    pub fn set_text(&mut self, text: &str) -> (sent: bool)
        ensures
            sent == (text@.len() > 0),
            match final(self).name {
                Some(n) => text@.len() > 0 && n@ == text@,
                None => text@.len() == 0,
            },
            final(self).order == old(self).order,
            final(self).reverse == old(self).reverse,
            final(self).limit == old(self).limit,
    {
        self.name = search_name(text);
        self.name.is_some()
    }

    /// Takes a sort order offered by the page; returns the label shown for
    /// it and whether the search is sent again.
    pub fn set_sorting(&mut self, order: &str) -> (r: (String, bool))
        requires
            is_sort_order(order@),
        ensures
            r.0@ == spec_sorting(order@).0,
            r.1 == (final(self).name is Some),
            match final(self).order {
                Some(o) => o@ == spec_sorting(order@).1,
                None => false,
            },
            final(self).name == old(self).name,
            final(self).reverse == old(self).reverse,
            final(self).limit == old(self).limit,
    {
        let (label, requested) = sorting(order);
        self.order = Some(requested);
        (label, self.name.is_some())
    }

    /// Takes a direction (`Ascending` or else descending); returns the icon
    /// shown for it and whether the search is sent again.
    pub fn set_direction(&mut self, direction: &str) -> (r: (String, bool))
        ensures
            r.0@ == if direction@ == "Ascending"@ {
                "view-sort-ascending-symbolic"@
            } else {
                "view-sort-descending-symbolic"@
            },
            r.1 == (final(self).name is Some),
            final(self).reverse == Some(direction@ != "Ascending"@),
            final(self).name == old(self).name,
            final(self).order == old(self).order,
            final(self).limit == old(self).limit,
    {
        let (reverse, icon) = sort_direction(direction);
        self.reverse = Some(reverse);
        (icon, self.name.is_some())
    }
}

/// The playback states of the sidebar controller, with the failure message.
pub enum PlaybackState {
    Playing,
    Stopped,
    Loading,
    Failure(String),
}

/// The stack page of the sidebar's playback button, and the error label
/// after a failure message is appended to it with a space.
pub fn sidebar_playback_view(state: &PlaybackState, error_text: &str) -> (r: (String, String))
    ensures
        match *state {
            PlaybackState::Playing => r.0@ == "stop_playback"@ && r.1@ == error_text@,
            PlaybackState::Stopped => r.0@ == "start_playback"@ && r.1@ == error_text@,
            PlaybackState::Loading => r.0@ == "loading"@ && r.1@ == error_text@,
            PlaybackState::Failure(msg) => r.0@ == "error"@ && r.1@ == error_text@ + " "@ + msg@,
        },
{
    match state {
        PlaybackState::Playing => (String::from_str("stop_playback"), String::from_str(error_text)),
        PlaybackState::Stopped => (String::from_str("start_playback"), String::from_str(error_text)),
        PlaybackState::Loading => (String::from_str("loading"), String::from_str(error_text)),
        PlaybackState::Failure(msg) => {
            let mut v = chars_of(error_text);
            push_str(&mut v, " ");
            push_str(&mut v, msg.as_str());
            (String::from_str("error"), string_from_chars(&v))
        },
    }
}

/// The sidebar shows a song title when there is one: (shown, label text).
pub fn sidebar_song_title(title: &str) -> (r: (bool, String))
    ensures
        r.0 == (title@.len() > 0),
        r.1@ == title@,
{
    (!title.is_empty(), String::from_str(title))
}

/// The version shown in the about dialog: development builds append
/// `-devel`.
pub fn about_version(profile: &str, version: &str) -> (r: String)
    ensures
        r@ == if profile@ == "development"@ { version@ + "-devel"@ } else { version@ },
{
    if str_eq(profile, "development") {
        let mut v = chars_of(version);
        push_str(&mut v, "-devel");
        string_from_chars(&v)
    } else {
        String::from_str(version)
    }
}

/// The debug information of the about dialog.
pub fn about_debug_info(vcs_tag: &str) -> (r: String)
    ensures
        r@ == "Git Commit: "@ + vcs_tag@,
{
    let mut v = chars_of("Git Commit: ");
    push_str(&mut v, vcs_tag);
    string_from_chars(&v)
}

/// What a change of window height does to the gadget player.
#[derive(Debug, Clone, Copy, PartialEq, Eq, Structural)]
pub enum GadgetSwitch {
    Enable,
    Disable,
    Keep,
}

/// Below 150 pixels the gadget player takes over; from 150 on the full
/// window comes back.
pub open spec fn spec_gadget_switch(height: i32, gadget_visible: bool) -> GadgetSwitch {
    if height < 150 && !gadget_visible {
        GadgetSwitch::Enable
    } else if height >= 150 && gadget_visible {
        GadgetSwitch::Disable
    } else {
        GadgetSwitch::Keep
    }
}

/// Decides whether the gadget player is switched on or off.
pub fn gadget_switch(height: i32, gadget_visible: bool) -> (r: GadgetSwitch)
    ensures
        r == spec_gadget_switch(height, gadget_visible),
{
    if height < 150 && !gadget_visible {
        GadgetSwitch::Enable
    } else if height >= 150 && gadget_visible {
        GadgetSwitch::Disable
    } else {
        GadgetSwitch::Keep
    }
}

/// After switching, the gadget is shown exactly when the window is lower
/// than 150 pixels.
pub proof fn law_gadget_follows_height(height: i32, gadget_visible: bool)
    ensures
        ({
            let after = match spec_gadget_switch(height, gadget_visible) {
                GadgetSwitch::Enable => true,
                GadgetSwitch::Disable => false,
                GadgetSwitch::Keep => gadget_visible,
            };
            after == (height < 150)
        }),
{
}

/// Closing the window while playing in the background only hides it.
pub fn close_hides_window(background_playback: bool, state: SwPlaybackState, visible: bool) -> (r: bool)
    ensures
        r == (background_playback && state == SwPlaybackState::Playing && visible),
{
    background_playback && state == SwPlaybackState::Playing && visible
}

/// What follows the check of background permissions after the window was
/// hidden.
#[derive(Debug, Clone, Copy, PartialEq, Eq, Structural)]
pub struct BackgroundDecision {
    /// Show the window again and ask the user.
    pub ask: bool,
    /// Turn background playback off.
    pub disable_background: bool,
    /// Hide the window again.
    pub hide: bool,
    /// Close the window.
    pub close: bool,
}

/// With permission the window closes; without, the user is asked, and
/// either background playback is disabled or the window hides again;
/// then it closes.
pub fn background_decision(has_permission: bool, response: &str) -> (r: BackgroundDecision)
    ensures
        has_permission ==> r == (BackgroundDecision { ask: false, disable_background: false, hide: false, close: true }),
        !has_permission ==> r == (BackgroundDecision {
            ask: true,
            disable_background: response@ == "disable"@,
            hide: response@ != "disable"@,
            close: true,
        }),
{
    if has_permission {
        BackgroundDecision { ask: false, disable_background: false, hide: false, close: true }
    } else {
        let disable = str_eq(response, "disable");
        BackgroundDecision { ask: true, disable_background: disable, hide: !disable, close: true }
    }
}

/// The application quits when its last window goes while background
/// playback is on and nothing plays.
pub fn quit_after_window_removed(has_active_window: bool, background_playback: bool, state: SwPlaybackState) -> (r: bool)
    ensures
        r == (!has_active_window && background_playback && state != SwPlaybackState::Playing),
{
    !has_active_window && background_playback && state != SwPlaybackState::Playing
}

/// What a track dialog shows: (duration, save button, play button).
pub open spec fn spec_track_dialog_visibility(state: SwTrackState) -> (bool, bool, bool) {
    (
        state == SwTrackState::Recording || state == SwTrackState::Recorded || state
            == SwTrackState::Saved || state == SwTrackState::BelowThreshold,
        state == SwTrackState::Recorded,
        state == SwTrackState::Saved,
    )
}

/// Which parts of a track dialog are visible for a state.
pub fn track_dialog_visibility(state: SwTrackState) -> (r: (bool, bool, bool))
    ensures
        r == spec_track_dialog_visibility(state),
{
    (
        state == SwTrackState::Recording || state == SwTrackState::Recorded || state
            == SwTrackState::Saved || state == SwTrackState::BelowThreshold,
        state == SwTrackState::Recorded,
        state == SwTrackState::Saved,
    )
}

/// The recording indicator's status for a song state: (active, title,
/// description).
pub open spec fn spec_recording_indicator(state: SwSongState) -> (bool, Seq<char>, Seq<char>) {
    match state {
        SwSongState::Recording => (
            true,
            "Recording in Progress"@,
            "The current song will be recorded until a new song is detected."@,
        ),
        SwSongState::SkippedIgnored => (
            false,
            "Ignored"@,
            "No recording because the song title contains a word on the ignore list."@,
        ),
        SwSongState::SkippedIncomplete => (
            false,
            "Incomplete"@,
            "The current song cannot be fully recorded. The beginning has been missed."@,
        ),
        _ => (false, Seq::empty(), Seq::empty()),
    }
}

/// What the recording indicator shows for a song state.
pub fn recording_indicator(state: SwSongState) -> (r: (bool, String, String))
    ensures
        (r.0, r.1@, r.2@) == spec_recording_indicator(state),
{
    match state {
        SwSongState::Recording => (
            true,
            String::from_str("Recording in Progress"),
            String::from_str("The current song will be recorded until a new song is detected."),
        ),
        SwSongState::SkippedIgnored => (
            false,
            String::from_str("Ignored"),
            String::from_str("No recording because the song title contains a word on the ignore list."),
        ),
        SwSongState::SkippedIncomplete => (
            false,
            String::from_str("Incomplete"),
            String::from_str("The current song cannot be fully recorded. The beginning has been missed."),
        ),
        _ => (false, String::new(), String::new()),
    }
}

/// Input for a new station is valid when its URL parses; it can be created
/// when it also has a name: (URL valid, create enabled).
pub open spec fn spec_station_input(name: Seq<char>, parsed: bool) -> (bool, bool) {
    (parsed, parsed && name.len() > 0)
}

/// Whether the URL of a new station parsed, and whether it can be created.
pub fn station_input_state(name: &str, parsed: bool) -> (r: (bool, bool))
    ensures
        r == spec_station_input(name@, parsed),
{
    (parsed, parsed && !name.is_empty())
}

/// Validates the input of the dialog that creates a station.
pub fn validate_station_input(name: &str, url: &str) -> (r: (bool, bool))
    ensures
        r == spec_station_input(name@, url_host_of(url@) is Some),
{
    let parsed = url_host(url).is_some();
    station_input_state(name, parsed)
}

} // verus!
