//! The recording states of a song, with the title and description shown for each.

use vstd::prelude::*;
use vstd::string::*;

verus! {

broadcast use vstd::string::group_string_axioms;

/// The recording state of a song.
#[derive(Debug, Clone, Copy, PartialEq, Eq, Structural, Default)]
pub enum SwSongState {
    #[default]
    NoRecording,
    Recording,
    Recorded,
    SkippedIncomplete,
    SkippedIgnored,
    BelowThreshold,
    Discarded,
    Saved,
}

/// The title shown for a state.
pub open spec fn spec_title(s: SwSongState) -> Seq<char> {
    match s {
        SwSongState::NoRecording => "Not Recorded"@,
        SwSongState::Recording => "Recording…"@,
        SwSongState::Recorded => "Recorded"@,
        SwSongState::SkippedIncomplete => "Not Recorded"@,
        SwSongState::SkippedIgnored => "Ignored Track"@,
        SwSongState::BelowThreshold => "Below Threshold"@,
        SwSongState::Discarded => "Discarded Recording"@,
        SwSongState::Saved => "Saved"@,
    }
}

/// The description shown for a state.
pub open spec fn spec_description(s: SwSongState) -> Seq<char> {
    match s {
        SwSongState::NoRecording => "Recording is deactivated in preferences"@,
        SwSongState::Recording => "Track will be recorded until a new track gets played"@,
        SwSongState::Recorded => "Track has been temporarily recorded and can be saved"@,
        SwSongState::SkippedIncomplete => "Track wasn't played from the beginning, so it can't be fully recorded"@,
        SwSongState::SkippedIgnored => "Track contains a word that is on the ignore list"@,
        SwSongState::BelowThreshold => "Track has been discarded as the duration was below the set threshold"@,
        SwSongState::Discarded => "Recording was interrupted, recorded data is discarded"@,
        SwSongState::Saved => "Track was saved in the configured directory"@,
    }
}

impl SwSongState {
    /// Whether a song in this state is listed in the history: all but
    /// ignored ones and those below the duration threshold.
    pub fn include_in_history(&self) -> (r: bool)
        ensures
            r == (*self != SwSongState::SkippedIgnored && *self != SwSongState::BelowThreshold),
    {
        *self != SwSongState::SkippedIgnored && *self != SwSongState::BelowThreshold
    }

    /// The title shown for this state.
    pub fn title(&self) -> (r: String)
        ensures
            r@ == spec_title(*self),
    {
        match self {
            SwSongState::NoRecording => String::from_str("Not Recorded"),
            SwSongState::Recording => String::from_str("Recording…"),
            SwSongState::Recorded => String::from_str("Recorded"),
            SwSongState::SkippedIncomplete => String::from_str("Not Recorded"),
            SwSongState::SkippedIgnored => String::from_str("Ignored Track"),
            SwSongState::BelowThreshold => String::from_str("Below Threshold"),
            SwSongState::Discarded => String::from_str("Discarded Recording"),
            SwSongState::Saved => String::from_str("Saved"),
        }
    }

    /// The description shown for this state.
    pub fn description(&self) -> (r: String)
        ensures
            r@ == spec_description(*self),
    {
        match self {
            SwSongState::NoRecording => String::from_str("Recording is deactivated in preferences"),
            SwSongState::Recording => String::from_str("Track will be recorded until a new track gets played"),
            SwSongState::Recorded => String::from_str("Track has been temporarily recorded and can be saved"),
            SwSongState::SkippedIncomplete => String::from_str("Track wasn't played from the beginning, so it can't be fully recorded"),
            SwSongState::SkippedIgnored => String::from_str("Track contains a word that is on the ignore list"),
            SwSongState::BelowThreshold => String::from_str("Track has been discarded as the duration was below the set threshold"),
            SwSongState::Discarded => String::from_str("Recording was interrupted, recorded data is discarded"),
            SwSongState::Saved => String::from_str("Track was saved in the configured directory"),
        }
    }

}

} // verus!
