//! The recording states of a track, with the title and description shown for each.

use vstd::prelude::*;
use vstd::string::*;

verus! {

broadcast use vstd::string::group_string_axioms;

/// The recording state of a track.
#[derive(Debug, Clone, Copy, PartialEq, Eq, Structural, Default)]
pub enum SwTrackState {
    #[default]
    NoRecording,
    Recording,
    Recorded,
    SkippedIncomplete,
    SkippedIgnored,
    BelowThreshold,
    Cancelled,
    Saved,
}

/// The title shown for a state.
pub open spec fn spec_title(s: SwTrackState) -> Seq<char> {
    match s {
        SwTrackState::NoRecording => "Not Recorded"@,
        SwTrackState::Recording => "Recording…"@,
        SwTrackState::Recorded => "Recorded"@,
        SwTrackState::SkippedIncomplete => "Not Recorded"@,
        SwTrackState::SkippedIgnored => "Ignored Track"@,
        SwTrackState::BelowThreshold => "Below Threshold"@,
        SwTrackState::Cancelled => "Cancelled Recording"@,
        SwTrackState::Saved => "Saved"@,
    }
}

/// The description shown for a state.
pub open spec fn spec_description(s: SwTrackState) -> Seq<char> {
    match s {
        SwTrackState::NoRecording => "Recording is deactivated in preferences"@,
        SwTrackState::Recording => "The track will be recorded until a new track gets played"@,
        SwTrackState::Recorded => "The track has been temporarily recorded and can be saved"@,
        SwTrackState::SkippedIncomplete => "The track wasn't played from the beginning, so it can't be fully recorded"@,
        SwTrackState::SkippedIgnored => "The track contains a word that is on the ignore list"@,
        SwTrackState::BelowThreshold => "The track has been discarded as the duration was below the set threshold"@,
        SwTrackState::Cancelled => "Recording has been cancelled, recorded data is discarded"@,
        SwTrackState::Saved => "The track was saved in the configured directory"@,
    }
}

impl SwTrackState {
    /// Whether a track in this state is listed in the history: all but
    /// ignored ones and those below the duration threshold.
    pub fn include_in_history(&self) -> (r: bool)
        ensures
            r == (*self != SwTrackState::SkippedIgnored && *self != SwTrackState::BelowThreshold),
    {
        *self != SwTrackState::SkippedIgnored && *self != SwTrackState::BelowThreshold
    }

    /// The title shown for this state.
    pub fn title(&self) -> (r: String)
        ensures
            r@ == spec_title(*self),
    {
        match self {
            SwTrackState::NoRecording => String::from_str("Not Recorded"),
            SwTrackState::Recording => String::from_str("Recording…"),
            SwTrackState::Recorded => String::from_str("Recorded"),
            SwTrackState::SkippedIncomplete => String::from_str("Not Recorded"),
            SwTrackState::SkippedIgnored => String::from_str("Ignored Track"),
            SwTrackState::BelowThreshold => String::from_str("Below Threshold"),
            SwTrackState::Cancelled => String::from_str("Cancelled Recording"),
            SwTrackState::Saved => String::from_str("Saved"),
        }
    }

    /// The description shown for this state.
    pub fn description(&self) -> (r: String)
        ensures
            r@ == spec_description(*self),
    {
        match self {
            SwTrackState::NoRecording => String::from_str("Recording is deactivated in preferences"),
            SwTrackState::Recording => String::from_str("The track will be recorded until a new track gets played"),
            SwTrackState::Recorded => String::from_str("The track has been temporarily recorded and can be saved"),
            SwTrackState::SkippedIncomplete => String::from_str("The track wasn't played from the beginning, so it can't be fully recorded"),
            SwTrackState::SkippedIgnored => String::from_str("The track contains a word that is on the ignore list"),
            SwTrackState::BelowThreshold => String::from_str("The track has been discarded as the duration was below the set threshold"),
            SwTrackState::Cancelled => String::from_str("Recording has been cancelled, recorded data is discarded"),
            SwTrackState::Saved => String::from_str("The track was saved in the configured directory"),
        }
    }

}

/// Every state has its own description, and none is empty (unlike the
/// titles, two of which agree).
pub proof fn law_descriptions_distinct(a: SwTrackState, b: SwTrackState)
    ensures
        spec_description(a).len() > 0,
        a != b ==> spec_description(a) != spec_description(b),
{
    reveal_strlit("Recording is deactivated in preferences");
    reveal_strlit("The track will be recorded until a new track gets played");
    reveal_strlit("The track has been temporarily recorded and can be saved");
    reveal_strlit("The track wasn't played from the beginning, so it can't be fully recorded");
    reveal_strlit("The track contains a word that is on the ignore list");
    reveal_strlit("The track has been discarded as the duration was below the set threshold");
    reveal_strlit("Recording has been cancelled, recorded data is discarded");
    reveal_strlit("The track was saved in the configured directory");
    if a != b && spec_description(a) == spec_description(b) {
        assert(spec_description(a).len() == spec_description(b).len());
        assert(spec_description(a)[0] == spec_description(b)[0]);
        assert(spec_description(a)[10] == spec_description(b)[10]);
        assert(spec_description(a)[15] == spec_description(b)[15]);
    }
}

} // verus!
