//! Transport commands and the upstream verb and path each one maps to.

use crate::wire::Verb;
use vstd::prelude::*;

verus! {

/// A playback command that an authenticated caller may issue.
#[derive(Clone, Copy, Debug, PartialEq, Eq, Structural)]
pub enum MediaState {
    Play,
    Pause,
    Next,
    Previous,
}

impl MediaState {
    /// Play and Pause set a state and go out as PUT; Next and Previous
    /// advance the queue and go out as POST.
    pub open spec fn spec_verb(self) -> Verb {
        match self {
            MediaState::Play | MediaState::Pause => Verb::Put,
            MediaState::Next | MediaState::Previous => Verb::Post,
        }
    }

    /// The verb under which the command goes upstream.
    #[verifier::when_used_as_spec(spec_verb)]
    pub fn verb(self) -> (v: Verb)
        ensures
            v == self.spec_verb(),
    {
        match self {
            MediaState::Play | MediaState::Pause => Verb::Put,
            MediaState::Next | MediaState::Previous => Verb::Post,
        }
    }

    /// The last path segment of the command's URL: its name in lower case.
    pub open spec fn spec_segment(self) -> Seq<char> {
        match self {
            MediaState::Play => "play"@,
            MediaState::Pause => "pause"@,
            MediaState::Next => "next"@,
            MediaState::Previous => "previous"@,
        }
    }

    /// The last path segment of the command's URL.
    pub fn segment(self) -> (name: &'static str)
        ensures
            name@ == self.spec_segment(),
    {
        match self {
            MediaState::Play => "play",
            MediaState::Pause => "pause",
            MediaState::Next => "next",
            MediaState::Previous => "previous",
        }
    }
}

} // verus!
