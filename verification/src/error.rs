//! What can go wrong between a user's input and a rendered map.

use vstd::prelude::*;
use vstd::string::*;

verus! {

/// The failures of a lookup.
#[derive(Clone, Debug, PartialEq, Eq)]
pub enum MapError {
    /// The remote service knows no map under the identifier.
    NotFound,
    /// The request did not come back; the text says why.
    TransportError(String),
    /// The answer was not a map description; the text says why.
    MalformedResponse(String),
    /// A selector token that no generated option carries.
    ContractViolation,
}

impl MapError {
    /// The sentence that [`MapError::describe`] gives.
    pub open spec fn describe_spec(self) -> Seq<char> {
        match self {
            MapError::NotFound => "No map with this code exists on BeatSaver."@,
            MapError::TransportError(cause) => "BeatSaver could not be reached: "@ + cause@,
            MapError::MalformedResponse(cause) => "BeatSaver sent an unreadable answer: "@
                + cause@,
            MapError::ContractViolation => "The selection names no entry of this menu."@,
        }
    }

    /// The cause of the failure in words, the underlying cause text included.
    pub fn describe(&self) -> (text: String)
        ensures
            text@ == self.describe_spec(),
    {
        match self {
            MapError::NotFound => String::from_str("No map with this code exists on BeatSaver."),
            MapError::TransportError(cause) => {
                let mut text: String = String::from_str("BeatSaver could not be reached: ");
                text.append(cause.as_str());
                text
            },
            MapError::MalformedResponse(cause) => {
                let mut text: String = String::from_str("BeatSaver sent an unreadable answer: ");
                text.append(cause.as_str());
                text
            },
            MapError::ContractViolation => String::from_str(
                "The selection names no entry of this menu.",
            ),
        }
    }
}

} // verus!
