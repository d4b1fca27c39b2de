//! The request for one profile, and what counts as an answer to it.

use vstd::prelude::*;

verus! {

/// The address that serves the profile of `identifier`: the identifier,
/// unchanged, behind the fixed prefix of the directory's interface.
pub open spec fn profile_url_text(identifier: Seq<char>) -> Seq<char> {
    "https://api.kth.se/api/profile/1.1/"@ + identifier
}

/// A status code that stands for success: 200 to 299.
pub open spec fn is_success(code: u16) -> bool {
    200 <= code <= 299
}

/// Why no profile was obtained for an identifier.
#[derive(Debug)]
pub enum LookupError {
    /// The request failed, or the answer's status was not a success.
    Transport(String),
    /// The answer was no record of the expected shape.
    Decode(String),
}

impl LookupError {
    /// The description shown to the user.
    pub open spec fn description_text(self) -> Seq<char> {
        match self {
            LookupError::Transport(description) => description@,
            LookupError::Decode(description) => description@,
        }
    }

    /// The description shown to the user.
    pub fn description(&self) -> (text: &str)
        ensures
            text@ == self.description_text(),
    {
        match self {
            LookupError::Transport(description) => description.as_str(),
            LookupError::Decode(description) => description.as_str(),
        }
    }
}

/// The address to ask for the profile of `identifier`.
pub fn profile_url(identifier: &str) -> (url: String)
    ensures
        url@ == profile_url_text(identifier@),
{
    let mut url = String::from_str("https://api.kth.se/api/profile/1.1/");
    url.append(identifier);
    url
}

/// Whether an answer with this status code carries a profile.
pub fn status_is_success(code: u16) -> (ok: bool)
    ensures
        ok == is_success(code),
{
    200 <= code && code <= 299
}

} // verus!
