//! The messages that a client of the text protocol exchanges with the
//! service.
use vstd::prelude::*;
use lingua::Language;

verus! {

/// What a client sends: the text to examine.
#[derive(Clone, Debug, PartialEq, Eq)]
pub struct DetectQuery {
    pub text: String,
}

/// What `POST /detect` answers: the language, if one was found.
#[derive(Clone, Debug, PartialEq, Eq)]
pub struct DetectResponse(pub Option<Language>);

/// What `POST /confidence` answers: each candidate language with its
/// confidence, a double held as its IEEE-754 bit pattern.
#[derive(Clone, Debug, PartialEq, Eq)]
pub struct ConfidenceResponse(pub Vec<(Language, u64)>);

impl DetectQuery {
    /// The query that asks about `text`.
    pub fn new(text: &str) -> (query: DetectQuery)
        ensures
            query.text@ == text@,
    {
        DetectQuery { text: text.to_owned() }
    }
}

} // verus!
