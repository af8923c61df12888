//! The handler of the RPC protocol: two unary operations, `DetectLanguage`
//! and `DetectLanguageConfidence`.
//!
//! The handler works on decoded messages. The detector answers every text, so
//! a call that reached the handler always gets its reply; the only failures
//! are those of the transport, and they are handed back as they came.
use vstd::prelude::*;
use lingua::Language;
use lingua::LanguageDetector;
use std::sync::Arc;
use crate::body::Status;
use crate::body::StatusModel;
use crate::body::StructuredBody;
use crate::detect::candidates;
use crate::detect::classify;
use crate::detect::classify_with_confidence;
use crate::detect::is_ranking;
use crate::detect::ScoreEntry;
use crate::text::str_eq;

verus! {

/// The message that both operations take.
#[derive(Clone, Debug, PartialEq, Eq)]
pub struct LanguageRequest {
    pub text: String,
}

/// The reply of `DetectLanguage`.
#[derive(Clone, Debug, PartialEq, Eq)]
pub struct LanguageReply {
    pub language: Option<Language>,
}

/// The reply of `DetectLanguageConfidence`.
#[derive(Clone, Debug, PartialEq, Eq)]
pub struct ConfidenceReply {
    pub languages: Vec<ScoreEntry>,
}

/// A call of one of the two operations.
#[derive(Clone, Debug, PartialEq, Eq)]
pub enum StructuredCall {
    DetectLanguage(LanguageRequest),
    DetectLanguageConfidence(LanguageRequest),
}

/// The reply to a call.
#[derive(Clone, Debug, PartialEq, Eq)]
pub enum StructuredReply {
    Language(LanguageReply),
    Confidence(ConfidenceReply),
}

/// The status code of a call that went well.
pub const STATUS_OK: u32 = 0;

/// What answering `call` with `detector` may come to: the reply of the
/// operation that was called, with a finding or a ranking of the detector.
pub open spec fn answers(
    detector: LanguageDetector,
    call: StructuredCall,
    reply: StructuredReply,
) -> bool {
    match call {
        StructuredCall::DetectLanguage(_) => reply matches StructuredReply::Language(found) && (
        found.language matches Some(language) ==> candidates(detector).contains(language)),
        StructuredCall::DetectLanguageConfidence(_) => reply matches StructuredReply::Confidence(
            ranked,
        ) && is_ranking(ranked.languages@, candidates(detector)),
    }
}

/// The body that carries a reply once it is encoded, or the failure that
/// stands in its place.
pub open spec fn carried(encoded: Result<Vec<u8>, Status>) -> (
    Seq<Result<Seq<u8>, StatusModel>>,
    Option<StatusModel>,
) {
    match encoded {
        Ok(message) => (
            seq![Ok::<Seq<u8>, StatusModel>(message@)],
            Some((STATUS_OK, Seq::<char>::empty())),
        ),
        Err(status) => (Seq::<Result<Seq<u8>, StatusModel>>::empty(), Some(status.model())),
    }
}

/// The handler of the RPC protocol. It holds the detector, which it shares
/// with whoever else holds it and never changes.
pub struct StructuredHandler {
    pub detector: Arc<LanguageDetector>,
}

impl StructuredHandler {
    /// A handler that consults `detector`.
    pub fn new(detector: Arc<LanguageDetector>) -> (handler: StructuredHandler)
        ensures
            handler.detector == detector,
    {
        StructuredHandler { detector }
    }

    /// `DetectLanguage`: the language of the text, if the detector finds one.
    pub fn detect_language(&self, request: &LanguageRequest) -> (reply: LanguageReply)
        ensures
            reply.language matches Some(language) ==> candidates(*self.detector).contains(
                language,
            ),
    {
        LanguageReply::reporting(classify(&self.detector, request.text.as_str()))
    }

    /// `DetectLanguageConfidence`: every candidate language with its
    /// confidence, the most likely first.
    pub fn detect_language_confidence(&self, request: &LanguageRequest) -> (reply: ConfidenceReply)
        ensures
            is_ranking(reply.languages@, candidates(*self.detector)),
    {
        ConfidenceReply {
            languages: classify_with_confidence(&self.detector, request.text.as_str()),
        }
    }

    /// Answers what the transport delivered. A call is answered by its
    /// operation and never fails; a failure of the transport comes back as it
    /// is.
    pub fn serve(&self, incoming: Result<StructuredCall, Status>) -> (outgoing: Result<
        StructuredReply,
        Status,
    >)
        ensures
            match incoming {
                Ok(call) => outgoing matches Ok(reply) && answers(*self.detector, call, reply),
                Err(failure) => outgoing matches Err(status) && status == failure,
            },
    {
        match incoming {
            Ok(StructuredCall::DetectLanguage(request)) => Ok(
                StructuredReply::Language(self.detect_language(&request)),
            ),
            Ok(StructuredCall::DetectLanguageConfidence(request)) => Ok(
                StructuredReply::Confidence(self.detect_language_confidence(&request)),
            ),
            Err(failure) => Err(failure),
        }
    }
}

/// The body of the reply to a call: the encoded message, closed by the status
/// of success, or nothing but the status of the failure.
pub fn reply_body(encoded: Result<Vec<u8>, Status>) -> (body: StructuredBody)
    ensures
        body.pending() == carried(encoded).0,
        body.trailers() == carried(encoded).1,
{
    match encoded {
        Ok(message) => StructuredBody::unary(
            message,
            Status { code: STATUS_OK, message: String::new() },
        ),
        Err(status) => StructuredBody::status_only(status),
    }
}

impl LanguageReply {
    /// The reply that reports a finding of the detector: the language that
    /// was found, or none.
    pub fn reporting(found: Option<Language>) -> (reply: LanguageReply)
        ensures
            reply.language == found,
    {
        LanguageReply { language: found }
    }
}

/// The two operations of the protocol.
#[derive(Clone, Copy, Debug, PartialEq, Eq, Structural)]
pub enum Operation {
    DetectLanguage,
    DetectLanguageConfidence,
}

/// The status code of a call of an operation that is not served.
pub const STATUS_UNIMPLEMENTED: u32 = 12;

/// The operation that the path of a call names.
pub open spec fn operation_named(path: Seq<char>) -> Option<Operation> {
    if path == "/language.LanguageService/DetectLanguage"@ {
        Some(Operation::DetectLanguage)
    } else if path == "/language.LanguageService/DetectLanguageConfidence"@ {
        Some(Operation::DetectLanguageConfidence)
    } else {
        None
    }
}

/// The call that a path and a message make, or the status that refuses a
/// path which names no operation.
pub open spec fn call_made(path: Seq<char>, request: LanguageRequest) -> Result<
    StructuredCall,
    StatusModel,
> {
    match operation_named(path) {
        Some(Operation::DetectLanguage) => Ok(StructuredCall::DetectLanguage(request)),
        Some(Operation::DetectLanguageConfidence) => Ok(
            StructuredCall::DetectLanguageConfidence(request),
        ),
        None => Err((STATUS_UNIMPLEMENTED, "the operation is not served"@)),
    }
}

/// The operation that the path of a call names, if any.
pub fn operation(path: &str) -> (named: Option<Operation>)
    ensures
        named == operation_named(path@),
{
    if str_eq(path, "/language.LanguageService/DetectLanguage") {
        Some(Operation::DetectLanguage)
    } else if str_eq(path, "/language.LanguageService/DetectLanguageConfidence") {
        Some(Operation::DetectLanguageConfidence)
    } else {
        None
    }
}

/// The path that names an operation.
pub fn path_of(operation: Operation) -> (path: &'static str)
    ensures
        operation_named(path@) == Some(operation),
{
    match operation {
        Operation::DetectLanguage => "/language.LanguageService/DetectLanguage",
        Operation::DetectLanguageConfidence => {
            let path = "/language.LanguageService/DetectLanguageConfidence";
            proof {
                reveal_strlit("/language.LanguageService/DetectLanguage");
                reveal_strlit("/language.LanguageService/DetectLanguageConfidence");
                assert("/language.LanguageService/DetectLanguage"@.len() == 40);
                assert(path@.len() == 50);
            }
            path
        },
    }
}

/// Makes the call that `serve` answers from the path and the message of a
/// request. A path that names no operation gives the status that refuses it,
/// which `serve` hands back.
pub fn call_of(path: &str, request: LanguageRequest) -> (call: Result<StructuredCall, Status>)
    ensures
        match call_made(path@, request) {
            Ok(made) => call == Ok::<StructuredCall, Status>(made),
            Err(refusal) => call matches Err(status) && status.model() == refusal,
        },
{
    match operation(path) {
        Some(Operation::DetectLanguage) => Ok(StructuredCall::DetectLanguage(request)),
        Some(Operation::DetectLanguageConfidence) => Ok(
            StructuredCall::DetectLanguageConfidence(request),
        ),
        None => Err(
            Status {
                code: STATUS_UNIMPLEMENTED,
                message: "the operation is not served".to_owned(),
            },
        ),
    }
}

} // verus!
