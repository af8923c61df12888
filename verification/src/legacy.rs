//! The handler of the text protocol: `GET /detectLanguage`, `POST /detect`
//! and `POST /confidence`.
//!
//! A request is judged in two steps. `check_head` looks at the head alone and
//! refuses what cannot be served before any of the body is read; `body_text`
//! then finds the text in the body. Only a request that passed both reaches
//! the detector.
use vstd::prelude::*;
use vstd::utf8::decode_utf8;
use vstd::utf8::encode_utf8;
use vstd::utf8::valid_utf8;
use lingua::Language;
use lingua::LanguageDetector;
use serde_json::Error as JsonError;
use serde_json::Value;
use std::sync::Arc;
use crate::detect::candidates;
use crate::detect::classify;
use crate::detect::classify_with_confidence;
use crate::detect::is_ranking;
use crate::detect::ScoreEntry;
use crate::text::str_eq;

verus! {

#[verifier::external_type_specification]
#[verifier::external_body]
pub struct ExUtf8Error(std::str::Utf8Error);

#[verifier::external_type_specification]
#[verifier::external_body]
pub struct ExJsonError(JsonError);

#[verifier::external_type_specification]
#[verifier::external_body]
pub struct ExJsonValue(Value);

/// Largest request body that is accepted, in bytes: 16 KiB.
pub const MAX_BODY_BYTES: u64 = 16384;

/// The request method, as far as the handler tells methods apart.
#[derive(Clone, Copy, Debug, PartialEq, Eq, Structural)]
pub enum Method {
    Get,
    Post,
    Other,
}

/// The three things the text protocol can be asked for.
#[derive(Clone, Copy, Debug, PartialEq, Eq, Structural)]
pub enum Endpoint {
    /// `GET /detectLanguage?text=..`: the language's name as plain text.
    DetectLanguage,
    /// `POST /detect`: the language as JSON, `null` if none was found.
    Detect,
    /// `POST /confidence`: every candidate language with its confidence.
    Confidence,
}

/// Why a request is refused without being served.
#[derive(Clone, Copy, Debug, PartialEq, Eq, Structural)]
pub enum ValidationError {
    /// Method and path name none of the endpoints.
    UnknownEndpoint,
    /// The text to examine was not given.
    MissingText,
    /// A body is expected and its length was not declared.
    LengthRequired,
    /// The body is larger than `MAX_BODY_BYTES`.
    BodyTooLarge,
    /// The body is not UTF-8.
    NotUtf8,
}

/// What kind of content a reply carries.
#[derive(Clone, Copy, Debug, PartialEq, Eq, Structural)]
pub enum ContentKind {
    Text,
    Json,
}

/// What is known of a request before its body is read. `text` is the `text`
/// parameter of the query string, already decoded, if the query has one.
#[derive(Clone, Debug, PartialEq, Eq)]
pub struct RequestHead {
    pub method: Method,
    pub path: String,
    pub text: Option<String>,
    pub content_length: Option<u64>,
}

/// A request of the text protocol with its body.
#[derive(Clone, Debug, PartialEq, Eq)]
pub struct LegacyRequest {
    pub head: RequestHead,
    pub body: Vec<u8>,
}

/// A reply of the text protocol.
#[derive(Clone, Debug, PartialEq, Eq)]
pub struct LegacyResponse {
    pub status: u16,
    pub content: ContentKind,
    pub body: Vec<u8>,
}

/// A reply as a value.
pub struct ResponseModel {
    pub status: u16,
    pub content: ContentKind,
    pub body: Seq<u8>,
}

impl View for LegacyResponse {
    type V = ResponseModel;

    open spec fn view(&self) -> ResponseModel {
        ResponseModel { status: self.status, content: self.content, body: self.body@ }
    }
}

/// What the handler did with a request: it answered, or it ranked the
/// candidate languages and leaves it to the caller to write the ranking down.
#[derive(Clone, Debug, PartialEq, Eq)]
pub enum LegacyOutcome {
    Respond(LegacyResponse),
    Rank(Vec<ScoreEntry>),
}

/// The name under which a language is written in text replies.
pub uninterp spec fn language_tag(language: Language) -> Seq<char>;

/// The name under which a language is written in JSON, as it stands between
/// the quotes.
pub uninterp spec fn language_json_name(language: Language) -> Seq<char>;

/// The JSON value that a text stands for, if it is JSON.
pub uninterp spec fn json_value(text: Seq<char>) -> Option<Value>;

/// Whether a JSON value is an object.
pub uninterp spec fn json_is_object(value: Value) -> bool;

/// What a JSON value holds under a name, if it is an object that has the
/// name.
pub uninterp spec fn json_member(value: Value, name: Seq<char>) -> Option<Value>;

/// The string that a JSON value is, if it is a string.
pub uninterp spec fn json_string(value: Value) -> Option<Seq<char>>;

/// What was found when a body was read as JSON and looked into for a name.
#[derive(Clone, Debug, PartialEq, Eq)]
pub enum JsonField {
    /// The body is not JSON.
    NotJson,
    /// The body is JSON, but not an object.
    NotObject,
    /// The body is an object without the name.
    Absent,
    /// The body is an object that holds something other than a string under
    /// the name.
    NotText,
    /// The body is an object that holds this string under the name.
    Text(String),
}

/// What was found in a body, as a value.
pub enum FieldModel {
    NotJson,
    NotObject,
    Absent,
    NotText,
    Text(Seq<char>),
}

impl View for JsonField {
    type V = FieldModel;

    open spec fn view(&self) -> FieldModel {
        match self {
            JsonField::NotJson => FieldModel::NotJson,
            JsonField::NotObject => FieldModel::NotObject,
            JsonField::Absent => FieldModel::Absent,
            JsonField::NotText => FieldModel::NotText,
            JsonField::Text(text) => FieldModel::Text(text@),
        }
    }
}

/// What a body holds under a name when it is read as JSON.
pub open spec fn field_in(body: Seq<char>, name: Seq<char>) -> FieldModel {
    match json_value(body) {
        None => FieldModel::NotJson,
        Some(value) => if !json_is_object(value) {
            FieldModel::NotObject
        } else {
            match json_member(value, name) {
                None => FieldModel::Absent,
                Some(held) => match json_string(held) {
                    None => FieldModel::NotText,
                    Some(text) => FieldModel::Text(text),
                },
            }
        },
    }
}

/// The endpoint that a method and a path name.
pub open spec fn endpoint_of(method: Method, path: Seq<char>) -> Option<Endpoint> {
    if method == Method::Get && path == "/detectLanguage"@ {
        Some(Endpoint::DetectLanguage)
    } else if method == Method::Post && path == "/detect"@ {
        Some(Endpoint::Detect)
    } else if method == Method::Post && path == "/confidence"@ {
        Some(Endpoint::Confidence)
    } else {
        None
    }
}

/// The judgement on the head of a request. `GET /detectLanguage` needs its
/// `text` parameter. The two `POST` endpoints need a declared body length of
/// at most `MAX_BODY_BYTES`.
pub open spec fn admission(head: RequestHead) -> Result<Endpoint, ValidationError> {
    match endpoint_of(head.method, head.path@) {
        None => Err(ValidationError::UnknownEndpoint),
        Some(Endpoint::DetectLanguage) => if head.text.is_none() {
            Err(ValidationError::MissingText)
        } else {
            Ok(Endpoint::DetectLanguage)
        },
        Some(endpoint) => match head.content_length {
            None => Err(ValidationError::LengthRequired),
            Some(length) => if length > MAX_BODY_BYTES {
                Err(ValidationError::BodyTooLarge)
            } else {
                Ok(endpoint)
            },
        },
    }
}

/// The text that a body stands for, given the body as text and what it
/// holds under `text`. A JSON object gives the string under `text`, and is
/// refused if it has none; any other body is the text itself, and is refused
/// when empty.
pub open spec fn text_in_body(raw: Seq<char>, field: FieldModel) -> Result<
    Seq<char>,
    ValidationError,
> {
    match field {
        FieldModel::Text(text) => Ok(text),
        FieldModel::Absent => Err(ValidationError::MissingText),
        FieldModel::NotText => Err(ValidationError::MissingText),
        FieldModel::NotJson | FieldModel::NotObject => if raw.len() == 0 {
            Err(ValidationError::MissingText)
        } else {
            Ok(raw)
        },
    }
}

/// The text that the bytes of a body stand for.
pub open spec fn body_text_of(body: Seq<u8>) -> Result<Seq<char>, ValidationError> {
    if body.len() > MAX_BODY_BYTES {
        Err(ValidationError::BodyTooLarge)
    } else if !valid_utf8(body) {
        Err(ValidationError::NotUtf8)
    } else {
        text_in_body(decode_utf8(body), field_in(decode_utf8(body), "text"@))
    }
}

/// The endpoint and the text of a request that is served, or why it is not.
pub open spec fn accepted(request: LegacyRequest) -> Result<
    (Endpoint, Seq<char>),
    ValidationError,
> {
    match admission(request.head) {
        Err(error) => Err(error),
        Ok(Endpoint::DetectLanguage) => match request.head.text {
            Some(text) => Ok((Endpoint::DetectLanguage, text@)),
            None => Err(ValidationError::MissingText),
        },
        Ok(endpoint) => match body_text_of(request.body@) {
            Err(error) => Err(error),
            Ok(text) => Ok((endpoint, text)),
        },
    }
}

/// The status code of the reply to a refused request.
pub open spec fn rejection_status(error: ValidationError) -> u16 {
    match error {
        ValidationError::UnknownEndpoint => 404,
        ValidationError::MissingText => 400,
        ValidationError::LengthRequired => 411,
        ValidationError::BodyTooLarge => 413,
        ValidationError::NotUtf8 => 400,
    }
}

/// The message in the reply to a refused request.
pub open spec fn rejection_text(error: ValidationError) -> Seq<char> {
    match error {
        ValidationError::UnknownEndpoint => "no such endpoint"@,
        ValidationError::MissingText => "the text to examine is missing"@,
        ValidationError::LengthRequired => "a content length is required"@,
        ValidationError::BodyTooLarge => "the request body is too large"@,
        ValidationError::NotUtf8 => "the request body is not UTF-8"@,
    }
}

/// The reply to a refused request.
pub open spec fn rejection(error: ValidationError) -> ResponseModel {
    ResponseModel {
        status: rejection_status(error),
        content: ContentKind::Text,
        body: encode_utf8(rejection_text(error)),
    }
}

/// What `GET /detectLanguage` says of a finding: the language's name, or the
/// word `None`.
pub open spec fn tag_text(found: Option<Language>) -> Seq<char> {
    match found {
        Some(language) => language_tag(language),
        None => "None"@,
    }
}

/// The reply of `GET /detectLanguage`.
pub open spec fn tag_reply(found: Option<Language>) -> ResponseModel {
    ResponseModel { status: 200, content: ContentKind::Text, body: encode_utf8(tag_text(found)) }
}

/// A finding as JSON text: `null`, or the language's name as a JSON string.
pub open spec fn language_json(found: Option<Language>) -> Seq<u8> {
    match found {
        Some(language) => encode_utf8(seq!['"'] + language_json_name(language) + seq!['"']),
        None => encode_utf8("null"@),
    }
}

/// A reply that carries JSON.
pub open spec fn json_reply(json: Seq<u8>) -> ResponseModel {
    ResponseModel { status: 200, content: ContentKind::Json, body: json }
}

/// The reply when a result could not be written as JSON.
pub open spec fn encoding_failure() -> ResponseModel {
    ResponseModel { status: 500, content: ContentKind::Text, body: Seq::<u8>::empty() }
}

/// A finding that `detector` can come to: nothing, or one of its languages.
pub open spec fn may_find(detector: LanguageDetector, found: Option<Language>) -> bool {
    found matches Some(language) ==> candidates(detector).contains(language)
}

/// What serving `endpoint` with `detector` may come to. The two endpoints
/// that name one language answer with a finding of the detector;
/// `POST /confidence` hands out a ranking of the detector's languages.
pub open spec fn serves(
    detector: LanguageDetector,
    endpoint: Endpoint,
    outcome: LegacyOutcome,
) -> bool {
    match endpoint {
        Endpoint::DetectLanguage => outcome matches LegacyOutcome::Respond(response)
            && exists|found: Option<Language>| #[trigger]
            may_find(detector, found) && response@ == tag_reply(found),
        Endpoint::Detect => outcome matches LegacyOutcome::Respond(response)
            && exists|found: Option<Language>| #[trigger]
            may_find(detector, found) && response@ == json_reply(language_json(found)),
        Endpoint::Confidence => outcome matches LegacyOutcome::Rank(entries) && is_ranking(
            entries@,
            candidates(detector),
        ),
    }
}

/// A text or a refusal, as a value.
pub open spec fn text_model(text: Result<String, ValidationError>) -> Result<
    Seq<char>,
    ValidationError,
> {
    match text {
        Ok(text) => Ok(text@),
        Err(error) => Err(error),
    }
}

/// `std::str::from_utf8` accepts exactly the byte sequences that are valid
/// UTF-8 and reads them as the characters they encode.
pub assume_specification[ std::str::from_utf8 ](v: &[u8]) -> (text: Result<
    &str,
    std::str::Utf8Error,
>)
    ensures
        text.is_ok() == valid_utf8(v@),
        text matches Ok(decoded) ==> decoded@ == decode_utf8(v@),
;

/// Calls `serde_json::from_str` to read a text as a JSON value. Whether the
/// text is JSON, and which value it stands for, depends on the text alone.
#[verifier::external_body]
fn parse_json(text: &str) -> (parsed: Result<Value, JsonError>)
    ensures
        parsed.is_ok() == json_value(text@).is_some(),
        parsed matches Ok(value) ==> json_value(text@) == Some(value),
{
    serde_json::from_str(text)
}

/// Calls `Value::is_object`, which tells whether a JSON value is an object.
#[verifier::external_body]
fn is_object(value: &Value) -> (yes: bool)
    ensures
        yes == json_is_object(*value),
{
    value.is_object()
}

/// Calls `Value::get` with a name. It gives what an object holds under the
/// name, and nothing for an object without the name or for a value that is
/// no object.
#[verifier::external_body]
fn member<'a>(value: &'a Value, name: &str) -> (held: Option<&'a Value>)
    ensures
        held.is_some() == json_member(*value, name@).is_some(),
        held matches Some(inner) ==> json_member(*value, name@) == Some(*inner),
{
    value.get(name)
}

/// Calls `Value::as_str`, which gives the string that a JSON value is, and
/// nothing for a value of another kind.
#[verifier::external_body]
fn string_of(value: &Value) -> (text: Option<String>)
    ensures
        text.is_some() == json_string(*value).is_some(),
        text matches Some(held) ==> json_string(*value) == Some(held@),
{
    value.as_str().map(String::from)
}

/// Calls `Language::to_string`, which writes the language's name.
#[verifier::external_body]
fn tag_of(language: Language) -> (tag: String)
    ensures
        tag@ == language_tag(language),
{
    language.to_string()
}

/// Calls `serde_json::to_vec` on an optional language. It writes into a
/// vector, which takes every byte, and neither `null` nor the name of a
/// language can be refused, so it succeeds. It writes `null` for no language
/// and, for a language, a JSON string: the language's name between quotes.
#[verifier::external_body]
fn encode_language(found: Option<Language>) -> (encoded: Result<Vec<u8>, JsonError>)
    ensures
        encoded.is_ok(),
        encoded matches Ok(json) ==> json@ == match found {
            Some(language) => encode_utf8(seq!['"'] + language_json_name(language) + seq!['"']),
            None => encode_utf8("null"@),
        },
{
    serde_json::to_vec(&found)
}

/// The endpoint that a method and a path name, if any.
pub fn endpoint(method: Method, path: &str) -> (named: Option<Endpoint>)
    ensures
        named == endpoint_of(method, path@),
{
    match method {
        Method::Get => if str_eq(path, "/detectLanguage") {
            Some(Endpoint::DetectLanguage)
        } else {
            None
        },
        Method::Post => if str_eq(path, "/detect") {
            Some(Endpoint::Detect)
        } else if str_eq(path, "/confidence") {
            Some(Endpoint::Confidence)
        } else {
            None
        },
        Method::Other => None,
    }
}

/// Judges a request by its head, before any of its body is read.
pub fn check_head(head: &RequestHead) -> (judged: Result<Endpoint, ValidationError>)
    ensures
        judged == admission(*head),
{
    match endpoint(head.method, head.path.as_str()) {
        None => Err(ValidationError::UnknownEndpoint),
        Some(Endpoint::DetectLanguage) => if head.text.is_none() {
            Err(ValidationError::MissingText)
        } else {
            Ok(Endpoint::DetectLanguage)
        },
        Some(named) => match head.content_length {
            None => Err(ValidationError::LengthRequired),
            Some(length) => if length > MAX_BODY_BYTES {
                Err(ValidationError::BodyTooLarge)
            } else {
                Ok(named)
            },
        },
    }
}

/// Reads a body as JSON and looks into it for a name.
pub fn inspect(body: &str, name: &str) -> (found: JsonField)
    ensures
        found@ == field_in(body@, name@),
{
    match parse_json(body) {
        Err(_) => JsonField::NotJson,
        Ok(value) => if !is_object(&value) {
            JsonField::NotObject
        } else {
            match member(&value, name) {
                None => JsonField::Absent,
                Some(held) => match string_of(held) {
                    None => JsonField::NotText,
                    Some(text) => JsonField::Text(text),
                },
            }
        },
    }
}

/// The text that a body stands for, given the body as text and what was found
/// under `text` in it.
pub fn choose_text(raw: &str, field: JsonField) -> (text: Result<String, ValidationError>)
    ensures
        text_model(text) == text_in_body(raw@, field@),
{
    match field {
        JsonField::Text(text) => Ok(text),
        JsonField::Absent => Err(ValidationError::MissingText),
        JsonField::NotText => Err(ValidationError::MissingText),
        JsonField::NotJson | JsonField::NotObject => if raw.is_empty() {
            Err(ValidationError::MissingText)
        } else {
            Ok(raw.to_owned())
        },
    }
}

/// Finds the text in the bytes of a body.
pub fn body_text(body: &[u8]) -> (text: Result<String, ValidationError>)
    ensures
        text_model(text) == body_text_of(body@),
{
    if body.len() as u64 > MAX_BODY_BYTES {
        return Err(ValidationError::BodyTooLarge);
    }
    match std::str::from_utf8(body) {
        Err(_) => Err(ValidationError::NotUtf8),
        Ok(raw) => {
            let field = inspect(raw, "text");
            choose_text(raw, field)
        },
    }
}

/// The status code of the reply to a refused request.
pub fn status_of(error: ValidationError) -> (status: u16)
    ensures
        status == rejection_status(error),
{
    match error {
        ValidationError::UnknownEndpoint => 404,
        ValidationError::MissingText => 400,
        ValidationError::LengthRequired => 411,
        ValidationError::BodyTooLarge => 413,
        ValidationError::NotUtf8 => 400,
    }
}

/// The message in the reply to a refused request.
pub fn message_of(error: ValidationError) -> (message: &'static str)
    ensures
        message@ == rejection_text(error),
{
    match error {
        ValidationError::UnknownEndpoint => "no such endpoint",
        ValidationError::MissingText => "the text to examine is missing",
        ValidationError::LengthRequired => "a content length is required",
        ValidationError::BodyTooLarge => "the request body is too large",
        ValidationError::NotUtf8 => "the request body is not UTF-8",
    }
}

/// The reply to a refused request: a client error that says what is wrong.
pub fn reject(error: ValidationError) -> (response: LegacyResponse)
    ensures
        response@ == rejection(error),
{
    LegacyResponse {
        status: status_of(error),
        content: ContentKind::Text,
        body: message_of(error).as_bytes_vec(),
    }
}

/// The reply of `GET /detectLanguage` to a finding.
pub fn tag_response(found: Option<Language>) -> (response: LegacyResponse)
    ensures
        response@ == tag_reply(found),
{
    let body = match found {
        Some(language) => tag_of(language).as_str().as_bytes_vec(),
        None => "None".as_bytes_vec(),
    };
    LegacyResponse { status: 200, content: ContentKind::Text, body }
}

/// The reply that carries a result written as JSON, or reports that it could
/// not be written.
pub fn json_response<E>(encoded: Result<Vec<u8>, E>) -> (response: LegacyResponse)
    ensures
        response@ == match encoded {
            Ok(json) => json_reply(json@),
            Err(_) => encoding_failure(),
        },
{
    match encoded {
        Ok(json) => LegacyResponse { status: 200, content: ContentKind::Json, body: json },
        Err(_) => LegacyResponse { status: 500, content: ContentKind::Text, body: Vec::new() },
    }
}

/// The reply of `POST /detect` to a finding.
pub fn detected_response(found: Option<Language>) -> (response: LegacyResponse)
    ensures
        response@ == json_reply(language_json(found)),
{
    json_response(encode_language(found))
}

/// Judges a whole request, head first, and finds its text. The detector has
/// no part in this.
pub fn accept(request: &LegacyRequest) -> (judged: Result<(Endpoint, String), ValidationError>)
    ensures
        match accepted(*request) {
            Ok((endpoint, text)) => judged matches Ok((named, found)) && named == endpoint
                && found@ == text,
            Err(error) => judged matches Err(refusal) && refusal == error,
        },
{
    match check_head(&request.head) {
        Err(error) => Err(error),
        Ok(Endpoint::DetectLanguage) => match &request.head.text {
            Some(text) => Ok((Endpoint::DetectLanguage, text.clone())),
            None => Err(ValidationError::MissingText),
        },
        Ok(named) => match body_text(request.body.as_slice()) {
            Err(error) => Err(error),
            Ok(text) => Ok((named, text)),
        },
    }
}

/// The handler of the text protocol. It holds the detector, which it shares
/// with whoever else holds it and never changes.
pub struct LegacyHandler {
    pub detector: Arc<LanguageDetector>,
}

impl LegacyHandler {
    /// A handler that consults `detector`.
    pub fn new(detector: Arc<LanguageDetector>) -> (handler: LegacyHandler)
        ensures
            handler.detector == detector,
    {
        LegacyHandler { detector }
    }

    /// Serves an endpoint with the text that was found for it.
    pub fn respond(&self, endpoint: Endpoint, text: &str) -> (outcome: LegacyOutcome)
        ensures
            serves(*self.detector, endpoint, outcome),
    {
        match endpoint {
            Endpoint::DetectLanguage => {
                let found = classify(&self.detector, text);
                assert(may_find(*self.detector, found));
                LegacyOutcome::Respond(tag_response(found))
            },
            Endpoint::Detect => {
                let found = classify(&self.detector, text);
                assert(may_find(*self.detector, found));
                LegacyOutcome::Respond(detected_response(found))
            },
            Endpoint::Confidence => LegacyOutcome::Rank(
                classify_with_confidence(&self.detector, text),
            ),
        }
    }

    /// Serves a request. One that `accepted` refuses is answered with the
    /// refusal, whatever the detector would have found; any other is answered
    /// by its endpoint from what the detector finds in its text.
    pub fn handle(&self, request: &LegacyRequest) -> (outcome: LegacyOutcome)
        ensures
            match accepted(*request) {
                Err(error) => outcome matches LegacyOutcome::Respond(response) && response@
                    == rejection(error),
                Ok((endpoint, _)) => serves(*self.detector, endpoint, outcome),
            },
    {
        match accept(request) {
            Err(error) => LegacyOutcome::Respond(reject(error)),
            Ok((endpoint, text)) => self.respond(endpoint, text.as_str()),
        }
    }
}

/// Whether a request comes without the text it needs: `GET /detectLanguage`
/// without a `text` parameter; a `POST` whose body is a JSON object without a
/// string under `text`, or is empty.
pub open spec fn lacks_text(request: LegacyRequest) -> bool {
    match endpoint_of(request.head.method, request.head.path@) {
        None => false,
        Some(Endpoint::DetectLanguage) => request.head.text.is_none(),
        Some(_) => valid_utf8(request.body@) && text_in_body(
            decode_utf8(request.body@),
            field_in(decode_utf8(request.body@), "text"@),
        ).is_err(),
    }
}

/// Whether a request has a body above the limit, by what it declares or by
/// what it holds.
pub open spec fn oversized(request: LegacyRequest) -> bool {
    &&& endpoint_of(request.head.method, request.head.path@) matches Some(endpoint)
    &&& endpoint != Endpoint::DetectLanguage
    &&& (request.head.content_length matches Some(length) && length > MAX_BODY_BYTES)
        || request.body@.len() > MAX_BODY_BYTES
}

/// A request without the text it needs is refused. `accept`, which decides
/// this, has no detector to ask, and the reply of `handle` to a refused
/// request is the refusal and nothing else.
pub proof fn lemma_missing_text_is_refused(request: LegacyRequest)
    requires
        lacks_text(request),
    ensures
        accepted(request).is_err(),
        admission(request.head).is_ok() && request.body@.len() <= MAX_BODY_BYTES ==> accepted(
            request,
        ) == Err::<(Endpoint, Seq<char>), ValidationError>(ValidationError::MissingText),
{
}

/// A request whose body is above the limit is refused. Where the head
/// declares the excess, the head alone settles it: `check_head` refuses the
/// request whatever the body holds, so none of the body need be read.
pub proof fn lemma_oversized_body_is_refused(request: LegacyRequest)
    requires
        oversized(request),
    ensures
        accepted(request).is_err(),
        request.head.content_length matches Some(length) && length > MAX_BODY_BYTES ==> admission(
            request.head,
        ) == Err::<Endpoint, ValidationError>(ValidationError::BodyTooLarge),
        admission(request.head).is_ok() ==> accepted(request) == Err::<
            (Endpoint, Seq<char>),
            ValidationError,
        >(ValidationError::BodyTooLarge),
{
}

} // verus!
