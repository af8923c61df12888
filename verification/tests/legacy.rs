use std::sync::Arc;

use language_api::detect::FULL_CONFIDENCE;
use language_api::legacy::{
    accept, body_text, check_head, choose_text, detected_response, endpoint, inspect,
    json_response, message_of, reject, status_of, tag_response, ContentKind, Endpoint, JsonField,
    LegacyHandler, LegacyOutcome, LegacyRequest, LegacyResponse, Method, RequestHead,
    ValidationError, MAX_BODY_BYTES,
};
use lingua::{Language, LanguageDetectorBuilder};

fn handler() -> LegacyHandler {
    LegacyHandler::new(Arc::new(
        LanguageDetectorBuilder::from_languages(&[
            Language::English,
            Language::French,
            Language::German,
            Language::Spanish,
            Language::Turkish,
        ])
        .build(),
    ))
}

fn get(path: &str, text: Option<&str>) -> LegacyRequest {
    LegacyRequest {
        head: RequestHead {
            method: Method::Get,
            path: String::from(path),
            text: text.map(String::from),
            content_length: None,
        },
        body: Vec::new(),
    }
}

fn post(path: &str, body: &[u8]) -> LegacyRequest {
    LegacyRequest {
        head: RequestHead {
            method: Method::Post,
            path: String::from(path),
            text: None,
            content_length: Some(body.len() as u64),
        },
        body: body.to_vec(),
    }
}

fn response(outcome: LegacyOutcome) -> LegacyResponse {
    match outcome {
        LegacyOutcome::Respond(response) => response,
        LegacyOutcome::Rank(_) => panic!("a reply was expected"),
    }
}

#[test]
fn the_limit_is_sixteen_kibibytes() {
    assert_eq!(MAX_BODY_BYTES, 16 * 1024);
}

#[test]
fn endpoints_are_named_by_method_and_path() {
    assert_eq!(endpoint(Method::Get, "/detectLanguage"), Some(Endpoint::DetectLanguage));
    assert_eq!(endpoint(Method::Post, "/detect"), Some(Endpoint::Detect));
    assert_eq!(endpoint(Method::Post, "/confidence"), Some(Endpoint::Confidence));
    assert_eq!(endpoint(Method::Post, "/detectLanguage"), None);
    assert_eq!(endpoint(Method::Get, "/detect"), None);
    assert_eq!(endpoint(Method::Get, "/confidence"), None);
    assert_eq!(endpoint(Method::Other, "/detect"), None);
    assert_eq!(endpoint(Method::Post, "/detect/"), None);
    assert_eq!(endpoint(Method::Post, "/Detect"), None);
    assert_eq!(endpoint(Method::Get, "/"), None);
    assert_eq!(endpoint(Method::Get, ""), None);
}

#[test]
fn head_of_a_get_needs_its_text() {
    assert_eq!(
        check_head(&get("/detectLanguage", None).head),
        Err(ValidationError::MissingText)
    );
    assert_eq!(
        check_head(&get("/detectLanguage", Some("hello")).head),
        Ok(Endpoint::DetectLanguage)
    );
    assert_eq!(check_head(&get("/detectLanguage", Some("")).head), Ok(Endpoint::DetectLanguage));
}

#[test]
fn head_of_a_post_needs_a_length_within_the_limit() {
    let mut head = post("/detect", b"hello").head;
    assert_eq!(check_head(&head), Ok(Endpoint::Detect));
    head.content_length = None;
    assert_eq!(check_head(&head), Err(ValidationError::LengthRequired));
    head.content_length = Some(16384);
    assert_eq!(check_head(&head), Ok(Endpoint::Detect));
    head.content_length = Some(16385);
    assert_eq!(check_head(&head), Err(ValidationError::BodyTooLarge));
    head.content_length = Some(u64::MAX);
    assert_eq!(check_head(&head), Err(ValidationError::BodyTooLarge));
    head.content_length = Some(0);
    assert_eq!(check_head(&head), Ok(Endpoint::Detect));
    head.path = String::from("/confidence");
    assert_eq!(check_head(&head), Ok(Endpoint::Confidence));
}

#[test]
fn head_of_an_unknown_endpoint_is_refused() {
    assert_eq!(check_head(&get("/nowhere", Some("x")).head), Err(ValidationError::UnknownEndpoint));
    assert_eq!(check_head(&post("/detectLanguage", b"x").head), Err(ValidationError::UnknownEndpoint));
}

#[test]
fn inspect_tells_what_a_body_holds_under_a_name() {
    assert_eq!(inspect("{not json", "text"), JsonField::NotJson);
    assert_eq!(inspect("", "text"), JsonField::NotJson);
    assert_eq!(inspect("bonjour", "text"), JsonField::NotJson);
    assert_eq!(inspect("{\"text\":\"a\"} trailing", "text"), JsonField::NotJson);
    assert_eq!(inspect("[1, 2]", "text"), JsonField::NotObject);
    assert_eq!(inspect("\"text\"", "text"), JsonField::NotObject);
    assert_eq!(inspect("42", "text"), JsonField::NotObject);
    assert_eq!(inspect("null", "text"), JsonField::NotObject);
    assert_eq!(inspect("true", "text"), JsonField::NotObject);
    assert_eq!(inspect("{}", "text"), JsonField::Absent);
    assert_eq!(inspect("{\"texts\": \"x\"}", "text"), JsonField::Absent);
    assert_eq!(inspect("{\"Text\": \"x\"}", "text"), JsonField::Absent);
    assert_eq!(inspect("{\"text\": 5}", "text"), JsonField::NotText);
    assert_eq!(inspect("{\"text\": null}", "text"), JsonField::NotText);
    assert_eq!(inspect("{\"text\": [\"x\"]}", "text"), JsonField::NotText);
    assert_eq!(inspect("{\"text\": {\"text\": \"x\"}}", "text"), JsonField::NotText);
    assert_eq!(inspect("{\"text\": \"bonjour\"}", "text"), JsonField::Text(String::from("bonjour")));
    assert_eq!(inspect("{\"text\": \"\"}", "text"), JsonField::Text(String::new()));
    assert_eq!(inspect("{\"a\": \"x\", \"b\": \"y\"}", "b"), JsonField::Text(String::from("y")));
    assert_eq!(inspect("{\"text\": \"one\", \"text\": \"two\"}", "text"), JsonField::Text(String::from("two")));
}

#[test]
fn choose_text_prefers_the_json_field() {
    assert_eq!(
        choose_text("{\"text\":\"bonjour\"}", JsonField::Text(String::from("bonjour"))),
        Ok(String::from("bonjour"))
    );
    assert_eq!(choose_text("", JsonField::Text(String::new())), Ok(String::new()));
    assert_eq!(choose_text("{}", JsonField::Absent), Err(ValidationError::MissingText));
    assert_eq!(choose_text("{\"text\":5}", JsonField::NotText), Err(ValidationError::MissingText));
    assert_eq!(choose_text("bonjour", JsonField::NotJson), Ok(String::from("bonjour")));
    assert_eq!(choose_text("[1]", JsonField::NotObject), Ok(String::from("[1]")));
    assert_eq!(choose_text("", JsonField::NotJson), Err(ValidationError::MissingText));
    assert_eq!(choose_text("", JsonField::NotObject), Err(ValidationError::MissingText));
}

#[test]
fn body_text_reads_raw_text() {
    assert_eq!(body_text("bisous et l'étreinte".as_bytes()), Ok(String::from("bisous et l'étreinte")));
    assert_eq!(body_text(b"{not json"), Ok(String::from("{not json")));
    assert_eq!(body_text(b"[1, 2]"), Ok(String::from("[1, 2]")));
    assert_eq!(body_text(b"\"quoted\""), Ok(String::from("\"quoted\"")));
    assert_eq!(body_text(b"42"), Ok(String::from("42")));
}

#[test]
fn body_text_reads_the_text_of_a_json_object() {
    assert_eq!(
        body_text("{\"text\": \"bisous et l'étreinte\"}".as_bytes()),
        Ok(String::from("bisous et l'étreinte"))
    );
    assert_eq!(
        body_text(b"  {\"other\": 1, \"text\": \"a\\nb\"} "),
        Ok(String::from("a\nb"))
    );
    assert_eq!(body_text(b"{\"text\": \"\"}"), Ok(String::new()));
}

#[test]
fn body_text_refuses_a_body_without_text() {
    assert_eq!(body_text(b""), Err(ValidationError::MissingText));
    assert_eq!(body_text(b"{}"), Err(ValidationError::MissingText));
    assert_eq!(body_text(b"{\"texts\": \"x\"}"), Err(ValidationError::MissingText));
    assert_eq!(body_text(b"{\"text\": 5}"), Err(ValidationError::MissingText));
    assert_eq!(body_text(b"{\"text\": null}"), Err(ValidationError::MissingText));
}

#[test]
fn body_text_refuses_what_is_not_utf8() {
    assert_eq!(body_text(&[0xff, 0xfe]), Err(ValidationError::NotUtf8));
    assert_eq!(body_text(&[b'a', 0xc3]), Err(ValidationError::NotUtf8));
}

#[test]
fn body_text_refuses_a_body_above_the_limit() {
    assert_eq!(body_text(&vec![b'a'; 16385]), Err(ValidationError::BodyTooLarge));
    assert_eq!(body_text(&vec![0xff; 16385]), Err(ValidationError::BodyTooLarge));
    assert_eq!(body_text(&vec![b'a'; 16384]), Ok("a".repeat(16384)));
}

#[test]
fn refusals_are_client_errors() {
    let all = [
        (ValidationError::UnknownEndpoint, 404, "no such endpoint"),
        (ValidationError::MissingText, 400, "the text to examine is missing"),
        (ValidationError::LengthRequired, 411, "a content length is required"),
        (ValidationError::BodyTooLarge, 413, "the request body is too large"),
        (ValidationError::NotUtf8, 400, "the request body is not UTF-8"),
    ];
    for (error, status, message) in all {
        assert_eq!(status_of(error), status);
        assert_eq!(message_of(error), message);
        assert_eq!(
            reject(error),
            LegacyResponse { status, content: ContentKind::Text, body: message.as_bytes().to_vec() }
        );
        assert!((400..500).contains(&reject(error).status));
    }
}

#[test]
fn tag_response_names_the_language_or_says_none() {
    assert_eq!(
        tag_response(Some(Language::French)),
        LegacyResponse { status: 200, content: ContentKind::Text, body: b"French".to_vec() }
    );
    assert_eq!(
        tag_response(Some(Language::Turkish)),
        LegacyResponse { status: 200, content: ContentKind::Text, body: b"Turkish".to_vec() }
    );
    assert_eq!(
        tag_response(None),
        LegacyResponse { status: 200, content: ContentKind::Text, body: b"None".to_vec() }
    );
}

#[test]
fn detected_response_is_json_for_every_language() {
    for (language, json) in [
        (Language::English, "\"English\""),
        (Language::French, "\"French\""),
        (Language::German, "\"German\""),
        (Language::Spanish, "\"Spanish\""),
        (Language::Turkish, "\"Turkish\""),
    ] {
        let reply = detected_response(Some(language));
        assert_eq!(reply.status, 200);
        assert_eq!(reply.content, ContentKind::Json);
        assert_eq!(reply.body, json.as_bytes().to_vec());
    }
}

#[test]
fn detected_response_is_json() {
    assert_eq!(
        detected_response(Some(Language::French)),
        LegacyResponse { status: 200, content: ContentKind::Json, body: b"\"French\"".to_vec() }
    );
    assert_eq!(
        detected_response(None),
        LegacyResponse { status: 200, content: ContentKind::Json, body: b"null".to_vec() }
    );
}

#[test]
fn json_response_carries_the_json_or_reports_the_failure() {
    assert_eq!(
        json_response::<()>(Ok(b"[1]".to_vec())),
        LegacyResponse { status: 200, content: ContentKind::Json, body: b"[1]".to_vec() }
    );
    assert_eq!(
        json_response(Err::<Vec<u8>, &str>("cannot be written")),
        LegacyResponse { status: 500, content: ContentKind::Text, body: Vec::new() }
    );
}

#[test]
fn accept_uses_the_query_for_a_get_and_the_body_for_a_post() {
    assert_eq!(
        accept(&get("/detectLanguage", Some("hello"))),
        Ok((Endpoint::DetectLanguage, String::from("hello")))
    );
    assert_eq!(accept(&post("/detect", b"hello")), Ok((Endpoint::Detect, String::from("hello"))));
    assert_eq!(
        accept(&post("/confidence", b"{\"text\":\"hallo\"}")),
        Ok((Endpoint::Confidence, String::from("hallo")))
    );
    let mut both = get("/detectLanguage", Some("from the query"));
    both.body = b"from the body".to_vec();
    assert_eq!(accept(&both), Ok((Endpoint::DetectLanguage, String::from("from the query"))));
}

#[test]
fn accept_refuses_before_the_body_is_looked_at() {
    let mut request = post("/detect", &[0xff, 0xfe]);
    request.head.content_length = Some(16385);
    assert_eq!(accept(&request), Err(ValidationError::BodyTooLarge));
    request.head.content_length = None;
    assert_eq!(accept(&request), Err(ValidationError::LengthRequired));
    request.head.content_length = Some(2);
    assert_eq!(accept(&request), Err(ValidationError::NotUtf8));
}

#[test]
fn post_detect_finds_french() {
    let outcome = handler().handle(&post("/detect", "bisous et l'étreinte".as_bytes()));
    assert_eq!(
        outcome,
        LegacyOutcome::Respond(LegacyResponse {
            status: 200,
            content: ContentKind::Json,
            body: b"\"French\"".to_vec(),
        })
    );
}

#[test]
fn post_detect_reads_json_too() {
    let outcome =
        handler().handle(&post("/detect", "{\"text\": \"bisous et l'étreinte\"}".as_bytes()));
    assert_eq!(response(outcome).body, b"\"French\"".to_vec());
}

#[test]
fn get_detect_language_answers_in_text() {
    let reply = response(handler().handle(&get("/detectLanguage", Some("hello"))));
    assert_eq!(reply.status, 200);
    assert_eq!(reply.content, ContentKind::Text);
    let name = String::from_utf8(reply.body).expect("text");
    assert!(["English", "French", "German", "Spanish", "Turkish", "None"].contains(&name.as_str()));
}

#[test]
fn get_detect_language_says_none_when_nothing_is_found() {
    let reply = response(handler().handle(&get("/detectLanguage", Some(""))));
    assert_eq!(
        reply,
        LegacyResponse { status: 200, content: ContentKind::Text, body: b"None".to_vec() }
    );
}

#[test]
fn post_confidence_ranks_every_candidate() {
    match handler().handle(&post("/confidence", "bisous et l'étreinte".as_bytes())) {
        LegacyOutcome::Rank(entries) => {
            assert_eq!(entries.len(), 5);
            assert_eq!(entries[0].language, Language::French);
            for pair in entries.windows(2) {
                assert!(pair[0].confidence >= pair[1].confidence);
            }
            assert!(entries.iter().all(|entry| entry.confidence <= FULL_CONFIDENCE));
        }
        LegacyOutcome::Respond(_) => panic!("a ranking was expected"),
    }
}

#[test]
fn handle_refuses_a_request_without_text() {
    let handler = handler();
    let missing = LegacyResponse {
        status: 400,
        content: ContentKind::Text,
        body: b"the text to examine is missing".to_vec(),
    };
    assert_eq!(handler.handle(&get("/detectLanguage", None)), LegacyOutcome::Respond(missing.clone()));
    assert_eq!(handler.handle(&post("/detect", b"")), LegacyOutcome::Respond(missing.clone()));
    assert_eq!(handler.handle(&post("/confidence", b"{}")), LegacyOutcome::Respond(missing));
}

#[test]
fn handle_refuses_a_body_above_the_limit() {
    let handler = handler();
    let reply = response(handler.handle(&post("/detect", &vec![b'a'; 16385])));
    assert_eq!(reply.status, 413);
    assert_eq!(reply.body, b"the request body is too large".to_vec());
    let mut undeclared = post("/confidence", &vec![b'a'; 20000]);
    undeclared.head.content_length = Some(10);
    assert_eq!(response(handler.handle(&undeclared)).status, 413);
    assert!(matches!(
        handler.handle(&post("/confidence", &vec![b'a'; 16384])),
        LegacyOutcome::Rank(_)
    ));
}

#[test]
fn handle_refuses_an_unknown_endpoint() {
    let reply = response(handler().handle(&get("/", Some("hello"))));
    assert_eq!(reply.status, 404);
}
