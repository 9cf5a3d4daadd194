use llm_sdk::{
    check_response, is_failure_status, Body, CreateImageRequest, EmbeddingRequest, LlmSDK,
    LlmSDKBuilder, RequiredField, ResponseKind, SdkError, SpeechRequest, Step, WhisperRequest,
    WhisperRequestBuilder, WhisperRequestType, WhisperResponse, WhisperResponseFormat,
    DEFAULT_BASE_URL, MAX_RETRIES, TIMEOUT, USER_AGENT,
};

#[test]
fn new_uses_the_defaults() {
    let sdk = LlmSDK::new("secret");
    assert_eq!(sdk.base_url(), "https://api.openai.com/v1");
    assert_eq!(sdk.base_url(), DEFAULT_BASE_URL);
    assert_eq!(sdk.token(), "secret");
    assert_eq!(sdk.max_retries(), 3);
    assert_eq!(MAX_RETRIES, 3);
    assert_eq!(TIMEOUT, 30);
}

#[test]
fn new_with_base_url_keeps_the_default_retries() {
    let sdk = LlmSDK::new_with_base_url("secret", "http://localhost:3000");
    assert_eq!(sdk.base_url(), "http://localhost:3000");
    assert_eq!(sdk.token(), "secret");
    assert_eq!(sdk.max_retries(), 3);
}

#[test]
fn new1_honours_the_retries() {
    let sdk = LlmSDK::new1("http://localhost:3000", "secret", 7);
    assert_eq!(sdk.base_url(), "http://localhost:3000");
    assert_eq!(sdk.token(), "secret");
    assert_eq!(sdk.max_retries(), 7);
}

#[test]
fn sdk_builder_applies_defaults() {
    let sdk = LlmSDKBuilder::default().token("t").build().unwrap();
    assert_eq!(sdk.base_url(), DEFAULT_BASE_URL);
    assert_eq!(sdk.max_retries(), 3);
    let sdk = LlmSDKBuilder::default()
        .token("t")
        .base_url("http://example.test")
        .max_retries(0)
        .build()
        .unwrap();
    assert_eq!(sdk.base_url(), "http://example.test");
    assert_eq!(sdk.max_retries(), 0);
}

#[test]
fn sdk_builder_without_token_fails() {
    let err = LlmSDKBuilder::default().base_url("http://example.test").build().unwrap_err();
    assert_eq!(err.missing, vec![RequiredField::Token]);
    assert_eq!(err.message(), "`token` must be initialized");
}

#[test]
fn prepared_request_carries_token_agent_and_timeout() {
    let sdk = LlmSDK::new("secret");
    let http = sdk.prepare_request(CreateImageRequest::new("x"));
    assert_eq!(http.url, "https://api.openai.com/v1/images/generations");
    let headers: Vec<(&str, &str)> =
        http.headers.iter().map(|h| (h.name.as_str(), h.value.as_str())).collect();
    assert_eq!(
        headers,
        vec![
            ("content-type", "application/json"),
            ("authorization", "Bearer secret"),
            ("user-agent", USER_AGENT),
        ]
    );
    assert_eq!(http.timeout_secs, Some(30));
    assert!(matches!(http.body, Body::Json(ref text) if text == "{\"prompt\":\"x\",\"model\":\"dall-e-3\"}"));
}

#[test]
fn empty_token_sends_no_authorization() {
    let sdk = LlmSDK::new("");
    let http = sdk.prepare_request(SpeechRequest::new("hi"));
    let names: Vec<&str> = http.headers.iter().map(|h| h.name.as_str()).collect();
    assert_eq!(names, vec!["content-type", "user-agent"]);
    assert_eq!(http.timeout_secs, Some(30));
}

#[test]
fn multipart_request_is_prepared_too() {
    let sdk = LlmSDK::new1("http://localhost:1", "k", 1);
    let http = sdk.prepare_request(WhisperRequest::translation(vec![1]));
    assert_eq!(http.url, "http://localhost:1/audio/translations");
    let names: Vec<&str> = http.headers.iter().map(|h| h.name.as_str()).collect();
    assert_eq!(names, vec!["authorization", "user-agent"]);
    assert_eq!(http.timeout_secs, Some(30));
    assert!(matches!(http.body, Body::Multipart(_)));
}

#[test]
fn calls_say_what_to_read() {
    let sdk = LlmSDK::new("k");
    assert_eq!(sdk.create_image(CreateImageRequest::new("x")).response, ResponseKind::Json);
    assert_eq!(sdk.speech(SpeechRequest::new("x")).response, ResponseKind::Bytes);
    assert_eq!(sdk.embedding(EmbeddingRequest::new("x".into())).response, ResponseKind::Bytes);
    assert_eq!(sdk.whisper(WhisperRequest::transcription(vec![1])).response, ResponseKind::Json);
    let text = WhisperRequestBuilder::default()
        .file(vec![1])
        .request_type(WhisperRequestType::Transcription)
        .response_format(WhisperResponseFormat::Text)
        .build()
        .unwrap();
    let call = sdk.whisper(text);
    assert_eq!(call.response, ResponseKind::Text);
    assert_eq!(call.request.url, "https://api.openai.com/v1/audio/transcriptions");
    assert_eq!(call.request.timeout_secs, Some(30));
}

#[test]
fn failure_statuses_are_client_and_server_errors() {
    for status in [400u16, 401, 404, 429, 499, 500, 503, 599] {
        assert!(is_failure_status(status), "{}", status);
    }
    for status in [0u16, 100, 200, 204, 301, 399, 600, 999, u16::MAX] {
        assert!(!is_failure_status(status), "{}", status);
    }
}

#[test]
fn error_status_fails_with_the_body() {
    let body = "{\"error\":\"bad prompt\"}".to_string();
    let err = check_response(400, body.clone()).unwrap_err();
    assert!(matches!(&err, SdkError::Api { body: b } if *b == body));
    assert_eq!(err.message(), "API failed: {\"error\":\"bad prompt\"}");
    assert!(err.message().contains(&body));
    let err = WhisperResponse::from_response(WhisperResponseFormat::Json, 400, body.clone())
        .unwrap_err();
    assert!(matches!(&err, SdkError::Api { body: b } if *b == body));
    let err = WhisperResponse::from_response(WhisperResponseFormat::Text, 500, body.clone())
        .unwrap_err();
    assert!(matches!(&err, SdkError::Api { body: b } if *b == body));
}

#[test]
fn success_status_hands_the_body_on() {
    assert_eq!(check_response(200, "ok".to_string()).unwrap(), "ok");
    assert_eq!(check_response(302, String::new()).unwrap(), "");
}

#[test]
fn text_transcript_is_the_body_verbatim() {
    let body = "{\"text\":\"not parsed\"}\n".to_string();
    for format in [
        WhisperResponseFormat::Text,
        WhisperResponseFormat::Srt,
        WhisperResponseFormat::VerboseJson,
        WhisperResponseFormat::Vtt,
    ] {
        assert_eq!(WhisperResponse::parse(format, body.clone()).unwrap().text, body);
        assert_eq!(WhisperResponse::from_response(format, 200, body.clone()).unwrap().text, body);
    }
    assert_eq!(WhisperResponse::from_text("plain".to_string()).text, "plain");
}

#[test]
fn json_transcript_is_the_text_member() {
    let body = "{\"text\":\"Hello \\\"world\\\"\",\"language\":\"en\"}".to_string();
    let res = WhisperResponse::parse(WhisperResponseFormat::Json, body.clone()).unwrap();
    assert_eq!(res.text, "Hello \"world\"");
    let res = WhisperResponse::from_response(WhisperResponseFormat::Json, 200, body).unwrap();
    assert_eq!(res.text, "Hello \"world\"");
}

#[test]
fn json_transcript_without_text_fails() {
    for body in ["", "not json", "{}", "{\"text\":5}", "{\"txt\":\"a\"}", "[\"a\"]", "\"text\""] {
        let err = WhisperResponse::parse(WhisperResponseFormat::Json, body.to_string()).unwrap_err();
        assert!(matches!(&err, SdkError::Decode { body: b } if b == body), "{}", body);
        assert_eq!(err.message(), format!("unexpected response: {}", body));
    }
}

#[test]
fn transcript_from_parts() {
    let ok = WhisperResponse::from_parts(
        WhisperResponseFormat::Json,
        "{}".to_string(),
        Some("hi".to_string()),
    );
    assert_eq!(ok.unwrap().text, "hi");
    let err = WhisperResponse::from_parts(WhisperResponseFormat::Json, "{}".to_string(), None);
    assert!(matches!(err, Err(SdkError::Decode { body }) if body == "{}"));
    let text = WhisperResponse::from_parts(
        WhisperResponseFormat::Text,
        "body".to_string(),
        Some("ignored".to_string()),
    );
    assert_eq!(text.unwrap().text, "body");
}

#[test]
fn chat_completion_posts_the_given_json() {
    let sdk = LlmSDK::new("k");
    let call = sdk.chat_completion("{\"model\":\"m\",\"messages\":[]}".to_string());
    assert_eq!(call.response, ResponseKind::Json);
    assert_eq!(call.request.url, "https://api.openai.com/v1/chat/completions");
    assert_eq!(call.request.timeout_secs, Some(30));
    assert!(
        matches!(call.request.body, Body::Json(ref text) if text == "{\"model\":\"m\",\"messages\":[]}")
    );
    let names: Vec<&str> = call.request.headers.iter().map(|h| h.name.as_str()).collect();
    assert_eq!(names, vec!["content-type", "authorization", "user-agent"]);
}

#[test]
fn settings_clone_keeps_every_value() {
    let sdk = LlmSDK::new1("http://h", "t", 9);
    let copy = sdk.clone();
    assert_eq!(copy.base_url(), "http://h");
    assert_eq!(copy.token(), "t");
    assert_eq!(copy.max_retries(), 9);
    let mut builder = LlmSDKBuilder::default();
    builder.token("t2");
    let built = builder.clone().build().unwrap();
    assert_eq!(built.token(), "t2");
}

#[test]
fn status_decides_the_next_step() {
    assert_eq!(ResponseKind::Json.on_status(200), Step::Deliver(ResponseKind::Json));
    assert_eq!(ResponseKind::Bytes.on_status(204), Step::Deliver(ResponseKind::Bytes));
    assert_eq!(ResponseKind::Text.on_status(399), Step::Deliver(ResponseKind::Text));
    assert_eq!(ResponseKind::Json.on_status(400), Step::Fail);
    assert_eq!(ResponseKind::Bytes.on_status(500), Step::Fail);
    assert_eq!(ResponseKind::Text.on_status(599), Step::Fail);
    assert_eq!(ResponseKind::Text.on_status(600), Step::Deliver(ResponseKind::Text));
}
