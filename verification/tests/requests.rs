use llm_sdk::{
    Body, CreateImageRequest, CreateImageRequestBuilder, Decimal, EmbeddingEncodingFormat,
    EmbeddingInput, EmbeddingRequest, EmbeddingRequestBuilder, HttpRequest, ImageQuality,
    ImageResponseFormat, ImageSize, ImageStyle, IntoRequest, Method, RequiredField,
    SpeechRequest, SpeechRequestBuilder, SpeechResponseFormat, SpeechVoice, ValidationError,
};

fn json_body(req: &HttpRequest) -> String {
    match &req.body {
        Body::Json(text) => text.clone(),
        Body::Multipart(_) => panic!("a JSON body was expected"),
    }
}

fn parsed(text: &str) -> serde_json::Value {
    serde_json::from_str(text).unwrap()
}

#[test]
fn test_create_image_request() {
    let req = CreateImageRequestBuilder::default()
        .prompt("draw a cute caterpillar")
        .style(ImageStyle::Natural)
        .quality(ImageQuality::Hd)
        .build()
        .unwrap();
    assert_eq!(
        req.to_json(),
        "{\"prompt\":\"draw a cute caterpillar\",\"model\":\"dall-e-3\",\"quality\":\"hd\",\"style\":\"natural\"}"
    );
    let http = req.into_request("https://api.openai.com/v1");
    assert_eq!(http.method, Method::Post);
    assert_eq!(http.url, "https://api.openai.com/v1/images/generations");
}

#[test]
fn embedding_test() {
    let req = EmbeddingRequest::new("Hello, my dog is cute.".into());
    assert_eq!(
        req.to_json(),
        "{\"input\":\"Hello, my dog is cute.\",\"model\":\"text-embedding-ada-002\"}"
    );
    let http = req.into_request("https://api.openai.com/v1");
    assert_eq!(http.url, "https://api.openai.com/v1/embeddings");
}

#[test]
fn test_speech() {
    let req = SpeechRequest::new("The quick brown fox jumps over the lazy dog.");
    assert_eq!(
        req.to_json(),
        "{\"model\":\"tts-1\",\"input\":\"The quick brown fox jumps over the lazy dog.\",\"voice\":\"nova\",\"response_format\":\"mp3\"}"
    );
    let http = req.into_request("https://api.openai.com/v1");
    assert_eq!(http.url, "https://api.openai.com/v1/audio/speech");
}

#[test]
fn image_request_omits_unset_fields() {
    let req = CreateImageRequest::new("a lighthouse");
    let value = parsed(&req.to_json());
    let object = value.as_object().unwrap();
    assert_eq!(object.len(), 2);
    assert_eq!(value["prompt"], "a lighthouse");
    assert_eq!(value["model"], "dall-e-3");
    for key in ["n", "quality", "response_format", "size", "style", "user"] {
        assert!(object.get(key).is_none());
    }
    assert!(!req.to_json().contains("null"));
}

#[test]
fn image_request_writes_every_set_field() {
    let req = CreateImageRequestBuilder::default()
        .prompt("a lighthouse")
        .n(1)
        .quality(ImageQuality::Standard)
        .response_format(ImageResponseFormat::B64Json)
        .size(ImageSize::LargeWide)
        .style(ImageStyle::Vivid)
        .user("user-1234")
        .build()
        .unwrap();
    assert_eq!(
        req.to_json(),
        "{\"prompt\":\"a lighthouse\",\"model\":\"dall-e-3\",\"n\":1,\"quality\":\"standard\",\"response_format\":\"b64_json\",\"size\":\"1792x1024\",\"style\":\"vivid\",\"user\":\"user-1234\"}"
    );
}

#[test]
fn image_request_members_match_the_text() {
    let req = CreateImageRequestBuilder::default()
        .prompt("a lighthouse")
        .n(10)
        .build()
        .unwrap();
    let object = req.json_object();
    let keys: Vec<&str> = object.members.iter().map(|m| m.key.as_str()).collect();
    assert_eq!(keys, vec!["prompt", "model", "n"]);
    assert_eq!(object.members[2].value, "10");
    assert_eq!(object.render(), req.to_json());
}

#[test]
fn strings_are_escaped_in_json() {
    let req = CreateImageRequest::new("say \"hi\"\\\n");
    assert_eq!(
        req.to_json(),
        "{\"prompt\":\"say \\\"hi\\\"\\\\\\n\",\"model\":\"dall-e-3\"}"
    );
    let value = parsed(&req.to_json());
    assert_eq!(value["prompt"], "say \"hi\"\\\n");
}

#[test]
fn image_builder_without_prompt_fails() {
    let err = CreateImageRequestBuilder::default()
        .quality(ImageQuality::Hd)
        .build()
        .unwrap_err();
    assert_eq!(err.missing, vec![RequiredField::Prompt]);
    assert_eq!(err.message(), "`prompt` must be initialized");
}

#[test]
fn speech_builder_without_input_fails() {
    let err = SpeechRequestBuilder::default().voice(SpeechVoice::Echo).build().unwrap_err();
    assert_eq!(err.missing, vec![RequiredField::Input]);
    assert_eq!(err.message(), "`input` must be initialized");
}

#[test]
fn embedding_builder_without_input_fails() {
    let err = EmbeddingRequestBuilder::default().user("u").build().unwrap_err();
    assert_eq!(err.missing, vec![RequiredField::Input]);
}

#[test]
fn validation_message_lists_every_field() {
    let err = ValidationError { missing: vec![RequiredField::File, RequiredField::RequestType] };
    assert_eq!(err.message(), "`file` must be initialized, `request_type` must be initialized");
    let none = ValidationError { missing: vec![] };
    assert_eq!(none.message(), "");
}

#[test]
fn speech_request_with_speed() {
    let req = SpeechRequestBuilder::default()
        .input("hello")
        .voice(SpeechVoice::Shimmer)
        .response_format(SpeechResponseFormat::Flac)
        .speed(Decimal::parse("1.25").unwrap())
        .build()
        .unwrap();
    assert_eq!(
        req.to_json(),
        "{\"model\":\"tts-1\",\"input\":\"hello\",\"voice\":\"shimmer\",\"response_format\":\"flac\",\"speed\":1.25}"
    );
    let value = parsed(&req.to_json());
    assert_eq!(value["speed"].as_f64(), Some(1.25));
}

#[test]
fn speech_request_omits_unset_speed() {
    let req = SpeechRequest::new("hello");
    let value = parsed(&req.to_json());
    assert!(value.as_object().unwrap().get("speed").is_none());
    assert_eq!(value.as_object().unwrap().len(), 4);
}

#[test]
fn embedding_request_with_array_input() {
    let req = EmbeddingRequest::new_array(vec!["one".to_string(), "t\"wo".to_string()]);
    assert_eq!(
        req.to_json(),
        "{\"input\":[\"one\",\"t\\\"wo\"],\"model\":\"text-embedding-ada-002\"}"
    );
    let empty = EmbeddingRequest::new_array(vec![]);
    assert_eq!(empty.to_json(), "{\"input\":[],\"model\":\"text-embedding-ada-002\"}");
}

#[test]
fn embedding_request_with_options() {
    let req = EmbeddingRequestBuilder::default()
        .input(EmbeddingInput::from(vec!["a".to_string()]))
        .encoding_format(EmbeddingEncodingFormat::Base64)
        .user("me")
        .build()
        .unwrap();
    assert_eq!(
        req.to_json(),
        "{\"input\":[\"a\"],\"model\":\"text-embedding-ada-002\",\"encoding_format\":\"base64\",\"user\":\"me\"}"
    );
    let plain = EmbeddingRequest::new(EmbeddingInput::from("a".to_string()));
    let value = parsed(&plain.to_json());
    assert!(value.as_object().unwrap().get("encoding_format").is_none());
    assert!(value.as_object().unwrap().get("user").is_none());
}

#[test]
fn embedding_input_conversions() {
    assert!(matches!(EmbeddingInput::from("a"), EmbeddingInput::String(s) if s == "a"));
    assert!(matches!(EmbeddingInput::from("a".to_string()), EmbeddingInput::String(s) if s == "a"));
    let items = vec!["a".to_string(), "b".to_string()];
    assert!(
        matches!(EmbeddingInput::from(items.as_slice()), EmbeddingInput::StringArray(v) if v == items)
    );
    assert!(
        matches!(EmbeddingInput::from(items.clone()), EmbeddingInput::StringArray(v) if v == items)
    );
}

#[test]
fn json_requests_announce_their_content_type() {
    let http = CreateImageRequest::new("x").into_request("http://localhost:8080");
    assert_eq!(http.url, "http://localhost:8080/images/generations");
    assert_eq!(http.headers.len(), 1);
    assert_eq!(http.headers[0].name, "content-type");
    assert_eq!(http.headers[0].value, "application/json");
    assert_eq!(http.timeout_secs, None);
    assert_eq!(json_body(&http), "{\"prompt\":\"x\",\"model\":\"dall-e-3\"}");
}

#[test]
fn builder_keeps_the_last_value_of_a_field() {
    let mut builder = CreateImageRequestBuilder::default();
    builder.prompt("first").n(2);
    builder.prompt("second");
    let req = builder.build().unwrap();
    assert_eq!(req.to_json(), "{\"prompt\":\"second\",\"model\":\"dall-e-3\",\"n\":2}");
    let again = builder.build().unwrap();
    assert_eq!(again.to_json(), req.to_json());
}

#[test]
fn request_clones_are_written_alike() {
    let image = CreateImageRequestBuilder::default().prompt("p").user("u").build().unwrap();
    assert_eq!(image.clone().to_json(), image.to_json());
    let speech = SpeechRequestBuilder::default()
        .input("i")
        .speed(Decimal::parse("0.5").unwrap())
        .build()
        .unwrap();
    assert_eq!(speech.clone().to_json(), speech.to_json());
    let embedding = EmbeddingRequest::new_array(vec!["a".to_string(), "b".to_string()]);
    assert_eq!(embedding.clone().to_json(), embedding.to_json());
    let mut builder = EmbeddingRequestBuilder::default();
    builder.input(EmbeddingInput::from("x"));
    assert_eq!(
        builder.clone().build().unwrap().to_json(),
        "{\"input\":\"x\",\"model\":\"text-embedding-ada-002\"}"
    );
}
