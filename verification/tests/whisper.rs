use futures::executor::block_on;
use futures::StreamExt;
use llm_sdk::{
    Body, Decimal, IntoRequest, RequiredField, WhisperModel, WhisperRequest,
    WhisperRequestBuilder, WhisperRequestType, WhisperResponseFormat,
};

/// The bytes that the form puts on the wire, and its boundary.
fn wire(form: reqwest::multipart::Form) -> (String, String) {
    let boundary = form.boundary().to_string();
    let chunks: Vec<_> = block_on(form.into_stream().collect());
    let mut bytes = Vec::new();
    for chunk in chunks {
        bytes.extend_from_slice(&chunk.unwrap());
    }
    (String::from_utf8(bytes).unwrap(), boundary)
}

fn text_field(boundary: &str, name: &str, value: &str) -> String {
    format!(
        "--{}\r\nContent-Disposition: form-data; name=\"{}\"\r\n\r\n{}\r\n",
        boundary, name, value
    )
}

fn file_field(boundary: &str, content: &str) -> String {
    format!(
        "--{}\r\nContent-Disposition: form-data; name=\"file\"; filename=\"file.mp3\"\r\nContent-Type: audio/mp3\r\n\r\n{}\r\n",
        boundary, content
    )
}

#[test]
fn whisper_test() {
    let data = b"not really audio".to_vec();
    let req = WhisperRequest::transcription(data);
    assert_eq!(req.response_format(), WhisperResponseFormat::Json);
    assert_eq!(req.request_type(), WhisperRequestType::Transcription);
    let http = req.into_request("https://api.openai.com/v1");
    assert_eq!(http.url, "https://api.openai.com/v1/audio/transcriptions");
    assert!(http.headers.is_empty());
    let form = match http.body {
        Body::Multipart(form) => form,
        Body::Json(_) => panic!("a form was expected"),
    };
    let (body, boundary) = wire(form);
    let expected = file_field(&boundary, "not really audio")
        + &text_field(&boundary, "model", "whisper-1")
        + &text_field(&boundary, "response_format", "json")
        + &format!("--{}--\r\n", boundary);
    assert_eq!(body, expected);
}

#[test]
fn translation_goes_to_its_own_path() {
    let req = WhisperRequest::translation(vec![1, 2, 3]);
    assert_eq!(req.request_type(), WhisperRequestType::Translation);
    let http = req.into_request("https://api.openai.com/v1");
    assert_eq!(http.url, "https://api.openai.com/v1/audio/translations");
}

#[test]
fn transcription_sends_the_language() {
    let req = WhisperRequestBuilder::default()
        .file(b"abc".to_vec())
        .request_type(WhisperRequestType::Transcription)
        .language("de")
        .build()
        .unwrap();
    let (body, boundary) = wire(req.into_form());
    assert!(body.contains(&text_field(&boundary, "language", "de")));
}

#[test]
fn translation_never_sends_the_language() {
    let req = WhisperRequestBuilder::default()
        .file(b"abc".to_vec())
        .request_type(WhisperRequestType::Translation)
        .language("de")
        .build()
        .unwrap();
    let (body, _) = wire(req.into_form());
    assert!(!body.contains("language"));
}

#[test]
fn transcription_without_language_sends_none() {
    let (body, _) = wire(WhisperRequest::transcription(b"abc".to_vec()).into_form());
    assert!(!body.contains("language"));
    assert!(!body.contains("prompt"));
    assert!(!body.contains("temperature"));
}

#[test]
fn form_holds_every_set_field_in_order() {
    let req = WhisperRequestBuilder::default()
        .file(b"abc".to_vec())
        .model(WhisperModel::Whisper1)
        .request_type(WhisperRequestType::Transcription)
        .language("en")
        .prompt("names: Ada, Grace")
        .response_format(WhisperResponseFormat::VerboseJson)
        .temperature(Decimal::parse("0.2").unwrap())
        .build()
        .unwrap();
    let (body, boundary) = wire(req.into_form());
    let expected = file_field(&boundary, "abc")
        + &text_field(&boundary, "model", "whisper-1")
        + &text_field(&boundary, "response_format", "verbose_json")
        + &text_field(&boundary, "language", "en")
        + &text_field(&boundary, "prompt", "names: Ada, Grace")
        + &text_field(&boundary, "temperature", "0.2")
        + &format!("--{}--\r\n", boundary);
    assert_eq!(body, expected);
}

#[test]
fn form_names_its_parts() {
    let form = WhisperRequest::translation(b"abc".to_vec()).into_form();
    let shown = format!("{:?}", form);
    assert!(shown.contains("\"file\""));
    assert!(shown.contains("\"file.mp3\""));
    assert!(shown.contains("audio/mp3"));
    assert!(shown.contains("\"model\""));
    assert!(shown.contains("\"response_format\""));
}

#[test]
fn whisper_builder_names_what_is_missing() {
    let err = WhisperRequestBuilder::default().language("en").build().unwrap_err();
    assert_eq!(err.missing, vec![RequiredField::File, RequiredField::RequestType]);
    let err = WhisperRequestBuilder::default()
        .request_type(WhisperRequestType::Translation)
        .build()
        .unwrap_err();
    assert_eq!(err.missing, vec![RequiredField::File]);
    let err = WhisperRequestBuilder::default().file(vec![0]).build().unwrap_err();
    assert_eq!(err.missing, vec![RequiredField::RequestType]);
    assert_eq!(err.message(), "`request_type` must be initialized");
}

#[test]
fn whisper_builder_applies_defaults() {
    let req = WhisperRequestBuilder::default()
        .file(vec![0])
        .request_type(WhisperRequestType::Translation)
        .build()
        .unwrap();
    assert_eq!(req.response_format(), WhisperResponseFormat::Json);
    let req = WhisperRequestBuilder::default()
        .file(vec![0])
        .request_type(WhisperRequestType::Translation)
        .response_format(WhisperResponseFormat::Srt)
        .build()
        .unwrap();
    assert_eq!(req.response_format(), WhisperResponseFormat::Srt);
}

#[test]
fn whisper_values_are_read_from_their_names() {
    assert_eq!(WhisperResponseFormat::from_wire("json"), Some(WhisperResponseFormat::Json));
    assert_eq!(WhisperResponseFormat::from_wire("text"), Some(WhisperResponseFormat::Text));
    assert_eq!(WhisperResponseFormat::from_wire("srt"), Some(WhisperResponseFormat::Srt));
    assert_eq!(
        WhisperResponseFormat::from_wire("verbose_json"),
        Some(WhisperResponseFormat::VerboseJson)
    );
    assert_eq!(WhisperResponseFormat::from_wire("vtt"), Some(WhisperResponseFormat::Vtt));
    assert_eq!(WhisperResponseFormat::from_wire("Json"), None);
    assert_eq!(WhisperResponseFormat::from_wire(""), None);
    assert_eq!(WhisperModel::from_wire("whisper-1"), Some(WhisperModel::Whisper1));
    assert_eq!(WhisperModel::from_wire("whisper-2"), None);
    assert_eq!("Translation".parse::<WhisperRequestType>(), Ok(WhisperRequestType::Translation));
    assert_eq!(
        "Transcription".parse::<WhisperRequestType>(),
        Ok(WhisperRequestType::Transcription)
    );
    assert!("translation".parse::<WhisperRequestType>().is_err());
    for format in [
        WhisperResponseFormat::Json,
        WhisperResponseFormat::Text,
        WhisperResponseFormat::Srt,
        WhisperResponseFormat::VerboseJson,
        WhisperResponseFormat::Vtt,
    ] {
        assert_eq!(WhisperResponseFormat::from_wire(format.as_str()), Some(format));
    }
}

#[test]
fn whisper_request_clone_sends_the_same_form() {
    let req = WhisperRequestBuilder::default()
        .file(b"abc".to_vec())
        .request_type(WhisperRequestType::Transcription)
        .language("fr")
        .build()
        .unwrap();
    let (first, first_boundary) = wire(req.clone().into_form());
    let (second, second_boundary) = wire(req.into_form());
    assert_eq!(first.replace(&first_boundary, "B"), second.replace(&second_boundary, "B"));
}
