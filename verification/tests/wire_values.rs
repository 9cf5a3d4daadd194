use llm_sdk::{
    EmbeddingEncodingFormat, EmbeddingModel, ImageModel, ImageQuality, ImageResponseFormat,
    ImageSize, ImageStyle, RequiredField, SpeechModel, SpeechResponseFormat, SpeechVoice,
    WhisperModel, WhisperRequestType, WhisperResponseFormat,
};

#[test]
fn image_wire_values() {
    assert_eq!(ImageModel::DallE3.as_str(), "dall-e-3");
    assert_eq!(ImageQuality::Standard.as_str(), "standard");
    assert_eq!(ImageQuality::Hd.as_str(), "hd");
    assert_eq!(ImageResponseFormat::Url.as_str(), "url");
    assert_eq!(ImageResponseFormat::B64Json.as_str(), "b64_json");
    assert_eq!(ImageSize::Large.as_str(), "1024x1024");
    assert_eq!(ImageSize::LargeWide.as_str(), "1792x1024");
    assert_eq!(ImageSize::LargeTall.as_str(), "1024x1792");
    assert_eq!(ImageStyle::Vivid.as_str(), "vivid");
    assert_eq!(ImageStyle::Natural.as_str(), "natural");
}

#[test]
fn speech_wire_values() {
    assert_eq!(SpeechModel::Tts1.as_str(), "tts-1");
    assert_eq!(SpeechModel::Tts1Hd.as_str(), "tts-1-hd");
    assert_eq!(SpeechVoice::Alloy.as_str(), "alloy");
    assert_eq!(SpeechVoice::Echo.as_str(), "echo");
    assert_eq!(SpeechVoice::Fable.as_str(), "fable");
    assert_eq!(SpeechVoice::Onyx.as_str(), "onyx");
    assert_eq!(SpeechVoice::Nova.as_str(), "nova");
    assert_eq!(SpeechVoice::Shimmer.as_str(), "shimmer");
    assert_eq!(SpeechResponseFormat::Mp3.as_str(), "mp3");
    assert_eq!(SpeechResponseFormat::Opus.as_str(), "opus");
    assert_eq!(SpeechResponseFormat::Aac.as_str(), "aac");
    assert_eq!(SpeechResponseFormat::Flac.as_str(), "flac");
}

#[test]
fn embedding_wire_values() {
    assert_eq!(EmbeddingModel::TextEmbeddingAda002.as_str(), "text-embedding-ada-002");
    assert_eq!(EmbeddingEncodingFormat::Float.as_str(), "float");
    assert_eq!(EmbeddingEncodingFormat::Base64.as_str(), "base64");
}

#[test]
fn whisper_wire_values() {
    assert_eq!(WhisperModel::Whisper1.as_str(), "whisper-1");
    assert_eq!(WhisperModel::Whisper1.to_string(), "whisper-1");
    assert_eq!(WhisperResponseFormat::Json.to_string(), "json");
    assert_eq!(WhisperResponseFormat::Text.to_string(), "text");
    assert_eq!(WhisperResponseFormat::Srt.to_string(), "srt");
    assert_eq!(WhisperResponseFormat::VerboseJson.to_string(), "verbose_json");
    assert_eq!(WhisperResponseFormat::Vtt.to_string(), "vtt");
    assert_eq!(WhisperRequestType::Transcription.to_string(), "Transcription");
    assert_eq!(WhisperRequestType::Translation.to_string(), "Translation");
}

#[test]
fn defaults_are_the_declared_ones() {
    assert_eq!(ImageModel::default(), ImageModel::DallE3);
    assert_eq!(ImageQuality::default(), ImageQuality::Standard);
    assert_eq!(ImageResponseFormat::default(), ImageResponseFormat::Url);
    assert_eq!(ImageSize::default(), ImageSize::Large);
    assert_eq!(ImageStyle::default(), ImageStyle::Vivid);
    assert_eq!(EmbeddingModel::default(), EmbeddingModel::TextEmbeddingAda002);
    assert_eq!(EmbeddingEncodingFormat::default(), EmbeddingEncodingFormat::Float);
    assert_eq!(SpeechModel::default(), SpeechModel::Tts1);
    assert_eq!(SpeechVoice::default(), SpeechVoice::Nova);
    assert_eq!(SpeechResponseFormat::default(), SpeechResponseFormat::Mp3);
    assert_eq!(WhisperModel::default(), WhisperModel::Whisper1);
    assert_eq!(WhisperResponseFormat::default(), WhisperResponseFormat::Json);
    assert_eq!(WhisperRequestType::default(), WhisperRequestType::Transcription);
}

#[test]
fn required_field_names() {
    assert_eq!(RequiredField::Prompt.name(), "prompt");
    assert_eq!(RequiredField::Input.name(), "input");
    assert_eq!(RequiredField::File.name(), "file");
    assert_eq!(RequiredField::RequestType.name(), "request_type");
    assert_eq!(RequiredField::Token.name(), "token");
}
