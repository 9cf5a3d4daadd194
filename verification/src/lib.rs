//! Typed requests for a remote language-model HTTP API.
//!
//! The crate builds requests and reads responses; it performs no I/O.  Each
//! request type is assembled by a validating builder and turned into an
//! [`HttpRequest`]: the target URL, the headers and the body, either JSON text
//! or a multipart form.  [`LlmSDK`] holds the client settings, and adds the
//! authentication header, the user agent and the timeout.  The caller sends
//! the request and hands the status and the body back to the functions that
//! interpret them.

pub mod api;
pub mod decimal;
pub mod error;
pub mod http;
pub mod json;
pub mod multipart;
pub mod response;
pub mod sdk;
pub mod text;

pub use api::create_image::{
    CreateImageRequest, CreateImageRequestBuilder, CreateImageRequestBuilderView,
    CreateImageRequestView, CreateImageResponse, CreateImageResponseView, ImageModel,
    ImageObject, ImageObjectView, ImageQuality, ImageResponseFormat, ImageSize, ImageStyle,
};
pub use api::embedding::{
    EmbeddingEncodingFormat, EmbeddingInput, EmbeddingInputView, EmbeddingModel,
    EmbeddingRequest, EmbeddingRequestBuilder, EmbeddingRequestBuilderView, EmbeddingRequestView,
    EmbeddingUsage,
};
pub use api::speech::{
    SpeechModel, SpeechRequest, SpeechRequestBuilder, SpeechRequestBuilderView,
    SpeechRequestView, SpeechResponseFormat, SpeechVoice,
};
pub use api::whisper::{
    WhisperModel, WhisperRequest, WhisperRequestBuilder, WhisperRequestBuilderView,
    WhisperRequestType, WhisperRequestView, WhisperResponse, WhisperResponseFormat,
};
pub use decimal::Decimal;
pub use error::{RequiredField, SdkError, SdkErrorView, ValidationError, VariantNotFound};
pub use http::{Body, BodyView, Header, HttpRequest, HttpRequestView, IntoRequest, Method};
pub use json::{JsonObject, Member};
pub use response::{check_response, is_failure_status};
pub use sdk::{
    Call, LlmSDK, LlmSDKBuilder, LlmSDKBuilderView, LlmSDKView, ResponseKind, Step,
    DEFAULT_BASE_URL, MAX_RETRIES, TIMEOUT, USER_AGENT,
};
