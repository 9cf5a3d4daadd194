//! The client's settings, and what they add to every request.

use crate::api::create_image::CreateImageRequest;
use crate::api::embedding::EmbeddingRequest;
use crate::api::speech::SpeechRequest;
use crate::api::whisper::{WhisperRequest, WhisperResponseFormat};
use crate::error::{RequiredField, ValidationError};
use crate::http::{json_post, Header, HttpRequest, HttpRequestView, IntoRequest};
use crate::response::{is_failure, is_failure_status};
use crate::text::{clone_opt_text, opt_text};
use vstd::prelude::*;
use vstd::string::*;

verus! {

/// The seconds allowed for one call.
pub const TIMEOUT: u64 = 30;

/// How often a call is tried again unless the settings say otherwise.
pub const MAX_RETRIES: u32 = 3;

/// The address of the API unless the settings say otherwise.
pub const DEFAULT_BASE_URL: &'static str = "https://api.openai.com/v1";

/// The user agent that every request announces.
pub const USER_AGENT: &'static str =
    "Mozilla/5.0 (Windows NT 10.0; Win64; x64) AppleWebKit/537.36 (KHTML, like Gecko) Chrome/129.0.0.0 Safari/537.36";

/// The settings of a client: where the API is, the token that authenticates
/// the caller, and how often a call that failed for a passing reason is tried
/// again.  An empty token means that no authentication is sent.
#[derive(Debug)]
pub struct LlmSDK {
    pub(crate) base_url: String,
    pub(crate) token: String,
    pub(crate) max_retries: u32,
}

/// What an [`LlmSDK`] holds.
pub struct LlmSDKView {
    pub base_url: Seq<char>,
    pub token: Seq<char>,
    pub max_retries: u32,
}

impl View for LlmSDK {
    type V = LlmSDKView;

    closed spec fn view(&self) -> LlmSDKView {
        LlmSDKView { base_url: self.base_url@, token: self.token@, max_retries: self.max_retries }
    }
}

impl Clone for LlmSDK {
    fn clone(&self) -> (out: Self)
        ensures
            out@ == self@,
    {
        LlmSDK {
            base_url: self.base_url.clone(),
            token: self.token.clone(),
            max_retries: self.max_retries,
        }
    }
}

/// The headers that the settings add to a request: the bearer token, unless
/// it is empty, and the user agent.
pub open spec fn client_headers(token: Seq<char>) -> Seq<(Seq<char>, Seq<char>)> {
    (if token.len() == 0 {
        seq![]
    } else {
        seq![("authorization"@, "Bearer "@ + token)]
    }) + seq![("user-agent"@, USER_AGENT@)]
}

/// The request `req` as a client with the token `token` sends it: with the
/// client's headers after its own, and with the timeout.
pub open spec fn prepared(token: Seq<char>, req: HttpRequestView) -> HttpRequestView {
    HttpRequestView {
        headers: req.headers + client_headers(token),
        timeout_secs: Some(TIMEOUT),
        ..req
    }
}

impl LlmSDK {
    /// Settings for the default address, with the default number of retries.
    pub fn new(token: &str) -> (sdk: Self)
        ensures
            sdk@ == (LlmSDKView {
                base_url: DEFAULT_BASE_URL@,
                token: token@,
                max_retries: MAX_RETRIES,
            }),
    {
        LlmSDK {
            base_url: String::from_str(DEFAULT_BASE_URL),
            token: String::from_str(token),
            max_retries: MAX_RETRIES,
        }
    }

    /// Settings with every value given.
    pub fn new1(base_url: &str, token: &str, max_retries: u32) -> (sdk: Self)
        ensures
            sdk@ == (LlmSDKView { base_url: base_url@, token: token@, max_retries }),
    {
        LlmSDK {
            base_url: String::from_str(base_url),
            token: String::from_str(token),
            max_retries,
        }
    }

    /// Settings for another address, with the default number of retries.
    pub fn new_with_base_url(token: &str, base_url: &str) -> (sdk: Self)
        ensures
            sdk@ == (LlmSDKView { base_url: base_url@, token: token@, max_retries: MAX_RETRIES }),
    {
        LlmSDK {
            base_url: String::from_str(base_url),
            token: String::from_str(token),
            max_retries: MAX_RETRIES,
        }
    }

    pub fn base_url(&self) -> (s: &str)
        ensures
            s@ == self@.base_url,
    {
        self.base_url.as_str()
    }

    pub fn token(&self) -> (s: &str)
        ensures
            s@ == self@.token,
    {
        self.token.as_str()
    }

    pub fn max_retries(&self) -> (n: u32)
        ensures
            n == self@.max_retries,
    {
        self.max_retries
    }

    /// Adds to `req` what every request carries: the bearer token, unless it
    /// is empty, the user agent, and the timeout.
    pub fn attach(&self, req: HttpRequest) -> (out: HttpRequest)
        ensures
            out@ == prepared(self@.token, req@),
    {
        let mut out = req;
        if !self.token.as_str().is_empty() {
            out.headers.push(
                Header {
                    name: String::from_str("authorization"),
                    value: String::from_str("Bearer ").concat(self.token.as_str()),
                },
            );
        }
        out.headers.push(
            Header { name: String::from_str("user-agent"), value: String::from_str(USER_AGENT) },
        );
        out.timeout_secs = Some(TIMEOUT);
        assert(out@.headers =~= req@.headers + client_headers(self@.token));
        out
    }

    /// Turns `req` into the HTTP request for this client's address, and adds
    /// what every request carries: the bearer token, unless it is empty, the
    /// user agent, and the timeout.
    pub fn prepare_request<R: IntoRequest>(&self, req: R) -> (out: HttpRequest)
        ensures
            out@ == prepared(self@.token, req.request(self@.base_url)),
    {
        self.attach(req.into_request(self.base_url.as_str()))
    }
}

/// What the body of a successful response to a call is.
#[derive(Clone, Copy, Debug, PartialEq, Eq, Structural)]
pub enum ResponseKind {
    /// A JSON document.
    Json,
    /// Bytes that are handed on as they are, such as audio.
    Bytes,
    /// Text that is handed on as it is.
    Text,
}

/// A call that is ready to be made: the request to send, and what to read
/// from the response.
#[derive(Debug)]
pub struct Call {
    pub request: HttpRequest,
    pub response: ResponseKind,
}

/// What to do with a response once its status is known.
#[derive(Clone, Copy, Debug, PartialEq, Eq, Structural)]
pub enum Step {
    /// Read the body as text and fail with it.
    Fail,
    /// Read the body as this kind and hand it on.
    Deliver(ResponseKind),
}

impl ResponseKind {
    /// The next step for a response with this status to a call that reads
    /// this kind: a client or server error fails the call, and any other
    /// status delivers the body.
    pub fn on_status(self, status: u16) -> (step: Step)
        ensures
            step == (if is_failure(status) {
                Step::Fail
            } else {
                Step::Deliver(self)
            }),
    {
        if is_failure_status(status) {
            Step::Fail
        } else {
            Step::Deliver(self)
        }
    }
}

impl LlmSDK {
    /// The call that completes a chat, for a request that the caller has
    /// written as JSON text.  It answers with a JSON document.
    pub fn chat_completion(&self, body: String) -> (call: Call)
        ensures
            call.request@ == prepared(
                self@.token,
                json_post(self@.base_url + "/chat/completions"@, body@),
            ),
            call.response == ResponseKind::Json,
    {
        let request = HttpRequest::post_json(self.base_url.as_str(), "/chat/completions", body);
        Call { request: self.attach(request), response: ResponseKind::Json }
    }

    /// The call that generates images.  It answers with a JSON document.
    pub fn create_image(&self, req: CreateImageRequest) -> (call: Call)
        ensures
            call.request@ == prepared(self@.token, req.request(self@.base_url)),
            call.response == ResponseKind::Json,
    {
        Call { request: self.prepare_request(req), response: ResponseKind::Json }
    }

    /// The call that speaks a text.  It answers with the audio.
    pub fn speech(&self, req: SpeechRequest) -> (call: Call)
        ensures
            call.request@ == prepared(self@.token, req.request(self@.base_url)),
            call.response == ResponseKind::Bytes,
    {
        Call { request: self.prepare_request(req), response: ResponseKind::Bytes }
    }

    /// The call that transcribes or translates.  It answers with a JSON
    /// document where the JSON format is asked for, and with text otherwise.
    pub fn whisper(&self, req: WhisperRequest) -> (call: Call)
        ensures
            call.request@ == prepared(self@.token, req.request(self@.base_url)),
            call.response == (if req@.response_format == WhisperResponseFormat::Json {
                ResponseKind::Json
            } else {
                ResponseKind::Text
            }),
    {
        let response = match req.response_format() {
            WhisperResponseFormat::Json => ResponseKind::Json,
            _ => ResponseKind::Text,
        };
        Call { request: self.prepare_request(req), response }
    }

    /// The call that embeds text.  Its answer is handed on as bytes.
    pub fn embedding(&self, req: EmbeddingRequest) -> (call: Call)
        ensures
            call.request@ == prepared(self@.token, req.request(self@.base_url)),
            call.response == ResponseKind::Bytes,
    {
        Call { request: self.prepare_request(req), response: ResponseKind::Bytes }
    }
}

/// Collects the settings of an [`LlmSDK`].  The token is required.
#[derive(Debug)]
pub struct LlmSDKBuilder {
    base_url: Option<String>,
    token: Option<String>,
    max_retries: Option<u32>,
}

/// What an [`LlmSDKBuilder`] holds: for each setting, the value it was given.
pub struct LlmSDKBuilderView {
    pub base_url: Option<Seq<char>>,
    pub token: Option<Seq<char>>,
    pub max_retries: Option<u32>,
}

impl LlmSDKBuilderView {
    /// No setting is given.
    pub open spec fn empty() -> Self {
        LlmSDKBuilderView { base_url: None, token: None, max_retries: None }
    }

    /// The required settings that are unset.
    pub open spec fn missing(self) -> Seq<RequiredField> {
        if self.token is None {
            seq![RequiredField::Token]
        } else {
            seq![]
        }
    }

    /// The settings that the builder stands for once the token is set: an
    /// unset address or number of retries takes its default.
    pub open spec fn built(self) -> LlmSDKView {
        LlmSDKView {
            base_url: match self.base_url {
                Some(base_url) => base_url,
                None => DEFAULT_BASE_URL@,
            },
            token: self.token->0,
            max_retries: match self.max_retries {
                Some(max_retries) => max_retries,
                None => MAX_RETRIES,
            },
        }
    }
}

impl View for LlmSDKBuilder {
    type V = LlmSDKBuilderView;

    closed spec fn view(&self) -> LlmSDKBuilderView {
        LlmSDKBuilderView {
            base_url: opt_text(self.base_url),
            token: opt_text(self.token),
            max_retries: self.max_retries,
        }
    }
}

impl Clone for LlmSDKBuilder {
    fn clone(&self) -> (out: Self)
        ensures
            out@ == self@,
    {
        LlmSDKBuilder {
            base_url: clone_opt_text(&self.base_url),
            token: clone_opt_text(&self.token),
            max_retries: self.max_retries,
        }
    }
}

impl Default for LlmSDKBuilder {
    fn default() -> (out: Self)
        ensures
            out@ == LlmSDKBuilderView::empty(),
    {
        LlmSDKBuilder { base_url: None, token: None, max_retries: None }
    }
}

impl LlmSDKBuilder {
    pub fn base_url(&mut self, value: &str) -> (ret: &mut Self)
        ensures
            ret@ == (LlmSDKBuilderView { base_url: Some(value@), ..old(self)@ }),
            *final(self) == *final(ret),
    {
        self.base_url = Some(value.to_owned());
        self
    }

    pub fn token(&mut self, value: &str) -> (ret: &mut Self)
        ensures
            ret@ == (LlmSDKBuilderView { token: Some(value@), ..old(self)@ }),
            *final(self) == *final(ret),
    {
        self.token = Some(value.to_owned());
        self
    }

    pub fn max_retries(&mut self, value: u32) -> (ret: &mut Self)
        ensures
            ret@ == (LlmSDKBuilderView { max_retries: Some(value), ..old(self)@ }),
            *final(self) == *final(ret),
    {
        self.max_retries = Some(value);
        self
    }

    /// The settings, if the token is set; otherwise the error that names it.
    pub fn build(&self) -> (out: Result<LlmSDK, ValidationError>)
        ensures
            match out {
                Ok(sdk) => self@.missing().len() == 0 && sdk@ == self@.built(),
                Err(e) => self@.missing().len() > 0 && e.missing@ == self@.missing(),
            },
    {
        match &self.token {
            Some(token) => Ok(
                LlmSDK {
                    base_url: match &self.base_url {
                        Some(base_url) => base_url.clone(),
                        None => String::from_str(DEFAULT_BASE_URL),
                    },
                    token: token.clone(),
                    max_retries: match self.max_retries {
                        Some(max_retries) => max_retries,
                        None => MAX_RETRIES,
                    },
                },
            ),
            None => {
                let mut missing: Vec<RequiredField> = Vec::new();
                missing.push(RequiredField::Token);
                assert(missing@ =~= self@.missing());
                Err(ValidationError { missing })
            },
        }
    }
}

} // verus!
