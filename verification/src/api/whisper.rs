//! Speech to text: transcription and translation of an audio file.

use crate::decimal::{clone_opt_decimal, opt_decimal, Decimal};
use crate::error::{RequiredField, ValidationError, VariantNotFound};
use crate::http::{multipart_post, HttpRequest, HttpRequestView, IntoRequest};
use crate::multipart::{
    file_part, form_file, form_new, form_parts, form_text, has_part, lemma_has_part_concat,
    text_part, PartModel,
};
use crate::text::{clone_opt_text, opt_text, same_text};
use reqwest::multipart::Form;
use vstd::pervasive::unreached;
use vstd::prelude::*;
use vstd::string::*;

verus! {

/// The model that transcribes.
#[derive(Clone, Copy, Debug, PartialEq, Eq, Structural)]
pub enum WhisperModel {
    Whisper1,
}

impl WhisperModel {
    /// The name that the API knows the model by.
    pub open spec fn wire(self) -> Seq<char> {
        "whisper-1"@
    }

    /// The value as it is written on the wire.
    pub fn as_str(&self) -> (s: &'static str)
        ensures
            s@ == self.wire(),
    {
        "whisper-1"
    }

    /// The value as it is written on the wire, in a string of its own.
    pub fn to_string(&self) -> (s: String)
        ensures
            s@ == self.wire(),
    {
        self.as_str().to_owned()
    }

    /// The value that is written as `s`; `None` where no value is.
    pub fn from_wire(s: &str) -> (out: Option<Self>)
        ensures
            match out {
                Some(value) => value.wire() == s@,
                None => forall|value: WhisperModel| value.wire() != s@,
            },
    {
        if same_text(s, "whisper-1") {
            Some(WhisperModel::Whisper1)
        } else {
            None
        }
    }

    /// Two values that are written alike are the same value.
    pub proof fn lemma_wire_is_injective(a: Self, b: Self)
        ensures
            a.wire() == b.wire() ==> a == b,
    {
    }
}

impl Default for WhisperModel {
    fn default() -> (out: Self)
        ensures
            out == WhisperModel::Whisper1,
    {
        WhisperModel::Whisper1
    }
}

impl core::str::FromStr for WhisperModel {
    type Err = VariantNotFound;

    fn from_str(s: &str) -> (out: Result<Self, VariantNotFound>)
        ensures
            match out {
                Ok(value) => value.wire() == s@,
                Err(_) => forall|value: WhisperModel| value.wire() != s@,
            },
    {
        match Self::from_wire(s) {
            Some(value) => Ok(value),
            None => Err(VariantNotFound),
        }
    }
}

/// The format of the transcript that the API is asked for.
#[derive(Clone, Copy, Debug, PartialEq, Eq, Structural)]
pub enum WhisperResponseFormat {
    Json,
    Text,
    Srt,
    VerboseJson,
    Vtt,
}

impl WhisperResponseFormat {
    /// The name that the API knows the format by.
    pub open spec fn wire(self) -> Seq<char> {
        match self {
            WhisperResponseFormat::Json => "json"@,
            WhisperResponseFormat::Text => "text"@,
            WhisperResponseFormat::Srt => "srt"@,
            WhisperResponseFormat::VerboseJson => "verbose_json"@,
            WhisperResponseFormat::Vtt => "vtt"@,
        }
    }

    /// The value as it is written on the wire.
    pub fn as_str(&self) -> (s: &'static str)
        ensures
            s@ == self.wire(),
    {
        match self {
            WhisperResponseFormat::Json => "json",
            WhisperResponseFormat::Text => "text",
            WhisperResponseFormat::Srt => "srt",
            WhisperResponseFormat::VerboseJson => "verbose_json",
            WhisperResponseFormat::Vtt => "vtt",
        }
    }

    /// The value as it is written on the wire, in a string of its own.
    pub fn to_string(&self) -> (s: String)
        ensures
            s@ == self.wire(),
    {
        self.as_str().to_owned()
    }

    /// The value that is written as `s`; `None` where no value is.
    pub fn from_wire(s: &str) -> (out: Option<Self>)
        ensures
            match out {
                Some(value) => value.wire() == s@,
                None => forall|value: WhisperResponseFormat| value.wire() != s@,
            },
    {
        if same_text(s, "json") {
            Some(WhisperResponseFormat::Json)
        } else if same_text(s, "text") {
            Some(WhisperResponseFormat::Text)
        } else if same_text(s, "srt") {
            Some(WhisperResponseFormat::Srt)
        } else if same_text(s, "verbose_json") {
            Some(WhisperResponseFormat::VerboseJson)
        } else if same_text(s, "vtt") {
            Some(WhisperResponseFormat::Vtt)
        } else {
            None
        }
    }

    /// Two values that are written alike are the same value.
    pub proof fn lemma_wire_is_injective(a: Self, b: Self)
        ensures
            a.wire() == b.wire() ==> a == b,
    {
        reveal_strlit("json");
        reveal_strlit("text");
        reveal_strlit("srt");
        reveal_strlit("verbose_json");
        reveal_strlit("vtt");
        assert("json"@.len() == 4);
        assert("text"@.len() == 4);
        assert("srt"@.len() == 3);
        assert("verbose_json"@.len() == 12);
        assert("vtt"@.len() == 3);
        assert("json"@[0] == 'j');
        assert("text"@[0] == 't');
        assert("srt"@[0] == 's');
        assert("vtt"@[0] == 'v');
    }
}

impl Default for WhisperResponseFormat {
    fn default() -> (out: Self)
        ensures
            out == WhisperResponseFormat::Json,
    {
        WhisperResponseFormat::Json
    }
}

impl core::str::FromStr for WhisperResponseFormat {
    type Err = VariantNotFound;

    fn from_str(s: &str) -> (out: Result<Self, VariantNotFound>)
        ensures
            match out {
                Ok(value) => value.wire() == s@,
                Err(_) => forall|value: WhisperResponseFormat| value.wire() != s@,
            },
    {
        match Self::from_wire(s) {
            Some(value) => Ok(value),
            None => Err(VariantNotFound),
        }
    }
}

/// Which of the two operations a request asks for.
#[derive(Clone, Copy, Debug, PartialEq, Eq, Structural)]
pub enum WhisperRequestType {
    Transcription,
    Translation,
}

impl WhisperRequestType {
    /// The name of the operation.
    pub open spec fn wire(self) -> Seq<char> {
        match self {
            WhisperRequestType::Transcription => "Transcription"@,
            WhisperRequestType::Translation => "Translation"@,
        }
    }

    /// The value as it is written on the wire.
    pub fn as_str(&self) -> (s: &'static str)
        ensures
            s@ == self.wire(),
    {
        match self {
            WhisperRequestType::Transcription => "Transcription",
            WhisperRequestType::Translation => "Translation",
        }
    }

    /// The value as it is written on the wire, in a string of its own.
    pub fn to_string(&self) -> (s: String)
        ensures
            s@ == self.wire(),
    {
        self.as_str().to_owned()
    }

    /// The value that is written as `s`; `None` where no value is.
    pub fn from_wire(s: &str) -> (out: Option<Self>)
        ensures
            match out {
                Some(value) => value.wire() == s@,
                None => forall|value: WhisperRequestType| value.wire() != s@,
            },
    {
        if same_text(s, "Transcription") {
            Some(WhisperRequestType::Transcription)
        } else if same_text(s, "Translation") {
            Some(WhisperRequestType::Translation)
        } else {
            None
        }
    }

    /// Two values that are written alike are the same value.
    pub proof fn lemma_wire_is_injective(a: Self, b: Self)
        ensures
            a.wire() == b.wire() ==> a == b,
    {
        reveal_strlit("Transcription");
        reveal_strlit("Translation");
        assert("Transcription"@.len() == 13);
        assert("Translation"@.len() == 11);
    }
}

impl Default for WhisperRequestType {
    fn default() -> (out: Self)
        ensures
            out == WhisperRequestType::Transcription,
    {
        WhisperRequestType::Transcription
    }
}

impl core::str::FromStr for WhisperRequestType {
    type Err = VariantNotFound;

    fn from_str(s: &str) -> (out: Result<Self, VariantNotFound>)
        ensures
            match out {
                Ok(value) => value.wire() == s@,
                Err(_) => forall|value: WhisperRequestType| value.wire() != s@,
            },
    {
        match Self::from_wire(s) {
            Some(value) => Ok(value),
            None => Err(VariantNotFound),
        }
    }
}

/// A request to transcribe or translate an audio file.
#[derive(Debug)]
pub struct WhisperRequest {
    /// The audio file's bytes.
    file: Vec<u8>,
    model: WhisperModel,
    /// The language of the audio, for transcription only.
    language: Option<String>,
    /// Text that guides the model's style.
    prompt: Option<String>,
    pub(crate) response_format: WhisperResponseFormat,
    /// The sampling temperature, between 0 and 1.
    temperature: Option<Decimal>,
    request_type: WhisperRequestType,
}

/// What a [`WhisperRequest`] holds.
pub struct WhisperRequestView {
    pub file: Seq<u8>,
    pub model: WhisperModel,
    pub language: Option<Seq<char>>,
    pub prompt: Option<Seq<char>>,
    pub response_format: WhisperResponseFormat,
    pub temperature: Option<Seq<char>>,
    pub request_type: WhisperRequestType,
}

impl WhisperRequestView {
    /// The fields of the multipart form, in the order in which they are sent:
    /// the file, the model and the response format; the language, for a
    /// transcription that has one; then the prompt and the temperature, where
    /// they are set.
    pub open spec fn form_fields(self) -> Seq<PartModel> {
        seq![
            file_part("file"@, self.file, "file.mp3"@, "audio/mp3"@),
            text_part("model"@, self.model.wire()),
            text_part("response_format"@, self.response_format.wire()),
        ] + (match (self.request_type, self.language) {
            (WhisperRequestType::Transcription, Some(language)) => seq![
                text_part("language"@, language),
            ],
            _ => seq![],
        }) + (match self.prompt {
            Some(prompt) => seq![text_part("prompt"@, prompt)],
            None => seq![],
        }) + (match self.temperature {
            Some(temperature) => seq![text_part("temperature"@, temperature)],
            None => seq![],
        })
    }
}

impl View for WhisperRequest {
    type V = WhisperRequestView;

    closed spec fn view(&self) -> WhisperRequestView {
        WhisperRequestView {
            file: self.file@,
            model: self.model,
            language: opt_text(self.language),
            prompt: opt_text(self.prompt),
            response_format: self.response_format,
            temperature: opt_decimal(self.temperature),
            request_type: self.request_type,
        }
    }
}

impl WhisperRequest {
    /// A request to transcribe `data`, with every option left to its default.
    pub fn transcription(data: Vec<u8>) -> (req: Self)
        ensures
            req@ == (WhisperRequestView {
                file: data@,
                model: WhisperModel::Whisper1,
                language: None,
                prompt: None,
                response_format: WhisperResponseFormat::Json,
                temperature: None,
                request_type: WhisperRequestType::Transcription,
            }),
    {
        WhisperRequest {
            file: data,
            model: WhisperModel::Whisper1,
            language: None,
            prompt: None,
            response_format: WhisperResponseFormat::Json,
            temperature: None,
            request_type: WhisperRequestType::Transcription,
        }
    }

    /// A request to translate `data` to English, with every option left to its default.
    pub fn translation(data: Vec<u8>) -> (req: Self)
        ensures
            req@ == (WhisperRequestView {
                file: data@,
                model: WhisperModel::Whisper1,
                language: None,
                prompt: None,
                response_format: WhisperResponseFormat::Json,
                temperature: None,
                request_type: WhisperRequestType::Translation,
            }),
    {
        WhisperRequest {
            file: data,
            model: WhisperModel::Whisper1,
            language: None,
            prompt: None,
            response_format: WhisperResponseFormat::Json,
            temperature: None,
            request_type: WhisperRequestType::Translation,
        }
    }

    /// The format of the transcript that the request asks for.
    pub fn response_format(&self) -> (format: WhisperResponseFormat)
        ensures
            format == self@.response_format,
    {
        self.response_format
    }

    /// Which of the two operations the request asks for.
    pub fn request_type(&self) -> (request_type: WhisperRequestType)
        ensures
            request_type == self@.request_type,
    {
        self.request_type
    }

    /// The multipart form that carries the request.
    pub fn into_form(self) -> (form: Form)
        ensures
            form_parts(form) == self@.form_fields(),
    {
        let ghost view = self@;
        proof {
            lemma_audio_mp3_is_plain();
        }
        let form = match form_file(form_new(), "file", self.file, "file.mp3", "audio/mp3") {
            Some(form) => form,
            None => unreached(),
        };
        let form = form_text(form, "model", self.model.to_string());
        let form = form_text(form, "response_format", self.response_format.to_string());
        assert(form_parts(form) =~= seq![
            file_part("file"@, view.file, "file.mp3"@, "audio/mp3"@),
            text_part("model"@, view.model.wire()),
            text_part("response_format"@, view.response_format.wire()),
        ]);
        let form = match (self.request_type, self.language) {
            (WhisperRequestType::Transcription, Some(language)) => form_text(
                form,
                "language",
                language,
            ),
            _ => form,
        };
        let form = match self.prompt {
            Some(prompt) => form_text(form, "prompt", prompt),
            None => form,
        };
        let form = match self.temperature {
            Some(temperature) => form_text(form, "temperature", temperature.as_str().to_owned()),
            None => form,
        };
        assert(form_parts(form) =~= view.form_fields());
        form
    }
}

impl WhisperRequestView {
    /// The path of the operation that the request asks for.
    pub open spec fn path(self) -> Seq<char> {
        match self.request_type {
            WhisperRequestType::Transcription => "/audio/transcriptions"@,
            WhisperRequestType::Translation => "/audio/translations"@,
        }
    }
}

/// A copy of the bytes.
fn clone_bytes(bytes: &Vec<u8>) -> (out: Vec<u8>)
    ensures
        out@ == bytes@,
{
    let out = bytes.clone();
    assert(out@ =~= bytes@);
    out
}

impl Clone for WhisperRequest {
    fn clone(&self) -> (out: Self)
        ensures
            out@ == self@,
    {
        WhisperRequest {
            file: clone_bytes(&self.file),
            model: self.model,
            language: clone_opt_text(&self.language),
            prompt: clone_opt_text(&self.prompt),
            response_format: self.response_format,
            temperature: clone_opt_decimal(&self.temperature),
            request_type: self.request_type,
        }
    }
}

impl IntoRequest for WhisperRequest {
    open spec fn request(&self, base_url: Seq<char>) -> HttpRequestView {
        multipart_post(base_url + self@.path(), self@.form_fields())
    }

    fn into_request(self, base_url: &str) -> (req: HttpRequest) {
        let path = match self.request_type {
            WhisperRequestType::Transcription => "/audio/transcriptions",
            WhisperRequestType::Translation => "/audio/translations",
        };
        HttpRequest::post_multipart(base_url, path, self.into_form())
    }
}

/// Collects the fields of a [`WhisperRequest`].  The file and the request type
/// are required; the other fields have defaults.
#[derive(Debug)]
pub struct WhisperRequestBuilder {
    file: Option<Vec<u8>>,
    model: Option<WhisperModel>,
    language: Option<String>,
    prompt: Option<String>,
    response_format: Option<WhisperResponseFormat>,
    temperature: Option<Decimal>,
    request_type: Option<WhisperRequestType>,
}

/// What a [`WhisperRequestBuilder`] holds: for each field, the value it was given.
pub struct WhisperRequestBuilderView {
    pub file: Option<Seq<u8>>,
    pub model: Option<WhisperModel>,
    pub language: Option<Seq<char>>,
    pub prompt: Option<Seq<char>>,
    pub response_format: Option<WhisperResponseFormat>,
    pub temperature: Option<Seq<char>>,
    pub request_type: Option<WhisperRequestType>,
}

impl WhisperRequestBuilderView {
    /// No field is set.
    pub open spec fn empty() -> Self {
        WhisperRequestBuilderView {
            file: None,
            model: None,
            language: None,
            prompt: None,
            response_format: None,
            temperature: None,
            request_type: None,
        }
    }

    /// The required fields that are unset, in the order of their declaration.
    pub open spec fn missing(self) -> Seq<RequiredField> {
        (if self.file is None {
            seq![RequiredField::File]
        } else {
            seq![]
        }) + (if self.request_type is None {
            seq![RequiredField::RequestType]
        } else {
            seq![]
        })
    }

    /// The request that the builder stands for once its required fields are
    /// set: an unset model or response format takes its default.
    pub open spec fn built(self) -> WhisperRequestView {
        WhisperRequestView {
            file: self.file->0,
            model: match self.model {
                Some(model) => model,
                None => WhisperModel::Whisper1,
            },
            language: self.language,
            prompt: self.prompt,
            response_format: match self.response_format {
                Some(format) => format,
                None => WhisperResponseFormat::Json,
            },
            temperature: self.temperature,
            request_type: self.request_type->0,
        }
    }
}

/// The bytes of an optional byte vector.
pub open spec fn opt_bytes(value: Option<Vec<u8>>) -> Option<Seq<u8>> {
    match value {
        Some(bytes) => Some(bytes@),
        None => None,
    }
}

impl View for WhisperRequestBuilder {
    type V = WhisperRequestBuilderView;

    closed spec fn view(&self) -> WhisperRequestBuilderView {
        WhisperRequestBuilderView {
            file: opt_bytes(self.file),
            model: self.model,
            language: opt_text(self.language),
            prompt: opt_text(self.prompt),
            response_format: self.response_format,
            temperature: opt_decimal(self.temperature),
            request_type: self.request_type,
        }
    }
}

impl Clone for WhisperRequestBuilder {
    fn clone(&self) -> (out: Self)
        ensures
            out@ == self@,
    {
        WhisperRequestBuilder {
            file: match &self.file {
                Some(file) => Some(clone_bytes(file)),
                None => None,
            },
            model: self.model,
            language: clone_opt_text(&self.language),
            prompt: clone_opt_text(&self.prompt),
            response_format: self.response_format,
            temperature: clone_opt_decimal(&self.temperature),
            request_type: self.request_type,
        }
    }
}

impl Default for WhisperRequestBuilder {
    fn default() -> (out: Self)
        ensures
            out@ == WhisperRequestBuilderView::empty(),
    {
        WhisperRequestBuilder {
            file: None,
            model: None,
            language: None,
            prompt: None,
            response_format: None,
            temperature: None,
            request_type: None,
        }
    }
}

impl WhisperRequestBuilder {
    pub fn file(&mut self, value: Vec<u8>) -> (ret: &mut Self)
        ensures
            ret@ == (WhisperRequestBuilderView { file: Some(value@), ..old(self)@ }),
            *final(self) == *final(ret),
    {
        self.file = Some(value);
        self
    }

    pub fn model(&mut self, value: WhisperModel) -> (ret: &mut Self)
        ensures
            ret@ == (WhisperRequestBuilderView { model: Some(value), ..old(self)@ }),
            *final(self) == *final(ret),
    {
        self.model = Some(value);
        self
    }

    pub fn language(&mut self, value: &str) -> (ret: &mut Self)
        ensures
            ret@ == (WhisperRequestBuilderView { language: Some(value@), ..old(self)@ }),
            *final(self) == *final(ret),
    {
        self.language = Some(value.to_owned());
        self
    }

    pub fn prompt(&mut self, value: &str) -> (ret: &mut Self)
        ensures
            ret@ == (WhisperRequestBuilderView { prompt: Some(value@), ..old(self)@ }),
            *final(self) == *final(ret),
    {
        self.prompt = Some(value.to_owned());
        self
    }

    pub fn response_format(&mut self, value: WhisperResponseFormat) -> (ret: &mut Self)
        ensures
            ret@ == (WhisperRequestBuilderView { response_format: Some(value), ..old(self)@ }),
            *final(self) == *final(ret),
    {
        self.response_format = Some(value);
        self
    }

    pub fn temperature(&mut self, value: Decimal) -> (ret: &mut Self)
        ensures
            ret@ == (WhisperRequestBuilderView { temperature: Some(value@), ..old(self)@ }),
            *final(self) == *final(ret),
    {
        self.temperature = Some(value);
        self
    }

    pub fn request_type(&mut self, value: WhisperRequestType) -> (ret: &mut Self)
        ensures
            ret@ == (WhisperRequestBuilderView { request_type: Some(value), ..old(self)@ }),
            *final(self) == *final(ret),
    {
        self.request_type = Some(value);
        self
    }

    /// The request, if the file and the request type are set; otherwise the
    /// error that names what is missing.
    pub fn build(&self) -> (out: Result<WhisperRequest, ValidationError>)
        ensures
            match out {
                Ok(req) => self@.missing().len() == 0 && req@ == self@.built(),
                Err(e) => self@.missing().len() > 0 && e.missing@ == self@.missing(),
            },
    {
        match (&self.file, self.request_type) {
            (Some(file), Some(request_type)) => {
                let req = WhisperRequest {
                    file: clone_bytes(file),
                    model: match self.model {
                        Some(model) => model,
                        None => WhisperModel::default(),
                    },
                    language: clone_opt_text(&self.language),
                    prompt: clone_opt_text(&self.prompt),
                    response_format: match self.response_format {
                        Some(format) => format,
                        None => WhisperResponseFormat::default(),
                    },
                    temperature: clone_opt_decimal(&self.temperature),
                    request_type,
                };
                assert(self@.missing() =~= seq![]);
                Ok(req)
            },
            _ => {
                let mut missing: Vec<RequiredField> = Vec::new();
                if self.file.is_none() {
                    missing.push(RequiredField::File);
                }
                if self.request_type.is_none() {
                    missing.push(RequiredField::RequestType);
                }
                assert(missing@ =~= self@.missing());
                Err(ValidationError { missing })
            },
        }
    }
}

/// The form has a `language` field exactly if the request is a transcription
/// and a language is set: the form of a translation never has one.
pub proof fn lemma_language_field(req: WhisperRequestView)
    ensures
        has_part(req.form_fields(), "language"@) <==> req.request_type
            is Transcription && req.language is Some,
        req.request_type is Translation ==> !has_part(req.form_fields(), "language"@),
{
    reveal_strlit("file");
    reveal_strlit("model");
    reveal_strlit("response_format");
    reveal_strlit("language");
    reveal_strlit("prompt");
    reveal_strlit("temperature");
    assert("file"@.len() == 4 && "model"@.len() == 5 && "response_format"@.len() == 15);
    assert("language"@.len() == 8 && "prompt"@.len() == 6 && "temperature"@.len() == 11);
    let fixed = seq![
        file_part("file"@, req.file, "file.mp3"@, "audio/mp3"@),
        text_part("model"@, req.model.wire()),
        text_part("response_format"@, req.response_format.wire()),
    ];
    let language = match (req.request_type, req.language) {
        (WhisperRequestType::Transcription, Some(language)) => seq![
            text_part("language"@, language),
        ],
        _ => seq![],
    };
    let prompt = match req.prompt {
        Some(prompt) => seq![text_part("prompt"@, prompt)],
        None => seq![],
    };
    let temperature = match req.temperature {
        Some(temperature) => seq![text_part("temperature"@, temperature)],
        None => seq![],
    };
    lemma_has_part_concat(fixed, language);
    lemma_has_part_concat(fixed + language, prompt);
    lemma_has_part_concat(fixed + language + prompt, temperature);
    assert(fixed[0].name == "file"@ && fixed[1].name == "model"@ && fixed[2].name
        == "response_format"@);
    assert(!has_part(fixed, "language"@));
    assert(!has_part(prompt, "language"@));
    assert(!has_part(temperature, "language"@));
    if req.request_type is Transcription && req.language is Some {
        assert(language[0].name == "language"@);
    }
}

/// The media type of the audio part is a plain one.
proof fn lemma_audio_mp3_is_plain()
    ensures
        crate::multipart::is_plain_media_type("audio/mp3"@),
{
    reveal_strlit("audio/mp3");
    let s = "audio/mp3"@;
    assert(s[5] == '/');
    assert(0 < 5 < s.len() - 1 && s[5] == '/' && forall|i: int|
        0 <= i < s.len() && i != 5 ==> crate::multipart::is_lower_alnum(#[trigger] s[i]));
}

/// A transcript.
#[derive(Debug)]
pub struct WhisperResponse {
    pub text: String,
}

impl Clone for WhisperResponse {
    fn clone(&self) -> (out: Self)
        ensures
            out.text@ == self.text@,
    {
        WhisperResponse { text: self.text.clone() }
    }
}

} // verus!
