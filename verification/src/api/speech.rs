//! Text to speech.

use crate::decimal::{clone_opt_decimal, opt_decimal, Decimal};
use crate::error::{RequiredField, ValidationError};
use crate::http::{json_post, HttpRequest, HttpRequestView, IntoRequest};
use crate::json::{
    has_key, json_string_text, lemma_has_key_concat, lemma_has_key_optional, no_nulls,
    object_text, optional_member, JsonObject,
};
use crate::text::{clone_opt_text, opt_text};
use vstd::prelude::*;
use vstd::string::*;

verus! {

/// The model that speaks.
#[derive(Clone, Copy, Debug, PartialEq, Eq, Structural)]
pub enum SpeechModel {
    Tts1,
    Tts1Hd,
}

impl SpeechModel {
    /// The name that the API knows the model by.
    pub open spec fn wire(self) -> Seq<char> {
        match self {
            SpeechModel::Tts1 => "tts-1"@,
            SpeechModel::Tts1Hd => "tts-1-hd"@,
        }
    }

    /// The value as it is written on the wire.
    pub fn as_str(&self) -> (s: &'static str)
        ensures
            s@ == self.wire(),
    {
        match self {
            SpeechModel::Tts1 => "tts-1",
            SpeechModel::Tts1Hd => "tts-1-hd",
        }
    }
}

impl Default for SpeechModel {
    fn default() -> (out: Self)
        ensures
            out == SpeechModel::Tts1,
    {
        SpeechModel::Tts1
    }
}

/// The voice that speaks.
#[derive(Clone, Copy, Debug, PartialEq, Eq, Structural)]
pub enum SpeechVoice {
    Alloy,
    Echo,
    Fable,
    Onyx,
    Nova,
    Shimmer,
}

impl SpeechVoice {
    /// The string that stands for the value on the wire.
    pub open spec fn wire(self) -> Seq<char> {
        match self {
            SpeechVoice::Alloy => "alloy"@,
            SpeechVoice::Echo => "echo"@,
            SpeechVoice::Fable => "fable"@,
            SpeechVoice::Onyx => "onyx"@,
            SpeechVoice::Nova => "nova"@,
            SpeechVoice::Shimmer => "shimmer"@,
        }
    }

    /// The value as it is written on the wire.
    pub fn as_str(&self) -> (s: &'static str)
        ensures
            s@ == self.wire(),
    {
        match self {
            SpeechVoice::Alloy => "alloy",
            SpeechVoice::Echo => "echo",
            SpeechVoice::Fable => "fable",
            SpeechVoice::Onyx => "onyx",
            SpeechVoice::Nova => "nova",
            SpeechVoice::Shimmer => "shimmer",
        }
    }
}

impl Default for SpeechVoice {
    fn default() -> (out: Self)
        ensures
            out == SpeechVoice::Nova,
    {
        SpeechVoice::Nova
    }
}

/// The format of the audio.
#[derive(Clone, Copy, Debug, PartialEq, Eq, Structural)]
pub enum SpeechResponseFormat {
    Mp3,
    Opus,
    Aac,
    Flac,
}

impl SpeechResponseFormat {
    /// The string that stands for the value on the wire.
    pub open spec fn wire(self) -> Seq<char> {
        match self {
            SpeechResponseFormat::Mp3 => "mp3"@,
            SpeechResponseFormat::Opus => "opus"@,
            SpeechResponseFormat::Aac => "aac"@,
            SpeechResponseFormat::Flac => "flac"@,
        }
    }

    /// The value as it is written on the wire.
    pub fn as_str(&self) -> (s: &'static str)
        ensures
            s@ == self.wire(),
    {
        match self {
            SpeechResponseFormat::Mp3 => "mp3",
            SpeechResponseFormat::Opus => "opus",
            SpeechResponseFormat::Aac => "aac",
            SpeechResponseFormat::Flac => "flac",
        }
    }
}

impl Default for SpeechResponseFormat {
    fn default() -> (out: Self)
        ensures
            out == SpeechResponseFormat::Mp3,
    {
        SpeechResponseFormat::Mp3
    }
}

/// A request to speak a text.
#[derive(Debug)]
pub struct SpeechRequest {
    model: SpeechModel,
    /// The text to speak.
    input: String,
    voice: SpeechVoice,
    response_format: SpeechResponseFormat,
    /// The speed of the speech, from 0.25 to 4.0; 1.0 where it is not set.
    speed: Option<Decimal>,
}

/// What a [`SpeechRequest`] holds.
pub struct SpeechRequestView {
    pub model: SpeechModel,
    pub input: Seq<char>,
    pub voice: SpeechVoice,
    pub response_format: SpeechResponseFormat,
    pub speed: Option<Seq<char>>,
}

impl SpeechRequestView {
    /// The members of the JSON object that carries the request, in the order
    /// in which they are written.  The speed has a member only where it is set.
    pub open spec fn json_members(self) -> Seq<(Seq<char>, Seq<char>)> {
        seq![
            ("model"@, json_string_text(self.model.wire())),
            ("input"@, json_string_text(self.input)),
            ("voice"@, json_string_text(self.voice.wire())),
            ("response_format"@, json_string_text(self.response_format.wire())),
        ] + optional_member("speed"@, self.speed)
    }
}

impl View for SpeechRequest {
    type V = SpeechRequestView;

    closed spec fn view(&self) -> SpeechRequestView {
        SpeechRequestView {
            model: self.model,
            input: self.input@,
            voice: self.voice,
            response_format: self.response_format,
            speed: opt_decimal(self.speed),
        }
    }
}

impl SpeechRequest {
    /// A request to speak `input`, with every option left to its default.
    pub fn new(input: &str) -> (req: Self)
        ensures
            req@ == (SpeechRequestView {
                model: SpeechModel::Tts1,
                input: input@,
                voice: SpeechVoice::Nova,
                response_format: SpeechResponseFormat::Mp3,
                speed: None,
            }),
    {
        SpeechRequest {
            model: SpeechModel::Tts1,
            input: input.to_owned(),
            voice: SpeechVoice::Nova,
            response_format: SpeechResponseFormat::Mp3,
            speed: None,
        }
    }

    /// The JSON object that carries the request.  No member is `null`.
    pub fn json_object(&self) -> (object: JsonObject)
        ensures
            object@ == self@.json_members(),
            no_nulls(object@),
    {
        let mut object = JsonObject::new();
        object.string("model", self.model.as_str());
        object.string("input", self.input.as_str());
        object.string("voice", self.voice.as_str());
        object.string("response_format", self.response_format.as_str());
        assert(object@ =~= seq![
            ("model"@, json_string_text(self@.model.wire())),
            ("input"@, json_string_text(self@.input)),
            ("voice"@, json_string_text(self@.voice.wire())),
            ("response_format"@, json_string_text(self@.response_format.wire())),
        ]);
        object.optional_decimal("speed", &self.speed);
        object
    }

    /// The JSON text that carries the request.
    pub fn to_json(&self) -> (body: String)
        ensures
            body@ == object_text(self@.json_members()),
    {
        self.json_object().render()
    }
}

impl Clone for SpeechRequest {
    fn clone(&self) -> (out: Self)
        ensures
            out@ == self@,
    {
        SpeechRequest {
            model: self.model,
            input: self.input.clone(),
            voice: self.voice,
            response_format: self.response_format,
            speed: clone_opt_decimal(&self.speed),
        }
    }
}

impl IntoRequest for SpeechRequest {
    open spec fn request(&self, base_url: Seq<char>) -> HttpRequestView {
        json_post(base_url + "/audio/speech"@, object_text(self@.json_members()))
    }

    fn into_request(self, base_url: &str) -> (req: HttpRequest) {
        HttpRequest::post_json(base_url, "/audio/speech", self.to_json())
    }
}

/// The JSON object has the members `model`, `input`, `voice` and
/// `response_format`, and `speed` exactly if the speed is set.
pub proof fn lemma_unset_fields_are_omitted(req: SpeechRequestView)
    ensures
        has_key(req.json_members(), "model"@),
        has_key(req.json_members(), "input"@),
        has_key(req.json_members(), "voice"@),
        has_key(req.json_members(), "response_format"@),
        has_key(req.json_members(), "speed"@) <==> req.speed is Some,
{
    reveal_strlit("model");
    reveal_strlit("input");
    reveal_strlit("voice");
    reveal_strlit("response_format");
    reveal_strlit("speed");
    assert("model"@.len() == 5 && "input"@.len() == 5 && "voice"@.len() == 5);
    assert("response_format"@.len() == 15 && "speed"@.len() == 5);
    assert("model"@[0] == 'm' && "input"@[0] == 'i' && "voice"@[0] == 'v' && "speed"@[0] == 's');
    let fixed = seq![
        ("model"@, json_string_text(req.model.wire())),
        ("input"@, json_string_text(req.input)),
        ("voice"@, json_string_text(req.voice.wire())),
        ("response_format"@, json_string_text(req.response_format.wire())),
    ];
    lemma_has_key_optional("speed"@, req.speed);
    lemma_has_key_concat(fixed, optional_member("speed"@, req.speed));
    assert(fixed[0].0 == "model"@ && fixed[1].0 == "input"@);
    assert(fixed[2].0 == "voice"@ && fixed[3].0 == "response_format"@);
    assert forall|key: Seq<char>| #[trigger] has_key(fixed, key) implies key != "speed"@ by {
        let i = choose|i: int| 0 <= i < fixed.len() && (#[trigger] fixed[i]).0 == key;
        assert(i == 0 || i == 1 || i == 2 || i == 3);
    }
}

/// A builder whose input is set stands for a request whose JSON object has
/// the member `speed` exactly if a speed was given to the builder.
pub proof fn lemma_builder_omits_unset_fields(builder: SpeechRequestBuilderView)
    requires
        builder.input is Some,
    ensures
        has_key(builder.built().json_members(), "speed"@) <==> builder.speed is Some,
{
    lemma_unset_fields_are_omitted(builder.built());
}

/// Collects the fields of a [`SpeechRequest`].  The input is required.
#[derive(Debug)]
pub struct SpeechRequestBuilder {
    model: Option<SpeechModel>,
    input: Option<String>,
    voice: Option<SpeechVoice>,
    response_format: Option<SpeechResponseFormat>,
    speed: Option<Decimal>,
}

/// What a [`SpeechRequestBuilder`] holds: for each field, the value it was given.
pub struct SpeechRequestBuilderView {
    pub model: Option<SpeechModel>,
    pub input: Option<Seq<char>>,
    pub voice: Option<SpeechVoice>,
    pub response_format: Option<SpeechResponseFormat>,
    pub speed: Option<Seq<char>>,
}

impl SpeechRequestBuilderView {
    /// No field is set.
    pub open spec fn empty() -> Self {
        SpeechRequestBuilderView {
            model: None,
            input: None,
            voice: None,
            response_format: None,
            speed: None,
        }
    }

    /// The required fields that are unset.
    pub open spec fn missing(self) -> Seq<RequiredField> {
        if self.input is None {
            seq![RequiredField::Input]
        } else {
            seq![]
        }
    }

    /// The request that the builder stands for once the input is set: an unset
    /// model, voice or format takes its default, and an unset speed stays unset.
    pub open spec fn built(self) -> SpeechRequestView {
        SpeechRequestView {
            model: match self.model {
                Some(model) => model,
                None => SpeechModel::Tts1,
            },
            input: self.input->0,
            voice: match self.voice {
                Some(voice) => voice,
                None => SpeechVoice::Nova,
            },
            response_format: match self.response_format {
                Some(format) => format,
                None => SpeechResponseFormat::Mp3,
            },
            speed: self.speed,
        }
    }
}

impl View for SpeechRequestBuilder {
    type V = SpeechRequestBuilderView;

    closed spec fn view(&self) -> SpeechRequestBuilderView {
        SpeechRequestBuilderView {
            model: self.model,
            input: opt_text(self.input),
            voice: self.voice,
            response_format: self.response_format,
            speed: opt_decimal(self.speed),
        }
    }
}

impl Clone for SpeechRequestBuilder {
    fn clone(&self) -> (out: Self)
        ensures
            out@ == self@,
    {
        SpeechRequestBuilder {
            model: self.model,
            input: clone_opt_text(&self.input),
            voice: self.voice,
            response_format: self.response_format,
            speed: clone_opt_decimal(&self.speed),
        }
    }
}

impl Default for SpeechRequestBuilder {
    fn default() -> (out: Self)
        ensures
            out@ == SpeechRequestBuilderView::empty(),
    {
        SpeechRequestBuilder {
            model: None,
            input: None,
            voice: None,
            response_format: None,
            speed: None,
        }
    }
}

impl SpeechRequestBuilder {
    pub fn model(&mut self, value: SpeechModel) -> (ret: &mut Self)
        ensures
            ret@ == (SpeechRequestBuilderView { model: Some(value), ..old(self)@ }),
            *final(self) == *final(ret),
    {
        self.model = Some(value);
        self
    }
    pub fn input(&mut self, value: &str) -> (ret: &mut Self)
        ensures
            ret@ == (SpeechRequestBuilderView { input: Some(value@), ..old(self)@ }),
            *final(self) == *final(ret),
    {
        self.input = Some(value.to_owned());
        self
    }
    pub fn voice(&mut self, value: SpeechVoice) -> (ret: &mut Self)
        ensures
            ret@ == (SpeechRequestBuilderView { voice: Some(value), ..old(self)@ }),
            *final(self) == *final(ret),
    {
        self.voice = Some(value);
        self
    }
    pub fn response_format(&mut self, value: SpeechResponseFormat) -> (ret: &mut Self)
        ensures
            ret@ == (SpeechRequestBuilderView { response_format: Some(value), ..old(self)@ }),
            *final(self) == *final(ret),
    {
        self.response_format = Some(value);
        self
    }
    pub fn speed(&mut self, value: Decimal) -> (ret: &mut Self)
        ensures
            ret@ == (SpeechRequestBuilderView { speed: Some(value@), ..old(self)@ }),
            *final(self) == *final(ret),
    {
        self.speed = Some(value);
        self
    }
    /// The request, if the input is set; otherwise the error that names it.
    pub fn build(&self) -> (out: Result<SpeechRequest, ValidationError>)
        ensures
            match out {
                Ok(req) => self@.missing().len() == 0 && req@ == self@.built(),
                Err(e) => self@.missing().len() > 0 && e.missing@ == self@.missing(),
            },
    {
        match &self.input {
            Some(input) => Ok(
                SpeechRequest {
                    model: match self.model {
                        Some(model) => model,
                        None => SpeechModel::default(),
                    },
                    input: input.clone(),
                    voice: match self.voice {
                        Some(voice) => voice,
                        None => SpeechVoice::default(),
                    },
                    response_format: match self.response_format {
                        Some(format) => format,
                        None => SpeechResponseFormat::default(),
                    },
                    speed: clone_opt_decimal(&self.speed),
                },
            ),
            None => {
                let mut missing: Vec<RequiredField> = Vec::new();
                missing.push(RequiredField::Input);
                assert(missing@ =~= self@.missing());
                Err(ValidationError { missing })
            },
        }
    }
}

} // verus!
