//! Embeddings of text.

use crate::error::{RequiredField, ValidationError};
use crate::http::{json_post, HttpRequest, HttpRequestView, IntoRequest};
use crate::json::{
    array_text, has_key, json_string_text, lemma_has_key_concat, lemma_has_key_optional,
    no_nulls, object_text, optional_member, string_value, texts, JsonObject,
};
use crate::text::{clone_opt_text, opt_text};
use vstd::prelude::*;
use vstd::std_specs::convert::FromSpecImpl;
use vstd::string::*;

verus! {

/// The text to embed: one string, or several.
#[derive(Debug)]
pub enum EmbeddingInput {
    String(String),
    StringArray(Vec<String>),
}

/// What an [`EmbeddingInput`] holds.
pub enum EmbeddingInputView {
    String(Seq<char>),
    StringArray(Seq<Seq<char>>),
}

impl EmbeddingInputView {
    /// The JSON text of the input: a string, or an array of strings.
    pub open spec fn json_text(self) -> Seq<char> {
        match self {
            EmbeddingInputView::String(text) => json_string_text(text),
            EmbeddingInputView::StringArray(items) => array_text(items),
        }
    }
}

impl View for EmbeddingInput {
    type V = EmbeddingInputView;

    open spec fn view(&self) -> EmbeddingInputView {
        match self {
            EmbeddingInput::String(text) => EmbeddingInputView::String(text@),
            EmbeddingInput::StringArray(items) => EmbeddingInputView::StringArray(texts(items@)),
        }
    }
}

/// A copy of each string.
fn clone_texts(items: &[String]) -> (out: Vec<String>)
    ensures
        texts(out@) == texts(items@),
{
    let mut out: Vec<String> = Vec::new();
    let mut i: usize = 0;
    while i < items.len()
        invariant
            i <= items.len(),
            out@.len() == i,
            forall|j: int| 0 <= j < i ==> out@[j]@ == items@[j]@,
        decreases items.len() - i,
    {
        out.push(items[i].clone());
        i += 1;
    }
    assert(texts(out@) =~= texts(items@));
    out
}

impl Clone for EmbeddingInput {
    fn clone(&self) -> (out: Self)
        ensures
            out@ == self@,
    {
        match self {
            EmbeddingInput::String(text) => EmbeddingInput::String(text.clone()),
            EmbeddingInput::StringArray(items) => EmbeddingInput::StringArray(
                clone_texts(items.as_slice()),
            ),
        }
    }
}

impl From<String> for EmbeddingInput {
    fn from(s: String) -> (out: Self)
        ensures
            out@ == EmbeddingInputView::String(s@),
    {
        EmbeddingInput::String(s)
    }
}

impl FromSpecImpl<String> for EmbeddingInput {
    open spec fn obeys_from_spec() -> bool {
        true
    }

    open spec fn from_spec(s: String) -> Self {
        EmbeddingInput::String(s)
    }
}

impl From<&str> for EmbeddingInput {
    fn from(s: &str) -> (out: Self)
        ensures
            out@ == EmbeddingInputView::String(s@),
    {
        EmbeddingInput::String(s.to_owned())
    }
}

impl FromSpecImpl<&str> for EmbeddingInput {
    open spec fn obeys_from_spec() -> bool {
        false
    }

    open spec fn from_spec(s: &str) -> Self {
        arbitrary()
    }
}

impl From<&[String]> for EmbeddingInput {
    fn from(s: &[String]) -> (out: Self)
        ensures
            out@ == EmbeddingInputView::StringArray(texts(s@)),
    {
        EmbeddingInput::StringArray(clone_texts(s))
    }
}

impl FromSpecImpl<&[String]> for EmbeddingInput {
    open spec fn obeys_from_spec() -> bool {
        false
    }

    open spec fn from_spec(s: &[String]) -> Self {
        arbitrary()
    }
}

impl From<Vec<String>> for EmbeddingInput {
    fn from(s: Vec<String>) -> (out: Self)
        ensures
            out@ == EmbeddingInputView::StringArray(texts(s@)),
    {
        EmbeddingInput::StringArray(s)
    }
}

impl FromSpecImpl<Vec<String>> for EmbeddingInput {
    open spec fn obeys_from_spec() -> bool {
        true
    }

    open spec fn from_spec(s: Vec<String>) -> Self {
        EmbeddingInput::StringArray(s)
    }
}

/// The model that embeds.
#[derive(Clone, Copy, Debug, PartialEq, Eq, Structural)]
pub enum EmbeddingModel {
    TextEmbeddingAda002,
}

impl EmbeddingModel {
    /// The name that the API knows the model by.
    pub open spec fn wire(self) -> Seq<char> {
        "text-embedding-ada-002"@
    }

    /// The value as it is written on the wire.
    pub fn as_str(&self) -> (s: &'static str)
        ensures
            s@ == self.wire(),
    {
        "text-embedding-ada-002"
    }
}

impl Default for EmbeddingModel {
    fn default() -> (out: Self)
        ensures
            out == EmbeddingModel::TextEmbeddingAda002,
    {
        EmbeddingModel::TextEmbeddingAda002
    }
}

/// How the numbers of an embedding are written.
#[derive(Clone, Copy, Debug, PartialEq, Eq, Structural)]
pub enum EmbeddingEncodingFormat {
    Float,
    Base64,
}

impl EmbeddingEncodingFormat {
    /// The string that stands for the value on the wire.
    pub open spec fn wire(self) -> Seq<char> {
        match self {
            EmbeddingEncodingFormat::Float => "float"@,
            EmbeddingEncodingFormat::Base64 => "base64"@,
        }
    }

    /// The value as it is written on the wire.
    pub fn as_str(&self) -> (s: &'static str)
        ensures
            s@ == self.wire(),
    {
        match self {
            EmbeddingEncodingFormat::Float => "float",
            EmbeddingEncodingFormat::Base64 => "base64",
        }
    }
}

impl Default for EmbeddingEncodingFormat {
    fn default() -> (out: Self)
        ensures
            out == EmbeddingEncodingFormat::Float,
    {
        EmbeddingEncodingFormat::Float
    }
}

/// A request to embed text.
#[derive(Debug)]
pub struct EmbeddingRequest {
    input: EmbeddingInput,
    model: EmbeddingModel,
    encoding_format: Option<EmbeddingEncodingFormat>,
    /// An identifier of the end user.
    user: Option<String>,
}

/// What an [`EmbeddingRequest`] holds.
pub struct EmbeddingRequestView {
    pub input: EmbeddingInputView,
    pub model: EmbeddingModel,
    pub encoding_format: Option<EmbeddingEncodingFormat>,
    pub user: Option<Seq<char>>,
}

impl EmbeddingRequestView {
    /// The members of the JSON object that carries the request, in the order
    /// in which they are written.  A field that is not set has no member.
    pub open spec fn json_members(self) -> Seq<(Seq<char>, Seq<char>)> {
        seq![
            ("input"@, self.input.json_text()),
            ("model"@, json_string_text(self.model.wire())),
        ] + optional_member(
            "encoding_format"@,
            string_value(
                match self.encoding_format {
                    Some(format) => Some(format.wire()),
                    None => None,
                },
            ),
        ) + optional_member("user"@, string_value(self.user))
    }
}

impl View for EmbeddingRequest {
    type V = EmbeddingRequestView;

    closed spec fn view(&self) -> EmbeddingRequestView {
        EmbeddingRequestView {
            input: self.input@,
            model: self.model,
            encoding_format: self.encoding_format,
            user: opt_text(self.user),
        }
    }
}

impl EmbeddingRequest {
    /// A request to embed `input`, with every option left to the API.
    pub fn new(input: EmbeddingInput) -> (req: Self)
        ensures
            req@ == (EmbeddingRequestView {
                input: input@,
                model: EmbeddingModel::TextEmbeddingAda002,
                encoding_format: None,
                user: None,
            }),
    {
        EmbeddingRequest {
            input,
            model: EmbeddingModel::TextEmbeddingAda002,
            encoding_format: None,
            user: None,
        }
    }

    /// A request to embed each string of `input`, with every option left to the API.
    pub fn new_array(input: Vec<String>) -> (req: Self)
        ensures
            req@ == (EmbeddingRequestView {
                input: EmbeddingInputView::StringArray(texts(input@)),
                model: EmbeddingModel::TextEmbeddingAda002,
                encoding_format: None,
                user: None,
            }),
    {
        EmbeddingRequest::new(EmbeddingInput::StringArray(input))
    }

    /// The JSON object that carries the request.  No member is `null`.
    pub fn json_object(&self) -> (object: JsonObject)
        ensures
            object@ == self@.json_members(),
            no_nulls(object@),
    {
        let mut object = JsonObject::new();
        match &self.input {
            EmbeddingInput::String(text) => object.string("input", text.as_str()),
            EmbeddingInput::StringArray(items) => object.string_array("input", items),
        }
        object.string("model", self.model.as_str());
        assert(object@ =~= seq![
            ("input"@, self@.input.json_text()),
            ("model"@, json_string_text(self@.model.wire())),
        ]);
        object.optional_string(
            "encoding_format",
            match self.encoding_format {
                Some(format) => Some(format.as_str()),
                None => None,
            },
        );
        object.optional_string(
            "user",
            match &self.user {
                Some(user) => Some(user.as_str()),
                None => None,
            },
        );
        object
    }

    /// The JSON text that carries the request.
    pub fn to_json(&self) -> (body: String)
        ensures
            body@ == object_text(self@.json_members()),
    {
        self.json_object().render()
    }
}

impl Clone for EmbeddingRequest {
    fn clone(&self) -> (out: Self)
        ensures
            out@ == self@,
    {
        EmbeddingRequest {
            input: self.input.clone(),
            model: self.model,
            encoding_format: self.encoding_format,
            user: clone_opt_text(&self.user),
        }
    }
}

impl IntoRequest for EmbeddingRequest {
    open spec fn request(&self, base_url: Seq<char>) -> HttpRequestView {
        json_post(base_url + "/embeddings"@, object_text(self@.json_members()))
    }

    fn into_request(self, base_url: &str) -> (req: HttpRequest) {
        HttpRequest::post_json(base_url, "/embeddings", self.to_json())
    }
}

/// The JSON object has the members `input` and `model`, and one for each of
/// the other fields that is set: a field that is not set has no member.
pub proof fn lemma_unset_fields_are_omitted(req: EmbeddingRequestView)
    ensures
        has_key(req.json_members(), "input"@),
        has_key(req.json_members(), "model"@),
        has_key(req.json_members(), "encoding_format"@) <==> req.encoding_format is Some,
        has_key(req.json_members(), "user"@) <==> req.user is Some,
{
    reveal_strlit("input");
    reveal_strlit("model");
    reveal_strlit("encoding_format");
    reveal_strlit("user");
    assert("input"@.len() == 5 && "model"@.len() == 5);
    assert("encoding_format"@.len() == 15 && "user"@.len() == 4);
    let fixed = seq![
        ("input"@, req.input.json_text()),
        ("model"@, json_string_text(req.model.wire())),
    ];
    let format = string_value(
        match req.encoding_format {
            Some(format) => Some(format.wire()),
            None => None,
        },
    );
    let user = string_value(req.user);
    let upto_format = fixed + optional_member("encoding_format"@, format);
    lemma_has_key_optional("encoding_format"@, format);
    lemma_has_key_optional("user"@, user);
    lemma_has_key_concat(fixed, optional_member("encoding_format"@, format));
    lemma_has_key_concat(upto_format, optional_member("user"@, user));
    assert(fixed[0].0 == "input"@);
    assert(fixed[1].0 == "model"@);
    assert forall|key: Seq<char>| #[trigger]
        has_key(fixed, key) implies key == "input"@ || key == "model"@ by {
        let i = choose|i: int| 0 <= i < fixed.len() && (#[trigger] fixed[i]).0 == key;
        assert(i == 0 || i == 1);
    }
}

/// A builder whose input is set stands for a request whose JSON object has a
/// member for each optional field that was given to the builder, and for no other.
pub proof fn lemma_builder_omits_unset_fields(builder: EmbeddingRequestBuilderView)
    requires
        builder.input is Some,
    ensures
        has_key(builder.built().json_members(), "encoding_format"@) <==> builder.encoding_format
            is Some,
        has_key(builder.built().json_members(), "user"@) <==> builder.user is Some,
{
    lemma_unset_fields_are_omitted(builder.built());
}

/// Collects the fields of an [`EmbeddingRequest`].  The input is required.
#[derive(Debug)]
pub struct EmbeddingRequestBuilder {
    input: Option<EmbeddingInput>,
    model: Option<EmbeddingModel>,
    encoding_format: Option<EmbeddingEncodingFormat>,
    user: Option<String>,
}

/// What an [`EmbeddingRequestBuilder`] holds: for each field, the value it was given.
pub struct EmbeddingRequestBuilderView {
    pub input: Option<EmbeddingInputView>,
    pub model: Option<EmbeddingModel>,
    pub encoding_format: Option<EmbeddingEncodingFormat>,
    pub user: Option<Seq<char>>,
}

impl EmbeddingRequestBuilderView {
    /// No field is set.
    pub open spec fn empty() -> Self {
        EmbeddingRequestBuilderView { input: None, model: None, encoding_format: None, user: None }
    }

    /// The required fields that are unset.
    pub open spec fn missing(self) -> Seq<RequiredField> {
        if self.input is None {
            seq![RequiredField::Input]
        } else {
            seq![]
        }
    }

    /// The request that the builder stands for once the input is set: an
    /// unset model takes its default, and every other unset field stays unset.
    pub open spec fn built(self) -> EmbeddingRequestView {
        EmbeddingRequestView {
            input: self.input->0,
            model: match self.model {
                Some(model) => model,
                None => EmbeddingModel::TextEmbeddingAda002,
            },
            encoding_format: self.encoding_format,
            user: self.user,
        }
    }
}

/// What an optional input holds.
pub open spec fn opt_input(value: Option<EmbeddingInput>) -> Option<EmbeddingInputView> {
    match value {
        Some(input) => Some(input@),
        None => None,
    }
}

impl View for EmbeddingRequestBuilder {
    type V = EmbeddingRequestBuilderView;

    closed spec fn view(&self) -> EmbeddingRequestBuilderView {
        EmbeddingRequestBuilderView {
            input: opt_input(self.input),
            model: self.model,
            encoding_format: self.encoding_format,
            user: opt_text(self.user),
        }
    }
}

impl Clone for EmbeddingRequestBuilder {
    fn clone(&self) -> (out: Self)
        ensures
            out@ == self@,
    {
        EmbeddingRequestBuilder {
            input: match &self.input {
                Some(input) => Some(input.clone()),
                None => None,
            },
            model: self.model,
            encoding_format: self.encoding_format,
            user: clone_opt_text(&self.user),
        }
    }
}

impl Default for EmbeddingRequestBuilder {
    fn default() -> (out: Self)
        ensures
            out@ == EmbeddingRequestBuilderView::empty(),
    {
        EmbeddingRequestBuilder { input: None, model: None, encoding_format: None, user: None }
    }
}

impl EmbeddingRequestBuilder {
    pub fn input(&mut self, value: EmbeddingInput) -> (ret: &mut Self)
        ensures
            ret@ == (EmbeddingRequestBuilderView { input: Some(value@), ..old(self)@ }),
            *final(self) == *final(ret),
    {
        self.input = Some(value);
        self
    }
    pub fn model(&mut self, value: EmbeddingModel) -> (ret: &mut Self)
        ensures
            ret@ == (EmbeddingRequestBuilderView { model: Some(value), ..old(self)@ }),
            *final(self) == *final(ret),
    {
        self.model = Some(value);
        self
    }
    pub fn encoding_format(&mut self, value: EmbeddingEncodingFormat) -> (ret: &mut Self)
        ensures
            ret@ == (EmbeddingRequestBuilderView { encoding_format: Some(value), ..old(self)@ }),
            *final(self) == *final(ret),
    {
        self.encoding_format = Some(value);
        self
    }
    pub fn user(&mut self, value: &str) -> (ret: &mut Self)
        ensures
            ret@ == (EmbeddingRequestBuilderView { user: Some(value@), ..old(self)@ }),
            *final(self) == *final(ret),
    {
        self.user = Some(value.to_owned());
        self
    }
    /// The request, if the input is set; otherwise the error that names it.
    pub fn build(&self) -> (out: Result<EmbeddingRequest, ValidationError>)
        ensures
            match out {
                Ok(req) => self@.missing().len() == 0 && req@ == self@.built(),
                Err(e) => self@.missing().len() > 0 && e.missing@ == self@.missing(),
            },
    {
        match &self.input {
            Some(input) => Ok(
                EmbeddingRequest {
                    input: input.clone(),
                    model: match self.model {
                        Some(model) => model,
                        None => EmbeddingModel::default(),
                    },
                    encoding_format: self.encoding_format,
                    user: clone_opt_text(&self.user),
                },
            ),
            None => {
                let mut missing: Vec<RequiredField> = Vec::new();
                missing.push(RequiredField::Input);
                assert(missing@ =~= self@.missing());
                Err(ValidationError { missing })
            },
        }
    }
}

/// How many tokens a request used.
#[derive(Clone, Copy, Debug, PartialEq, Eq, Structural)]
pub struct EmbeddingUsage {
    pub prompt_tokens: usize,
    pub total_tokens: usize,
}

} // verus!
