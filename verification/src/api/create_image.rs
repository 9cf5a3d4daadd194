//! Image generation.

use crate::error::{RequiredField, ValidationError};
use crate::http::{json_post, HttpRequest, HttpRequestView, IntoRequest};
use crate::json::{
    has_key, json_string_text, lemma_has_key_concat, lemma_has_key_optional, no_nulls,
    object_text, optional_member, string_value, unsigned_value, JsonObject,
};
use crate::text::{clone_opt_text, opt_text};
use vstd::prelude::*;
use vstd::string::*;

verus! {

/// The model that draws.
#[derive(Clone, Copy, Debug, PartialEq, Eq, Structural)]
pub enum ImageModel {
    DallE3,
}

impl ImageModel {
    /// The name that the API knows the model by.
    pub open spec fn wire(self) -> Seq<char> {
        "dall-e-3"@
    }

    /// The value as it is written on the wire.
    pub fn as_str(&self) -> (s: &'static str)
        ensures
            s@ == self.wire(),
    {
        "dall-e-3"
    }
}

impl Default for ImageModel {
    fn default() -> (out: Self)
        ensures
            out == ImageModel::DallE3,
    {
        ImageModel::DallE3
    }
}

/// How fine the image is to be.
#[derive(Clone, Copy, Debug, PartialEq, Eq, Structural)]
pub enum ImageQuality {
    Standard,
    Hd,
}

impl ImageQuality {
    /// The string that stands for the value on the wire.
    pub open spec fn wire(self) -> Seq<char> {
        match self {
            ImageQuality::Standard => "standard"@,
            ImageQuality::Hd => "hd"@,
        }
    }

    /// The value as it is written on the wire.
    pub fn as_str(&self) -> (s: &'static str)
        ensures
            s@ == self.wire(),
    {
        match self {
            ImageQuality::Standard => "standard",
            ImageQuality::Hd => "hd",
        }
    }
}

impl Default for ImageQuality {
    fn default() -> (out: Self)
        ensures
            out == ImageQuality::Standard,
    {
        ImageQuality::Standard
    }
}

/// How the image is handed back: as a URL, or as base64 text.
#[derive(Clone, Copy, Debug, PartialEq, Eq, Structural)]
pub enum ImageResponseFormat {
    Url,
    B64Json,
}

impl ImageResponseFormat {
    /// The string that stands for the value on the wire.
    pub open spec fn wire(self) -> Seq<char> {
        match self {
            ImageResponseFormat::Url => "url"@,
            ImageResponseFormat::B64Json => "b64_json"@,
        }
    }

    /// The value as it is written on the wire.
    pub fn as_str(&self) -> (s: &'static str)
        ensures
            s@ == self.wire(),
    {
        match self {
            ImageResponseFormat::Url => "url",
            ImageResponseFormat::B64Json => "b64_json",
        }
    }
}

impl Default for ImageResponseFormat {
    fn default() -> (out: Self)
        ensures
            out == ImageResponseFormat::Url,
    {
        ImageResponseFormat::Url
    }
}

/// The size of the image in pixels, width by height.
#[derive(Clone, Copy, Debug, PartialEq, Eq, Structural)]
pub enum ImageSize {
    Large,
    LargeWide,
    LargeTall,
}

impl ImageSize {
    /// The string that stands for the value on the wire.
    pub open spec fn wire(self) -> Seq<char> {
        match self {
            ImageSize::Large => "1024x1024"@,
            ImageSize::LargeWide => "1792x1024"@,
            ImageSize::LargeTall => "1024x1792"@,
        }
    }

    /// The value as it is written on the wire.
    pub fn as_str(&self) -> (s: &'static str)
        ensures
            s@ == self.wire(),
    {
        match self {
            ImageSize::Large => "1024x1024",
            ImageSize::LargeWide => "1792x1024",
            ImageSize::LargeTall => "1024x1792",
        }
    }
}

impl Default for ImageSize {
    fn default() -> (out: Self)
        ensures
            out == ImageSize::Large,
    {
        ImageSize::Large
    }
}

/// The style of the image.
#[derive(Clone, Copy, Debug, PartialEq, Eq, Structural)]
pub enum ImageStyle {
    Vivid,
    Natural,
}

impl ImageStyle {
    /// The string that stands for the value on the wire.
    pub open spec fn wire(self) -> Seq<char> {
        match self {
            ImageStyle::Vivid => "vivid"@,
            ImageStyle::Natural => "natural"@,
        }
    }

    /// The value as it is written on the wire.
    pub fn as_str(&self) -> (s: &'static str)
        ensures
            s@ == self.wire(),
    {
        match self {
            ImageStyle::Vivid => "vivid",
            ImageStyle::Natural => "natural",
        }
    }
}

impl Default for ImageStyle {
    fn default() -> (out: Self)
        ensures
            out == ImageStyle::Vivid,
    {
        ImageStyle::Vivid
    }
}

/// A request for images that match a description.
#[derive(Debug)]
pub struct CreateImageRequest {
    /// The description of the image.
    prompt: String,
    model: ImageModel,
    /// How many images to make.
    n: Option<usize>,
    quality: Option<ImageQuality>,
    response_format: Option<ImageResponseFormat>,
    size: Option<ImageSize>,
    style: Option<ImageStyle>,
    /// An identifier of the end user.
    user: Option<String>,
}

/// What a [`CreateImageRequest`] holds.
pub struct CreateImageRequestView {
    pub prompt: Seq<char>,
    pub model: ImageModel,
    pub n: Option<usize>,
    pub quality: Option<ImageQuality>,
    pub response_format: Option<ImageResponseFormat>,
    pub size: Option<ImageSize>,
    pub style: Option<ImageStyle>,
    pub user: Option<Seq<char>>,
}

impl CreateImageRequestView {
    /// The members of the JSON object that carries the request, in the order
    /// in which they are written.  A field that is not set has no member.
    pub open spec fn json_members(self) -> Seq<(Seq<char>, Seq<char>)> {
        seq![
            ("prompt"@, json_string_text(self.prompt)),
            ("model"@, json_string_text(self.model.wire())),
        ] + optional_member(
            "n"@,
            unsigned_value(
                match self.n {
                    Some(n) => Some(n as nat),
                    None => None,
                },
            ),
        ) + optional_member(
            "quality"@,
            string_value(
                match self.quality {
                    Some(quality) => Some(quality.wire()),
                    None => None,
                },
            ),
        ) + optional_member(
            "response_format"@,
            string_value(
                match self.response_format {
                    Some(format) => Some(format.wire()),
                    None => None,
                },
            ),
        ) + optional_member(
            "size"@,
            string_value(
                match self.size {
                    Some(size) => Some(size.wire()),
                    None => None,
                },
            ),
        ) + optional_member(
            "style"@,
            string_value(
                match self.style {
                    Some(style) => Some(style.wire()),
                    None => None,
                },
            ),
        ) + optional_member("user"@, string_value(self.user))
    }
}

impl View for CreateImageRequest {
    type V = CreateImageRequestView;

    closed spec fn view(&self) -> CreateImageRequestView {
        CreateImageRequestView {
            prompt: self.prompt@,
            model: self.model,
            n: self.n,
            quality: self.quality,
            response_format: self.response_format,
            size: self.size,
            style: self.style,
            user: opt_text(self.user),
        }
    }
}

impl CreateImageRequest {
    /// A request for `prompt`, with every option left to the API.
    pub fn new(prompt: &str) -> (req: Self)
        ensures
            req@ == (CreateImageRequestView {
                prompt: prompt@,
                model: ImageModel::DallE3,
                n: None,
                quality: None,
                response_format: None,
                size: None,
                style: None,
                user: None,
            }),
    {
        CreateImageRequest {
            prompt: prompt.to_owned(),
            model: ImageModel::DallE3,
            n: None,
            quality: None,
            response_format: None,
            size: None,
            style: None,
            user: None,
        }
    }

    /// The JSON object that carries the request.  No member is `null`.
    pub fn json_object(&self) -> (object: JsonObject)
        ensures
            object@ == self@.json_members(),
            no_nulls(object@),
    {
        let mut object = JsonObject::new();
        object.string("prompt", self.prompt.as_str());
        object.string("model", self.model.as_str());
        assert(object@ =~= seq![
            ("prompt"@, json_string_text(self@.prompt)),
            ("model"@, json_string_text(self@.model.wire())),
        ]);
        object.optional_unsigned(
            "n",
            match self.n {
                Some(n) => Some(n as u64),
                None => None,
            },
        );
        object.optional_string(
            "quality",
            match self.quality {
                Some(quality) => Some(quality.as_str()),
                None => None,
            },
        );
        object.optional_string(
            "response_format",
            match self.response_format {
                Some(format) => Some(format.as_str()),
                None => None,
            },
        );
        object.optional_string(
            "size",
            match self.size {
                Some(size) => Some(size.as_str()),
                None => None,
            },
        );
        object.optional_string(
            "style",
            match self.style {
                Some(style) => Some(style.as_str()),
                None => None,
            },
        );
        object.optional_string(
            "user",
            match &self.user {
                Some(user) => Some(user.as_str()),
                None => None,
            },
        );
        object
    }

    /// The JSON text that carries the request.
    pub fn to_json(&self) -> (body: String)
        ensures
            body@ == object_text(self@.json_members()),
    {
        self.json_object().render()
    }
}

impl Clone for CreateImageRequest {
    fn clone(&self) -> (out: Self)
        ensures
            out@ == self@,
    {
        CreateImageRequest {
            prompt: self.prompt.clone(),
            model: self.model,
            n: self.n,
            quality: self.quality,
            response_format: self.response_format,
            size: self.size,
            style: self.style,
            user: clone_opt_text(&self.user),
        }
    }
}

impl IntoRequest for CreateImageRequest {
    open spec fn request(&self, base_url: Seq<char>) -> HttpRequestView {
        json_post(base_url + "/images/generations"@, object_text(self@.json_members()))
    }

    fn into_request(self, base_url: &str) -> (req: HttpRequest) {
        HttpRequest::post_json(base_url, "/images/generations", self.to_json())
    }
}

/// The JSON object has the members `prompt` and `model`, and one for each of
/// the other fields that is set: a field that is not set has no member.
pub proof fn lemma_unset_fields_are_omitted(req: CreateImageRequestView)
    ensures
        has_key(req.json_members(), "prompt"@),
        has_key(req.json_members(), "model"@),
        has_key(req.json_members(), "n"@) <==> req.n is Some,
        has_key(req.json_members(), "quality"@) <==> req.quality is Some,
        has_key(req.json_members(), "response_format"@) <==> req.response_format is Some,
        has_key(req.json_members(), "size"@) <==> req.size is Some,
        has_key(req.json_members(), "style"@) <==> req.style is Some,
        has_key(req.json_members(), "user"@) <==> req.user is Some,
{
    reveal_strlit("prompt");
    reveal_strlit("model");
    reveal_strlit("n");
    reveal_strlit("quality");
    reveal_strlit("response_format");
    reveal_strlit("size");
    reveal_strlit("style");
    reveal_strlit("user");
    assert("prompt"@.len() == 6 && "model"@.len() == 5 && "n"@.len() == 1);
    assert("quality"@.len() == 7 && "response_format"@.len() == 15);
    assert("size"@.len() == 4 && "style"@.len() == 5 && "user"@.len() == 4);
    assert("model"@[0] == 'm' && "style"@[0] == 's');
    assert("size"@[0] == 's' && "user"@[0] == 'u');
    let fixed = seq![
        ("prompt"@, json_string_text(req.prompt)),
        ("model"@, json_string_text(req.model.wire())),
    ];
    let n = unsigned_value(
        match req.n {
            Some(n) => Some(n as nat),
            None => None,
        },
    );
    let quality = string_value(
        match req.quality {
            Some(quality) => Some(quality.wire()),
            None => None,
        },
    );
    let format = string_value(
        match req.response_format {
            Some(format) => Some(format.wire()),
            None => None,
        },
    );
    let size = string_value(
        match req.size {
            Some(size) => Some(size.wire()),
            None => None,
        },
    );
    let style = string_value(
        match req.style {
            Some(style) => Some(style.wire()),
            None => None,
        },
    );
    let user = string_value(req.user);
    let upto_n = fixed + optional_member("n"@, n);
    let upto_quality = upto_n + optional_member("quality"@, quality);
    let upto_format = upto_quality + optional_member("response_format"@, format);
    let upto_size = upto_format + optional_member("size"@, size);
    let upto_style = upto_size + optional_member("style"@, style);
    lemma_has_key_optional("n"@, n);
    lemma_has_key_optional("quality"@, quality);
    lemma_has_key_optional("response_format"@, format);
    lemma_has_key_optional("size"@, size);
    lemma_has_key_optional("style"@, style);
    lemma_has_key_optional("user"@, user);
    lemma_has_key_concat(fixed, optional_member("n"@, n));
    lemma_has_key_concat(upto_n, optional_member("quality"@, quality));
    lemma_has_key_concat(upto_quality, optional_member("response_format"@, format));
    lemma_has_key_concat(upto_format, optional_member("size"@, size));
    lemma_has_key_concat(upto_size, optional_member("style"@, style));
    lemma_has_key_concat(upto_style, optional_member("user"@, user));
    assert(fixed[0].0 == "prompt"@);
    assert(fixed[1].0 == "model"@);
    assert forall|key: Seq<char>| #[trigger]
        has_key(fixed, key) implies key == "prompt"@ || key == "model"@ by {
        let i = choose|i: int| 0 <= i < fixed.len() && (#[trigger] fixed[i]).0 == key;
        assert(i == 0 || i == 1);
    }
}

/// A builder whose prompt is set stands for a request whose JSON object has a
/// member for each optional field that was given to the builder, and for no other.
pub proof fn lemma_builder_omits_unset_fields(builder: CreateImageRequestBuilderView)
    requires
        builder.prompt is Some,
    ensures
        has_key(builder.built().json_members(), "n"@) <==> builder.n is Some,
        has_key(builder.built().json_members(), "quality"@) <==> builder.quality is Some,
        has_key(builder.built().json_members(), "response_format"@) <==> builder.response_format
            is Some,
        has_key(builder.built().json_members(), "size"@) <==> builder.size is Some,
        has_key(builder.built().json_members(), "style"@) <==> builder.style is Some,
        has_key(builder.built().json_members(), "user"@) <==> builder.user is Some,
{
    lemma_unset_fields_are_omitted(builder.built());
}

/// Collects the fields of a [`CreateImageRequest`].  The prompt is required.
#[derive(Debug)]
pub struct CreateImageRequestBuilder {
    prompt: Option<String>,
    model: Option<ImageModel>,
    n: Option<usize>,
    quality: Option<ImageQuality>,
    response_format: Option<ImageResponseFormat>,
    size: Option<ImageSize>,
    style: Option<ImageStyle>,
    user: Option<String>,
}

/// What a [`CreateImageRequestBuilder`] holds: for each field, the value it was given.
pub struct CreateImageRequestBuilderView {
    pub prompt: Option<Seq<char>>,
    pub model: Option<ImageModel>,
    pub n: Option<usize>,
    pub quality: Option<ImageQuality>,
    pub response_format: Option<ImageResponseFormat>,
    pub size: Option<ImageSize>,
    pub style: Option<ImageStyle>,
    pub user: Option<Seq<char>>,
}

impl CreateImageRequestBuilderView {
    /// No field is set.
    pub open spec fn empty() -> Self {
        CreateImageRequestBuilderView {
            prompt: None,
            model: None,
            n: None,
            quality: None,
            response_format: None,
            size: None,
            style: None,
            user: None,
        }
    }

    /// The required fields that are unset.
    pub open spec fn missing(self) -> Seq<RequiredField> {
        if self.prompt is None {
            seq![RequiredField::Prompt]
        } else {
            seq![]
        }
    }

    /// The request that the builder stands for once the prompt is set: an
    /// unset model takes its default, and every other unset field stays unset.
    pub open spec fn built(self) -> CreateImageRequestView {
        CreateImageRequestView {
            prompt: self.prompt->0,
            model: match self.model {
                Some(model) => model,
                None => ImageModel::DallE3,
            },
            n: self.n,
            quality: self.quality,
            response_format: self.response_format,
            size: self.size,
            style: self.style,
            user: self.user,
        }
    }
}

impl View for CreateImageRequestBuilder {
    type V = CreateImageRequestBuilderView;

    closed spec fn view(&self) -> CreateImageRequestBuilderView {
        CreateImageRequestBuilderView {
            prompt: opt_text(self.prompt),
            model: self.model,
            n: self.n,
            quality: self.quality,
            response_format: self.response_format,
            size: self.size,
            style: self.style,
            user: opt_text(self.user),
        }
    }
}

impl Clone for CreateImageRequestBuilder {
    fn clone(&self) -> (out: Self)
        ensures
            out@ == self@,
    {
        CreateImageRequestBuilder {
            prompt: clone_opt_text(&self.prompt),
            model: self.model,
            n: self.n,
            quality: self.quality,
            response_format: self.response_format,
            size: self.size,
            style: self.style,
            user: clone_opt_text(&self.user),
        }
    }
}

impl Default for CreateImageRequestBuilder {
    fn default() -> (out: Self)
        ensures
            out@ == CreateImageRequestBuilderView::empty(),
    {
        CreateImageRequestBuilder {
            prompt: None,
            model: None,
            n: None,
            quality: None,
            response_format: None,
            size: None,
            style: None,
            user: None,
        }
    }
}

impl CreateImageRequestBuilder {
    pub fn prompt(&mut self, value: &str) -> (ret: &mut Self)
        ensures
            ret@ == (CreateImageRequestBuilderView { prompt: Some(value@), ..old(self)@ }),
            *final(self) == *final(ret),
    {
        self.prompt = Some(value.to_owned());
        self
    }
    pub fn model(&mut self, value: ImageModel) -> (ret: &mut Self)
        ensures
            ret@ == (CreateImageRequestBuilderView { model: Some(value), ..old(self)@ }),
            *final(self) == *final(ret),
    {
        self.model = Some(value);
        self
    }
    pub fn n(&mut self, value: usize) -> (ret: &mut Self)
        ensures
            ret@ == (CreateImageRequestBuilderView { n: Some(value), ..old(self)@ }),
            *final(self) == *final(ret),
    {
        self.n = Some(value);
        self
    }
    pub fn quality(&mut self, value: ImageQuality) -> (ret: &mut Self)
        ensures
            ret@ == (CreateImageRequestBuilderView { quality: Some(value), ..old(self)@ }),
            *final(self) == *final(ret),
    {
        self.quality = Some(value);
        self
    }
    pub fn response_format(&mut self, value: ImageResponseFormat) -> (ret: &mut Self)
        ensures
            ret@ == (CreateImageRequestBuilderView { response_format: Some(value), ..old(self)@ }),
            *final(self) == *final(ret),
    {
        self.response_format = Some(value);
        self
    }
    pub fn size(&mut self, value: ImageSize) -> (ret: &mut Self)
        ensures
            ret@ == (CreateImageRequestBuilderView { size: Some(value), ..old(self)@ }),
            *final(self) == *final(ret),
    {
        self.size = Some(value);
        self
    }
    pub fn style(&mut self, value: ImageStyle) -> (ret: &mut Self)
        ensures
            ret@ == (CreateImageRequestBuilderView { style: Some(value), ..old(self)@ }),
            *final(self) == *final(ret),
    {
        self.style = Some(value);
        self
    }
    pub fn user(&mut self, value: &str) -> (ret: &mut Self)
        ensures
            ret@ == (CreateImageRequestBuilderView { user: Some(value@), ..old(self)@ }),
            *final(self) == *final(ret),
    {
        self.user = Some(value.to_owned());
        self
    }
    /// The request, if the prompt is set; otherwise the error that names it.
    pub fn build(&self) -> (out: Result<CreateImageRequest, ValidationError>)
        ensures
            match out {
                Ok(req) => self@.missing().len() == 0 && req@ == self@.built(),
                Err(e) => self@.missing().len() > 0 && e.missing@ == self@.missing(),
            },
    {
        match &self.prompt {
            Some(prompt) => Ok(
                CreateImageRequest {
                    prompt: prompt.clone(),
                    model: match self.model {
                        Some(model) => model,
                        None => ImageModel::default(),
                    },
                    n: self.n,
                    quality: self.quality,
                    response_format: self.response_format,
                    size: self.size,
                    style: self.style,
                    user: clone_opt_text(&self.user),
                },
            ),
            None => {
                let mut missing: Vec<RequiredField> = Vec::new();
                missing.push(RequiredField::Prompt);
                assert(missing@ =~= self@.missing());
                Err(ValidationError { missing })
            },
        }
    }
}

/// The images that the API made.
#[derive(Debug)]
pub struct CreateImageResponse {
    /// When the images were made, in seconds since the epoch.
    pub created: u64,
    pub data: Vec<ImageObject>,
}

/// What a [`CreateImageResponse`] holds.
pub struct CreateImageResponseView {
    pub created: u64,
    pub data: Seq<ImageObjectView>,
}

impl View for CreateImageResponse {
    type V = CreateImageResponseView;

    open spec fn view(&self) -> CreateImageResponseView {
        CreateImageResponseView {
            created: self.created,
            data: Seq::new(self.data@.len(), |i: int| self.data@[i]@),
        }
    }
}

impl Clone for CreateImageResponse {
    fn clone(&self) -> (out: Self)
        ensures
            out@ == self@,
    {
        let mut data: Vec<ImageObject> = Vec::new();
        let mut i: usize = 0;
        while i < self.data.len()
            invariant
                i <= self.data.len(),
                data@.len() == i,
                forall|j: int| 0 <= j < i ==> data@[j]@ == self.data@[j]@,
            decreases self.data.len() - i,
        {
            data.push(self.data[i].clone());
            i += 1;
        }
        let out = CreateImageResponse { created: self.created, data };
        assert(out@.data =~= self@.data);
        out
    }
}

/// One image.
#[derive(Debug)]
pub struct ImageObject {
    /// The image as base64 text, where that format was asked for.
    pub b64_json: Option<String>,
    /// Where the image can be fetched, where that format was asked for.
    pub url: Option<String>,
    /// The prompt as the model revised it.
    pub revised_prompt: String,
}

/// What an [`ImageObject`] holds.
pub struct ImageObjectView {
    pub b64_json: Option<Seq<char>>,
    pub url: Option<Seq<char>>,
    pub revised_prompt: Seq<char>,
}

impl View for ImageObject {
    type V = ImageObjectView;

    open spec fn view(&self) -> ImageObjectView {
        ImageObjectView {
            b64_json: opt_text(self.b64_json),
            url: opt_text(self.url),
            revised_prompt: self.revised_prompt@,
        }
    }
}

impl Clone for ImageObject {
    fn clone(&self) -> (out: Self)
        ensures
            out@ == self@,
    {
        ImageObject {
            b64_json: clone_opt_text(&self.b64_json),
            url: clone_opt_text(&self.url),
            revised_prompt: self.revised_prompt.clone(),
        }
    }
}

} // verus!
