//! An HTTP request as plain values: what is to be sent, before anything is sent.

use crate::multipart::{form_parts, PartModel};
use reqwest::multipart::Form;
use vstd::prelude::*;
use vstd::string::*;

verus! {

/// The HTTP method of a request.  Every operation of the API is a `POST`.
#[derive(Clone, Copy, Debug, PartialEq, Eq, Structural)]
pub enum Method {
    Post,
}

/// A header line: a name and a value.
#[derive(Debug)]
pub struct Header {
    pub name: String,
    pub value: String,
}

impl View for Header {
    type V = (Seq<char>, Seq<char>);

    open spec fn view(&self) -> (Seq<char>, Seq<char>) {
        (self.name@, self.value@)
    }
}

/// Names and values of the headers.
pub open spec fn header_views(headers: Seq<Header>) -> Seq<(Seq<char>, Seq<char>)> {
    Seq::new(headers.len(), |i: int| headers[i]@)
}

/// The body of a request.
#[derive(Debug)]
pub enum Body {
    /// JSON text.
    Json(String),
    /// A multipart form.
    Multipart(Form),
}

/// What a [`Body`] holds.
pub enum BodyView {
    Json(Seq<char>),
    Multipart(Seq<PartModel>),
}

impl View for Body {
    type V = BodyView;

    open spec fn view(&self) -> BodyView {
        match self {
            Body::Json(text) => BodyView::Json(text@),
            Body::Multipart(form) => BodyView::Multipart(form_parts(*form)),
        }
    }
}

/// A request that is ready to be sent.
#[derive(Debug)]
pub struct HttpRequest {
    pub method: Method,
    pub url: String,
    /// The headers, in the order in which they were attached.
    pub headers: Vec<Header>,
    /// The time allowed for the whole exchange, in seconds; `None` sets no limit.
    pub timeout_secs: Option<u64>,
    pub body: Body,
}

/// What an [`HttpRequest`] holds.
pub struct HttpRequestView {
    pub method: Method,
    pub url: Seq<char>,
    pub headers: Seq<(Seq<char>, Seq<char>)>,
    pub timeout_secs: Option<u64>,
    pub body: BodyView,
}

impl View for HttpRequest {
    type V = HttpRequestView;

    open spec fn view(&self) -> HttpRequestView {
        HttpRequestView {
            method: self.method,
            url: self.url@,
            headers: header_views(self.headers@),
            timeout_secs: self.timeout_secs,
            body: self.body@,
        }
    }
}

/// A `POST` of the JSON text `body` to `url`, announced as `application/json`.
pub open spec fn json_post(url: Seq<char>, body: Seq<char>) -> HttpRequestView {
    HttpRequestView {
        method: Method::Post,
        url,
        headers: seq![("content-type"@, "application/json"@)],
        timeout_secs: None,
        body: BodyView::Json(body),
    }
}

/// A `POST` of a multipart form to `url`.  The content type, which names the
/// form's boundary, is attached when the form is handed to the transport.
pub open spec fn multipart_post(url: Seq<char>, parts: Seq<PartModel>) -> HttpRequestView {
    HttpRequestView {
        method: Method::Post,
        url,
        headers: seq![],
        timeout_secs: None,
        body: BodyView::Multipart(parts),
    }
}

impl HttpRequest {
    /// A `POST` of the JSON text `body` to `base_url` followed by `path`.
    pub fn post_json(base_url: &str, path: &str, body: String) -> (req: HttpRequest)
        ensures
            req@ == json_post(base_url@ + path@, body@),
    {
        let mut headers: Vec<Header> = Vec::new();
        headers.push(
            Header {
                name: String::from_str("content-type"),
                value: String::from_str("application/json"),
            },
        );
        let req = HttpRequest {
            method: Method::Post,
            url: String::from_str(base_url).concat(path),
            headers,
            timeout_secs: None,
            body: Body::Json(body),
        };
        assert(req@.headers =~= seq![("content-type"@, "application/json"@)]);
        req
    }

    /// A `POST` of `form` to `base_url` followed by `path`.
    pub fn post_multipart(base_url: &str, path: &str, form: Form) -> (req: HttpRequest)
        ensures
            req@ == multipart_post(base_url@ + path@, form_parts(form)),
    {
        let req = HttpRequest {
            method: Method::Post,
            url: String::from_str(base_url).concat(path),
            headers: Vec::new(),
            timeout_secs: None,
            body: Body::Multipart(form),
        };
        assert(req@.headers =~= seq![]);
        req
    }
}

/// A request value that knows how it goes on the wire.
pub trait IntoRequest: Sized {
    /// The HTTP request that carries `self` to the API at `base_url`.
    spec fn request(&self, base_url: Seq<char>) -> HttpRequestView;

    fn into_request(self, base_url: &str) -> (req: HttpRequest)
        ensures
            req@ == self.request(base_url@),
    ;
}

} // verus!
