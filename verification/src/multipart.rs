//! Multipart forms: `reqwest::multipart::Form`, and what a form holds.

use reqwest::multipart::{Form, Part};
use vstd::prelude::*;
use vstd::utf8::encode_utf8;

verus! {

#[verifier::external_type_specification]
#[verifier::external_body]
pub struct ExForm(Form);

/// One part of a form, as the plain values that make it up.
pub struct PartModel {
    /// The name of the form field.
    pub name: Seq<char>,
    /// The bytes of the part's body.
    pub content: Seq<u8>,
    /// The file name announced for the part, if any.
    pub file_name: Option<Seq<char>>,
    /// The media type announced for the part, if any.
    pub mime: Option<Seq<char>>,
}

/// A text field: its value is sent as UTF-8, without a file name or a media type.
pub open spec fn text_part(name: Seq<char>, value: Seq<char>) -> PartModel {
    PartModel { name, content: encode_utf8(value), file_name: None, mime: None }
}

/// A file field.
pub open spec fn file_part(
    name: Seq<char>,
    content: Seq<u8>,
    file_name: Seq<char>,
    mime: Seq<char>,
) -> PartModel {
    PartModel { name, content, file_name: Some(file_name), mime: Some(mime) }
}

/// The parts of a form, in the order in which they were added and will be sent.
pub uninterp spec fn form_parts(form: Form) -> Seq<PartModel>;

/// Some part has the name `name`.
pub open spec fn has_part(parts: Seq<PartModel>, name: Seq<char>) -> bool {
    exists|i: int| 0 <= i < parts.len() && (#[trigger] parts[i]).name == name
}

/// A name is among the parts of two sequences put together exactly if it is
/// among those of one of them.
pub proof fn lemma_has_part_concat(first: Seq<PartModel>, second: Seq<PartModel>)
    ensures
        forall|name: Seq<char>| #[trigger]
            has_part(first + second, name) <==> has_part(first, name) || has_part(second, name),
{
    let both = first + second;
    assert forall|name: Seq<char>| #[trigger]
        has_part(both, name) <==> has_part(first, name) || has_part(second, name) by {
        if has_part(both, name) {
            let i = choose|i: int| 0 <= i < both.len() && (#[trigger] both[i]).name == name;
            if i < first.len() {
                assert(first[i].name == name);
            } else {
                assert(second[i - first.len()].name == name);
            }
        }
        if has_part(first, name) {
            let i = choose|i: int| 0 <= i < first.len() && (#[trigger] first[i]).name == name;
            assert(both[i].name == name);
        }
        if has_part(second, name) {
            let i = choose|i: int| 0 <= i < second.len() && (#[trigger] second[i]).name == name;
            assert(both[first.len() + i].name == name);
        }
    }
}

/// `c` is a lower-case letter or a digit.
pub open spec fn is_lower_alnum(c: char) -> bool {
    'a' <= c <= 'z' || '0' <= c <= '9'
}

/// `s` is a type and a subtype of lower-case letters and digits around one
/// slash, such as `audio/mp3`.
pub open spec fn is_plain_media_type(s: Seq<char>) -> bool {
    exists|slash: int|
        0 < slash < s.len() - 1 && s[slash] == '/' && forall|i: int|
            0 <= i < s.len() && i != slash ==> is_lower_alnum(#[trigger] s[i])
}

/// `Form::new`: a form without parts.
#[verifier::external_body]
pub(crate) fn form_new() -> (form: Form)
    ensures
        form_parts(form) == Seq::<PartModel>::empty(),
{
    Form::new()
}

/// `Form::text`: appends a text field to the form.  The field's body is the
/// value's UTF-8 bytes; it has neither a file name nor a media type.
#[verifier::external_body]
pub(crate) fn form_text(form: Form, name: &str, value: String) -> (out: Form)
    ensures
        form_parts(out) == form_parts(form).push(text_part(name@, value@)),
{
    form.text(name.to_owned(), value)
}

/// `Part::bytes`, `Part::file_name` and `Part::mime_str`, then `Form::part`:
/// appends a part that holds `content` under the given file name and media
/// type.  `Part::mime_str` fails where `mime` does not parse, and the result is
/// then `None`.  A plain media type always parses, and is recorded as written;
/// of another that parses, its normal form is recorded.
#[verifier::external_body]
pub(crate) fn form_file(
    form: Form,
    name: &str,
    content: Vec<u8>,
    file_name: &str,
    mime: &str,
) -> (out: Option<Form>)
    ensures
        is_plain_media_type(mime@) ==> out is Some,
        out matches Some(f) ==> {
            &&& form_parts(f).len() == form_parts(form).len() + 1
            &&& form_parts(f).drop_last() == form_parts(form)
            &&& form_parts(f).last().name == name@
            &&& form_parts(f).last().content == content@
            &&& form_parts(f).last().file_name == Some(file_name@)
            &&& form_parts(f).last().mime is Some
            &&& is_plain_media_type(mime@) ==> form_parts(f).last().mime == Some(mime@)
        },
{
    match Part::bytes(content).file_name(file_name.to_owned()).mime_str(mime) {
        Ok(part) => Some(form.part(name.to_owned(), part)),
        Err(_) => None,
    }
}

} // verus!
