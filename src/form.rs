//! The multipart form of a request, and what it holds.
use vstd::prelude::*;

verus! {

#[verifier::external_type_specification]
#[verifier::external_body]
pub struct ExForm(reqwest::multipart::Form);

#[verifier::external_type_specification]
#[verifier::external_body]
pub struct ExBody(reqwest::Body);

/// One entry of a form's list of fields: its name and the part stored
/// under it.
pub enum FieldView {
    /// A part without a file name: the field's name and its text.
    Text { name: Seq<char>, value: Seq<char> },
    /// A part with a file name: the field's name, the file name, the stored
    /// media type and the body that streams the file's bytes.
    File { name: Seq<char>, file_name: Seq<char>, content_type: Seq<char>, content: reqwest::Body },
}

/// A character allowed in a plain media type: a lowercase ASCII letter or `-`.
pub open spec fn is_media_char(c: char) -> bool {
    ('a' <= c && c <= 'z') || c == '-'
}

/// A media type without parameters written in lowercase, such as
/// `text/html`: a type and a subtype, neither empty, around one `/`.
pub open spec fn is_plain_media_type(m: Seq<char>) -> bool {
    exists|i: int|
        0 < i < m.len() - 1 && m[i] == '/' && forall|j: int|
            0 <= j < m.len() && j != i ==> #[trigger] is_media_char(m[j])
}

/// The fields that a form holds, in the order they were added.
pub uninterp spec fn form_fields(f: reqwest::multipart::Form) -> Seq<FieldView>;

/// Relies on `Form::new`: a form without fields.
pub assume_specification[ reqwest::multipart::Form::new ]() -> (r: reqwest::multipart::Form)
    ensures
        form_fields(r) == Seq::<FieldView>::empty(),
;

/// Relies on `Form::text`: it appends one text field after the others.
#[verifier::external_body]
pub(crate) fn with_text(form: reqwest::multipart::Form, name: &'static str, value: String) -> (r:
    reqwest::multipart::Form)
    ensures
        form_fields(r) == form_fields(form).push(FieldView::Text { name: name@, value: value@ }),
{
    form.text(name, value)
}

/// Relies on `Part::stream`, `Part::file_name`, `Part::mime_str` and
/// `Form::part`: a part streaming `content`, with that file name and media
/// type, is appended after the other fields. `mime_str` accepts a plain
/// lowercase media type and stores it as written.
#[verifier::external_body]
pub(crate) fn with_file(
    form: reqwest::multipart::Form,
    name: &'static str,
    file_name: String,
    media_type: &str,
    content: reqwest::Body,
) -> (r: Result<reqwest::multipart::Form, reqwest::Error>)
    requires
        is_plain_media_type(media_type@),
    ensures
        r is Ok,
        r matches Ok(f) ==> form_fields(f) == form_fields(form).push(
            FieldView::File { name: name@, file_name: file_name@, content_type: media_type@, content },
        ),
{
    let part = reqwest::multipart::Part::stream(content).file_name(file_name).mime_str(media_type)?;
    Ok(form.part(name, part))
}

} // verus!
