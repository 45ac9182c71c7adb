//! The HTTP client and the requests it sends.
use crate::form::{form_fields, FieldView};
use reqwest::Error as HttpError;
use vstd::prelude::*;

verus! {

#[verifier::external_type_specification]
#[verifier::external_body]
pub struct ExHttpError(HttpError);

#[verifier::external_type_specification]
#[verifier::external_body]
pub struct ExIoError(std::io::Error);

#[verifier::external_type_specification]
#[verifier::external_body]
pub struct ExClient(reqwest::Client);

#[verifier::external_type_specification]
#[verifier::external_body]
pub struct ExRequest(reqwest::Request);

/// Whether reqwest takes `url` as the URL of a request: it parses, and
/// names a host.
pub uninterp spec fn url_accepted(url: Seq<char>) -> bool;

/// The URL that `url` parses to, as text.
pub uninterp spec fn parsed_url(url: Seq<char>) -> Seq<char>;

/// The method of a request, as text.
pub uninterp spec fn request_method(q: reqwest::Request) -> Seq<char>;

/// The URL of a request, as text.
pub uninterp spec fn request_url(q: reqwest::Request) -> Seq<char>;

/// The fields of the multipart form that a request's body streams.
pub uninterp spec fn request_form(q: reqwest::Request) -> Seq<FieldView>;

/// Relies on `Client::request` with `Method::POST`, `RequestBuilder::multipart`
/// and `RequestBuilder::build`: a POST to `url` whose body streams `form`.
/// Building fails only where `url` is not accepted; the headers that
/// `multipart` adds (the form's boundary, its length) are always valid.
#[verifier::external_body]
pub(crate) fn post_multipart(client: &reqwest::Client, url: &str, form: reqwest::multipart::Form) -> (r:
    Result<reqwest::Request, reqwest::Error>)
    ensures
        r is Ok <==> url_accepted(url@),
        r matches Ok(q) ==> request_method(q) == "POST"@ && request_url(q) == parsed_url(url@)
            && request_form(q) == form_fields(form),
{
    client.request(reqwest::Method::POST, url).multipart(form).build()
}

/// Relies on the `Display` impl of `reqwest::Error`: its message as text,
/// which always starts with a description of the error's kind.
#[verifier::external_body]
pub(crate) fn describe(e: &reqwest::Error) -> (r: String)
    ensures
        r@.len() > 0,
{
    e.to_string()
}

} // verus!
