//! The request builder for HTML conversions.
use crate::error::Error;
use crate::form::{form_fields, is_media_char, is_plain_media_type, with_file, with_text, FieldView};
use crate::http::{parsed_url, post_multipart, request_form, request_method, request_url, url_accepted};
use crate::url::{build_url, joined_url};
use vstd::prelude::*;

verus! {

/// The endpoint path of an HTML conversion, below the service's base URL.
pub open spec fn html_path() -> Seq<char> {
    "convert/html"@
}

/// The field name of a page-range selection.
pub open spec fn page_ranges_field() -> Seq<char> {
    "pageRanges"@
}

/// The field name of an uploaded file.
pub open spec fn files_field() -> Seq<char> {
    "files"@
}

/// The content type that every uploaded file is declared with.
pub open spec fn octet_stream() -> Seq<char> {
    "application/octet-stream"@
}

/// One call on the builder that adds a field.
pub enum Addition {
    /// `pages` with this page-range selection.
    Pages(Seq<char>),
    /// `file` with this file name and content.
    File(Seq<char>, reqwest::Body),
}

/// The field that an addition puts in the form.
pub open spec fn field_of(a: Addition) -> FieldView {
    match a {
        Addition::Pages(spec) => FieldView::Text { name: page_ranges_field(), value: spec },
        Addition::File(file_name, content) => FieldView::File {
            name: files_field(),
            file_name,
            content_type: octet_stream(),
            content,
        },
    }
}

/// The fields of a new builder after these additions, one step at a time.
pub open spec fn fields_after(adds: Seq<Addition>) -> Seq<FieldView>
    decreases adds.len(),
{
    if adds.len() == 0 {
        Seq::empty()
    } else {
        fields_after(adds.drop_last()).push(field_of(adds.last()))
    }
}

/// Whatever additions are made to a new builder, its form holds exactly one
/// field per addition, in the order of the calls, each with the name, value
/// and file name that the call supplied.
pub proof fn lemma_one_field_per_addition(adds: Seq<Addition>)
    ensures
        fields_after(adds).len() == adds.len(),
        forall|i: int| 0 <= i < adds.len() ==> #[trigger] fields_after(adds)[i] == field_of(adds[i]),
    decreases adds.len(),
{
    if adds.len() > 0 {
        lemma_one_field_per_addition(adds.drop_last());
        assert forall|i: int| 0 <= i < adds.len() implies #[trigger] fields_after(adds)[i] == field_of(
            adds[i],
        ) by {
            if i < adds.len() - 1 {
                assert(adds.drop_last()[i] == adds[i]);
            }
        }
    }
}

/// The content type of uploaded files is a plain media type.
proof fn lemma_octet_stream_is_plain()
    ensures
        is_plain_media_type(octet_stream()),
{
    reveal_strlit("application/octet-stream");
    let m = octet_stream();
    assert(m.len() == 24);
    assert(m[11] == '/');
    assert forall|j: int| 0 <= j < m.len() && j != 11 implies #[trigger] is_media_char(m[j]) by {}
}

/// A conversion request being built: the client that will send it, the URL it
/// goes to, and the form fields gathered so far. Each step takes the builder
/// and hands back the next one.
pub struct Html {
    client: reqwest::Client,
    url: String,
    form: reqwest::multipart::Form,
}

impl Html {
    /// The client that will send the request.
    pub closed spec fn client(&self) -> reqwest::Client {
        self.client
    }

    /// The URL the request goes to.
    pub closed spec fn url(&self) -> Seq<char> {
        self.url@
    }

    /// The fields of the form, in the order they were added.
    pub closed spec fn fields(&self) -> Seq<FieldView> {
        form_fields(self.form)
    }

    /// A builder for `endpoint`'s HTML conversion, with no fields yet.
    pub fn new(client: reqwest::Client, endpoint: String) -> (r: Html)
        ensures
            r.client() == client,
            r.url() == joined_url(endpoint@, html_path()),
            r.fields() == Seq::<FieldView>::empty(),
    {
        Html { client, url: build_url(endpoint, "convert/html"), form: reqwest::multipart::Form::new() }
    }

    /// Adds a page-range selection, passed on as written.
    pub fn pages(self, pages: String) -> (r: Html)
        ensures
            r.client() == self.client(),
            r.url() == self.url(),
            r.fields() == self.fields().push(field_of(Addition::Pages(pages@))),
    {
        let Html { client, url, form } = self;
        Html { client, url, form: with_text(form, "pageRanges", pages) }
    }

    /// Adds a file under `file_name`, declared as a generic byte stream
    /// whatever its content.
    pub fn file(self, file_name: String, content: reqwest::Body) -> (r: Html)
        ensures
            r.client() == self.client(),
            r.url() == self.url(),
            r.fields() == self.fields().push(field_of(Addition::File(file_name@, content))),
    {
        let Html { client, url, form } = self;
        let media_type = "application/octet-stream";
        proof {
            lemma_octet_stream_is_plain();
        }
        match with_file(form, "files", file_name, media_type, content) {
            Ok(form) => Html { client, url, form },
            Err(_) => vstd::pervasive::unreached(),
        }
    }

    /// Finishes the builder into a POST of its form to its URL, handed back
    /// with the client that is to send it. Fails, with an HTTP error, exactly
    /// where reqwest does not accept the URL.
    pub fn convert(self) -> (r: Result<(reqwest::Client, reqwest::Request), Error>)
        ensures
            r is Ok <==> url_accepted(self.url()),
            r matches Ok((c, q)) ==> c == self.client() && request_method(q) == "POST"@
                && request_url(q) == parsed_url(self.url()) && request_form(q) == self.fields(),
            r matches Err(e) ==> e is Http,
    {
        let Html { client, url, form } = self;
        match post_multipart(&client, url.as_str(), form) {
            Ok(request) => Ok((client, request)),
            Err(e) => Err(Error::Http(e)),
        }
    }
}

} // verus!
