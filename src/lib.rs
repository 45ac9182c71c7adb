//! Client for a document-conversion service: a request builder that gathers
//! multipart fields for an endpoint, and the decisions that drive one
//! conversion from submission to the last byte written to a sink.
pub mod conversion;
pub mod error;
pub mod form;
pub mod html;
pub mod http;
pub mod url;

pub use conversion::{Action, Conversion, Event, Stage};
pub use error::Error;
pub use form::FieldView;
pub use html::Html;
pub use url::build_url;
