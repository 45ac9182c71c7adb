//! What a conversion can fail with.
use vstd::prelude::*;

verus! {

/// A failed conversion.
#[derive(Debug)]
pub enum Error {
    /// The request could not be built or sent, or the body could not be read.
    Http(reqwest::Error),
    /// The sink refused a write.
    Io(std::io::Error),
    /// The service answered with a status outside 2xx: the status and the
    /// body it sent, as text.
    Gotenberg(u16, String),
}

} // verus!
