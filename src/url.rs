//! Joining an endpoint base and a path.
use vstd::prelude::*;
use vstd::string::StrSliceExecFns;
use vstd::string::StringExecFns;

verus! {

/// The URL for `path` below `base`: one `/` stands between them, unless
/// `base` already ends in one. Nothing else is normalised.
pub open spec fn joined_url(base: Seq<char>, path: Seq<char>) -> Seq<char> {
    if base.len() > 0 && base.last() == '/' {
        base + path
    } else {
        base + seq!['/'] + path
    }
}

/// Whether `s` ends in a slash.
fn ends_in_slash(s: &str) -> (r: bool)
    ensures
        r == (s@.len() > 0 && s@.last() == '/'),
{
    let n = s.unicode_len();
    n > 0 && s.get_char(n - 1) == '/'
}

/// Appends `path` to `endpoint`, inserting a separating slash where
/// `endpoint` does not already end in one.
pub fn build_url(endpoint: String, path: &str) -> (r: String)
    ensures
        r@ == joined_url(endpoint@, path@),
{
    let mut url = endpoint;
    if !ends_in_slash(url.as_str()) {
        url.append("/");
        proof {
            reveal_strlit("/");
        }
    }
    url.append(path);
    url
}

} // verus!
