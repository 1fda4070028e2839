//! Assembly of the HTTP endpoints and credentials the clients talk to.
use vstd::prelude::*;
use vstd::string::*;

verus! {

/// Where a request goes and the `Authorization` header it carries.
pub struct HttpTarget {
    pub url: String,
    pub authorization: String,
}

/// The OpenAI-compatible API root used when none is configured.
pub open spec fn default_base_url() -> Seq<char> {
    "https://api.openai.com/v1"@
}

/// `base` followed by `path`, as `format!("{}{}", base, path)` gives it.
pub(crate) fn join_url(base: &str, path: &str) -> (u: String)
    ensures
        u@ == base@ + path@,
{
    let mut u = String::from_str(base);
    u.append(path);
    u
}

/// The bearer-token value of an `Authorization` header for `key`.
pub(crate) fn bearer(key: &str) -> (h: String)
    ensures
        h@ == "Bearer "@ + key@,
{
    let mut h = String::from_str("Bearer ");
    h.append(key);
    h
}

/// The default API root as an owned string.
pub(crate) fn default_base_url_string() -> (s: String)
    ensures
        s@ == default_base_url(),
{
    String::from_str("https://api.openai.com/v1")
}

} // verus!
