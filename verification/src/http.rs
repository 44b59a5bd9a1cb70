use vstd::prelude::*;

use crate::strutil::{is_prefix_of, str_eq, str_starts_with};

verus! {

/// HTTP response data, reduced to what the output stage reads: the status,
/// its reason phrase, the Content-Type header if one came, and the body text.
pub struct Response {
    pub status: u16,
    pub status_message: String,
    pub content_type: Option<String>,
    pub body: String,
}

/// Whether the URL already carries an explicit scheme.
pub open spec fn has_scheme(u: Seq<char>) -> bool {
    is_prefix_of("https://"@, u) || is_prefix_of("http://"@, u)
}

/// Normalize url by adding https://
pub fn normalize_url(url: &str) -> (r: String)
    ensures
        has_scheme(url@) ==> r@ == url@,
        !has_scheme(url@) ==> r@ == "https://"@ + url@,
{
    if !str_starts_with(url, "https://") && !str_starts_with(url, "http://") {
        let mut s = String::from_str("https://");
        s.append(url);
        s
    } else {
        String::from_str(url)
    }
}

/// The five methods the tool can send.
pub open spec fn known_method(m: Seq<char>) -> bool {
    m == "GET"@ || m == "POST"@ || m == "PUT"@ || m == "DELETE"@ || m == "PATCH"@
}

/// The one outbound request: URL, effective method, whether a JSON
/// Content-Type header goes with it, and the payload.
pub struct RequestPlan {
    pub url: String,
    pub method: String,
    pub json_content_type: bool,
    pub body: Option<String>,
}

/// Plans the outbound request: an unknown method falls back to GET, and a
/// present body carries the `Content-Type: application/json` header.
pub fn build_request(url: &str, method: &str, body: Option<String>) -> (r: RequestPlan)
    ensures
        r.url@ == url@,
        known_method(method@) ==> r.method@ == method@,
        !known_method(method@) ==> r.method@ == "GET"@,
        r.json_content_type == (body is Some),
        r.body == body,
{
    let known = str_eq(method, "GET") || str_eq(method, "POST") || str_eq(method, "PUT")
        || str_eq(method, "DELETE") || str_eq(method, "PATCH");
    let m = if known {
        String::from_str(method)
    } else {
        String::from_str("GET")
    };
    let json_content_type = body.is_some();
    RequestPlan { url: String::from_str(url), method: m, json_content_type, body }
}

} // verus!
