//! The header set of the session: fixed, the same for every client, and sent
//! with every request so that the portal sees an ordinary desktop browser.

use vstd::prelude::*;
use crate::form::pair;

verus! {

/// The seven headers, by lowercase name, in the order in which they are set.
pub open spec fn header_set() -> Seq<(Seq<char>, Seq<char>)> {
    seq![
        (
            "user-agent"@,
            "Mozilla/5.0 (X11; Linux x86_64; rv:69.0) Gecko/20100101 Firefox/69.0"@,
        ),
        ("accept"@, "text/html,application/xhtml+xml,application/xml;q=0.9,*/*;q=0.8"@),
        ("accept-language"@, "zh-CN,en-US;q=0.5"@),
        ("accept-encoding"@, "gzip, deflate"@),
        ("dnt"@, "1"@),
        ("connection"@, "keep-alive"@),
        ("upgrade-insecure-requests"@, "1"@),
    ]
}

/// Builds the header set. A transport takes it once, when it is made, and
/// attaches it to every request.
pub fn default_headers() -> (headers: Vec<(String, String)>)
    ensures
        headers.deep_view() == header_set(),
{
    let mut headers: Vec<(String, String)> = Vec::new();
    headers.push(
        pair(
            "user-agent",
            "Mozilla/5.0 (X11; Linux x86_64; rv:69.0) Gecko/20100101 Firefox/69.0".to_owned(),
        ),
    );
    headers.push(
        pair(
            "accept",
            "text/html,application/xhtml+xml,application/xml;q=0.9,*/*;q=0.8".to_owned(),
        ),
    );
    headers.push(pair("accept-language", "zh-CN,en-US;q=0.5".to_owned()));
    headers.push(pair("accept-encoding", "gzip, deflate".to_owned()));
    headers.push(pair("dnt", "1".to_owned()));
    headers.push(pair("connection", "keep-alive".to_owned()));
    headers.push(pair("upgrade-insecure-requests", "1".to_owned()));
    assert(headers.deep_view() =~= header_set());
    headers
}

} // verus!
