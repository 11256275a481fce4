//! The outbound request: its target, its method and the fixed headers it carries.

use vstd::prelude::*;
use vstd::string::*;
use crate::method::{select_method, selects, Method};

verus! {

/// One header of an outbound request.
#[derive(Debug)]
pub struct Header {
    pub name: String,
    pub value: String,
}

impl Header {
    /// The header as a pair of name and value.
    pub open spec fn view_pair(&self) -> (Seq<char>, Seq<char>) {
        (self.name@, self.value@)
    }
}

/// The headers of a request as pairs of name and value.
pub open spec fn header_pairs(hs: Seq<Header>) -> Seq<(Seq<char>, Seq<char>)> {
    hs.map_values(|h: Header| h.view_pair())
}

/// The headers that every outbound request carries, in this order: a JSON content
/// type, and the origin and referer that the remote service expects.
pub open spec fn fixed_header_pairs() -> Seq<(Seq<char>, Seq<char>)> {
    seq![
        ("content-type"@, "application/json"@),
        ("origin"@, "https://nagusamecs.github.io"@),
        ("referer"@, "https://nagusamecs.github.io/OpenNotesAPI/"@),
    ]
}

/// The headers that every outbound request carries.
pub fn fixed_headers() -> (r: Vec<Header>)
    ensures
        header_pairs(r@) == fixed_header_pairs(),
{
    let mut r: Vec<Header> = Vec::new();
    r.push(
        Header {
            name: String::from_str("content-type"),
            value: String::from_str("application/json"),
        },
    );
    r.push(
        Header {
            name: String::from_str("origin"),
            value: String::from_str("https://nagusamecs.github.io"),
        },
    );
    r.push(
        Header {
            name: String::from_str("referer"),
            value: String::from_str("https://nagusamecs.github.io/OpenNotesAPI/"),
        },
    );
    assert(header_pairs(r@) =~= fixed_header_pairs());
    r
}

/// One outbound request, as it is to be sent.
#[derive(Debug)]
pub struct FetchRequest {
    pub url: String,
    pub method: Method,
    pub headers: Vec<Header>,
}

/// Plans the one request that a fetch sends: to the given URL, unchecked, with the
/// method that the optional name selects and with the fixed headers, whatever the
/// URL and the method.
pub fn plan_request(url: String, method: Option<String>) -> (r: FetchRequest)
    ensures
        r.url@ == url@,
        selects(method, r.method),
        header_pairs(r.headers@) == fixed_header_pairs(),
{
    let m = select_method(method);
    FetchRequest { url, method: m, headers: fixed_headers() }
}

} // verus!
