//! Selecting the HTTP method from the caller's optional, case-insensitive name.

use vstd::prelude::*;
use vstd::string::*;

verus! {

/// The HTTP methods that a fetch can use.
#[derive(Debug, Clone, Copy, PartialEq, Eq, Structural)]
pub enum Method {
    Get,
    Post,
    Put,
    Delete,
}

/// What `str::to_uppercase` makes of a string.
pub uninterp spec fn upper_of(s: Seq<char>) -> Seq<char>;

/// Whether a character is a lower-case ASCII letter.
pub open spec fn is_ascii_lower(c: char) -> bool {
    'a' <= c && c <= 'z'
}

/// The ASCII capital of a character; any other character is left as it is.
pub open spec fn ascii_upper_char(c: char) -> char {
    if is_ascii_lower(c) {
        ((c as u32) - 32) as char
    } else {
        c
    }
}

/// Whether every character of a string is ASCII.
pub open spec fn all_ascii(s: Seq<char>) -> bool {
    forall|i: int| 0 <= i < s.len() ==> (s[i] as u32) < 128
}

/// A string with each ASCII letter in its capital form.
pub open spec fn ascii_upper(s: Seq<char>) -> Seq<char> {
    s.map_values(|c: char| ascii_upper_char(c))
}

/// Relies on `str::to_uppercase`: the result depends on the characters alone,
/// and an ASCII string comes back with each letter in its ASCII capital form.
#[verifier::external_body]
fn to_upper(s: &str) -> (r: String)
    ensures
        r@ == upper_of(s@),
        all_ascii(s@) ==> r@ == ascii_upper(s@),
{
    s.to_uppercase()
}

/// The method that an upper-case method name selects: any name but the three
/// others selects `Get`.
pub open spec fn method_of_upper(u: Seq<char>) -> Method {
    if u == "POST"@ {
        Method::Post
    } else if u == "PUT"@ {
        Method::Put
    } else if u == "DELETE"@ {
        Method::Delete
    } else {
        Method::Get
    }
}

/// The method that a caller's optional method name selects.
pub open spec fn method_of(name: Option<Seq<char>>) -> Method {
    match name {
        Some(s) => method_of_upper(upper_of(s)),
        None => Method::Get,
    }
}

/// The view of an optional string.
pub open spec fn opt_view(name: Option<String>) -> Option<Seq<char>> {
    match name {
        Some(s) => Some(s@),
        None => None,
    }
}

/// Selects the method named by an already upper-cased name.
pub fn method_from_upper(upper: &str) -> (r: Method)
    ensures
        r == method_of_upper(upper@),
{
    let u = String::from_str(upper);
    if u == String::from_str("POST") {
        Method::Post
    } else if u == String::from_str("PUT") {
        Method::Put
    } else if u == String::from_str("DELETE") {
        Method::Delete
    } else {
        Method::Get
    }
}

/// What is known of the method `m` that an optional name selects: no name selects
/// `Get`, and an ASCII name selects what its capitals name.
pub open spec fn selects(name: Option<String>, m: Method) -> bool {
    &&& m == method_of(opt_view(name))
    &&& name is None ==> m == Method::Get
    &&& forall|s: String| name == Some(s) && all_ascii(s@) ==> m == method_of_upper(ascii_upper(s@))
}

/// Selects the method that a caller's optional method name asks for. The name is
/// matched without regard to case; no name, or a name of no other method,
/// selects `Get`.
pub fn select_method(name: Option<String>) -> (r: Method)
    ensures
        selects(name, r),
{
    match name {
        Some(s) => {
            let u = to_upper(s.as_str());
            method_from_upper(u.as_str())
        },
        None => Method::Get,
    }
}

/// Whether two strings differ at most in the case of their ASCII letters.
pub open spec fn same_up_to_ascii_case(a: Seq<char>, b: Seq<char>) -> bool {
    &&& a.len() == b.len()
    &&& forall|i: int| 0 <= i < a.len() ==> ascii_upper_char(a[i]) == ascii_upper_char(b[i])
}

/// Method names are matched without regard to case: two ASCII names that differ
/// only in the case of their letters select the same method.
pub proof fn lemma_method_case_insensitive(a: Seq<char>, b: Seq<char>)
    requires
        all_ascii(a),
        all_ascii(b),
        same_up_to_ascii_case(a, b),
    ensures
        method_of_upper(ascii_upper(a)) == method_of_upper(ascii_upper(b)),
{
    assert(ascii_upper(a) =~= ascii_upper(b));
}

/// An ASCII method name that, in any case, is none of POST, PUT and DELETE selects
/// the same method as the name GET, and so does no name at all.
pub proof fn lemma_unrecognized_method_is_get(s: Seq<char>)
    requires
        all_ascii(s),
        ascii_upper(s) != "POST"@,
        ascii_upper(s) != "PUT"@,
        ascii_upper(s) != "DELETE"@,
    ensures
        method_of_upper(ascii_upper(s)) == method_of_upper(ascii_upper("GET"@)),
        method_of(None) == method_of_upper(ascii_upper("GET"@)),
{
    reveal_strlit("GET");
    reveal_strlit("POST");
    reveal_strlit("PUT");
    reveal_strlit("DELETE");
    assert(ascii_upper("GET"@) =~= "GET"@);
    assert("GET"@ != "POST"@ && "GET"@ != "DELETE"@) by {
        assert("GET"@.len() != "POST"@.len() && "GET"@.len() != "DELETE"@.len());
    }
    assert("GET"@ != "PUT"@) by {
        assert("GET"@[0] != "PUT"@[0]);
    }
}

} // verus!
