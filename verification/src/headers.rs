//! The header fields of a captured response.
//!
//! A response keeps its fields in the HTTP client's own `HeaderMap`. The map
//! is opaque here: `header_fields` names what it holds, and the two lookups
//! that the checks make are stated over that name.

use reqwest::header::HeaderMap;
use vstd::prelude::*;
use vstd::string::StringSliceAdditionalSpecFns;

verus! {

/// The HTTP client's map of header fields. Nothing of its inside is known
/// here.
#[verifier::external_type_specification]
#[verifier::external_body]
#[verifier::reject_recursive_types(T)]
pub struct ExHeaderMap<T>(reqwest::header::HeaderMap<T>);

/// The HTTP client's header value, a string of bytes. Nothing of its inside
/// is known here.
#[verifier::external_type_specification]
#[verifier::external_body]
pub struct ExHeaderValue(reqwest::header::HeaderValue);

/// What a header map holds: each field name that is stored in it, with the
/// bytes of the first value stored under that name. Stored names are in
/// lower case.
pub uninterp spec fn header_fields(m: HeaderMap) -> Map<Seq<char>, Seq<u8>>;

/// `c`, with an upper-case ASCII letter replaced by its lower-case form.
pub open spec fn fold_char(c: char) -> char {
    if 'A' <= c && c <= 'Z' {
        ((c as u8) + 32) as char
    } else {
        c
    }
}

/// `name`, with each upper-case ASCII letter replaced by its lower-case form:
/// the form under which a lookup by text searches the map.
pub open spec fn fold_name(name: Seq<char>) -> Seq<char> {
    Seq::new(name.len(), |i: int| fold_char(name[i]))
}

/// The bytes of a text in UTF-8.
pub open spec fn utf8(text: Seq<char>) -> Seq<u8> {
    vstd::utf8::encode_utf8(text)
}

/// `HeaderMap::contains_key` with a text as the key. The map lowers the ASCII
/// letters of the key and answers whether a field of that name is stored; a
/// key that is no valid field name matches no stored name.
#[verifier::external_body]
pub(crate) fn contains_key(m: &HeaderMap, name: &str) -> (b: bool)
    ensures
        b == header_fields(*m).contains_key(fold_name(name@)),
{
    m.contains_key(name)
}

/// `HeaderMap::get` with a text as the key, and `HeaderValue::as_bytes` on
/// what it finds. The map searches as `contains_key` does and gives the first
/// value stored under the name; the value comes back as a copy of its bytes.
#[verifier::external_body]
pub(crate) fn get(m: &HeaderMap, name: &str) -> (v: Option<Vec<u8>>)
    ensures
        v is Some == header_fields(*m).contains_key(fold_name(name@)),
        v matches Some(bytes) ==> bytes@ == header_fields(*m)[fold_name(name@)],
{
    match m.get(name) {
        Some(value) => Some(value.as_bytes().to_vec()),
        None => None,
    }
}

/// Whether a header value is, byte for byte, the given text.
pub fn value_is(value: &Vec<u8>, text: &str) -> (r: bool)
    ensures
        r == (value@ == utf8(text@)),
{
    let t = text.as_bytes();
    if value.len() != t.len() {
        return false;
    }
    let mut i: usize = 0;
    while i < value.len()
        invariant
            value.len() == t.len(),
            t@ == text.spec_bytes(),
            i <= value.len(),
            forall|k: int| 0 <= k < i ==> value@[k] == t@[k],
        decreases value.len() - i,
    {
        if value[i] != t[i] {
            return false;
        }
        i += 1;
    }
    assert(value@ =~= t@);
    true
}

/// Whether a header value holds the given byte.
pub fn value_contains(value: &Vec<u8>, byte: u8) -> (r: bool)
    ensures
        r == value@.contains(byte),
{
    let mut i: usize = 0;
    while i < value.len()
        invariant
            i <= value.len(),
            forall|k: int| 0 <= k < i ==> value@[k] != byte,
        decreases value.len() - i,
    {
        if value[i] == byte {
            return true;
        }
        i += 1;
    }
    false
}

} // verus!
