//! Carrying trace context in HTTP headers.

use http::header::{HeaderName, HeaderValue};
use http::HeaderMap;
use vstd::prelude::*;
use vstd::utf8::encode_utf8;

verus! {

/// A map of HTTP headers of the `http` crate.
#[verifier::external_type_specification]
#[verifier::external_body]
#[verifier::reject_recursive_types(T)]
pub struct ExHeaderMap<T>(HeaderMap<T>);

/// A header value of the `http` crate.
#[verifier::external_type_specification]
#[verifier::external_body]
pub struct ExHeaderValue(HeaderValue);

/// What a header map holds: for each header name in it, in its normalized
/// form, the bytes of the first value stored under that name.
pub uninterp spec fn header_values(map: HeaderMap<HeaderValue>) -> Map<Seq<char>, Seq<u8>>;

/// The bytes a header name may hold: letters, digits and
/// ``! # $ % & ' * + - . ^ _ ` | ~``.
pub open spec fn is_name_byte(b: u8) -> bool {
    b == 33 || (35 <= b && b <= 39) || b == 42 || b == 43 || b == 45 || b == 46 || (48 <= b && b
        <= 57) || (65 <= b && b <= 90) || (94 <= b && b <= 122) || b == 124 || b == 126
}

/// A byte of a header name in lower case.
pub open spec fn lowered(b: u8) -> u8 {
    if 65 <= b && b <= 90 {
        (b + 32) as u8
    } else {
        b
    }
}

/// The normalized form of a header name, or nothing for a text that is no
/// header name. A header name has between 1 and 65535 bytes, all of them
/// name bytes; its normalized form is the same text in lower case.
pub open spec fn header_name_of(key: Seq<char>) -> Option<Seq<char>> {
    let bytes = encode_utf8(key);
    if 1 <= bytes.len() && bytes.len() <= 65535 && (forall|i: int|
        0 <= i < bytes.len() ==> is_name_byte(#[trigger] bytes[i])) {
        Some(Seq::new(bytes.len(), |i: int| lowered(bytes[i]) as char))
    } else {
        None
    }
}

/// The bytes a header value may hold: 32 to 255 without 127, and the tab.
pub open spec fn is_value_byte(b: u8) -> bool {
    b >= 32 && b != 127 || b == 9
}

/// The bytes that make a header value readable as text: 32 to 126, and the
/// tab.
pub open spec fn is_visible_byte(b: u8) -> bool {
    b >= 32 && b < 127 || b == 9
}

/// Whether a text can be stored as a header value.
pub open spec fn is_header_value(text: Seq<u8>) -> bool {
    forall|i: int| 0 <= i < text.len() ==> is_value_byte(#[trigger] text[i])
}

/// Whether a stored header value can be read as text.
pub open spec fn is_visible_value(value: Seq<u8>) -> bool {
    forall|i: int| 0 <= i < value.len() ==> is_visible_byte(#[trigger] value[i])
}

/// Two keys that differ only in the case of their letters name the same
/// header: whatever is stored or looked up under one is stored or looked up
/// under the other.
pub proof fn lemma_header_names_ignore_case(a: Seq<char>, b: Seq<char>)
    requires
        encode_utf8(a).len() == encode_utf8(b).len(),
        forall|i: int|
            0 <= i < encode_utf8(a).len() ==> lowered(#[trigger] encode_utf8(a)[i]) == lowered(
                encode_utf8(b)[i],
            ),
    ensures
        header_name_of(a) == header_name_of(b),
{
    let x = encode_utf8(a);
    let y = encode_utf8(b);
    assert forall|i: int| 0 <= i < x.len() implies (is_name_byte(x[i]) <==> is_name_byte(y[i])) by {
        assert(lowered(x[i]) == lowered(y[i]));
    }
    if header_name_of(a) is Some {
        assert forall|i: int| 0 <= i < y.len() implies is_name_byte(#[trigger] y[i]) by {
            assert(is_name_byte(x[i]));
        }
        assert(header_name_of(a).unwrap() =~= header_name_of(b).unwrap());
    } else if header_name_of(b) is Some {
        assert forall|i: int| 0 <= i < x.len() implies is_name_byte(#[trigger] x[i]) by {
            assert(is_name_byte(y[i]));
        }
    }
}

/// Asks `http::header::HeaderName::from_bytes` whether a text is a header
/// name. It accepts exactly the texts of 1 to 65535 bytes all of which are
/// name bytes.
#[verifier::external_body]
fn is_header_name(key: &str) -> (valid: bool)
    ensures
        valid == header_name_of(key@) is Some,
{
    HeaderName::from_bytes(key.as_bytes()).is_ok()
}

/// Asks `http::header::HeaderValue::from_str` whether it accepts a text. It
/// accepts exactly the texts all of whose bytes are value bytes.
#[verifier::external_body]
fn accepts_value(value: &str) -> (accepted: bool)
    ensures
        accepted == is_header_value(encode_utf8(value@)),
{
    HeaderValue::from_str(value).is_ok()
}

/// Stores a value under a name with `http::HeaderMap::try_insert`, replacing
/// what was stored under that name. The name is `key` as
/// `http::header::HeaderName::from_bytes` normalizes it: in lower case. The
/// map refuses the entry when it cannot grow any further; it is then left
/// as it was.
#[verifier::external_body]
fn store_header(map: &mut HeaderMap<HeaderValue>, key: &str, value: &str) -> (stored: bool)
    requires
        header_name_of(key@) is Some,
        is_header_value(encode_utf8(value@)),
    ensures
        stored ==> header_values(*final(map)) == header_values(*old(map)).insert(
            header_name_of(key@).unwrap(),
            encode_utf8(value@),
        ),
        !stored ==> header_values(*final(map)) == header_values(*old(map)),
{
    match (HeaderName::from_bytes(key.as_bytes()), HeaderValue::from_str(value)) {
        (Ok(name), Ok(value)) => map.try_insert(name, value).is_ok(),
        _ => false,
    }
}

/// Writes trace context into the headers of an outgoing request.
pub struct HeaderInjector<'a>(pub &'a mut HeaderMap<HeaderValue>);

impl<'a> HeaderInjector<'a> {
    /// Set a key and value in the header map. Does nothing if the key or
    /// the value is not valid for a header.
    pub fn set(&mut self, key: &str, value: String)
        ensures
            header_values(*final(self).0) == header_values(*old(self).0) || (header_name_of(key@)
                is Some && is_header_value(encode_utf8(value@)) && header_values(*final(self).0)
                == header_values(*old(self).0).insert(
                header_name_of(key@).unwrap(),
                encode_utf8(value@),
            )),
    {
        if is_header_name(key) && accepts_value(value.as_str()) {
            let _ = store_header(self.0, key, value.as_str());
        }
    }
}

/// What reading a header as text gives: the bytes of the first value stored
/// under the normalized form of `key`, if `key` is a header name, there is
/// such a value, and all its bytes are visible.
pub open spec fn header_text(map: HeaderMap<HeaderValue>, key: Seq<char>) -> Option<Seq<u8>> {
    match header_name_of(key) {
        Some(name) => if header_values(map).dom().contains(name) && is_visible_value(
            header_values(map)[name],
        ) {
            Some(header_values(map)[name])
        } else {
            None
        },
        None => None,
    }
}

/// Looks a header up with `http::HeaderMap::get`, which normalizes `key` as
/// header names are normalized and finds nothing for a text that is no header
/// name, and reads the first value found with
/// `http::header::HeaderValue::to_str`, which gives a text exactly for the
/// values all of whose bytes are visible.
#[verifier::external_body]
fn read_header<'a>(map: &'a HeaderMap<HeaderValue>, key: &str) -> (text: Option<&'a str>)
    ensures
        match text {
            Some(t) => header_text(*map, key@) == Some(encode_utf8(t@)),
            None => header_text(*map, key@) is None,
        },
{
    map.get(key).and_then(|value| value.to_str().ok())
}

/// Collects the header names with `http::HeaderMap::keys`, which yields each
/// name of the map once, in its normalized form.
#[verifier::external_body]
fn header_names<'a>(map: &'a HeaderMap<HeaderValue>) -> (names: Vec<&'a str>)
    ensures
        forall|i: int| 0 <= i < names@.len() ==> header_values(*map).dom().contains(
            #[trigger] names@[i]@,
        ),
        forall|name: Seq<char>|
            (#[trigger] header_values(*map).dom().contains(name)) ==> exists|i: int|
                0 <= i < names@.len() && #[trigger] names@[i]@ == name,
        forall|i: int, j: int|
            0 <= i < j < names@.len() ==> #[trigger] names@[i]@ != #[trigger] names@[j]@,
{
    map.keys().map(|name| name.as_str()).collect()
}

/// Reads trace context from the headers of an incoming request.
pub struct HeaderExtractor<'a>(pub &'a HeaderMap<HeaderValue>);

impl<'a> HeaderExtractor<'a> {
    /// Get a value for a key from the header map. If the value is not
    /// visible ASCII, returns `None`.
    pub fn get(&self, key: &str) -> (text: Option<&'a str>)
        ensures
            match text {
                Some(t) => header_text(*self.0, key@) == Some(encode_utf8(t@)),
                None => header_text(*self.0, key@) is None,
            },
    {
        read_header(self.0, key)
    }

    /// Collect all the keys from the header map: each name once.
    pub fn keys(&self) -> (names: Vec<&'a str>)
        ensures
            forall|i: int| 0 <= i < names@.len() ==> header_values(*self.0).dom().contains(
                #[trigger] names@[i]@,
            ),
            forall|name: Seq<char>|
                (#[trigger] header_values(*self.0).dom().contains(name)) ==> exists|i: int|
                    0 <= i < names@.len() && #[trigger] names@[i]@ == name,
            forall|i: int, j: int|
                0 <= i < j < names@.len() ==> #[trigger] names@[i]@ != #[trigger] names@[j]@,
    {
        header_names(self.0)
    }
}

} // verus!
