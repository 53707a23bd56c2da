//! The few places where the library leans on outside code: UTF-8 decoding,
//! fresh identifiers, and URL validation. Everything else is verified.

use vstd::prelude::*;

verus! {

#[verifier::external_type_specification]
#[verifier::external_body]
pub struct ExUtf8Error(core::str::Utf8Error);

/// Relies on core::str::from_utf8: it succeeds exactly on valid UTF-8 and
/// returns a string slice over the given bytes.
pub assume_specification<'a>[ core::str::from_utf8 ](v: &'a [u8]) -> (r: Result<
    &'a str,
    core::str::Utf8Error,
>)
    ensures
        r is Ok <==> vstd::utf8::valid_utf8(v@),
        r matches Ok(s) ==> vstd::string::StringSliceAdditionalSpecFns::spec_bytes(s) == v@,
;

/// A lowercase hexadecimal digit.
pub open spec fn lower_hex_digit(c: char) -> bool {
    ('0' <= c && c <= '9') || ('a' <= c && c <= 'f')
}

/// The canonical hyphenated UUID rendering: 36 characters, hyphens exactly
/// at the four fixed positions, lowercase hexadecimal digits elsewhere.
pub open spec fn uuid_shape(s: Seq<char>) -> bool {
    &&& s.len() == 36
    &&& (forall|i: int|
        #![trigger s[i]]
        0 <= i < 36 ==> (if i == 8 || i == 13 || i == 18 || i == 23 {
            s[i] == '-'
        } else {
            lower_hex_digit(s[i])
        }))
}

/// Relies on uuid::Uuid::new_v4 for a fresh random identifier, rendered in
/// the canonical hyphenated form: 36 characters, hyphens at positions 8, 13,
/// 18 and 23, lowercase hexadecimal digits everywhere else.
#[verifier::external_body]
pub fn fresh_uuid() -> (r: String)
    ensures
        r@.len() == 36,
        uuid_shape(r@),
{
    uuid::Uuid::new_v4().to_string()
}

/// Whether the `url` crate accepts a string as an absolute URL.
pub uninterp spec fn url_ok(s: Seq<char>) -> bool;

/// Relies on url::Url::parse: parsing without a base is a deterministic
/// function of the input string, succeeding exactly on well-formed URLs.
#[verifier::external_body]
pub fn check_url(s: &str) -> (r: bool)
    ensures
        r == url_ok(s@),
{
    url::Url::parse(s).is_ok()
}

} // verus!
