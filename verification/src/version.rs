//! Comparing a required version with what a tool reports of itself.

use vstd::prelude::*;
use vstd::string::*;
use vstd::utf8::*;
use crate::error::MakeError;
use crate::text::{chars_of, contains, first_line, first_line_len, occurs_in};

verus! {

/// Whether a tool whose standard output was `output` reports the version
/// `required`: the output must be UTF-8 text, and its first line must hold
/// `required` as a contiguous part.
pub open spec fn reported_version(required: Seq<char>, output: Seq<u8>) -> Result<
    bool,
    MakeError,
> {
    if valid_utf8(output) {
        Ok(occurs_in(required, first_line(decode_utf8(output))))
    } else {
        Err(MakeError::InvalidOutput)
    }
}

/// Whether the line `actual_line` reports the version `required`: it does
/// where it holds `required` as a contiguous part, so a version inside a
/// longer banner counts. A mismatch is `Ok(false)`; this comparison never fails.
pub fn is_same_version(required: &str, actual_line: &str) -> (same: Result<bool, MakeError>)
    ensures
        same == Ok::<bool, MakeError>(occurs_in(required@, actual_line@)),
{
    let needle = chars_of(required);
    let hay = chars_of(actual_line);
    Ok(contains(&hay, &needle))
}

/// Decodes `bytes` with `core::str::from_utf8`. That function accepts the
/// bytes exactly where they are valid UTF-8, and then hands out the same
/// bytes as a string slice; where it fails, this gives nothing.
#[verifier::external_body]
fn decode(bytes: &[u8]) -> (text: Option<&str>)
    ensures
        text is Some <==> valid_utf8(bytes@),
        text matches Some(s) ==> s.spec_bytes() == bytes@,
{
    match core::str::from_utf8(bytes) {
        Ok(s) => Some(s),
        Err(_) => None,
    }
}

/// Whether a tool whose standard output was `output` reports the version
/// `required`. Fails with `InvalidOutput` exactly where `output` is not
/// UTF-8 text.
pub fn version_in_output(required: &str, output: &[u8]) -> (same: Result<bool, MakeError>)
    ensures
        same == reported_version(required@, output@),
{
    match decode(output) {
        None => Err(MakeError::InvalidOutput),
        Some(text) => {
            proof {
                encode_utf8_decode_utf8(text@);
            }
            let chars = chars_of(text);
            let len = first_line_len(&chars);
            is_same_version(required, text.substring_char(0, len))
        },
    }
}

} // verus!
