//! What the library takes on trust from the crates it is built with.
//!
//! Nothing in this file is proved. Each item states, over plain values, what
//! the named item of `bytes`, of `reqwest` (which hands out the header types
//! of `http`) or of `zip_extract` does according to its source.

use crate::unpack::ExtractionOutcome;
use bytes::Bytes;
use reqwest::header::{HeaderValue, InvalidHeaderValue};
use vstd::prelude::*;
use vstd::string::*;
use zip_extract::ZipExtractError;

verus! {

/// `bytes::Bytes`: an immutable, cheaply cloneable run of bytes.
#[verifier::external_type_specification]
#[verifier::external_body]
pub struct ExBytes(bytes::Bytes);

/// `http::header::HeaderValue`, as `reqwest::header` hands it out.
#[verifier::external_type_specification]
#[verifier::external_body]
pub struct ExHeaderValue(reqwest::header::HeaderValue);

/// `http::header::InvalidHeaderValue`: the refusal of `HeaderValue::from_str`.
#[verifier::external_type_specification]
#[verifier::external_body]
pub struct ExInvalidHeaderValue(reqwest::header::InvalidHeaderValue);

/// `zip_extract::ZipExtractError`: why `zip_extract::extract` gave up.
#[verifier::external_type_specification]
#[verifier::external_body]
pub struct ExZipExtractError(zip_extract::ZipExtractError);

/// The bytes that a `Bytes` holds, in order.
pub uninterp spec fn bytes_content(chunk: Bytes) -> Seq<u8>;

/// The bytes that a `HeaderValue` holds, in order.
pub uninterp spec fn header_value_bytes(value: HeaderValue) -> Seq<u8>;

/// `Bytes::len` returns the number of bytes held.
pub assume_specification[ Bytes::len ](chunk: &Bytes) -> (n: usize)
    ensures
        n == bytes_content(*chunk).len(),
;

/// The bytes that `http` accepts in a header value: everything from the
/// space upwards but DEL, and the horizontal tab.
pub open spec fn header_byte_allowed(b: u8) -> bool {
    (b >= 32 && b != 127) || b == 9
}

/// `HeaderValue::from_str` accepts a string exactly when each of its bytes is
/// allowed in a header value, and the value it then returns holds a copy of
/// those bytes.
#[verifier::external_body]
pub(crate) fn header_value_from_str(text: &str) -> (r: Result<HeaderValue, InvalidHeaderValue>)
    ensures
        r is Ok <==> (forall|i: int|
            0 <= i < text.spec_bytes().len() ==> header_byte_allowed(#[trigger] text.spec_bytes()[i])),
        r matches Ok(value) ==> header_value_bytes(value) == text.spec_bytes(),
{
    HeaderValue::from_str(text)
}

/// Tells the variants of `ZipExtractError` apart. `Io` becomes `IoFailure`
/// with the text of the error, `Zip` becomes `FormatFailure`, and
/// `StripToplevel` becomes `PathNormalizationFailure` with the path of the
/// entry and the text of the error. The contract claims only that no error
/// counts as a success.
#[verifier::external_body]
pub(crate) fn failure_of(error: ZipExtractError) -> (outcome: ExtractionOutcome)
    ensures
        !(outcome@ is Success),
{
    match error {
        ZipExtractError::Io(error) => ExtractionOutcome::IoFailure(error.to_string()),
        ZipExtractError::Zip(_) => ExtractionOutcome::FormatFailure,
        ZipExtractError::StripToplevel { toplevel: _, path, error } => {
            ExtractionOutcome::PathNormalizationFailure(
                path.to_string_lossy().into_owned(),
                error.to_string(),
            )
        },
    }
}

} // verus!
