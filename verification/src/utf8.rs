//! What this crate takes on trust of the standard library's UTF-8 check.

use vstd::prelude::*;
use vstd::string::StringSliceAdditionalSpecFns;
use vstd::utf8::valid_utf8;

verus! {

/// `core::str::Utf8Error`, the reason why bytes are no UTF-8. Nothing of its
/// inside is known here.
#[verifier::external_type_specification]
#[verifier::external_body]
pub struct ExUtf8Error(core::str::Utf8Error);

/// `core::str::from_utf8`, taken on trust from its documentation: it checks
/// that the bytes are valid UTF-8 and fails exactly when they are not; the
/// text it hands back is those same bytes, read as a string slice.
pub assume_specification[ core::str::from_utf8 ](bytes: &[u8]) -> (text: Result<
    &str,
    core::str::Utf8Error,
>)
    ensures
        text is Ok <==> valid_utf8(bytes@),
        text matches Ok(slice) ==> slice.spec_bytes() == bytes@,
;

} // verus!
