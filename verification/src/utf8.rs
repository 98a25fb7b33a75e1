//! What the standard library's UTF-8 check is taken to do.

use core::str::Utf8Error;
use vstd::prelude::*;
use vstd::utf8::*;

verus! {

/// `core::str::Utf8Error`, the standard library's report on bytes that are
/// not UTF-8. Nothing is known of its contents here; it is only carried.
#[verifier::external_type_specification]
#[verifier::external_body]
pub struct ExUtf8Error(Utf8Error);

/// The report that `core::str::from_utf8` gives for `bytes` when they are not
/// UTF-8. The report depends on the bytes alone.
pub uninterp spec fn utf8_failure(bytes: Seq<u8>) -> Utf8Error;

/// `core::str::from_utf8` accepts exactly the byte sequences that are valid
/// UTF-8 and hands them back as the text they encode; for any other sequence
/// it returns its report on these bytes.
pub assume_specification[ core::str::from_utf8 ](v: &[u8]) -> (r: Result<&str, Utf8Error>)
    ensures
        match r {
            Ok(s) => valid_utf8(v@) && s@ == decode_utf8(v@),
            Err(e) => !valid_utf8(v@) && e == utf8_failure(v@),
        },
;

} // verus!
