//! Conversions between protocol byte lines and Rust strings.
//!
//! The protocol carries bytes; callers see `String`s. The two conversions go
//! through `std`'s UTF-8 machinery, stated here against vstd's UTF-8 model.

use vstd::prelude::*;

verus! {

use vstd::utf8::{decode_utf8, valid_utf8};

/// What `String::from_utf8_lossy` makes of a byte sequence: a function of the
/// bytes alone.
pub uninterp spec fn lossy_decode(bytes: Seq<u8>) -> Seq<char>;

/// Relies on std's `String::from_utf8`: succeeds exactly on valid UTF-8 and
/// returns its decoding.
#[verifier::external_body]
pub fn bytes_to_string(v: Vec<u8>) -> (r: Option<String>)
    ensures
        match r {
            Some(s) => valid_utf8(v@) && s@ == decode_utf8(v@),
            None => !valid_utf8(v@),
        },
{
    String::from_utf8(v).ok()
}

/// Relies on std's `String::from_utf8_lossy`: the result depends on the bytes
/// alone, and on valid UTF-8 it is the plain decoding.
#[verifier::external_body]
pub fn bytes_to_string_lossy(v: &Vec<u8>) -> (r: String)
    ensures
        r@ == lossy_decode(v@),
        valid_utf8(v@) ==> r@ == decode_utf8(v@),
{
    String::from_utf8_lossy(v.as_slice()).into_owned()
}

} // verus!
