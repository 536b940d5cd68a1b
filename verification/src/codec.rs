//! The bytes in which a reply leaves: DAG-CBOR, written by the encoding crate.
//!
//! The layout of the two values that are encoded here is stated in full. That
//! the outside encoder produces it is believed, not proved. The encoder gives
//! an error only where a reservation of memory fails; memory is taken to
//! suffice, as it is for every allocation, so both calls are taken to succeed.

use vstd::prelude::*;
use vstd::utf8::encode_utf8;

verus! {

/// The error of the encoding crate.
#[verifier::external_type_specification]
#[verifier::external_body]
pub struct ExEncodingError(fvm_ipld_encoding::Error);

/// The last `width` bytes of a number, the most significant first.
pub open spec fn big_endian(n: nat, width: nat) -> Seq<u8>
    decreases width,
{
    if width == 0 {
        Seq::empty()
    } else {
        big_endian(n / 256, (width - 1) as nat).push((n % 256) as u8)
    }
}

/// The head of a CBOR item: the major type in the top three bits of the first
/// byte, and the argument in the shortest of the five forms that holds it.
pub open spec fn cbor_head(major: nat, n: nat) -> Seq<u8>
    recommends
        major < 8,
        n <= u64::MAX,
{
    if n < 24 {
        seq![(major * 32 + n) as u8]
    } else if n < 0x100 {
        seq![(major * 32 + 24) as u8] + big_endian(n, 1)
    } else if n < 0x1_0000 {
        seq![(major * 32 + 25) as u8] + big_endian(n, 2)
    } else if n < 0x1_0000_0000 {
        seq![(major * 32 + 26) as u8] + big_endian(n, 4)
    } else {
        seq![(major * 32 + 27) as u8] + big_endian(n, 8)
    }
}

/// The encoding of a text string: a head of major type 3 with the number of
/// its UTF-8 bytes, then those bytes.
pub open spec fn cbor_string(text: Seq<char>) -> Seq<u8> {
    cbor_head(3, encode_utf8(text).len()) + encode_utf8(text)
}

/// The encoding of an optional number: null for none, else an unsigned
/// integer, which is a head of major type 0 and nothing more.
pub open spec fn cbor_number(value: Option<u64>) -> Seq<u8> {
    match value {
        None => seq![0xf6u8],
        Some(n) => cbor_head(0, n as nat),
    }
}

/// `fvm_ipld_encoding::to_vec` on a string slice: it succeeds, and the bytes
/// are the CBOR text string.
#[verifier::external_body]
pub(crate) fn encode_text(text: &str) -> (r: Result<Vec<u8>, fvm_ipld_encoding::Error>)
    ensures
        r is Ok,
        r matches Ok(bytes) ==> bytes@ == cbor_string(text@),
{
    fvm_ipld_encoding::to_vec(text)
}

/// `RawBytes::serialize` on an optional number: it succeeds, and the bytes are
/// CBOR null for none and the CBOR unsigned integer for a number.
#[verifier::external_body]
pub(crate) fn encode_value(value: Option<u64>) -> (r: Result<Vec<u8>, fvm_ipld_encoding::Error>)
    ensures
        r is Ok,
        r matches Ok(bytes) ==> bytes@ == cbor_number(value),
{
    match fvm_ipld_encoding::RawBytes::serialize(value) {
        Ok(raw) => Ok(raw.into()),
        Err(e) => Err(e),
    }
}

} // verus!
