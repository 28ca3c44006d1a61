//! The CBOR data items that the library writes, and the `c2pa_cbor` calls that it makes.

use vstd::prelude::*;
use vstd::utf8::encode_utf8;

use crate::bytes::be32;
use crate::cose::sign1_bytes;

verus! {

/// The eight big-endian bytes of `n`.
pub open spec fn be64(n: nat) -> Seq<u8> {
    be32((n / 0x1_0000_0000) as u32) + be32((n % 0x1_0000_0000) as u32)
}

/// The head of a data item: its major type and its argument, in the shortest form.
pub open spec fn cbor_head(major: nat, n: nat) -> Seq<u8> {
    if n < 24 {
        seq![(major * 32 + n) as u8]
    } else if n < 0x100 {
        seq![(major * 32 + 24) as u8, n as u8]
    } else if n < 0x1_0000 {
        seq![(major * 32 + 25) as u8, (n / 0x100) as u8, (n % 0x100) as u8]
    } else if n < 0x1_0000_0000 {
        seq![(major * 32 + 26) as u8] + be32(n as u32)
    } else {
        seq![(major * 32 + 27) as u8] + be64(n)
    }
}

/// An integer.
pub open spec fn cbor_int(i: int) -> Seq<u8> {
    if i >= 0 {
        cbor_head(0, i as nat)
    } else {
        cbor_head(1, (-1 - i) as nat)
    }
}

/// A byte string.
pub open spec fn cbor_bytes(bytes: Seq<u8>) -> Seq<u8> {
    cbor_head(2, bytes.len()) + bytes
}

/// A text string.
pub open spec fn cbor_text(text: Seq<char>) -> Seq<u8> {
    cbor_head(3, encode_utf8(text).len()) + encode_utf8(text)
}

/// A CBOR value of the `c2pa_cbor` crate.
#[verifier::external_type_specification]
#[verifier::external_body]
pub struct ExCborValue(c2pa_cbor::Value);

/// The data item that `c2pa_cbor` writes for a value.
pub uninterp spec fn cbor_encoding(value: c2pa_cbor::Value) -> Seq<u8>;

/// The value that `c2pa_cbor` reads from a data item, by the data item it would write for it, or
/// the words of its refusal.
pub uninterp spec fn cbor_decoding(bytes: Seq<u8>) -> Result<Seq<u8>, Seq<char>>;

/// A byte string, `c2pa_cbor::Value::Bytes`.
///
/// It is written as a head in its shortest form and then the bytes.
#[verifier::external_body]
fn bytes_value(bytes: &[u8]) -> (r: c2pa_cbor::Value)
    ensures
        cbor_encoding(r) == cbor_bytes(bytes@),
{
    c2pa_cbor::Value::Bytes(bytes.to_vec())
}

/// Writes a value with `c2pa_cbor::to_vec`.
///
/// Writing a value to a vector does not fail.
#[verifier::external_body]
pub(crate) fn encode_value(value: &c2pa_cbor::Value) -> (r: Result<Vec<u8>, String>)
    ensures
        r is Ok,
        r->Ok_0@ == cbor_encoding(*value),
{
    c2pa_cbor::to_vec(value).map_err(|e| e.to_string())
}

/// Writes a byte string.
pub fn encode_bytes(bytes: &[u8]) -> (r: Result<Vec<u8>, String>)
    ensures
        r matches Ok(v) && v@ == cbor_bytes(bytes@),
{
    encode_value(&bytes_value(bytes))
}

/// The longest byte string that `c2pa_cbor::from_slice` reads.
pub const LONGEST_BYTES: usize = 104857600;

/// Reads a value with `c2pa_cbor::from_slice`.
///
/// What is read depends on the bytes alone. Tags are kept, so a tagged `COSE_Sign1` with at most a
/// key identifier in its unprotected header, whose items have the shortest form and are not longer
/// than the limit that the reader sets, is read as a value that is written the same way.
#[verifier::external_body]
pub(crate) fn decode_value(bytes: &[u8]) -> (r: Result<c2pa_cbor::Value, String>)
    ensures
        match cbor_decoding(bytes@) {
            Ok(encoding) => r matches Ok(v) && cbor_encoding(v) == encoding,
            Err(words) => r matches Err(e) && e@ == words,
        },
        forall|protected: Seq<u8>, key_id: Seq<u8>, payload: Option<Seq<u8>>, signature: Seq<u8>|
            bytes@ == #[trigger] sign1_bytes(protected, key_id, payload, signature)
                && protected.len() <= LONGEST_BYTES && key_id.len() <= LONGEST_BYTES
                && signature.len() <= LONGEST_BYTES && (payload is Some ==> payload->Some_0.len()
                <= LONGEST_BYTES) ==> r is Ok && cbor_encoding(r->Ok_0) == bytes@,
{
    c2pa_cbor::from_slice(bytes).map_err(|e| e.to_string())
}

/// Copies a value with its derived `Clone`: the copy is written as the value is.
#[verifier::external_body]
pub(crate) fn copy_value(value: &c2pa_cbor::Value) -> (r: c2pa_cbor::Value)
    ensures
        cbor_encoding(r) == cbor_encoding(*value),
{
    value.clone()
}

} // verus!
