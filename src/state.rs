use vstd::prelude::*;

use crate::error::CounterError;

verus! {

/// Number of bytes of an encoded counter record.
pub const RECORD_LEN: usize = 4;

/// The value of four bytes read as a little-endian unsigned 32-bit integer.
pub open spec fn u32_from_le(b: Seq<u8>) -> u32
    recommends
        b.len() == 4,
{
    (b[0] as u32) | ((b[1] as u32) << 8u32) | ((b[2] as u32) << 16u32) | ((b[3] as u32) << 24u32)
}

/// The four little-endian bytes of `n`.
pub open spec fn u32_to_le(n: u32) -> Seq<u8> {
    seq![n as u8, (n >> 8u32) as u8, (n >> 16u32) as u8, (n >> 24u32) as u8]
}

/// Encoding a decoded record gives back the bytes it was decoded from.
pub proof fn lemma_encode_decode(b: Seq<u8>)
    requires
        b.len() == 4,
    ensures
        u32_to_le(u32_from_le(b)) == b,
{
    let (b0, b1, b2, b3) = (b[0], b[1], b[2], b[3]);
    let n = u32_from_le(b);
    assert(n as u8 == b0 && (n >> 8u32) as u8 == b1 && (n >> 16u32) as u8 == b2 && (n >> 24u32)
        as u8 == b3) by (bit_vector)
        requires
            n == (b0 as u32) | ((b1 as u32) << 8u32) | ((b2 as u32) << 16u32) | ((b3 as u32)
                << 24u32),
    ;
    assert(u32_to_le(n) =~= b);
}

/// Decoding an encoded record gives back its value.
pub proof fn lemma_decode_encode(n: u32)
    ensures
        u32_to_le(n).len() == 4,
        u32_from_le(u32_to_le(n)) == n,
{
    let b = u32_to_le(n);
    let (b0, b1, b2, b3) = (b[0], b[1], b[2], b[3]);
    assert(((b0 as u32) | ((b1 as u32) << 8u32) | ((b2 as u32) << 16u32) | ((b3 as u32) << 24u32))
        == n) by (bit_vector)
        requires
            b0 == n as u8,
            b1 == (n >> 8u32) as u8,
            b2 == (n >> 16u32) as u8,
            b3 == (n >> 24u32) as u8,
    ;
}

#[verifier::external_type_specification]
#[verifier::external_body]
pub struct ExBorshIoError(borsh::io::Error);

/// Relies on borsh's `BorshDeserialize::try_from_slice` for `u32`: it reads the
/// value as four little-endian bytes, and fails when the slice is shorter
/// (unexpected length) or longer (not all bytes read).
#[verifier::external_body]
fn borsh_u32_from_slice(bytes: &[u8]) -> (r: Result<u32, borsh::io::Error>)
    ensures
        r is Ok <==> bytes@.len() == 4,
        r is Ok ==> r->Ok_0 == u32_from_le(bytes@),
{
    <u32 as borsh::BorshDeserialize>::try_from_slice(bytes)
}

/// Relies on borsh's `BorshSerialize::serialize` for `u32`, writing through
/// std's `Write for &mut [u8]`: the four little-endian bytes overwrite the front
/// of the buffer, and the write fails when the buffer holds fewer than four.
#[verifier::external_body]
fn borsh_u32_into_slice(value: u32, buf: &mut Vec<u8>) -> (r: Result<(), borsh::io::Error>)
    ensures
        final(buf)@.len() == old(buf)@.len(),
        r is Ok <==> old(buf)@.len() >= 4,
        r is Ok ==> final(buf)@ == u32_to_le(value) + old(buf)@.subrange(4, old(buf)@.len() as int),
{
    let mut dst: &mut [u8] = buf.as_mut_slice();
    borsh::BorshSerialize::serialize(&value, &mut dst)
}

/// The record kept in a counter account's storage.
#[derive(Debug, Clone, Copy, PartialEq, Eq, Structural)]
pub struct CounterAccount {
    pub count: u32,
}

impl CounterAccount {
    /// Decodes a record from the whole of `bytes`, which must be exactly its
    /// four-byte little-endian encoding.
    pub fn try_from_slice(bytes: &[u8]) -> (r: Result<CounterAccount, CounterError>)
        ensures
            r is Ok <==> bytes@.len() == RECORD_LEN,
            r is Ok ==> r->Ok_0.count == u32_from_le(bytes@),
            r is Err ==> r->Err_0 == CounterError::DecodeError,
    {
        match borsh_u32_from_slice(bytes) {
            Ok(count) => Ok(CounterAccount { count }),
            Err(_) => Err(CounterError::DecodeError),
        }
    }

    /// Writes the record's encoding over the first four bytes of `buf`; the rest
    /// of `buf` is left as it was. Fails when `buf` is shorter than a record.
    pub fn serialize(&self, buf: &mut Vec<u8>) -> (r: Result<(), CounterError>)
        ensures
            final(buf)@.len() == old(buf)@.len(),
            r is Ok <==> old(buf)@.len() >= RECORD_LEN,
            r is Ok ==> final(buf)@ == u32_to_le(self.count) + old(buf)@.subrange(
                4,
                old(buf)@.len() as int,
            ),
            r is Err ==> r->Err_0 == CounterError::EncodeError,
    {
        match borsh_u32_into_slice(self.count, buf) {
            Ok(()) => Ok(()),
            Err(_) => Err(CounterError::EncodeError),
        }
    }
}

} // verus!
