//! Numbers and keys as they lie in account data and instruction payloads:
//! little-endian, fixed width, nothing in between.

use vstd::prelude::*;
use vstd::slice::slice_subrange;

use crate::state::{key_of, lemma_key_of, Pubkey};

verus! {

/// The number that `bytes` spell, least significant byte first.
pub open spec fn le_value(bytes: Seq<u8>) -> nat
    decreases bytes.len(),
{
    if bytes.len() == 0 {
        0
    } else {
        bytes[0] as nat + 256 * le_value(bytes.drop_first())
    }
}

/// The `width` low-order bytes of `value`, least significant first.
pub open spec fn le_bytes(value: nat, width: nat) -> Seq<u8>
    decreases width,
{
    if width == 0 {
        Seq::empty()
    } else {
        seq![(value % 256) as u8] + le_bytes(value / 256, (width - 1) as nat)
    }
}

/// The number of values that `width` bytes can spell.
pub open spec fn radix(width: nat) -> nat
    decreases width,
{
    if width == 0 {
        1
    } else {
        256 * radix((width - 1) as nat)
    }
}

/// The 64-bit number that starts at byte `at` of `data`.
pub open spec fn u64_at(data: Seq<u8>, at: int) -> u64 {
    le_value(data.subrange(at, at + 8)) as u64
}

/// The 128-bit number that starts at byte `at` of `data`.
pub open spec fn u128_at(data: Seq<u8>, at: int) -> u128 {
    le_value(data.subrange(at, at + 16)) as u128
}

/// The key that starts at byte `at` of `data`.
pub open spec fn key_at(data: Seq<u8>, at: int) -> Pubkey {
    key_of(data.subrange(at, at + 32))
}

/// `le_bytes` gives as many bytes as asked for.
pub proof fn lemma_le_bytes_len(value: nat, width: nat)
    ensures
        le_bytes(value, width).len() == width,
    decreases width,
{
    if width > 0 {
        lemma_le_bytes_len(value / 256, (width - 1) as nat);
    }
}

/// Writing a number that fits and reading the bytes back gives the number.
pub proof fn lemma_le_value_of_bytes(value: nat, width: nat)
    requires
        value < radix(width),
    ensures
        le_value(le_bytes(value, width)) == value,
    decreases width,
{
    if width > 0 {
        let rest = le_bytes(value / 256, (width - 1) as nat);
        lemma_le_value_of_bytes(value / 256, (width - 1) as nat);
        assert(le_bytes(value, width).drop_first() =~= rest);
    }
}

/// Eight bytes spell every 64-bit number and nothing more.
pub proof fn lemma_radix_u64()
    ensures
        radix(8) == u64::MAX + 1,
{
    reveal_with_fuel(radix, 9);
}

/// `borsh::from_slice::<u64>`: reads eight bytes as a little-endian number
/// and fails on any other count of bytes, too few or left over.
#[verifier::external_body]
fn decode_u64(bytes: &[u8]) -> (value: Option<u64>)
    ensures
        value is Some <==> bytes@.len() == 8,
        value is Some ==> value->0 as nat == le_value(bytes@),
{
    borsh::from_slice::<u64>(bytes).ok()
}

/// `borsh::from_slice::<u128>`: reads sixteen bytes as a little-endian
/// number and fails on any other count of bytes.
#[verifier::external_body]
fn decode_u128(bytes: &[u8]) -> (value: Option<u128>)
    ensures
        value is Some <==> bytes@.len() == 16,
        value is Some ==> value->0 as nat == le_value(bytes@),
{
    borsh::from_slice::<u128>(bytes).ok()
}

/// `borsh::from_slice::<[u8; 32]>`: copies thirty-two bytes as they stand
/// and fails on any other count of bytes.
#[verifier::external_body]
fn decode_key(bytes: &[u8]) -> (value: Option<Pubkey>)
    ensures
        value is Some <==> bytes@.len() == 32,
        value is Some ==> value->0@ == bytes@,
{
    borsh::from_slice::<[u8; 32]>(bytes).ok()
}

/// `borsh::to_vec::<u64>`: the eight bytes of the number, least significant
/// first. Writing into a fresh vector does not fail.
#[verifier::external_body]
fn encode_u64(value: u64) -> (bytes: Option<Vec<u8>>)
    ensures
        bytes is Some,
        bytes->0@ == le_bytes(value as nat, 8),
{
    borsh::to_vec(&value).ok()
}

/// Appends the eight little-endian bytes of `value`.
pub(crate) fn push_u64(bytes: &mut Vec<u8>, value: u64)
    ensures
        final(bytes)@ == old(bytes)@ + le_bytes(value as nat, 8),
{
    let mut encoded = encode_u64(value).unwrap();
    bytes.append(&mut encoded);
}

/// Reads the 64-bit number that starts at byte `at` of `data`.
pub(crate) fn get_u64(data: &[u8], at: usize) -> (value: u64)
    requires
        at + 8 <= data@.len(),
    ensures
        value == u64_at(data@, at as int),
{
    let mut reader = Reader { bytes: data, at };
    reader.read_u64()
}

/// A place in a run of bytes from which fields are read one after another.
pub(crate) struct Reader<'a> {
    bytes: &'a [u8],
    at: usize,
}

impl<'a> Reader<'a> {
    /// The bytes being read.
    pub(crate) closed spec fn source(&self) -> Seq<u8> {
        self.bytes@
    }

    /// How many bytes have been read.
    pub(crate) closed spec fn position(&self) -> int {
        self.at as int
    }

    /// Starts at the first byte.
    pub(crate) fn new(bytes: &'a [u8]) -> (reader: Self)
        ensures
            reader.source() == bytes@,
            reader.position() == 0,
    {
        Reader { bytes, at: 0 }
    }

    /// Reads the next eight bytes as a number.
    pub(crate) fn read_u64(&mut self) -> (value: u64)
        requires
            0 <= old(self).position(),
            old(self).position() + 8 <= old(self).source().len(),
        ensures
            final(self).source() == old(self).source(),
            final(self).position() == old(self).position() + 8,
            value == u64_at(old(self).source(), old(self).position()),
    {
        assert(self.at + 8 <= self.bytes.len());
        let field = slice_subrange(self.bytes, self.at, self.at + 8);
        self.at = self.at + 8;
        decode_u64(field).unwrap()
    }

    /// Reads the next sixteen bytes as a number.
    pub(crate) fn read_u128(&mut self) -> (value: u128)
        requires
            0 <= old(self).position(),
            old(self).position() + 16 <= old(self).source().len(),
        ensures
            final(self).source() == old(self).source(),
            final(self).position() == old(self).position() + 16,
            value == u128_at(old(self).source(), old(self).position()),
    {
        assert(self.at + 16 <= self.bytes.len());
        let field = slice_subrange(self.bytes, self.at, self.at + 16);
        self.at = self.at + 16;
        decode_u128(field).unwrap()
    }

    /// Reads the next thirty-two bytes as a key.
    pub(crate) fn read_key(&mut self) -> (key: Pubkey)
        requires
            0 <= old(self).position(),
            old(self).position() + 32 <= old(self).source().len(),
        ensures
            final(self).source() == old(self).source(),
            final(self).position() == old(self).position() + 32,
            key == key_at(old(self).source(), old(self).position()),
    {
        assert(self.at + 32 <= self.bytes.len());
        let field = slice_subrange(self.bytes, self.at, self.at + 32);
        self.at = self.at + 32;
        let key = decode_key(field).unwrap();
        proof {
            lemma_key_of(field@);
            assert(key =~= key_of(field@));
        }
        key
    }
}

} // verus!
