//! Deterministic block header hashing.
//!
//! The header's six fields are serialized into one byte buffer in a fixed
//! order — version as 4 little-endian bytes, the two 32-byte hashes as raw
//! copies, then timestamp, difficulty bits and nonce in little-endian — with
//! no prefixes and no separators, and the buffer is digested twice with
//! SHA-256. Interoperability with the host's own hash rests on this exact
//! layout, so the serialization is stated byte for byte and proved lossless.

use vstd::prelude::*;
use sha2::Digest;
use crate::json::append_bytes;

verus! {

/// A block header as hashed: six fields, fixed widths, fixed order.
pub struct BlockHeader {
    pub version: u32,
    pub prev_block_hash: [u8; 32],
    pub merkle_root: [u8; 32],
    pub timestamp: u64,
    pub bits: u32,
    pub nonce: u64,
}

/// The 4 little-endian bytes of a 32-bit value.
pub open spec fn le_bytes_u32(x: u32) -> Seq<u8> {
    seq![
        (x % 0x100) as u8,
        ((x / 0x100) % 0x100) as u8,
        ((x / 0x10000) % 0x100) as u8,
        ((x / 0x1000000) % 0x100) as u8,
    ]
}

/// The 8 little-endian bytes of a 64-bit value.
pub open spec fn le_bytes_u64(x: u64) -> Seq<u8> {
    seq![
        (x % 0x100) as u8,
        ((x / 0x100) % 0x100) as u8,
        ((x / 0x10000) % 0x100) as u8,
        ((x / 0x1000000) % 0x100) as u8,
        ((x / 0x100000000) % 0x100) as u8,
        ((x / 0x10000000000) % 0x100) as u8,
        ((x / 0x1000000000000) % 0x100) as u8,
        ((x / 0x100000000000000) % 0x100) as u8,
    ]
}

/// The serialized header: version, previous hash, merkle root, timestamp,
/// bits, nonce — nothing else.
pub open spec fn header_bytes(h: BlockHeader) -> Seq<u8> {
    le_bytes_u32(h.version) + h.prev_block_hash@ + h.merkle_root@ + le_bytes_u64(h.timestamp)
        + le_bytes_u32(h.bits) + le_bytes_u64(h.nonce)
}

/// What SHA-256 returns for a given byte sequence.
pub uninterp spec fn sha256_of(input: Seq<u8>) -> Seq<u8>;

/// The block hash: double SHA-256 of the serialized header.
pub open spec fn block_hash_spec(h: BlockHeader) -> Seq<u8> {
    sha256_of(sha256_of(header_bytes(h)))
}

/// Relies on sha2's `Sha256` through `Digest::digest`: a pure function of
/// the input bytes whose output is always 32 bytes.
#[verifier::external_body]
fn sha256(input: &[u8]) -> (r: Vec<u8>)
    ensures
        r@ == sha256_of(input@),
        r@.len() == 32,
{
    sha2::Sha256::digest(input).to_vec()
}

/// Appends the 4 little-endian bytes of `x`.
fn append_u32_le(out: &mut Vec<u8>, x: u32)
    ensures
        final(out)@ == old(out)@ + le_bytes_u32(x),
{
    out.push((x % 0x100) as u8);
    out.push(((x / 0x100) % 0x100) as u8);
    out.push(((x / 0x10000) % 0x100) as u8);
    out.push(((x / 0x1000000) % 0x100) as u8);
    proof {
        assert(out@ =~= old(out)@ + le_bytes_u32(x));
    }
}

/// Appends the 8 little-endian bytes of `x`.
fn append_u64_le(out: &mut Vec<u8>, x: u64)
    ensures
        final(out)@ == old(out)@ + le_bytes_u64(x),
{
    out.push((x % 0x100) as u8);
    out.push(((x / 0x100) % 0x100) as u8);
    out.push(((x / 0x10000) % 0x100) as u8);
    out.push(((x / 0x1000000) % 0x100) as u8);
    out.push(((x / 0x100000000) % 0x100) as u8);
    out.push(((x / 0x10000000000) % 0x100) as u8);
    out.push(((x / 0x1000000000000) % 0x100) as u8);
    out.push(((x / 0x100000000000000) % 0x100) as u8);
    proof {
        assert(out@ =~= old(out)@ + le_bytes_u64(x));
    }
}

/// Serializes the six header fields in their fixed order.
pub fn serialize_block_header(h: &BlockHeader) -> (r: Vec<u8>)
    ensures
        r@ == header_bytes(*h),
{
    let mut out: Vec<u8> = Vec::new();
    append_u32_le(&mut out, h.version);
    append_bytes(&mut out, &h.prev_block_hash);
    append_bytes(&mut out, &h.merkle_root);
    append_u64_le(&mut out, h.timestamp);
    append_u32_le(&mut out, h.bits);
    append_u64_le(&mut out, h.nonce);
    proof {
        assert(out@ =~= header_bytes(*h));
    }
    out
}

/// The block hash: double SHA-256 over the serialized header, 32 bytes.
pub fn calculate_block_hash(h: &BlockHeader) -> (r: Vec<u8>)
    ensures
        r@ == block_hash_spec(*h),
        r@.len() == 32,
{
    let serialized = serialize_block_header(h);
    let first = sha256(serialized.as_slice());
    let second = sha256(first.as_slice());
    second
}

/// The serialized header always has the declared total width: 4 + 32 + 32 +
/// 8 + 4 + 8 bytes.
pub proof fn lemma_header_bytes_len(h: BlockHeader)
    ensures
        header_bytes(h).len() == 88,
{
}

/// Law: the hash is a function of the six field values alone — two headers
/// that agree field for field hash identically, whatever else differs
/// between the two invocations.
pub proof fn lemma_hash_deterministic(h1: BlockHeader, h2: BlockHeader)
    requires
        h1.version == h2.version,
        h1.prev_block_hash@ == h2.prev_block_hash@,
        h1.merkle_root@ == h2.merkle_root@,
        h1.timestamp == h2.timestamp,
        h1.bits == h2.bits,
        h1.nonce == h2.nonce,
    ensures
        block_hash_spec(h1) == block_hash_spec(h2),
{
    assert(header_bytes(h1) =~= header_bytes(h2));
}

/// Law: the serialization loses nothing — equal buffers can only come from
/// field-for-field equal headers, so every field and the field order are
/// reflected in the hashed bytes.
#[verifier::rlimit(100)]
pub proof fn lemma_header_bytes_injective(h1: BlockHeader, h2: BlockHeader)
    requires
        header_bytes(h1) == header_bytes(h2),
    ensures
        h1.version == h2.version,
        h1.prev_block_hash@ == h2.prev_block_hash@,
        h1.merkle_root@ == h2.merkle_root@,
        h1.timestamp == h2.timestamp,
        h1.bits == h2.bits,
        h1.nonce == h2.nonce,
{
    let b1 = header_bytes(h1);
    let b2 = header_bytes(h2);
    assert(b1.subrange(0, 4) =~= le_bytes_u32(h1.version));
    assert(b2.subrange(0, 4) =~= le_bytes_u32(h2.version));
    lemma_le_bytes_u32_injective(h1.version, h2.version);
    assert(b1.subrange(4, 36) =~= h1.prev_block_hash@);
    assert(b2.subrange(4, 36) =~= h2.prev_block_hash@);
    assert(b1.subrange(36, 68) =~= h1.merkle_root@);
    assert(b2.subrange(36, 68) =~= h2.merkle_root@);
    assert(b1.subrange(68, 76) =~= le_bytes_u64(h1.timestamp));
    assert(b2.subrange(68, 76) =~= le_bytes_u64(h2.timestamp));
    lemma_le_bytes_u64_injective(h1.timestamp, h2.timestamp);
    assert(b1.subrange(76, 80) =~= le_bytes_u32(h1.bits));
    assert(b2.subrange(76, 80) =~= le_bytes_u32(h2.bits));
    lemma_le_bytes_u32_injective(h1.bits, h2.bits);
    assert(b1.subrange(80, 88) =~= le_bytes_u64(h1.nonce));
    assert(b2.subrange(80, 88) =~= le_bytes_u64(h2.nonce));
    lemma_le_bytes_u64_injective(h1.nonce, h2.nonce);
}

/// Law: the field order is part of the layout — a header whose previous-hash
/// and merkle-root are swapped serializes to different bytes whenever the
/// two fields differ, so the two headers are hashed from different inputs.
pub proof fn lemma_swapped_hashes_differ_in_input(h: BlockHeader, g: BlockHeader)
    requires
        g.version == h.version,
        g.prev_block_hash@ == h.merkle_root@,
        g.merkle_root@ == h.prev_block_hash@,
        g.timestamp == h.timestamp,
        g.bits == h.bits,
        g.nonce == h.nonce,
        h.prev_block_hash@ != h.merkle_root@,
    ensures
        header_bytes(g) != header_bytes(h),
{
    if header_bytes(g) == header_bytes(h) {
        lemma_header_bytes_injective(g, h);
    }
}

/// A 32-bit value is recovered from its little-endian bytes.
proof fn lemma_le_bytes_u32_injective(x: u32, y: u32)
    requires
        le_bytes_u32(x) == le_bytes_u32(y),
    ensures
        x == y,
{
    assert(x == x % 0x100 + 0x100 * ((x / 0x100) % 0x100) + 0x10000 * ((x / 0x10000) % 0x100)
        + 0x1000000 * ((x / 0x1000000) % 0x100)) by (bit_vector);
    assert(y == y % 0x100 + 0x100 * ((y / 0x100) % 0x100) + 0x10000 * ((y / 0x10000) % 0x100)
        + 0x1000000 * ((y / 0x1000000) % 0x100)) by (bit_vector);
    assert(le_bytes_u32(x)[0] == le_bytes_u32(y)[0]);
    assert(le_bytes_u32(x)[1] == le_bytes_u32(y)[1]);
    assert(le_bytes_u32(x)[2] == le_bytes_u32(y)[2]);
    assert(le_bytes_u32(x)[3] == le_bytes_u32(y)[3]);
}

/// A 64-bit value is recovered from its little-endian bytes.
#[verifier::rlimit(100)]
proof fn lemma_le_bytes_u64_injective(x: u64, y: u64)
    requires
        le_bytes_u64(x) == le_bytes_u64(y),
    ensures
        x == y,
{
    assert(x == x % 0x100 + 0x100 * ((x / 0x100) % 0x100) + 0x10000 * ((x / 0x10000) % 0x100)
        + 0x1000000 * ((x / 0x1000000) % 0x100) + 0x100000000 * ((x / 0x100000000) % 0x100)
        + 0x10000000000 * ((x / 0x10000000000) % 0x100)
        + 0x1000000000000 * ((x / 0x1000000000000) % 0x100)
        + 0x100000000000000 * ((x / 0x100000000000000) % 0x100)) by (bit_vector);
    assert(y == y % 0x100 + 0x100 * ((y / 0x100) % 0x100) + 0x10000 * ((y / 0x10000) % 0x100)
        + 0x1000000 * ((y / 0x1000000) % 0x100) + 0x100000000 * ((y / 0x100000000) % 0x100)
        + 0x10000000000 * ((y / 0x10000000000) % 0x100)
        + 0x1000000000000 * ((y / 0x1000000000000) % 0x100)
        + 0x100000000000000 * ((y / 0x100000000000000) % 0x100)) by (bit_vector);
    assert(le_bytes_u64(x)[0] == le_bytes_u64(y)[0]);
    assert(le_bytes_u64(x)[1] == le_bytes_u64(y)[1]);
    assert(le_bytes_u64(x)[2] == le_bytes_u64(y)[2]);
    assert(le_bytes_u64(x)[3] == le_bytes_u64(y)[3]);
    assert(le_bytes_u64(x)[4] == le_bytes_u64(y)[4]);
    assert(le_bytes_u64(x)[5] == le_bytes_u64(y)[5]);
    assert(le_bytes_u64(x)[6] == le_bytes_u64(y)[6]);
    assert(le_bytes_u64(x)[7] == le_bytes_u64(y)[7]);
}

/// Law: the little-endian layout of the version field — with version 1 the
/// buffer starts 0x01 0x00 0x00 0x00, and the total width is 88 whatever
/// the field values are.
pub proof fn lemma_version_one_layout(h: BlockHeader)
    requires
        h.version == 1,
    ensures
        header_bytes(h).len() == 88,
        header_bytes(h)[0] == 0x01u8,
        header_bytes(h)[1] == 0x00u8,
        header_bytes(h)[2] == 0x00u8,
        header_bytes(h)[3] == 0x00u8,
{
}

} // verus!
