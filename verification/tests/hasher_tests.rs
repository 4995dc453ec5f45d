use bllvm_governance::hasher::{calculate_block_hash, serialize_block_header};
use bllvm_governance::BlockHeader;
use sha2::{Digest, Sha256};

fn zero_header() -> BlockHeader {
    BlockHeader {
        version: 1,
        prev_block_hash: [0u8; 32],
        merkle_root: [0u8; 32],
        timestamp: 0,
        bits: 0,
        nonce: 0,
    }
}

fn sample_header() -> BlockHeader {
    BlockHeader {
        version: 2,
        prev_block_hash: [0xabu8; 32],
        merkle_root: [0x11u8; 32],
        timestamp: 1_700_000_000,
        bits: 0x1d00ffff,
        nonce: 0x0123456789abcdef,
    }
}

#[test]
fn header_layout_fixed_point() {
    let h = zero_header();
    let bytes = serialize_block_header(&h);
    assert_eq!(bytes.len(), 4 + 32 + 32 + 8 + 4 + 8);
    assert_eq!(bytes[0], 0x01);
    assert_eq!(bytes[1], 0x00);
    assert_eq!(bytes[2], 0x00);
    assert_eq!(bytes[3], 0x00);
    for b in &bytes[4..] {
        assert_eq!(*b, 0x00);
    }
}

#[test]
fn header_layout_little_endian_fields() {
    let h = sample_header();
    let bytes = serialize_block_header(&h);
    assert_eq!(&bytes[0..4], &2u32.to_le_bytes());
    assert_eq!(&bytes[4..36], &[0xabu8; 32]);
    assert_eq!(&bytes[36..68], &[0x11u8; 32]);
    assert_eq!(&bytes[68..76], &1_700_000_000u64.to_le_bytes());
    assert_eq!(&bytes[76..80], &0x1d00ffffu32.to_le_bytes());
    assert_eq!(&bytes[80..88], &0x0123456789abcdefu64.to_le_bytes());
}

#[test]
fn block_hash_is_double_sha256_of_serialization() {
    let h = sample_header();
    let bytes = serialize_block_header(&h);
    let expected = Sha256::digest(Sha256::digest(&bytes));
    let got = calculate_block_hash(&h);
    assert_eq!(got.as_slice(), expected.as_slice());
    assert_eq!(got.len(), 32);
    // the digest is not the serialized input handed back
    assert_ne!(got.as_slice(), &bytes[0..32]);
}

#[test]
fn hash_deterministic_across_invocations() {
    let a = calculate_block_hash(&sample_header());
    let b = calculate_block_hash(&sample_header());
    assert_eq!(a, b);
}

#[test]
fn hash_sensitive_to_every_field() {
    let base = calculate_block_hash(&sample_header());

    let mut h = sample_header();
    h.version = 3;
    assert_ne!(calculate_block_hash(&h), base);

    let mut h = sample_header();
    h.prev_block_hash[31] ^= 0x01;
    assert_ne!(calculate_block_hash(&h), base);

    let mut h = sample_header();
    h.merkle_root[0] ^= 0x80;
    assert_ne!(calculate_block_hash(&h), base);

    let mut h = sample_header();
    h.timestamp += 1;
    assert_ne!(calculate_block_hash(&h), base);

    let mut h = sample_header();
    h.bits ^= 1;
    assert_ne!(calculate_block_hash(&h), base);

    let mut h = sample_header();
    h.nonce = h.nonce.wrapping_add(1);
    assert_ne!(calculate_block_hash(&h), base);
}

#[test]
fn hash_sensitive_to_field_order() {
    let h = sample_header();
    let mut swapped = sample_header();
    swapped.prev_block_hash = h.merkle_root;
    swapped.merkle_root = h.prev_block_hash;
    assert_ne!(calculate_block_hash(&swapped), calculate_block_hash(&h));
}
