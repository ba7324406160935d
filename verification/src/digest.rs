//! Seed derivation: the SHA-256 digest of a slot number, and the 64-bit seed
//! read from the head of a digest.
use vstd::prelude::*;

verus! {

/// The SHA-256 digest of a byte string.
pub uninterp spec fn sha256(data: Seq<u8>) -> Seq<u8>;

/// The eight bytes of `x`, most significant first.
pub open spec fn be_bytes(x: u64) -> Seq<u8> {
    seq![
        ((x / 0x100_0000_0000_0000) % 0x100) as u8,
        ((x / 0x1_0000_0000_0000) % 0x100) as u8,
        ((x / 0x100_0000_0000) % 0x100) as u8,
        ((x / 0x1_0000_0000) % 0x100) as u8,
        ((x / 0x100_0000) % 0x100) as u8,
        ((x / 0x1_0000) % 0x100) as u8,
        ((x / 0x100) % 0x100) as u8,
        (x % 0x100) as u8,
    ]
}

/// The number whose big-endian bytes are the first eight bytes of `bytes`.
pub open spec fn be_value(bytes: Seq<u8>) -> int
    recommends
        bytes.len() >= 8,
{
    bytes[0] * 0x100_0000_0000_0000 + bytes[1] * 0x1_0000_0000_0000 + bytes[2] * 0x100_0000_0000
        + bytes[3] * 0x1_0000_0000 + bytes[4] * 0x100_0000 + bytes[5] * 0x1_0000 + bytes[6]
        * 0x100 + bytes[7]
}

/// Calls `solana_program::hash::hash` (reached through `anchor_lang`) and
/// takes the 32 bytes out of the `Hash` it returns. Off chain that function
/// feeds the bytes to a SHA-256 hasher and returns the finished digest; the
/// contract names that digest and claims nothing else of it.
#[verifier::external_body]
fn hash_bytes(data: &[u8]) -> (digest: [u8; 32])
    ensures
        digest@ == sha256(data@),
{
    anchor_lang::solana_program::hash::hash(data).to_bytes()
}

/// Writes `x` as eight bytes, most significant first.
pub fn to_be_bytes(x: u64) -> (bytes: [u8; 8])
    ensures
        bytes@ == be_bytes(x),
{
    let b0: u64 = x >> 56;
    let b1: u64 = (x >> 48) & 0xff;
    let b2: u64 = (x >> 40) & 0xff;
    let b3: u64 = (x >> 32) & 0xff;
    let b4: u64 = (x >> 24) & 0xff;
    let b5: u64 = (x >> 16) & 0xff;
    let b6: u64 = (x >> 8) & 0xff;
    let b7: u64 = x & 0xff;
    assert(b0 == (x / 0x100_0000_0000_0000) % 0x100 && b1 == (x / 0x1_0000_0000_0000) % 0x100
        && b2 == (x / 0x100_0000_0000) % 0x100 && b3 == (x / 0x1_0000_0000) % 0x100
        && b4 == (x / 0x100_0000) % 0x100 && b5 == (x / 0x1_0000) % 0x100
        && b6 == (x / 0x100) % 0x100 && b7 == x % 0x100) by (bit_vector)
        requires
            b0 == x >> 56,
            b1 == (x >> 48) & 0xff,
            b2 == (x >> 40) & 0xff,
            b3 == (x >> 32) & 0xff,
            b4 == (x >> 24) & 0xff,
            b5 == (x >> 16) & 0xff,
            b6 == (x >> 8) & 0xff,
            b7 == x & 0xff,
    ;
    let bytes = [
        b0 as u8,
        b1 as u8,
        b2 as u8,
        b3 as u8,
        b4 as u8,
        b5 as u8,
        b6 as u8,
        b7 as u8,
    ];
    assert(bytes@ =~= be_bytes(x));
    bytes
}

/// Reads the first eight bytes of a digest as a big-endian number.
pub fn seed_from_digest(digest: &[u8; 32]) -> (seed: u64)
    ensures
        seed == be_value(digest@),
{
    let b0: u64 = digest[0] as u64;
    let b1: u64 = digest[1] as u64;
    let b2: u64 = digest[2] as u64;
    let b3: u64 = digest[3] as u64;
    let b4: u64 = digest[4] as u64;
    let b5: u64 = digest[5] as u64;
    let b6: u64 = digest[6] as u64;
    let b7: u64 = digest[7] as u64;
    b0 * 0x100_0000_0000_0000 + b1 * 0x1_0000_0000_0000 + b2 * 0x100_0000_0000 + b3
        * 0x1_0000_0000 + b4 * 0x100_0000 + b5 * 0x1_0000 + b6 * 0x100 + b7
}

/// The digest of a slot number's big-endian bytes.
pub fn slot_digest(slot: u64) -> (digest: [u8; 32])
    ensures
        digest@ == sha256(be_bytes(slot)),
{
    let bytes = to_be_bytes(slot);
    hash_bytes(bytes.as_slice())
}

} // verus!
