//! Helpers for generating sample data: random identifiers rendered as
//! abbreviated git-style commit hashes.

use vstd::prelude::*;
use rand::Rng;

verus! {

/// The lowercase hex digit of a value below sixteen.
pub open spec fn hex_digit(n: int) -> char {
    seq![
        '0',
        '1',
        '2',
        '3',
        '4',
        '5',
        '6',
        '7',
        '8',
        '9',
        'a',
        'b',
        'c',
        'd',
        'e',
        'f',
    ][n]
}

/// The lowercase hex rendering of a byte string: two digits per byte, most
/// significant digit first.
pub open spec fn hex_of(bytes: Seq<u8>) -> Seq<char>
    decreases bytes.len(),
{
    if bytes.len() == 0 {
        Seq::empty()
    } else {
        seq![hex_digit((bytes[0] / 16) as int), hex_digit((bytes[0] % 16) as int)] + hex_of(
            bytes.drop_first(),
        )
    }
}

/// The hex rendering is two digits per byte.
pub proof fn lemma_hex_of_len(bytes: Seq<u8>)
    ensures
        hex_of(bytes).len() == 2 * bytes.len(),
    decreases bytes.len(),
{
    if bytes.len() != 0 {
        lemma_hex_of_len(bytes.drop_first());
    }
}

/// Relies on `rand::rng` and `Rng::fill_bytes` for eight random bytes.
/// Nothing is promised of the values.
#[verifier::external_body]
fn random_bytes_8() -> (r: Vec<u8>)
    ensures
        r@.len() == 8,
{
    let mut b = vec![0u8; 8];
    rand::rng().fill_bytes(&mut b);
    b
}

/// Relies on `hex::encode`: two lowercase hex digits per input byte, most
/// significant digit first.
#[verifier::external_body]
fn hex_encode(bytes: &Vec<u8>) -> (r: String)
    ensures
        r@ == hex_of(bytes@),
{
    hex::encode(bytes.as_slice())
}

/// Renders eight bytes as sixteen lowercase hex digits — the shape of an
/// abbreviated git commit hash.
pub fn commit_hash_of_bytes(bytes: &Vec<u8>) -> (r: String)
    requires
        bytes@.len() == 8,
    ensures
        r@ == hex_of(bytes@),
        r@.len() == 16,
{
    let s = hex_encode(bytes);
    proof {
        lemma_hex_of_len(bytes@);
    }
    s
}

/// Draws eight random bytes and renders them as a sixteen-digit hex string
/// that looks like an abbreviated git commit hash.
pub fn generate_random_looking_git_commit_hash() -> (r: String)
    ensures
        r@.len() == 16,
{
    let bytes = random_bytes_8();
    commit_hash_of_bytes(&bytes)
}

} // verus!
