//! Hashing and hexadecimal rendering, both done by outside crates.

use tiny_keccak::{Hasher, Keccak};
use vstd::prelude::*;

verus! {

/// The Keccak-256 digest of a byte string, as `tiny_keccak` computes it.
pub uninterp spec fn keccak256(input: Seq<u8>) -> Seq<u8>;

/// The character that stands for one hexadecimal digit, in lower case.
pub open spec fn hex_digit_char(d: nat) -> char
    recommends
        d < 16,
{
    if d < 10 {
        ('0' as nat + d) as char
    } else {
        ('a' as nat + (d - 10)) as char
    }
}

/// Lower-case hexadecimal text of a byte string: two digits per byte, the
/// high half of each byte first.
pub open spec fn hex_lower(bytes: Seq<u8>) -> Seq<char> {
    Seq::new(
        2 * bytes.len(),
        |i: int|
            if i % 2 == 0 {
                hex_digit_char(bytes[i / 2] as nat / 16)
            } else {
                hex_digit_char(bytes[i / 2] as nat % 16)
            },
    )
}

/// Runs `tiny_keccak::Keccak::v256` over `input` (`update`, then `finalize`
/// into a 32-byte buffer). Trusted: the 32 bytes that come back are the
/// Keccak-256 digest of `input`, a function of `input` alone.
#[verifier::external_body]
pub(crate) fn keccak256_digest(input: &[u8]) -> (digest: [u8; 32])
    ensures
        digest@ == keccak256(input@),
{
    let mut hasher = Keccak::v256();
    let mut digest = [0u8; 32];
    hasher.update(input);
    hasher.finalize(&mut digest);
    digest
}

/// Calls `hex::encode`. Trusted: the crate documents that every byte is
/// rendered as exactly two lower-case hexadecimal digits, in input order.
#[verifier::external_body]
pub(crate) fn hex_encode(bytes: &[u8]) -> (text: String)
    ensures
        text@ == hex_lower(bytes@),
{
    hex::encode(bytes)
}

/// Byte strings with the same hexadecimal text are the same.
pub proof fn lemma_hex_lower_injective(a: Seq<u8>, b: Seq<u8>)
    requires
        hex_lower(a) == hex_lower(b),
    ensures
        a == b,
{
    assert(hex_lower(a).len() == 2 * a.len());
    assert(hex_lower(b).len() == 2 * b.len());
    assert forall|i: int| 0 <= i < a.len() implies a[i] == b[i] by {
        let x = a[i] as nat;
        let y = b[i] as nat;
        assert(hex_lower(a)[2 * i] == hex_digit_char(x / 16));
        assert(hex_lower(b)[2 * i] == hex_digit_char(y / 16));
        assert(hex_lower(a)[2 * i + 1] == hex_digit_char(x % 16));
        assert(hex_lower(b)[2 * i + 1] == hex_digit_char(y % 16));
        assert(x / 16 == y / 16);
        assert(x % 16 == y % 16);
    }
    assert(a =~= b);
}

} // verus!
