//! Hashes of byte strings as the helper reports them: lower-case hex.
use vstd::prelude::*;
use sha2::Digest;
use crate::text::string_of;

verus! {

/// The SHA-256 digest that the `sha2` crate computes for some bytes.
pub uninterp spec fn sha256_of(data: Seq<u8>) -> Seq<u8>;

/// The SHA-1 digest that the `sha1` crate computes for some bytes.
pub uninterp spec fn sha1_of(data: Seq<u8>) -> Seq<u8>;

/// The MD5 digest that the `md5` crate computes for some bytes.
pub uninterp spec fn md5_of(data: Seq<u8>) -> Seq<u8>;

/// The SHA-256 digest of some bytes (`sha2::Sha256`, `Digest::digest`). The
/// contract names the 32-byte result and says nothing more of the hash.
#[verifier::external_body]
fn sha256_digest(data: &[u8]) -> (r: [u8; 32])
    ensures
        r@ == sha256_of(data@),
{
    let digest = sha2::Sha256::digest(data);
    let mut out = [0u8; 32];
    out.copy_from_slice(&digest);
    out
}

/// The SHA-1 digest of some bytes (`sha1::Sha1`, `Digest::digest`). The
/// contract names the 20-byte result and says nothing more of the hash.
#[verifier::external_body]
pub(crate) fn sha1_digest(data: &[u8]) -> (r: [u8; 20])
    ensures
        r@ == sha1_of(data@),
{
    let digest = sha1::Sha1::digest(data);
    let mut out = [0u8; 20];
    out.copy_from_slice(&digest);
    out
}

/// The MD5 digest of some bytes (`md5::compute`). The contract names the
/// 16-byte result and says nothing more of the hash.
#[verifier::external_body]
fn md5_digest(data: &[u8]) -> (r: [u8; 16])
    ensures
        r@ == md5_of(data@),
{
    md5::compute(data).0
}

/// A hex digit, lower-case.
pub open spec fn hex_digit(n: nat) -> char {
    if n < 10 {
        (('0' as nat) + n) as char
    } else {
        (('a' as nat) + n - 10) as char
    }
}

/// Bytes in lower-case hex, two digits each, the high one first (as
/// `hex::encode` and `{:02x}` write them).
pub open spec fn hex_text(b: Seq<u8>) -> Seq<char>
    decreases b.len(),
{
    if b.len() == 0 {
        seq![]
    } else {
        hex_text(b.drop_last()) + seq![hex_digit((b.last() / 16) as nat), hex_digit((b.last() % 16) as nat)]
    }
}

fn hex_digit_of(n: u8) -> (c: char)
    requires
        n < 16,
    ensures
        c == hex_digit(n as nat),
{
    if n < 10 {
        let b: u8 = n + 48;
        assert(b as nat == ('0' as nat) + n);
        b as char
    } else {
        let b: u8 = n + 87;
        assert(b as nat == ('a' as nat) + n - 10);
        b as char
    }
}

/// Writes bytes in lower-case hex; see `hex_text`.
pub fn hex_lower(bytes: &[u8]) -> (r: String)
    ensures
        r@ == hex_text(bytes@),
{
    let mut out: Vec<char> = Vec::new();
    let mut i: usize = 0;
    while i < bytes.len()
        invariant
            0 <= i <= bytes@.len(),
            out@ == hex_text(bytes@.subrange(0, i as int)),
        decreases bytes@.len() - i,
    {
        let b = bytes[i];
        let ghost before = out@;
        out.push(hex_digit_of(b / 16));
        out.push(hex_digit_of(b % 16));
        assert(bytes@.subrange(0, i + 1).drop_last() =~= bytes@.subrange(0, i as int));
        assert(out@ =~= before + seq![hex_digit((b / 16) as nat), hex_digit((b % 16) as nat)]);
        i = i + 1;
    }
    assert(bytes@.subrange(0, bytes@.len() as int) =~= bytes@);
    string_of(out.as_slice())
}

/// The SHA-256 of some bytes in lower-case hex, as save hashes are compared.
pub fn sha256_bytes(bytes: &[u8]) -> (r: String)
    ensures
        r@ == hex_text(sha256_of(bytes@)),
{
    let d = sha256_digest(bytes);
    hex_lower(&d)
}

/// The SHA-1 of some bytes (a ROM) in lower-case hex.
pub fn sha1_hex(bytes: &[u8]) -> (r: String)
    ensures
        r@ == hex_text(sha1_of(bytes@)),
{
    let d = sha1_digest(bytes);
    hex_lower(&d)
}

/// The MD5 of some bytes (a ROM) in lower-case hex.
pub fn md5_hex(bytes: &[u8]) -> (r: String)
    ensures
        r@ == hex_text(md5_of(bytes@)),
{
    let d = md5_digest(bytes);
    hex_lower(&d)
}

} // verus!
