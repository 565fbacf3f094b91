//! The integrity checksum of an archive: its SHA-256 digest in lower-case
//! hexadecimal.

use vstd::prelude::*;

verus! {

/// The SHA-256 digest of `data`, as `cargo_util::Sha256` computes it.
pub uninterp spec fn sha256(data: Seq<u8>) -> Seq<u8>;

/// The hexadecimal digit for a value below sixteen.
pub open spec fn hex_digit(value: int) -> char
    recommends
        0 <= value < 16,
{
    seq!['0', '1', '2', '3', '4', '5', '6', '7', '8', '9', 'a', 'b', 'c', 'd', 'e', 'f'][value]
}

/// Two lower-case hexadecimal digits for each byte, the high half first.
pub open spec fn hex_text(bytes: Seq<u8>) -> Seq<char> {
    Seq::new(
        2 * bytes.len(),
        |i: int|
            if i % 2 == 0 {
                hex_digit(bytes[i / 2] as int / 16)
            } else {
                hex_digit(bytes[i / 2] as int % 16)
            },
    )
}

/// The checksum that the index records for an archive with these bytes.
pub open spec fn checksum_text(data: Seq<u8>) -> Seq<char> {
    hex_text(sha256(data))
}

/// Calls `cargo_util::Sha256`: a fresh hasher is fed `data` in one `update`
/// and closed with `finish`. Trusted: the result is the SHA-256 digest of
/// `data`, which `finish` returns as an array of 32 bytes.
#[verifier::external_body]
fn sha256_digest(data: &[u8]) -> (digest: Vec<u8>)
    ensures
        digest@ == sha256(data@),
        digest@.len() == 32,
{
    let mut hasher = cargo_util::Sha256::new();
    hasher.update(data);
    hasher.finish().to_vec()
}

/// Calls `rustc_serialize::hex::ToHex::to_hex` on a slice of bytes. Trusted:
/// each byte becomes two digits out of `0123456789abcdef`, the high four
/// bits first, in the order of the bytes.
#[verifier::external_body]
fn to_hex(bytes: &[u8]) -> (text: String)
    ensures
        text@ == hex_text(bytes@),
{
    rustc_serialize::hex::ToHex::to_hex(bytes)
}

/// Renders a digest in lower-case hexadecimal.
pub fn digest_hex(digest: &[u8]) -> (text: String)
    ensures
        text@ == hex_text(digest@),
        text@.len() == 2 * digest@.len(),
{
    to_hex(digest)
}

/// Computes the checksum of an archive from its bytes: the SHA-256 digest,
/// 64 lower-case hexadecimal digits.
pub fn checksum(data: &[u8]) -> (sum: String)
    ensures
        sum@ == checksum_text(data@),
        sum@.len() == 64,
{
    let digest: Vec<u8> = sha256_digest(data);
    digest_hex(digest.as_slice())
}

} // verus!
