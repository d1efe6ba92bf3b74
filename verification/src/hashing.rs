//! The password hash the portal expects on login.
//!
//! The portal authenticates by a fixed, non-salted one-way digest of the
//! password: the 128-bit MD5 digest of the password's bytes, written as 32
//! lowercase hexadecimal characters.  The digest itself comes from an outside
//! crate and is only named here; the hexadecimal spelling is specified in
//! full.

use md5::Digest;
use vstd::prelude::*;

verus! {

/// The MD5 digest of the UTF-8 encoding of `s`: a function of `s` alone,
/// computed by an outside crate and therefore only named here.
pub uninterp spec fn md5_of(s: Seq<char>) -> Seq<u8>;

/// The lowercase hexadecimal character for a nibble value.
pub open spec fn hex_digit(n: int) -> char {
    if n == 0 {
        '0'
    } else if n == 1 {
        '1'
    } else if n == 2 {
        '2'
    } else if n == 3 {
        '3'
    } else if n == 4 {
        '4'
    } else if n == 5 {
        '5'
    } else if n == 6 {
        '6'
    } else if n == 7 {
        '7'
    } else if n == 8 {
        '8'
    } else if n == 9 {
        '9'
    } else if n == 10 {
        'a'
    } else if n == 11 {
        'b'
    } else if n == 12 {
        'c'
    } else if n == 13 {
        'd'
    } else if n == 14 {
        'e'
    } else {
        'f'
    }
}

/// One byte as two lowercase hex characters, high nibble first.
pub open spec fn byte_hex(b: u8) -> Seq<char> {
    seq![hex_digit(b as int / 16), hex_digit(b as int % 16)]
}

/// A byte string as lowercase hex, byte by byte in order.
pub open spec fn hex_of(bytes: Seq<u8>) -> Seq<char>
    decreases bytes.len(),
{
    if bytes.len() == 0 {
        Seq::empty()
    } else {
        byte_hex(bytes[0]) + hex_of(bytes.drop_first())
    }
}

/// The wire form of a password: the lowercase hex spelling of its MD5 digest.
pub open spec fn spec_hash_password(password: Seq<char>) -> Seq<char> {
    hex_of(md5_of(password))
}

/// The hash is a pure function of the password: equal passwords always
/// produce equal wire hashes, across calls and across clients.
pub proof fn lemma_hash_password_deterministic(p1: Seq<char>, p2: Seq<char>)
    requires
        p1 == p2,
    ensures
        spec_hash_password(p1) == spec_hash_password(p2),
{
}

/// Relies on the md5 crate: `Md5::digest` computes the 16-byte MD5 digest of
/// the argument's bytes, a function of the argument alone.
#[verifier::external_body]
fn md5_digest(s: &str) -> (r: Vec<u8>)
    ensures
        r@ == md5_of(s@),
        r@.len() == 16,
{
    md5::Md5::digest(s.as_bytes()).to_vec()
}

/// Relies on hex::encode: each input byte becomes exactly two lowercase hex
/// digits, in input order.
#[verifier::external_body]
fn hex_encode(bytes: &[u8]) -> (r: String)
    ensures
        r@ == hex_of(bytes@),
{
    hex::encode(bytes)
}

/// Hashes a password into the form the portal's login endpoint expects.
pub fn hash_password_text(password: &str) -> (r: String)
    ensures
        r@ == spec_hash_password(password@),
{
    let digest = md5_digest(password);
    hex_encode(digest.as_slice())
}

} // verus!
