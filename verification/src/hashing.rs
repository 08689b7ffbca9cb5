//! Content hashing in the format the Neocities API reports file hashes:
//! the SHA-1 digest of the file's bytes, rendered as 40 lowercase hex digits.
//!
//! The digest itself comes from the `sha1` crate; everything around it — the
//! hex rendering and the contracts the catalog's comparisons rely on — is
//! verified here.

use vstd::prelude::*;
use vstd::string::StringSliceAdditionalSpecFns;
use sha1::Digest;
use sha1::Sha1;

verus! {

/// The 20-byte SHA-1 digest of a byte sequence, as the `sha1` crate computes
/// it. The algorithm is not restated here; the digest is only ever compared
/// for equality, so a name for the result is all the contracts need.
pub uninterp spec fn sha1_of(bytes: Seq<u8>) -> Seq<u8>;

/// Relies on `sha1::Sha1::digest` (via the `digest::Digest` trait): the
/// SHA-1 digest of the input, 20 bytes long (`OutputSize = U20`), a function
/// of the input bytes alone.
#[verifier::external_body]
fn sha1_digest(bytes: &[u8]) -> (digest: Vec<u8>)
    ensures
        digest@ == sha1_of(bytes@),
        digest@.len() == 20,
{
    Sha1::digest(bytes).to_vec()
}

/// Relies on `String::push`: appends exactly the one character to the string.
#[verifier::external_body]
fn push_char(s: &mut String, c: char)
    ensures
        final(s)@ == old(s)@.push(c),
{
    s.push(c);
}

/// The lowercase hex digit for a value below 16: `0`-`9` then `a`-`f`.
pub open spec fn hex_digit(n: int) -> char
    recommends
        0 <= n < 16,
{
    if n < 10 {
        ((48 + n) as u8) as char
    } else {
        ((87 + n) as u8) as char
    }
}

/// A byte sequence rendered as lowercase hex, two digits per byte,
/// zero-padded, most significant nibble first.
pub open spec fn hex_of(bytes: Seq<u8>) -> Seq<char>
    decreases bytes.len(),
{
    if bytes.len() == 0 {
        Seq::empty()
    } else {
        seq![hex_digit(bytes[0] as int / 16), hex_digit(bytes[0] as int % 16)] + hex_of(
            bytes.drop_first(),
        )
    }
}

/// What [`hash_of_bytes`] returns: the SHA-1 digest in lowercase hex.
pub open spec fn sha1_hex_of(bytes: Seq<u8>) -> Seq<char> {
    hex_of(sha1_of(bytes))
}

/// A lowercase hex digit: `'0'`..`'9'` or `'a'`..`'f'`.
pub open spec fn is_lower_hex_char(c: char) -> bool {
    48 <= c as int <= 57 || 97 <= c as int <= 102
}

pub proof fn lemma_hex_of_len(bytes: Seq<u8>)
    ensures
        hex_of(bytes).len() == 2 * bytes.len(),
    decreases bytes.len(),
{
    if bytes.len() > 0 {
        lemma_hex_of_len(bytes.drop_first());
    }
}

proof fn lemma_hex_digit_lower(n: int)
    requires
        0 <= n < 16,
    ensures
        is_lower_hex_char(hex_digit(n)),
{
    if n < 10 {
        assert((48 + n) as u8 as char as int == 48 + n);
    } else {
        assert((87 + n) as u8 as char as int == 87 + n);
    }
}

pub proof fn lemma_hex_of_lower(bytes: Seq<u8>)
    ensures
        forall|i: int| 0 <= i < hex_of(bytes).len() ==> is_lower_hex_char(#[trigger] hex_of(bytes)[i]),
    decreases bytes.len(),
{
    if bytes.len() > 0 {
        lemma_hex_digit_lower(bytes[0] as int / 16);
        lemma_hex_digit_lower(bytes[0] as int % 16);
        lemma_hex_of_lower(bytes.drop_first());
        assert forall|i: int| 0 <= i < hex_of(bytes).len() implies is_lower_hex_char(
            hex_of(bytes)[i],
        ) by {
            if i >= 2 {
                assert(hex_of(bytes)[i] == hex_of(bytes.drop_first())[i - 2]);
            }
        }
    }
}

fn hex_char(n: u8) -> (c: char)
    requires
        n < 16,
    ensures
        c == hex_digit(n as int),
{
    if n < 10 {
        (n + 48) as char
    } else {
        (n + 87) as char
    }
}

/// Get the sha1 hash of a set of bytes, as the lowercase hex string the
/// Neocities list endpoint reports for files.
///
/// The result is a function of the bytes alone: two calls on equal input
/// yield the same 40-character string.
pub fn hash_of_bytes(bytes: &[u8]) -> (hash: String)
    ensures
        hash@ == sha1_hex_of(bytes@),
        hash@.len() == 40,
        forall|i: int| 0 <= i < hash@.len() ==> is_lower_hex_char(#[trigger] hash@[i]),
{
    let digest = sha1_digest(bytes);
    let mut out = String::new();
    let mut i: usize = 0;
    proof {
        assert(digest@.skip(0) =~= digest@);
    }
    while i < digest.len()
        invariant
            i <= digest.len(),
            digest@ == sha1_of(bytes@),
            digest@.len() == 20,
            hex_of(digest@) =~= out@ + hex_of(digest@.skip(i as int)),
            out@.len() == 2 * i,
        decreases digest.len() - i,
    {
        let b = digest[i];
        push_char(&mut out, hex_char(b / 16));
        push_char(&mut out, hex_char(b % 16));
        proof {
            assert(digest@.skip(i as int)[0] == b);
            assert(digest@.skip(i as int).drop_first() =~= digest@.skip(i + 1));
        }
        i = i + 1;
    }
    proof {
        assert(digest@.skip(digest@.len() as int) =~= Seq::<u8>::empty());
        assert(out@ =~= hex_of(digest@));
        lemma_hex_of_len(digest@);
        lemma_hex_of_lower(digest@);
    }
    out
}

/// Get the sha1 hash of a string, hashing its UTF-8 bytes.
pub fn hash_of_string(s: &str) -> (hash: String)
    ensures
        hash@ == sha1_hex_of(s.spec_bytes()),
        hash@.len() == 40,
{
    hash_of_bytes(s.as_bytes())
}

} // verus!
