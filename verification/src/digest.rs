//! SHA-256 digests and their lower-case hex rendering.

use vstd::prelude::*;
use vstd::utf8::encode_utf8;
use crate::text::push_char;
use sha2::{Digest, Sha256};

verus! {

/// The SHA-256 digest of a byte string.
pub uninterp spec fn sha256_digest(bytes: Seq<u8>) -> Seq<u8>;

/// `sha2::Sha256::digest`: the SHA-256 digest of `data`, which is always
/// 32 bytes long. What the digest is, is named by [`sha256_digest`] and
/// not stated further.
#[verifier::external_body]
fn sha256(data: &[u8]) -> (r: Vec<u8>)
    ensures
        r@ == sha256_digest(data@),
        r@.len() == 32,
{
    Sha256::digest(data).to_vec()
}

/// The SHA-256 digest of the UTF-8 encoding of `text`.
pub fn sha256_of_text(text: &str) -> (r: Vec<u8>)
    ensures
        r@ == sha256_digest(encode_utf8(text@)),
        r@.len() == 32,
{
    sha256(text.as_bytes())
}

/// Lower-case hex digit of `n < 16`.
pub open spec fn hex_digit(n: nat) -> char {
    if n < 10 {
        ((('0' as u32) + n) as u32) as char
    } else {
        ((('a' as u32) + (n - 10)) as u32) as char
    }
}

/// Two lower-case hex digits per byte, high nibble first.
pub open spec fn hex_text(bytes: Seq<u8>) -> Seq<char>
    decreases bytes.len(),
{
    if bytes.len() == 0 {
        Seq::empty()
    } else {
        hex_text(bytes.drop_last()) + seq![
            hex_digit((bytes.last() / 16) as nat),
            hex_digit((bytes.last() % 16) as nat),
        ]
    }
}

pub proof fn lemma_hex_text_len(bytes: Seq<u8>)
    ensures
        hex_text(bytes).len() == 2 * bytes.len(),
    decreases bytes.len(),
{
    if bytes.len() > 0 {
        lemma_hex_text_len(bytes.drop_last());
    }
}

fn hex_char(n: u8) -> (c: char)
    requires
        n < 16,
    ensures
        c == hex_digit(n as nat),
{
    if n < 10 {
        ((48 + n) as u8) as char
    } else {
        ((87 + n) as u8) as char
    }
}

/// The first `nibbles` characters of the hex rendering of `bytes` (all of
/// it when it is shorter).
pub fn hex_prefix(bytes: &[u8], nibbles: usize) -> (r: String)
    ensures
        r@ == hex_text(bytes@).take(
            if nibbles <= 2 * bytes@.len() { nibbles as int } else { (2 * bytes@.len()) as int },
        ),
{
    let ghost full = hex_text(bytes@);
    proof {
        lemma_hex_text_len(bytes@);
    }
    let target: usize = if nibbles / 2 < bytes.len() {
        nibbles
    } else {
        bytes.len() + bytes.len()
    };
    let mut out = String::new();
    let mut count: usize = 0;
    while count < target
        invariant
            target <= 2 * bytes@.len(),
            target == (if nibbles <= 2 * bytes@.len() { nibbles as int } else { (2 * bytes@.len()) as int }),
            full == hex_text(bytes@),
            full.len() == 2 * bytes@.len(),
            count <= target,
            out@ == full.take(count as int),
        decreases target - count,
    {
        let i = count / 2;
        let b = bytes[i];
        proof {
            lemma_hex_prefix_extends(bytes@, i as int);
            lemma_hex_text_len(bytes@.take(i as int));
            assert(full[count as int] == full.take(2 * i + 2)[count as int]);
            if count % 2 == 0 {
                assert(count == 2 * i);
                assert(full[count as int] == hex_digit((b / 16) as nat));
            } else {
                assert(count == 2 * i + 1);
                assert(full[count as int] == hex_digit((b % 16) as nat));
            }
        }
        if count % 2 == 0 {
            push_char(&mut out, hex_char(b / 16));
        } else {
            push_char(&mut out, hex_char(b % 16));
        }
        count = count + 1;
        assert(out@ =~= full.take(count as int));
    }
    out
}

/// The hex rendering of a prefix of `bytes` is a prefix of the rendering
/// of `bytes`.
proof fn lemma_hex_prefix_extends(bytes: Seq<u8>, i: int)
    requires
        0 <= i < bytes.len(),
    ensures
        hex_text(bytes).take(2 * i + 2) == hex_text(bytes.take(i)) + seq![
            hex_digit((bytes[i] / 16) as nat),
            hex_digit((bytes[i] % 16) as nat),
        ],
    decreases bytes.len(),
{
    lemma_hex_text_len(bytes);
    lemma_hex_text_len(bytes.take(i));
    if i == bytes.len() - 1 {
        assert(bytes.drop_last() =~= bytes.take(i));
        assert(hex_text(bytes).take(2 * i + 2) =~= hex_text(bytes));
    } else {
        lemma_hex_prefix_extends(bytes.drop_last(), i);
        lemma_hex_text_len(bytes.drop_last());
        assert(bytes.drop_last().take(i) =~= bytes.take(i));
        assert(hex_text(bytes).take(2 * i + 2) =~= hex_text(bytes.drop_last()).take(2 * i + 2));
    }
}

/// The full hex rendering of `bytes`.
pub fn encode_hex(bytes: &[u8]) -> (r: String)
    ensures
        r@ == hex_text(bytes@),
{
    let mut out = String::new();
    let mut i: usize = 0;
    while i < bytes.len()
        invariant
            i <= bytes@.len(),
            out@ == hex_text(bytes@.take(i as int)),
        decreases bytes.len() - i,
    {
        let b = bytes[i];
        push_char(&mut out, hex_char(b / 16));
        push_char(&mut out, hex_char(b % 16));
        proof {
            assert(bytes@.take(i + 1).drop_last() =~= bytes@.take(i as int));
        }
        i = i + 1;
        assert(out@ =~= hex_text(bytes@.take(i as int)));
    }
    assert(bytes@.take(bytes@.len() as int) =~= bytes@);
    out
}

} // verus!
