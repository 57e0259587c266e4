//! SHA-256, HMAC-SHA256 and lowercase hexadecimal text.
//!
//! The two hash functions are computed by `ring` and are not modelled here:
//! contracts speak of them through [`sha256_digest`] and [`hmac_sha256_tag`].
//! Hexadecimal text is written by `data-encoding`; what it writes is stated
//! in full by [`hex_lower_text`].
use vstd::prelude::*;
use vstd::utf8::*;

verus! {

/// The longest message, in bytes, that the SHA-256 implementation accepts:
/// the length in bits has to fit in 64 bits.
pub const MAX_DIGEST_INPUT: u64 = 0x1fff_ffff_ffff_ffff;

/// The length in bytes of a SHA-256 digest, and so of an HMAC-SHA256 tag.
pub const DIGEST_LEN: usize = 32;

/// The length in bytes of the block that SHA-256 works on. HMAC hashes one
/// block of key material before the message.
pub const BLOCK_LEN: u64 = 64;

/// The length in characters, and in bytes, of a digest written in
/// hexadecimal.
pub const HEX_DIGEST_LEN: u64 = 64;

/// The SHA-256 digest of `message`.
pub uninterp spec fn sha256_digest(message: Seq<u8>) -> Seq<u8>;

/// The HMAC-SHA256 tag of `message` under `key`.
pub uninterp spec fn hmac_sha256_tag(key: Seq<u8>, message: Seq<u8>) -> Seq<u8>;

/// The lowercase hexadecimal digit for a value below 16.
pub open spec fn hex_digit(nibble: u8) -> char {
    if nibble < 10 {
        ((48 + nibble) as u8) as char
    } else {
        ((87 + nibble) as u8) as char
    }
}

/// Lowercase hexadecimal text: two digits for each byte, the high half first.
pub open spec fn hex_lower_text(bytes: Seq<u8>) -> Seq<char> {
    Seq::new(
        2 * bytes.len(),
        |i: int| hex_digit(if i % 2 == 0 { bytes[i / 2] / 16 } else { bytes[i / 2] % 16 }),
    )
}

/// Whether a HMAC-SHA256 computation accepts this key and this message.
pub open spec fn hmac_accepts(key: Seq<u8>, message: Seq<u8>) -> bool {
    &&& key.len() <= MAX_DIGEST_INPUT
    &&& message.len() + BLOCK_LEN <= MAX_DIGEST_INPUT
}

/// Calls `ring::digest::Context` with `SHA256`: one `update` with the whole
/// message, then `finish`. The contract names the digest and claims its
/// length, 32 bytes. `finish` panics on a message whose length in bits does
/// not fit in 64 bits, which the precondition leaves out.
#[verifier::external_body]
pub(crate) fn ring_sha256(message: &[u8]) -> (digest: Vec<u8>)
    requires
        message@.len() <= MAX_DIGEST_INPUT,
    ensures
        digest@ == sha256_digest(message@),
        digest@.len() == DIGEST_LEN,
{
    let mut context = ring::digest::Context::new(&ring::digest::SHA256);
    context.update(message);
    context.finish().as_ref().to_vec()
}

/// Calls `ring::hmac::sign` with a `ring::hmac::Key` made of `HMAC_SHA256`
/// and `key`. The contract names the tag and claims its length, 32 bytes.
/// A key longer than one block is hashed first, and the message is hashed
/// after one block of key material; either panics when the length in bits
/// of what is hashed does not fit in 64 bits, which the precondition leaves
/// out.
#[verifier::external_body]
pub(crate) fn ring_hmac_sha256(key: &[u8], message: &[u8]) -> (tag: Vec<u8>)
    requires
        hmac_accepts(key@, message@),
    ensures
        tag@ == hmac_sha256_tag(key@, message@),
        tag@.len() == DIGEST_LEN,
{
    let signing_key = ring::hmac::Key::new(ring::hmac::HMAC_SHA256, key);
    ring::hmac::sign(&signing_key, message).as_ref().to_vec()
}

/// Calls `data_encoding::HEXLOWER.encode`. The contract states the text in
/// full: the symbols are `0123456789abcdef`, most significant half first,
/// without padding or wrapping. `encode` panics on an input longer than
/// `usize::MAX / 512`, which the precondition leaves out.
#[verifier::external_body]
pub(crate) fn hex_lower(bytes: &[u8]) -> (text: String)
    requires
        bytes@.len() <= usize::MAX / 512,
    ensures
        text@ == hex_lower_text(bytes@),
{
    data_encoding::HEXLOWER.encode(bytes)
}

/// Hexadecimal text has two characters for each byte, all of them digits or
/// letters from `a` to `f`.
pub proof fn lemma_hex_lower_text_shape(bytes: Seq<u8>)
    ensures
        hex_lower_text(bytes).len() == 2 * bytes.len(),
        forall|i: int|
            0 <= i < hex_lower_text(bytes).len() ==> {
                let c = #[trigger] hex_lower_text(bytes)[i];
                ('0' <= c <= '9') || ('a' <= c <= 'f')
            },
{
    assert forall|i: int| 0 <= i < hex_lower_text(bytes).len() implies {
        let c = #[trigger] hex_lower_text(bytes)[i];
        ('0' <= c <= '9') || ('a' <= c <= 'f')
    } by {
        let b: u8 = bytes[i / 2];
        let nibble: u8 = if i % 2 == 0 { b / 16 } else { b % 16 };
        assert(nibble < 16);
        assert(hex_lower_text(bytes)[i] == hex_digit(nibble));
    }
}

/// Hexadecimal text is ASCII: its UTF-8 encoding has one byte for each
/// character.
pub proof fn lemma_hex_lower_text_utf8_len(bytes: Seq<u8>)
    ensures
        encode_utf8(hex_lower_text(bytes)).len() == 2 * bytes.len(),
{
    lemma_hex_lower_text_shape(bytes);
    assert(is_ascii_chars(hex_lower_text(bytes)));
    is_ascii_chars_encode_utf8(hex_lower_text(bytes));
}

/// Two values below 16 with the same hexadecimal digit are the same value.
pub proof fn lemma_hex_digit_injective(a: u8, b: u8)
    requires
        a < 16,
        b < 16,
        hex_digit(a) == hex_digit(b),
    ensures
        a == b,
{
    assert(hex_digit(a) as u8 == if a < 10 {
        48 + a
    } else {
        87 + a
    });
    assert(hex_digit(b) as u8 == if b < 10 {
        48 + b
    } else {
        87 + b
    });
}

/// Hexadecimal text tells the bytes apart: two sequences of bytes with the
/// same text are the same sequence.
pub proof fn lemma_hex_lower_text_injective(a: Seq<u8>, b: Seq<u8>)
    requires
        hex_lower_text(a) == hex_lower_text(b),
    ensures
        a == b,
{
    assert(hex_lower_text(a).len() == 2 * a.len());
    assert(hex_lower_text(b).len() == 2 * b.len());
    assert forall|i: int| 0 <= i < a.len() implies a[i] == b[i] by {
        assert(hex_lower_text(a)[2 * i] == hex_digit(a[i] / 16));
        assert(hex_lower_text(b)[2 * i] == hex_digit(b[i] / 16));
        assert(hex_lower_text(a)[2 * i + 1] == hex_digit(a[i] % 16));
        assert(hex_lower_text(b)[2 * i + 1] == hex_digit(b[i] % 16));
        lemma_hex_digit_injective(a[i] / 16, b[i] / 16);
        lemma_hex_digit_injective(a[i] % 16, b[i] % 16);
    }
    assert(a =~= b);
}

} // verus!
