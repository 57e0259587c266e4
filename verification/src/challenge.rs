//! The challenge of the service: the text `nonce=` and then the nonce.
use vstd::prelude::*;
use vstd::string::*;
use vstd::utf8::*;
use crate::error::AuthError;

verus! {

/// The nonce that a challenge carries, or why it carries none: the bytes
/// have to be UTF-8 text, and the text has to begin with `nonce=`. The nonce
/// is all that follows.
pub open spec fn challenge_nonce(payload: Seq<u8>) -> Result<Seq<char>, AuthError> {
    if !valid_utf8(payload) {
        Err(AuthError::InvalidChallengeEncoding)
    } else if !"nonce="@.is_prefix_of(decode_utf8(payload)) {
        Err(AuthError::MissingNoncePrefix)
    } else {
        Ok(decode_utf8(payload).skip(6))
    }
}

/// Calls `core::str::from_utf8` and drops the error's detail. The contract
/// claims what the documentation says: the call succeeds on UTF-8 and on
/// nothing else, and the text is made of the very bytes it was given.
#[verifier::external_body]
fn utf8_text<'a>(bytes: &'a [u8]) -> (text: Option<&'a str>)
    ensures
        text is Some <==> valid_utf8(bytes@),
        text matches Some(t) ==> encode_utf8(t@) == bytes@,
{
    core::str::from_utf8(bytes).ok()
}

/// The nonce of a challenge.
pub fn extract_nonce(payload: &[u8]) -> (extracted: Result<String, AuthError>)
    ensures
        match challenge_nonce(payload@) {
            Ok(nonce) => extracted matches Ok(text) && text@ == nonce,
            Err(error) => extracted == Err::<String, AuthError>(error),
        },
{
    broadcast use vstd::utf8::encode_utf8_decode_utf8;

    let text = match utf8_text(payload) {
        Some(text) => text,
        None => {
            return Err(AuthError::InvalidChallengeEncoding);
        },
    };
    assert(text@ == decode_utf8(payload@));
    proof {
        reveal_strlit("nonce=");
    }
    let length: usize = text.unicode_len();
    if length < 6 {
        return Err(AuthError::MissingNoncePrefix);
    }
    let begins_with_prefix = text.get_char(0) == 'n' && text.get_char(1) == 'o' && text.get_char(2)
        == 'n' && text.get_char(3) == 'c' && text.get_char(4) == 'e' && text.get_char(5) == '=';
    proof {
        let prefix = "nonce="@;
        let start = text@.subrange(0, 6);
        assert(prefix[0] == 'n' && prefix[1] == 'o' && prefix[2] == 'n' && prefix[3] == 'c'
            && prefix[4] == 'e' && prefix[5] == '=');
        assert(start[0] == text@[0] && start[1] == text@[1] && start[2] == text@[2] && start[3]
            == text@[3] && start[4] == text@[4] && start[5] == text@[5]);
        assert(begins_with_prefix <==> prefix =~= start);
    }
    if !begins_with_prefix {
        return Err(AuthError::MissingNoncePrefix);
    }
    let nonce = text.substring_char(6, length);
    assert(nonce@ == text@.skip(6));
    Ok(String::from_str(nonce))
}

/// Extraction gives back what was sent: from the text `nonce=` followed by
/// any text at all, the nonce extracted is that text.
pub proof fn lemma_extract_nonce_round_trip(nonce: Seq<char>)
    ensures
        challenge_nonce(encode_utf8("nonce="@ + nonce)) == Ok::<Seq<char>, AuthError>(nonce),
{
    broadcast use vstd::utf8::encode_utf8_decode_utf8, vstd::utf8::encode_utf8_valid_utf8;

    reveal_strlit("nonce=");
    let text = "nonce="@ + nonce;
    assert(decode_utf8(encode_utf8(text)) == text);
    assert(text.subrange(0, 6) =~= "nonce="@);
    assert(text.skip(6) =~= nonce);
}

/// Extraction fails on every text that does not begin with `nonce=`, and
/// says that the prefix is missing.
pub proof fn lemma_extract_nonce_needs_prefix(text: Seq<char>)
    requires
        !"nonce="@.is_prefix_of(text),
    ensures
        challenge_nonce(encode_utf8(text)) == Err::<Seq<char>, AuthError>(
            AuthError::MissingNoncePrefix,
        ),
{
    broadcast use vstd::utf8::encode_utf8_decode_utf8, vstd::utf8::encode_utf8_valid_utf8;

    assert(decode_utf8(encode_utf8(text)) == text);
}

} // verus!
