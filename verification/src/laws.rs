//! What holds of every response of the signing engine, whatever the inputs.
use vstd::prelude::*;
use vstd::utf8::*;
use crate::crypto::{
    canonical_request_of, canonical_request_text, response_text, scope_text, sha256_hex_text,
    signature_of, signed_response_text, signing_key_of, text_to_sign_of,
};
use crate::digest::{
    hex_lower_text, hmac_sha256_tag, lemma_hex_lower_text_injective, lemma_hex_lower_text_shape,
    sha256_digest,
};
use crate::text::{
    count_char, field_count, lemma_count_char_absent, lemma_count_char_concat,
    lemma_count_char_one, replace_char_text,
};
use crate::timestamp::{
    amz_date_text, datestamp_text, decimal_text, lemma_decimal_text_shape,
    lemma_year_text_shape, year_text, Instant,
};

verus! {

/// Signing is deterministic: two responses to the same inputs are the same
/// text, and so the same bytes.
pub proof fn lemma_response_is_deterministic(
    first: Seq<char>,
    second: Seq<char>,
    region: Seq<char>,
    nonce: Seq<char>,
    access_key_id: Seq<char>,
    secret: Seq<char>,
    session_token: Option<Seq<char>>,
    t: Instant,
)
    requires
        first == signed_response_text(region, nonce, access_key_id, secret, session_token, t),
        second == signed_response_text(region, nonce, access_key_id, secret, session_token, t),
    ensures
        first == second,
        encode_utf8(first) == encode_utf8(second),
{
}

/// One scope serves a whole call: the scope that stands in the credential
/// field of the canonical request, with `/` written `%2F`, and the scope
/// that stands on the third line of the text to sign are the same text.
pub proof fn lemma_scope_is_consistent(
    region: Seq<char>,
    nonce: Seq<char>,
    access_key_id: Seq<char>,
    t: Instant,
)
    ensures
        ({
            let scope = scope_text(datestamp_text(t), region);
            let amz_date = amz_date_text(t);
            &&& canonical_request_of(region, nonce, access_key_id, t) == (
            "PUT\n/authenticate\n"@ + ("X-Amz-Algorithm=AWS4-HMAC-SHA256"@ + "&"@
                + "X-Amz-Credential="@ + access_key_id + "%2F"@)) + replace_char_text(
                scope,
                '/',
                "%2F"@,
            ) + (("&"@ + "X-Amz-Date="@ + replace_char_text(amz_date, ':', "%3A"@) + "&"@
                + "X-Amz-Expires=900"@) + "\nhost:cassandra\n\nhost\n"@ + sha256_hex_text(
                encode_utf8(nonce),
            ))
            &&& text_to_sign_of(region, nonce, access_key_id, t) == ("AWS4-HMAC-SHA256\n"@
                + amz_date + "\n"@) + scope + ("\n"@ + sha256_hex_text(
                encode_utf8(canonical_request_of(region, nonce, access_key_id, t)),
            ))
        }),
{
    let scope = scope_text(datestamp_text(t), region);
    let amz_date = amz_date_text(t);
    assert(canonical_request_of(region, nonce, access_key_id, t) =~= ("PUT\n/authenticate\n"@ + (
    "X-Amz-Algorithm=AWS4-HMAC-SHA256"@ + "&"@ + "X-Amz-Credential="@ + access_key_id + "%2F"@))
        + replace_char_text(scope, '/', "%2F"@) + (("&"@ + "X-Amz-Date="@ + replace_char_text(
        amz_date,
        ':',
        "%3A"@,
    ) + "&"@ + "X-Amz-Expires=900"@) + "\nhost:cassandra\n\nhost\n"@ + sha256_hex_text(
        encode_utf8(nonce),
    )));
    assert(text_to_sign_of(region, nonce, access_key_id, t) =~= ("AWS4-HMAC-SHA256\n"@ + amz_date
        + "\n"@) + scope + ("\n"@ + sha256_hex_text(
        encode_utf8(canonical_request_of(region, nonce, access_key_id, t)),
    )));
}

/// The time of a response holds no comma.
pub proof fn lemma_amz_date_has_no_comma(t: Instant)
    ensures
        count_char(amz_date_text(t), ',') == 0,
{
    let year = year_text(t.year);
    let month = decimal_text(t.month, 2);
    let day = decimal_text(t.day, 2);
    let hour = decimal_text(t.hour, 2);
    let minute = decimal_text(t.minute, 2);
    let second = decimal_text(t.second + t.millisecond / 1000, 2);
    let millisecond = decimal_text(t.millisecond % 1000, 3);
    lemma_year_text_shape(t.year);
    lemma_decimal_text_shape(t.month, 2);
    lemma_decimal_text_shape(t.day, 2);
    lemma_decimal_text_shape(t.hour, 2);
    lemma_decimal_text_shape(t.minute, 2);
    lemma_decimal_text_shape(t.second + t.millisecond / 1000, 2);
    lemma_decimal_text_shape(t.millisecond % 1000, 3);
    lemma_count_char_absent(year, ',');
    lemma_count_char_absent(month, ',');
    lemma_count_char_absent(day, ',');
    lemma_count_char_absent(hour, ',');
    lemma_count_char_absent(minute, ',');
    lemma_count_char_absent(second, ',');
    lemma_count_char_absent(millisecond, ',');
    lemma_count_char_one(seq!['-'], ',');
    lemma_count_char_one(seq!['T'], ',');
    lemma_count_char_one(seq![':'], ',');
    lemma_count_char_one(seq!['.'], ',');
    lemma_count_char_one(seq!['Z'], ',');
    let to_year = year + seq!['-'];
    lemma_count_char_concat(year, seq!['-'], ',');
    let to_month = to_year + month + seq!['-'];
    lemma_count_char_concat(to_year, month, ',');
    lemma_count_char_concat(to_year + month, seq!['-'], ',');
    let to_day = to_month + day + seq!['T'];
    lemma_count_char_concat(to_month, day, ',');
    lemma_count_char_concat(to_month + day, seq!['T'], ',');
    let to_hour = to_day + hour + seq![':'];
    lemma_count_char_concat(to_day, hour, ',');
    lemma_count_char_concat(to_day + hour, seq![':'], ',');
    let to_minute = to_hour + minute + seq![':'];
    lemma_count_char_concat(to_hour, minute, ',');
    lemma_count_char_concat(to_hour + minute, seq![':'], ',');
    let to_second = to_minute + second + seq!['.'];
    lemma_count_char_concat(to_minute, second, ',');
    lemma_count_char_concat(to_minute + second, seq!['.'], ',');
    lemma_count_char_concat(to_second, millisecond, ',');
    lemma_count_char_concat(to_second + millisecond, seq!['Z'], ',');
}

/// The shape of a response around a signature and a time that hold no
/// comma: it begins with `signature=`, and its commas are the two or three
/// that part the fields and those of the access key and of the token.
pub proof fn lemma_response_text_format(
    signature: Seq<char>,
    access_key_id: Seq<char>,
    amz_date: Seq<char>,
    session_token: Option<Seq<char>>,
)
    requires
        count_char(signature, ',') == 0,
        count_char(amz_date, ',') == 0,
    ensures
        "signature="@.is_prefix_of(
            response_text(signature, access_key_id, amz_date, session_token),
        ),
        count_char(response_text(signature, access_key_id, amz_date, session_token), ',') == 2
            + count_char(access_key_id, ',') + match session_token {
            Some(token) => 1 + count_char(token, ','),
            None => 0,
        },
{
    reveal_strlit("signature=");
    reveal_strlit(",access_key=");
    reveal_strlit(",amzdate=");
    reveal_strlit(",session_token=");
    let signature_label = "signature="@;
    let access_key_label = ",access_key="@;
    let amz_date_label = ",amzdate="@;
    let token_label = ",session_token="@;
    lemma_count_char_absent(signature_label, ',');
    lemma_literal_with_leading_comma(access_key_label);
    lemma_literal_with_leading_comma(amz_date_label);
    lemma_literal_with_leading_comma(token_label);
    let with_signature = signature_label + signature;
    lemma_count_char_concat(signature_label, signature, ',');
    let with_key_label = with_signature + access_key_label;
    lemma_count_char_concat(with_signature, access_key_label, ',');
    let with_key = with_key_label + access_key_id;
    lemma_count_char_concat(with_key_label, access_key_id, ',');
    let with_date_label = with_key + amz_date_label;
    lemma_count_char_concat(with_key, amz_date_label, ',');
    let fixed = with_date_label + amz_date;
    lemma_count_char_concat(with_date_label, amz_date, ',');
    assert(count_char(fixed, ',') == 2 + count_char(access_key_id, ','));
    assert(signature_label =~= fixed.subrange(0, 10));
    match session_token {
        Some(token) => {
            let with_token_label = fixed + token_label;
            lemma_count_char_concat(fixed, token_label, ',');
            lemma_count_char_concat(with_token_label, token, ',');
            assert(signature_label =~= (with_token_label + token).subrange(0, 10));
        },
        None => {},
    }
}

/// A text whose first character is its only comma counts one comma.
proof fn lemma_literal_with_leading_comma(text: Seq<char>)
    requires
        text.len() >= 1,
        text[0] == ',',
        forall|i: int| 1 <= i < text.len() ==> text[i] != ',',
    ensures
        count_char(text, ',') == 1,
{
    let head = text.take(1);
    let tail = text.skip(1);
    assert(text =~= head + tail);
    lemma_count_char_one(head, ',');
    lemma_count_char_absent(tail, ',');
    lemma_count_char_concat(head, tail, ',');
}

/// The format of every response: it begins with `signature=`; where the
/// access key and the token hold no comma, it has three fields without a
/// token and four with one; without a token it ends with the time, so that
/// no field of a token stands in it, not even an empty one; and with a
/// token the fourth field holds that token as it was given.
pub proof fn lemma_signed_response_format(
    region: Seq<char>,
    nonce: Seq<char>,
    access_key_id: Seq<char>,
    secret: Seq<char>,
    session_token: Option<Seq<char>>,
    t: Instant,
)
    requires
        count_char(access_key_id, ',') == 0,
        session_token matches Some(token) ==> count_char(token, ',') == 0,
    ensures
        ({
            let response = signed_response_text(
                region,
                nonce,
                access_key_id,
                secret,
                session_token,
                t,
            );
            let signature = signature_of(region, nonce, access_key_id, secret, t);
            &&& "signature="@.is_prefix_of(response)
            &&& field_count(response) == if session_token is Some {
                4nat
            } else {
                3nat
            }
            &&& session_token is None ==> response == "signature="@ + signature
                + ",access_key="@ + access_key_id + ",amzdate="@ + amz_date_text(t)
            &&& session_token matches Some(token) ==> response == "signature="@ + signature
                + ",access_key="@ + access_key_id + ",amzdate="@ + amz_date_text(t)
                + ",session_token="@ + token
        }),
{
    let signature = signature_of(region, nonce, access_key_id, secret, t);
    let tag = hmac_sha256_tag(
        signing_key_of(region, secret, t),
        encode_utf8(text_to_sign_of(region, nonce, access_key_id, t)),
    );
    assert(signature == hex_lower_text(tag));
    lemma_hex_lower_text_shape(tag);
    lemma_count_char_absent(signature, ',');
    lemma_amz_date_has_no_comma(t);
    lemma_response_text_format(signature, access_key_id, amz_date_text(t), session_token);
}

/// The nonce reaches the canonical request and nothing of the signing key:
/// the request ends in the hash of the nonce, two nonces with different
/// digests give different requests, and the key that signs is made of the
/// secret, the date and the region alone.
pub proof fn lemma_nonce_reaches_the_request_only(
    region: Seq<char>,
    first_nonce: Seq<char>,
    second_nonce: Seq<char>,
    access_key_id: Seq<char>,
    secret: Seq<char>,
    t: Instant,
)
    ensures
        ({
            let head = canonical_request_text(
                access_key_id,
                scope_text(datestamp_text(t), region),
                amz_date_text(t),
                Seq::empty(),
            );
            let first = canonical_request_of(region, first_nonce, access_key_id, t);
            let second = canonical_request_of(region, second_nonce, access_key_id, t);
            &&& first == head + sha256_hex_text(encode_utf8(first_nonce))
            &&& second == head + sha256_hex_text(encode_utf8(second_nonce))
            &&& sha256_digest(encode_utf8(first_nonce)) != sha256_digest(
                encode_utf8(second_nonce),
            ) ==> first != second
        }),
        signature_of(region, first_nonce, access_key_id, secret, t) == hex_lower_text(
            hmac_sha256_tag(
                signing_key_of(region, secret, t),
                encode_utf8(text_to_sign_of(region, first_nonce, access_key_id, t)),
            ),
        ),
        signature_of(region, second_nonce, access_key_id, secret, t) == hex_lower_text(
            hmac_sha256_tag(
                signing_key_of(region, secret, t),
                encode_utf8(text_to_sign_of(region, second_nonce, access_key_id, t)),
            ),
        ),
{
    let head = canonical_request_text(
        access_key_id,
        scope_text(datestamp_text(t), region),
        amz_date_text(t),
        Seq::empty(),
    );
    let first_hash = sha256_hex_text(encode_utf8(first_nonce));
    let second_hash = sha256_hex_text(encode_utf8(second_nonce));
    let first = canonical_request_of(region, first_nonce, access_key_id, t);
    let second = canonical_request_of(region, second_nonce, access_key_id, t);
    assert(first =~= head + first_hash);
    assert(second =~= head + second_hash);
    if first == second {
        assert((head + first_hash).skip(head.len() as int) =~= first_hash);
        assert((head + second_hash).skip(head.len() as int) =~= second_hash);
        lemma_hex_lower_text_injective(
            sha256_digest(encode_utf8(first_nonce)),
            sha256_digest(encode_utf8(second_nonce)),
        );
    }
}

/// The region is the message of the second link of the chain of keys, and
/// each link is keyed by the one before it.
pub proof fn lemma_signing_key_chain(secret: Seq<char>, region: Seq<char>, t: Instant)
    ensures
        ({
            let date_key = hmac_sha256_tag(
                encode_utf8("AWS4"@ + secret),
                encode_utf8(datestamp_text(t)),
            );
            let region_key = hmac_sha256_tag(date_key, encode_utf8(region));
            let service_key = hmac_sha256_tag(region_key, encode_utf8("cassandra"@));
            signing_key_of(region, secret, t) == hmac_sha256_tag(
                service_key,
                encode_utf8("aws4_request"@),
            )
        }),
{
}

} // verus!
