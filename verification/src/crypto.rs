//! The signing engine: from credential material, a nonce and an instant to
//! the text that answers a challenge.
//!
//! Four stages, in this order: the scope, the canonical request, the signing
//! key, the signature. Each stage has a function on texts that states what
//! it builds, and an executable function that builds it.
use vstd::prelude::*;
use vstd::string::*;
use vstd::utf8::*;
use crate::digest::{
    hex_lower, hex_lower_text, hmac_accepts, hmac_sha256_tag, lemma_hex_lower_text_utf8_len,
    ring_hmac_sha256, ring_sha256, sha256_digest, BLOCK_LEN, DIGEST_LEN, HEX_DIGEST_LEN,
    MAX_DIGEST_INPUT,
};
use crate::text::{
    lemma_replace_char_text_len, lemma_utf8_len_bounds, lemma_utf8_len_concat, replace_char,
    replace_char_text, utf8_len,
};
use crate::timestamp::{
    amz_date_text, datestamp_text, lemma_amz_date_text_len, lemma_decimal_text_shape,
    lemma_year_text_shape, Instant, Timestamp,
};

verus! {

/// The scope of a signature: the date, the region, the service and the kind
/// of request that it is good for.
pub open spec fn scope_text(datestamp: Seq<char>, region: Seq<char>) -> Seq<char> {
    datestamp + "/"@ + region + "/cassandra/aws4_request"@
}

/// The SHA-256 digest of `message` in lowercase hexadecimal.
pub open spec fn sha256_hex_text(message: Seq<u8>) -> Seq<char> {
    hex_lower_text(sha256_digest(message))
}

/// The query string of the canonical request: four fields joined by `&`,
/// with `/` in the scope written `%2F` and `:` in the time written `%3A`.
pub open spec fn query_string_text(
    access_key_id: Seq<char>,
    scope: Seq<char>,
    amz_date: Seq<char>,
) -> Seq<char> {
    "X-Amz-Algorithm=AWS4-HMAC-SHA256"@ + "&"@ + "X-Amz-Credential="@ + access_key_id + "%2F"@
        + replace_char_text(scope, '/', "%2F"@) + "&"@ + "X-Amz-Date="@ + replace_char_text(
        amz_date,
        ':',
        "%3A"@,
    ) + "&"@ + "X-Amz-Expires=900"@
}

/// The canonical request: the verb, the path, the query string, the one
/// header, the list of signed headers, and the hash of the nonce.
pub open spec fn canonical_request_text(
    access_key_id: Seq<char>,
    scope: Seq<char>,
    amz_date: Seq<char>,
    nonce_hash: Seq<char>,
) -> Seq<char> {
    "PUT\n/authenticate\n"@ + query_string_text(access_key_id, scope, amz_date)
        + "\nhost:cassandra\n\nhost\n"@ + nonce_hash
}

/// The signing key: a chain of four HMACs, each keyed by the one before it,
/// over the date, the region, the service and the kind of request. The
/// first key is the secret behind the letters `AWS4`.
pub open spec fn signing_key_bytes(
    secret: Seq<char>,
    datestamp: Seq<char>,
    region: Seq<char>,
) -> Seq<u8> {
    let date_key = hmac_sha256_tag(encode_utf8("AWS4"@ + secret), encode_utf8(datestamp));
    let region_key = hmac_sha256_tag(date_key, encode_utf8(region));
    let service_key = hmac_sha256_tag(region_key, encode_utf8("cassandra"@));
    hmac_sha256_tag(service_key, encode_utf8("aws4_request"@))
}

/// The text that is signed: the algorithm, the time, the scope and the hash
/// of the canonical request, one to a line.
pub open spec fn string_to_sign_text(
    amz_date: Seq<char>,
    scope: Seq<char>,
    request_hash: Seq<char>,
) -> Seq<char> {
    "AWS4-HMAC-SHA256\n"@ + amz_date + "\n"@ + scope + "\n"@ + request_hash
}

/// The signature of a canonical request: the HMAC of the text to sign under
/// the signing key, in lowercase hexadecimal.
pub open spec fn signature_text(
    canonical_request: Seq<char>,
    amz_date: Seq<char>,
    scope: Seq<char>,
    signing_key: Seq<u8>,
) -> Seq<char> {
    hex_lower_text(
        hmac_sha256_tag(
            signing_key,
            encode_utf8(
                string_to_sign_text(
                    amz_date,
                    scope,
                    sha256_hex_text(encode_utf8(canonical_request)),
                ),
            ),
        ),
    )
}

/// The response as it goes on the wire: the signature, the access key and
/// the time, and the session token only if there is one.
pub open spec fn response_text(
    signature: Seq<char>,
    access_key_id: Seq<char>,
    amz_date: Seq<char>,
    session_token: Option<Seq<char>>,
) -> Seq<char> {
    let fixed = "signature="@ + signature + ",access_key="@ + access_key_id + ",amzdate="@
        + amz_date;
    match session_token {
        Some(token) => fixed + ",session_token="@ + token,
        None => fixed,
    }
}

/// The canonical request of one call.
pub open spec fn canonical_request_of(
    region: Seq<char>,
    nonce: Seq<char>,
    access_key_id: Seq<char>,
    t: Instant,
) -> Seq<char> {
    canonical_request_text(
        access_key_id,
        scope_text(datestamp_text(t), region),
        amz_date_text(t),
        sha256_hex_text(encode_utf8(nonce)),
    )
}

/// The text that one call signs.
pub open spec fn text_to_sign_of(
    region: Seq<char>,
    nonce: Seq<char>,
    access_key_id: Seq<char>,
    t: Instant,
) -> Seq<char> {
    string_to_sign_text(
        amz_date_text(t),
        scope_text(datestamp_text(t), region),
        sha256_hex_text(encode_utf8(canonical_request_of(region, nonce, access_key_id, t))),
    )
}

/// The key that one call signs with.
pub open spec fn signing_key_of(region: Seq<char>, secret: Seq<char>, t: Instant) -> Seq<u8> {
    signing_key_bytes(secret, datestamp_text(t), region)
}

/// The signature of one call.
pub open spec fn signature_of(
    region: Seq<char>,
    nonce: Seq<char>,
    access_key_id: Seq<char>,
    secret: Seq<char>,
    t: Instant,
) -> Seq<char> {
    signature_text(
        canonical_request_of(region, nonce, access_key_id, t),
        amz_date_text(t),
        scope_text(datestamp_text(t), region),
        signing_key_of(region, secret, t),
    )
}

/// The response to a challenge: what [`build_signed_response`] returns.
pub open spec fn signed_response_text(
    region: Seq<char>,
    nonce: Seq<char>,
    access_key_id: Seq<char>,
    secret: Seq<char>,
    session_token: Option<Seq<char>>,
    t: Instant,
) -> Seq<char> {
    response_text(
        signature_of(region, nonce, access_key_id, secret, t),
        access_key_id,
        amz_date_text(t),
        session_token,
    )
}

/// Whether the digest accepts every message that signing with these inputs
/// hands to it: the nonce, the canonical request, the secret behind its
/// prefix, the region after one block of key, and the text to sign after one
/// block of key. The last part of the canonical request and of the text to
/// sign is a digest in hexadecimal, whatever the inputs are.
pub open spec fn signing_inputs_fit(
    region: Seq<char>,
    nonce: Seq<char>,
    access_key_id: Seq<char>,
    secret: Seq<char>,
    t: Instant,
) -> bool {
    let scope = scope_text(datestamp_text(t), region);
    let amz_date = amz_date_text(t);
    &&& utf8_len(nonce) <= MAX_DIGEST_INPUT
    &&& utf8_len(canonical_request_text(access_key_id, scope, amz_date, Seq::empty()))
        + HEX_DIGEST_LEN <= MAX_DIGEST_INPUT
    &&& utf8_len("AWS4"@ + secret) <= MAX_DIGEST_INPUT
    &&& utf8_len(region) + BLOCK_LEN <= MAX_DIGEST_INPUT
    &&& utf8_len(string_to_sign_text(amz_date, scope, Seq::empty())) + HEX_DIGEST_LEN + BLOCK_LEN
        <= MAX_DIGEST_INPUT
}

/// A length in characters up to which every text fits: see
/// [`lemma_ordinary_inputs_fit`].
pub const ORDINARY_TEXT_LEN: u64 = 0x0100_0000_0000_0000;

/// The view of a text that may be absent.
pub open spec fn optional_text(text: Option<&str>) -> Option<Seq<char>> {
    match text {
        Some(t) => Some(t@),
        None => None,
    }
}

/// The date of the credential scope: `YYYYMMDD`.
pub fn to_cred_datestamp(time: Timestamp) -> (datestamp: String)
    ensures
        datestamp@ == datestamp_text(time@),
{
    time.datestamp()
}

/// The scope for an instant and a region.
pub fn compute_scope(time: Timestamp, region: &str) -> (scope: String)
    ensures
        scope@ == scope_text(datestamp_text(time@), region@),
{
    let mut scope = to_cred_datestamp(time);
    scope.append("/");
    scope.append(region);
    scope.append("/cassandra/aws4_request");
    scope
}

/// The SHA-256 digest of `input` in lowercase hexadecimal.
pub fn sha256(input: &[u8]) -> (hex: String)
    requires
        input@.len() <= MAX_DIGEST_INPUT,
    ensures
        hex@ == sha256_hex_text(input@),
        hex@.len() == HEX_DIGEST_LEN,
{
    let digest = ring_sha256(input);
    hex_lower(digest.as_slice())
}

/// The query string for an access key, a scope and a time.
pub fn query_string(access_key_id: &str, scope: &str, amz_date: &str) -> (query: String)
    ensures
        query@ == query_string_text(access_key_id@, scope@, amz_date@),
{
    let encoded_scope = replace_char(scope, '/', "%2F");
    let encoded_date = replace_char(amz_date, ':', "%3A");
    let mut query = String::from_str("X-Amz-Algorithm=AWS4-HMAC-SHA256");
    query.append("&");
    query.append("X-Amz-Credential=");
    query.append(access_key_id);
    query.append("%2F");
    query.append(encoded_scope.as_str());
    query.append("&");
    query.append("X-Amz-Date=");
    query.append(encoded_date.as_str());
    query.append("&");
    query.append("X-Amz-Expires=900");
    query
}

/// The canonical request around a hash of the nonce that is already made.
pub fn canonical_request(
    access_key_id: &str,
    scope: &str,
    amz_date: &str,
    nonce_hash: &str,
) -> (request: String)
    ensures
        request@ == canonical_request_text(access_key_id@, scope@, amz_date@, nonce_hash@),
{
    let query = query_string(access_key_id, scope, amz_date);
    let mut request = String::from_str("PUT\n/authenticate\n");
    request.append(query.as_str());
    request.append("\nhost:cassandra\n\nhost\n");
    request.append(nonce_hash);
    request
}

/// The canonical request for an access key, a scope, an instant and a nonce.
pub fn form_cannonical_request(
    access_key_id: &str,
    scope: &str,
    time: Timestamp,
    nonce: &str,
) -> (request: String)
    requires
        utf8_len(nonce@) <= MAX_DIGEST_INPUT,
    ensures
        request@ == canonical_request_text(
            access_key_id@,
            scope@,
            amz_date_text(time@),
            sha256_hex_text(encode_utf8(nonce@)),
        ),
        utf8_len(request@) == utf8_len(
            canonical_request_text(access_key_id@, scope@, amz_date_text(time@), Seq::empty()),
        ) + HEX_DIGEST_LEN,
{
    let nonce_hash = sha256(nonce.as_bytes());
    let amz_date = time.amz_date();
    proof {
        assert(sha256_digest(encode_utf8(nonce@)).len() == DIGEST_LEN);
        lemma_text_before_hash(
            canonical_request_text(access_key_id@, scope@, amz_date@, Seq::empty()),
            sha256_digest(encode_utf8(nonce@)),
        );
    }
    canonical_request(access_key_id, scope, amz_date.as_str(), nonce_hash.as_str())
}

/// The HMAC-SHA256 tag of the text `data` under the key `key_value`.
pub fn hmac(data: &str, key_value: &[u8]) -> (tag: Vec<u8>)
    requires
        hmac_accepts(key_value@, encode_utf8(data@)),
    ensures
        tag@ == hmac_sha256_tag(key_value@, encode_utf8(data@)),
        tag@.len() == DIGEST_LEN,
{
    ring_hmac_sha256(key_value, data.as_bytes())
}

/// The signing key for a secret, the date of an instant, and a region.
pub fn derive_signing_key(secret: &str, time: Timestamp, region: &str) -> (key: Vec<u8>)
    requires
        utf8_len("AWS4"@ + secret@) <= MAX_DIGEST_INPUT,
        utf8_len(region@) + BLOCK_LEN <= MAX_DIGEST_INPUT,
    ensures
        key@ == signing_key_bytes(secret@, datestamp_text(time@), region@),
        key@.len() == DIGEST_LEN,
{
    let mut key_material = String::from_str("AWS4");
    key_material.append(secret);
    let datestamp = to_cred_datestamp(time);
    proof {
        lemma_datestamp_text_len(time@);
        lemma_utf8_len_bounds(datestamp@);
        reveal_strlit("cassandra");
        lemma_utf8_len_bounds("cassandra"@);
        reveal_strlit("aws4_request");
        lemma_utf8_len_bounds("aws4_request"@);
    }
    let date_key = hmac(datestamp.as_str(), key_material.as_str().as_bytes());
    let region_key = hmac(region, date_key.as_slice());
    let service_key = hmac("cassandra", region_key.as_slice());
    hmac("aws4_request", service_key.as_slice())
}

/// The text to sign around a hash of the canonical request that is already
/// made.
pub fn string_to_sign(amz_date: &str, scope: &str, request_hash: &str) -> (text: String)
    ensures
        text@ == string_to_sign_text(amz_date@, scope@, request_hash@),
{
    let mut text = String::from_str("AWS4-HMAC-SHA256\n");
    text.append(amz_date);
    text.append("\n");
    text.append(scope);
    text.append("\n");
    text.append(request_hash);
    text
}

/// The signature of a canonical request for an instant and a scope, under a
/// signing key.
pub fn create_signature(
    canonical_request: &str,
    t: Timestamp,
    signing_scope: &str,
    signing_key: &[u8],
) -> (signature: String)
    requires
        utf8_len(canonical_request@) <= MAX_DIGEST_INPUT,
        signing_key@.len() <= MAX_DIGEST_INPUT,
        utf8_len(string_to_sign_text(amz_date_text(t@), signing_scope@, Seq::empty()))
            + HEX_DIGEST_LEN + BLOCK_LEN <= MAX_DIGEST_INPUT,
    ensures
        signature@ == signature_text(
            canonical_request@,
            amz_date_text(t@),
            signing_scope@,
            signing_key@,
        ),
        signature@.len() == HEX_DIGEST_LEN,
{
    let digest = sha256(canonical_request.as_bytes());
    let amz_date = t.amz_date();
    let text = string_to_sign(amz_date.as_str(), signing_scope, digest.as_str());
    proof {
        assert(sha256_digest(encode_utf8(canonical_request@)).len() == DIGEST_LEN);
        lemma_text_before_hash(
            string_to_sign_text(amz_date@, signing_scope@, Seq::empty()),
            sha256_digest(encode_utf8(canonical_request@)),
        );
    }
    let tag = hmac(text.as_str(), signing_key);
    hex_lower(tag.as_slice())
}

/// The response text around a signature that is already made.
pub fn format_response(
    signature: &str,
    access_key_id: &str,
    amz_date: &str,
    session_token: Option<&str>,
) -> (response: String)
    ensures
        response@ == response_text(
            signature@,
            access_key_id@,
            amz_date@,
            optional_text(session_token),
        ),
{
    let mut response = String::from_str("signature=");
    response.append(signature);
    response.append(",access_key=");
    response.append(access_key_id);
    response.append(",amzdate=");
    response.append(amz_date);
    if let Some(token) = session_token {
        response.append(",session_token=");
        response.append(token);
    }
    response
}

/// The response to a challenge: signs the canonical request for `nonce`
/// with the key derived from `secret` for the date of `t` and for `region`.
///
/// The same inputs give the same text, and the signature in it has 64
/// characters. The precondition asks that the digest accept the messages:
/// see [`signing_inputs_fit`] and [`can_sign`].
pub fn build_signed_response(
    region: &str,
    nonce: &str,
    access_key_id: &str,
    secret: &str,
    session_token: Option<&str>,
    t: Timestamp,
) -> (response: String)
    requires
        signing_inputs_fit(region@, nonce@, access_key_id@, secret@, t@),
    ensures
        response@ == signed_response_text(
            region@,
            nonce@,
            access_key_id@,
            secret@,
            optional_text(session_token),
            t@,
        ),
        signature_of(region@, nonce@, access_key_id@, secret@, t@).len() == HEX_DIGEST_LEN,
{
    let scope = compute_scope(t, region);
    let canonical_request = form_cannonical_request(access_key_id, scope.as_str(), t, nonce);
    let signing_key = derive_signing_key(secret, t, region);
    let signature = create_signature(
        canonical_request.as_str(),
        t,
        scope.as_str(),
        signing_key.as_slice(),
    );
    let amz_date = t.amz_date();
    format_response(signature.as_str(), access_key_id, amz_date.as_str(), session_token)
}

/// Whether [`build_signed_response`] can be called with these inputs.
pub fn can_sign(
    region: &str,
    nonce: &str,
    access_key_id: &str,
    secret: &str,
    t: Timestamp,
) -> (fits: bool)
    ensures
        fits == signing_inputs_fit(region@, nonce@, access_key_id@, secret@, t@),
{
    let scope = compute_scope(t, region);
    let amz_date = t.amz_date();
    let request_head = canonical_request(access_key_id, scope.as_str(), amz_date.as_str(), "");
    let mut key_material = String::from_str("AWS4");
    key_material.append(secret);
    let text_head = string_to_sign(amz_date.as_str(), scope.as_str(), "");
    proof {
        reveal_strlit("");
        assert(""@ == Seq::<char>::empty());
    }
    let nonce_len: u64 = nonce.as_bytes().len() as u64;
    let request_len: u64 = request_head.as_str().as_bytes().len() as u64;
    let key_len: u64 = key_material.as_str().as_bytes().len() as u64;
    let region_len: u64 = region.as_bytes().len() as u64;
    let text_len: u64 = text_head.as_str().as_bytes().len() as u64;
    nonce_len <= MAX_DIGEST_INPUT && request_len <= MAX_DIGEST_INPUT - HEX_DIGEST_LEN && key_len
        <= MAX_DIGEST_INPUT && region_len <= MAX_DIGEST_INPUT - BLOCK_LEN && text_len
        <= MAX_DIGEST_INPUT - HEX_DIGEST_LEN - BLOCK_LEN
}

/// Inputs of any length that occurs fit: a region, a nonce, an access key
/// and a secret of up to 2^56 characters each can be signed, at any instant.
pub proof fn lemma_ordinary_inputs_fit(
    region: Seq<char>,
    nonce: Seq<char>,
    access_key_id: Seq<char>,
    secret: Seq<char>,
    t: Instant,
)
    requires
        region.len() <= ORDINARY_TEXT_LEN,
        nonce.len() <= ORDINARY_TEXT_LEN,
        access_key_id.len() <= ORDINARY_TEXT_LEN,
        secret.len() <= ORDINARY_TEXT_LEN,
    ensures
        signing_inputs_fit(region, nonce, access_key_id, secret, t),
{
    let scope = scope_text(datestamp_text(t), region);
    let amz_date = amz_date_text(t);
    let request = canonical_request_text(access_key_id, scope, amz_date, Seq::empty());
    let text = string_to_sign_text(amz_date, scope, Seq::empty());
    lemma_datestamp_text_len(t);
    lemma_amz_date_text_len(t);
    reveal_strlit("/");
    reveal_strlit("/cassandra/aws4_request");
    reveal_strlit("X-Amz-Algorithm=AWS4-HMAC-SHA256");
    reveal_strlit("&");
    reveal_strlit("X-Amz-Credential=");
    reveal_strlit("%2F");
    reveal_strlit("X-Amz-Date=");
    reveal_strlit("%3A");
    reveal_strlit("X-Amz-Expires=900");
    reveal_strlit("PUT\n/authenticate\n");
    reveal_strlit("\nhost:cassandra\n\nhost\n");
    reveal_strlit("AWS4-HMAC-SHA256\n");
    reveal_strlit("\n");
    reveal_strlit("AWS4");
    lemma_replace_char_text_len(scope, '/', "%2F"@);
    lemma_replace_char_text_len(amz_date, ':', "%3A"@);
    assert(scope.len() <= region.len() + 35);
    assert(request.len() <= access_key_id.len() + 3 * scope.len() + 204);
    assert(text.len() <= scope.len() + 46);
    lemma_utf8_len_bounds(nonce);
    lemma_utf8_len_bounds(region);
    lemma_utf8_len_bounds("AWS4"@ + secret);
    lemma_utf8_len_bounds(request);
    lemma_utf8_len_bounds(text);
}

/// The date of an instant is written with eight to eleven characters; from
/// the year 0 to the year 9999, with eight.
pub proof fn lemma_datestamp_text_len(t: Instant)
    ensures
        8 <= datestamp_text(t).len() <= 11,
        0 <= t.year <= 9999 ==> datestamp_text(t).len() == 8,
{
    lemma_year_text_shape(t.year);
    lemma_decimal_text_shape(t.month, 2);
    lemma_decimal_text_shape(t.day, 2);
}

/// A text that ends in a digest written in hexadecimal is 64 bytes longer
/// than what stands before the digest.
pub proof fn lemma_text_before_hash(head: Seq<char>, digest: Seq<u8>)
    requires
        digest.len() == DIGEST_LEN,
    ensures
        utf8_len(head + hex_lower_text(digest)) == utf8_len(head) + HEX_DIGEST_LEN,
{
    lemma_utf8_len_concat(head, hex_lower_text(digest));
    lemma_hex_lower_text_utf8_len(digest);
}

} // verus!
