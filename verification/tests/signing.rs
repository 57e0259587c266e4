use scylla_aws_keyspaces_authenticator::crypto::{
    build_signed_response, can_sign, canonical_request, compute_scope, create_signature,
    derive_signing_key, form_cannonical_request, format_response, hmac, query_string, sha256,
    string_to_sign, to_cred_datestamp,
};
use scylla_aws_keyspaces_authenticator::text::replace_char;
use scylla_aws_keyspaces_authenticator::Timestamp;

fn new_year_2022() -> Timestamp {
    Timestamp::new(2022, 1, 1, 0, 0, 0, 0).unwrap()
}

fn leap_day_2024() -> Timestamp {
    Timestamp::new(2024, 2, 29, 23, 59, 59, 999).unwrap()
}

fn hex(bytes: &[u8]) -> String {
    let mut text = String::new();
    for byte in bytes {
        text.push_str(&format!("{:02x}", byte));
    }
    text
}

const CANONICAL_REQUEST_2022: &str = "PUT\n/authenticate\nX-Amz-Algorithm=AWS4-HMAC-SHA256&X-Amz-Credential=AKIDEXAMPLE%2F20220101%2Fus-east-1%2Fcassandra%2Faws4_request&X-Amz-Date=2022-01-01T00%3A00%3A00.000Z&X-Amz-Expires=900\nhost:cassandra\n\nhost\n6ca13d52ca70c883e0f0bb101e425a89e8624de51db2d2392593af6a84118090";

#[test]
fn reference_vector_without_session_token() {
    let response = build_signed_response(
        "us-east-1",
        "abc123",
        "AKIDEXAMPLE",
        "examplesecret",
        None,
        new_year_2022(),
    );
    assert_eq!(
        response,
        "signature=7856dfdf986e7ef3ccb2b9d3fdd9d1591cd4335e9e3415e973ef84f863b94754,access_key=AKIDEXAMPLE,amzdate=2022-01-01T00:00:00.000Z"
    );
}

#[test]
fn reference_vector_with_session_token() {
    let response = build_signed_response(
        "us-east-1",
        "abc123",
        "AKIDEXAMPLE",
        "examplesecret",
        Some("TOKEN"),
        new_year_2022(),
    );
    assert_eq!(
        response,
        "signature=7856dfdf986e7ef3ccb2b9d3fdd9d1591cd4335e9e3415e973ef84f863b94754,access_key=AKIDEXAMPLE,amzdate=2022-01-01T00:00:00.000Z,session_token=TOKEN"
    );
}

#[test]
fn reference_vector_with_text_beyond_ascii() {
    let response = build_signed_response(
        "us-east-1",
        "n\u{e9}",
        "AKID/X",
        "s\u{fc}\u{df}",
        Some("t,k"),
        leap_day_2024(),
    );
    assert_eq!(
        response,
        "signature=951f0fc3c41bc8fa57e259bc2046cbfe79924c506d76bdc483582d99eef2a595,access_key=AKID/X,amzdate=2024-02-29T23:59:59.999Z,session_token=t,k"
    );
}

#[test]
fn same_inputs_give_the_same_response() {
    let first = build_signed_response("us-east-1", "abc123", "AKIDEXAMPLE", "examplesecret", Some("T"), new_year_2022());
    let second = build_signed_response("us-east-1", "abc123", "AKIDEXAMPLE", "examplesecret", Some("T"), new_year_2022());
    assert_eq!(first.as_bytes(), second.as_bytes());
}

#[test]
fn datestamp_is_year_month_day() {
    assert_eq!(to_cred_datestamp(new_year_2022()), "20220101");
    assert_eq!(to_cred_datestamp(leap_day_2024()), "20240229");
}

#[test]
fn scope_joins_date_region_service_and_request_kind() {
    assert_eq!(
        compute_scope(new_year_2022(), "us-east-1"),
        "20220101/us-east-1/cassandra/aws4_request"
    );
    assert_eq!(compute_scope(leap_day_2024(), ""), "20240229//cassandra/aws4_request");
}

#[test]
fn sha256_is_lowercase_hexadecimal_of_the_digest() {
    assert_eq!(
        sha256(b""),
        "e3b0c44298fc1c149afbf4c8996fb92427ae41e4649b934ca495991b7852b855"
    );
    assert_eq!(
        sha256(b"abc"),
        "ba7816bf8f01cfea414140de5dae2223b00361a396177a9cb410ff61f20015ad"
    );
    assert_eq!(
        sha256(b"abc123"),
        "6ca13d52ca70c883e0f0bb101e425a89e8624de51db2d2392593af6a84118090"
    );
}

#[test]
fn hmac_takes_the_text_first_and_the_key_second() {
    let tag = hmac("The quick brown fox jumps over the lazy dog", b"key");
    assert_eq!(tag.len(), 32);
    assert_eq!(
        hex(&tag),
        "f7bc83f430538424b13298e6aa6fb143ef4d59a14946175997479dbc2d1a3cd8"
    );
}

#[test]
fn query_string_has_four_fields_in_order() {
    assert_eq!(
        query_string(
            "AKIDEXAMPLE",
            "20220101/us-east-1/cassandra/aws4_request",
            "2022-01-01T00:00:00.000Z"
        ),
        "X-Amz-Algorithm=AWS4-HMAC-SHA256&X-Amz-Credential=AKIDEXAMPLE%2F20220101%2Fus-east-1%2Fcassandra%2Faws4_request&X-Amz-Date=2022-01-01T00%3A00%3A00.000Z&X-Amz-Expires=900"
    );
}

#[test]
fn query_string_leaves_the_access_key_as_it_is() {
    assert_eq!(
        query_string("A/B:C", "s", "d"),
        "X-Amz-Algorithm=AWS4-HMAC-SHA256&X-Amz-Credential=A/B:C%2Fs&X-Amz-Date=d&X-Amz-Expires=900"
    );
}

#[test]
fn canonical_request_has_a_fixed_shape() {
    assert_eq!(
        canonical_request(
            "AKIDEXAMPLE",
            "20220101/us-east-1/cassandra/aws4_request",
            "2022-01-01T00:00:00.000Z",
            "6ca13d52ca70c883e0f0bb101e425a89e8624de51db2d2392593af6a84118090"
        ),
        CANONICAL_REQUEST_2022
    );
    assert_eq!(
        canonical_request("K", "s", "d", "h"),
        "PUT\n/authenticate\nX-Amz-Algorithm=AWS4-HMAC-SHA256&X-Amz-Credential=K%2Fs&X-Amz-Date=d&X-Amz-Expires=900\nhost:cassandra\n\nhost\nh"
    );
}

#[test]
fn canonical_request_ends_in_the_hash_of_the_nonce() {
    let request = form_cannonical_request(
        "AKIDEXAMPLE",
        "20220101/us-east-1/cassandra/aws4_request",
        new_year_2022(),
        "abc123",
    );
    assert_eq!(request, CANONICAL_REQUEST_2022);
}

#[test]
fn signing_key_is_a_chain_of_four() {
    let key = derive_signing_key("examplesecret", new_year_2022(), "us-east-1");
    assert_eq!(
        hex(&key),
        "ac0a74b4d68731105859d47bad4d87b2cf28f7478c79b4900b7e9cdd97b8b160"
    );
    let date_key = hmac("20220101", b"AWS4examplesecret");
    let region_key = hmac("us-east-1", &date_key);
    let service_key = hmac("cassandra", &region_key);
    assert_eq!(hmac("aws4_request", &service_key), key);
}

#[test]
fn region_reaches_the_signing_key_and_the_nonce_does_not() {
    let east = derive_signing_key("examplesecret", new_year_2022(), "us-east-1");
    let west = derive_signing_key("examplesecret", new_year_2022(), "eu-west-1");
    assert_ne!(east, west);
    assert_eq!(
        hex(&west),
        "df4233e2e49826f8be7fedca4799af5446dc879884ad0de44b8951e5a26c776d"
    );
    let scope = "20220101/us-east-1/cassandra/aws4_request";
    let first = form_cannonical_request("AKIDEXAMPLE", scope, new_year_2022(), "abc123");
    let second = form_cannonical_request("AKIDEXAMPLE", scope, new_year_2022(), "xyz789");
    let shared = first.len() - 64;
    assert_eq!(first[..shared], second[..shared]);
    assert_eq!(
        &second[shared..],
        "5a4640c17e8e49ebcc72234cce9644dcacfbc2c53e026f59281ca33928bed52d"
    );
    assert_ne!(first[shared..], second[shared..]);
    let first_response = build_signed_response("us-east-1", "abc123", "AKIDEXAMPLE", "examplesecret", None, new_year_2022());
    let second_response = build_signed_response("us-east-1", "xyz789", "AKIDEXAMPLE", "examplesecret", None, new_year_2022());
    assert_eq!(
        second_response,
        "signature=471b42c6d414c7c301385e4dd34ef6eab6c3b67c6bada6bb08e5fd6e84945d13,access_key=AKIDEXAMPLE,amzdate=2022-01-01T00:00:00.000Z"
    );
    assert_ne!(first_response, second_response);
}

#[test]
fn other_region_gives_another_signature() {
    let response = build_signed_response("eu-west-1", "abc123", "AKIDEXAMPLE", "examplesecret", None, new_year_2022());
    assert_eq!(
        response,
        "signature=84942675a4fb47af97d021b697f866b37ec9f93855443c9fb1acb1f41246d038,access_key=AKIDEXAMPLE,amzdate=2022-01-01T00:00:00.000Z"
    );
}

#[test]
fn text_to_sign_has_four_lines() {
    assert_eq!(
        string_to_sign(
            "2022-01-01T00:00:00.000Z",
            "20220101/us-east-1/cassandra/aws4_request",
            "4042d7fad6852ca253cc08b580e7fce13557373d8a8e98286b48940f2eefad8f"
        ),
        "AWS4-HMAC-SHA256\n2022-01-01T00:00:00.000Z\n20220101/us-east-1/cassandra/aws4_request\n4042d7fad6852ca253cc08b580e7fce13557373d8a8e98286b48940f2eefad8f"
    );
}

#[test]
fn signature_is_the_hmac_of_the_text_to_sign() {
    let key = derive_signing_key("examplesecret", new_year_2022(), "us-east-1");
    let signature = create_signature(
        CANONICAL_REQUEST_2022,
        new_year_2022(),
        "20220101/us-east-1/cassandra/aws4_request",
        &key,
    );
    assert_eq!(
        signature,
        "7856dfdf986e7ef3ccb2b9d3fdd9d1591cd4335e9e3415e973ef84f863b94754"
    );
    let text = string_to_sign(
        "2022-01-01T00:00:00.000Z",
        "20220101/us-east-1/cassandra/aws4_request",
        &sha256(CANONICAL_REQUEST_2022.as_bytes()),
    );
    assert_eq!(hex(&hmac(&text, &key)), signature);
}

#[test]
fn scope_is_the_same_in_the_request_and_in_the_text_to_sign() {
    let scope = compute_scope(leap_day_2024(), "ap-south-1");
    let request = form_cannonical_request("AKID", &scope, leap_day_2024(), "n");
    let text = string_to_sign("2024-02-29T23:59:59.999Z", &scope, "h");
    let in_request = replace_char(&scope, '/', "%2F");
    assert_eq!(in_request, "20240229%2Fap-south-1%2Fcassandra%2Faws4_request");
    assert!(request.contains(&format!("X-Amz-Credential=AKID%2F{}&", in_request)));
    assert_eq!(text.lines().nth(2), Some(scope.as_str()));
    assert_eq!(in_request.replace("%2F", "/"), scope);
}

#[test]
fn response_has_three_fields_without_a_token() {
    let response = format_response("abcd", "AKID", "2022-01-01T00:00:00.000Z", None);
    assert_eq!(response, "signature=abcd,access_key=AKID,amzdate=2022-01-01T00:00:00.000Z");
    assert!(response.starts_with("signature="));
    assert_eq!(response.split(',').count(), 3);
    assert!(!response.contains("session_token="));
}

#[test]
fn response_has_four_fields_with_a_token() {
    let response = format_response("abcd", "AKID", "2022-01-01T00:00:00.000Z", Some("tok"));
    assert_eq!(
        response,
        "signature=abcd,access_key=AKID,amzdate=2022-01-01T00:00:00.000Z,session_token=tok"
    );
    assert!(response.starts_with("signature="));
    assert_eq!(response.split(',').count(), 4);
}

#[test]
fn response_keeps_an_empty_token_that_was_supplied() {
    let response = format_response("abcd", "AKID", "d", Some(""));
    assert_eq!(response, "signature=abcd,access_key=AKID,amzdate=d,session_token=");
}

#[test]
fn signed_response_fields_are_in_order() {
    let response = build_signed_response("us-east-1", "abc123", "AKIDEXAMPLE", "examplesecret", Some("TOKEN"), new_year_2022());
    let fields: Vec<&str> = response.split(',').collect();
    assert_eq!(fields.len(), 4);
    assert!(fields[0].starts_with("signature="));
    assert_eq!(fields[0].len(), "signature=".len() + 64);
    assert!(fields[0]["signature=".len()..]
        .chars()
        .all(|c| c.is_ascii_digit() || ('a'..='f').contains(&c)));
    assert_eq!(fields[1], "access_key=AKIDEXAMPLE");
    assert_eq!(fields[2], "amzdate=2022-01-01T00:00:00.000Z");
    assert_eq!(fields[3], "session_token=TOKEN");
}

#[test]
fn signature_has_sixty_four_characters() {
    let key = derive_signing_key("k", leap_day_2024(), "r");
    let signature = create_signature("", leap_day_2024(), "", &key);
    assert_eq!(signature.len(), 64);
    let signature = create_signature(CANONICAL_REQUEST_2022, new_year_2022(), "s", b"");
    assert_eq!(signature.len(), 64);
    let response = build_signed_response("us-east-1", "abc123", "AKIDEXAMPLE", "examplesecret", None, new_year_2022());
    assert_eq!(response.len(), 130);
    assert_eq!(&response[..10], "signature=");
    assert_eq!(
        &response[74..],
        ",access_key=AKIDEXAMPLE,amzdate=2022-01-01T00:00:00.000Z"
    );
    let other = build_signed_response("eu-west-1", "xyz789", "AKIDEXAMPLE", "another", None, new_year_2022());
    assert_eq!(other.len(), response.len());
    assert_eq!(other[74..], response[74..]);
}

#[test]
fn leap_second_is_signed_as_second_sixty() {
    let t = Timestamp::new(2016, 12, 31, 23, 59, 59, 1250).unwrap();
    assert_eq!(compute_scope(t, "us-east-1"), "20161231/us-east-1/cassandra/aws4_request");
    let response = build_signed_response("us-east-1", "abc123", "AKIDEXAMPLE", "examplesecret", None, t);
    assert!(response.ends_with(",access_key=AKIDEXAMPLE,amzdate=2016-12-31T23:59:60.250Z"));
    assert_eq!(response.len(), 130);
    assert!(can_sign("us-east-1", "abc123", "AKIDEXAMPLE", "examplesecret", t));
}

#[test]
fn year_of_five_digits_is_signed_with_its_sign() {
    let t = Timestamp::new(12345, 6, 7, 8, 9, 10, 11).unwrap();
    assert_eq!(compute_scope(t, "r"), "+123450607/r/cassandra/aws4_request");
    assert_eq!(
        query_string("K", "+123450607/r/cassandra/aws4_request", "+12345-06-07T08:09:10.011Z"),
        "X-Amz-Algorithm=AWS4-HMAC-SHA256&X-Amz-Credential=K%2F+123450607%2Fr%2Fcassandra%2Faws4_request&X-Amz-Date=+12345-06-07T08%3A09%3A10.011Z&X-Amz-Expires=900"
    );
    let response = build_signed_response("r", "n", "K", "s", None, t);
    assert!(response.ends_with(",access_key=K,amzdate=+12345-06-07T08:09:10.011Z"));
    assert_eq!(response.split(',').count(), 3);
}

#[test]
fn empty_region_and_nonce_are_signed_as_they_are() {
    let response = build_signed_response("", "", "AKIDEXAMPLE", "examplesecret", None, new_year_2022());
    assert!(response.starts_with("signature="));
    assert!(response.ends_with(",access_key=AKIDEXAMPLE,amzdate=2022-01-01T00:00:00.000Z"));
    assert_eq!(response.split(',').count(), 3);
}

#[test]
fn ordinary_inputs_can_be_signed() {
    assert!(can_sign("us-east-1", "abc123", "AKIDEXAMPLE", "examplesecret", new_year_2022()));
    assert!(can_sign("", "", "", "", leap_day_2024()));
}

#[test]
fn replace_char_replaces_every_occurrence() {
    assert_eq!(replace_char("a/b//c", '/', "%2F"), "a%2Fb%2F%2Fc");
    assert_eq!(replace_char("12:30:00", ':', "%3A"), "12%3A30%3A00");
    assert_eq!(replace_char("", '/', "%2F"), "");
    assert_eq!(replace_char("plain", '/', "%2F"), "plain");
    assert_eq!(replace_char("\u{e9}/\u{e9}", '/', ""), "\u{e9}\u{e9}");
    assert_eq!(replace_char("%2F", '/', "%2F"), "%2F");
}
