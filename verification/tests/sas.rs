use storage_credentials::error::DeltaError;
use storage_credentials::sas::{split_decoded_sas, split_sas};

fn pair(key: &str, value: &str) -> (String, String) {
    (key.to_string(), value.to_string())
}

fn message(error: DeltaError) -> String {
    error.message()
}

#[test]
fn splitting_a_sas_preserves_plus_in_a_signature() {
    // A base64 signature routinely contains `+`. Form decoding would turn it into a space and
    // silently invalidate the signature, so this asserts percent-decoding semantics instead.
    let pairs = split_sas("?sv=2021-01-01&sig=ab%2Bcd+ef&se=2026-01-01T00%3A00%3A00Z")
        .expect("split sas");

    assert_eq!(
        pairs,
        vec![
            ("sv".to_string(), "2021-01-01".to_string()),
            ("sig".to_string(), "ab+cd+ef".to_string()),
            ("se".to_string(), "2026-01-01T00:00:00Z".to_string()),
        ]
    );
}

#[test]
fn splitting_a_sas_without_a_value_is_an_error() {
    let error = split_sas("sv=2021-01-01&malformed")
        .err()
        .expect("pair without `=` must be rejected");
    assert_eq!(
        message(error),
        "shared access signature has a component without a value"
    );
}

#[test]
fn a_sas_that_is_not_utf8_is_an_error() {
    let error = split_sas("sv=1&sig=%FF").err().expect("not utf-8");
    assert_eq!(
        message(error),
        "shared access signature is not utf-8: invalid utf-8 sequence of 1 bytes from index 9"
    );
    let error = split_sas("sig=%E2%82").err().expect("not utf-8");
    assert_eq!(
        message(error),
        "shared access signature is not utf-8: incomplete utf-8 byte sequence from index 4"
    );
}

#[test]
fn an_empty_sas_has_no_pairs() {
    assert_eq!(split_sas("").ok(), Some(vec![]));
    assert_eq!(split_sas("???").ok(), Some(vec![]));
    assert_eq!(split_sas("&&").ok(), Some(vec![]));
    assert_eq!(split_sas(" & \u{3000}&%09").ok(), Some(vec![]));
}

#[test]
fn blank_components_and_outer_white_space_are_left_out() {
    assert_eq!(
        split_sas("??a=1&&  b = 2 &\u{a0}").ok(),
        Some(vec![pair("a", "1"), pair("b ", " 2")])
    );
}

#[test]
fn only_the_first_equals_sign_separates() {
    assert_eq!(
        split_sas("sig=abc==&=x&y=").ok(),
        Some(vec![pair("sig", "abc=="), pair("", "x"), pair("y", "")])
    );
}

#[test]
fn separators_that_are_encoded_separate_too() {
    // The whole signature is decoded before it is split.
    assert_eq!(
        split_sas("%3Fa%3D1%26b%3D2").ok(),
        Some(vec![pair("a", "1"), pair("b", "2")])
    );
}

#[test]
fn percent_signs_that_encode_nothing_stay() {
    assert_eq!(
        split_sas("a=%&b=%4&c=%zz&d=%%41").ok(),
        Some(vec![
            pair("a", "%"),
            pair("b", "%4"),
            pair("c", "%zz"),
            pair("d", "%A"),
        ])
    );
}

#[test]
fn hexadecimal_digits_of_either_case_are_read() {
    assert_eq!(
        split_sas("k=%c3%A9%2f%2F").ok(),
        Some(vec![pair("k", "\u{e9}//")])
    );
}

#[test]
fn a_decoded_sas_is_not_decoded_again() {
    assert_eq!(
        split_decoded_sas("?a=%2B&b=\u{e9}=+").ok(),
        Some(vec![pair("a", "%2B"), pair("b", "\u{e9}=+")])
    );
}

#[test]
fn a_spelled_signature_splits_into_its_pairs() {
    let pairs = vec![pair("sv", "2021-01-01"), pair("sig", "x+y/z="), pair("", "")];
    let spelled = pairs
        .iter()
        .map(|(key, value)| format!("{key}={value}"))
        .collect::<Vec<_>>()
        .join("&");
    assert_eq!(split_sas(&spelled).ok(), Some(pairs.clone()));
    assert_eq!(split_sas(&format!("?{spelled}&")).ok(), Some(pairs));
}
