use dpl::deepl::{build_request, form_body, form_encode, parse_response, AUTH_PREFIX};
use dpl::error::DplError;

#[test]
fn request_carries_exactly_the_two_fields_and_the_key() {
    let r = build_request(
        "https://api-free.deepl.com/v2/translate",
        "k1",
        "hello",
        "DE",
    );
    assert_eq!(r.endpoint, "https://api-free.deepl.com/v2/translate");
    assert_eq!(r.auth_header, "DeepL-Auth-Key k1");
    assert_eq!(r.body, b"text=hello&target_lang=DE".to_vec());
}

#[test]
fn auth_header_is_prefix_plus_key() {
    let r = build_request("e", "secret-key", "t", "EN");
    assert_eq!(r.auth_header, format!("{}{}", AUTH_PREFIX, "secret-key"));
}

#[test]
fn body_escapes_reserved_bytes() {
    let body = form_body("a b&c=d", "DE");
    assert_eq!(body, b"text=a+b%26c%3Dd&target_lang=DE".to_vec());
}

#[test]
fn body_escapes_multibyte_characters_bytewise() {
    let body = form_body("h\u{e9}", "FR");
    assert_eq!(body, b"text=h%C3%A9&target_lang=FR".to_vec());
}

#[test]
fn encoding_keeps_unreserved_bytes() {
    let enc = form_encode(b"AZaz09-._*");
    assert_eq!(enc, b"AZaz09-._*".to_vec());
}

#[test]
fn encoding_of_empty_input_is_empty() {
    assert_eq!(form_encode(b""), Vec::<u8>::new());
}

#[test]
fn response_with_one_translation_yields_its_text() {
    let body = "{\"translations\":[{\"text\":\"Bonjour\",\"detected_source_language\":\"EN\"}]}";
    let r = parse_response(body).unwrap();
    assert_eq!(r.translated_text, "Bonjour");
    assert_eq!(r.detected_source_lang, "EN");
}

#[test]
fn response_uses_only_the_first_translation() {
    let body = "{\"translations\":[\
        {\"text\":\"Bonjour\",\"detected_source_language\":\"EN\"},\
        {\"text\":\"Salut\",\"detected_source_language\":\"EN\"}]}";
    let r = parse_response(body).unwrap();
    assert_eq!(r.translated_text, "Bonjour");
}

#[test]
fn response_without_translations_is_empty_result() {
    let r = parse_response("{\"translations\":[]}");
    assert!(matches!(r, Err(DplError::EmptyResult)));
}

#[test]
fn response_of_wrong_shape_is_decode_error() {
    assert!(matches!(parse_response("{}"), Err(DplError::DecodeError)));
    assert!(matches!(parse_response("not json"), Err(DplError::DecodeError)));
    assert!(matches!(
        parse_response("{\"translations\":[{\"text\":7,\"detected_source_language\":\"EN\"}]}"),
        Err(DplError::DecodeError)
    ));
    assert!(matches!(
        parse_response("{\"translations\":[{\"text\":\"x\"}]}"),
        Err(DplError::DecodeError)
    ));
}
