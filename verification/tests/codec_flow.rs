use js_bridge::codec::decode;
use js_bridge::codec::delivery_script;
use js_bridge::codec::encode_envelope;
use js_bridge::codec::DecodeError;
use js_bridge::ident::fresh_callback_id;
use js_bridge::ident::sanitize_callback_id;

#[test]
fn strict_decode_passes_document_through() {
    assert_eq!(decode("{\"a\": 1}").unwrap(), "{\"a\": 1}");
    assert_eq!(decode("[1, 2, 3]").unwrap(), "[1, 2, 3]");
    assert_eq!(decode("42").unwrap(), "42");
}

#[test]
fn fallback_decode_unwraps_string_payload() {
    // A JSON string whose contents are the document: strict reading fails,
    // the string fallback succeeds and reports no error.
    let raw = "\"{\\\"a\\\": 1}\"";
    assert_eq!(decode(raw).unwrap(), "{\"a\": 1}");
}

#[test]
fn not_json_is_rejected() {
    assert_eq!(decode("definitely not json").unwrap_err(), DecodeError::NotJson);
    assert_eq!(decode("").unwrap_err(), DecodeError::NotJson);
    assert_eq!(decode("{\"unterminated\": ").unwrap_err(), DecodeError::NotJson);
}

#[test]
fn string_without_document_is_rejected() {
    assert_eq!(decode("\"hello\"").unwrap_err(), DecodeError::StringNotStructural);
    // A string containing yet another bare string is not a document either.
    assert_eq!(decode("\"\\\"abc\\\"\"").unwrap_err(), DecodeError::StringNotStructural);
}

#[test]
fn decode_is_idempotent_on_its_output() {
    let once = decode("\"{\\\"k\\\": [1, 2]}\"").unwrap();
    let twice = decode(&once).unwrap();
    assert_eq!(once, "{\"k\": [1, 2]}");
    assert_eq!(once, twice);
}

#[test]
fn decode_error_descriptions_are_fixed() {
    assert_eq!(
        DecodeError::NotJson.describe(),
        "payload is not well-formed JSON"
    );
    assert_eq!(
        DecodeError::StringNotStructural.describe(),
        "string payload does not contain a JSON document"
    );
}

#[test]
fn envelope_has_exact_wire_shape() {
    assert_eq!(
        encode_envelope("cb_1", "{\"x\": 2}"),
        "{\"callback_id\":\"cb_1\",\"data\":{\"x\": 2}}"
    );
    assert_eq!(encode_envelope("", "null"), "{\"callback_id\":\"\",\"data\":null}");
}

#[test]
fn envelope_is_a_structural_document() {
    // Cross-checked against the real JSON parser through decode: an
    // envelope around a JSON payload reads strictly and comes back as is.
    let envelope = encode_envelope("abc123_def", "{\"y\": true}");
    assert_eq!(decode(&envelope).unwrap(), envelope);
}

#[test]
fn delivery_script_embeds_envelope() {
    let s = delivery_script("{\"callback_id\":\"a\",\"data\":1}");
    assert!(s.starts_with("(function () { const c = {\"callback_id\":\"a\",\"data\":1};"));
    assert!(s.contains("window._stageCmdQueue"));
    assert!(s.contains("window.dispatchStageCommand(c)"));
    assert!(s.ends_with("})();"));
}

#[test]
fn sanitize_replaces_every_hyphen() {
    assert_eq!(sanitize_callback_id("a-b-c"), "a_b_c");
    assert_eq!(sanitize_callback_id("no_hyphens"), "no_hyphens");
    assert_eq!(sanitize_callback_id("---"), "___");
    assert_eq!(sanitize_callback_id(""), "");
}

#[test]
fn fresh_callback_id_has_canonical_shape() {
    let id = fresh_callback_id();
    assert_eq!(id.chars().count(), 36);
    for (i, c) in id.chars().enumerate() {
        if i == 8 || i == 13 || i == 18 || i == 23 {
            assert_eq!(c, '_');
        } else {
            assert!(c.is_ascii_digit() || ('a'..='f').contains(&c));
        }
    }
    assert!(!id.contains('-'));
}

#[test]
fn fresh_callback_ids_differ() {
    assert_ne!(fresh_callback_id(), fresh_callback_id());
}
