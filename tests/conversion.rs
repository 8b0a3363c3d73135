use stellar_xdr::curr::{ClaimPredicate, Limits, ScVal, WriteXdr};
use xdr2json::{
    caught_panic_result, contains_nul, convert, convert_decoded, describe, failure, strip_nul,
    success_or_failure, ConversionError, MAX_DEPTH, MAX_LEN,
};

fn nested_not_predicate(levels: usize) -> Vec<u8> {
    let mut bytes = Vec::new();
    for _ in 0..levels {
        bytes.extend_from_slice(&[0, 0, 0, 3, 0, 0, 0, 1]);
    }
    bytes.extend_from_slice(&[0, 0, 0, 0]);
    bytes
}

#[test]
fn limits_are_fixed() {
    assert_eq!(MAX_DEPTH, 500);
    assert_eq!(MAX_LEN, 32 * 1024 * 1024);
}

#[test]
fn converts_uint32() {
    let r = convert("Uint32", &[0, 0, 0, 5]);
    assert_eq!(r.error, "");
    assert_eq!(r.json, "5");
}

#[test]
fn converts_scval_like_the_serializer() {
    let v = ScVal::I32(-7);
    let bytes = v.to_xdr(Limits::none()).unwrap();
    let r = convert("ScVal", &bytes);
    assert_eq!(r.error, "");
    assert_eq!(r.json, serde_json::to_string(&v).unwrap());
    assert!(r.json.contains("-7"));
}

#[test]
fn converts_shallow_nesting() {
    let bytes = nested_not_predicate(3);
    let mut v = ClaimPredicate::Unconditional;
    for _ in 0..3 {
        v = ClaimPredicate::Not(Some(Box::new(v)));
    }
    assert_eq!(v.to_xdr(Limits::none()).unwrap(), bytes);
    let r = convert("ClaimPredicate", &bytes);
    assert_eq!(r.error, "");
    assert_eq!(r.json, serde_json::to_string(&v).unwrap());
}

#[test]
fn unknown_type_fails_whatever_the_bytes() {
    for bytes in [vec![], vec![0, 0, 0, 5], vec![1, 2, 3]] {
        let r = convert("NoSuchType", &bytes);
        assert_eq!(r.json, "{}");
        assert!(r.error.starts_with("xdr_to_json() failed: couldn't match type NoSuchType: "));
    }
}

#[test]
fn type_names_match_case_sensitively() {
    let r = convert("uint32", &[0, 0, 0, 5]);
    assert_eq!(r.json, "{}");
    assert!(!r.error.is_empty());
}

#[test]
fn truncated_encoding_fails() {
    let r = convert("Uint32", &[0, 0, 0]);
    assert_eq!(r.json, "{}");
    assert!(r.error.starts_with("xdr_to_json() failed: couldn't read Uint32: "));
    let r = convert("Uint32", &[]);
    assert_eq!(r.json, "{}");
    assert!(!r.error.is_empty());
}

#[test]
fn trailing_bytes_fail() {
    let r = convert("Uint32", &[0, 0, 0, 5, 0]);
    assert_eq!(r.json, "{}");
    assert!(r.error.starts_with("xdr_to_json() failed: couldn't read Uint32: "));
}

#[test]
fn nesting_beyond_the_depth_limit_fails() {
    let r = convert("ClaimPredicate", &nested_not_predicate(600));
    assert_eq!(r.json, "{}");
    assert!(r.error.contains("couldn't read ClaimPredicate"));
    assert!(r.error.contains("depth limit exceeded"));
}

#[test]
fn length_beyond_the_limit_fails() {
    let n: u32 = 32 * 1024 * 1024 + 1;
    let mut bytes = n.to_be_bytes().to_vec();
    bytes.resize(4 + n as usize + 3, 0);
    let r = convert("Value", &bytes);
    assert_eq!(r.json, "{}");
    assert!(r.error.starts_with("xdr_to_json() failed: couldn't read Value: "));
}

#[test]
fn repeated_conversions_agree() {
    let inputs: Vec<(&str, Vec<u8>)> = vec![
        ("Uint32", vec![0, 0, 0, 9]),
        ("NoSuchType", vec![1]),
        ("Uint32", vec![0, 0]),
        ("ClaimPredicate", nested_not_predicate(2)),
    ];
    let first: Vec<(String, String)> = inputs
        .iter()
        .map(|(n, b)| {
            let r = convert(n, b);
            (r.json, r.error)
        })
        .collect();
    for (i, (n, b)) in inputs.iter().enumerate().rev() {
        let r = convert(n, b);
        assert_eq!((r.json, r.error), first[i]);
    }
}

#[test]
fn decoded_outcome_names_the_stage() {
    assert!(matches!(
        convert_decoded("NoSuchType", &[]),
        Err(ConversionError::UnknownType { .. })
    ));
    assert!(matches!(
        convert_decoded("Uint32", &[0]),
        Err(ConversionError::Decode { .. })
    ));
    assert_eq!(convert_decoded("Uint32", &[0, 0, 1, 0]).ok(), Some("256".to_string()));
}

#[test]
fn describes_each_kind_of_failure() {
    let e = ConversionError::UnknownType { name: "Foo".to_string(), detail: "bad".to_string() };
    assert_eq!(describe(&e), "couldn't match type Foo: bad");
    let e = ConversionError::Decode { name: "Uint32".to_string(), detail: "short".to_string() };
    assert_eq!(describe(&e), "couldn't read Uint32: short");
    let e = ConversionError::Render { name: "ScVal".to_string(), detail: "odd".to_string() };
    assert_eq!(describe(&e), "couldn't render ScVal: odd");
    let e = ConversionError::Internal { message: Some("boom".to_string()) };
    assert_eq!(describe(&e), "boom");
    let e = ConversionError::Internal { message: None };
    assert_eq!(describe(&e), "unknown cause");
}

#[test]
fn caught_panic_with_message() {
    let r = caught_panic_result(Some("boom".to_string()));
    assert_eq!(r.json, "{}");
    assert_eq!(r.error, "xdr_to_json() failed: boom");
}

#[test]
fn caught_panic_without_message() {
    let r = caught_panic_result(None);
    assert_eq!(r.json, "{}");
    assert_eq!(r.error, "xdr_to_json() failed: unknown cause");
}

#[test]
fn failure_drops_nul_characters() {
    let r = failure("a\0b\0");
    assert_eq!(r.json, "{}");
    assert_eq!(r.error, "xdr_to_json() failed: ab");
    let r = failure("");
    assert_eq!(r.error, "xdr_to_json() failed: ");
}

#[test]
fn success_passes_json_through() {
    let r = success_or_failure(Ok("[1,2]".to_string()));
    assert_eq!(r.json, "[1,2]");
    assert_eq!(r.error, "");
}

#[test]
fn json_with_nul_is_reported_as_failure() {
    let r = success_or_failure(Ok("\"a\0\"".to_string()));
    assert_eq!(r.json, "{}");
    assert_eq!(r.error, "xdr_to_json() failed: rendered JSON holds a NUL character");
}

#[test]
fn error_outcome_is_reported_with_its_description() {
    let e = ConversionError::Decode { name: "Hash".to_string(), detail: "xdr value invalid".to_string() };
    let r = success_or_failure(Err(e));
    assert_eq!(r.json, "{}");
    assert_eq!(r.error, "xdr_to_json() failed: couldn't read Hash: xdr value invalid");
}

#[test]
fn finds_nul_characters() {
    assert!(!contains_nul(""));
    assert!(!contains_nul("héllo"));
    assert!(contains_nul("\0"));
    assert!(contains_nul("ab\0"));
}

#[test]
fn strips_nul_characters() {
    assert_eq!(strip_nul(""), "");
    assert_eq!(strip_nul("\0\0"), "");
    assert_eq!(strip_nul("é\0x"), "éx");
    assert_eq!(strip_nul("plain"), "plain");
}

#[test]
fn unknown_type_message_is_exact() {
    let r = convert("NoSuchType", &[9, 9]);
    assert_eq!(r.json, "{}");
    assert_eq!(r.error, "xdr_to_json() failed: couldn't match type NoSuchType: xdr value invalid");
    let r2 = convert("NoSuchType", &[]);
    assert_eq!(r.error, r2.error);
}

#[test]
fn decode_failure_carries_the_codec_message() {
    let r = convert("Uint32", &[0, 0, 0, 5, 1]);
    assert_eq!(r.error, "xdr_to_json() failed: couldn't read Uint32: xdr value invalid");
}
