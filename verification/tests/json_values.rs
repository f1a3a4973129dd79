use graphene_client::json::{Json, JsonNumber};

fn sample() -> Json {
    Json::Object(vec![
        ("id".to_string(), Json::Number(JsonNumber::PosInt(1))),
        ("result".to_string(), Json::Text("abc123".to_string())),
        (
            "list".to_string(),
            Json::Array(vec![
                Json::Null,
                Json::Bool(true),
                Json::Number(JsonNumber::NegInt(-5)),
                Json::Number(JsonNumber::Float(1.5f64.to_bits())),
                Json::Object(vec![("x".to_string(), Json::Number(JsonNumber::PosInt(1)))]),
            ]),
        ),
        ("id".to_string(), Json::Number(JsonNumber::PosInt(2))),
    ])
}

#[test]
fn text_and_number_build_the_expected_documents() {
    assert_eq!(Json::text("abc"), Json::Text("abc".to_string()));
    assert_eq!(Json::text(""), Json::Text(String::new()));
    assert_eq!(Json::number(0), Json::Number(JsonNumber::PosInt(0)));
    assert_eq!(Json::number(u64::MAX), Json::Number(JsonNumber::PosInt(u64::MAX)));
}

#[test]
fn is_text_holds_only_of_the_same_string() {
    assert!(Json::text("notice").is_text("notice"));
    assert!(!Json::text("notice").is_text("notic"));
    assert!(!Json::Null.is_text(""));
    assert!(!Json::Array(vec![Json::text("notice")]).is_text("notice"));
}

#[test]
fn as_u64_reads_only_non_negative_integers() {
    assert_eq!(Json::number(7).as_u64(), Some(7));
    assert_eq!(Json::Number(JsonNumber::PosInt(u64::MAX)).as_u64(), Some(u64::MAX));
    assert_eq!(Json::Number(JsonNumber::NegInt(-1)).as_u64(), None);
    assert_eq!(Json::Number(JsonNumber::Float(7.0f64.to_bits())).as_u64(), None);
    assert_eq!(Json::text("7").as_u64(), None);
    assert_eq!(Json::Null.as_u64(), None);
}

#[test]
fn as_text_and_as_array_read_only_their_own_kind() {
    assert_eq!(Json::text("a").as_text(), Some(&"a".to_string()));
    assert_eq!(Json::Null.as_text(), None);
    assert_eq!(Json::Array(vec![]).as_text(), None);
    assert_eq!(Json::Array(vec![Json::Null]).as_array(), Some(&vec![Json::Null]));
    assert_eq!(Json::text("a").as_array(), None);
    assert_eq!(Json::Object(vec![]).as_array(), None);
}

#[test]
fn member_finds_the_first_member_of_that_name() {
    let doc = sample();
    assert_eq!(doc.member("id"), Some(&Json::Number(JsonNumber::PosInt(1))));
    assert_eq!(doc.member("result"), Some(&Json::Text("abc123".to_string())));
    assert_eq!(doc.member("missing"), None);
    assert_eq!(doc.member(""), None);
    assert_eq!(Json::Array(vec![]).member("id"), None);
    assert_eq!(Json::Object(vec![]).member("id"), None);
}

#[test]
fn duplicate_is_a_deep_copy() {
    let doc = sample();
    assert_eq!(doc.duplicate(), doc);
    assert_eq!(Json::Null.duplicate(), Json::Null);
    assert_eq!(Json::Bool(false).duplicate(), Json::Bool(false));
    let n = JsonNumber::NegInt(-9);
    assert_eq!(n.duplicate(), JsonNumber::NegInt(-9));
    assert_eq!(JsonNumber::Float(3).duplicate(), JsonNumber::Float(3));
}
