use openai_client::json::Json;

#[test]
fn parses_an_object_and_finds_a_member() {
    let tree = Json::from_bytes(br#"{"text":"hello","n":3}"#).expect("valid JSON");
    match tree.get("text") {
        Some(Json::Text(text)) => assert_eq!(text, "hello"),
        other => panic!("unexpected member: {:?}", other),
    }
    assert!(tree.get("absent").is_none());
    assert_eq!(tree.text_field("text"), Some(String::from("hello")));
    assert_eq!(tree.uint_field("n"), Some(3));
    assert_eq!(tree.text_field("n"), None);
    assert_eq!(tree.uint_field("text"), None);
}

#[test]
fn keeps_the_members_in_the_order_of_the_text() {
    let tree = Json::from_bytes(br#" { "b" : [null, true], "a" : "A\n" } "#).expect("valid JSON");
    match tree {
        Json::Object(members) => {
            assert_eq!(members.len(), 2);
            assert_eq!(members[0].0, "b");
            assert!(matches!(&members[0].1, Json::Array(items)
                if matches!(items.as_slice(), [Json::Null, Json::Bool(true)])));
            assert_eq!(members[1].0, "a");
            assert!(matches!(&members[1].1, Json::Text(text) if text == "A\n"));
        }
        other => panic!("no object: {:?}", other),
    }
}

#[test]
fn refuses_what_is_no_json_text() {
    assert!(Json::from_bytes(b"").is_none());
    assert!(Json::from_bytes(b"{").is_none());
    assert!(Json::from_bytes(br#"{"a":1} x"#).is_none());
    assert!(Json::from_bytes(b"hello").is_none());
}

#[test]
fn a_number_has_a_value_only_as_an_unsigned_integer() {
    let tree = Json::from_bytes(
        br#"{"zero":0,"max":18446744073709551615,"over":18446744073709551616,"neg":-1,"frac":1.5}"#,
    )
    .expect("valid JSON");
    assert_eq!(tree.uint_field("zero"), Some(0));
    assert_eq!(tree.uint_field("max"), Some(u64::MAX));
    assert_eq!(tree.uint_field("over"), None);
    assert_eq!(tree.uint_field("neg"), None);
    assert_eq!(tree.uint_field("frac"), None);
    assert!(matches!(tree.get("neg"), Some(Json::Number(None))));
}

#[test]
fn narrow_integers_respect_their_bounds() {
    let tree = Json::from_bytes(br#"{"a":255,"b":256,"c":4294967295,"d":4294967296}"#)
        .expect("valid JSON");
    assert_eq!(tree.u8_field("a"), Some(255));
    assert_eq!(tree.u8_field("b"), None);
    assert_eq!(tree.u32_field("b"), Some(256));
    assert_eq!(tree.u32_field("c"), Some(u32::MAX));
    assert_eq!(tree.u32_field("d"), None);
    assert_eq!(tree.u8_field("missing"), None);
}

#[test]
fn the_last_of_several_members_of_one_name_is_found() {
    let tree = Json::Object(vec![
        (String::from("k"), Json::Number(Some(1))),
        (String::from("other"), Json::Null),
        (String::from("k"), Json::Number(Some(2))),
    ]);
    assert_eq!(tree.uint_field("k"), Some(2));
}

#[test]
fn only_an_object_has_members() {
    assert!(Json::Null.get("a").is_none());
    assert!(Json::Array(vec![Json::Null]).get("a").is_none());
    assert!(Json::Text(String::from("a")).get("a").is_none());
    assert!(Json::Object(Vec::new()).get("a").is_none());
}
