use deltaup::jsontext::{field_get, parse_object, JsonValue};

fn get_str(pairs: &Vec<(String, JsonValue)>, key: &str) -> Option<String> {
    match field_get(pairs, &key.to_string()) {
        Some(JsonValue::Str(s)) => Some(s.clone()),
        _ => None,
    }
}

fn get_num(pairs: &Vec<(String, JsonValue)>, key: &str) -> Option<i64> {
    match field_get(pairs, &key.to_string()) {
        Some(JsonValue::Num(n)) => Some(*n),
        _ => None,
    }
}

#[test]
fn parses_flat_objects() {
    let pairs = parse_object("{\"a\":\"x\",\"b\":2,\"c\":\"\"}").unwrap();
    assert_eq!(pairs.len(), 3);
    assert_eq!(get_str(&pairs, "a").as_deref(), Some("x"));
    assert_eq!(get_num(&pairs, "b"), Some(200));
    assert_eq!(get_str(&pairs, "c").as_deref(), Some(""));
    assert!(field_get(&pairs, &"d".to_string()).is_none());
}

#[test]
fn numbers_are_read_as_cents() {
    let pairs = parse_object("{\"a\":30,\"b\":19.99,\"c\":0.5,\"d\":-2}").unwrap();
    assert_eq!(get_num(&pairs, "a"), Some(3_000));
    assert_eq!(get_num(&pairs, "b"), Some(1_999));
    assert_eq!(get_num(&pairs, "c"), Some(50));
    assert_eq!(get_num(&pairs, "d"), Some(-200));
}

#[test]
fn the_empty_object_parses() {
    assert_eq!(parse_object("{}").unwrap().len(), 0);
    assert_eq!(parse_object("  { }  ").unwrap().len(), 0);
}

#[test]
fn out_of_shape_inputs_are_rejected() {
    for bad in [
        "",
        "{",
        "}",
        "{}}",
        "{\"a\"}",
        "{\"a\":}",
        "{\"a\":1,}",
        "{a:1}",
        "{\"a\":true}",
        "{\"a\":[1]}",
        "{\"a\":{\"b\":1}}",
        "{\"a\":1}x",
        "{\"a\":1.234}",
        "{\"a\":1e3}",
        "{\"a\":01x}",
        "{\"a\":\"b\\\"c\"}",
    ] {
        assert!(parse_object(bad).is_none(), "accepted: {}", bad);
    }
}

#[test]
fn unicode_string_content_is_kept() {
    let pairs = parse_object("{\"name\":\"caf\u{e9} \u{2615}\"}").unwrap();
    assert_eq!(get_str(&pairs, "name").as_deref(), Some("caf\u{e9} \u{2615}"));
}

#[test]
fn duplicate_keys_resolve_to_the_last() {
    let pairs = parse_object("{\"k\":1,\"k\":2}").unwrap();
    assert_eq!(pairs.len(), 2);
    assert_eq!(get_num(&pairs, "k"), Some(200));
}
