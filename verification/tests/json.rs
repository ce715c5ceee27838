use pi_harness::json::{json_of_value, parse_json, Json};

#[test]
fn members_are_looked_up_by_key() {
    let json = Json::Object(vec![
        ("a".to_string(), Json::Int(1)),
        ("b".to_string(), Json::Bool(true)),
        ("a".to_string(), Json::Str("last".to_string())),
    ]);
    assert_eq!(json.get_str("a"), Some("last"));
    assert_eq!(json.get_i64("a"), None);
    assert_eq!(json.get_bool("b"), Some(true));
    assert!(json.get("c").is_none());
    assert!(Json::Int(3).get("a").is_none());
    assert_eq!(json.to_text(), "{\"a\":\"last\",\"b\":true}");
}

#[test]
fn every_kind_of_value_goes_there_and_back() {
    let text = "{\"a\":[null,true,-7,1.25,18446744073709551615,\"q\\\"\"],\"b\":{\"c\":{}}}";
    let json = parse_json(text).unwrap();
    assert_eq!(json.to_text(), text);
    assert_eq!(json.copy().to_text(), text);
    let value: serde_json::Value = serde_json::from_str(text).unwrap();
    assert_eq!(json.to_value(), value);
    assert_eq!(json_of_value(value).to_text(), text);
    let items = json.get("a").unwrap().as_array().unwrap();
    assert!(items[0].is_null());
    assert!(!items[3].is_null());
    assert_eq!(items[1].as_bool(), Some(true));
    assert_eq!(items[2].as_i64(), Some(-7));
    assert_eq!(items[3].as_i64(), None);
    assert_eq!(items[4].as_i64(), None);
    assert_eq!(items[5].as_str(), Some("q\""));
    assert!(items[4].as_str().is_none());
    assert!(items[4].as_array().is_none());
    assert!(items[4].get("a").is_none());
    assert!(items[3].as_bool().is_none());
}

#[test]
fn broken_text_is_refused() {
    assert!(parse_json("{\"a\":").is_none());
    assert!(parse_json("{} x").is_none());
    assert_eq!(parse_json("{\"a\":1,\"a\":2}").unwrap().get_i64("a"), Some(2));
}

#[test]
fn an_unsigned_number_reads_as_signed_where_it_fits() {
    assert_eq!(Json::Uint(7).as_i64(), Some(7));
    assert_eq!(Json::Uint(9223372036854775807).as_i64(), Some(i64::MAX));
    assert_eq!(Json::Uint(9223372036854775808).as_i64(), None);
    assert_eq!(Json::Uint(18446744073709551615).to_text(), "18446744073709551615");
    assert_eq!(Json::Int(-9223372036854775808).to_text(), "-9223372036854775808");
    assert!(matches!(parse_json("7"), Some(Json::Int(7))));
    assert!(matches!(parse_json("9223372036854775808"), Some(Json::Uint(9223372036854775808))));
    assert!(matches!(parse_json("1e2"), Some(Json::Real(_))));
}

#[test]
fn what_is_written_reads_back() {
    let json = Json::Object(vec![
        ("\n\u{7f}\u{2028}\"".to_string(), Json::Array(vec![Json::Null, Json::Bool(false)])),
        ("k".to_string(), Json::Int(i64::MIN)),
        ("k".to_string(), Json::Uint(u64::MAX)),
        (String::new(), Json::Object(vec![])),
    ]);
    let text = json.to_text();
    assert!(!text.contains('\n'));
    let back = parse_json(&text).unwrap();
    assert_eq!(back.to_value(), json.to_value());
    assert_eq!(back.to_text(), text);
    let mut nested = Json::Int(1);
    for _ in 0..127 {
        nested = Json::Array(vec![nested]);
    }
    assert!(parse_json(&nested.to_text()).is_some());
    let deeper = Json::Array(vec![nested]);
    assert!(parse_json(&deeper.to_text()).is_none());
}
