use llm_sdk::json::render_unsigned;
use llm_sdk::Decimal;

#[test]
fn unsigned_numbers_are_written_in_decimal() {
    assert_eq!(render_unsigned(0), "0");
    assert_eq!(render_unsigned(7), "7");
    assert_eq!(render_unsigned(10), "10");
    assert_eq!(render_unsigned(1905), "1905");
    assert_eq!(render_unsigned(u64::MAX), "18446744073709551615");
}

#[test]
fn decimal_accepts_plain_numbers() {
    for text in ["0", "7", "10", "0.25", "1.0", "4.00", "-1", "-0.5", "123.456"] {
        let d = Decimal::parse(text);
        assert!(d.is_some(), "{}", text);
        assert_eq!(d.unwrap().as_str(), text);
    }
}

#[test]
fn decimal_refuses_what_is_not_a_number() {
    for text in [
        "", "-", ".", ".5", "5.", "01", "00", "-01", "1e5", "1.2.3", "+1", " 1", "1 ", "NaN", "inf",
        "null", "1,5", "--1", "1.-5", "\u{661}",
    ] {
        assert!(Decimal::parse(text).is_none(), "{}", text);
    }
}

#[test]
fn decimal_takes_what_a_float_prints() {
    assert_eq!(Decimal::parse(&format!("{}", 0.25f32)).unwrap().as_str(), "0.25");
    assert_eq!(Decimal::parse(&format!("{}", 4.0f32)).unwrap().as_str(), "4");
    assert_eq!(Decimal::parse(&format!("{}", 0.8f32)).unwrap().as_str(), "0.8");
    assert!(Decimal::parse(&format!("{}", f32::NAN)).is_none());
    assert!(Decimal::parse(&format!("{}", f32::INFINITY)).is_none());
}

#[test]
fn decimal_clone_keeps_the_text() {
    let d = Decimal::parse("3.5").unwrap();
    assert_eq!(d.clone().as_str(), "3.5");
}

#[test]
fn object_is_written_member_by_member() {
    let mut object = llm_sdk::JsonObject::new();
    assert_eq!(object.render(), "{}");
    object.string("a", "x\ty");
    object.unsigned("b", 42);
    object.decimal("c", &Decimal::parse("-0.5").unwrap());
    object.string_array("d", &vec!["p".to_string(), "q".to_string()]);
    object.optional_string("e", None);
    object.optional_string("f", Some("z"));
    object.optional_unsigned("g", None);
    object.optional_unsigned("h", Some(0));
    object.optional_decimal("i", &None);
    object.optional_decimal("j", &Decimal::parse("2"));
    object.string("k\"", "");
    assert_eq!(
        object.render(),
        "{\"a\":\"x\\ty\",\"b\":42,\"c\":-0.5,\"d\":[\"p\",\"q\"],\"f\":\"z\",\"h\":0,\"j\":2,\"k\\\"\":\"\"}"
    );
    let keys: Vec<&str> = object.members.iter().map(|m| m.key.as_str()).collect();
    assert_eq!(keys, vec!["a", "b", "c", "d", "f", "h", "j", "k\""]);
    let value: serde_json::Value = serde_json::from_str(&object.render()).unwrap();
    assert_eq!(value["a"], "x\ty");
    assert_eq!(value["d"][1], "q");
    assert_eq!(value["k\""], "");
}

#[test]
fn string_arrays_are_written_in_order() {
    assert_eq!(llm_sdk::json::render_string_array(&vec![]), "[]");
    assert_eq!(llm_sdk::json::render_string_array(&vec!["a".to_string()]), "[\"a\"]");
    assert_eq!(
        llm_sdk::json::render_string_array(&vec!["a".to_string(), "".to_string(), "c".to_string()]),
        "[\"a\",\"\",\"c\"]"
    );
}
