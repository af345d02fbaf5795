use gloam_commands::interaction::{
    parse_u64, AttachmentId, Number, SubmittedOption, SubmittedValue, UserId,
};
use gloam_commands::{CommandOption, CommandOptions, Error, OptionKind};

fn option(name: &str, kind: OptionKind, value: SubmittedValue) -> SubmittedOption {
    SubmittedOption {
        name: name.to_owned(),
        kind,
        value: Some(value),
        options: Vec::new(),
        focused: None,
    }
}

#[test]
fn extracts_scalar_values() {
    let data = vec![
        option("text", OptionKind::String, SubmittedValue::String("hello".to_owned())),
        option("enabled", OptionKind::Boolean, SubmittedValue::Boolean(true)),
        option("count", OptionKind::Integer, SubmittedValue::Integer(42)),
        option("ratio", OptionKind::Number, SubmittedValue::Number(1.5f64.to_bits())),
    ];
    let options = CommandOptions::from_slice(&data);

    assert_eq!(String::extract(&options, "text").expect("string"), "hello");
    assert!(bool::extract(&options, "enabled").expect("bool"));
    assert_eq!(i64::extract(&options, "count").expect("integer"), 42);
    assert_eq!(
        f64::from_bits(Number::extract(&options, "ratio").expect("number").bits),
        1.5
    );
}

#[test]
fn extracts_from_resolved_nested_scope() {
    let nested = vec![option("count", OptionKind::Integer, SubmittedValue::Integer(7))];
    let options = CommandOptions::from_slice(&nested);

    assert_eq!(i64::extract(&options, "count").expect("nested integer"), 7);
}

#[test]
fn optional_values_allow_missing_options() {
    let data: Vec<SubmittedOption> = Vec::new();
    let options = CommandOptions::from_slice(&data);

    assert_eq!(
        Option::<String>::extract(&options, "query").expect("optional"),
        None
    );
    assert!(matches!(
        String::extract(&options, "query"),
        Err(Error::MissingOption(name)) if name == "query"
    ));
}

#[test]
fn extracts_typed_snowflake_ids() {
    let data = vec![option("user", OptionKind::User, SubmittedValue::String("123".to_owned()))];
    let options = CommandOptions::from_slice(&data);

    assert_eq!(
        UserId::extract(&options, "user").expect("user id"),
        UserId { id: 123 }
    );
}

#[test]
fn rejects_mismatched_option_kinds() {
    let data = vec![option("count", OptionKind::String, SubmittedValue::String("42".to_owned()))];
    let options = CommandOptions::from_slice(&data);

    assert!(matches!(
        i64::extract(&options, "count"),
        Err(Error::InvalidOption { name, expected }) if name == "count" && expected == "i64"
    ));
}

#[test]
fn optional_values_extract_submitted_options() {
    let data = vec![option("flag", OptionKind::Boolean, SubmittedValue::Boolean(false))];
    let options = CommandOptions::from_slice(&data);
    assert_eq!(Option::<bool>::extract(&options, "flag").expect("present"), Some(false));
    assert!(matches!(
        Option::<i64>::extract(&options, "flag"),
        Err(Error::InvalidOption { name, expected }) if name == "flag" && expected == "i64"
    ));
    assert_eq!(<Option<bool> as CommandOption>::kind(), OptionKind::Boolean);
    assert_eq!(<UserId as CommandOption>::kind(), OptionKind::User);
}

#[test]
fn rejects_malformed_snowflakes() {
    let data = vec![
        option("file", OptionKind::Attachment, SubmittedValue::String("12a".to_owned())),
        option("user", OptionKind::User, SubmittedValue::Integer(5)),
    ];
    let options = CommandOptions::from_slice(&data);
    assert!(matches!(
        AttachmentId::extract(&options, "file"),
        Err(Error::InvalidOption { name, expected }) if name == "file" && expected == "gloamwire::model::AttachmentId"
    ));
    assert!(matches!(
        UserId::extract(&options, "user"),
        Err(Error::InvalidOption { name, expected }) if name == "user" && expected == "gloamwire::model::UserId"
    ));
}

#[test]
fn parses_decimal_snowflakes_like_the_standard_library() {
    assert_eq!(parse_u64("0"), Some(0));
    assert_eq!(parse_u64("+17"), Some(17));
    assert_eq!(parse_u64("18446744073709551615"), Some(u64::MAX));
    assert_eq!(parse_u64("18446744073709551616"), None);
    assert_eq!(parse_u64(""), None);
    assert_eq!(parse_u64("+"), None);
    assert_eq!(parse_u64("-1"), None);
    assert_eq!(parse_u64("1 2"), None);
    for text in ["0", "42", "+9", "007", "99999999999999999999", "x"] {
        assert_eq!(parse_u64(text), text.parse::<u64>().ok());
    }
}

#[test]
fn first_option_with_a_name_is_the_one_read() {
    let data = vec![
        option("count", OptionKind::Integer, SubmittedValue::Integer(1)),
        option("count", OptionKind::Integer, SubmittedValue::Integer(2)),
    ];
    let options = CommandOptions::from_slice(&data);
    assert_eq!(i64::extract(&options, "count").expect("first"), 1);
    assert!(options.get("other").is_none());
}
