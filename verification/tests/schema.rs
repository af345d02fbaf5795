use gloam_commands::schema::{
    compile_command_name_pattern, numeric_bounds, option_parameter, option_parameters,
    parse_integer_bound, parse_length, parse_number_bound, string_bounds, take_option_attributes,
    validate_description, validate_name, AttributeMeta, ChoiceArg, ChoiceSource, Expression,
    GenericArgument, Literal, ParameterAttribute, ParameterPattern, ParameterSpec, Site,
    TypeArguments, TypeShape,
};
use gloam_commands::{NumericValue, OptionKind};

fn string(value: &str) -> Expression {
    Expression::Literal(Literal::Str(value.to_owned()))
}

fn integer_literal(digits: &str) -> Expression {
    Expression::Literal(Literal::Int {
        digits: digits.to_owned(),
        number_bits: digits.parse::<f64>().expect("digits").to_bits(),
    })
}

fn negative(digits: &str) -> Expression {
    Expression::NegatedLiteral(Literal::Int {
        digits: digits.to_owned(),
        number_bits: digits.parse::<f64>().expect("digits").to_bits(),
    })
}

fn float(value: f64) -> Expression {
    Expression::Literal(Literal::Float { bits: Some(value.to_bits()) })
}

fn path_type(ident: &str) -> TypeShape {
    TypeShape::Path { ident: ident.to_owned(), arguments: TypeArguments::Bare }
}

fn optional(inner: TypeShape) -> TypeShape {
    TypeShape::Path {
        ident: "Option".to_owned(),
        arguments: TypeArguments::Angle(vec![GenericArgument::Type(inner)]),
    }
}

fn attribute(name: &str, meta: AttributeMeta) -> ParameterAttribute {
    ParameterAttribute { name: name.to_owned(), meta }
}

fn described(extra: Vec<ParameterAttribute>) -> Vec<ParameterAttribute> {
    let mut attributes = vec![attribute("description", AttributeMeta::NameValue(string("Value")))];
    attributes.extend(extra);
    attributes
}

fn parameter(name: &str, ty: TypeShape, attributes: Vec<ParameterAttribute>) -> ParameterSpec {
    ParameterSpec {
        receiver: false,
        pattern: ParameterPattern::Ident { name: name.to_owned(), has_subpattern: false },
        ty,
        attributes,
    }
}

fn message<T>(result: Result<T, gloam_commands::schema::SchemaError>) -> String {
    match result {
        Err(error) => error.message,
        Ok(_) => panic!("expected a schema error"),
    }
}

#[test]
fn validates_command_names_with_discords_rule() {
    let pattern = compile_command_name_pattern().expect("valid pattern");
    assert!(validate_name(&pattern, "ping").is_ok());
    assert!(validate_name(&pattern, "set-value_2").is_ok());
    assert!(validate_name(&pattern, "привет").is_ok());
    assert_eq!(
        message(validate_name(&pattern, "Ping")),
        "Discord chat-input command names must use lowercase variants when available"
    );
    assert_eq!(
        message(validate_name(&pattern, "bad name")),
        "invalid Discord chat-input command name; expected 1-32 characters matching Discord's application-command naming rules"
    );
    assert!(validate_name(&pattern, "").is_err());
    assert!(validate_name(&pattern, &"a".repeat(33)).is_err());
}

#[test]
fn validates_description_length() {
    assert!(validate_description("Say hello").is_ok());
    assert_eq!(
        message(validate_description("")),
        "Discord slash-command descriptions must contain between 1 and 100 characters"
    );
    assert!(validate_description(&"d".repeat(101)).is_err());
}

#[test]
fn reads_integer_and_number_bounds() {
    assert_eq!(parse_integer_bound(&integer_literal("25"), Site::Min).expect("25"), 25);
    assert_eq!(parse_integer_bound(&negative("9007199254740991"), Site::Min).expect("min"), -9_007_199_254_740_991);
    assert_eq!(
        message(parse_integer_bound(&integer_literal("9007199254740992"), Site::Max)),
        "Discord integer option bounds must be between -9007199254740991 and 9007199254740991"
    );
    assert_eq!(
        message(parse_integer_bound(&integer_literal("170141183460469231731687303715884105728"), Site::Max)),
        "integer option bound is outside the supported range"
    );
    assert_eq!(message(parse_integer_bound(&float(1.0), Site::Max)), "integer option bounds require integer literals");
    assert_eq!(message(parse_integer_bound(&Expression::Other, Site::Max)), "numeric option bounds require literals");
    assert_eq!(f64::from_bits(parse_number_bound(&float(0.5), Site::Min).expect("0.5")), 0.5);
    assert_eq!(f64::from_bits(parse_number_bound(&negative("3"), Site::Min).expect("-3")), -3.0);
    assert_eq!(
        message(parse_number_bound(&float(1e17), Site::Min)),
        "Discord number option bounds must be between -9007199254740992 and 9007199254740992"
    );
    assert_eq!(message(parse_number_bound(&string("1"), Site::Min)), "number option bounds require numeric literals");
    assert_eq!(parse_length(&integer_literal("64"), Site::MaxLength).expect("64"), 64);
    assert_eq!(
        message(parse_length(&negative("1"), Site::MinLength)),
        "string length constraints require non-negative integer literals"
    );
    assert_eq!(
        message(parse_length(&integer_literal("4294967296"), Site::MinLength)),
        "string length constraint is outside the supported range"
    );
}

#[test]
fn checks_bound_order_and_kind() {
    assert_eq!(
        numeric_bounds(OptionKind::Integer, Some(&integer_literal("1")), Some(&integer_literal("25"))).expect("valid"),
        (Some(NumericValue::Integer(1)), Some(NumericValue::Integer(25)))
    );
    let error = numeric_bounds(OptionKind::Integer, Some(&integer_literal("5")), Some(&integer_literal("1"))).expect_err("inverted");
    assert_eq!(error.message, "integer `min` cannot be greater than `max`");
    assert_eq!(error.site, Site::Max);
    assert_eq!(
        numeric_bounds(OptionKind::Number, Some(&float(-1.0)), Some(&float(-2.0))).expect_err("inverted").message,
        "number `min` cannot be greater than `max`"
    );
    assert!(numeric_bounds(OptionKind::Number, Some(&float(-0.0)), Some(&float(0.0))).is_ok());
    assert_eq!(
        numeric_bounds(OptionKind::String, None, Some(&integer_literal("1"))).expect_err("misplaced").message,
        "`#[min = ...]` and `#[max = ...]` are only supported for `i64` and `f64` options"
    );
    assert_eq!(string_bounds(OptionKind::String, Some(&integer_literal("1")), Some(&integer_literal("64"))).expect("valid"), (Some(1), Some(64)));
    assert_eq!(
        string_bounds(OptionKind::String, None, Some(&integer_literal("0"))).expect_err("zero").message,
        "Discord string `max_length` must be between 1 and 6000"
    );
    assert_eq!(
        string_bounds(OptionKind::String, Some(&integer_literal("6001")), None).expect_err("large").message,
        "Discord string `min_length` must be between 0 and 6000"
    );
    assert_eq!(
        string_bounds(OptionKind::String, Some(&integer_literal("9")), Some(&integer_literal("3"))).expect_err("inverted").message,
        "string `min_length` cannot be greater than `max_length`"
    );
    assert_eq!(
        string_bounds(OptionKind::Integer, Some(&integer_literal("1")), None).expect_err("misplaced").message,
        "`#[min_length = ...]` and `#[max_length = ...]` are only supported for `String` options"
    );
}

#[test]
fn reads_framework_attributes_once_and_keeps_others() {
    let parsed = take_option_attributes(vec![
        attribute("doc", AttributeMeta::NameValue(string("docs"))),
        attribute("description", AttributeMeta::NameValue(string("Search query"))),
        attribute("min_length", AttributeMeta::NameValue(integer_literal("1"))),
        attribute("allow", AttributeMeta::Path),
    ])
    .expect("valid attributes");
    assert_eq!(parsed.description.as_deref(), Some("Search query"));
    assert!(parsed.min_length.is_some());
    assert_eq!(parsed.retained, [0, 3]);

    let duplicate = take_option_attributes(vec![
        attribute("max", AttributeMeta::NameValue(integer_literal("1"))),
        attribute("max", AttributeMeta::NameValue(integer_literal("2"))),
    ])
    .expect_err("duplicate");
    assert_eq!(duplicate.message, "duplicate `#[max = ...]` attribute");
    assert_eq!(duplicate.site, Site::Attribute(1));

    assert_eq!(
        take_option_attributes(vec![attribute("description", AttributeMeta::NameValue(integer_literal("1")))])
            .expect_err("not a string")
            .message,
        "`#[description = ...]` requires a string literal"
    );
    assert_eq!(
        take_option_attributes(vec![attribute("autocomplete", AttributeMeta::NameValue(Expression::Path(None)))])
            .expect_err("not a path")
            .message,
        "`#[autocomplete = ...]` requires a handler function path"
    );
    assert_eq!(
        take_option_attributes(vec![attribute(
            "choice",
            AttributeMeta::List(Ok(vec![ChoiceArg::Name("A".to_owned()), ChoiceArg::Name("B".to_owned())])),
        )])
        .expect_err("duplicate name")
        .message,
        "duplicate `name` argument"
    );
}

#[test]
fn validates_one_parameter() {
    let pattern = compile_command_name_pattern().expect("valid pattern");
    let option = option_parameter(
        &pattern,
        parameter(
            "limit",
            optional(path_type("i64")),
            described(vec![
                attribute("min", AttributeMeta::NameValue(integer_literal("1"))),
                attribute("max", AttributeMeta::NameValue(integer_literal("25"))),
            ]),
        ),
    )
    .expect("valid parameter");
    assert_eq!(option.name, "limit");
    assert!(!option.required);
    assert_eq!(option.kind, Some(OptionKind::Integer));
    assert!(matches!(option.choices, ChoiceSource::Absent));
    assert_eq!(option.min, Some(NumericValue::Integer(1)));

    let missing = option_parameter(&pattern, parameter("name", path_type("String"), Vec::new()))
        .expect_err("no description");
    assert_eq!(missing.message, "slash-command options require `#[description = \"...\"]`");

    let unsupported = option_parameter(&pattern, parameter("when", path_type("Instant"), described(Vec::new())))
        .expect_err("unsupported type");
    assert_eq!(unsupported.site, Site::Type);

    let nested = option_parameter(
        &pattern,
        parameter("deep", optional(optional(path_type("bool"))), described(Vec::new())),
    )
    .expect_err("nested option");
    assert_eq!(nested.message, "nested `Option<Option<T>>` slash-command parameters are not supported");

    let autocomplete_bool = option_parameter(
        &pattern,
        parameter(
            "flag",
            path_type("bool"),
            described(vec![attribute(
                "autocomplete",
                AttributeMeta::NameValue(Expression::Path(Some(vec!["complete".to_owned()]))),
            )]),
        ),
    )
    .expect_err("autocomplete on bool");
    assert_eq!(autocomplete_bool.message, "autocomplete is only supported for `String`, `i64`, and `f64` options");

    let typed_with_bounds = option_parameter(
        &pattern,
        parameter(
            "mode",
            path_type("Mode"),
            described(vec![
                attribute("choice", AttributeMeta::Path),
                attribute("min", AttributeMeta::NameValue(integer_literal("1"))),
            ]),
        ),
    )
    .expect_err("typed with bounds");
    assert_eq!(typed_with_bounds.message, "typed `CommandChoice` options cannot declare scalar min/max constraints");

    let typed_builtin = option_parameter(
        &pattern,
        parameter("text", path_type("String"), described(vec![attribute("choice", AttributeMeta::Path)])),
    )
    .expect_err("typed builtin");
    assert_eq!(typed_builtin.message, "bare `#[choice]` requires a type that derives `CommandChoice`");
}

#[test]
fn refuses_duplicate_inline_choices() {
    let pattern = compile_command_name_pattern().expect("valid pattern");
    let choice = |name: &str, value: Expression| {
        attribute("choice", AttributeMeta::List(Ok(vec![ChoiceArg::Name(name.to_owned()), ChoiceArg::Value(value)])))
    };
    let duplicate_value = option_parameter(
        &pattern,
        parameter(
            "ratio",
            path_type("f64"),
            described(vec![choice("Zero", float(0.0)), choice("Negative zero", float(-0.0))]),
        ),
    )
    .expect_err("same value");
    assert_eq!(duplicate_value.message, "duplicate Discord choice value");
    assert_eq!(duplicate_value.site, Site::ChoiceValue(1));

    let wrong_kind = option_parameter(
        &pattern,
        parameter("flag", path_type("bool"), described(vec![choice("Yes", string("yes"))])),
    )
    .expect_err("bool choices");
    assert_eq!(wrong_kind.message, "Discord choices are only supported for `String`, `i64`, and `f64` options");
}

#[test]
fn requires_required_options_first_and_at_most_twenty_five() {
    let pattern = compile_command_name_pattern().expect("valid pattern");
    let error = option_parameters(
        &pattern,
        vec![
            parameter("first", optional(path_type("String")), described(Vec::new())),
            parameter("second", path_type("String"), described(Vec::new())),
        ],
    )
    .err()
    .expect("ordering");
    assert_eq!(error.parameter, 1);
    assert_eq!(
        error.error.message,
        "required slash-command options must appear before optional `Option<T>` parameters"
    );

    let many = (0..26)
        .map(|i| parameter(&format!("o{i}"), path_type("bool"), described(Vec::new())))
        .collect();
    let error = option_parameters(&pattern, many).err().expect("too many");
    assert_eq!(error.error.message, "Discord chat-input commands support at most 25 options");
    assert_eq!(error.error.site, Site::Inputs);
}

#[test]
fn generated_descriptor_matches_typed_signature() {
    let pattern = compile_command_name_pattern().expect("valid pattern");
    let parameters = vec![
        parameter(
            "text",
            path_type("String"),
            described(vec![
                attribute("min_length", AttributeMeta::NameValue(integer_literal("1"))),
                attribute("max_length", AttributeMeta::NameValue(integer_literal("64"))),
            ]),
        ),
        parameter("enabled", path_type("bool"), described(Vec::new())),
        parameter(
            "count",
            path_type("i64"),
            described(vec![
                attribute("min", AttributeMeta::NameValue(negative("5"))),
                attribute("max", AttributeMeta::NameValue(integer_literal("10"))),
            ]),
        ),
        parameter(
            "ratio",
            path_type("f64"),
            described(vec![
                attribute("min", AttributeMeta::NameValue(float(0.25))),
                attribute("max", AttributeMeta::NameValue(float(2.5))),
            ]),
        ),
        parameter("note", optional(path_type("String")), described(Vec::new())),
    ];
    let options = option_parameters(&pattern, parameters).ok().expect("valid parameters");
    let descriptors: Vec<_> = options
        .iter()
        .map(|option| gloam_commands::schema::option_descriptor(option, OptionKind::String, Vec::new()))
        .collect();

    assert_eq!(descriptors.len(), 5);

    let text = &descriptors[0];
    assert_eq!(text.name, "text");
    assert!(text.required);
    assert_eq!(text.min_length, Some(1));
    assert_eq!(text.max_length, Some(64));

    let count = &descriptors[2];
    assert_eq!(count.kind, OptionKind::Integer);
    assert_eq!(count.min_value, Some(NumericValue::Integer(-5)));
    assert_eq!(count.max_value, Some(NumericValue::Integer(10)));

    let ratio = &descriptors[3];
    assert_eq!(ratio.kind, OptionKind::Number);
    assert_eq!(ratio.min_value, Some(NumericValue::Number(0.25f64.to_bits())));
    assert_eq!(ratio.max_value, Some(NumericValue::Number(2.5f64.to_bits())));

    assert!(!descriptors[4].required);
    assert_eq!(descriptors[4].kind, OptionKind::String);
}
