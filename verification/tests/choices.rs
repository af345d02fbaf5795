use gloam_commands::choice::{extract_choice, numbers_equal};
use gloam_commands::choice_enum::{expand_choice_enum, VariantSpec};
use gloam_commands::interaction::{SubmittedOption, SubmittedValue};
use gloam_commands::schema::{
    compile_command_name_pattern, option_descriptor, option_parameters, AttributeMeta, ChoiceArg,
    Expression, Literal, ParameterAttribute, ParameterPattern, ParameterSpec, TypeArguments,
    TypeShape, GenericArgument,
};
use gloam_commands::{
    ChoiceKind, ChoiceValue, CommandChoice, CommandChoiceDescriptor, CommandOption, CommandOptions, Error,
    OptionKind,
};

fn string(value: &str) -> Expression {
    Expression::Literal(Literal::Str(value.to_owned()))
}

fn integer(value: i64) -> Expression {
    let literal = Literal::Int {
        digits: value.unsigned_abs().to_string(),
        number_bits: (value.unsigned_abs() as f64).to_bits(),
    };
    if value < 0 {
        Expression::NegatedLiteral(literal)
    } else {
        Expression::Literal(literal)
    }
}

fn variant(ident: &str, name: &str, value: Option<Expression>) -> VariantSpec {
    let mut args = vec![ChoiceArg::Name(name.to_owned())];
    if let Some(value) = value {
        args.push(ChoiceArg::Value(value));
    }
    VariantSpec { ident: ident.to_owned(), unit: true, choice_attributes: vec![Ok(args)] }
}

fn mode() -> Vec<VariantSpec> {
    vec![variant("Fast", "Fast", Some(string("fast"))), variant("Safe", "Safe", Some(string("safe")))]
}

fn level() -> Vec<VariantSpec> {
    vec![variant("Low", "Low", Some(integer(1))), variant("High", "High", Some(integer(2)))]
}

fn path_type(ident: &str) -> TypeShape {
    TypeShape::Path { ident: ident.to_owned(), arguments: TypeArguments::Bare }
}

fn optional(inner: TypeShape) -> TypeShape {
    TypeShape::Path {
        ident: "Option".to_owned(),
        arguments: TypeArguments::Angle(vec![GenericArgument::Type(inner)]),
    }
}

fn attribute(name: &str, meta: AttributeMeta) -> ParameterAttribute {
    ParameterAttribute { name: name.to_owned(), meta }
}

fn parameter(name: &str, ty: TypeShape, attributes: Vec<ParameterAttribute>) -> ParameterSpec {
    ParameterSpec {
        receiver: false,
        pattern: ParameterPattern::Ident { name: name.to_owned(), has_subpattern: false },
        ty,
        attributes,
    }
}

fn inline(name: &str, value: &str) -> ParameterAttribute {
    attribute(
        "choice",
        AttributeMeta::List(Ok(vec![ChoiceArg::Name(name.to_owned()), ChoiceArg::Value(string(value))])),
    )
}

#[test]
fn generated_descriptor_contains_typed_and_inline_choices() {
    let pattern = compile_command_name_pattern().expect("valid pattern");
    let parameters = vec![
        parameter(
            "mode",
            path_type("Mode"),
            vec![
                attribute("description", AttributeMeta::NameValue(string("Execution mode"))),
                attribute("choice", AttributeMeta::Path),
            ],
        ),
        parameter(
            "format",
            path_type("String"),
            vec![
                attribute("description", AttributeMeta::NameValue(string("Output format"))),
                inline("Text", "text"),
                inline("JSON", "json"),
            ],
        ),
        parameter(
            "level",
            optional(path_type("Level")),
            vec![
                attribute("description", AttributeMeta::NameValue(string("Optional level"))),
                attribute("choice", AttributeMeta::Path),
            ],
        ),
    ];
    let options = option_parameters(&pattern, parameters).ok().expect("valid parameters");
    let mode = expand_choice_enum(false, mode()).expect("mode enum");
    let level = expand_choice_enum(false, level()).expect("level enum");
    assert_eq!(mode.kind, ChoiceKind::String);
    assert_eq!(level.kind, ChoiceKind::Integer);

    let descriptors = vec![
        option_descriptor(&options[0], OptionKind::String, mode.choices),
        option_descriptor(&options[1], OptionKind::String, Vec::new()),
        option_descriptor(&options[2], OptionKind::Integer, level.choices),
    ];
    assert_eq!(descriptors.len(), 3);

    let mode = &descriptors[0];
    assert_eq!(mode.kind, OptionKind::String);
    assert!(mode.required);
    assert_eq!(mode.choices.len(), 2);
    assert_eq!(mode.choices[0].name, "Fast");
    assert_eq!(mode.choices[0].value, ChoiceValue::String("fast".to_owned()));
    assert_eq!(mode.choices[1].name, "Safe");
    assert_eq!(mode.choices[1].value, ChoiceValue::String("safe".to_owned()));

    let format = &descriptors[1];
    assert_eq!(format.kind, OptionKind::String);
    assert!(format.required);
    assert_eq!(format.choices.len(), 2);
    assert_eq!(format.choices[0].value, ChoiceValue::String("text".to_owned()));
    assert_eq!(format.choices[1].value, ChoiceValue::String("json".to_owned()));

    let level = &descriptors[2];
    assert_eq!(level.kind, OptionKind::Integer);
    assert!(!level.required);
    assert_eq!(level.choices.len(), 2);
    assert_eq!(level.choices[0].value, ChoiceValue::Integer(1));
    assert_eq!(level.choices[1].value, ChoiceValue::Integer(2));
}

fn submitted(name: &str, kind: OptionKind, value: SubmittedValue) -> SubmittedOption {
    SubmittedOption { name: name.to_owned(), kind, value: Some(value), options: Vec::new(), focused: None }
}

#[test]
fn dispatch_extracts_choice_enums_before_invoking_handler() {
    let mode = expand_choice_enum(false, mode()).expect("mode enum");
    let level = expand_choice_enum(false, level()).expect("level enum");
    let data = vec![
        submitted("mode", OptionKind::String, SubmittedValue::String("safe".to_owned())),
        submitted("level", OptionKind::Integer, SubmittedValue::Integer(2)),
    ];
    let options = CommandOptions::from_slice(&data);
    assert_eq!(extract_choice(&options, "mode", mode.kind, &mode.choices), Ok(1));
    assert_eq!(extract_choice(&options, "level", level.kind, &level.choices), Ok(1));
}

#[test]
fn rejects_unregistered_typed_choice_value() {
    let mode = expand_choice_enum(false, mode()).expect("mode enum");
    let data = vec![submitted("mode", OptionKind::String, SubmittedValue::String("turbo".to_owned()))];
    let options = CommandOptions::from_slice(&data);
    assert!(matches!(
        extract_choice(&options, "mode", mode.kind, &mode.choices),
        Err(Error::InvalidChoice { name }) if name == "mode"
    ));
}

#[test]
fn number_choices_compare_as_doubles() {
    assert!(numbers_equal(0.0f64.to_bits(), (-0.0f64).to_bits()));
    assert!(!numbers_equal(f64::NAN.to_bits(), f64::NAN.to_bits()));
    assert!(numbers_equal(2.5f64.to_bits(), 2.5f64.to_bits()));
    assert!(!numbers_equal(2.5f64.to_bits(), 2.0f64.to_bits()));
}

#[test]
fn choice_enums_without_values_use_variant_identifiers() {
    let enumeration = expand_choice_enum(
        false,
        vec![variant("Red", "Red colour", None), variant("Blue", "Blue colour", None)],
    )
    .expect("string enum");
    assert_eq!(enumeration.kind, ChoiceKind::String);
    assert_eq!(enumeration.choices[1].value, ChoiceValue::String("Blue".to_owned()));
}

#[test]
fn choice_enums_refuse_mixed_and_duplicate_values() {
    let mixed = expand_choice_enum(false, vec![variant("A", "A", None), variant("B", "B", Some(integer(1)))]);
    assert_eq!(
        mixed.err().expect("mixed").message,
        "command-choice enum values must all use the same scalar kind; omitted values are string choices"
    );
    let duplicate = expand_choice_enum(
        false,
        vec![variant("A", "Same", Some(integer(1))), variant("B", "Same", Some(integer(2)))],
    );
    assert_eq!(duplicate.err().expect("duplicate").message, "duplicate Discord choice name");
    let number = |value: f64| Expression::Literal(Literal::Float { bits: Some(value.to_bits()) });
    let duplicate_value = expand_choice_enum(
        false,
        vec![variant("A", "One", Some(integer(1))), variant("B", "Also one", Some(number(1.0)))],
    );
    assert_eq!(duplicate_value.err().expect("duplicate value").message, "duplicate Discord choice value");
    assert!(expand_choice_enum(false, Vec::new()).is_err());
    assert_eq!(
        expand_choice_enum(true, mode()).err().expect("generic").message,
        "generic command-choice enums are not supported"
    );
}

/// A choice enum written as `#[derive(CommandChoice)]` expands it.
#[derive(Debug, Clone, Copy, PartialEq, Eq)]
enum Level {
    Low,
    High,
}

impl CommandOption for Level {
    fn kind() -> OptionKind {
        OptionKind::Integer
    }

    fn extract(options: &CommandOptions<'_>, name: &str) -> Result<Self, Error> {
        let choices = <Self as CommandChoice>::choices();
        match extract_choice(options, name, ChoiceKind::Integer, &choices)? {
            0 => Ok(Level::Low),
            1 => Ok(Level::High),
            _ => Err(Error::InvalidChoice { name: name.to_owned() }),
        }
    }
}

impl CommandChoice for Level {
    fn choices() -> Vec<CommandChoiceDescriptor> {
        vec![CommandChoiceDescriptor::integer("Low", 1), CommandChoiceDescriptor::integer("High", 2)]
    }
}

#[test]
fn optional_choice_enum_allows_missing_option() {
    let data = vec![
        submitted("mode", OptionKind::String, SubmittedValue::String("fast".to_owned())),
        submitted("format", OptionKind::String, SubmittedValue::String("text".to_owned())),
    ];
    let options = CommandOptions::from_slice(&data);
    let mode = expand_choice_enum(false, mode()).expect("mode enum");
    assert_eq!(extract_choice(&options, "mode", mode.kind, &mode.choices), Ok(0));
    assert_eq!(<String as CommandOption>::extract(&options, "format"), Ok("text".to_owned()));
    assert_eq!(<Option<Level> as CommandOption>::extract(&options, "level"), Ok(None));
    assert_eq!(<Option<Level> as CommandOption>::kind(), OptionKind::Integer);
    assert_eq!(<Option<Level> as CommandChoice>::choices().len(), 2);

    let with_level = vec![submitted("level", OptionKind::Integer, SubmittedValue::Integer(2))];
    let options = CommandOptions::from_slice(&with_level);
    assert_eq!(<Option<Level> as CommandOption>::extract(&options, "level"), Ok(Some(Level::High)));
}

#[test]
fn negative_zero_integer_registers_positive_zero_number() {
    let minus_zero = Expression::NegatedLiteral(Literal::Int { digits: "0".to_owned(), number_bits: 0.0f64.to_bits() });
    let half = Expression::Literal(Literal::Float { bits: Some(0.5f64.to_bits()) });
    let enumeration = expand_choice_enum(
        false,
        vec![variant("Zero", "Zero", Some(minus_zero)), variant("Half", "Half", Some(half))],
    )
    .expect("number enum");
    assert_eq!(enumeration.kind, ChoiceKind::Number);
    assert_eq!(enumeration.choices[0].value, ChoiceValue::Number(0.0f64.to_bits()));
    assert_eq!(enumeration.choices[1].value, ChoiceValue::Number(0.5f64.to_bits()));
}
