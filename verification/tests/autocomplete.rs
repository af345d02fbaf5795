use gloam_commands::autocomplete::{autocomplete_response_choice, autocomplete_response_choices};
use gloam_commands::{AutocompleteChoice, ChoiceValue, Error, OptionKind};

fn refused(result: Result<impl Sized, Error>) -> String {
    match result {
        Err(Error::InvalidAutocompleteResponse(message)) => message,
        _ => panic!("expected an invalid autocomplete response"),
    }
}

#[test]
fn converts_valid_choices_in_order() {
    let choices = vec![
        AutocompleteChoice::string("Alpha", "alpha"),
        AutocompleteChoice::string("Beta", "beta"),
    ];
    let converted = autocomplete_response_choices(OptionKind::String, &choices).expect("valid");
    assert_eq!(converted.len(), 2);
    assert_eq!(converted[1].name, "Beta");
    assert_eq!(converted[1].value, ChoiceValue::String("beta".to_owned()));
}

#[test]
fn refuses_more_than_twenty_five_choices() {
    let choices: Vec<AutocompleteChoice> =
        (0..26).map(|i| AutocompleteChoice::integer(&format!("n{i}"), i)).collect();
    assert_eq!(
        refused(autocomplete_response_choices(OptionKind::Integer, &choices)),
        "handlers may return at most 25 choices"
    );
    assert!(autocomplete_response_choices(OptionKind::Integer, &choices[..25]).is_ok());
}

#[test]
fn refuses_names_outside_one_to_one_hundred_characters() {
    assert_eq!(
        refused(autocomplete_response_choice(OptionKind::String, &AutocompleteChoice::string("", "x"))),
        "choice names must contain 1 to 100 characters"
    );
    let long = "é".repeat(101);
    assert!(autocomplete_response_choice(OptionKind::String, &AutocompleteChoice::string(&long, "x")).is_err());
    let exact = "é".repeat(100);
    assert!(autocomplete_response_choice(OptionKind::String, &AutocompleteChoice::string(&exact, "x")).is_ok());
}

#[test]
fn refuses_long_string_values() {
    let long = "v".repeat(101);
    assert_eq!(
        refused(autocomplete_response_choice(OptionKind::String, &AutocompleteChoice::string("a", &long))),
        "string choice values must contain at most 100 characters"
    );
}

#[test]
fn refuses_integers_outside_the_safe_range() {
    assert_eq!(
        refused(autocomplete_response_choice(
            OptionKind::Integer,
            &AutocompleteChoice::integer("big", 9_007_199_254_740_992)
        )),
        "integer choice values must be within Discord's safe integer range"
    );
    assert!(autocomplete_response_choice(
        OptionKind::Integer,
        &AutocompleteChoice::integer("edge", -9_007_199_254_740_991)
    )
    .is_ok());
}

#[test]
fn refuses_non_finite_or_out_of_range_numbers() {
    for value in [f64::NAN, f64::INFINITY, -f64::INFINITY, 9_007_199_254_740_994.0, -1e300] {
        assert_eq!(
            refused(autocomplete_response_choice(
                OptionKind::Number,
                &AutocompleteChoice::number("n", value.to_bits())
            )),
            "number choice values must be finite and within Discord's numeric range"
        );
    }
    for value in [0.0f64, -0.0, 1.5, 9_007_199_254_740_992.0, -9_007_199_254_740_992.0] {
        assert!(autocomplete_response_choice(
            OptionKind::Number,
            &AutocompleteChoice::number("n", value.to_bits())
        )
        .is_ok());
    }
}

#[test]
fn refuses_values_of_another_kind_than_the_focused_option() {
    assert_eq!(
        refused(autocomplete_response_choice(OptionKind::Number, &AutocompleteChoice::integer("n", 1))),
        "choice value type does not match the focused option type"
    );
}
