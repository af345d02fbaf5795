use vstd::prelude::*;
use crate::command::{ChoiceValue, CommandChoiceDescriptor, OptionKind};
use crate::error::Error;
use crate::registry::{first_where, lemma_first_where};

verus! {

/// Most choices one autocomplete response may hold.
pub const MAX_AUTOCOMPLETE_CHOICES: usize = 25;
/// Most characters of a choice name.
pub const MAX_AUTOCOMPLETE_NAME_LENGTH: usize = 100;
/// Most characters of a string choice value.
pub const MAX_AUTOCOMPLETE_STRING_LENGTH: usize = 100;
/// Smallest integer choice value: Discord's safe integer range.
pub const MIN_AUTOCOMPLETE_INTEGER_VALUE: i64 = -9_007_199_254_740_991;
/// Largest integer choice value: Discord's safe integer range.
pub const MAX_AUTOCOMPLETE_INTEGER_VALUE: i64 = 9_007_199_254_740_991;
/// Bits of the magnitude 2^53, the largest number choice value Discord accepts.
pub const MAX_AUTOCOMPLETE_NUMBER_MAGNITUDE_BITS: u64 = 0x4340_0000_0000_0000;

/// Owned scalar value returned by an autocomplete handler.
#[derive(Debug, Clone, PartialEq, Eq)]
pub enum AutocompleteChoiceValue {
    String(String),
    Integer(i64),
    /// A double-precision number given by its IEEE-754 bit pattern.
    Number(u64),
}

/// One dynamic Discord autocomplete result.
#[derive(Debug, Clone, PartialEq, Eq)]
pub struct AutocompleteChoice {
    /// Human-readable choice name shown by Discord.
    pub name: String,
    /// Scalar value submitted if the user selects this result.
    pub value: AutocompleteChoiceValue,
}

impl AutocompleteChoice {
    /// Creates a string autocomplete choice.
    pub fn string(name: &str, value: &str) -> (choice: Self)
        ensures
            choice.name@ == name@,
            choice.value matches AutocompleteChoiceValue::String(v) && v@ == value@,
    {
        AutocompleteChoice { name: name.to_owned(), value: AutocompleteChoiceValue::String(value.to_owned()) }
    }

    /// Creates an integer autocomplete choice.
    pub fn integer(name: &str, value: i64) -> (choice: Self)
        ensures
            choice.name@ == name@,
            choice.value == AutocompleteChoiceValue::Integer(value),
    {
        AutocompleteChoice { name: name.to_owned(), value: AutocompleteChoiceValue::Integer(value) }
    }

    /// Creates a number autocomplete choice from the bits of an `f64`.
    pub fn number(name: &str, bits: u64) -> (choice: Self)
        ensures
            choice.name@ == name@,
            choice.value == AutocompleteChoiceValue::Number(bits),
    {
        AutocompleteChoice { name: name.to_owned(), value: AutocompleteChoiceValue::Number(bits) }
    }
}

/// Whether a number, given by its bits, is finite and at most 2^53 in
/// magnitude: for IEEE-754 doubles the magnitude orders as the bits without
/// the sign do, and every NaN and infinity lies above 2^53 in that order.
pub open spec fn number_in_discord_range(bits: u64) -> bool {
    (bits & 0x7fff_ffff_ffff_ffffu64) <= MAX_AUTOCOMPLETE_NUMBER_MAGNITUDE_BITS
}

pub open spec fn too_many_message() -> Seq<char> {
    "handlers may return at most 25 choices"@
}

pub open spec fn name_message() -> Seq<char> {
    "choice names must contain 1 to 100 characters"@
}

pub open spec fn string_message() -> Seq<char> {
    "string choice values must contain at most 100 characters"@
}

pub open spec fn integer_message() -> Seq<char> {
    "integer choice values must be within Discord's safe integer range"@
}

pub open spec fn number_message() -> Seq<char> {
    "number choice values must be finite and within Discord's numeric range"@
}

pub open spec fn kind_message() -> Seq<char> {
    "choice value type does not match the focused option type"@
}

/// Why Discord would refuse one choice for an option of `kind`, if it would.
pub open spec fn choice_refusal(kind: OptionKind, choice: AutocompleteChoice) -> Option<Seq<char>> {
    let name_length = choice.name@.len();
    if name_length == 0 || name_length > MAX_AUTOCOMPLETE_NAME_LENGTH {
        Some(name_message())
    } else {
        match (kind, choice.value) {
            (OptionKind::String, AutocompleteChoiceValue::String(v)) => if v@.len() > MAX_AUTOCOMPLETE_STRING_LENGTH {
                Some(string_message())
            } else {
                None
            },
            (OptionKind::Integer, AutocompleteChoiceValue::Integer(v)) => if v < MIN_AUTOCOMPLETE_INTEGER_VALUE
                || v > MAX_AUTOCOMPLETE_INTEGER_VALUE {
                Some(integer_message())
            } else {
                None
            },
            (OptionKind::Number, AutocompleteChoiceValue::Number(bits)) => if !number_in_discord_range(bits) {
                Some(number_message())
            } else {
                None
            },
            _ => Some(kind_message()),
        }
    }
}

/// Why Discord would refuse a whole response, if it would: too many choices,
/// or the refusal of the first refused choice.
pub open spec fn response_refusal(kind: OptionKind, choices: Seq<AutocompleteChoice>) -> Option<Seq<char>> {
    if choices.len() > MAX_AUTOCOMPLETE_CHOICES {
        Some(too_many_message())
    } else {
        match first_where(choices.len() as int, |j: int| choice_refusal(kind, choices[j]) is Some, 0) {
            Some(k) => choice_refusal(kind, choices[k]),
            None => None,
        }
    }
}

/// The registered-choice form of an accepted autocomplete choice.
pub open spec fn converted(choice: AutocompleteChoice, out: CommandChoiceDescriptor) -> bool {
    &&& out.name@ == choice.name@
    &&& match (choice.value, out.value) {
        (AutocompleteChoiceValue::String(a), ChoiceValue::String(b)) => a@ == b@,
        (AutocompleteChoiceValue::Integer(a), ChoiceValue::Integer(b)) => a == b,
        (AutocompleteChoiceValue::Number(a), ChoiceValue::Number(b)) => a == b,
        _ => false,
    }
}

fn refused(message: &str) -> (e: Error)
    ensures
        e matches Error::InvalidAutocompleteResponse(m) && m@ == message@,
{
    Error::InvalidAutocompleteResponse(message.to_owned())
}

/// Validates one choice against Discord's limits and the focused option's kind.
pub fn autocomplete_response_choice(option_kind: OptionKind, choice: &AutocompleteChoice) -> (result: Result<
    CommandChoiceDescriptor,
    Error,
>)
    ensures
        match choice_refusal(option_kind, *choice) {
            None => result matches Ok(out) && converted(*choice, out),
            Some(m) => result matches Err(Error::InvalidAutocompleteResponse(s)) && s@ == m,
        },
{
    let name_length = choice.name.unicode_len();
    if name_length == 0 || name_length > MAX_AUTOCOMPLETE_NAME_LENGTH {
        return Err(refused("choice names must contain 1 to 100 characters"));
    }
    let value = match (option_kind, &choice.value) {
        (OptionKind::String, AutocompleteChoiceValue::String(value)) => {
            if value.unicode_len() > MAX_AUTOCOMPLETE_STRING_LENGTH {
                return Err(refused("string choice values must contain at most 100 characters"));
            }
            ChoiceValue::String(value.clone())
        },
        (OptionKind::Integer, AutocompleteChoiceValue::Integer(value)) => {
            if *value < MIN_AUTOCOMPLETE_INTEGER_VALUE || *value > MAX_AUTOCOMPLETE_INTEGER_VALUE {
                return Err(refused("integer choice values must be within Discord's safe integer range"));
            }
            ChoiceValue::Integer(*value)
        },
        (OptionKind::Number, AutocompleteChoiceValue::Number(bits)) => {
            if (*bits & 0x7fff_ffff_ffff_ffffu64) > MAX_AUTOCOMPLETE_NUMBER_MAGNITUDE_BITS {
                return Err(refused("number choice values must be finite and within Discord's numeric range"));
            }
            ChoiceValue::Number(*bits)
        },
        _ => {
            return Err(refused("choice value type does not match the focused option type"));
        },
    };
    Ok(CommandChoiceDescriptor { name: choice.name.clone(), value })
}

/// Validates an autocomplete handler's results and converts them, in order,
/// into the choices of the autocomplete callback.
pub fn autocomplete_response_choices(option_kind: OptionKind, choices: &[AutocompleteChoice]) -> (result: Result<
    Vec<CommandChoiceDescriptor>,
    Error,
>)
    ensures
        match response_refusal(option_kind, choices@) {
            None => result matches Ok(out) && out@.len() == choices@.len() && forall|i: int|
                0 <= i < choices@.len() ==> converted(choices@[i], #[trigger] out@[i]),
            Some(m) => result matches Err(Error::InvalidAutocompleteResponse(s)) && s@ == m,
        },
{
    if choices.len() > MAX_AUTOCOMPLETE_CHOICES {
        return Err(refused("handlers may return at most 25 choices"));
    }
    let ghost pred = |j: int| choice_refusal(option_kind, choices@[j]) is Some;
    proof {
        lemma_first_where(choices@.len() as int, pred, 0);
    }
    let mut out: Vec<CommandChoiceDescriptor> = Vec::new();
    let mut i: usize = 0;
    while i < choices.len()
        invariant
            i <= choices@.len() <= MAX_AUTOCOMPLETE_CHOICES,
            pred == (|j: int| choice_refusal(option_kind, choices@[j]) is Some),
            first_where(choices@.len() as int, pred, 0) == first_where(choices@.len() as int, pred, i as int),
            out@.len() == i,
            forall|j: int| 0 <= j < i ==> converted(choices@[j], #[trigger] out@[j]),
        decreases choices@.len() - i,
    {
        match autocomplete_response_choice(option_kind, &choices[i]) {
            Ok(c) => {
                out.push(c);
            },
            Err(e) => {
                assert(pred(i as int));
                return Err(e);
            },
        }
        i = i + 1;
    }
    Ok(out)
}

/// Every response the framework accepts is one Discord accepts: at most 25
/// choices, each named by 1 to 100 characters, each valued with the focused
/// option's kind and within Discord's range for it.
pub proof fn accepted_responses_meet_discord_limits(kind: OptionKind, choices: Seq<AutocompleteChoice>)
    requires
        response_refusal(kind, choices) is None,
    ensures
        choices.len() <= MAX_AUTOCOMPLETE_CHOICES,
        forall|i: int| 0 <= i < choices.len() ==> {
            let c = #[trigger] choices[i];
            &&& 1 <= c.name@.len() <= MAX_AUTOCOMPLETE_NAME_LENGTH
            &&& match c.value {
                AutocompleteChoiceValue::String(v) => kind == OptionKind::String && v@.len() <= MAX_AUTOCOMPLETE_STRING_LENGTH,
                AutocompleteChoiceValue::Integer(v) => kind == OptionKind::Integer && MIN_AUTOCOMPLETE_INTEGER_VALUE <= v
                    <= MAX_AUTOCOMPLETE_INTEGER_VALUE,
                AutocompleteChoiceValue::Number(bits) => kind == OptionKind::Number && number_in_discord_range(bits),
            }
        },
{
    let pred = |j: int| choice_refusal(kind, choices[j]) is Some;
    lemma_first_where(choices.len() as int, pred, 0);
    assert forall|i: int| 0 <= i < choices.len() implies choice_refusal(kind, #[trigger] choices[i]) is None by {
        assert(!pred(i));
    }
}

} // verus!
