use vstd::prelude::*;
use crate::command::{ChoiceValue, CommandChoiceDescriptor};
use crate::error::Error;
use crate::interaction::{extraction_reported, CommandOption, CommandOptions, ExtractionFailure, Number, SubmittedOption};
use crate::registry::first_where;
use crate::text::str_eq;

verus! {

/// Scalar kind shared by every value of one choice list.
#[derive(Debug, Clone, Copy, PartialEq, Eq, Structural)]
pub enum ChoiceKind {
    String,
    Integer,
    Number,
}

/// Whether an IEEE-754 bit pattern is a NaN.
pub open spec fn is_nan_bits(bits: u64) -> bool {
    (bits & 0x7ff0_0000_0000_0000u64) == 0x7ff0_0000_0000_0000u64 && (bits & 0x000f_ffff_ffff_ffffu64) != 0
}

/// Whether two numbers given by their bits compare equal as `f64`: NaN equals
/// nothing, and both zeros are equal.
pub open spec fn number_eq(a: u64, b: u64) -> bool {
    &&& !is_nan_bits(a)
    &&& !is_nan_bits(b)
    &&& (a == b || ((a & 0x7fff_ffff_ffff_ffffu64) == 0 && (b & 0x7fff_ffff_ffff_ffffu64) == 0))
}

/// Compares two numbers given by their bits as `f64` equality does.
pub fn numbers_equal(a: u64, b: u64) -> (eq: bool)
    ensures
        eq == number_eq(a, b),
{
    let a_nan = (a & 0x7ff0_0000_0000_0000u64) == 0x7ff0_0000_0000_0000u64 && (a & 0x000f_ffff_ffff_ffffu64) != 0;
    let b_nan = (b & 0x7ff0_0000_0000_0000u64) == 0x7ff0_0000_0000_0000u64 && (b & 0x000f_ffff_ffff_ffffu64) != 0;
    !a_nan && !b_nan && (a == b || ((a & 0x7fff_ffff_ffff_ffffu64) == 0 && (b & 0x7fff_ffff_ffff_ffffu64) == 0))
}

/// Choice numbers compare as doubles do: two different bit patterns are equal
/// only when both are zeros (of either sign), so a number never equals its
/// negation unless it is zero; the two zeros are equal; NaN equals nothing;
/// every other number equals itself; and equality is symmetric.
pub proof fn number_equality_is_double_equality(a: u64, b: u64)
    ensures
        number_eq(a, b) && a != b ==> (a & 0x7fff_ffff_ffff_ffffu64) == 0 && (b & 0x7fff_ffff_ffff_ffffu64) == 0,
        (a & 0x7fff_ffff_ffff_ffffu64) != 0 ==> !number_eq(a, a ^ 0x8000_0000_0000_0000u64),
        number_eq(0u64, 0x8000_0000_0000_0000u64),
        is_nan_bits(a) ==> !number_eq(a, b) && !number_eq(b, a),
        !is_nan_bits(a) ==> number_eq(a, a),
        number_eq(a, b) == number_eq(b, a),
{
    assert((a & 0x7fff_ffff_ffff_ffffu64) != 0 ==> a != a ^ 0x8000_0000_0000_0000u64) by (bit_vector);
    assert(((a ^ 0x8000_0000_0000_0000u64) & 0x7fff_ffff_ffff_ffffu64) == (a & 0x7fff_ffff_ffff_ffffu64)) by (bit_vector);
    assert(!is_nan_bits(0u64)) by (bit_vector);
    assert(!is_nan_bits(0x8000_0000_0000_0000u64)) by (bit_vector);
    assert((0x8000_0000_0000_0000u64 & 0x7fff_ffff_ffff_ffffu64) == 0u64) by (bit_vector);
    assert((0u64 & 0x7fff_ffff_ffff_ffffu64) == 0u64) by (bit_vector);
}

/// Whether a submitted value selects a registered choice value.
pub open spec fn choice_matches(registered: ChoiceValue, submitted: ChoiceValue) -> bool {
    match (registered, submitted) {
        (ChoiceValue::String(a), ChoiceValue::String(b)) => a@ == b@,
        (ChoiceValue::Integer(a), ChoiceValue::Integer(b)) => a == b,
        (ChoiceValue::Number(a), ChoiceValue::Number(b)) => number_eq(a, b),
        _ => false,
    }
}

pub(crate) fn value_selects(registered: &ChoiceValue, submitted: &ChoiceValue) -> (selects: bool)
    ensures
        selects == choice_matches(*registered, *submitted),
{
    match (registered, submitted) {
        (ChoiceValue::String(a), ChoiceValue::String(b)) => str_eq(a.as_str(), b.as_str()),
        (ChoiceValue::Integer(a), ChoiceValue::Integer(b)) => *a == *b,
        (ChoiceValue::Number(a), ChoiceValue::Number(b)) => numbers_equal(*a, *b),
        _ => false,
    }
}

/// Index of the first registered choice that `submitted` selects.
pub open spec fn selected_choice(choices: Seq<CommandChoiceDescriptor>, submitted: ChoiceValue) -> Option<int> {
    first_where(choices.len() as int, |j: int| choice_matches(choices[j].value, submitted), 0)
}

/// Finds the registered choice selected by a submitted value.
pub fn find_choice(choices: &[CommandChoiceDescriptor], submitted: &ChoiceValue) -> (index: Option<usize>)
    ensures
        match selected_choice(choices@, *submitted) {
            Some(k) => index == Some(k as usize),
            None => index is None,
        },
{
    let ghost pred = |j: int| choice_matches(choices@[j].value, *submitted);
    let mut i: usize = 0;
    while i < choices.len()
        invariant
            i <= choices@.len(),
            pred == (|j: int| choice_matches(choices@[j].value, *submitted)),
            first_where(choices@.len() as int, pred, 0) == first_where(choices@.len() as int, pred, i as int),
        decreases choices@.len() - i,
    {
        if value_selects(&choices[i].value, submitted) {
            assert(pred(i as int));
            return Some(i);
        }
        i = i + 1;
    }
    None
}

/// The scalar submitted for a choice-backed option of `kind`.
pub open spec fn submitted_choice(
    options: Seq<SubmittedOption>,
    name: Seq<char>,
    kind: ChoiceKind,
) -> Result<ChoiceValue, ExtractionFailure> {
    match kind {
        ChoiceKind::String => match <String as CommandOption>::outcome(options, name) {
            Ok(s) => Ok(ChoiceValue::String(s)),
            Err(f) => Err(f),
        },
        ChoiceKind::Integer => match <i64 as CommandOption>::outcome(options, name) {
            Ok(i) => Ok(ChoiceValue::Integer(i)),
            Err(f) => Err(f),
        },
        ChoiceKind::Number => match <Number as CommandOption>::outcome(options, name) {
            Ok(n) => Ok(ChoiceValue::Number(n.bits)),
            Err(f) => Err(f),
        },
    }
}

/// What extracting a choice-backed option gives: the index of the selected
/// choice, or why there is none.
pub open spec fn choice_outcome(
    options: Seq<SubmittedOption>,
    name: Seq<char>,
    kind: ChoiceKind,
    choices: Seq<CommandChoiceDescriptor>,
) -> Result<usize, ExtractionFailure> {
    match submitted_choice(options, name, kind) {
        Ok(v) => match selected_choice(choices, v) {
            Some(k) => Ok(k as usize),
            None => Err(ExtractionFailure::NotAChoice),
        },
        Err(f) => Err(f),
    }
}

/// Extracts the submitted scalar of `kind` and returns the index of the
/// registered choice it selects; a malformed or stale value that selects no
/// choice is reported as `InvalidChoice`.
pub fn extract_choice(
    options: &CommandOptions,
    name: &str,
    kind: ChoiceKind,
    choices: &[CommandChoiceDescriptor],
) -> (result: Result<usize, Error>)
    ensures
        extraction_reported(result, choice_outcome(options.options@, name@, kind, choices@), name@),
{
    let submitted = match kind {
        ChoiceKind::String => match <String as CommandOption>::extract(options, name) {
            Ok(s) => ChoiceValue::String(s),
            Err(e) => return Err(e),
        },
        ChoiceKind::Integer => match <i64 as CommandOption>::extract(options, name) {
            Ok(i) => ChoiceValue::Integer(i),
            Err(e) => return Err(e),
        },
        ChoiceKind::Number => match <Number as CommandOption>::extract(options, name) {
            Ok(n) => ChoiceValue::Number(n.bits),
            Err(e) => return Err(e),
        },
    };
    match find_choice(choices, &submitted) {
        Some(index) => Ok(index),
        None => Err(Error::InvalidChoice { name: name.to_owned() }),
    }
}

/// Typed command option backed by a fixed Discord choice list.
///
/// Implementations are normally generated for unit-variant enums.
pub trait CommandChoice: CommandOption {
    /// The static choices of this type; left unspecified for an
    /// implementation that does not define it.
    open spec fn spec_choices() -> Seq<CommandChoiceDescriptor> {
        vstd::pervasive::arbitrary()
    }

    /// Static choices registered for this typed option.
    fn choices() -> (choices: Vec<CommandChoiceDescriptor>)
        ensures
            choices@ == Self::spec_choices(),
    ;
}

impl<T: CommandChoice> CommandChoice for Option<T> {
    /// An optional choice option has the choices of its inner type.
    open spec fn spec_choices() -> Seq<CommandChoiceDescriptor> {
        T::spec_choices()
    }

    fn choices() -> (choices: Vec<CommandChoiceDescriptor>) {
        T::choices()
    }
}

} // verus!
