use vstd::prelude::*;
use crate::choice::{choice_matches, ChoiceKind};
use crate::command::{ChoiceValue, CommandChoiceDescriptor};
use crate::schema::{
    choice_args_prefix, fails_with, integer_bound_outcome, negated_bits, number_bound_outcome, parse_choice_args,
    parse_integer_bound, parse_number_bound, reports_schema, AttributeMeta, ChoiceArg, Expression, Literal, SchemaError,
    Site, MAX_CHOICES, MAX_CHOICE_STRING_LENGTH, SIGN_BIT,
};
use crate::text::str_eq;

verus! {

/// One variant of an enum that derives command choices.
pub struct VariantSpec {
    /// The variant identifier, raw prefix removed.
    pub ident: String,
    /// Whether the variant has no fields.
    pub unit: bool,
    /// The variant's `#[choice(...)]` attributes, in order: the arguments of
    /// each, or why its tokens do not form a choice list.
    pub choice_attributes: Vec<Result<Vec<ChoiceArg>, String>>,
}

/// The value a variant declares.
#[derive(Debug, Clone, PartialEq, Eq)]
pub enum ParsedValue {
    String(String),
    /// An integer and the bits of the same value as an `f64`.
    Integer(i64, u64),
    /// The bits of an `f64`.
    Number(u64),
}

/// One read variant: its identifier, choice name and declared value.
#[derive(Debug, Clone, PartialEq, Eq)]
pub struct VariantChoice {
    pub ident: String,
    pub name: String,
    pub value: Option<ParsedValue>,
}

/// The registered choices of an enum and the scalar kind they share.
pub struct ChoiceEnum {
    pub kind: ChoiceKind,
    pub choices: Vec<CommandChoiceDescriptor>,
}

pub open spec fn value_message() -> Seq<char> {
    "choice values require string, integer, or number literals"@
}

pub open spec fn long_string_message() -> Seq<char> {
    "Discord string choice values must contain at most 100 characters"@
}

/// What reading a variant's `value = ...` expression gives.
pub open spec fn value_outcome(expression: Expression, site: Site) -> Result<ParsedValue, (Seq<char>, Site)> {
    let lit = match expression {
        Expression::Literal(l) => Some((false, l)),
        Expression::NegatedLiteral(l) => Some((true, l)),
        _ => None,
    };
    match lit {
        None => Err((value_message(), site)),
        Some((negative, Literal::Str(s))) => if s@.len() > MAX_CHOICE_STRING_LENGTH {
            Err((long_string_message(), site))
        } else {
            Ok(ParsedValue::String(s))
        },
        Some((negative, Literal::Int { number_bits, .. })) => match integer_bound_outcome(expression, site) {
            Ok(v) => Ok(ParsedValue::Integer(v, if negative && v != 0 { negated_bits(number_bits) } else { number_bits })),
            Err(e) => Err(e),
        },
        Some((_, Literal::Float { .. })) => match number_bound_outcome(expression, site) {
            Ok(v) => Ok(ParsedValue::Number(v)),
            Err(e) => Err(e),
        },
        Some((_, Literal::Other)) => Err((value_message(), site)),
    }
}

fn parse_value(expression: &Expression, site: Site) -> (result: Result<ParsedValue, SchemaError>)
    ensures
        reports_schema(result, value_outcome(*expression, site)),
{
    let (negative, literal) = match expression {
        Expression::Literal(l) => (false, l),
        Expression::NegatedLiteral(l) => (true, l),
        _ => {
            return Err(SchemaError { message: "choice values require string, integer, or number literals".to_owned(), site });
        },
    };
    match literal {
        Literal::Str(s) => {
            if s.unicode_len() > MAX_CHOICE_STRING_LENGTH {
                return Err(
                    SchemaError {
                        message: "Discord string choice values must contain at most 100 characters".to_owned(),
                        site,
                    },
                );
            }
            Ok(ParsedValue::String(s.clone()))
        },
        Literal::Int { number_bits, .. } => match parse_integer_bound(expression, site) {
            Ok(v) => {
                // `-0` is the integer zero, whose `f64` is `+0.0`.
                let bits = if negative && v != 0 {
                    *number_bits ^ SIGN_BIT
                } else {
                    *number_bits
                };
                Ok(ParsedValue::Integer(v, bits))
            },
            Err(e) => Err(e),
        },
        Literal::Float { .. } => match parse_number_bound(expression, site) {
            Ok(v) => Ok(ParsedValue::Number(v)),
            Err(e) => Err(e),
        },
        Literal::Other => Err(
            SchemaError { message: "choice values require string, integer, or number literals".to_owned(), site },
        ),
    }
}

/// What reading variant `v` gives.
pub open spec fn variant_outcome(v: int, variant: VariantSpec) -> Result<VariantChoice, (Seq<char>, Site)> {
    let attributes = variant.choice_attributes@;
    if !variant.unit {
        Err(("command-choice enum variants must be unit variants"@, Site::VariantFields(v as usize)))
    } else if attributes.len() == 0 {
        Err(("command-choice variants require `#[choice(name = \"...\")]`"@, Site::VariantIdent(v as usize)))
    } else if attributes.len() > 1 {
        Err(("duplicate `#[choice(...)]` attribute"@, Site::VariantAttribute(v as usize, 1)))
    } else {
        match attributes[0] {
            Err(message) => Err((message@, Site::VariantAttribute(v as usize, 0))),
            Ok(args) => match choice_args_prefix(args@, args@.len() as int) {
                Err(e) => Err(e),
                Ok(read) => match read.name {
                    None => Err(("choice variants require `name = \"...\"`"@, Site::VariantAttribute(v as usize, 0))),
                    Some(name) => if !(1 <= name@.len() <= 100) {
                        Err(("Discord choice names must contain between 1 and 100 characters"@, Site::VariantName(v as usize)))
                    } else {
                        let value = match read.value {
                            Some(e) => match value_outcome(e, Site::VariantValue(v as usize)) {
                                Ok(p) => Ok(Some(p)),
                                Err(e) => Err(e),
                            },
                            None => Ok(None),
                        };
                        match value {
                            Err(e) => Err(e),
                            Ok(value) => if value is None && variant.ident@.len() > MAX_CHOICE_STRING_LENGTH {
                                Err((long_string_message(), Site::VariantIdent(v as usize)))
                            } else {
                                Ok(VariantChoice { ident: variant.ident, name, value })
                            },
                        }
                    },
                },
            },
        }
    }
}

/// Reads one variant: a unit variant with exactly one `#[choice(...)]`
/// attribute naming it, and an optional literal value.
fn parse_variant(v: usize, variant: VariantSpec) -> (result: Result<VariantChoice, SchemaError>)
    ensures
        reports_schema(result, variant_outcome(v as int, variant)),
{
    let VariantSpec { ident, unit, choice_attributes } = variant;
    if !unit {
        return Err(
            SchemaError { message: "command-choice enum variants must be unit variants".to_owned(), site: Site::VariantFields(v) },
        );
    }
    if choice_attributes.len() == 0 {
        return Err(
            SchemaError {
                message: "command-choice variants require `#[choice(name = \"...\")]`".to_owned(),
                site: Site::VariantIdent(v),
            },
        );
    }
    if choice_attributes.len() > 1 {
        return Err(
            SchemaError { message: "duplicate `#[choice(...)]` attribute".to_owned(), site: Site::VariantAttribute(v, 1) },
        );
    }
    let mut attributes = choice_attributes;
    let attribute = attributes.remove(0);
    let args = match attribute {
        Err(message) => {
            return Err(SchemaError { message, site: Site::VariantAttribute(v, 0) });
        },
        Ok(args) => args,
    };
    let read = match parse_choice_args(args) {
        Ok(r) => r,
        Err(e) => {
            return Err(e);
        },
    };
    let name = match read.name {
        Some(n) => n,
        None => {
            return Err(
                SchemaError {
                    message: "choice variants require `name = \"...\"`".to_owned(),
                    site: Site::VariantAttribute(v, 0),
                },
            );
        },
    };
    let length = name.unicode_len();
    if length < 1 || length > 100 {
        return Err(
            SchemaError {
                message: "Discord choice names must contain between 1 and 100 characters".to_owned(),
                site: Site::VariantName(v),
            },
        );
    }
    let value = match &read.value {
        Some(e) => match parse_value(e, Site::VariantValue(v)) {
            Ok(p) => Some(p),
            Err(e) => {
                return Err(e);
            },
        },
        None => None,
    };
    if value.is_none() && ident.unicode_len() > MAX_CHOICE_STRING_LENGTH {
        return Err(
            SchemaError {
                message: "Discord string choice values must contain at most 100 characters".to_owned(),
                site: Site::VariantIdent(v),
            },
        );
    }
    Ok(VariantChoice { ident, name, value })
}

/// What reading the first `n` variants gives.
pub open spec fn variants_prefix(variants: Seq<VariantSpec>, n: int) -> Result<Seq<VariantChoice>, (Seq<char>, Site)>
    decreases n,
{
    if n <= 0 {
        Ok(Seq::empty())
    } else {
        match variants_prefix(variants, n - 1) {
            Err(e) => Err(e),
            Ok(read) => match variant_outcome(n - 1, variants[n - 1]) {
                Err(e) => Err(e),
                Ok(choice) => Ok(read.push(choice)),
            },
        }
    }
}

proof fn lemma_variants_error_persists(variants: Seq<VariantSpec>, n: int, m: int)
    requires
        0 <= n <= m,
        variants_prefix(variants, n) is Err,
    ensures
        variants_prefix(variants, m) == variants_prefix(variants, n),
    decreases m - n,
{
    if n < m {
        lemma_variants_error_persists(variants, n, m - 1);
    }
}

/// What reading every variant gives: at least one and at most 25, each valid.
pub open spec fn parse_variants_outcome(variants: Seq<VariantSpec>) -> Result<Seq<VariantChoice>, (Seq<char>, Site)> {
    if variants.len() == 0 {
        Err(("command-choice enums cannot be empty"@, Site::EnumToken))
    } else if variants.len() > MAX_CHOICES {
        Err(("Discord command options support at most 25 choices"@, Site::Variants))
    } else {
        variants_prefix(variants, variants.len() as int)
    }
}

/// Reads the variants of a command-choice enum.
pub fn parse_variants(variants: Vec<VariantSpec>) -> (result: Result<Vec<VariantChoice>, SchemaError>)
    ensures
        match parse_variants_outcome(variants@) {
            Ok(read) => result matches Ok(r) && r@ == read,
            Err((m, s)) => fails_with(result, m, s),
        },
{
    if variants.len() == 0 {
        return Err(SchemaError { message: "command-choice enums cannot be empty".to_owned(), site: Site::EnumToken });
    }
    if variants.len() > MAX_CHOICES {
        return Err(
            SchemaError { message: "Discord command options support at most 25 choices".to_owned(), site: Site::Variants },
        );
    }
    let ghost all = variants@;
    let mut rest = variants;
    let total = rest.len();
    let mut read: Vec<VariantChoice> = Vec::new();
    let mut v: usize = 0;
    while rest.len() > 0
        invariant
            all.len() == total,
            all == variants@,
            0 < all.len() <= MAX_CHOICES,
            v + rest@.len() == all.len(),
            rest@ == all.skip(v as int),
            variants_prefix(all, v as int) == Ok::<Seq<VariantChoice>, (Seq<char>, Site)>(read@),
        decreases rest@.len(),
    {
        let variant = rest.remove(0);
        assert(variant == all[v as int]);
        match parse_variant(v, variant) {
            Ok(choice) => {
                read.push(choice);
            },
            Err(e) => {
                proof {
                    lemma_variants_error_persists(all, v as int + 1, all.len() as int);
                }
                return Err(e);
            },
        }
        v = v + 1;
    }
    Ok(read)
}

/// The scalar kind shared by the variants' values: omitted and string values
/// make a String enum, any number value a Number enum, else an Integer enum.
pub open spec fn kind_outcome(choices: Seq<VariantChoice>) -> Result<ChoiceKind, (Seq<char>, Site)> {
    let has_default = exists|i: int| 0 <= i < choices.len() && (#[trigger] choices[i]).value is None;
    let has_string = exists|i: int| 0 <= i < choices.len() && ((#[trigger] choices[i]).value matches Some(ParsedValue::String(_)));
    let has_integer = exists|i: int|
        0 <= i < choices.len() && ((#[trigger] choices[i]).value matches Some(ParsedValue::Integer(_, _)));
    let has_number = exists|i: int| 0 <= i < choices.len() && ((#[trigger] choices[i]).value matches Some(ParsedValue::Number(_)));
    if (has_default || has_string) && (has_integer || has_number) {
        Err((
            "command-choice enum values must all use the same scalar kind; omitted values are string choices"@,
            Site::VariantIdent(0),
        ))
    } else if has_default || has_string {
        Ok(ChoiceKind::String)
    } else if has_number {
        Ok(ChoiceKind::Number)
    } else {
        Ok(ChoiceKind::Integer)
    }
}

/// Infers the scalar kind shared by every variant's value.
pub fn infer_kind(choices: &[VariantChoice]) -> (result: Result<ChoiceKind, SchemaError>)
    ensures
        reports_schema(result, kind_outcome(choices@)),
{
    let mut has_default = false;
    let mut has_string = false;
    let mut has_integer = false;
    let mut has_number = false;
    let mut i: usize = 0;
    while i < choices.len()
        invariant
            i <= choices@.len(),
            has_default == exists|j: int| 0 <= j < i && (#[trigger] choices@[j]).value is None,
            has_string == exists|j: int| 0 <= j < i && ((#[trigger] choices@[j]).value matches Some(ParsedValue::String(_))),
            has_integer == exists|j: int|
                0 <= j < i && ((#[trigger] choices@[j]).value matches Some(ParsedValue::Integer(_, _))),
            has_number == exists|j: int| 0 <= j < i && ((#[trigger] choices@[j]).value matches Some(ParsedValue::Number(_))),
        decreases choices@.len() - i,
    {
        match &choices[i].value {
            None => {
                has_default = true;
            },
            Some(ParsedValue::String(_)) => {
                has_string = true;
            },
            Some(ParsedValue::Integer(_, _)) => {
                has_integer = true;
            },
            Some(ParsedValue::Number(_)) => {
                has_number = true;
            },
        }
        i = i + 1;
    }
    if (has_default || has_string) && (has_integer || has_number) {
        return Err(
            SchemaError {
                message: "command-choice enum values must all use the same scalar kind; omitted values are string choices".to_owned(),
                site: Site::VariantIdent(0),
            },
        );
    }
    if has_default || has_string {
        return Ok(ChoiceKind::String);
    }
    if has_number {
        return Ok(ChoiceKind::Number);
    }
    Ok(ChoiceKind::Integer)
}

/// The registered value of a variant in an enum of `kind`, if its value fits that kind.
pub open spec fn registered_value(kind: ChoiceKind, choice: VariantChoice) -> Option<ChoiceValue> {
    match (kind, choice.value) {
        (ChoiceKind::String, None) => Some(ChoiceValue::String(choice.ident)),
        (ChoiceKind::String, Some(ParsedValue::String(s))) => Some(ChoiceValue::String(s)),
        (ChoiceKind::Integer, Some(ParsedValue::Integer(v, _))) => Some(ChoiceValue::Integer(v)),
        (ChoiceKind::Number, Some(ParsedValue::Integer(_, bits))) => Some(ChoiceValue::Number(bits)),
        (ChoiceKind::Number, Some(ParsedValue::Number(bits))) => Some(ChoiceValue::Number(bits)),
        _ => None,
    }
}

pub open spec fn mismatch_message() -> Seq<char> {
    "command-choice enum values do not match the inferred choice kind"@
}

/// What checking variant `v` for duplicates gives, after the earlier variants.
pub open spec fn duplicate_outcome(kind: ChoiceKind, choices: Seq<VariantChoice>, v: int) -> Result<ChoiceValue, (Seq<char>, Site)> {
    if exists|j: int| 0 <= j < v && (#[trigger] choices[j]).name@ == choices[v].name@ {
        Err(("duplicate Discord choice name"@, Site::VariantName(v as usize)))
    } else {
        match registered_value(kind, choices[v]) {
            None => Err((mismatch_message(), Site::VariantIdent(v as usize))),
            Some(value) => if exists|j: int|
                0 <= j < v && (registered_value(kind, #[trigger] choices[j]) matches Some(w) && choice_matches(w, value)) {
                Err(("duplicate Discord choice value"@, Site::VariantIdent(v as usize)))
            } else {
                Ok(value)
            },
        }
    }
}

/// The first variant whose duplicate check fails, if any.
pub open spec fn first_duplicate(kind: ChoiceKind, choices: Seq<VariantChoice>) -> Option<int> {
    crate::registry::first_where(choices.len() as int, |v: int| duplicate_outcome(kind, choices, v) is Err, 0)
}

fn registered(kind: ChoiceKind, choice: &VariantChoice) -> (value: Option<ChoiceValue>)
    ensures
        value == registered_value(kind, *choice),
{
    match (kind, &choice.value) {
        (ChoiceKind::String, None) => Some(ChoiceValue::String(choice.ident.clone())),
        (ChoiceKind::String, Some(ParsedValue::String(s))) => Some(ChoiceValue::String(s.clone())),
        (ChoiceKind::Integer, Some(ParsedValue::Integer(v, _))) => Some(ChoiceValue::Integer(*v)),
        (ChoiceKind::Number, Some(ParsedValue::Integer(_, bits))) => Some(ChoiceValue::Number(*bits)),
        (ChoiceKind::Number, Some(ParsedValue::Number(bits))) => Some(ChoiceValue::Number(*bits)),
        _ => None,
    }
}

#[verifier::loop_isolation(false)]
/// Rejects duplicate choice names and duplicate values, and builds the
/// registered choices of the enum in variant order.
pub fn validate_duplicates(kind: ChoiceKind, choices: &[VariantChoice]) -> (result: Result<
    Vec<CommandChoiceDescriptor>,
    SchemaError,
>)
    ensures
        match first_duplicate(kind, choices@) {
            Some(v) => match duplicate_outcome(kind, choices@, v) {
                Err((m, s)) => fails_with(result, m, s),
                Ok(_) => false,
            },
            None => result matches Ok(registered) && registered@.len() == choices@.len() && forall|i: int|
                0 <= i < choices@.len() ==> (#[trigger] registered@[i]).name == choices@[i].name && registered_value(
                    kind,
                    choices@[i],
                ) == Some(registered@[i].value),
        },
{
    let ghost pred = |v: int| duplicate_outcome(kind, choices@, v) is Err;
    proof {
        crate::registry::lemma_first_where(choices@.len() as int, pred, 0);
    }
    let mut registered_values: Vec<CommandChoiceDescriptor> = Vec::new();
    let mut v: usize = 0;
    while v < choices.len()
        invariant
            v <= choices@.len(),
            pred == (|v: int| duplicate_outcome(kind, choices@, v) is Err),
            crate::registry::first_where(choices@.len() as int, pred, 0) == crate::registry::first_where(
                choices@.len() as int,
                pred,
                v as int,
            ),
            registered_values@.len() == v,
            forall|i: int|
                0 <= i < v ==> (#[trigger] registered_values@[i]).name == choices@[i].name && registered_value(
                    kind,
                    choices@[i],
                ) == Some(registered_values@[i].value),
        decreases choices@.len() - v,
    {
        let choice = &choices[v];
        let mut j: usize = 0;
        while j < v
            invariant
                j <= v < choices@.len(),
                forall|k: int| 0 <= k < j ==> (#[trigger] choices@[k]).name@ != choices@[v as int].name@,
            decreases v - j,
        {
            if str_eq(choices[j].name.as_str(), choice.name.as_str()) {
                assert(pred(v as int));
                return Err(SchemaError { message: "duplicate Discord choice name".to_owned(), site: Site::VariantName(v) });
            }
            j = j + 1;
        }
        let value = match registered(kind, choice) {
            Some(value) => value,
            None => {
                assert(pred(v as int));
                return Err(SchemaError { message: "command-choice enum values do not match the inferred choice kind".to_owned(), site: Site::VariantIdent(v) });
            },
        };
        let mut j: usize = 0;
        while j < v
            invariant
                j <= v < choices@.len(),
                registered_values@.len() == v,
                forall|i: int|
                    0 <= i < v ==> (#[trigger] registered_values@[i]).name == choices@[i].name && registered_value(
                        kind,
                        choices@[i],
                    ) == Some(registered_values@[i].value),
                forall|k: int|
                    0 <= k < j ==> !(registered_value(kind, #[trigger] choices@[k]) matches Some(w) && choice_matches(w, value)),
            decreases v - j,
        {
            if crate::choice::value_selects(&registered_values[j].value, &value) {
                assert(registered_value(kind, choices@[j as int]) == Some(registered_values@[j as int].value));
                assert(pred(v as int));
                return Err(SchemaError { message: "duplicate Discord choice value".to_owned(), site: Site::VariantIdent(v) });
            }
            j = j + 1;
        }
        assert(!pred(v as int));
        registered_values.push(CommandChoiceDescriptor { name: choice.name.clone(), value });
        v = v + 1;
    }
    Ok(registered_values)
}

/// Everything the choice derive decides for one enum: no generics, at least
/// one and at most 25 valid variants, one shared scalar kind, and unique
/// choice names and values; the registered choices in variant order.
pub fn expand_choice_enum(generic: bool, variants: Vec<VariantSpec>) -> (result: Result<ChoiceEnum, SchemaError>)
    ensures
        generic ==> fails_with(result, "generic command-choice enums are not supported"@, Site::Generics),
        !generic ==> match parse_variants_outcome(variants@) {
            Err((m, s)) => fails_with(result, m, s),
            Ok(read) => match kind_outcome(read) {
                Err((m, s)) => fails_with(result, m, s),
                Ok(kind) => match first_duplicate(kind, read) {
                    Some(v) => match duplicate_outcome(kind, read, v) {
                        Err((m, s)) => fails_with(result, m, s),
                        Ok(_) => false,
                    },
                    None => result matches Ok(e) && e.kind == kind && e.choices@.len() == read.len() && forall|i: int|
                        0 <= i < read.len() ==> (#[trigger] e.choices@[i]).name == read[i].name && registered_value(
                            kind,
                            read[i],
                        ) == Some(e.choices@[i].value),
                },
            },
        },
{
    if generic {
        return Err(SchemaError { message: "generic command-choice enums are not supported".to_owned(), site: Site::Generics });
    }
    let read = match parse_variants(variants) {
        Ok(r) => r,
        Err(e) => {
            return Err(e);
        },
    };
    let kind = match infer_kind(read.as_slice()) {
        Ok(k) => k,
        Err(e) => {
            return Err(e);
        },
    };
    match validate_duplicates(kind, read.as_slice()) {
        Ok(choices) => Ok(ChoiceEnum { kind, choices }),
        Err(e) => Err(e),
    }
}

/// The option kind that a choice enum's values register as.
pub fn option_kind_of(kind: ChoiceKind) -> (option: crate::command::OptionKind)
    ensures
        option == match kind {
            ChoiceKind::String => crate::command::OptionKind::String,
            ChoiceKind::Integer => crate::command::OptionKind::Integer,
            ChoiceKind::Number => crate::command::OptionKind::Number,
        },
{
    match kind {
        ChoiceKind::String => crate::command::OptionKind::String,
        ChoiceKind::Integer => crate::command::OptionKind::Integer,
        ChoiceKind::Number => crate::command::OptionKind::Number,
    }
}

/// A choice list that passes the duplicate checks has pairwise distinct
/// names, and no two of its values are the same Discord value.
pub proof fn accepted_choices_are_unique(kind: ChoiceKind, choices: Seq<VariantChoice>)
    requires
        first_duplicate(kind, choices) is None,
    ensures
        forall|i: int, j: int| 0 <= i < j < choices.len() ==> (#[trigger] choices[i]).name@ != (#[trigger] choices[j]).name@,
        forall|i: int, j: int|
            0 <= i < j < choices.len() ==> !(registered_value(kind, #[trigger] choices[i]) matches Some(a)
                && registered_value(kind, #[trigger] choices[j]) matches Some(b) && choice_matches(a, b)),
{
    let pred = |v: int| duplicate_outcome(kind, choices, v) is Err;
    crate::registry::lemma_first_where(choices.len() as int, pred, 0);
    assert forall|i: int, j: int| 0 <= i < j < choices.len() implies (#[trigger] choices[i]).name@ != (
    #[trigger] choices[j]).name@ by {
        assert(!pred(j));
    }
    assert forall|i: int, j: int|
        0 <= i < j < choices.len() implies !(registered_value(kind, #[trigger] choices[i]) matches Some(a)
            && registered_value(kind, #[trigger] choices[j]) matches Some(b) && choice_matches(a, b)) by {
        assert(!pred(j));
    }
}

} // verus!
