use regex::Regex;
use vstd::prelude::*;
use crate::autocomplete::number_in_discord_range;
use crate::choice::choice_matches;
use crate::command::{ChoiceValue, CommandChoiceDescriptor, CommandOptionDescriptor, NumericValue, OptionKind};
use crate::text::str_eq;
use crate::interaction::{AttachmentId, ChannelId, CommandOption, Number, RoleId, UserId, all_digits, digits_value, is_digit, lemma_parse_decimal_nonneg, parse_decimal};

verus! {

/// A compiled regular expression.
#[verifier::external_type_specification]
#[verifier::external_body]
pub struct ExRegex(regex::Regex);

/// Whether the regular expression `pattern` matches somewhere in `haystack`,
/// as `regex::Regex::is_match` decides it.
pub uninterp spec fn pattern_matches(pattern: Seq<char>, haystack: Seq<char>) -> bool;

/// Whether `regex::Regex::new` accepts `pattern` with its default limits.
pub uninterp spec fn regex_compiles(pattern: Seq<char>) -> bool;

/// The lowercase mapping of `s`, as `str::to_lowercase` computes it.
pub uninterp spec fn lowercase(s: Seq<char>) -> Seq<char>;

/// A regular expression together with the pattern it was compiled from.
pub struct CompiledPattern {
    pattern: String,
    regex: Regex,
}

impl CompiledPattern {
    pub closed spec fn spec_pattern(&self) -> Seq<char> {
        self.pattern@
    }
}

/// Compiles `pattern` with `regex::Regex::new`; `None` when the pattern is
/// refused. Which patterns compile is named, not stated: it depends on the
/// pattern alone (syntax and the builder's default size limits).
#[verifier::external_body]
pub fn compile_pattern(pattern: &str) -> (compiled: Option<CompiledPattern>)
    ensures
        (compiled is Some) == regex_compiles(pattern@),
        compiled matches Some(c) ==> c.spec_pattern() == pattern@,
{
    match Regex::new(pattern) {
        Ok(regex) => Some(CompiledPattern { pattern: pattern.to_owned(), regex }),
        Err(_) => None,
    }
}

/// Calls `regex::Regex::is_match` on the compiled pattern.
#[verifier::external_body]
pub fn is_match(compiled: &CompiledPattern, haystack: &str) -> (matched: bool)
    ensures
        matched == pattern_matches(compiled.spec_pattern(), haystack@),
{
    compiled.regex.is_match(haystack)
}

/// Calls `str::to_lowercase`.
#[verifier::external_body]
fn to_lowercase(s: &str) -> (lower: String)
    ensures
        lower@ == lowercase(s@),
{
    s.to_lowercase()
}

/// Discord's rule for chat-input command and option names.
pub open spec fn command_name_pattern() -> Seq<char> {
    "^[-_'\\p{L}\\p{N}\\p{sc=Deva}\\p{sc=Thai}]{1,32}$"@
}

/// Compiles Discord's command-name rule.
pub fn compile_command_name_pattern() -> (compiled: Option<CompiledPattern>)
    ensures
        (compiled is Some) == regex_compiles(command_name_pattern()),
        compiled matches Some(c) ==> c.spec_pattern() == command_name_pattern(),
{
    compile_pattern("^[-_'\\p{L}\\p{N}\\p{sc=Deva}\\p{sc=Thai}]{1,32}$")
}

/// Most options one chat-input command may declare.
pub const MAX_COMMAND_OPTIONS: usize = 25;
/// Most static choices one option may declare.
pub const MAX_CHOICES: usize = 25;
/// Smallest integer bound or choice Discord accepts.
pub const MIN_INTEGER_VALUE: i64 = -9_007_199_254_740_991;
/// Largest integer bound or choice Discord accepts.
pub const MAX_INTEGER_VALUE: i64 = 9_007_199_254_740_991;
/// Largest string length constraint Discord accepts.
pub const MAX_STRING_LENGTH: u32 = 6_000;
/// Most characters of a string choice value.
pub const MAX_CHOICE_STRING_LENGTH: usize = 100;
/// The sign bit of an IEEE-754 double.
pub const SIGN_BIT: u64 = 0x8000_0000_0000_0000;

/// Where in the annotated item a schema error points.
#[derive(Debug, Clone, Copy, PartialEq, Eq, Structural)]
pub enum Site {
    /// The name that was validated.
    Name,
    /// The description that was validated.
    Description,
    /// The whole parameter list.
    Inputs,
    /// The parameter as a whole.
    Argument,
    /// The parameter's pattern.
    Pattern,
    /// The parameter's identifier.
    Ident,
    /// The parameter's type.
    Type,
    /// The `T` of an `Option<T>` parameter type.
    InnerType,
    /// The attribute of this index on the parameter.
    Attribute(usize),
    /// The key of an argument inside a choice list: argument index.
    ArgumentKey(usize),
    /// The name literal of the inline choice of this index.
    ChoiceName(usize),
    /// The value expression of the inline choice of this index.
    ChoiceValue(usize),
    /// The `min` bound expression.
    Min,
    /// The `max` bound expression.
    Max,
    /// The `min_length` bound expression.
    MinLength,
    /// The `max_length` bound expression.
    MaxLength,
    /// The macro invocation itself.
    CallSite,
    /// The generic parameters of an annotated enum.
    Generics,
    /// The `enum` keyword of an annotated enum.
    EnumToken,
    /// The identifier of an annotated item.
    ItemIdent,
    /// The variant list of an annotated enum.
    Variants,
    /// The `fn` token of an annotated function.
    FnToken,
    /// The `const` keyword of an annotated function.
    Constness,
    /// The `unsafe` keyword of an annotated function.
    Unsafety,
    /// The ABI of an annotated function.
    Abi,
    /// The variadic part of an annotated function.
    Variadic,
    /// The return type of an annotated function.
    Output,
    /// The first parameter of an annotated function.
    ContextParameter,
    /// The type of the context parameter.
    ContextType,
    /// The generic arguments of the context type.
    ContextArguments,
    /// The annotated module as a whole.
    Module,
    /// The item of this index in an annotated module.
    ModuleItem(usize),
    /// The item of that index inside the module item of this index.
    NestedItem(usize, usize),
    /// The last segment's arguments of a command path.
    PathArguments,
    /// The macro arguments.
    Arguments,
    /// The fields of the enum variant of this index.
    VariantFields(usize),
    /// The identifier of the enum variant of this index.
    VariantIdent(usize),
    /// The attribute of this index on the enum variant of that index.
    VariantAttribute(usize, usize),
    /// The choice name literal of the enum variant of this index.
    VariantName(usize),
    /// The choice value expression of the enum variant of this index.
    VariantValue(usize),
}

/// A compile-time error of a command declaration: its message and where it points.
#[derive(Debug, Clone, PartialEq, Eq)]
pub struct SchemaError {
    pub message: String,
    pub site: Site,
}

/// Whether `result` fails with exactly `message` at `site`.
pub open spec fn fails_with<T>(result: Result<T, SchemaError>, message: Seq<char>, site: Site) -> bool {
    result matches Err(e) && e.message@ == message && e.site == site
}

/// Whether `result` is the spec outcome: the same value, or the same error.
pub open spec fn reports_schema<T>(result: Result<T, SchemaError>, outcome: Result<T, (Seq<char>, Site)>) -> bool {
    match outcome {
        Ok(v) => result == Ok::<T, SchemaError>(v),
        Err((message, site)) => fails_with(result, message, site),
    }
}

fn schema_error(message: &str, site: Site) -> (e: SchemaError)
    ensures
        e.message@ == message@,
        e.site == site,
{
    SchemaError { message: message.to_owned(), site }
}

/// What validating a name gives: it must match Discord's naming rule and be
/// its own lowercase mapping.
pub open spec fn name_outcome(name: Seq<char>) -> Result<(), (Seq<char>, Site)> {
    if !pattern_matches(command_name_pattern(), name) {
        Err((
            "invalid Discord chat-input command name; expected 1-32 characters matching Discord's application-command naming rules"@,
            Site::Name,
        ))
    } else if lowercase(name) != name {
        Err(("Discord chat-input command names must use lowercase variants when available"@, Site::Name))
    } else {
        Ok(())
    }
}

/// Validates a command, group or option name.
pub fn validate_name(pattern: &CompiledPattern, name: &str) -> (result: Result<(), SchemaError>)
    requires
        pattern.spec_pattern() == command_name_pattern(),
    ensures
        reports_schema(result, name_outcome(name@)),
{
    if !is_match(pattern, name) {
        return Err(
            schema_error(
                "invalid Discord chat-input command name; expected 1-32 characters matching Discord's application-command naming rules",
                Site::Name,
            ),
        );
    }
    let lower = to_lowercase(name);
    if !crate::text::str_eq(lower.as_str(), name) {
        return Err(schema_error("Discord chat-input command names must use lowercase variants when available", Site::Name));
    }
    Ok(())
}

/// What validating a description gives: 1 to 100 characters.
pub open spec fn description_outcome(description: Seq<char>) -> Result<(), (Seq<char>, Site)> {
    if 1 <= description.len() <= 100 {
        Ok(())
    } else {
        Err(("Discord slash-command descriptions must contain between 1 and 100 characters"@, Site::Description))
    }
}

/// Validates a command, group or option description.
pub fn validate_description(description: &str) -> (result: Result<(), SchemaError>)
    ensures
        reports_schema(result, description_outcome(description@)),
{
    let length = description.unicode_len();
    if length < 1 || length > 100 {
        return Err(
            schema_error("Discord slash-command descriptions must contain between 1 and 100 characters", Site::Description),
        );
    }
    Ok(())
}

/// What validating a choice name gives: 1 to 100 characters.
pub open spec fn choice_name_outcome(name: Seq<char>, site: Site) -> Result<(), (Seq<char>, Site)> {
    if 1 <= name.len() <= 100 {
        Ok(())
    } else {
        Err(("Discord choice names must contain between 1 and 100 characters"@, site))
    }
}

/// Validates the display name of a static choice.
pub fn validate_choice_name(name: &str, site: Site) -> (result: Result<(), SchemaError>)
    ensures
        reports_schema(result, choice_name_outcome(name@, site)),
{
    let length = name.unicode_len();
    if length < 1 || length > 100 {
        return Err(schema_error("Discord choice names must contain between 1 and 100 characters", site));
    }
    Ok(())
}

/// A literal as it appears in an attribute.
#[derive(Debug, Clone, PartialEq, Eq)]
pub enum Literal {
    /// A string literal's value.
    Str(String),
    /// An integer literal: its decimal digits, and the bits of the `f64` those digits denote.
    Int { digits: String, number_bits: u64 },
    /// A float literal: the bits of its `f64` value, or `None` when it does not parse as one.
    Float { bits: Option<u64> },
    /// Any other literal (boolean, character, bytes).
    Other,
}

/// An attribute value expression, as far as the schema rules read it.
#[derive(Debug, Clone, PartialEq, Eq)]
pub enum Expression {
    /// A literal.
    Literal(Literal),
    /// A negated literal, `-lit`.
    NegatedLiteral(Literal),
    /// A path expression: its segments when it is a plain path (no qualified
    /// self, no generic arguments, at least one segment), else `None`.
    Path(Option<Vec<String>>),
    /// Any other expression.
    Other,
}

/// The literal and its sign, when the expression is a possibly negated literal.
pub open spec fn signed(expression: Expression) -> Option<(bool, Literal)> {
    match expression {
        Expression::Literal(l) => Some((false, l)),
        Expression::NegatedLiteral(l) => Some((true, l)),
        _ => None,
    }
}

/// Value of a possibly negated decimal magnitude.
pub open spec fn signed_value(negative: bool, magnitude: int) -> int {
    if negative {
        -magnitude
    } else {
        magnitude
    }
}

/// What reading an integer bound or choice value gives.
pub open spec fn integer_bound_outcome(expression: Expression, site: Site) -> Result<i64, (Seq<char>, Site)> {
    match signed(expression) {
        None => Err(("numeric option bounds require literals"@, site)),
        Some((negative, Literal::Int { digits, .. })) => match parse_decimal(digits@) {
            Some(m) => if m > i128::MAX {
                Err(("integer option bound is outside the supported range"@, site))
            } else if signed_value(negative, m) < MIN_INTEGER_VALUE || signed_value(negative, m) > MAX_INTEGER_VALUE {
                Err((
                    "Discord integer option bounds must be between -9007199254740991 and 9007199254740991"@,
                    site,
                ))
            } else {
                Ok(signed_value(negative, m) as i64)
            },
            None => Err(("integer option bound is outside the supported range"@, site)),
        },
        Some(_) => Err(("integer option bounds require integer literals"@, site)),
    }
}

/// Parses unsigned decimal digits (after an optional `+`) whose value fits
/// in 127 bits.
pub fn parse_magnitude(s: &str) -> (parsed: Option<u128>)
    ensures
        match parse_decimal(s@) {
            Some(n) => if n <= i128::MAX { parsed == Some(n as u128) } else { parsed is None },
            None => parsed is None,
        },
{
    let len = s.unicode_len();
    let mut start: usize = 0;
    if len > 0 && s.get_char(0) == '+' {
        start = 1;
    }
    let ghost digits = crate::interaction::numeral_digits(s@);
    assert(digits =~= s@.skip(start as int));
    if start == len {
        return None;
    }
    let limit: u128 = 0x7fff_ffff_ffff_ffff_ffff_ffff_ffff_ffffu128;
    let mut value: u128 = 0;
    let mut i: usize = start;
    while i < len
        invariant
            len == s@.len(),
            start <= i <= len,
            start < len,
            digits == s@.skip(start as int),
            digits == crate::interaction::numeral_digits(s@),
            limit == i128::MAX,
            forall|k: int| start <= k < i ==> is_digit(#[trigger] s@[k]),
            value == digits_value(s@.subrange(start as int, i as int)),
            value <= limit,
        decreases len - i,
    {
        let c = s.get_char(i);
        assert(s@.subrange(start as int, i as int + 1).drop_last() =~= s@.subrange(start as int, i as int));
        if c < '0' || c > '9' {
            assert(digits[i - start] == c);
            assert(!all_digits(digits));
            return None;
        }
        let d: u128 = (c as u128) - ('0' as u128);
        let ghost prefix = s@.subrange(start as int, i as int + 1);
        assert(prefix.drop_last() =~= s@.subrange(start as int, i as int));
        assert(prefix.last() == c);
        assert(digits_value(prefix) == value * 10 + d);
        if value > (limit - d) / 10 {
            proof {
                assert(value * 10 + d > limit) by (nonlinear_arith)
                    requires
                        value > (limit - d) / 10,
                        d <= 9,
                        limit == i128::MAX,
                ;
                if parse_decimal(s@) is Some {
                    assert(all_digits(digits));
                    assert forall|k: int| start <= k < len implies is_digit(#[trigger] s@[k]) by {
                        assert(s@[k] == digits[k - start]);
                    }
                    crate::interaction::lemma_digits_monotone(s@, start as int, i as int + 1, len as int);
                    assert(s@.subrange(start as int, len as int) =~= digits);
                }
            }
            return None;
        }
        proof {
            assert(value * 10 + d <= limit) by (nonlinear_arith)
                requires
                    value <= (limit - d) / 10,
                    d <= 9,
                    limit == i128::MAX,
            ;
        }
        value = value * 10 + d;
        i = i + 1;
    }
    assert(s@.subrange(start as int, len as int) =~= digits);
    assert forall|k: int| 0 <= k < digits.len() implies is_digit(#[trigger] digits[k]) by {
        assert(digits[k] == s@[k + start]);
    }
    assert(all_digits(digits));
    Some(value)
}

/// Reads an integer option bound or choice value: a possibly negated integer
/// literal within Discord's safe integer range.
pub fn parse_integer_bound(expression: &Expression, site: Site) -> (result: Result<i64, SchemaError>)
    ensures
        reports_schema(result, integer_bound_outcome(*expression, site)),
{
    let (negative, literal) = match expression {
        Expression::Literal(l) => (false, l),
        Expression::NegatedLiteral(l) => (true, l),
        _ => {
            return Err(schema_error("numeric option bounds require literals", site));
        },
    };
    let digits = match literal {
        Literal::Int { digits, .. } => digits,
        _ => {
            return Err(schema_error("integer option bounds require integer literals", site));
        },
    };
    proof {
        lemma_parse_decimal_nonneg(digits@);
    }
    let magnitude = match parse_magnitude(digits.as_str()) {
        Some(m) => m,
        None => {
            return Err(schema_error("integer option bound is outside the supported range", site));
        },
    };
    let limit: u128 = 9_007_199_254_740_991u128;
    if magnitude > limit {
        return Err(
            schema_error(
                "Discord integer option bounds must be between -9007199254740991 and 9007199254740991",
                site,
            ),
        );
    }
    let small = magnitude as i64;
    if negative {
        Ok(-small)
    } else {
        Ok(small)
    }
}

/// The bits of the negation of a double: its sign bit flipped.
pub open spec fn negated_bits(bits: u64) -> u64 {
    bits ^ SIGN_BIT
}

/// What reading a number bound or choice value gives, as `f64` bits.
pub open spec fn number_bound_outcome(expression: Expression, site: Site) -> Result<u64, (Seq<char>, Site)> {
    match signed(expression) {
        None => Err(("numeric option bounds require literals"@, site)),
        Some((negative, literal)) => {
            let magnitude = match literal {
                Literal::Float { bits: Some(bits) } => Ok(bits),
                Literal::Float { bits: None } => Err(("invalid number option bound"@, site)),
                Literal::Int { number_bits, .. } => Ok(number_bits),
                _ => Err(("number option bounds require numeric literals"@, site)),
            };
            match magnitude {
                Err(e) => Err(e),
                Ok(bits) => {
                    let value = if negative { negated_bits(bits) } else { bits };
                    if !number_in_discord_range(value) {
                        Err((
                            "Discord number option bounds must be between -9007199254740992 and 9007199254740992"@,
                            site,
                        ))
                    } else {
                        Ok(value)
                    }
                },
            }
        },
    }
}

/// Reads a number option bound or choice value: a possibly negated numeric
/// literal that is finite and within Discord's numeric range.
pub fn parse_number_bound(expression: &Expression, site: Site) -> (result: Result<u64, SchemaError>)
    ensures
        reports_schema(result, number_bound_outcome(*expression, site)),
{
    let (negative, literal) = match expression {
        Expression::Literal(l) => (false, l),
        Expression::NegatedLiteral(l) => (true, l),
        _ => {
            return Err(schema_error("numeric option bounds require literals", site));
        },
    };
    let magnitude = match literal {
        Literal::Float { bits: Some(bits) } => *bits,
        Literal::Float { bits: None } => {
            return Err(schema_error("invalid number option bound", site));
        },
        Literal::Int { number_bits, .. } => *number_bits,
        _ => {
            return Err(schema_error("number option bounds require numeric literals", site));
        },
    };
    let value = if negative {
        magnitude ^ SIGN_BIT
    } else {
        magnitude
    };
    if (value & 0x7fff_ffff_ffff_ffffu64) > crate::autocomplete::MAX_AUTOCOMPLETE_NUMBER_MAGNITUDE_BITS {
        return Err(
            schema_error(
                "Discord number option bounds must be between -9007199254740992 and 9007199254740992",
                site,
            ),
        );
    }
    Ok(value)
}

/// What reading a string length constraint gives.
pub open spec fn length_outcome(expression: Expression, site: Site) -> Result<u32, (Seq<char>, Site)> {
    match expression {
        Expression::Literal(Literal::Int { digits, .. }) => match parse_decimal(digits@) {
            Some(n) => if n <= u32::MAX {
                Ok(n as u32)
            } else {
                Err(("string length constraint is outside the supported range"@, site))
            },
            None => Err(("string length constraint is outside the supported range"@, site)),
        },
        _ => Err(("string length constraints require non-negative integer literals"@, site)),
    }
}

/// Reads a string length constraint: an unnegated integer literal that fits in 32 bits.
pub fn parse_length(expression: &Expression, site: Site) -> (result: Result<u32, SchemaError>)
    ensures
        reports_schema(result, length_outcome(*expression, site)),
{
    let digits = match expression {
        Expression::Literal(Literal::Int { digits, .. }) => digits,
        _ => {
            return Err(schema_error("string length constraints require non-negative integer literals", site));
        },
    };
    proof {
        lemma_parse_decimal_nonneg(digits@);
    }
    match crate::interaction::parse_u64(digits.as_str()) {
        Some(n) => {
            if n > 0xffff_ffffu64 {
                return Err(schema_error("string length constraint is outside the supported range", site));
            }
            Ok(n as u32)
        },
        None => Err(schema_error("string length constraint is outside the supported range", site)),
    }
}

/// The shape of a parameter type, as far as the schema rules read it.
#[derive(Debug, PartialEq, Eq)]
pub enum TypeShape {
    /// A path type, by the identifier and arguments of its last segment.
    Path { ident: String, arguments: TypeArguments },
    /// The unit type `()`.
    Unit,
    /// Any other type, or a path without segments.
    Other,
}

/// Generic arguments of a path segment.
#[derive(Debug, PartialEq, Eq)]
pub enum TypeArguments {
    /// No arguments.
    Bare,
    /// `<...>` arguments, in order.
    Angle(Vec<GenericArgument>),
    /// `(...)` arguments of a function-like path.
    Parenthesized,
}

/// One angle-bracketed generic argument.
#[derive(Debug, PartialEq, Eq)]
pub enum GenericArgument {
    Type(TypeShape),
    /// A lifetime, constant, binding or constraint.
    Other,
}

pub open spec fn option_arity_message() -> Seq<char> {
    "`Option` slash-command parameters require exactly one inner type"@
}

pub open spec fn unsupported_type_message() -> Seq<char> {
    "unsupported slash-command option type; expected `String`, `bool`, `i64`, `f64`, `UserId`, `ChannelId`, `RoleId`, `AttachmentId`, or `Option<T>` of one of those types"@
}

pub open spec fn nested_option_message() -> Seq<char> {
    "nested `Option<Option<T>>` slash-command parameters are not supported"@
}

pub open spec fn typed_choice_type_message() -> Seq<char> {
    "bare `#[choice]` requires a type that derives `CommandChoice`"@
}

/// The `T` of `Option<T>`, `None` for a type that is not `Option`, or the
/// error for a malformed `Option` (reported at `site`).
pub open spec fn inner_type_outcome(ty: TypeShape, site: Site) -> Result<Option<TypeShape>, (Seq<char>, Site)> {
    match ty {
        TypeShape::Path { ident, arguments } => if ident@ != "Option"@ {
            Ok(None)
        } else {
            match arguments {
                TypeArguments::Angle(args) => if args@.len() != 1 {
                    Err((option_arity_message(), site))
                } else {
                    match args@[0] {
                        GenericArgument::Type(inner) => Ok(Some(inner)),
                        GenericArgument::Other => Err(
                            ("`Option` slash-command parameters require an inner Rust type"@, site),
                        ),
                    }
                },
                _ => Err((option_arity_message(), site)),
            }
        },
        _ => Ok(None),
    }
}

/// Reads the `T` of an `Option<T>` parameter type.
pub fn option_inner_type(ty: &TypeShape, site: Site) -> (result: Result<Option<&TypeShape>, SchemaError>)
    ensures
        match inner_type_outcome(*ty, site) {
            Ok(Some(inner)) => result matches Ok(Some(r)) && *r == inner,
            Ok(None) => result matches Ok(None),
            Err((m, s)) => fails_with(result, m, s),
        },
{
    match ty {
        TypeShape::Path { ident, arguments } => {
            if !str_eq(ident.as_str(), "Option") {
                return Ok(None);
            }
            match arguments {
                TypeArguments::Angle(args) => {
                    if args.len() != 1 {
                        return Err(schema_error("`Option` slash-command parameters require exactly one inner type", site));
                    }
                    match &args[0] {
                        GenericArgument::Type(inner) => Ok(Some(inner)),
                        GenericArgument::Other => Err(
                            schema_error("`Option` slash-command parameters require an inner Rust type", site),
                        ),
                    }
                },
                _ => Err(schema_error("`Option` slash-command parameters require exactly one inner type", site)),
            }
        },
        _ => Ok(None),
    }
}

/// The option kind named by a supported type identifier.
pub open spec fn known_kind(ident: Seq<char>) -> Option<OptionKind> {
    if ident == "String"@ {
        Some(OptionKind::String)
    } else if ident == "bool"@ {
        Some(OptionKind::Boolean)
    } else if ident == "i64"@ {
        Some(OptionKind::Integer)
    } else if ident == "f64"@ {
        Some(OptionKind::Number)
    } else if ident == "UserId"@ {
        Some(OptionKind::User)
    } else if ident == "ChannelId"@ {
        Some(OptionKind::Channel)
    } else if ident == "RoleId"@ {
        Some(OptionKind::Role)
    } else if ident == "AttachmentId"@ {
        Some(OptionKind::Attachment)
    } else {
        None
    }
}

/// Every supported parameter type registers the option kind that its typed
/// extraction reads, so Discord sends the value the handler expects; and no
/// two supported types register the same kind.
pub proof fn supported_types_register_their_extraction_kind()
    ensures
        known_kind("String"@) == Some(<String as CommandOption>::spec_kind()),
        known_kind("bool"@) == Some(<bool as CommandOption>::spec_kind()),
        known_kind("i64"@) == Some(<i64 as CommandOption>::spec_kind()),
        known_kind("f64"@) == Some(<Number as CommandOption>::spec_kind()),
        known_kind("UserId"@) == Some(<UserId as CommandOption>::spec_kind()),
        known_kind("ChannelId"@) == Some(<ChannelId as CommandOption>::spec_kind()),
        known_kind("RoleId"@) == Some(<RoleId as CommandOption>::spec_kind()),
        known_kind("AttachmentId"@) == Some(<AttachmentId as CommandOption>::spec_kind()),
        forall|a: Seq<char>, b: Seq<char>|
            #[trigger] known_kind(a) is Some && known_kind(a) == #[trigger] known_kind(b) ==> a == b,
{
    reveal_strlit("String");
    reveal_strlit("bool");
    reveal_strlit("i64");
    reveal_strlit("f64");
    reveal_strlit("UserId");
    reveal_strlit("ChannelId");
    reveal_strlit("RoleId");
    reveal_strlit("AttachmentId");
    // The supported identifiers all start with different characters.
    let names = seq!["String"@, "bool"@, "i64"@, "f64"@, "UserId"@, "ChannelId"@, "RoleId"@, "AttachmentId"@];
    let firsts = seq!['S', 'b', 'i', 'f', 'U', 'C', 'R', 'A'];
    assert forall|x: int, y: int| 0 <= x < y < 8 implies #[trigger] names[x] != #[trigger] names[y] by {
        assert(names[x][0] == firsts[x]);
        assert(names[y][0] == firsts[y]);
    }
    assert(known_kind("String"@) == Some(OptionKind::String));
    assert(names[1] != names[0]);
    assert(known_kind("bool"@) == Some(OptionKind::Boolean));
    assert(names[2] != names[0] && names[2] != names[1]);
    assert(known_kind("i64"@) == Some(OptionKind::Integer));
    assert(names[3] != names[0] && names[3] != names[1] && names[3] != names[2]);
    assert(known_kind("f64"@) == Some(OptionKind::Number));
    assert(names[4] != names[0] && names[4] != names[1] && names[4] != names[2] && names[4] != names[3]);
    assert(known_kind("UserId"@) == Some(OptionKind::User));
    assert(names[5] != names[0] && names[5] != names[1] && names[5] != names[2] && names[5] != names[3]
        && names[5] != names[4]);
    assert(known_kind("ChannelId"@) == Some(OptionKind::Channel));
    assert(names[6] != names[0] && names[6] != names[1] && names[6] != names[2] && names[6] != names[3]
        && names[6] != names[4] && names[6] != names[5]);
    assert(known_kind("RoleId"@) == Some(OptionKind::Role));
    assert(names[7] != names[0] && names[7] != names[1] && names[7] != names[2] && names[7] != names[3]
        && names[7] != names[4] && names[7] != names[5] && names[7] != names[6]);
    assert(known_kind("AttachmentId"@) == Some(OptionKind::Attachment));
}

/// Maps a supported type identifier to its option kind.
pub fn known_option_kind(ident: &str) -> (kind: Option<OptionKind>)
    ensures
        kind == known_kind(ident@),
{
    if str_eq(ident, "String") {
        Some(OptionKind::String)
    } else if str_eq(ident, "bool") {
        Some(OptionKind::Boolean)
    } else if str_eq(ident, "i64") {
        Some(OptionKind::Integer)
    } else if str_eq(ident, "f64") {
        Some(OptionKind::Number)
    } else if str_eq(ident, "UserId") {
        Some(OptionKind::User)
    } else if str_eq(ident, "ChannelId") {
        Some(OptionKind::Channel)
    } else if str_eq(ident, "RoleId") {
        Some(OptionKind::Role)
    } else if str_eq(ident, "AttachmentId") {
        Some(OptionKind::Attachment)
    } else {
        None
    }
}

/// The option kind of a non-optional parameter type.
pub open spec fn supported_kind_outcome(ty: TypeShape, site: Site) -> Result<OptionKind, (Seq<char>, Site)> {
    match ty {
        TypeShape::Path { ident, arguments: TypeArguments::Bare } => match known_kind(ident@) {
            Some(kind) => Ok(kind),
            None => Err((unsupported_type_message(), site)),
        },
        _ => Err((unsupported_type_message(), site)),
    }
}

/// Reads the option kind of a non-optional parameter type.
pub fn supported_option_kind(ty: &TypeShape, site: Site) -> (result: Result<OptionKind, SchemaError>)
    ensures
        reports_schema(result, supported_kind_outcome(*ty, site)),
{
    match ty {
        TypeShape::Path { ident, arguments: TypeArguments::Bare } => match known_option_kind(ident.as_str()) {
            Some(kind) => Ok(kind),
            None => Err(schema_error(
                "unsupported slash-command option type; expected `String`, `bool`, `i64`, `f64`, `UserId`, `ChannelId`, `RoleId`, `AttachmentId`, or `Option<T>` of one of those types",
                site,
            )),
        },
        _ => Err(schema_error(
            "unsupported slash-command option type; expected `String`, `bool`, `i64`, `f64`, `UserId`, `ChannelId`, `RoleId`, `AttachmentId`, or `Option<T>` of one of those types",
            site,
        )),
    }
}

/// The option kind of a parameter type and whether the option is required.
pub open spec fn option_type_outcome(ty: TypeShape) -> Result<(OptionKind, bool), (Seq<char>, Site)> {
    match inner_type_outcome(ty, Site::Type) {
        Err(e) => Err(e),
        Ok(Some(inner)) => match inner_type_outcome(inner, Site::InnerType) {
            Err(e) => Err(e),
            Ok(Some(_)) => Err((nested_option_message(), Site::Type)),
            Ok(None) => match supported_kind_outcome(inner, Site::InnerType) {
                Ok(kind) => Ok((kind, false)),
                Err(e) => Err(e),
            },
        },
        Ok(None) => match supported_kind_outcome(ty, Site::Type) {
            Ok(kind) => Ok((kind, true)),
            Err(e) => Err(e),
        },
    }
}

/// Reads the option kind of a parameter type; `Option<T>` is an optional option.
pub fn option_type(ty: &TypeShape) -> (result: Result<(OptionKind, bool), SchemaError>)
    ensures
        reports_schema(result, option_type_outcome(*ty)),
{
    match option_inner_type(ty, Site::Type) {
        Err(e) => Err(e),
        Ok(Some(inner)) => match option_inner_type(inner, Site::InnerType) {
            Err(e) => Err(e),
            Ok(Some(_)) => Err(schema_error("nested `Option<Option<T>>` slash-command parameters are not supported", Site::Type)),
            Ok(None) => match supported_option_kind(inner, Site::InnerType) {
                Ok(kind) => Ok((kind, false)),
                Err(e) => Err(e),
            },
        },
        Ok(None) => match supported_option_kind(ty, Site::Type) {
            Ok(kind) => Ok((kind, true)),
            Err(e) => Err(e),
        },
    }
}

/// Whether a typed-choice parameter is required, or why its type cannot be a
/// `CommandChoice` type.
pub open spec fn typed_choice_outcome(ty: TypeShape) -> Result<bool, (Seq<char>, Site)> {
    let checked = match inner_type_outcome(ty, Site::Type) {
        Err(e) => Err(e),
        Ok(Some(inner)) => match inner_type_outcome(inner, Site::InnerType) {
            Err(e) => Err(e),
            Ok(Some(_)) => Err((nested_option_message(), Site::Type)),
            Ok(None) => Ok((inner, false, Site::InnerType)),
        },
        Ok(None) => Ok((ty, true, Site::Type)),
    };
    match checked {
        Err(e) => Err(e),
        Ok((inner, required, site)) => match inner {
            TypeShape::Path { ident, arguments: TypeArguments::Bare } => if known_kind(ident@) is Some {
                Err((typed_choice_type_message(), site))
            } else {
                Ok(required)
            },
            _ => Err((typed_choice_type_message(), site)),
        },
    }
}

/// Checks the type of a bare `#[choice]` parameter and returns whether it is required.
pub fn validate_typed_choice_type(ty: &TypeShape) -> (result: Result<bool, SchemaError>)
    ensures
        reports_schema(result, typed_choice_outcome(*ty)),
{
    let (inner, required, site) = match option_inner_type(ty, Site::Type) {
        Err(e) => {
            return Err(e);
        },
        Ok(Some(inner)) => match option_inner_type(inner, Site::InnerType) {
            Err(e) => {
                return Err(e);
            },
            Ok(Some(_)) => {
                return Err(
                    schema_error("nested `Option<Option<T>>` slash-command parameters are not supported", Site::Type),
                );
            },
            Ok(None) => (inner, false, Site::InnerType),
        },
        Ok(None) => (ty, true, Site::Type),
    };
    match inner {
        TypeShape::Path { ident, arguments: TypeArguments::Bare } => {
            if known_option_kind(ident.as_str()).is_some() {
                return Err(schema_error("bare `#[choice]` requires a type that derives `CommandChoice`", site));
            }
            Ok(required)
        },
        _ => Err(schema_error("bare `#[choice]` requires a type that derives `CommandChoice`", site)),
    }
}

/// The order key of a finite double given by its bits: for doubles that are
/// not NaN, value order is the order of the sign-applied magnitude bits, and
/// both zeros share the key 0.
pub open spec fn number_order_key(bits: u64) -> int {
    if bits & SIGN_BIT != 0 {
        -((bits & 0x7fff_ffff_ffff_ffffu64) as int)
    } else {
        (bits & 0x7fff_ffff_ffff_ffffu64) as int
    }
}

/// Whether the double `a` is greater than the double `b`, neither NaN.
pub fn number_greater(a: u64, b: u64) -> (greater: bool)
    ensures
        greater == (number_order_key(a) > number_order_key(b)),
{
    let a_magnitude = a & 0x7fff_ffff_ffff_ffffu64;
    let b_magnitude = b & 0x7fff_ffff_ffff_ffffu64;
    let a_negative = a & SIGN_BIT != 0;
    let b_negative = b & SIGN_BIT != 0;
    if a_negative && b_negative {
        a_magnitude < b_magnitude
    } else if a_negative {
        false
    } else if b_negative {
        !(a_magnitude == 0 && b_magnitude == 0)
    } else {
        a_magnitude > b_magnitude
    }
}

pub open spec fn numeric_misplaced_message() -> Seq<char> {
    "`#[min = ...]` and `#[max = ...]` are only supported for `i64` and `f64` options"@
}

/// What reading the `min` and `max` constraints of an option of `kind` gives.
pub open spec fn numeric_bounds_outcome(kind: OptionKind, min: Option<Expression>, max: Option<Expression>) -> Result<
    (Option<NumericValue>, Option<NumericValue>),
    (Seq<char>, Site),
> {
    if min is None && max is None {
        Ok((None, None))
    } else if kind == OptionKind::Integer {
        let lo = match min {
            Some(e) => match integer_bound_outcome(e, Site::Min) {
                Ok(v) => Ok(Some(v)),
                Err(e) => Err(e),
            },
            None => Ok(None),
        };
        let hi = match max {
            Some(e) => match integer_bound_outcome(e, Site::Max) {
                Ok(v) => Ok(Some(v)),
                Err(e) => Err(e),
            },
            None => Ok(None),
        };
        match (lo, hi) {
            (Err(e), _) => Err(e),
            (Ok(_), Err(e)) => Err(e),
            (Ok(lo), Ok(hi)) => if lo is Some && hi is Some && lo.unwrap() > hi.unwrap() {
                Err(("integer `min` cannot be greater than `max`"@, Site::Max))
            } else {
                Ok((
                    match lo {
                        Some(v) => Some(NumericValue::Integer(v)),
                        None => None,
                    },
                    match hi {
                        Some(v) => Some(NumericValue::Integer(v)),
                        None => None,
                    },
                ))
            },
        }
    } else if kind == OptionKind::Number {
        let lo = match min {
            Some(e) => match number_bound_outcome(e, Site::Min) {
                Ok(v) => Ok(Some(v)),
                Err(e) => Err(e),
            },
            None => Ok(None),
        };
        let hi = match max {
            Some(e) => match number_bound_outcome(e, Site::Max) {
                Ok(v) => Ok(Some(v)),
                Err(e) => Err(e),
            },
            None => Ok(None),
        };
        match (lo, hi) {
            (Err(e), _) => Err(e),
            (Ok(_), Err(e)) => Err(e),
            (Ok(lo), Ok(hi)) => if lo is Some && hi is Some && number_order_key(lo.unwrap()) > number_order_key(
                hi.unwrap(),
            ) {
                Err(("number `min` cannot be greater than `max`"@, Site::Max))
            } else {
                Ok((
                    match lo {
                        Some(v) => Some(NumericValue::Number(v)),
                        None => None,
                    },
                    match hi {
                        Some(v) => Some(NumericValue::Number(v)),
                        None => None,
                    },
                ))
            },
        }
    } else {
        Err((numeric_misplaced_message(), if min is Some { Site::Min } else { Site::Max }))
    }
}

/// Reads the `min` and `max` constraints of an option of `kind`.
pub fn numeric_bounds(kind: OptionKind, min: Option<&Expression>, max: Option<&Expression>) -> (result: Result<
    (Option<NumericValue>, Option<NumericValue>),
    SchemaError,
>)
    ensures
        reports_schema(
            result,
            numeric_bounds_outcome(
                kind,
                match min {
                    Some(e) => Some(*e),
                    None => None,
                },
                match max {
                    Some(e) => Some(*e),
                    None => None,
                },
            ),
        ),
{
    if min.is_none() && max.is_none() {
        return Ok((None, None));
    }
    match kind {
        OptionKind::Integer => {
            let lo = match min {
                Some(e) => match parse_integer_bound(e, Site::Min) {
                    Ok(v) => Some(v),
                    Err(e) => {
                        return Err(e);
                    },
                },
                None => None,
            };
            let hi = match max {
                Some(e) => match parse_integer_bound(e, Site::Max) {
                    Ok(v) => Some(v),
                    Err(e) => {
                        return Err(e);
                    },
                },
                None => None,
            };
            if let (Some(l), Some(h)) = (lo, hi) {
                if l > h {
                    return Err(schema_error("integer `min` cannot be greater than `max`", Site::Max));
                }
            }
            let lo_bound = match lo {
                Some(v) => Some(NumericValue::Integer(v)),
                None => None,
            };
            let hi_bound = match hi {
                Some(v) => Some(NumericValue::Integer(v)),
                None => None,
            };
            Ok((lo_bound, hi_bound))
        },
        OptionKind::Number => {
            let lo = match min {
                Some(e) => match parse_number_bound(e, Site::Min) {
                    Ok(v) => Some(v),
                    Err(e) => {
                        return Err(e);
                    },
                },
                None => None,
            };
            let hi = match max {
                Some(e) => match parse_number_bound(e, Site::Max) {
                    Ok(v) => Some(v),
                    Err(e) => {
                        return Err(e);
                    },
                },
                None => None,
            };
            if let (Some(l), Some(h)) = (lo, hi) {
                if number_greater(l, h) {
                    return Err(schema_error("number `min` cannot be greater than `max`", Site::Max));
                }
            }
            let lo_bound = match lo {
                Some(v) => Some(NumericValue::Number(v)),
                None => None,
            };
            let hi_bound = match hi {
                Some(v) => Some(NumericValue::Number(v)),
                None => None,
            };
            Ok((lo_bound, hi_bound))
        },
        _ => {
            let site = if min.is_some() {
                Site::Min
            } else {
                Site::Max
            };
            Err(schema_error("`#[min = ...]` and `#[max = ...]` are only supported for `i64` and `f64` options", site))
        },
    }
}

/// What reading the `min_length` and `max_length` constraints of an option of `kind` gives.
pub open spec fn string_bounds_outcome(kind: OptionKind, min: Option<Expression>, max: Option<Expression>) -> Result<
    (Option<u32>, Option<u32>),
    (Seq<char>, Site),
> {
    if min is None && max is None {
        Ok((None, None))
    } else if kind != OptionKind::String {
        Err((
            "`#[min_length = ...]` and `#[max_length = ...]` are only supported for `String` options"@,
            if min is Some { Site::MinLength } else { Site::MaxLength },
        ))
    } else {
        let lo = match min {
            Some(e) => match length_outcome(e, Site::MinLength) {
                Ok(v) => Ok(Some(v)),
                Err(e) => Err(e),
            },
            None => Ok(None),
        };
        let hi = match max {
            Some(e) => match length_outcome(e, Site::MaxLength) {
                Ok(v) => Ok(Some(v)),
                Err(e) => Err(e),
            },
            None => Ok(None),
        };
        match (lo, hi) {
            (Err(e), _) => Err(e),
            (Ok(_), Err(e)) => Err(e),
            (Ok(lo), Ok(hi)) => if lo is Some && lo.unwrap() > MAX_STRING_LENGTH {
                Err(("Discord string `min_length` must be between 0 and 6000"@, Site::MinLength))
            } else if hi is Some && (hi.unwrap() < 1 || hi.unwrap() > MAX_STRING_LENGTH) {
                Err(("Discord string `max_length` must be between 1 and 6000"@, Site::MaxLength))
            } else if lo is Some && hi is Some && lo.unwrap() > hi.unwrap() {
                Err(("string `min_length` cannot be greater than `max_length`"@, Site::MaxLength))
            } else {
                Ok((lo, hi))
            },
        }
    }
}

/// Reads the `min_length` and `max_length` constraints of an option of `kind`.
pub fn string_bounds(kind: OptionKind, min: Option<&Expression>, max: Option<&Expression>) -> (result: Result<
    (Option<u32>, Option<u32>),
    SchemaError,
>)
    ensures
        reports_schema(
            result,
            string_bounds_outcome(
                kind,
                match min {
                    Some(e) => Some(*e),
                    None => None,
                },
                match max {
                    Some(e) => Some(*e),
                    None => None,
                },
            ),
        ),
{
    if min.is_none() && max.is_none() {
        return Ok((None, None));
    }
    if kind != OptionKind::String {
        let site = if min.is_some() {
            Site::MinLength
        } else {
            Site::MaxLength
        };
        return Err(
            schema_error("`#[min_length = ...]` and `#[max_length = ...]` are only supported for `String` options", site),
        );
    }
    let lo = match min {
        Some(e) => match parse_length(e, Site::MinLength) {
            Ok(v) => Some(v),
            Err(e) => {
                return Err(e);
            },
        },
        None => None,
    };
    let hi = match max {
        Some(e) => match parse_length(e, Site::MaxLength) {
            Ok(v) => Some(v),
            Err(e) => {
                return Err(e);
            },
        },
        None => None,
    };
    if let Some(v) = lo {
        if v > MAX_STRING_LENGTH {
            return Err(schema_error("Discord string `min_length` must be between 0 and 6000", Site::MinLength));
        }
    }
    if let Some(v) = hi {
        if v < 1 || v > MAX_STRING_LENGTH {
            return Err(schema_error("Discord string `max_length` must be between 1 and 6000", Site::MaxLength));
        }
    }
    if let (Some(l), Some(h)) = (lo, hi) {
        if l > h {
            return Err(schema_error("string `min_length` cannot be greater than `max_length`", Site::MaxLength));
        }
    }
    Ok((lo, hi))
}

/// One argument inside `#[choice(...)]`, in source order.
#[derive(Debug, Clone, PartialEq, Eq)]
pub enum ChoiceArg {
    /// `name = "..."`.
    Name(String),
    /// `value = ...`.
    Value(Expression),
    /// Any other key; nothing after it is read.
    Unsupported,
}

/// The arguments of one `#[choice(...)]` list.
#[derive(Debug, Clone, PartialEq, Eq)]
pub struct ChoiceArgs {
    pub name: Option<String>,
    pub value: Option<Expression>,
}

/// What reading the first `n` arguments of a choice list gives.
pub open spec fn choice_args_prefix(args: Seq<ChoiceArg>, n: int) -> Result<ChoiceArgs, (Seq<char>, Site)>
    decreases n,
{
    if n <= 0 {
        Ok(ChoiceArgs { name: None, value: None })
    } else {
        match choice_args_prefix(args, n - 1) {
            Err(e) => Err(e),
            Ok(read) => match args[n - 1] {
                ChoiceArg::Name(name) => if read.name is Some {
                    Err(("duplicate `name` argument"@, Site::ArgumentKey((n - 1) as usize)))
                } else {
                    Ok(ChoiceArgs { name: Some(name), value: read.value })
                },
                ChoiceArg::Value(value) => if read.value is Some {
                    Err(("duplicate `value` argument"@, Site::ArgumentKey((n - 1) as usize)))
                } else {
                    Ok(ChoiceArgs { name: read.name, value: Some(value) })
                },
                ChoiceArg::Unsupported => Err(
                    ("unsupported choice argument; expected `name` or `value`"@, Site::ArgumentKey((n - 1) as usize)),
                ),
            },
        }
    }
}

proof fn lemma_choice_args_error_persists(args: Seq<ChoiceArg>, n: int, m: int)
    requires
        0 <= n <= m,
        choice_args_prefix(args, n) is Err,
    ensures
        choice_args_prefix(args, m) == choice_args_prefix(args, n),
    decreases m - n,
{
    if n < m {
        lemma_choice_args_error_persists(args, n, m - 1);
    }
}

/// Reads the arguments of one `#[choice(...)]` list: each of `name` and
/// `value` at most once, and no other key.
pub fn parse_choice_args(args: Vec<ChoiceArg>) -> (result: Result<ChoiceArgs, SchemaError>)
    ensures
        reports_schema(result, choice_args_prefix(args@, args@.len() as int)),
{
    let ghost all = args@;
    let mut rest = args;
    let total = rest.len();
    let mut read = ChoiceArgs { name: None, value: None };
    let mut i: usize = 0;
    while rest.len() > 0
        invariant
            all.len() == total,
            i + rest@.len() == all.len(),
            all == args@,
            rest@ == all.skip(i as int),
            choice_args_prefix(all, i as int) == Ok::<ChoiceArgs, (Seq<char>, Site)>(read),
        decreases rest@.len(),
    {
        let arg = rest.remove(0);
        assert(arg == all[i as int]);
        match arg {
            ChoiceArg::Name(name) => {
                if read.name.is_some() {
                    proof {
                        lemma_choice_args_error_persists(all, i as int + 1, all.len() as int);
                    }
                    return Err(schema_error("duplicate `name` argument", Site::ArgumentKey(i)));
                }
                read = ChoiceArgs { name: Some(name), value: read.value };
            },
            ChoiceArg::Value(value) => {
                if read.value.is_some() {
                    proof {
                        lemma_choice_args_error_persists(all, i as int + 1, all.len() as int);
                    }
                    return Err(schema_error("duplicate `value` argument", Site::ArgumentKey(i)));
                }
                read = ChoiceArgs { name: read.name, value: Some(value) };
            },
            ChoiceArg::Unsupported => {
                proof {
                    lemma_choice_args_error_persists(all, i as int + 1, all.len() as int);
                }
                return Err(schema_error("unsupported choice argument; expected `name` or `value`", Site::ArgumentKey(i)));
            },
        }
        i = i + 1;
    }
    assert(all.len() == i);
    Ok(read)
}

#[derive(Debug)]
/// Where a command option's static choices come from.
pub enum ChoiceSource {
    /// The option has no static choices.
    Absent,
    /// Choices declared inline, in order.
    Inline(Vec<CommandChoiceDescriptor>),
    /// Choices of a `CommandChoice` type.
    Typed,
}

/// The value of an inline choice for an option of `kind`.
pub open spec fn inline_value_outcome(kind: OptionKind, expression: Expression, site: Site) -> Result<ChoiceValue, (Seq<char>, Site)> {
    if kind == OptionKind::String {
        match expression {
            Expression::Literal(Literal::Str(s)) => if s@.len() > MAX_CHOICE_STRING_LENGTH {
                Err(("Discord string choice values must contain at most 100 characters"@, site))
            } else {
                Ok(ChoiceValue::String(s))
            },
            _ => Err(("string choices require string literal values"@, site)),
        }
    } else if kind == OptionKind::Integer {
        match integer_bound_outcome(expression, site) {
            Ok(v) => Ok(ChoiceValue::Integer(v)),
            Err(e) => Err(e),
        }
    } else {
        match number_bound_outcome(expression, site) {
            Ok(v) => Ok(ChoiceValue::Number(v)),
            Err(e) => Err(e),
        }
    }
}

/// What reading inline choice `c` gives after the choices `parsed`.
pub open spec fn inline_choice_outcome(
    kind: OptionKind,
    parsed: Seq<CommandChoiceDescriptor>,
    c: int,
    choice: ChoiceArgs,
) -> Result<CommandChoiceDescriptor, (Seq<char>, Site)> {
    match choice.name {
        None => Err(("inline choices require `name = \"...\"`"@, Site::CallSite)),
        Some(name) => if !(1 <= name@.len() <= 100) {
            Err(("Discord choice names must contain between 1 and 100 characters"@, Site::ChoiceName(c as usize)))
        } else if exists|j: int| 0 <= j < parsed.len() && #[trigger] parsed[j].name@ == name@ {
            Err(("duplicate Discord choice name"@, Site::ChoiceName(c as usize)))
        } else {
            match choice.value {
                None => Err(("inline choices require `value = ...`"@, Site::ChoiceName(c as usize))),
                Some(expression) => match inline_value_outcome(kind, expression, Site::ChoiceValue(c as usize)) {
                    Err(e) => Err(e),
                    Ok(value) => if exists|j: int| 0 <= j < parsed.len() && choice_matches(#[trigger] parsed[j].value, value) {
                        Err(("duplicate Discord choice value"@, Site::ChoiceValue(c as usize)))
                    } else {
                        Ok(CommandChoiceDescriptor { name, value })
                    },
                },
            }
        },
    }
}

/// What reading the first `n` inline choices gives.
pub open spec fn inline_choices_prefix(kind: OptionKind, choices: Seq<ChoiceArgs>, n: int) -> Result<
    Seq<CommandChoiceDescriptor>,
    (Seq<char>, Site),
>
    decreases n,
{
    if n <= 0 {
        Ok(Seq::empty())
    } else {
        match inline_choices_prefix(kind, choices, n - 1) {
            Err(e) => Err(e),
            Ok(parsed) => match inline_choice_outcome(kind, parsed, n - 1, choices[n - 1]) {
                Err(e) => Err(e),
                Ok(choice) => Ok(parsed.push(choice)),
            },
        }
    }
}

proof fn lemma_inline_choices_error_persists(kind: OptionKind, choices: Seq<ChoiceArgs>, n: int, m: int)
    requires
        0 <= n <= m,
        inline_choices_prefix(kind, choices, n) is Err,
    ensures
        inline_choices_prefix(kind, choices, m) == inline_choices_prefix(kind, choices, n),
    decreases m - n,
{
    if n < m {
        lemma_inline_choices_error_persists(kind, choices, n, m - 1);
    }
}

/// Static choice sources as plain values.
pub enum ChoicesView {
    Absent,
    Inline(Seq<CommandChoiceDescriptor>),
    Typed,
}

impl View for ChoiceSource {
    type V = ChoicesView;

    open spec fn view(&self) -> ChoicesView {
        match self {
            ChoiceSource::Absent => ChoicesView::Absent,
            ChoiceSource::Inline(v) => ChoicesView::Inline(v@),
            ChoiceSource::Typed => ChoicesView::Typed,
        }
    }
}

/// What reading the inline choices of an option of `kind` gives.
pub open spec fn inline_choices_outcome(kind: OptionKind, choices: Seq<ChoiceArgs>) -> Result<ChoicesView, (Seq<char>, Site)> {
    if choices.len() == 0 {
        Ok(ChoicesView::Absent)
    } else if choices.len() > MAX_CHOICES {
        Err((
            "Discord command options support at most 25 choices"@,
            if choices[MAX_CHOICES as int].name is Some { Site::ChoiceName(MAX_CHOICES) } else { Site::CallSite },
        ))
    } else if !(kind == OptionKind::String || kind == OptionKind::Integer || kind == OptionKind::Number) {
        Err((
            "Discord choices are only supported for `String`, `i64`, and `f64` options"@,
            if choices[0].name is Some { Site::ChoiceName(0) } else { Site::CallSite },
        ))
    } else {
        match inline_choices_prefix(kind, choices, choices.len() as int) {
            Ok(parsed) => Ok(ChoicesView::Inline(parsed)),
            Err(e) => Err(e),
        }
    }
}

fn inline_value(kind: OptionKind, expression: &Expression, site: Site) -> (result: Result<ChoiceValue, SchemaError>)
    requires
        kind == OptionKind::String || kind == OptionKind::Integer || kind == OptionKind::Number,
    ensures
        reports_schema(result, inline_value_outcome(kind, *expression, site)),
{
    match kind {
        OptionKind::String => match expression {
            Expression::Literal(Literal::Str(s)) => {
                if s.unicode_len() > MAX_CHOICE_STRING_LENGTH {
                    return Err(schema_error("Discord string choice values must contain at most 100 characters", site));
                }
                Ok(ChoiceValue::String(s.clone()))
            },
            _ => Err(schema_error("string choices require string literal values", site)),
        },
        OptionKind::Integer => match parse_integer_bound(expression, site) {
            Ok(v) => Ok(ChoiceValue::Integer(v)),
            Err(e) => Err(e),
        },
        _ => match parse_number_bound(expression, site) {
            Ok(v) => Ok(ChoiceValue::Number(v)),
            Err(e) => Err(e),
        },
    }
}

#[verifier::loop_isolation(false)]
/// Reads the inline choices of an option of `kind`: at most 25, only on
/// String, Integer and Number options, each with a valid, unique name and a
/// unique value of the option's kind.
pub fn parse_inline_choices(kind: OptionKind, choices: &[ChoiceArgs]) -> (result: Result<ChoiceSource, SchemaError>)
    ensures
        match inline_choices_outcome(kind, choices@) {
            Ok(view) => result matches Ok(source) && source@ == view,
            Err((m, s)) => fails_with(result, m, s),
        },
{
    if choices.len() == 0 {
        return Ok(ChoiceSource::Absent);
    }
    if choices.len() > MAX_CHOICES {
        let site = if choices[MAX_CHOICES].name.is_some() {
            Site::ChoiceName(MAX_CHOICES)
        } else {
            Site::CallSite
        };
        return Err(schema_error("Discord command options support at most 25 choices", site));
    }
    if !(kind == OptionKind::String || kind == OptionKind::Integer || kind == OptionKind::Number) {
        let site = if choices[0].name.is_some() {
            Site::ChoiceName(0)
        } else {
            Site::CallSite
        };
        return Err(schema_error("Discord choices are only supported for `String`, `i64`, and `f64` options", site));
    }
    let mut parsed: Vec<CommandChoiceDescriptor> = Vec::new();
    let mut c: usize = 0;
    while c < choices.len()
        invariant
            c <= choices@.len() <= MAX_CHOICES,
            kind == OptionKind::String || kind == OptionKind::Integer || kind == OptionKind::Number,
            inline_choices_prefix(kind, choices@, c as int) == Ok::<Seq<CommandChoiceDescriptor>, (Seq<char>, Site)>(parsed@),
        decreases choices@.len() - c,
    {
        let choice = &choices[c];
        let name = match &choice.name {
            Some(name) => name,
            None => {
                proof {
                    lemma_inline_choices_error_persists(kind, choices@, c as int + 1, choices@.len() as int);
                }
                return Err(schema_error("inline choices require `name = \"...\"`", Site::CallSite));
            },
        };
        let length = name.unicode_len();
        if length < 1 || length > 100 {
            proof {
                lemma_inline_choices_error_persists(kind, choices@, c as int + 1, choices@.len() as int);
            }
            return Err(schema_error("Discord choice names must contain between 1 and 100 characters", Site::ChoiceName(c)));
        }
        let mut j: usize = 0;
        while j < parsed.len()
            invariant
                j <= parsed@.len(),
                forall|k: int| 0 <= k < j ==> #[trigger] parsed@[k].name@ != name@,
            decreases parsed@.len() - j,
        {
            if str_eq(parsed[j].name.as_str(), name.as_str()) {
                proof {
                    lemma_inline_choices_error_persists(kind, choices@, c as int + 1, choices@.len() as int);
                }
                return Err(schema_error("duplicate Discord choice name", Site::ChoiceName(c)));
            }
            j = j + 1;
        }
        let expression = match &choice.value {
            Some(e) => e,
            None => {
                proof {
                    lemma_inline_choices_error_persists(kind, choices@, c as int + 1, choices@.len() as int);
                }
                return Err(schema_error("inline choices require `value = ...`", Site::ChoiceName(c)));
            },
        };
        let value = match inline_value(kind, expression, Site::ChoiceValue(c)) {
            Ok(v) => v,
            Err(e) => {
                proof {
                    lemma_inline_choices_error_persists(kind, choices@, c as int + 1, choices@.len() as int);
                }
                return Err(e);
            },
        };
        let mut j: usize = 0;
        while j < parsed.len()
            invariant
                j <= parsed@.len(),
                forall|k: int| 0 <= k < j ==> !choice_matches(#[trigger] parsed@[k].value, value),
            decreases parsed@.len() - j,
        {
            if crate::choice::value_selects(&parsed[j].value, &value) {
                proof {
                    lemma_inline_choices_error_persists(kind, choices@, c as int + 1, choices@.len() as int);
                }
                return Err(schema_error("duplicate Discord choice value", Site::ChoiceValue(c)));
            }
            j = j + 1;
        }
        parsed.push(CommandChoiceDescriptor { name: name.clone(), value });
        c = c + 1;
    }
    Ok(ChoiceSource::Inline(parsed))
}

#[derive(Debug)]
/// How a parameter attribute is written.
pub enum AttributeMeta {
    /// `#[name]`.
    Path,
    /// `#[name(...)]`: the arguments of a choice list, or why its tokens do
    /// not form one.
    List(Result<Vec<ChoiceArg>, String>),
    /// `#[name = expression]`.
    NameValue(Expression),
}

#[derive(Debug)]
/// One attribute on a command parameter.
pub struct ParameterAttribute {
    /// The attribute's name when its path is a single identifier, else empty.
    pub name: String,
    pub meta: AttributeMeta,
}

#[derive(Debug)]
/// The framework attributes read from one parameter.
pub struct OptionAttributes {
    pub description: Option<String>,
    pub min: Option<Expression>,
    pub max: Option<Expression>,
    pub min_length: Option<Expression>,
    pub max_length: Option<Expression>,
    /// Path segments of the autocomplete handler.
    pub autocomplete: Option<Vec<String>>,
    /// Whether a bare `#[choice]` marks a typed choice option.
    pub typed_choice: bool,
    /// Inline `#[choice(...)]` lists, in order.
    pub inline_choices: Vec<ChoiceArgs>,
    /// Indices of the attributes that are not the framework's and stay on the parameter.
    pub retained: Vec<usize>,
}

/// The framework attributes read so far, as plain values.
pub struct AttributesView {
    pub description: Option<String>,
    pub min: Option<Expression>,
    pub max: Option<Expression>,
    pub min_length: Option<Expression>,
    pub max_length: Option<Expression>,
    pub autocomplete: Option<Vec<String>>,
    pub typed_choice: bool,
    pub inline_choices: Seq<ChoiceArgs>,
    pub retained: Seq<usize>,
}

impl View for OptionAttributes {
    type V = AttributesView;

    open spec fn view(&self) -> AttributesView {
        AttributesView {
            description: self.description,
            min: self.min,
            max: self.max,
            min_length: self.min_length,
            max_length: self.max_length,
            autocomplete: self.autocomplete,
            typed_choice: self.typed_choice,
            inline_choices: self.inline_choices@,
            retained: self.retained@,
        }
    }
}

/// Reads a `#[key = expression]` constraint into `slot`, once.
pub open spec fn constraint_step(
    slot: Option<Expression>,
    meta: AttributeMeta,
    expected: Seq<char>,
    duplicate: Seq<char>,
    site: Site,
) -> Result<Expression, (Seq<char>, Site)> {
    match meta {
        AttributeMeta::NameValue(e) => if slot is Some {
            Err((duplicate, site))
        } else {
            Ok(e)
        },
        _ => Err((expected, site)),
    }
}

/// What reading attribute `k` gives after the attributes read so far.
pub open spec fn attribute_step(state: AttributesView, k: int, attribute: ParameterAttribute) -> Result<
    AttributesView,
    (Seq<char>, Site),
> {
    let site = Site::Attribute(k as usize);
    let name = attribute.name@;
    if name == "description"@ {
        match attribute.meta {
            AttributeMeta::NameValue(Expression::Literal(Literal::Str(text))) => if state.description is Some {
                Err(("duplicate `#[description = ...]` attribute"@, site))
            } else {
                Ok(AttributesView { description: Some(text), ..state })
            },
            AttributeMeta::NameValue(_) => Err(("`#[description = ...]` requires a string literal"@, site)),
            _ => Err(("expected `#[description = ...]`"@, site)),
        }
    } else if name == "min"@ {
        match constraint_step(state.min, attribute.meta, "expected `#[min = ...]`"@, "duplicate `#[min = ...]` attribute"@, site) {
            Ok(e) => Ok(AttributesView { min: Some(e), ..state }),
            Err(e) => Err(e),
        }
    } else if name == "max"@ {
        match constraint_step(state.max, attribute.meta, "expected `#[max = ...]`"@, "duplicate `#[max = ...]` attribute"@, site) {
            Ok(e) => Ok(AttributesView { max: Some(e), ..state }),
            Err(e) => Err(e),
        }
    } else if name == "min_length"@ {
        match constraint_step(
            state.min_length,
            attribute.meta,
            "expected `#[min_length = ...]`"@,
            "duplicate `#[min_length = ...]` attribute"@,
            site,
        ) {
            Ok(e) => Ok(AttributesView { min_length: Some(e), ..state }),
            Err(e) => Err(e),
        }
    } else if name == "max_length"@ {
        match constraint_step(
            state.max_length,
            attribute.meta,
            "expected `#[max_length = ...]`"@,
            "duplicate `#[max_length = ...]` attribute"@,
            site,
        ) {
            Ok(e) => Ok(AttributesView { max_length: Some(e), ..state }),
            Err(e) => Err(e),
        }
    } else if name == "autocomplete"@ {
        match attribute.meta {
            AttributeMeta::NameValue(Expression::Path(Some(segments))) => if state.autocomplete is Some {
                Err(("duplicate `#[autocomplete = ...]` attribute"@, site))
            } else {
                Ok(AttributesView { autocomplete: Some(segments), ..state })
            },
            AttributeMeta::NameValue(_) => Err(("`#[autocomplete = ...]` requires a handler function path"@, site)),
            _ => Err(("expected `#[autocomplete = ...]`"@, site)),
        }
    } else if name == "choice"@ {
        match attribute.meta {
            AttributeMeta::Path => if state.typed_choice {
                Err(("duplicate bare `#[choice]` marker"@, site))
            } else {
                Ok(AttributesView { typed_choice: true, ..state })
            },
            AttributeMeta::List(Ok(args)) => match choice_args_prefix(args@, args@.len() as int) {
                Ok(read) => Ok(AttributesView { inline_choices: state.inline_choices.push(read), ..state }),
                Err(e) => Err(e),
            },
            AttributeMeta::List(Err(message)) => Err((message@, site)),
            AttributeMeta::NameValue(_) => Err(
                ("expected bare `#[choice]` or `#[choice(name = \"...\", value = ...)]`"@, site),
            ),
        }
    } else {
        Ok(AttributesView { retained: state.retained.push(k as usize), ..state })
    }
}

/// No framework attribute read yet.
pub open spec fn no_attributes() -> AttributesView {
    AttributesView {
        description: None,
        min: None,
        max: None,
        min_length: None,
        max_length: None,
        autocomplete: None,
        typed_choice: false,
        inline_choices: Seq::empty(),
        retained: Seq::empty(),
    }
}

/// What reading the first `n` attributes gives.
pub open spec fn attributes_prefix(attributes: Seq<ParameterAttribute>, n: int) -> Result<AttributesView, (Seq<char>, Site)>
    decreases n,
{
    if n <= 0 {
        Ok(no_attributes())
    } else {
        match attributes_prefix(attributes, n - 1) {
            Err(e) => Err(e),
            Ok(state) => attribute_step(state, n - 1, attributes[n - 1]),
        }
    }
}

proof fn lemma_attributes_error_persists(attributes: Seq<ParameterAttribute>, n: int, m: int)
    requires
        0 <= n <= m,
        attributes_prefix(attributes, n) is Err,
    ensures
        attributes_prefix(attributes, m) == attributes_prefix(attributes, n),
    decreases m - n,
{
    if n < m {
        lemma_attributes_error_persists(attributes, n, m - 1);
    }
}

fn read_constraint(slot: &Option<Expression>, meta: AttributeMeta, expected: &str, duplicate: &str, site: Site) -> (result:
    Result<Expression, SchemaError>)
    ensures
        reports_schema(result, constraint_step(*slot, meta, expected@, duplicate@, site)),
{
    match meta {
        AttributeMeta::NameValue(e) => {
            if slot.is_some() {
                return Err(schema_error(duplicate, site));
            }
            Ok(e)
        },
        _ => Err(schema_error(expected, site)),
    }
}

/// Reads the framework attributes of one parameter (`description`, `min`,
/// `max`, `min_length`, `max_length`, `autocomplete`, `choice`), each at most
/// once, and keeps every other attribute on the parameter.
pub fn take_option_attributes(attributes: Vec<ParameterAttribute>) -> (result: Result<OptionAttributes, SchemaError>)
    ensures
        match attributes_prefix(attributes@, attributes@.len() as int) {
            Ok(view) => result matches Ok(parsed) && parsed@ == view,
            Err((m, s)) => fails_with(result, m, s),
        },
{
    let ghost all = attributes@;
    let mut rest = attributes;
    let total = rest.len();
    let mut parsed = OptionAttributes {
        description: None,
        min: None,
        max: None,
        min_length: None,
        max_length: None,
        autocomplete: None,
        typed_choice: false,
        inline_choices: Vec::new(),
        retained: Vec::new(),
    };
    let mut k: usize = 0;
    while rest.len() > 0
        invariant
            all.len() == total,
            all == attributes@,
            k + rest@.len() == all.len(),
            rest@ == all.skip(k as int),
            attributes_prefix(all, k as int) == Ok::<AttributesView, (Seq<char>, Site)>(parsed@),
        decreases rest@.len(),
    {
        let attribute = rest.remove(0);
        assert(attribute == all[k as int]);
        let site = Site::Attribute(k);
        let ParameterAttribute { name, meta } = attribute;
        let step: Result<(), SchemaError> = if str_eq(name.as_str(), "description") {
            match meta {
                AttributeMeta::NameValue(Expression::Literal(Literal::Str(text))) => {
                    if parsed.description.is_some() {
                        Err(schema_error("duplicate `#[description = ...]` attribute", site))
                    } else {
                        parsed.description = Some(text);
                        Ok(())
                    }
                },
                AttributeMeta::NameValue(_) => Err(schema_error("`#[description = ...]` requires a string literal", site)),
                _ => Err(schema_error("expected `#[description = ...]`", site)),
            }
        } else if str_eq(name.as_str(), "min") {
            match read_constraint(&parsed.min, meta, "expected `#[min = ...]`", "duplicate `#[min = ...]` attribute", site) {
                Ok(e) => {
                    parsed.min = Some(e);
                    Ok(())
                },
                Err(e) => Err(e),
            }
        } else if str_eq(name.as_str(), "max") {
            match read_constraint(&parsed.max, meta, "expected `#[max = ...]`", "duplicate `#[max = ...]` attribute", site) {
                Ok(e) => {
                    parsed.max = Some(e);
                    Ok(())
                },
                Err(e) => Err(e),
            }
        } else if str_eq(name.as_str(), "min_length") {
            match read_constraint(
                &parsed.min_length,
                meta,
                "expected `#[min_length = ...]`",
                "duplicate `#[min_length = ...]` attribute",
                site,
            ) {
                Ok(e) => {
                    parsed.min_length = Some(e);
                    Ok(())
                },
                Err(e) => Err(e),
            }
        } else if str_eq(name.as_str(), "max_length") {
            match read_constraint(
                &parsed.max_length,
                meta,
                "expected `#[max_length = ...]`",
                "duplicate `#[max_length = ...]` attribute",
                site,
            ) {
                Ok(e) => {
                    parsed.max_length = Some(e);
                    Ok(())
                },
                Err(e) => Err(e),
            }
        } else if str_eq(name.as_str(), "autocomplete") {
            match meta {
                AttributeMeta::NameValue(Expression::Path(Some(segments))) => {
                    if parsed.autocomplete.is_some() {
                        Err(schema_error("duplicate `#[autocomplete = ...]` attribute", site))
                    } else {
                        parsed.autocomplete = Some(segments);
                        Ok(())
                    }
                },
                AttributeMeta::NameValue(_) => Err(
                    schema_error("`#[autocomplete = ...]` requires a handler function path", site),
                ),
                _ => Err(schema_error("expected `#[autocomplete = ...]`", site)),
            }
        } else if str_eq(name.as_str(), "choice") {
            match meta {
                AttributeMeta::Path => {
                    if parsed.typed_choice {
                        Err(schema_error("duplicate bare `#[choice]` marker", site))
                    } else {
                        parsed.typed_choice = true;
                        Ok(())
                    }
                },
                AttributeMeta::List(Ok(args)) => match parse_choice_args(args) {
                    Ok(read) => {
                        parsed.inline_choices.push(read);
                        Ok(())
                    },
                    Err(e) => Err(e),
                },
                AttributeMeta::List(Err(message)) => Err(SchemaError { message, site }),
                AttributeMeta::NameValue(_) => Err(
                    schema_error("expected bare `#[choice]` or `#[choice(name = \"...\", value = ...)]`", site),
                ),
            }
        } else {
            parsed.retained.push(k);
            Ok(())
        };
        match step {
            Ok(()) => {},
            Err(e) => {
                proof {
                    lemma_attributes_error_persists(all, k as int + 1, all.len() as int);
                }
                return Err(e);
            },
        }
        k = k + 1;
    }
    Ok(parsed)
}

/// The pattern of a command parameter.
pub enum ParameterPattern {
    /// A plain identifier (raw prefix removed), possibly with a `@ subpattern`.
    Ident { name: String, has_subpattern: bool },
    /// Any other pattern.
    Other,
}

/// One parameter of a command handler after its context parameter.
pub struct ParameterSpec {
    /// Whether the parameter is a `self` receiver.
    pub receiver: bool,
    pub pattern: ParameterPattern,
    pub ty: TypeShape,
    pub attributes: Vec<ParameterAttribute>,
}

#[derive(Debug)]
/// One validated command option parameter.
pub struct OptionParameter {
    pub name: String,
    pub description: String,
    pub required: bool,
    /// The option kind; `None` for a typed choice, whose kind its type gives.
    pub kind: Option<OptionKind>,
    pub choices: ChoiceSource,
    pub autocomplete: Option<Vec<String>>,
    pub min: Option<NumericValue>,
    pub max: Option<NumericValue>,
    pub min_length: Option<u32>,
    pub max_length: Option<u32>,
    /// Indices of the attributes that stay on the parameter.
    pub retained: Vec<usize>,
}

/// A validated option parameter as plain values.
pub struct ParameterView {
    pub name: String,
    pub description: String,
    pub required: bool,
    pub kind: Option<OptionKind>,
    pub choices: ChoicesView,
    pub autocomplete: Option<Vec<String>>,
    pub min: Option<NumericValue>,
    pub max: Option<NumericValue>,
    pub min_length: Option<u32>,
    pub max_length: Option<u32>,
    pub retained: Seq<usize>,
}

impl View for OptionParameter {
    type V = ParameterView;

    open spec fn view(&self) -> ParameterView {
        ParameterView {
            name: self.name,
            description: self.description,
            required: self.required,
            kind: self.kind,
            choices: self.choices@,
            autocomplete: self.autocomplete,
            min: self.min,
            max: self.max,
            min_length: self.min_length,
            max_length: self.max_length,
            retained: self.retained@,
        }
    }
}

pub open spec fn choice_capable(kind: OptionKind) -> bool {
    kind == OptionKind::String || kind == OptionKind::Integer || kind == OptionKind::Number
}

/// What validating a scalar (not typed-choice) parameter gives, once its
/// name, attributes and description were read.
pub open spec fn scalar_parameter_outcome(name: String, description: String, a: AttributesView, ty: TypeShape) -> Result<
    ParameterView,
    (Seq<char>, Site),
> {
    match option_type_outcome(ty) {
        Err(e) => Err(e),
        Ok((kind, required)) => if a.autocomplete is Some && !choice_capable(kind) {
            Err(("autocomplete is only supported for `String`, `i64`, and `f64` options"@, Site::Ident))
        } else {
            match inline_choices_outcome(kind, a.inline_choices) {
                Err(e) => Err(e),
                Ok(choices) => match numeric_bounds_outcome(kind, a.min, a.max) {
                    Err(e) => Err(e),
                    Ok((min, max)) => match string_bounds_outcome(kind, a.min_length, a.max_length) {
                        Err(e) => Err(e),
                        Ok((min_length, max_length)) => Ok(
                            ParameterView {
                                name,
                                description,
                                required,
                                kind: Some(kind),
                                choices,
                                autocomplete: a.autocomplete,
                                min,
                                max,
                                min_length,
                                max_length,
                                retained: a.retained,
                            },
                        ),
                    },
                },
            }
        },
    }
}

/// What validating one command parameter gives.
pub open spec fn parameter_outcome(param: ParameterSpec) -> Result<ParameterView, (Seq<char>, Site)> {
    if param.receiver {
        Err(("slash-command options must be typed function parameters"@, Site::Argument))
    } else {
        match param.pattern {
            ParameterPattern::Other => Err(("slash-command options require simple identifier parameter patterns"@, Site::Pattern)),
            ParameterPattern::Ident { name, has_subpattern } => if has_subpattern {
                Err(("slash-command options require simple identifier parameter patterns"@, Site::Pattern))
            } else {
                match name_outcome(name@) {
                    Err(e) => Err(e),
                    Ok(()) => match attributes_prefix(param.attributes@, param.attributes@.len() as int) {
                        Err(e) => Err(e),
                        Ok(a) => match a.description {
                            None => Err(("slash-command options require `#[description = \"...\"]`"@, Site::Ident)),
                            Some(description) => match description_outcome(description@) {
                                Err(e) => Err(e),
                                Ok(()) => if a.typed_choice && a.inline_choices.len() > 0 {
                                    Err(("a typed `#[choice]` option cannot also declare inline choices"@, Site::Ident))
                                } else if a.autocomplete is Some && (a.typed_choice || a.inline_choices.len() > 0) {
                                    Err(("autocomplete cannot be combined with static command choices"@, Site::Ident))
                                } else if a.typed_choice {
                                    match typed_choice_outcome(param.ty) {
                                        Err(e) => Err(e),
                                        Ok(required) => if a.min is Some || a.max is Some || a.min_length is Some
                                            || a.max_length is Some {
                                            Err(
                                                (
                                                    "typed `CommandChoice` options cannot declare scalar min/max constraints"@,
                                                    Site::Ident,
                                                ),
                                            )
                                        } else {
                                            Ok(
                                                ParameterView {
                                                    name,
                                                    description,
                                                    required,
                                                    kind: None,
                                                    choices: ChoicesView::Typed,
                                                    autocomplete: None,
                                                    min: None,
                                                    max: None,
                                                    min_length: None,
                                                    max_length: None,
                                                    retained: a.retained,
                                                },
                                            )
                                        },
                                    }
                                } else {
                                    scalar_parameter_outcome(name, description, a, param.ty)
                                },
                            },
                        },
                    },
                }
            },
        }
    }
}

fn scalar_parameter(name: String, description: String, attributes: OptionAttributes, ty: &TypeShape) -> (result: Result<
    OptionParameter,
    SchemaError,
>)
    ensures
        match scalar_parameter_outcome(name, description, attributes@, *ty) {
            Ok(view) => result matches Ok(p) && p@ == view,
            Err((m, s)) => fails_with(result, m, s),
        },
{
    let (kind, required) = match option_type(ty) {
        Ok(t) => t,
        Err(e) => {
            return Err(e);
        },
    };
    if attributes.autocomplete.is_some() && !(kind == OptionKind::String || kind == OptionKind::Integer
        || kind == OptionKind::Number) {
        return Err(schema_error("autocomplete is only supported for `String`, `i64`, and `f64` options", Site::Ident));
    }
    let choices = match parse_inline_choices(kind, attributes.inline_choices.as_slice()) {
        Ok(c) => c,
        Err(e) => {
            return Err(e);
        },
    };
    let (min, max) = match numeric_bounds(kind, attributes.min.as_ref(), attributes.max.as_ref()) {
        Ok(b) => b,
        Err(e) => {
            return Err(e);
        },
    };
    let (min_length, max_length) = match string_bounds(kind, attributes.min_length.as_ref(), attributes.max_length.as_ref()) {
        Ok(b) => b,
        Err(e) => {
            return Err(e);
        },
    };
    Ok(
        OptionParameter {
            name,
            description,
            required,
            kind: Some(kind),
            choices,
            autocomplete: attributes.autocomplete,
            min,
            max,
            min_length,
            max_length,
            retained: attributes.retained,
        },
    )
}

/// Validates one command parameter and reads its option schema: a typed,
/// simply named parameter with a valid name and description, a supported
/// type, and attributes that fit its kind.
pub fn option_parameter(pattern: &CompiledPattern, param: ParameterSpec) -> (result: Result<OptionParameter, SchemaError>)
    requires
        pattern.spec_pattern() == command_name_pattern(),
    ensures
        match parameter_outcome(param) {
            Ok(view) => result matches Ok(p) && p@ == view,
            Err((m, s)) => fails_with(result, m, s),
        },
{
    let ParameterSpec { receiver, pattern: parameter_pattern, ty, attributes } = param;
    if receiver {
        return Err(schema_error("slash-command options must be typed function parameters", Site::Argument));
    }
    let name = match parameter_pattern {
        ParameterPattern::Ident { name, has_subpattern } => {
            if has_subpattern {
                return Err(schema_error("slash-command options require simple identifier parameter patterns", Site::Pattern));
            }
            name
        },
        ParameterPattern::Other => {
            return Err(schema_error("slash-command options require simple identifier parameter patterns", Site::Pattern));
        },
    };
    match validate_name(pattern, name.as_str()) {
        Ok(()) => {},
        Err(e) => {
            return Err(e);
        },
    }
    let attributes = match take_option_attributes(attributes) {
        Ok(a) => a,
        Err(e) => {
            return Err(e);
        },
    };
    let description = match &attributes.description {
        Some(d) => d.clone(),
        None => {
            return Err(schema_error("slash-command options require `#[description = \"...\"]`", Site::Ident));
        },
    };
    match validate_description(description.as_str()) {
        Ok(()) => {},
        Err(e) => {
            return Err(e);
        },
    }
    if attributes.typed_choice && attributes.inline_choices.len() > 0 {
        return Err(schema_error("a typed `#[choice]` option cannot also declare inline choices", Site::Ident));
    }
    if attributes.autocomplete.is_some() && (attributes.typed_choice || attributes.inline_choices.len() > 0) {
        return Err(schema_error("autocomplete cannot be combined with static command choices", Site::Ident));
    }
    if attributes.typed_choice {
        let required = match validate_typed_choice_type(&ty) {
            Ok(r) => r,
            Err(e) => {
                return Err(e);
            },
        };
        if attributes.min.is_some() || attributes.max.is_some() || attributes.min_length.is_some()
            || attributes.max_length.is_some() {
            return Err(schema_error("typed `CommandChoice` options cannot declare scalar min/max constraints", Site::Ident));
        }
        return Ok(
            OptionParameter {
                name,
                description,
                required,
                kind: None,
                choices: ChoiceSource::Typed,
                autocomplete: None,
                min: None,
                max: None,
                min_length: None,
                max_length: None,
                retained: attributes.retained,
            },
        );
    }
    scalar_parameter(name, description, attributes, &ty)
}

#[derive(Debug)]
/// A schema error of one parameter, by its position after the context parameter.
pub struct ParameterError {
    pub parameter: usize,
    pub error: SchemaError,
}

/// What validating the first `n` parameters gives: their views and whether an
/// optional one was seen, or the failing parameter and its error.
pub open spec fn parameters_prefix(params: Seq<ParameterSpec>, n: int) -> Result<(Seq<ParameterView>, bool), (int, Seq<char>, Site)>
    decreases n,
{
    if n <= 0 {
        Ok((Seq::empty(), false))
    } else {
        match parameters_prefix(params, n - 1) {
            Err(e) => Err(e),
            Ok((views, saw_optional)) => match parameter_outcome(params[n - 1]) {
                Err((m, s)) => Err((n - 1, m, s)),
                Ok(view) => if view.required && saw_optional {
                    Err((
                        n - 1,
                        "required slash-command options must appear before optional `Option<T>` parameters"@,
                        Site::Ident,
                    ))
                } else {
                    Ok((views.push(view), saw_optional || !view.required))
                },
            },
        }
    }
}

proof fn lemma_parameters_error_persists(params: Seq<ParameterSpec>, n: int, m: int)
    requires
        0 <= n <= m,
        parameters_prefix(params, n) is Err,
    ensures
        parameters_prefix(params, m) == parameters_prefix(params, n),
    decreases m - n,
{
    if n < m {
        lemma_parameters_error_persists(params, n, m - 1);
    }
}

/// Validates every option parameter of a command: at most 25, each valid, and
/// required ones before optional ones.
pub fn option_parameters(pattern: &CompiledPattern, params: Vec<ParameterSpec>) -> (result: Result<
    Vec<OptionParameter>,
    ParameterError,
>)
    requires
        pattern.spec_pattern() == command_name_pattern(),
    ensures
        params@.len() > MAX_COMMAND_OPTIONS ==> (result matches Err(e) && e.parameter == 0 && e.error.site == Site::Inputs
            && e.error.message@ == "Discord chat-input commands support at most 25 options"@),
        params@.len() <= MAX_COMMAND_OPTIONS ==> match parameters_prefix(params@, params@.len() as int) {
            Ok((views, _)) => result matches Ok(options) && options@.len() == views.len() && forall|i: int|
                0 <= i < views.len() ==> #[trigger] options@[i]@ == views[i],
            Err((index, m, s)) => result matches Err(e) && e.parameter == index && e.error.message@ == m
                && e.error.site == s,
        },
{
    if params.len() > MAX_COMMAND_OPTIONS {
        return Err(
            ParameterError {
                parameter: 0,
                error: schema_error("Discord chat-input commands support at most 25 options", Site::Inputs),
            },
        );
    }
    let ghost all = params@;
    let mut rest = params;
    let total = rest.len();
    let mut options: Vec<OptionParameter> = Vec::new();
    let mut saw_optional = false;
    let mut i: usize = 0;
    while rest.len() > 0
        invariant
            pattern.spec_pattern() == command_name_pattern(),
            all.len() == total,
            all == params@,
            all.len() <= MAX_COMMAND_OPTIONS,
            i + rest@.len() == all.len(),
            rest@ == all.skip(i as int),
            parameters_prefix(all, i as int) matches Ok((views, saw)) && saw == saw_optional && options@.len()
                == views.len() && forall|j: int| 0 <= j < views.len() ==> #[trigger] options@[j]@ == views[j],
        decreases rest@.len(),
    {
        let param = rest.remove(0);
        assert(param == all[i as int]);
        let option = match option_parameter(pattern, param) {
            Ok(o) => o,
            Err(error) => {
                proof {
                    lemma_parameters_error_persists(all, i as int + 1, all.len() as int);
                }
                return Err(ParameterError { parameter: i, error });
            },
        };
        if option.required && saw_optional {
            proof {
                lemma_parameters_error_persists(all, i as int + 1, all.len() as int);
            }
            return Err(
                ParameterError {
                    parameter: i,
                    error: schema_error(
                        "required slash-command options must appear before optional `Option<T>` parameters",
                        Site::Ident,
                    ),
                },
            );
        }
        saw_optional = saw_optional || !option.required;
        options.push(option);
        i = i + 1;
    }
    Ok(options)
}

fn clone_choices(choices: &Vec<CommandChoiceDescriptor>) -> (copy: Vec<CommandChoiceDescriptor>)
    ensures
        copy@ == choices@,
{
    let mut copy: Vec<CommandChoiceDescriptor> = Vec::new();
    let mut i: usize = 0;
    while i < choices.len()
        invariant
            i <= choices@.len(),
            copy@ == choices@.take(i as int),
        decreases choices@.len() - i,
    {
        copy.push(crate::command::clone_choice(&choices[i]));
        assert(copy@ =~= choices@.take(i as int + 1));
        i = i + 1;
    }
    assert(choices@.take(choices@.len() as int) =~= choices@);
    copy
}

/// Builds the registered option descriptor of a validated parameter. A typed
/// choice option takes its kind and choices from its `CommandChoice` type.
pub fn option_descriptor(
    parameter: &OptionParameter,
    typed_kind: OptionKind,
    typed_choices: Vec<CommandChoiceDescriptor>,
) -> (descriptor: CommandOptionDescriptor)
    ensures
        descriptor.name@ == parameter.name@,
        descriptor.description@ == parameter.description@,
        descriptor.kind == match parameter.kind {
            Some(kind) => kind,
            None => typed_kind,
        },
        descriptor.required == parameter.required,
        descriptor.choices@ == match parameter.choices@ {
            ChoicesView::Absent => Seq::empty(),
            ChoicesView::Inline(choices) => choices,
            ChoicesView::Typed => typed_choices@,
        },
        descriptor.min_value == parameter.min,
        descriptor.max_value == parameter.max,
        descriptor.min_length == parameter.min_length,
        descriptor.max_length == parameter.max_length,
        descriptor.autocomplete == (parameter.autocomplete is Some),
{
    let kind = match parameter.kind {
        Some(kind) => kind,
        None => typed_kind,
    };
    let mut descriptor = CommandOptionDescriptor::new(
        parameter.name.as_str(),
        parameter.description.as_str(),
        kind,
        parameter.required,
    );
    descriptor = match &parameter.choices {
        ChoiceSource::Absent => descriptor,
        ChoiceSource::Inline(choices) => descriptor.with_choices(clone_choices(choices)),
        ChoiceSource::Typed => descriptor.with_choices(typed_choices),
    };
    if let Some(min) = parameter.min {
        descriptor = descriptor.min_value(min);
    }
    if let Some(max) = parameter.max {
        descriptor = descriptor.max_value(max);
    }
    if let Some(value) = parameter.min_length {
        descriptor = descriptor.min_length(value);
    }
    if let Some(value) = parameter.max_length {
        descriptor = descriptor.max_length(value);
    }
    if parameter.autocomplete.is_some() {
        descriptor = descriptor.autocomplete();
    }
    descriptor
}

/// Every accepted parameter list puts its required options before its
/// optional ones, as Discord's schema demands.
pub proof fn accepted_parameters_put_required_first(params: Seq<ParameterSpec>, n: int)
    requires
        0 <= n <= params.len(),
        parameters_prefix(params, n) is Ok,
    ensures
        ({
            let (views, saw_optional) = parameters_prefix(params, n)->Ok_0;
            &&& views.len() == n
            &&& saw_optional == exists|k: int| 0 <= k < views.len() && !(#[trigger] views[k]).required
            &&& forall|i: int, j: int| 0 <= i < j < views.len() && (#[trigger] views[j]).required ==> (#[trigger] views[i]).required
        }),
    decreases n,
{
    if n > 0 {
        accepted_parameters_put_required_first(params, n - 1);
        let (views, saw) = parameters_prefix(params, n - 1)->Ok_0;
        let view = parameter_outcome(params[n - 1])->Ok_0;
        let next = views.push(view);
        assert forall|i: int, j: int| 0 <= i < j < next.len() && (#[trigger] next[j]).required implies (#[trigger] next[i]).required by {
            if j == next.len() - 1 {
                if !next[i].required {
                    assert(!views[i].required);
                }
            }
        }
        if !view.required {
            assert(!next[views.len() as int].required);
        }
        if saw {
            let k = choose|k: int| 0 <= k < views.len() && !(#[trigger] views[k]).required;
            assert(!next[k].required);
        }
        if exists|k: int| 0 <= k < next.len() && !(#[trigger] next[k]).required {
            let k = choose|k: int| 0 <= k < next.len() && !(#[trigger] next[k]).required;
            if k < views.len() {
                assert(!views[k].required);
            }
        }
    }
}

/// An accepted option never combines autocomplete with static choices, and
/// only String, Integer and Number options are completed.
pub proof fn autocomplete_excludes_static_choices(param: ParameterSpec)
    requires
        parameter_outcome(param) is Ok,
    ensures
        parameter_outcome(param)->Ok_0.autocomplete is Some ==> {
            &&& parameter_outcome(param)->Ok_0.choices is Absent
            &&& parameter_outcome(param)->Ok_0.kind matches Some(kind) && choice_capable(kind)
        },
{
}

} // verus!
