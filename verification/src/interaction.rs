use vstd::prelude::*;
use crate::command::{ChoiceValue, CommandChoiceDescriptor, OptionKind};
use crate::error::Error;
use crate::text::str_eq;

verus! {

/// Value submitted for one scalar option.
#[derive(Debug, Clone, PartialEq, Eq)]
pub enum SubmittedValue {
    String(String),
    Integer(i64),
    Boolean(bool),
    /// A double-precision number given by its IEEE-754 bit pattern.
    Number(u64),
}

/// One option of a submitted chat-input command, as Discord sends it.
#[derive(Debug)]
pub struct SubmittedOption {
    pub name: String,
    pub kind: OptionKind,
    pub value: Option<SubmittedValue>,
    pub options: Vec<SubmittedOption>,
    pub focused: Option<bool>,
}

/// The index of the first option named `name` in `options[i..]`, if any.
pub open spec fn find_named(options: Seq<SubmittedOption>, name: Seq<char>, i: int) -> Option<int>
    decreases options.len() - i,
{
    if i < 0 || i >= options.len() {
        None
    } else if options[i].name@ == name {
        Some(i)
    } else {
        find_named(options, name, i + 1)
    }
}

pub proof fn lemma_find_named(options: Seq<SubmittedOption>, name: Seq<char>, i: int)
    requires
        0 <= i,
    ensures
        match find_named(options, name, i) {
            Some(k) => i <= k < options.len() && options[k].name@ == name && forall|j: int|
                i <= j < k ==> #[trigger] options[j].name@ != name,
            None => forall|j: int| i <= j < options.len() ==> #[trigger] options[j].name@ != name,
        },
    decreases options.len() - i,
{
    if i < options.len() && options[i].name@ != name {
        lemma_find_named(options, name, i + 1);
    }
}

/// Submitted scalar options for one resolved command path.
pub struct CommandOptions<'a> {
    pub options: &'a [SubmittedOption],
}

/// Why a typed extraction failed.
pub enum ExtractionFailure {
    /// No option of that name was submitted.
    Missing,
    /// The option had another kind or value shape than the named Rust type.
    Invalid(Seq<char>),
    /// The value is not among the registered choices.
    NotAChoice,
}

/// Whether `result` reports the expected extraction outcome for option `name`.
pub open spec fn extraction_reported<T>(
    result: Result<T, Error>,
    expected: Result<T, ExtractionFailure>,
    name: Seq<char>,
) -> bool {
    match expected {
        Ok(v) => result == Ok::<T, Error>(v),
        Err(ExtractionFailure::Missing) => result matches Err(Error::MissingOption(n)) && n@ == name,
        Err(ExtractionFailure::Invalid(t)) => result matches Err(Error::InvalidOption { name: n, expected: e })
            && n@ == name && e@ == t,
        Err(ExtractionFailure::NotAChoice) => result matches Err(Error::InvalidChoice { name: n }) && n@ == name,
    }
}

/// The option named `name` in the scope, if submitted.
pub open spec fn named_option(options: Seq<SubmittedOption>, name: Seq<char>) -> Option<SubmittedOption> {
    match find_named(options, name, 0) {
        Some(k) => Some(options[k]),
        None => None,
    }
}

impl<'a> CommandOptions<'a> {
    /// Creates an option view over an already-resolved leaf option slice.
    pub fn from_slice(options: &'a [SubmittedOption]) -> (view: Self)
        ensures
            view.options@ == options@,
    {
        CommandOptions { options }
    }

    /// Returns a submitted option by its registered name.
    pub fn get(&self, name: &str) -> (option: Option<&'a SubmittedOption>)
        ensures
            match option {
                Some(o) => named_option(self.options@, name@) == Some(*o),
                None => named_option(self.options@, name@) is None,
            },
    {
        let mut i: usize = 0;
        while i < self.options.len()
            invariant
                i <= self.options@.len(),
                find_named(self.options@, name@, 0) == find_named(self.options@, name@, i as int),
            decreases self.options@.len() - i,
        {
            if str_eq(self.options[i].name.as_str(), name) {
                return Some(&self.options[i]);
            }
            i = i + 1;
        }
        None
    }
}

/// The outcome of reading a required option of `kind` whose value has the
/// shape that `shape` accepts.
pub open spec fn required_value(
    options: Seq<SubmittedOption>,
    name: Seq<char>,
    kind: OptionKind,
    expected: Seq<char>,
) -> Result<SubmittedValue, ExtractionFailure> {
    match named_option(options, name) {
        None => Err(ExtractionFailure::Missing),
        Some(o) => if o.kind != kind {
            Err(ExtractionFailure::Invalid(expected))
        } else {
            match o.value {
                Some(v) => Ok(v),
                None => Err(ExtractionFailure::Invalid(expected)),
            }
        },
    }
}

fn required_value_of(options: &CommandOptions, name: &str, kind: OptionKind, expected: &str) -> (result:
    Result<SubmittedValue, Error>)
    ensures
        extraction_reported(result, required_value(options.options@, name@, kind, expected@), name@),
{
    match options.get(name) {
        None => Err(Error::MissingOption(name.to_owned())),
        Some(option) => {
            if option.kind != kind {
                return Err(Error::InvalidOption { name: name.to_owned(), expected: expected.to_owned() });
            }
            match &option.value {
                None => Err(Error::InvalidOption { name: name.to_owned(), expected: expected.to_owned() }),
                Some(value) => Ok(clone_value(value)),
            }
        },
    }
}

/// Copies a submitted value.
pub fn clone_value(value: &SubmittedValue) -> (copy: SubmittedValue)
    ensures
        copy == *value,
{
    match value {
        SubmittedValue::String(s) => SubmittedValue::String(s.clone()),
        SubmittedValue::Integer(i) => SubmittedValue::Integer(*i),
        SubmittedValue::Boolean(b) => SubmittedValue::Boolean(*b),
        SubmittedValue::Number(bits) => SubmittedValue::Number(*bits),
    }
}

/// Extraction outcome of a required option whose value is one `SubmittedValue`
/// shape, mapped by `project` (which gives `None` for any other shape).
pub open spec fn projected<T>(
    options: Seq<SubmittedOption>,
    name: Seq<char>,
    kind: OptionKind,
    expected: Seq<char>,
    project: spec_fn(SubmittedValue) -> Option<T>,
) -> Result<T, ExtractionFailure> {
    match required_value(options, name, kind, expected) {
        Ok(v) => match project(v) {
            Some(t) => Ok(t),
            None => Err(ExtractionFailure::Invalid(expected)),
        },
        Err(f) => Err(f),
    }
}

/// A double-precision number held as its IEEE-754 bit pattern.
#[derive(Debug, Clone, Copy, PartialEq, Eq, Structural)]
pub struct Number {
    pub bits: u64,
}

/// A Discord user snowflake.
#[derive(Debug, Clone, Copy, PartialEq, Eq, Structural)]
pub struct UserId {
    pub id: u64,
}

/// A Discord channel snowflake.
#[derive(Debug, Clone, Copy, PartialEq, Eq, Structural)]
pub struct ChannelId {
    pub id: u64,
}

/// A Discord role snowflake.
#[derive(Debug, Clone, Copy, PartialEq, Eq, Structural)]
pub struct RoleId {
    pub id: u64,
}

/// A Discord attachment snowflake.
#[derive(Debug, Clone, Copy, PartialEq, Eq, Structural)]
pub struct AttachmentId {
    pub id: u64,
}

/// Rust type that can be extracted from a Discord chat-input command option.
pub trait CommandOption: Sized {
    /// Discord option kind represented by this Rust type; left unspecified
    /// for an implementation that does not define it.
    open spec fn spec_kind() -> OptionKind {
        vstd::pervasive::arbitrary()
    }

    /// What extracting this type from option `name` gives; left unspecified
    /// for an implementation that does not define it.
    open spec fn outcome(options: Seq<SubmittedOption>, name: Seq<char>) -> Result<Self, ExtractionFailure> {
        vstd::pervasive::arbitrary()
    }

    /// Discord option kind represented by this Rust type.
    fn kind() -> (kind: OptionKind)
        ensures
            kind == Self::spec_kind(),
    ;

    /// Extracts this value from one submitted option name.
    fn extract(options: &CommandOptions, name: &str) -> (result: Result<Self, Error>)
        ensures
            extraction_reported(result, Self::outcome(options.options@, name@), name@),
    ;
}

pub open spec fn as_string(v: SubmittedValue) -> Option<String> {
    match v {
        SubmittedValue::String(s) => Some(s),
        _ => None,
    }
}

pub open spec fn as_bool(v: SubmittedValue) -> Option<bool> {
    match v {
        SubmittedValue::Boolean(b) => Some(b),
        _ => None,
    }
}

pub open spec fn as_integer(v: SubmittedValue) -> Option<i64> {
    match v {
        SubmittedValue::Integer(i) => Some(i),
        _ => None,
    }
}

pub open spec fn as_number(v: SubmittedValue) -> Option<Number> {
    match v {
        SubmittedValue::Number(bits) => Some(Number { bits }),
        _ => None,
    }
}

/// A snowflake submitted as a decimal string.
pub open spec fn as_snowflake(v: SubmittedValue) -> Option<u64> {
    match v {
        SubmittedValue::String(s) => match parse_decimal(s@) {
            Some(n) => if n <= u64::MAX { Some(n as u64) } else { None },
            None => None,
        },
        _ => None,
    }
}

fn invalid(name: &str, expected: &str) -> (e: Error)
    ensures
        e matches Error::InvalidOption { name: n, expected: x } && n@ == name@ && x@ == expected@,
{
    Error::InvalidOption { name: name.to_owned(), expected: expected.to_owned() }
}

impl CommandOption for String {
    open spec fn spec_kind() -> OptionKind {
        OptionKind::String
    }

    open spec fn outcome(options: Seq<SubmittedOption>, name: Seq<char>) -> Result<String, ExtractionFailure> {
        projected(options, name, OptionKind::String, "String"@, |v: SubmittedValue| as_string(v))
    }

    fn kind() -> (kind: OptionKind) {
        OptionKind::String
    }

    fn extract(options: &CommandOptions, name: &str) -> (result: Result<String, Error>) {
        match required_value_of(options, name, OptionKind::String, "String") {
            Ok(SubmittedValue::String(value)) => Ok(value),
            Ok(_) => Err(invalid(name, "String")),
            Err(e) => Err(e),
        }
    }
}

impl CommandOption for bool {
    open spec fn spec_kind() -> OptionKind {
        OptionKind::Boolean
    }

    open spec fn outcome(options: Seq<SubmittedOption>, name: Seq<char>) -> Result<bool, ExtractionFailure> {
        projected(options, name, OptionKind::Boolean, "bool"@, |v: SubmittedValue| as_bool(v))
    }

    fn kind() -> (kind: OptionKind) {
        OptionKind::Boolean
    }

    fn extract(options: &CommandOptions, name: &str) -> (result: Result<bool, Error>) {
        match required_value_of(options, name, OptionKind::Boolean, "bool") {
            Ok(SubmittedValue::Boolean(value)) => Ok(value),
            Ok(_) => Err(invalid(name, "bool")),
            Err(e) => Err(e),
        }
    }
}

impl CommandOption for i64 {
    open spec fn spec_kind() -> OptionKind {
        OptionKind::Integer
    }

    open spec fn outcome(options: Seq<SubmittedOption>, name: Seq<char>) -> Result<i64, ExtractionFailure> {
        projected(options, name, OptionKind::Integer, "i64"@, |v: SubmittedValue| as_integer(v))
    }

    fn kind() -> (kind: OptionKind) {
        OptionKind::Integer
    }

    fn extract(options: &CommandOptions, name: &str) -> (result: Result<i64, Error>) {
        match required_value_of(options, name, OptionKind::Integer, "i64") {
            Ok(SubmittedValue::Integer(value)) => Ok(value),
            Ok(_) => Err(invalid(name, "i64")),
            Err(e) => Err(e),
        }
    }
}

impl CommandOption for Number {
    open spec fn spec_kind() -> OptionKind {
        OptionKind::Number
    }

    open spec fn outcome(options: Seq<SubmittedOption>, name: Seq<char>) -> Result<Number, ExtractionFailure> {
        projected(options, name, OptionKind::Number, "f64"@, |v: SubmittedValue| as_number(v))
    }

    fn kind() -> (kind: OptionKind) {
        OptionKind::Number
    }

    fn extract(options: &CommandOptions, name: &str) -> (result: Result<Number, Error>) {
        match required_value_of(options, name, OptionKind::Number, "f64") {
            Ok(SubmittedValue::Number(bits)) => Ok(Number { bits }),
            Ok(_) => Err(invalid(name, "f64")),
            Err(e) => Err(e),
        }
    }
}

fn extract_snowflake(options: &CommandOptions, name: &str, kind: OptionKind, expected: &str) -> (result: Result<u64, Error>)
    ensures
        extraction_reported(
            result,
            projected(options.options@, name@, kind, expected@, |v: SubmittedValue| as_snowflake(v)),
            name@,
        ),
{
    match required_value_of(options, name, kind, expected) {
        Ok(SubmittedValue::String(value)) => match parse_u64(value.as_str()) {
            Some(id) => Ok(id),
            None => Err(invalid(name, expected)),
        },
        Ok(_) => Err(invalid(name, expected)),
        Err(e) => Err(e),
    }
}

impl CommandOption for UserId {
    open spec fn spec_kind() -> OptionKind {
        OptionKind::User
    }

    open spec fn outcome(options: Seq<SubmittedOption>, name: Seq<char>) -> Result<UserId, ExtractionFailure> {
        match projected(options, name, OptionKind::User, "gloamwire::model::UserId"@, |v: SubmittedValue| as_snowflake(v)) {
            Ok(id) => Ok(UserId { id }),
            Err(f) => Err(f),
        }
    }

    fn kind() -> (kind: OptionKind) {
        OptionKind::User
    }

    fn extract(options: &CommandOptions, name: &str) -> (result: Result<UserId, Error>) {
        match extract_snowflake(options, name, OptionKind::User, "gloamwire::model::UserId") {
            Ok(id) => Ok(UserId { id }),
            Err(e) => Err(e),
        }
    }
}

impl CommandOption for ChannelId {
    open spec fn spec_kind() -> OptionKind {
        OptionKind::Channel
    }

    open spec fn outcome(options: Seq<SubmittedOption>, name: Seq<char>) -> Result<ChannelId, ExtractionFailure> {
        match projected(options, name, OptionKind::Channel, "gloamwire::model::ChannelId"@, |v: SubmittedValue| as_snowflake(v)) {
            Ok(id) => Ok(ChannelId { id }),
            Err(f) => Err(f),
        }
    }

    fn kind() -> (kind: OptionKind) {
        OptionKind::Channel
    }

    fn extract(options: &CommandOptions, name: &str) -> (result: Result<ChannelId, Error>) {
        match extract_snowflake(options, name, OptionKind::Channel, "gloamwire::model::ChannelId") {
            Ok(id) => Ok(ChannelId { id }),
            Err(e) => Err(e),
        }
    }
}

impl CommandOption for RoleId {
    open spec fn spec_kind() -> OptionKind {
        OptionKind::Role
    }

    open spec fn outcome(options: Seq<SubmittedOption>, name: Seq<char>) -> Result<RoleId, ExtractionFailure> {
        match projected(options, name, OptionKind::Role, "gloamwire::model::RoleId"@, |v: SubmittedValue| as_snowflake(v)) {
            Ok(id) => Ok(RoleId { id }),
            Err(f) => Err(f),
        }
    }

    fn kind() -> (kind: OptionKind) {
        OptionKind::Role
    }

    fn extract(options: &CommandOptions, name: &str) -> (result: Result<RoleId, Error>) {
        match extract_snowflake(options, name, OptionKind::Role, "gloamwire::model::RoleId") {
            Ok(id) => Ok(RoleId { id }),
            Err(e) => Err(e),
        }
    }
}

impl CommandOption for AttachmentId {
    open spec fn spec_kind() -> OptionKind {
        OptionKind::Attachment
    }

    open spec fn outcome(options: Seq<SubmittedOption>, name: Seq<char>) -> Result<AttachmentId, ExtractionFailure> {
        match projected(options, name, OptionKind::Attachment, "gloamwire::model::AttachmentId"@, |v: SubmittedValue| as_snowflake(v)) {
            Ok(id) => Ok(AttachmentId { id }),
            Err(f) => Err(f),
        }
    }

    fn kind() -> (kind: OptionKind) {
        OptionKind::Attachment
    }

    fn extract(options: &CommandOptions, name: &str) -> (result: Result<AttachmentId, Error>) {
        match extract_snowflake(options, name, OptionKind::Attachment, "gloamwire::model::AttachmentId") {
            Ok(id) => Ok(AttachmentId { id }),
            Err(e) => Err(e),
        }
    }
}

impl<T: CommandOption> CommandOption for Option<T> {
    open spec fn spec_kind() -> OptionKind {
        T::spec_kind()
    }

    /// A missing optional option is `None`; a submitted one must extract as `T`.
    open spec fn outcome(options: Seq<SubmittedOption>, name: Seq<char>) -> Result<Option<T>, ExtractionFailure> {
        if named_option(options, name) is None {
            Ok(None)
        } else {
            match T::outcome(options, name) {
                Ok(v) => Ok(Some(v)),
                Err(f) => Err(f),
            }
        }
    }

    fn kind() -> (kind: OptionKind) {
        T::kind()
    }

    fn extract(options: &CommandOptions, name: &str) -> (result: Result<Option<T>, Error>) {
        if options.get(name).is_none() {
            return Ok(None);
        }
        match T::extract(options, name) {
            Ok(v) => Ok(Some(v)),
            Err(e) => Err(e),
        }
    }
}

/// Whether the option named `name` was submitted at all.
pub fn is_submitted(options: &CommandOptions, name: &str) -> (submitted: bool)
    ensures
        submitted == (named_option(options.options@, name@) is Some),
{
    options.get(name).is_some()
}

/// Value of an ASCII decimal digit.
pub open spec fn digit_value(c: char) -> int {
    c as int - '0' as int
}

pub open spec fn is_digit(c: char) -> bool {
    '0' <= c && c <= '9'
}

/// Value of a non-empty run of decimal digits.
pub open spec fn digits_value(s: Seq<char>) -> int
    decreases s.len(),
{
    if s.len() == 0 {
        0
    } else {
        digits_value(s.drop_last()) * 10 + digit_value(s.last())
    }
}

/// The value of an unsigned decimal numeral with an optional leading `+`,
/// as `u64::from_str` reads it before its range check.
pub open spec fn parse_decimal(s: Seq<char>) -> Option<int> {
    if numeral_digits(s).len() > 0 && all_digits(numeral_digits(s)) {
        Some(digits_value(numeral_digits(s)))
    } else {
        None
    }
}

/// The numeral without its optional leading `+`.
pub open spec fn numeral_digits(s: Seq<char>) -> Seq<char> {
    if s.len() > 0 && s[0] == '+' {
        s.drop_first()
    } else {
        s
    }
}

pub open spec fn all_digits(s: Seq<char>) -> bool {
    forall|i: int| 0 <= i < s.len() ==> is_digit(#[trigger] s[i])
}

/// A parsed decimal numeral is never negative.
pub proof fn lemma_parse_decimal_nonneg(s: Seq<char>)
    ensures
        parse_decimal(s) matches Some(n) ==> n >= 0,
{
    if parse_decimal(s) is Some {
        lemma_digits_value_nonneg(numeral_digits(s));
    }
}

proof fn lemma_digits_value_nonneg(s: Seq<char>)
    requires
        forall|i: int| 0 <= i < s.len() ==> is_digit(#[trigger] s[i]),
    ensures
        digits_value(s) >= 0,
    decreases s.len(),
{
    if s.len() > 0 {
        lemma_digits_value_nonneg(s.drop_last());
    }
}

/// Parses a decimal snowflake; `None` for anything but digits (after an
/// optional `+`) whose value fits in 64 bits.
pub fn parse_u64(s: &str) -> (parsed: Option<u64>)
    ensures
        match parse_decimal(s@) {
            Some(n) => if n <= u64::MAX { parsed == Some(n as u64) } else { parsed is None },
            None => parsed is None,
        },
{
    let len = s.unicode_len();
    let mut start: usize = 0;
    if len > 0 && s.get_char(0) == '+' {
        start = 1;
    }
    let ghost digits = numeral_digits(s@);
    assert(digits =~= s@.skip(start as int));
    if start == len {
        return None;
    }
    let mut value: u64 = 0;
    let mut i: usize = start;
    while i < len
        invariant
            len == s@.len(),
            start <= i <= len,
            start < len,
            digits == s@.skip(start as int),
            digits == numeral_digits(s@),
            forall|k: int| start <= k < i ==> is_digit(#[trigger] s@[k]),
            value == digits_value(s@.subrange(start as int, i as int)),
        decreases len - i,
    {
        let c = s.get_char(i);
        assert(s@.subrange(start as int, i as int + 1).drop_last() =~= s@.subrange(start as int, i as int));
        if c < '0' || c > '9' {
            assert(digits[i - start] == c);
            assert(!all_digits(digits));
            return None;
        }
        let d: u64 = (c as u64) - ('0' as u64);
        let ghost prefix = s@.subrange(start as int, i as int + 1);
        assert(prefix.drop_last() =~= s@.subrange(start as int, i as int));
        assert(prefix.last() == c);
        assert(digits_value(prefix) == value * 10 + d);
        let next = match value.checked_mul(10) {
            Some(scaled) => scaled.checked_add(d),
            None => None,
        };
        match next {
            Some(next) => {
                value = next;
            },
            None => {
                proof {
                    if parse_decimal(s@) is Some {
                        assert(all_digits(digits));
                        assert forall|k: int| start <= k < len implies is_digit(#[trigger] s@[k]) by {
                            assert(s@[k] == digits[k - start]);
                        }
                        lemma_digits_monotone(s@, start as int, i as int + 1, len as int);
                        assert(s@.subrange(start as int, len as int) =~= digits);
                    }
                }
                return None;
            },
        }
        i = i + 1;
    }
    assert(s@.subrange(start as int, len as int) =~= digits);
    assert forall|k: int| 0 <= k < digits.len() implies is_digit(#[trigger] digits[k]) by {
        assert(digits[k] == s@[k + start]);
    }
    assert(all_digits(digits));
    Some(value)
}

pub proof fn lemma_digits_monotone(s: Seq<char>, start: int, end: int, j: int)
    requires
        0 <= start <= end <= j <= s.len(),
        forall|k: int| start <= k < j ==> is_digit(#[trigger] s[k]),
    ensures
        digits_value(s.subrange(start, end)) <= digits_value(s.subrange(start, j)),
    decreases j - end,
{
    if end < j {
        lemma_digits_monotone(s, start, end, j - 1);
        assert(s.subrange(start, j).drop_last() =~= s.subrange(start, j - 1));
        lemma_digits_value_nonneg(s.subrange(start, j - 1));
        assert(is_digit(s[j - 1]));
    }
}

} // verus!
