use vstd::prelude::*;

verus! {

/// Discord application-command option type.
#[derive(Debug, Clone, Copy, PartialEq, Eq, Structural)]
pub enum OptionKind {
    SubCommand,
    SubCommandGroup,
    String,
    Integer,
    Boolean,
    User,
    Channel,
    Role,
    Mentionable,
    Number,
    Attachment,
    /// A type code that this library does not know.
    Unknown(u8),
}

/// Numeric bound of an option: Discord integers, or numbers held as IEEE-754 bits.
#[derive(Debug, Clone, Copy, PartialEq, Eq, Structural)]
pub enum NumericValue {
    Integer(i64),
    /// A double-precision number given by its IEEE-754 bit pattern.
    Number(u64),
}

/// Value of one static Discord choice.
#[derive(Debug, Clone, PartialEq, Eq)]
pub enum ChoiceValue {
    String(String),
    Integer(i64),
    /// A double-precision number given by its IEEE-754 bit pattern.
    Number(u64),
}

/// One static Discord choice registered for an option.
#[derive(Debug, Clone, PartialEq, Eq)]
pub struct CommandChoiceDescriptor {
    pub name: String,
    pub value: ChoiceValue,
}

/// Metadata describing one Discord chat-input command option.
#[derive(Debug, Clone, PartialEq, Eq)]
pub struct CommandOptionDescriptor {
    pub name: String,
    pub description: String,
    pub kind: OptionKind,
    pub required: bool,
    pub min_value: Option<NumericValue>,
    pub max_value: Option<NumericValue>,
    pub min_length: Option<u32>,
    pub max_length: Option<u32>,
    pub choices: Vec<CommandChoiceDescriptor>,
    pub autocomplete: bool,
}

/// Metadata describing a Discord chat-input command or group node.
#[derive(Debug, Clone, PartialEq, Eq)]
pub struct CommandDescriptor {
    pub name: String,
    pub description: String,
    pub options: Vec<CommandOptionDescriptor>,
}

} // verus!

verus! {

impl OptionKind {
    /// The Discord wire code of this option type.
    pub fn code(self) -> (code: u8)
        ensures
            code == self.spec_code(),
    {
        match self {
            OptionKind::SubCommand => 1,
            OptionKind::SubCommandGroup => 2,
            OptionKind::String => 3,
            OptionKind::Integer => 4,
            OptionKind::Boolean => 5,
            OptionKind::User => 6,
            OptionKind::Channel => 7,
            OptionKind::Role => 8,
            OptionKind::Mentionable => 9,
            OptionKind::Number => 10,
            OptionKind::Attachment => 11,
            OptionKind::Unknown(code) => code,
        }
    }

    pub open spec fn spec_code(self) -> u8 {
        match self {
            OptionKind::SubCommand => 1,
            OptionKind::SubCommandGroup => 2,
            OptionKind::String => 3,
            OptionKind::Integer => 4,
            OptionKind::Boolean => 5,
            OptionKind::User => 6,
            OptionKind::Channel => 7,
            OptionKind::Role => 8,
            OptionKind::Mentionable => 9,
            OptionKind::Number => 10,
            OptionKind::Attachment => 11,
            OptionKind::Unknown(code) => code,
        }
    }

    /// The option type of a Discord wire code; codes outside 1..=11 stay `Unknown`.
    pub fn from_code(code: u8) -> (kind: OptionKind)
        ensures
            kind.spec_code() == code,
            1 <= code <= 11 ==> kind !is Unknown,
    {
        match code {
            1 => OptionKind::SubCommand,
            2 => OptionKind::SubCommandGroup,
            3 => OptionKind::String,
            4 => OptionKind::Integer,
            5 => OptionKind::Boolean,
            6 => OptionKind::User,
            7 => OptionKind::Channel,
            8 => OptionKind::Role,
            9 => OptionKind::Mentionable,
            10 => OptionKind::Number,
            11 => OptionKind::Attachment,
            _ => OptionKind::Unknown(code),
        }
    }

    /// Whether options of this type may carry static choices or autocomplete.
    pub open spec fn spec_is_choice_capable(self) -> bool {
        self is String || self is Integer || self is Number
    }

    /// Whether options of this type may carry static choices or autocomplete.
    pub fn is_choice_capable(self) -> (capable: bool)
        ensures
            capable == self.spec_is_choice_capable(),
    {
        match self {
            OptionKind::String | OptionKind::Integer | OptionKind::Number => true,
            _ => false,
        }
    }
}

impl CommandChoiceDescriptor {
    /// Creates a string choice.
    pub fn string(name: &str, value: &str) -> (choice: Self)
        ensures
            choice.name@ == name@,
            choice.value matches ChoiceValue::String(v) && v@ == value@,
    {
        CommandChoiceDescriptor { name: name.to_owned(), value: ChoiceValue::String(value.to_owned()) }
    }

    /// Creates an integer choice.
    pub fn integer(name: &str, value: i64) -> (choice: Self)
        ensures
            choice.name@ == name@,
            choice.value == ChoiceValue::Integer(value),
    {
        CommandChoiceDescriptor { name: name.to_owned(), value: ChoiceValue::Integer(value) }
    }

    /// Creates a number choice from the IEEE-754 bits of the value.
    pub fn number(name: &str, bits: u64) -> (choice: Self)
        ensures
            choice.name@ == name@,
            choice.value == ChoiceValue::Number(bits),
    {
        CommandChoiceDescriptor { name: name.to_owned(), value: ChoiceValue::Number(bits) }
    }
}

impl CommandOptionDescriptor {
    /// Creates an unconstrained command-option descriptor.
    pub fn new(name: &str, description: &str, kind: OptionKind, required: bool) -> (option: Self)
        ensures
            option.name@ == name@,
            option.description@ == description@,
            option.kind == kind,
            option.required == required,
            option.min_value is None,
            option.max_value is None,
            option.min_length is None,
            option.max_length is None,
            option.choices@.len() == 0,
            !option.autocomplete,
    {
        CommandOptionDescriptor {
            name: name.to_owned(),
            description: description.to_owned(),
            kind,
            required,
            min_value: None,
            max_value: None,
            min_length: None,
            max_length: None,
            choices: Vec::new(),
            autocomplete: false,
        }
    }

    /// Sets the minimum numeric value.
    pub fn min_value(self, value: NumericValue) -> (option: Self)
        ensures
            option == (Self { min_value: Some(value), ..self }),
    {
        CommandOptionDescriptor { min_value: Some(value), ..self }
    }

    /// Sets an integer minimum.
    pub fn min_integer(self, value: i64) -> (option: Self)
        ensures
            option == (Self { min_value: Some(NumericValue::Integer(value)), ..self }),
    {
        self.min_value(NumericValue::Integer(value))
    }

    /// Sets a number minimum given by its IEEE-754 bits.
    pub fn min_number(self, bits: u64) -> (option: Self)
        ensures
            option == (Self { min_value: Some(NumericValue::Number(bits)), ..self }),
    {
        self.min_value(NumericValue::Number(bits))
    }

    /// Sets the maximum numeric value.
    pub fn max_value(self, value: NumericValue) -> (option: Self)
        ensures
            option == (Self { max_value: Some(value), ..self }),
    {
        CommandOptionDescriptor { max_value: Some(value), ..self }
    }

    /// Sets an integer maximum.
    pub fn max_integer(self, value: i64) -> (option: Self)
        ensures
            option == (Self { max_value: Some(NumericValue::Integer(value)), ..self }),
    {
        self.max_value(NumericValue::Integer(value))
    }

    /// Sets a number maximum given by its IEEE-754 bits.
    pub fn max_number(self, bits: u64) -> (option: Self)
        ensures
            option == (Self { max_value: Some(NumericValue::Number(bits)), ..self }),
    {
        self.max_value(NumericValue::Number(bits))
    }

    /// Sets the minimum string length.
    pub fn min_length(self, value: u32) -> (option: Self)
        ensures
            option == (Self { min_length: Some(value), ..self }),
    {
        CommandOptionDescriptor { min_length: Some(value), ..self }
    }

    /// Sets the maximum string length.
    pub fn max_length(self, value: u32) -> (option: Self)
        ensures
            option == (Self { max_length: Some(value), ..self }),
    {
        CommandOptionDescriptor { max_length: Some(value), ..self }
    }

    /// Attaches static choices.
    pub fn with_choices(self, choices: Vec<CommandChoiceDescriptor>) -> (option: Self)
        ensures
            option == (Self { choices: choices, ..self }),
    {
        CommandOptionDescriptor { choices, ..self }
    }

    /// Marks the option as served by an autocomplete handler.
    pub fn autocomplete(self) -> (option: Self)
        ensures
            option == (Self { autocomplete: true, ..self }),
    {
        CommandOptionDescriptor { autocomplete: true, ..self }
    }
}

impl CommandDescriptor {
    /// Creates a command descriptor without scalar options.
    pub fn new(name: &str, description: &str) -> (descriptor: Self)
        ensures
            descriptor.name@ == name@,
            descriptor.description@ == description@,
            descriptor.options@.len() == 0,
    {
        CommandDescriptor { name: name.to_owned(), description: description.to_owned(), options: Vec::new() }
    }

    /// Attaches scalar command-option descriptors.
    pub fn with_options(self, options: Vec<CommandOptionDescriptor>) -> (descriptor: Self)
        ensures
            descriptor == (Self { options: options, ..self }),
    {
        CommandDescriptor { options, ..self }
    }
}

/// Copies a choice descriptor.
pub fn clone_choice(choice: &CommandChoiceDescriptor) -> (copy: CommandChoiceDescriptor)
    ensures
        copy == *choice,
{
    let value = match &choice.value {
        ChoiceValue::String(s) => ChoiceValue::String(s.clone()),
        ChoiceValue::Integer(i) => ChoiceValue::Integer(*i),
        ChoiceValue::Number(bits) => ChoiceValue::Number(*bits),
    };
    CommandChoiceDescriptor { name: choice.name.clone(), value }
}

} // verus!
