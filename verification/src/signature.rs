use vstd::prelude::*;
use crate::schema::{
    description_outcome, fails_with, name_outcome, reports_schema, validate_description, validate_name,
    command_name_pattern, CompiledPattern, GenericArgument, SchemaError, Site, TypeArguments, TypeShape,
};
use crate::text::str_eq;

verus! {

/// Which annotated function a signature belongs to.
#[derive(Debug, Clone, Copy, PartialEq, Eq, Structural)]
pub enum HandlerKind {
    /// A `#[command]` handler.
    Command,
    /// A `#[check]` handler.
    Check,
    /// An `#[autocomplete]` handler.
    Autocomplete,
}

/// One parameter of an annotated function.
#[derive(Debug)]
pub enum InputShape {
    /// A `self` receiver.
    Receiver,
    /// A typed parameter.
    Typed(TypeShape),
}

/// The parts of an annotated function's signature that the macros read.
#[derive(Debug)]
pub struct SignatureShape {
    pub is_async: bool,
    pub is_const: bool,
    pub is_unsafe: bool,
    pub has_abi: bool,
    /// Generic parameters or a `where` clause.
    pub is_generic: bool,
    pub is_variadic: bool,
    pub inputs: Vec<InputShape>,
    /// The declared return type; `None` for the default `()`.
    pub output: Option<TypeShape>,
}

/// The diagnostic of each signature rule, for each kind of handler.
pub open spec fn rule_message(kind: HandlerKind, rule: int) -> Seq<char> {
    match kind {
        HandlerKind::Command => if rule == 0 {
            "slash commands must be declared with `async fn`"@
        } else if rule == 1 {
            "slash commands cannot be `const`"@
        } else if rule == 2 {
            "slash commands cannot be `unsafe`"@
        } else if rule == 3 {
            "slash commands cannot declare an explicit ABI"@
        } else if rule == 4 {
            "generic slash-command handlers are not supported"@
        } else {
            "variadic slash-command handlers are not supported"@
        },
        HandlerKind::Check => if rule == 0 {
            "command checks must be declared with `async fn`"@
        } else if rule == 1 {
            "command checks cannot be `const`"@
        } else if rule == 2 {
            "command checks cannot be `unsafe`"@
        } else if rule == 3 {
            "command checks cannot declare an explicit ABI"@
        } else if rule == 4 {
            "generic command checks are not supported"@
        } else {
            "variadic command checks are not supported"@
        },
        HandlerKind::Autocomplete => if rule == 0 {
            "autocomplete handlers must be declared with `async fn`"@
        } else if rule == 1 {
            "autocomplete handlers cannot be `const`"@
        } else if rule == 2 {
            "autocomplete handlers cannot be `unsafe`"@
        } else if rule == 3 {
            "autocomplete handlers cannot declare an explicit ABI"@
        } else if rule == 4 {
            "generic autocomplete handlers are not supported"@
        } else {
            "variadic autocomplete handlers are not supported"@
        },
    }
}

fn rule_error(kind: HandlerKind, rule: u8, site: Site) -> (e: SchemaError)
    requires
        rule <= 5,
    ensures
        e.message@ == rule_message(kind, rule as int),
        e.site == site,
{
    let message = match kind {
        HandlerKind::Command => if rule == 0 {
            "slash commands must be declared with `async fn`"
        } else if rule == 1 {
            "slash commands cannot be `const`"
        } else if rule == 2 {
            "slash commands cannot be `unsafe`"
        } else if rule == 3 {
            "slash commands cannot declare an explicit ABI"
        } else if rule == 4 {
            "generic slash-command handlers are not supported"
        } else {
            "variadic slash-command handlers are not supported"
        },
        HandlerKind::Check => if rule == 0 {
            "command checks must be declared with `async fn`"
        } else if rule == 1 {
            "command checks cannot be `const`"
        } else if rule == 2 {
            "command checks cannot be `unsafe`"
        } else if rule == 3 {
            "command checks cannot declare an explicit ABI"
        } else if rule == 4 {
            "generic command checks are not supported"
        } else {
            "variadic command checks are not supported"
        },
        HandlerKind::Autocomplete => if rule == 0 {
            "autocomplete handlers must be declared with `async fn`"
        } else if rule == 1 {
            "autocomplete handlers cannot be `const`"
        } else if rule == 2 {
            "autocomplete handlers cannot be `unsafe`"
        } else if rule == 3 {
            "autocomplete handlers cannot declare an explicit ABI"
        } else if rule == 4 {
            "generic autocomplete handlers are not supported"
        } else {
            "variadic autocomplete handlers are not supported"
        },
    };
    SchemaError { message: message.to_owned(), site }
}

/// The first of the six function-level rules that the signature breaks.
pub open spec fn function_rules_outcome(kind: HandlerKind, sig: SignatureShape) -> Result<(), (Seq<char>, Site)> {
    if !sig.is_async {
        Err((rule_message(kind, 0), Site::FnToken))
    } else if sig.is_const {
        Err((rule_message(kind, 1), Site::Constness))
    } else if sig.is_unsafe {
        Err((rule_message(kind, 2), Site::Unsafety))
    } else if sig.has_abi {
        Err((rule_message(kind, 3), Site::Abi))
    } else if sig.is_generic {
        Err((rule_message(kind, 4), Site::Generics))
    } else if sig.is_variadic {
        Err((rule_message(kind, 5), Site::Variadic))
    } else {
        Ok(())
    }
}

fn function_rules(kind: HandlerKind, sig: &SignatureShape) -> (result: Result<(), SchemaError>)
    ensures
        reports_schema(result, function_rules_outcome(kind, *sig)),
{
    if !sig.is_async {
        return Err(rule_error(kind, 0, Site::FnToken));
    }
    if sig.is_const {
        return Err(rule_error(kind, 1, Site::Constness));
    }
    if sig.is_unsafe {
        return Err(rule_error(kind, 2, Site::Unsafety));
    }
    if sig.has_abi {
        return Err(rule_error(kind, 3, Site::Abi));
    }
    if sig.is_generic {
        return Err(rule_error(kind, 4, Site::Generics));
    }
    if sig.is_variadic {
        return Err(rule_error(kind, 5, Site::Variadic));
    }
    Ok(())
}

/// The single type argument of a path type, if it has exactly one.
pub open spec fn single_argument(ty: TypeShape, ident: Seq<char>) -> Option<TypeShape> {
    match ty {
        TypeShape::Path { ident: name, arguments: TypeArguments::Angle(args) } => if name@ == ident && args@.len() == 1 {
            match args@[0] {
                GenericArgument::Type(inner) => Some(inner),
                GenericArgument::Other => None,
            }
        } else {
            None
        },
        _ => None,
    }
}

/// Whether a type is a bare path named `ident`.
pub open spec fn is_bare(ty: TypeShape, ident: Seq<char>) -> bool {
    ty matches TypeShape::Path { ident: name, arguments: TypeArguments::Bare } && name@ == ident
}

/// Whether the return type is the one each handler kind must declare:
/// `Result<()>`, `Result<bool>`, or `Result<Vec<AutocompleteChoice>>`.
pub open spec fn returns_expected(kind: HandlerKind, output: Option<TypeShape>) -> bool {
    match output {
        None => false,
        Some(ty) => match single_argument(ty, "Result"@) {
            None => false,
            Some(value) => match kind {
                HandlerKind::Command => matches!(value, TypeShape::Unit),
                HandlerKind::Check => is_bare(value, "bool"@),
                HandlerKind::Autocomplete => match single_argument(value, "Vec"@) {
                    Some(item) => is_bare(item, "AutocompleteChoice"@),
                    None => false,
                },
            },
        },
    }
}

pub open spec fn return_message(kind: HandlerKind) -> Seq<char> {
    match kind {
        HandlerKind::Command => "slash commands must return `Result<()>`"@,
        HandlerKind::Check => "command checks must return `Result<bool>`"@,
        HandlerKind::Autocomplete => "autocomplete handlers must return `Result<Vec<AutocompleteChoice>>`"@,
    }
}

fn argument_of<'a>(ty: &'a TypeShape, ident: &str) -> (inner: Option<&'a TypeShape>)
    ensures
        match single_argument(*ty, ident@) {
            Some(t) => inner matches Some(i) && *i == t,
            None => inner is None,
        },
{
    match ty {
        TypeShape::Path { ident: name, arguments: TypeArguments::Angle(args) } => {
            if str_eq(name.as_str(), ident) && args.len() == 1 {
                match &args[0] {
                    GenericArgument::Type(inner) => Some(inner),
                    GenericArgument::Other => None,
                }
            } else {
                None
            }
        },
        _ => None,
    }
}

fn bare(ty: &TypeShape, ident: &str) -> (is: bool)
    ensures
        is == is_bare(*ty, ident@),
{
    match ty {
        TypeShape::Path { ident: name, arguments: TypeArguments::Bare } => str_eq(name.as_str(), ident),
        _ => false,
    }
}

/// Checks the return type a handler kind must declare.
pub fn validate_return_type(kind: HandlerKind, output: &Option<TypeShape>) -> (result: Result<(), SchemaError>)
    ensures
        returns_expected(kind, *output) ==> result == Ok::<(), SchemaError>(()),
        !returns_expected(kind, *output) ==> fails_with(result, return_message(kind), Site::Output),
{
    let fits = match output {
        None => false,
        Some(ty) => match argument_of(ty, "Result") {
            None => false,
            Some(value) => match kind {
                HandlerKind::Command => matches!(value, TypeShape::Unit),
                HandlerKind::Check => bare(value, "bool"),
                HandlerKind::Autocomplete => match argument_of(value, "Vec") {
                    Some(item) => bare(item, "AutocompleteChoice"),
                    None => false,
                },
            },
        },
    };
    if fits {
        return Ok(());
    }
    let message = match kind {
        HandlerKind::Command => "slash commands must return `Result<()>`",
        HandlerKind::Check => "command checks must return `Result<bool>`",
        HandlerKind::Autocomplete => "autocomplete handlers must return `Result<Vec<AutocompleteChoice>>`",
    };
    Err(SchemaError { message: message.to_owned(), site: Site::Output })
}

/// The context type each handler kind takes first.
pub open spec fn context_name(kind: HandlerKind) -> Seq<char> {
    match kind {
        HandlerKind::Autocomplete => "AutocompleteContext"@,
        _ => "Context"@,
    }
}

/// What reading the context parameter gives: its type, or the diagnostic.
pub open spec fn context_outcome(kind: HandlerKind, inputs: Seq<InputShape>) -> Result<TypeShape, (Seq<char>, Site)> {
    if inputs.len() == 0 {
        Err((
            match kind {
                HandlerKind::Command => "slash commands require a `Context<D>` parameter"@,
                HandlerKind::Check => "command checks require a `Context<D>` parameter"@,
                HandlerKind::Autocomplete => "autocomplete handlers require an `AutocompleteContext<D>` parameter"@,
            },
            Site::ItemIdent,
        ))
    } else {
        match inputs[0] {
            InputShape::Receiver => Err((
                match kind {
                    HandlerKind::Command => "slash commands must be free functions whose first parameter is `Context<D>`"@,
                    HandlerKind::Check => "command checks must be free functions whose parameter is `Context<D>`"@,
                    HandlerKind::Autocomplete => "autocomplete handlers must be free functions whose parameter is `AutocompleteContext<D>`"@,
                },
                Site::ContextParameter,
            )),
            InputShape::Typed(ty) => match ty {
                TypeShape::Path { ident, arguments } => if ident@ != context_name(kind) {
                    Err((context_type_message(kind), Site::ContextType))
                } else if kind is Command {
                    Ok(ty)
                } else {
                    match arguments {
                        TypeArguments::Angle(args) => if args@.len() == 1 && args@[0] is Type {
                            Ok(ty)
                        } else {
                            Err((state_message(kind), Site::ContextArguments))
                        },
                        _ => Err((state_message(kind), Site::ContextType)),
                    }
                },
                _ => Err((context_type_message(kind), Site::ContextType)),
            },
        }
    }
}

pub open spec fn context_type_message(kind: HandlerKind) -> Seq<char> {
    match kind {
        HandlerKind::Command => "slash-command context parameter must have type `Context<D>`"@,
        HandlerKind::Check => "command check context parameter must have type `Context<D>`"@,
        HandlerKind::Autocomplete => "autocomplete context parameter must have type `AutocompleteContext<D>`"@,
    }
}

pub open spec fn state_message(kind: HandlerKind) -> Seq<char> {
    match kind {
        HandlerKind::Autocomplete => "`AutocompleteContext` requires exactly one application-state type parameter"@,
        _ => "`Context` requires exactly one application-state type parameter"@,
    }
}

fn context_error(kind: HandlerKind, which: u8, site: Site) -> (e: SchemaError)
    ensures
        e.site == site,
        which == 0 ==> e.message@ == context_type_message(kind),
        which != 0 ==> e.message@ == state_message(kind),
{
    let message = if which == 0 {
        match kind {
            HandlerKind::Command => "slash-command context parameter must have type `Context<D>`",
            HandlerKind::Check => "command check context parameter must have type `Context<D>`",
            HandlerKind::Autocomplete => "autocomplete context parameter must have type `AutocompleteContext<D>`",
        }
    } else {
        match kind {
            HandlerKind::Autocomplete => "`AutocompleteContext` requires exactly one application-state type parameter",
            _ => "`Context` requires exactly one application-state type parameter",
        }
    };
    SchemaError { message: message.to_owned(), site }
}

/// Reads the context parameter of a handler: a typed first parameter whose
/// type is `Context<D>`, or `AutocompleteContext<D>` for autocomplete handlers.
pub fn context_type(kind: HandlerKind, inputs: &[InputShape]) -> (result: Result<&TypeShape, SchemaError>)
    ensures
        match context_outcome(kind, inputs@) {
            Ok(t) => result matches Ok(r) && *r == t,
            Err((m, s)) => fails_with(result, m, s),
        },
{
    if inputs.len() == 0 {
        let message = match kind {
            HandlerKind::Command => "slash commands require a `Context<D>` parameter",
            HandlerKind::Check => "command checks require a `Context<D>` parameter",
            HandlerKind::Autocomplete => "autocomplete handlers require an `AutocompleteContext<D>` parameter",
        };
        return Err(SchemaError { message: message.to_owned(), site: Site::ItemIdent });
    }
    match &inputs[0] {
        InputShape::Receiver => {
            let message = match kind {
                HandlerKind::Command => "slash commands must be free functions whose first parameter is `Context<D>`",
                HandlerKind::Check => "command checks must be free functions whose parameter is `Context<D>`",
                HandlerKind::Autocomplete => "autocomplete handlers must be free functions whose parameter is `AutocompleteContext<D>`",
            };
            Err(SchemaError { message: message.to_owned(), site: Site::ContextParameter })
        },
        InputShape::Typed(ty) => match ty {
            TypeShape::Path { ident, arguments } => {
                let expected = match kind {
                    HandlerKind::Autocomplete => "AutocompleteContext",
                    _ => "Context",
                };
                if !str_eq(ident.as_str(), expected) {
                    return Err(context_error(kind, 0, Site::ContextType));
                }
                if kind == HandlerKind::Command {
                    return Ok(ty);
                }
                match arguments {
                    TypeArguments::Angle(args) => {
                        if args.len() == 1 && matches!(args[0], GenericArgument::Type(_)) {
                            Ok(ty)
                        } else {
                            Err(context_error(kind, 1, Site::ContextArguments))
                        }
                    },
                    _ => Err(context_error(kind, 1, Site::ContextType)),
                }
            },
            _ => Err(context_error(kind, 0, Site::ContextType)),
        },
    }
}

/// What validating a handler signature gives.
pub open spec fn signature_outcome(kind: HandlerKind, sig: SignatureShape) -> Result<(), (Seq<char>, Site)> {
    match function_rules_outcome(kind, sig) {
        Err(e) => Err(e),
        Ok(()) => if kind is Command {
            if !returns_expected(kind, sig.output) {
                Err((return_message(kind), Site::Output))
            } else {
                match context_outcome(kind, sig.inputs@) {
                    Err(e) => Err(e),
                    Ok(_) => Ok(()),
                }
            }
        } else if sig.inputs@.len() != 1 {
            Err((
                match kind {
                    HandlerKind::Check => "command checks require exactly one `Context<D>` parameter"@,
                    _ => "autocomplete handlers require exactly one `AutocompleteContext<D>` parameter"@,
                },
                Site::Inputs,
            ))
        } else {
            match context_outcome(kind, sig.inputs@) {
                Err(e) => Err(e),
                Ok(_) => if !returns_expected(kind, sig.output) {
                    Err((return_message(kind), Site::Output))
                } else {
                    Ok(())
                },
            }
        },
    }
}

/// Validates the signature of an annotated handler: an `async`, non-`const`,
/// safe, non-generic, non-variadic free function with the ABI left implicit,
/// its context parameter, and its return type.
pub fn validate_signature(kind: HandlerKind, sig: &SignatureShape) -> (result: Result<(), SchemaError>)
    ensures
        reports_schema(result, signature_outcome(kind, *sig)),
{
    match function_rules(kind, sig) {
        Err(e) => {
            return Err(e);
        },
        Ok(()) => {},
    }
    if kind == HandlerKind::Command {
        match validate_return_type(kind, &sig.output) {
            Err(e) => {
                return Err(e);
            },
            Ok(()) => {},
        }
        return match context_type(kind, sig.inputs.as_slice()) {
            Err(e) => Err(e),
            Ok(_) => Ok(()),
        };
    }
    if sig.inputs.len() != 1 {
        let message = match kind {
            HandlerKind::Check => "command checks require exactly one `Context<D>` parameter",
            _ => "autocomplete handlers require exactly one `AutocompleteContext<D>` parameter",
        };
        return Err(SchemaError { message: message.to_owned(), site: Site::Inputs });
    }
    match context_type(kind, sig.inputs.as_slice()) {
        Err(e) => {
            return Err(e);
        },
        Ok(_) => {},
    }
    validate_return_type(kind, &sig.output)
}

/// What reading the application-state type of a command's `Context<D>` gives.
pub open spec fn state_outcome(context: TypeShape) -> Result<TypeShape, (Seq<char>, Site)> {
    match context {
        TypeShape::Path { arguments: TypeArguments::Angle(args), .. } => if args@.len() != 1 {
            Err(("`Context` requires exactly one application-state type parameter"@, Site::ContextArguments))
        } else {
            match args@[0] {
                GenericArgument::Type(state) => Ok(state),
                GenericArgument::Other => Err(
                    ("`Context` requires an application-state type parameter"@, Site::ContextArguments),
                ),
            }
        },
        _ => Err(("`Context` requires exactly one application-state type parameter"@, Site::ContextType)),
    }
}

/// Reads the application-state type `D` of a command's `Context<D>`.
pub fn state_type(context: &TypeShape) -> (result: Result<&TypeShape, SchemaError>)
    ensures
        match state_outcome(*context) {
            Ok(t) => result matches Ok(r) && *r == t,
            Err((m, s)) => fails_with(result, m, s),
        },
{
    match context {
        TypeShape::Path { arguments: TypeArguments::Angle(args), .. } => {
            if args.len() != 1 {
                return Err(
                    SchemaError {
                        message: "`Context` requires exactly one application-state type parameter".to_owned(),
                        site: Site::ContextArguments,
                    },
                );
            }
            match &args[0] {
                GenericArgument::Type(state) => Ok(state),
                GenericArgument::Other => Err(
                    SchemaError {
                        message: "`Context` requires an application-state type parameter".to_owned(),
                        site: Site::ContextArguments,
                    },
                ),
            }
        },
        _ => Err(
            SchemaError {
                message: "`Context` requires exactly one application-state type parameter".to_owned(),
                site: Site::ContextType,
            },
        ),
    }
}

/// One `key = "literal"` argument of `#[command(...)]` or `#[group(...)]`.
#[derive(Debug, Clone, PartialEq, Eq)]
pub enum NamedArg {
    Name(String),
    Description(String),
    /// Any other key; nothing after it is read.
    Unsupported,
}

/// The `name` and `description` read from macro arguments.
#[derive(Debug, Clone, PartialEq, Eq)]
pub struct NamedArgs {
    pub name: Option<String>,
    pub description: Option<String>,
}

/// What reading the first `n` macro arguments gives; `group` selects the
/// diagnostic for unsupported keys.
pub open spec fn named_args_prefix(args: Seq<NamedArg>, n: int, group: bool) -> Result<NamedArgs, (Seq<char>, Site)>
    decreases n,
{
    if n <= 0 {
        Ok(NamedArgs { name: None, description: None })
    } else {
        match named_args_prefix(args, n - 1, group) {
            Err(e) => Err(e),
            Ok(read) => match args[n - 1] {
                NamedArg::Name(name) => if read.name is Some {
                    Err(("duplicate `name` argument"@, Site::ArgumentKey((n - 1) as usize)))
                } else {
                    Ok(NamedArgs { name: Some(name), description: read.description })
                },
                NamedArg::Description(text) => if read.description is Some {
                    Err(("duplicate `description` argument"@, Site::ArgumentKey((n - 1) as usize)))
                } else {
                    Ok(NamedArgs { name: read.name, description: Some(text) })
                },
                NamedArg::Unsupported => Err((
                    if group {
                        "unsupported group argument; expected `name` or `description`"@
                    } else {
                        "unsupported command argument; expected `name` or `description`"@
                    },
                    Site::ArgumentKey((n - 1) as usize),
                )),
            },
        }
    }
}

proof fn lemma_named_args_error_persists(args: Seq<NamedArg>, n: int, m: int, group: bool)
    requires
        0 <= n <= m,
        named_args_prefix(args, n, group) is Err,
    ensures
        named_args_prefix(args, m, group) == named_args_prefix(args, n, group),
    decreases m - n,
{
    if n < m {
        lemma_named_args_error_persists(args, n, m - 1, group);
    }
}

/// Reads `#[command(...)]` or `#[group(...)]` arguments: each of `name` and
/// `description` at most once, and no other key.
pub fn parse_named_args(args: Vec<NamedArg>, group: bool) -> (result: Result<NamedArgs, SchemaError>)
    ensures
        reports_schema(result, named_args_prefix(args@, args@.len() as int, group)),
{
    let ghost all = args@;
    let mut rest = args;
    let total = rest.len();
    let mut read = NamedArgs { name: None, description: None };
    let mut i: usize = 0;
    while rest.len() > 0
        invariant
            all.len() == total,
            all == args@,
            i + rest@.len() == all.len(),
            rest@ == all.skip(i as int),
            named_args_prefix(all, i as int, group) == Ok::<NamedArgs, (Seq<char>, Site)>(read),
        decreases rest@.len(),
    {
        let arg = rest.remove(0);
        assert(arg == all[i as int]);
        let step: Result<(), SchemaError> = match arg {
            NamedArg::Name(name) => {
                if read.name.is_some() {
                    Err(SchemaError { message: "duplicate `name` argument".to_owned(), site: Site::ArgumentKey(i) })
                } else {
                    read = NamedArgs { name: Some(name), description: read.description };
                    Ok(())
                }
            },
            NamedArg::Description(text) => {
                if read.description.is_some() {
                    Err(SchemaError { message: "duplicate `description` argument".to_owned(), site: Site::ArgumentKey(i) })
                } else {
                    read = NamedArgs { name: read.name, description: Some(text) };
                    Ok(())
                }
            },
            NamedArg::Unsupported => {
                let message = if group {
                    "unsupported group argument; expected `name` or `description`"
                } else {
                    "unsupported command argument; expected `name` or `description`"
                };
                Err(SchemaError { message: message.to_owned(), site: Site::ArgumentKey(i) })
            },
        };
        match step {
            Ok(()) => {},
            Err(e) => {
                proof {
                    lemma_named_args_error_persists(all, i as int + 1, all.len() as int, group);
                }
                return Err(e);
            },
        }
        i = i + 1;
    }
    Ok(read)
}

/// What the name and description of a command or group are: the explicit
/// name or else the item's identifier, and a required description, both
/// valid for Discord.
pub open spec fn header_outcome(args: NamedArgs, ident: String, group: bool) -> Result<(String, String), (Seq<char>, Site)> {
    let name = match args.name {
        Some(n) => n,
        None => ident,
    };
    match args.description {
        None => Err((
            if group {
                "slash-command groups require `description = \"...\"`"@
            } else {
                "slash commands require `description = \"...\"`"@
            },
            Site::ItemIdent,
        )),
        Some(description) => match name_outcome(name@) {
            Err(e) => Err(e),
            Ok(()) => match description_outcome(description@) {
                Err(e) => Err(e),
                Ok(()) => Ok((name, description)),
            },
        },
    }
}

/// Decides the registered name and description of a command or group.
pub fn command_header(pattern: &CompiledPattern, args: NamedArgs, ident: String, group: bool) -> (result: Result<
    (String, String),
    SchemaError,
>)
    requires
        pattern.spec_pattern() == command_name_pattern(),
    ensures
        reports_schema(result, header_outcome(args, ident, group)),
{
    let NamedArgs { name, description } = args;
    let name = match name {
        Some(n) => n,
        None => ident,
    };
    let description = match description {
        Some(d) => d,
        None => {
            let message = if group {
                "slash-command groups require `description = \"...\"`"
            } else {
                "slash commands require `description = \"...\"`"
            };
            return Err(SchemaError { message: message.to_owned(), site: Site::ItemIdent });
        },
    };
    match validate_name(pattern, name.as_str()) {
        Err(e) => {
            return Err(e);
        },
        Ok(()) => {},
    }
    match validate_description(description.as_str()) {
        Err(e) => {
            return Err(e);
        },
        Ok(()) => {},
    }
    Ok((name, description))
}

} // verus!
