use gloam_commands::grouping::{
    GroupItem, autocomplete_adapter_path, child_factories, command_factory_name, factory_path,
    group_body, validate_native_hierarchy,
};
use gloam_commands::schema::{
    GenericArgument, Site, TypeArguments, TypeShape, compile_command_name_pattern,
};
use gloam_commands::signature::{
    HandlerKind, InputShape, NamedArg, NamedArgs, SignatureShape, command_header, context_type,
    parse_named_args, state_type, validate_return_type, validate_signature,
};

fn bare(ident: &str) -> TypeShape {
    TypeShape::Path { ident: ident.to_owned(), arguments: TypeArguments::Bare }
}

fn generic(ident: &str, inner: TypeShape) -> TypeShape {
    TypeShape::Path {
        ident: ident.to_owned(),
        arguments: TypeArguments::Angle(vec![GenericArgument::Type(inner)]),
    }
}

fn signature(inputs: Vec<InputShape>, output: Option<TypeShape>) -> SignatureShape {
    SignatureShape {
        is_async: true,
        is_const: false,
        is_unsafe: false,
        has_abi: false,
        is_generic: false,
        is_variadic: false,
        inputs,
        output,
    }
}

fn strings(parts: &[&str]) -> Vec<String> {
    parts.iter().map(|part| (*part).to_owned()).collect()
}

#[test]
fn accepts_well_formed_handler_signatures() {
    let command = signature(
        vec![InputShape::Typed(generic("Context", bare("State"))), InputShape::Typed(bare("i64"))],
        Some(generic("Result", TypeShape::Unit)),
    );
    assert!(validate_signature(HandlerKind::Command, &command).is_ok());

    let check = signature(
        vec![InputShape::Typed(generic("Context", bare("State")))],
        Some(generic("Result", bare("bool"))),
    );
    assert!(validate_signature(HandlerKind::Check, &check).is_ok());

    let autocomplete = signature(
        vec![InputShape::Typed(generic("AutocompleteContext", bare("State")))],
        Some(generic("Result", generic("Vec", bare("AutocompleteChoice")))),
    );
    assert!(validate_signature(HandlerKind::Autocomplete, &autocomplete).is_ok());
}

#[test]
fn refuses_signature_rules_in_order() {
    let mut sync = signature(
        vec![InputShape::Typed(generic("Context", bare("State")))],
        Some(generic("Result", TypeShape::Unit)),
    );
    sync.is_async = false;
    sync.is_const = true;
    let error = validate_signature(HandlerKind::Command, &sync).unwrap_err();
    assert_eq!(error.message, "slash commands must be declared with `async fn`");
    assert_eq!(error.site, Site::FnToken);

    sync.is_async = true;
    let error = validate_signature(HandlerKind::Check, &sync).unwrap_err();
    assert_eq!(error.message, "command checks cannot be `const`");
    assert_eq!(error.site, Site::Constness);

    let wrong_return = signature(
        vec![InputShape::Typed(generic("Context", bare("State")))],
        Some(generic("Result", bare("bool"))),
    );
    let error = validate_signature(HandlerKind::Command, &wrong_return).unwrap_err();
    assert_eq!(error.message, "slash commands must return `Result<()>`");
    assert_eq!(error.site, Site::Output);

    let two_inputs = signature(
        vec![
            InputShape::Typed(generic("Context", bare("State"))),
            InputShape::Typed(bare("String")),
        ],
        Some(generic("Result", bare("bool"))),
    );
    let error = validate_signature(HandlerKind::Check, &two_inputs).unwrap_err();
    assert_eq!(error.message, "command checks require exactly one `Context<D>` parameter");
    assert_eq!(error.site, Site::Inputs);
}

#[test]
fn validates_return_types_per_handler_kind() {
    assert!(validate_return_type(HandlerKind::Command, &Some(generic("Result", TypeShape::Unit))).is_ok());
    let error = validate_return_type(HandlerKind::Command, &None).unwrap_err();
    assert_eq!(error.message, "slash commands must return `Result<()>`");
    let error = validate_return_type(
        HandlerKind::Autocomplete,
        &Some(generic("Result", generic("Vec", bare("String")))),
    )
    .unwrap_err();
    assert_eq!(error.message, "autocomplete handlers must return `Result<Vec<AutocompleteChoice>>`");
}

#[test]
fn reads_context_and_state_types() {
    let inputs = vec![InputShape::Typed(generic("Context", bare("State")))];
    let context = context_type(HandlerKind::Command, &inputs).unwrap();
    assert_eq!(state_type(context).unwrap(), &bare("State"));

    let error = context_type(HandlerKind::Command, &[InputShape::Receiver]).unwrap_err();
    assert_eq!(
        error.message,
        "slash commands must be free functions whose first parameter is `Context<D>`"
    );
    assert_eq!(error.site, Site::ContextParameter);

    let error = context_type(HandlerKind::Autocomplete, &inputs).unwrap_err();
    assert_eq!(
        error.message,
        "autocomplete context parameter must have type `AutocompleteContext<D>`"
    );

    let error = context_type(HandlerKind::Check, &[]).unwrap_err();
    assert_eq!(error.message, "command checks require a `Context<D>` parameter");
    assert_eq!(error.site, Site::ItemIdent);

    let error = state_type(&bare("Context")).unwrap_err();
    assert_eq!(error.message, "`Context` requires exactly one application-state type parameter");
    assert_eq!(error.site, Site::ContextType);
}

#[test]
fn reads_named_macro_arguments_once() {
    let read = parse_named_args(
        vec![NamedArg::Name("ping".to_owned()), NamedArg::Description("Check".to_owned())],
        false,
    )
    .unwrap();
    assert_eq!(
        read,
        NamedArgs { name: Some("ping".to_owned()), description: Some("Check".to_owned()) }
    );

    let error = parse_named_args(
        vec![NamedArg::Name("a".to_owned()), NamedArg::Name("b".to_owned())],
        false,
    )
    .unwrap_err();
    assert_eq!(error.message, "duplicate `name` argument");
    assert_eq!(error.site, Site::ArgumentKey(1));

    let error = parse_named_args(vec![NamedArg::Unsupported], true).unwrap_err();
    assert_eq!(error.message, "unsupported group argument; expected `name` or `description`");
    assert_eq!(error.site, Site::ArgumentKey(0));
}

#[test]
fn decides_command_headers() {
    let pattern = compile_command_name_pattern().expect("command name pattern compiles");
    let header = command_header(
        &pattern,
        NamedArgs { name: None, description: Some("Check responsiveness".to_owned()) },
        "ping".to_owned(),
        false,
    )
    .unwrap();
    assert_eq!(header, ("ping".to_owned(), "Check responsiveness".to_owned()));

    let error = command_header(
        &pattern,
        NamedArgs { name: Some("Ping".to_owned()), description: Some("Check".to_owned()) },
        "ping".to_owned(),
        false,
    )
    .unwrap_err();
    assert_eq!(
        error.message,
        "Discord chat-input command names must use lowercase variants when available"
    );

    let error = command_header(&pattern, NamedArgs { name: None, description: None }, "admin".to_owned(), true)
        .unwrap_err();
    assert_eq!(error.message, "slash-command groups require `description = \"...\"`");
    assert_eq!(error.site, Site::ItemIdent);
}

#[test]
fn names_generated_factories_and_adapters() {
    assert_eq!(command_factory_name("ping"), "__gloam_command_ping");
    assert_eq!(
        factory_path(&strings(&["admin", "ping"]), false).unwrap(),
        strings(&["admin", "__gloam_command_ping"])
    );
    let error = factory_path(&[], false).unwrap_err();
    assert_eq!(error.message, "expected a slash-command path");
    let error = factory_path(&strings(&["ping"]), true).unwrap_err();
    assert_eq!(error.message, "slash-command paths cannot contain generic arguments");
    assert_eq!(error.site, Site::PathArguments);
    assert_eq!(
        autocomplete_adapter_path(&strings(&["search", "complete"])),
        strings(&["search", "__gloam_autocomplete_complete"])
    );
}

#[test]
fn checks_group_bodies_against_native_depth() {
    let items = vec![
        GroupItem::Other,
        GroupItem::Command("ping".to_owned()),
        GroupItem::Group {
            ident: "config".to_owned(),
            body: Some(vec![GroupItem::Command("set".to_owned())]),
        },
    ];
    assert_eq!(child_factories(&items), strings(&["__gloam_command_ping", "__gloam_command_config"]));
    assert!(validate_native_hierarchy(&items).is_ok());
    let (children, leaf) = group_body(Some(&items)).unwrap();
    assert_eq!(children, strings(&["__gloam_command_ping", "__gloam_command_config"]));
    assert_eq!(leaf, vec![1]);

    let error = group_body(None).unwrap_err();
    assert_eq!(error.message, "`#[group]` requires an inline module body");
    assert_eq!(error.site, Site::Module);

    let too_deep = vec![GroupItem::Group {
        ident: "outer".to_owned(),
        body: Some(vec![GroupItem::Group { ident: "inner".to_owned(), body: Some(Vec::new()) }]),
    }];
    let error = validate_native_hierarchy(&too_deep).unwrap_err();
    assert_eq!(
        error.message,
        "Discord slash commands support at most `command -> subcommand group -> subcommand`"
    );
    assert_eq!(error.site, Site::NestedItem(0, 0));

    let error = group_body(Some(&[GroupItem::Other])).unwrap_err();
    assert_eq!(
        error.message,
        "slash-command groups require at least one direct `#[command]` or `#[group]` child"
    );

    let only_groups = vec![GroupItem::Group { ident: "config".to_owned(), body: Some(vec![GroupItem::Other]) }];
    let error = group_body(Some(&only_groups)).unwrap_err();
    assert_eq!(error.message, "slash-command groups must contain at least one `#[command]` leaf");
}
