use gloam_commands::autocomplete::autocomplete_response_choices;
use gloam_commands::dispatch::{
    focused_option_index, plan_dispatch, resolve_command, CommandData, InteractionKind,
};
use gloam_commands::interaction::{SubmittedOption, SubmittedValue};
use gloam_commands::node::SlashCommand;
use gloam_commands::{
    AutocompleteChoice, AutocompleteHandlerDescriptor, CommandDescriptor, CommandOption,
    CommandOptionDescriptor, CommandOptions, CommandRegistry, DispatchPlan, Error,
    InteractionSummary, OptionKind,
};

type Command = SlashCommand<&'static str, &'static str, u8>;

fn submitted(name: &str, kind: OptionKind, options: Vec<SubmittedOption>) -> SubmittedOption {
    SubmittedOption { name: name.to_owned(), kind, value: None, options, focused: None }
}

fn scalar(name: &str, kind: OptionKind, value: SubmittedValue, focused: Option<bool>) -> SubmittedOption {
    SubmittedOption { name: name.to_owned(), kind, value: Some(value), options: Vec::new(), focused }
}

fn interaction(kind: InteractionKind, name: &str, options: Vec<SubmittedOption>) -> InteractionSummary {
    InteractionSummary {
        kind,
        data: Some(CommandData { name: name.to_owned(), chat_input: true, options }),
    }
}

fn registry() -> CommandRegistry<&'static str, &'static str, u8> {
    let set = CommandDescriptor::new("set", "Set configuration").with_options(vec![
        CommandOptionDescriptor::new("count", "Configured value", OptionKind::Integer, true),
    ]);
    let search = CommandDescriptor::new("search", "Search configuration values").with_options(vec![
        CommandOptionDescriptor::new("query", "Search query", OptionKind::String, true).autocomplete(),
    ]);
    let mut registry = CommandRegistry::new();
    registry
        .insert(Command::group(
            CommandDescriptor::new("admin", "Administration commands"),
            vec![
                Command::new(CommandDescriptor::new("ping", "Check"), "ping-handler"),
                Command::group(
                    CommandDescriptor::new("config", "Configuration commands"),
                    vec![
                        Command::new(set, "set-handler"),
                        Command::new_with_autocomplete(
                            search,
                            "search-handler",
                            vec![AutocompleteHandlerDescriptor::new("query", "complete-query")],
                        ),
                    ],
                ),
            ],
        ))
        .expect("valid tree");
    registry
        .insert(Command::new(CommandDescriptor::new("ping", "Check"), "top-ping"))
        .expect("valid leaf");
    registry
}

fn search_options(focused: Option<bool>) -> Vec<SubmittedOption> {
    vec![submitted(
        "config",
        OptionKind::SubCommandGroup,
        vec![submitted(
            "search",
            OptionKind::SubCommand,
            vec![scalar("query", OptionKind::String, SubmittedValue::String("par".to_owned()), focused)],
        )],
    )]
}

#[test]
fn reports_unregistered_chat_input_commands() {
    let registry = registry();
    let summary = interaction(InteractionKind::ApplicationCommand, "missing", Vec::new());
    assert!(matches!(
        plan_dispatch(&registry, &summary),
        Ok(DispatchPlan::Unregistered(name)) if name == "missing"
    ));
}

#[test]
fn ignores_unrelated_interactions() {
    let registry = registry();
    let other = InteractionSummary { kind: InteractionKind::Other, data: None };
    assert!(matches!(plan_dispatch(&registry, &other), Ok(DispatchPlan::Ignored)));

    let user_command = InteractionSummary {
        kind: InteractionKind::ApplicationCommand,
        data: Some(CommandData { name: "ping".to_owned(), chat_input: false, options: Vec::new() }),
    };
    assert!(matches!(plan_dispatch(&registry, &user_command), Ok(DispatchPlan::Ignored)));

    let missing = InteractionSummary { kind: InteractionKind::Autocomplete, data: None };
    assert!(matches!(
        plan_dispatch(&registry, &missing),
        Err(Error::MissingApplicationCommandData)
    ));
}

#[test]
fn dispatches_registered_chat_input_commands() {
    let registry = registry();
    let summary = interaction(InteractionKind::ApplicationCommand, "ping", Vec::new());
    match plan_dispatch(&registry, &summary) {
        Ok(DispatchPlan::Command { command_name, handler, path, options, .. }) => {
            assert_eq!(command_name, "ping");
            assert_eq!(*handler, "top-ping");
            assert_eq!(path, ["ping"]);
            assert!(options.is_empty());
        }
        _ => panic!("expected a command plan"),
    }
}

#[test]
fn dispatches_nested_subcommand_with_leaf_option_scope() {
    let registry = registry();
    let summary = interaction(
        InteractionKind::ApplicationCommand,
        "admin",
        vec![submitted(
            "config",
            OptionKind::SubCommandGroup,
            vec![submitted(
                "set",
                OptionKind::SubCommand,
                vec![scalar("count", OptionKind::Integer, SubmittedValue::Integer(7), None)],
            )],
        )],
    );
    match plan_dispatch(&registry, &summary) {
        Ok(DispatchPlan::Command { handler, path, options, .. }) => {
            assert_eq!(*handler, "set-handler");
            assert_eq!(path, ["admin", "config", "set"]);
            let count = i64::extract(&CommandOptions::from_slice(options), "count").expect("count");
            assert_eq!(count, 7);
        }
        _ => panic!("expected a command plan"),
    }
}

#[test]
fn rejects_unknown_nested_command_paths() {
    let registry = registry();
    let summary = interaction(
        InteractionKind::ApplicationCommand,
        "admin",
        vec![submitted("missing", OptionKind::SubCommand, Vec::new())],
    );
    assert!(matches!(
        plan_dispatch(&registry, &summary),
        Err(Error::UnknownCommandPath(path)) if path == "admin missing"
    ));
}

#[test]
fn rejects_branches_of_the_wrong_kind() {
    let registry = registry();
    let as_group = interaction(
        InteractionKind::ApplicationCommand,
        "admin",
        vec![submitted("ping", OptionKind::SubCommandGroup, Vec::new())],
    );
    assert!(matches!(
        plan_dispatch(&registry, &as_group),
        Err(Error::UnknownCommandPath(path)) if path == "admin ping"
    ));
    let two_branches = interaction(
        InteractionKind::ApplicationCommand,
        "admin",
        vec![
            submitted("ping", OptionKind::SubCommand, Vec::new()),
            submitted("ping", OptionKind::SubCommand, Vec::new()),
        ],
    );
    assert!(matches!(
        plan_dispatch(&registry, &two_branches),
        Err(Error::UnknownCommandPath(path)) if path == "admin"
    ));
    let group_as_leaf = interaction(
        InteractionKind::ApplicationCommand,
        "admin",
        vec![submitted("config", OptionKind::SubCommand, Vec::new())],
    );
    assert!(matches!(
        plan_dispatch(&registry, &group_as_leaf),
        Err(Error::UnknownCommandPath(path)) if path == "admin config"
    ));
}

#[test]
fn macro_autocomplete_routes_nested_focus_before_response_validation() {
    let registry = registry();
    let summary = interaction(InteractionKind::Autocomplete, "admin", search_options(Some(true)));
    match plan_dispatch(&registry, &summary) {
        Ok(DispatchPlan::Autocomplete {
            command_name,
            option_kind,
            autocomplete_handler,
            path,
            options,
            focused_index,
        }) => {
            assert_eq!(command_name, "search");
            assert_eq!(option_kind, OptionKind::String);
            assert_eq!(*autocomplete_handler, "complete-query");
            assert_eq!(path, ["admin", "config", "search"]);
            assert_eq!(options[focused_index].name, "query");
            assert_eq!(options[focused_index].value, Some(SubmittedValue::String("par".to_owned())));

            let choices: Vec<AutocompleteChoice> = (0..26)
                .map(|index| {
                    AutocompleteChoice::string(&format!("Result {index}"), &format!("result-{index}"))
                })
                .collect();
            match autocomplete_response_choices(option_kind, &choices) {
                Err(Error::InvalidAutocompleteResponse(message)) => {
                    assert!(message.contains("at most 25 choices"));
                }
                _ => panic!("expected autocomplete response validation error"),
            }
        }
        _ => panic!("expected an autocomplete plan"),
    }
}

#[test]
fn autocomplete_requires_exactly_one_focused_leaf_option() {
    let registry = registry();
    let summary = interaction(InteractionKind::Autocomplete, "admin", search_options(Some(false)));
    assert!(matches!(
        plan_dispatch(&registry, &summary),
        Err(Error::InvalidAutocompleteFocus(path)) if path == "admin config search"
    ));
}

#[test]
fn focused_option_must_be_unique() {
    let path = vec!["a".to_owned(), "b".to_owned()];
    let one = vec![
        scalar("x", OptionKind::String, SubmittedValue::String(String::new()), None),
        scalar("y", OptionKind::String, SubmittedValue::String(String::new()), Some(true)),
    ];
    assert_eq!(focused_option_index(&one, &path).expect("one focused"), 1);
    let two = vec![
        scalar("x", OptionKind::String, SubmittedValue::String(String::new()), Some(true)),
        scalar("y", OptionKind::String, SubmittedValue::String(String::new()), Some(true)),
    ];
    assert!(matches!(
        focused_option_index(&two, &path),
        Err(Error::InvalidAutocompleteFocus(p)) if p == "a b"
    ));
}

#[test]
fn autocomplete_of_an_unregistered_option_is_refused() {
    let registry = registry();
    let summary = interaction(
        InteractionKind::Autocomplete,
        "admin",
        vec![submitted(
            "config",
            OptionKind::SubCommandGroup,
            vec![submitted(
                "set",
                OptionKind::SubCommand,
                vec![scalar("count", OptionKind::Integer, SubmittedValue::Integer(1), Some(true))],
            )],
        )],
    );
    assert!(matches!(
        plan_dispatch(&registry, &summary),
        Err(Error::UnknownAutocompleteOption { path, option }) if path == "admin config set" && option == "count"
    ));
}

#[test]
fn resolution_of_a_top_level_leaf_keeps_every_option() {
    let leaf = Command::new(CommandDescriptor::new("echo", "Echo"), "echo");
    let options = vec![scalar("text", OptionKind::String, SubmittedValue::String("hi".to_owned()), None)];
    let resolved = resolve_command(&leaf, &options).expect("leaf");
    assert_eq!(resolved.path, ["echo"]);
    assert_eq!(resolved.options.len(), 1);
}

#[test]
fn dispatch_extracts_typed_options_before_invoking_handler() {
    let capture = CommandDescriptor::new("capture", "Capture typed slash-command options").with_options(vec![
        CommandOptionDescriptor::new("text", "Text value", OptionKind::String, true),
        CommandOptionDescriptor::new("enabled", "Boolean value", OptionKind::Boolean, true),
        CommandOptionDescriptor::new("count", "Integer value", OptionKind::Integer, true),
        CommandOptionDescriptor::new("ratio", "Number value", OptionKind::Number, true),
        CommandOptionDescriptor::new("note", "Optional note", OptionKind::String, false),
    ]);
    let mut registry: CommandRegistry<&'static str, &'static str, u8> = CommandRegistry::new();
    registry.insert(Command::new(capture, "capture-handler")).expect("valid leaf");
    let summary = interaction(
        InteractionKind::ApplicationCommand,
        "capture",
        vec![
            scalar("text", OptionKind::String, SubmittedValue::String("hello".to_owned()), None),
            scalar("enabled", OptionKind::Boolean, SubmittedValue::Boolean(true), None),
            scalar("count", OptionKind::Integer, SubmittedValue::Integer(7), None),
            scalar("ratio", OptionKind::Number, SubmittedValue::Number(1.5f64.to_bits()), None),
        ],
    );
    match plan_dispatch(&registry, &summary) {
        Ok(DispatchPlan::Command { handler, options, .. }) => {
            assert_eq!(*handler, "capture-handler");
            let options = CommandOptions::from_slice(options);
            let captured = (
                String::extract(&options, "text"),
                bool::extract(&options, "enabled"),
                i64::extract(&options, "count"),
                gloam_commands::interaction::Number::extract(&options, "ratio").map(|n| f64::from_bits(n.bits)),
                Option::<String>::extract(&options, "note"),
            );
            assert_eq!(
                captured,
                (Ok("hello".to_owned()), Ok(true), Ok(7), Ok(1.5), Ok(None))
            );
        }
        _ => panic!("expected a command plan"),
    }
}
