use gloam_commands::node::SlashCommand;
use gloam_commands::registration::{application_command, create_application_command};
use gloam_commands::{
    CommandChoiceDescriptor, CommandDescriptor, CommandOptionDescriptor, NumericValue, OptionKind,
};

fn search() -> CommandDescriptor {
    CommandDescriptor::new("search", "Search for entries").with_options(vec![
        CommandOptionDescriptor::new("query", "Search text", OptionKind::String, true)
            .min_length(1)
            .max_length(64),
        CommandOptionDescriptor::new("limit", "Maximum results", OptionKind::Integer, false)
            .min_integer(1)
            .max_integer(25),
    ])
}

#[test]
fn converts_descriptor_to_gloamwire_command() {
    let command = create_application_command(&search());

    assert_eq!(command.name, "search");
    assert_eq!(command.description, "Search for entries");
    assert_eq!(command.options.len(), 2);
    assert_eq!(command.options[0].name, "query");
    assert_eq!(command.options[0].required, Some(true));
    assert_eq!(command.options[0].min_length, Some(1));
    assert_eq!(command.options[0].max_length, Some(64));
    assert_eq!(command.options[1].required, None);
    assert_eq!(command.options[1].min_value, Some(NumericValue::Integer(1)));
    assert_eq!(command.options[1].max_value, Some(NumericValue::Integer(25)));
}

#[test]
fn converts_groups_to_native_subcommand_options() {
    let set = CommandDescriptor::new("set", "Set a value").with_options(vec![
        CommandOptionDescriptor::new("mode", "Mode", OptionKind::String, true)
            .with_choices(vec![CommandChoiceDescriptor::string("Fast", "fast")]),
        CommandOptionDescriptor::new("query", "Query", OptionKind::String, false).autocomplete(),
    ]);
    let tree = SlashCommand::<u8, u8, u8>::group(
        CommandDescriptor::new("admin", "Administration commands"),
        vec![
            SlashCommand::new(CommandDescriptor::new("ban", "Ban a user"), 0),
            SlashCommand::group(
                CommandDescriptor::new("config", "Configuration commands"),
                vec![SlashCommand::new(set, 0)],
            ),
        ],
    );
    let request = application_command(&tree);
    assert_eq!(request.name, "admin");
    assert_eq!(request.options.len(), 2);
    assert_eq!(request.options[0].kind, OptionKind::SubCommand);
    assert_eq!(request.options[0].name, "ban");
    assert_eq!(request.options[1].kind, OptionKind::SubCommandGroup);
    let set = &request.options[1].options[0];
    assert_eq!(set.kind, OptionKind::SubCommand);
    assert_eq!(set.options.len(), 2);
    assert_eq!(set.options[0].choices.len(), 1);
    assert_eq!(set.options[0].required, Some(true));
    assert_eq!(set.options[1].autocomplete, Some(true));
    assert_eq!(set.options[1].required, None);
}

#[test]
fn guild_bulk_command_does_not_invent_existing_id() {
    let framework = gloam_commands::Framework::<(), u8, u8, u8>::builder(())
        .command(SlashCommand::new(search(), 0))
        .registration(gloam_commands::Registration::Guild(42))
        .build()
        .expect("valid framework");
    match framework.synchronization_plan() {
        gloam_commands::registration::SynchronizationPlan::Guild(guild, requests) => {
            assert_eq!(guild, 42);
            assert_eq!(requests.len(), 1);
            // A bulk request carries the command itself and no identifier of
            // an existing Discord command.
            assert_eq!(requests[0].name, "search");
            assert_eq!(requests[0].description, "Search for entries");
            assert_eq!(requests[0].options.len(), 2);
        }
        _ => panic!("expected a guild synchronization plan"),
    }
}
