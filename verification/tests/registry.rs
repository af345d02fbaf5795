use gloam_commands::node::SlashCommand;
use gloam_commands::{
    AutocompleteHandlerDescriptor, CommandChoiceDescriptor, CommandDescriptor,
    CommandOptionDescriptor, CommandPolicy, CommandRegistry, Error, OptionKind,
};

type Command = SlashCommand<u8, u8, u8>;

fn ping() -> CommandDescriptor {
    CommandDescriptor::new("ping", "Check bot responsiveness")
}

fn admin() -> CommandDescriptor {
    CommandDescriptor::new("admin", "Administration commands")
}

fn ban() -> CommandDescriptor {
    CommandDescriptor::new("ban", "Ban a member")
}

fn config() -> CommandDescriptor {
    CommandDescriptor::new("config", "Configuration commands")
}

fn set() -> CommandDescriptor {
    CommandDescriptor::new("set", "Set configuration")
}

fn deeper() -> CommandDescriptor {
    CommandDescriptor::new("deeper", "Too deeply nested")
}

fn search() -> CommandDescriptor {
    CommandDescriptor::new("search", "Search values").with_options(vec![
        CommandOptionDescriptor::new("query", "Search text", OptionKind::String, true)
            .autocomplete(),
    ])
}

fn invalid_autocomplete() -> CommandDescriptor {
    CommandDescriptor::new("invalid", "Invalid autocomplete").with_options(vec![
        CommandOptionDescriptor::new("query", "Search text", OptionKind::String, true)
            .with_choices(vec![CommandChoiceDescriptor::string("One", "one")])
            .autocomplete(),
    ])
}

#[test]
fn rejects_duplicate_command_names() -> Result<(), Error> {
    let mut registry = CommandRegistry::new();
    registry.insert(Command::new(ping(), 0))?;

    let duplicate = registry.insert(Command::new(ping(), 0));
    assert!(duplicate.is_err());
    Ok(())
}

#[test]
fn resolves_registered_commands() -> Result<(), Error> {
    let mut registry = CommandRegistry::new();
    registry.insert(Command::new(ping(), 0))?;

    assert_eq!(
        registry.get("ping").map(|command| command.descriptor()),
        Some(&ping())
    );
    assert!(registry.get("missing").is_none());
    Ok(())
}

#[test]
fn accepts_discord_native_group_hierarchy() -> Result<(), Error> {
    let command = Command::group(
        admin(),
        vec![
            Command::new(ban(), 0),
            Command::group(config(), vec![Command::new(set(), 0)]),
        ],
    );
    let mut registry = CommandRegistry::new();
    registry.insert(command)?;
    Ok(())
}

#[test]
fn accepts_valid_autocomplete_configuration() -> Result<(), Error> {
    let command = Command::new_with_autocomplete(
        search(),
        0,
        vec![AutocompleteHandlerDescriptor::new("query", 1)],
    );
    let mut registry = CommandRegistry::new();
    registry.insert(command)?;
    Ok(())
}

#[test]
fn rejects_autocomplete_without_handler() {
    let mut registry = CommandRegistry::new();

    assert!(matches!(
        registry.insert(Command::new(search(), 0)),
        Err(Error::InvalidAutocompleteConfiguration(path)) if path == "search query"
    ));
}

#[test]
fn rejects_autocomplete_with_static_choices() {
    let command = Command::new_with_autocomplete(
        invalid_autocomplete(),
        0,
        vec![AutocompleteHandlerDescriptor::new("query", 1)],
    );
    let mut registry = CommandRegistry::new();

    assert!(matches!(
        registry.insert(command),
        Err(Error::InvalidAutocompleteConfiguration(path)) if path == "invalid query"
    ));
}

#[test]
fn rejects_zero_per_command_concurrency() {
    let command = Command::new_with_policy(ping(), 0, CommandPolicy::new().max_concurrency(0));
    let mut registry = CommandRegistry::new();

    assert!(matches!(
        registry.insert(command),
        Err(Error::InvalidCommandPolicy(path)) if path == "ping"
    ));
}

#[test]
fn rejects_duplicate_nested_paths() {
    let command = Command::group(admin(), vec![Command::new(ban(), 0), Command::new(ban(), 0)]);
    let mut registry = CommandRegistry::new();

    assert!(matches!(
        registry.insert(command),
        Err(Error::DuplicateCommandPath(path)) if path == "admin ban"
    ));
}

#[test]
fn rejects_hierarchy_deeper_than_discord_supports() {
    let command = Command::group(
        admin(),
        vec![Command::group(
            config(),
            vec![Command::group(deeper(), vec![Command::new(set(), 0)])],
        )],
    );
    let mut registry = CommandRegistry::new();

    assert!(matches!(
        registry.insert(command),
        Err(Error::InvalidCommandHierarchy(path)) if path == "admin config"
    ));
}

#[test]
fn registry_iterates_commands_in_name_order() -> Result<(), Error> {
    let mut registry = CommandRegistry::new();
    registry.insert(Command::new(ping(), 0))?;
    registry.insert(Command::group(admin(), vec![Command::new(ban(), 0)]))?;
    registry.insert(Command::new(set(), 0))?;

    let names: Vec<&str> = registry
        .iter()
        .map(|command| command.descriptor().name.as_str())
        .collect();
    assert_eq!(names, ["admin", "ping", "set"]);
    assert_eq!(registry.commands().len(), 3);
    assert_eq!(registry.len(), 3);
    assert!(!registry.is_empty());
    Ok(())
}

#[test]
fn rejects_empty_groups_and_groups_with_scalar_options() {
    let mut registry: CommandRegistry<u8, u8, u8> = CommandRegistry::new();
    assert!(matches!(
        registry.insert(Command::group(admin(), Vec::new())),
        Err(Error::InvalidCommandHierarchy(path)) if path == "admin"
    ));

    let with_options = CommandDescriptor::new("admin", "Administration commands").with_options(vec![
        CommandOptionDescriptor::new("reason", "Why", OptionKind::String, false),
    ]);
    assert!(matches!(
        registry.insert(Command::group(with_options, vec![Command::new(ban(), 0)])),
        Err(Error::InvalidCommandHierarchy(path)) if path == "admin"
    ));
    assert!(registry.is_empty());
}
