use gloam_commands::node::SlashCommand;
use gloam_commands::registration::SynchronizationPlan;
use gloam_commands::{
    CommandDescriptor, Error, Framework, Registration, DEFAULT_MAX_CONCURRENT_COMMANDS,
};

type Command = SlashCommand<u8, u8, u8>;

fn ping() -> CommandDescriptor {
    CommandDescriptor::new("ping", "Check bot responsiveness")
}

#[test]
fn builder_registers_commands() -> Result<(), Error> {
    let framework = Framework::builder(())
        .command(Command::new(ping(), 0))
        .build()?;

    assert_eq!(framework.registry().len(), 1);
    assert!(framework.registry().get("ping").is_some());
    assert_eq!(framework.registration(), Registration::Disabled);
    assert_eq!(
        framework.max_concurrent_commands(),
        DEFAULT_MAX_CONCURRENT_COMMANDS
    );
    Ok(())
}

#[test]
fn builder_configures_registration_target() -> Result<(), Error> {
    let registration = Registration::Guild(42);
    let framework = Framework::<(), u8, u8, u8>::builder(())
        .registration(registration)
        .build()?;

    assert_eq!(framework.registration(), registration);
    Ok(())
}

#[test]
fn builder_rejects_duplicate_names() {
    let result = Framework::builder(())
        .command(Command::new(ping(), 0))
        .command(Command::new(ping(), 0))
        .build();

    assert!(matches!(result, Err(Error::DuplicateCommand(name)) if name == "ping"));
}

#[test]
fn builder_rejects_zero_concurrency() {
    let result = Framework::<(), u8, u8, u8>::builder(())
        .max_concurrent_commands(0)
        .build();
    assert!(matches!(result, Err(Error::InvalidConcurrencyLimit)));
}

#[test]
fn builder_configures_concurrency_limit() -> Result<(), Error> {
    let framework = Framework::<(), u8, u8, u8>::builder(())
        .max_concurrent_commands(3)
        .build()?;
    assert_eq!(framework.max_concurrent_commands(), 3);
    Ok(())
}

#[test]
fn builder_adds_commands_in_bulk_and_keeps_application_state() -> Result<(), Error> {
    let framework = Framework::builder(7u32)
        .commands(vec![
            Command::new(ping(), 0),
            Command::new(CommandDescriptor::new("help", "Show help"), 1),
        ])
        .build()?;
    assert_eq!(*framework.data(), 7);
    assert_eq!(framework.registry().len(), 2);
    assert!(framework.registry().get("help").is_some());
    Ok(())
}

#[test]
fn disabled_registration_plans_no_synchronization() -> Result<(), Error> {
    let framework = Framework::builder(())
        .command(Command::new(ping(), 0))
        .build()?;
    assert!(matches!(framework.synchronization_plan(), SynchronizationPlan::Skip));

    let guild = Framework::builder(())
        .command(Command::new(ping(), 0))
        .registration(Registration::Guild(9))
        .build()?;
    match guild.synchronization_plan() {
        SynchronizationPlan::Guild(id, requests) => {
            assert_eq!(id, 9);
            assert_eq!(requests.len(), 1);
            assert_eq!(requests[0].name, "ping");
        }
        _ => panic!("expected a guild synchronization"),
    }
    Ok(())
}

#[test]
fn registration_is_opt_in_by_default() {
    assert_eq!(Registration::default(), Registration::Disabled);
    assert_ne!(Registration::Global, Registration::Guild(1));
}
