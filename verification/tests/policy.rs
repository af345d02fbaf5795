use std::sync::Arc;

use gloam_commands::cooldown::CooldownTable;
use gloam_commands::node::SlashCommand;
use gloam_commands::policy::{ContextKind, InteractionFacts, PolicyAction};
use gloam_commands::slots::{
    command_admission, execution_admission, reserve_autocomplete, reserve_execution, slot_admission,
    SlotRefusal,
};
use gloam_commands::{
    CheckDescriptor, CommandDescriptor, CommandPolicy, CommandRegistry, Error, Framework,
};

const BAN_MEMBERS: u64 = 1 << 2;
const MANAGE_GUILD: u64 = 1 << 5;
const SECOND: u128 = 1_000_000_000;

fn dm(user: u64) -> InteractionFacts {
    InteractionFacts {
        context: Some(ContextKind::BotDm),
        member_permissions: None,
        app_permissions: None,
        user_id: Some(user),
        member_user_id: None,
    }
}

fn guild(user: u64, member: u64, app: u64) -> InteractionFacts {
    InteractionFacts {
        context: Some(ContextKind::Guild),
        member_permissions: Some(member),
        app_permissions: Some(app),
        user_id: None,
        member_user_id: Some(user),
    }
}

#[test]
fn evaluates_custom_checks_in_declaration_order_before_handler() {
    let policy = CommandPolicy::new()
        .check(CheckDescriptor::new("first_check", 1u8))
        .check(CheckDescriptor::new("second_check", 2u8));
    let mut order = Vec::new();
    let mut action = policy.start(&dm(10), "policy").expect("no gate");
    while let PolicyAction::RunCheck(index) = action {
        order.push(policy.checks()[index].name().to_owned());
        action = policy.after_check(index, true, "policy").expect("check passes");
    }
    assert_eq!(action, PolicyAction::Finished);
    assert_eq!(order, ["first_check", "second_check"]);
}

#[test]
fn denies_custom_checks_without_running_handler() {
    let policy = CommandPolicy::new().check(CheckDescriptor::new("denying_check", 0u8));
    assert_eq!(policy.start(&dm(10), "policy"), Ok(PolicyAction::RunCheck(0)));
    assert!(matches!(
        policy.after_check(0, false, "policy"),
        Err(Error::CommandCheckFailed { path, check }) if path == "policy" && check == "denying_check"
    ));
}

#[test]
fn enforces_guild_only_contexts() {
    let policy = CommandPolicy::<u8>::new().guild_only();
    assert!(matches!(
        policy.start(&dm(10), "policy"),
        Err(Error::CommandContextNotAllowed(path)) if path == "policy"
    ));
    assert_eq!(policy.start(&guild(10, 0, 0), "policy"), Ok(PolicyAction::Finished));
}

#[test]
fn enforces_member_and_application_permissions() {
    let policy = CommandPolicy::<u8>::new()
        .guild_only()
        .member_permissions(BAN_MEMBERS)
        .bot_permissions(MANAGE_GUILD);
    assert!(matches!(
        policy.start(&guild(10, 0, MANAGE_GUILD), "policy"),
        Err(Error::MissingMemberPermissions { .. })
    ));
    assert!(matches!(
        policy.start(&guild(10, BAN_MEMBERS, 0), "policy"),
        Err(Error::MissingBotPermissions { path, required, actual })
            if path == "policy" && required == MANAGE_GUILD && actual == 0
    ));
    assert_eq!(
        policy.start(&guild(10, BAN_MEMBERS, MANAGE_GUILD), "policy"),
        Ok(PolicyAction::Finished)
    );
}

#[test]
fn cooldown_is_scoped_per_invoking_user() {
    let policy = CommandPolicy::<u8>::new().cooldown(SECOND * 60);
    let duration = policy.cooldown_duration().expect("cooldown");
    assert_eq!(policy.start(&dm(10), "policy"), Ok(PolicyAction::ReserveCooldown(SECOND * 60)));

    let mut table = CooldownTable::new();
    table.reserve(dm(10).invoking_user(), SECOND, duration, "policy").expect("first use");
    let cooldown = table
        .reserve(dm(10).invoking_user(), SECOND * 3 / 2, duration, "policy")
        .expect_err("same user should be on cooldown");
    assert!(matches!(
        cooldown,
        Error::CommandOnCooldown { path, retry_after_ns } if path == "policy" && retry_after_ns == SECOND * 119 / 2
    ));
    table.reserve(dm(11).invoking_user(), SECOND * 3 / 2, duration, "policy").expect("other user");
    table.reserve(dm(10).invoking_user(), SECOND * 61, duration, "policy").expect("cooldown expired");
}

#[test]
fn cooldown_requires_an_invoking_user() {
    let mut table = CooldownTable::new();
    let facts = InteractionFacts {
        context: None,
        member_permissions: None,
        app_permissions: None,
        user_id: None,
        member_user_id: None,
    };
    assert!(matches!(
        table.reserve(facts.invoking_user(), 0, 10, "policy"),
        Err(Error::CommandUserUnavailable(path)) if path == "policy"
    ));
}

#[test]
fn per_command_concurrency_refuses_waiters_before_spawn() -> Result<(), Error> {
    let policy = CommandPolicy::<u8>::new().max_concurrency(1);
    assert_eq!(policy.max_concurrent_executions(), Some(1));
    let framework = Framework::builder(())
        .command(SlashCommand::<u8, u8, u8>::new_with_policy(
            CommandDescriptor::new("slow", "Exercise command concurrency"),
            0,
            policy,
        ))
        .build()?;
    let leaf = framework.registry().get("slow").expect("registered");
    let slots = leaf.policy().expect("leaf policy").command_slots().expect("own slots");

    let first = reserve_execution(Some(slots), &framework.command_slots)?.expect("first admitted");
    assert!(first.command.is_some());
    assert!(reserve_execution(Some(slots), &framework.command_slots)?.is_none());
    drop(first);
    assert!(reserve_execution(Some(slots), &framework.command_slots)?.is_some());
    Ok(())
}

#[test]
fn global_slots_bound_every_command() -> Result<(), Error> {
    let framework = Framework::<(), u8, u8, u8>::builder(())
        .max_concurrent_commands(1)
        .build()?;
    let held = reserve_execution(None, &framework.command_slots)?.expect("admitted");
    assert!(held.command.is_none());
    assert!(reserve_execution(None, &framework.command_slots)?.is_none());
    let closed = Arc::clone(&framework.command_slots);
    drop(held);
    closed.close();
    assert!(matches!(
        reserve_execution(None, &framework.command_slots),
        Err(Error::CommandSchedulerClosed)
    ));
    let _registry: &CommandRegistry<u8, u8, u8> = framework.registry();
    Ok(())
}

fn permit(slots: &Arc<tokio::sync::Semaphore>) -> tokio::sync::OwnedSemaphorePermit {
    Arc::clone(slots).try_acquire_owned().expect("free permit")
}

#[test]
fn admission_needs_both_slots() {
    let slots = Arc::new(tokio::sync::Semaphore::new(4));

    let admitted = execution_admission(Some(Ok(permit(&slots))), Ok(permit(&slots)))
        .expect("no error")
        .expect("admitted");
    assert!(admitted.command.is_some());
    assert_eq!(slots.available_permits(), 2);
    drop(admitted);

    let without_limit = execution_admission(None, Ok(permit(&slots))).expect("no error").expect("admitted");
    assert!(without_limit.command.is_none());
    drop(without_limit);

    // A saturated leaf stops admission; the framework-wide permit handed in is released.
    assert!(execution_admission(Some(Err(SlotRefusal::NoPermits)), Ok(permit(&slots)))
        .expect("no error")
        .is_none());
    assert_eq!(slots.available_permits(), 4);
    assert!(execution_admission(Some(Ok(permit(&slots))), Err(SlotRefusal::NoPermits))
        .expect("no error")
        .is_none());
    assert!(matches!(
        execution_admission(Some(Err(SlotRefusal::Closed)), Err(SlotRefusal::NoPermits)),
        Err(Error::CommandSchedulerClosed)
    ));
    assert!(matches!(
        execution_admission(None, Err(SlotRefusal::Closed)),
        Err(Error::CommandSchedulerClosed)
    ));

    assert!(matches!(command_admission(None), Ok(Some(None))));
    assert!(matches!(command_admission(Some(Err(SlotRefusal::NoPermits))), Ok(None)));
    assert!(matches!(slot_admission(Err(SlotRefusal::NoPermits)), Ok(None)));
    assert!(matches!(slot_admission(Err(SlotRefusal::Closed)), Err(Error::CommandSchedulerClosed)));
    assert!(matches!(slot_admission(Ok(permit(&slots))), Ok(Some(_))));
}

#[test]
fn saturated_leaf_does_not_take_the_framework_slot() -> Result<(), Error> {
    let leaf = Arc::new(tokio::sync::Semaphore::new(1));
    let global = Arc::new(tokio::sync::Semaphore::new(2));
    let first = reserve_execution(Some(&leaf), &global)?.expect("admitted");
    assert_eq!(global.available_permits(), 1);
    assert!(reserve_execution(Some(&leaf), &global)?.is_none());
    assert_eq!(global.available_permits(), 1);
    drop(first);
    assert_eq!(global.available_permits(), 2);

    let completion = reserve_autocomplete(&global)?.expect("admitted");
    assert_eq!(global.available_permits(), 1);
    drop(completion);
    Ok(())
}

#[test]
fn cooldown_counts_sub_millisecond_time() {
    let mut table = CooldownTable::new();
    table.reserve(Some(7), 0, 1_000, "policy").expect("first use");
    assert!(matches!(
        table.reserve(Some(7), 999, 1_000, "policy"),
        Err(Error::CommandOnCooldown { retry_after_ns: 1, .. })
    ));
    table.reserve(Some(7), 1_000, 1_000, "policy").expect("deadline reached");
}
