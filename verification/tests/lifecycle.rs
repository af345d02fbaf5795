use gloam_commands::lifecycle::{CommandLifecycle, LifecycleStep};
use gloam_commands::observability::{
    command_error_handled, command_error_handler_failed, command_failed, command_started,
    command_succeeded, LifecycleEvent, LogLevel,
};

/// Drives one invocation: `outcome` says how each step ends.
fn drive(
    before: usize,
    after: usize,
    error_handler: bool,
    outcome: impl Fn(&LifecycleStep<&'static str>) -> Result<(), &'static str>,
) -> (Vec<String>, Vec<LifecycleEvent>, Result<(), &'static str>) {
    let (mut lifecycle, mut step, started) = CommandLifecycle::start(before, after, error_handler);
    let mut events = Vec::new();
    let mut records = vec![started];
    loop {
        let label = match &step {
            LifecycleStep::RunBefore(i) => format!("before-{i}"),
            LifecycleStep::RunHandler => "handler".to_owned(),
            LifecycleStep::RunAfter(j) => format!("after-{j}"),
            LifecycleStep::HandleError(e) => format!("error:{e}"),
            LifecycleStep::Finish(result) => return (events, records, *result),
        };
        let result = outcome(&step);
        events.push(label);
        let (next, record) = lifecycle.advance(result);
        records.extend(record);
        step = next;
    }
}

#[test]
fn runs_before_handler_and_after_hooks_in_order() {
    let (events, records, result) = drive(2, 2, false, |_| Ok(()));
    assert_eq!(events, ["before-0", "before-1", "handler", "after-0", "after-1"]);
    assert_eq!(records, [LifecycleEvent::Started, LifecycleEvent::Succeeded]);
    assert_eq!(result, Ok(()));
}

#[test]
fn routes_handler_errors_after_running_after_hooks() {
    let (events, records, result) = drive(1, 2, true, |step| match step {
        LifecycleStep::RunHandler => Err("handler"),
        _ => Ok(()),
    });
    assert_eq!(events, ["before-0", "handler", "after-0", "after-1", "error:handler"]);
    assert_eq!(
        records,
        [LifecycleEvent::Started, LifecycleEvent::Failed, LifecycleEvent::ErrorHandled]
    );
    assert_eq!(result, Ok(()));
}

#[test]
fn before_hook_failure_short_circuits_command_and_after_hooks() {
    let (events, _, result) = drive(2, 1, true, |step| match step {
        LifecycleStep::RunBefore(0) => Err("before"),
        _ => Ok(()),
    });
    assert_eq!(events, ["before-0", "error:before"]);
    assert_eq!(result, Ok(()));
}

#[test]
fn preserves_first_after_hook_error_while_running_remaining_hooks() {
    let (events, _, result) = drive(0, 2, true, |step| match step {
        LifecycleStep::RunAfter(0) => Err("after-one"),
        LifecycleStep::RunAfter(1) => Err("after-two"),
        _ => Ok(()),
    });
    assert_eq!(events, ["handler", "after-0", "after-1", "error:after-one"]);
    assert_eq!(result, Ok(()));
}

#[test]
fn propagates_execution_error_without_central_handler() {
    let (events, records, result) = drive(0, 0, false, |_| Err("handler"));
    assert_eq!(events, ["handler"]);
    assert_eq!(records, [LifecycleEvent::Started, LifecycleEvent::Failed]);
    assert_eq!(result, Err("handler"));
}

#[test]
fn error_handler_failure_replaces_the_result() {
    let (events, records, result) = drive(0, 0, true, |step| match step {
        LifecycleStep::HandleError(_) => Err("handler failed"),
        _ => Err("handler"),
    });
    assert_eq!(events, ["handler", "error:handler"]);
    assert_eq!(
        records,
        [LifecycleEvent::Started, LifecycleEvent::Failed, LifecycleEvent::ErrorHandlerFailed]
    );
    assert_eq!(result, Err("handler failed"));
}

#[test]
fn lifecycle_records_carry_the_path_and_level() {
    let path = vec!["admin".to_owned(), "ban".to_owned()];
    let started = command_started(&path);
    assert_eq!(started.event, LifecycleEvent::Started);
    assert_eq!(started.level, LogLevel::Debug);
    assert_eq!(started.path, path);
    assert_eq!(command_succeeded(&path).level, LogLevel::Debug);
    assert_eq!(command_failed(&path).level, LogLevel::Warn);
    assert_eq!(command_error_handled(&path).event, LifecycleEvent::ErrorHandled);
    let failed = command_error_handler_failed(&path);
    assert_eq!(failed.level, LogLevel::Warn);
    assert_eq!(failed.event.message(), "slash command error handler failed");
}
