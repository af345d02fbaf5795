use vstd::prelude::*;
use crate::text::{clone_strings, views};

verus! {

/// Severity of a lifecycle record.
#[derive(Debug, Clone, Copy, PartialEq, Eq, Structural)]
pub enum LogLevel {
    Debug,
    Warn,
}

/// Step of the command lifecycle that a record reports.
#[derive(Debug, Clone, Copy, PartialEq, Eq, Structural)]
pub enum LifecycleEvent {
    /// Normal command execution entered the lifecycle pipeline.
    Started,
    /// The command lifecycle completed successfully.
    Succeeded,
    /// Command execution failed.
    Failed,
    /// The centralized error handler handled an execution error.
    ErrorHandled,
    /// The centralized error handler itself failed.
    ErrorHandlerFailed,
}

/// One structured lifecycle record: the command path and what happened to it.
///
/// Records never carry the error or the interaction payload.
#[derive(Debug)]
pub struct LifecycleRecord {
    pub level: LogLevel,
    pub event: LifecycleEvent,
    pub path: Vec<String>,
}

impl LifecycleEvent {
    pub open spec fn spec_message(self) -> Seq<char> {
        match self {
            LifecycleEvent::Started => "slash command execution started"@,
            LifecycleEvent::Succeeded => "slash command execution completed"@,
            LifecycleEvent::Failed => "slash command execution failed"@,
            LifecycleEvent::ErrorHandled => "slash command error handled"@,
            LifecycleEvent::ErrorHandlerFailed => "slash command error handler failed"@,
        }
    }

    /// The human-readable message of the record.
    pub fn message(self) -> (message: &'static str)
        ensures
            message@ == self.spec_message(),
    {
        match self {
            LifecycleEvent::Started => "slash command execution started",
            LifecycleEvent::Succeeded => "slash command execution completed",
            LifecycleEvent::Failed => "slash command execution failed",
            LifecycleEvent::ErrorHandled => "slash command error handled",
            LifecycleEvent::ErrorHandlerFailed => "slash command error handler failed",
        }
    }
}

/// Whether `record` reports `event` for the command at `path` with the level
/// that the event carries.
pub open spec fn records(record: LifecycleRecord, event: LifecycleEvent, level: LogLevel, path: Seq<String>) -> bool {
    &&& record.event == event
    &&& record.level == level
    &&& views(record.path@) == views(path)
}

fn record(event: LifecycleEvent, level: LogLevel, path: &[String]) -> (r: LifecycleRecord)
    ensures
        records(r, event, level, path@),
{
    LifecycleRecord { level, event, path: clone_strings(path) }
}

/// Records that normal command execution entered the lifecycle pipeline.
pub fn command_started(path: &[String]) -> (r: LifecycleRecord)
    ensures
        records(r, LifecycleEvent::Started, LogLevel::Debug, path@),
{
    record(LifecycleEvent::Started, LogLevel::Debug, path)
}

/// Records successful completion of the command lifecycle.
pub fn command_succeeded(path: &[String]) -> (r: LifecycleRecord)
    ensures
        records(r, LifecycleEvent::Succeeded, LogLevel::Debug, path@),
{
    record(LifecycleEvent::Succeeded, LogLevel::Debug, path)
}

/// Records a command execution failure without the error or interaction payload.
pub fn command_failed(path: &[String]) -> (r: LifecycleRecord)
    ensures
        records(r, LifecycleEvent::Failed, LogLevel::Warn, path@),
{
    record(LifecycleEvent::Failed, LogLevel::Warn, path)
}

/// Records that the centralized error handler handled an execution error.
pub fn command_error_handled(path: &[String]) -> (r: LifecycleRecord)
    ensures
        records(r, LifecycleEvent::ErrorHandled, LogLevel::Debug, path@),
{
    record(LifecycleEvent::ErrorHandled, LogLevel::Debug, path)
}

/// Records failure of the centralized error handler without either error value.
pub fn command_error_handler_failed(path: &[String]) -> (r: LifecycleRecord)
    ensures
        records(r, LifecycleEvent::ErrorHandlerFailed, LogLevel::Warn, path@),
{
    record(LifecycleEvent::ErrorHandlerFailed, LogLevel::Warn, path)
}

} // verus!
