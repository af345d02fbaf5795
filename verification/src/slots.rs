use std::sync::Arc;
use tokio::sync::{OwnedSemaphorePermit, Semaphore};
use vstd::prelude::*;
use crate::error::Error;

verus! {

/// The counting semaphore that bounds simultaneously executing handlers.
#[verifier::external_type_specification]
#[verifier::external_body]
pub struct ExSemaphore(tokio::sync::Semaphore);

/// One permit of an execution semaphore, released when dropped.
#[verifier::external_type_specification]
#[verifier::external_body]
pub struct ExOwnedSemaphorePermit(tokio::sync::OwnedSemaphorePermit);

/// Most permits one semaphore may hold; more makes its constructor panic.
pub const MAX_EXECUTION_SLOTS: usize = usize::MAX >> 3;

/// Why a non-blocking reservation did not get a permit.
#[derive(Debug, Clone, Copy, PartialEq, Eq, Structural)]
pub enum SlotRefusal {
    /// Every permit is held.
    NoPermits,
    /// The semaphore was closed.
    Closed,
}

/// Creates a shared semaphore with `permits` execution slots.
///
/// Calls `tokio::sync::Semaphore::new`, which panics above
/// `Semaphore::MAX_PERMITS` (`usize::MAX >> 3`); the bound is required here.
#[verifier::external_body]
pub(crate) fn new_slots(permits: usize) -> (slots: Arc<Semaphore>)
    requires
        permits <= MAX_EXECUTION_SLOTS,
{
    Arc::new(Semaphore::new(permits))
}

/// Tries to take one permit without waiting.
///
/// Calls `tokio::sync::Semaphore::try_acquire_owned` on a clone of the shared
/// handle. Whether a permit is free depends on the permits that other tasks
/// hold at that moment, so nothing is stated of the outcome.
#[verifier::external_body]
fn try_acquire_slot(slots: &Arc<Semaphore>) -> (permit: Result<OwnedSemaphorePermit, SlotRefusal>) {
    match Arc::clone(slots).try_acquire_owned() {
        Ok(permit) => Ok(permit),
        Err(tokio::sync::TryAcquireError::NoPermits) => Err(SlotRefusal::NoPermits),
        Err(tokio::sync::TryAcquireError::Closed) => Err(SlotRefusal::Closed),
    }
}

/// Permits held by one admitted execution: the leaf's own slot, when the leaf
/// has a concurrency limit, and a framework-wide slot.
pub struct ExecutionPermits {
    pub command: Option<OwnedSemaphorePermit>,
    pub global: OwnedSemaphorePermit,
}

/// What the outcome of the leaf's own reservation decides: `Ok(Some(permit))`
/// goes on to the framework-wide slot holding the leaf's permit, if the leaf
/// has a limit at all (`command` is `None` when it has none); `Ok(None)` stops
/// as saturated; a closed semaphore fails.
pub open spec fn command_step(command: Option<Result<OwnedSemaphorePermit, SlotRefusal>>) -> Result<
    Option<Option<OwnedSemaphorePermit>>,
    Error,
> {
    match command {
        None => Ok(Some(None)),
        Some(Ok(permit)) => Ok(Some(Some(permit))),
        Some(Err(SlotRefusal::NoPermits)) => Ok(None),
        Some(Err(SlotRefusal::Closed)) => Err(Error::CommandSchedulerClosed),
    }
}

/// What the outcome of one framework-wide reservation decides.
pub open spec fn slot_step(outcome: Result<OwnedSemaphorePermit, SlotRefusal>) -> Result<
    Option<OwnedSemaphorePermit>,
    Error,
> {
    match outcome {
        Ok(permit) => Ok(Some(permit)),
        Err(SlotRefusal::NoPermits) => Ok(None),
        Err(SlotRefusal::Closed) => Err(Error::CommandSchedulerClosed),
    }
}

/// The admission of an execution, from the outcome of the leaf's own
/// reservation and then, only if that one goes on, of the framework-wide one:
/// admitted with both permits, saturated when either slot had no permit, or
/// failed when either semaphore was closed.
pub open spec fn admission_outcome(
    command: Option<Result<OwnedSemaphorePermit, SlotRefusal>>,
    global: Result<OwnedSemaphorePermit, SlotRefusal>,
) -> Result<Option<ExecutionPermits>, Error> {
    match command_step(command) {
        Err(e) => Err(e),
        Ok(None) => Ok(None),
        Ok(Some(command)) => match slot_step(global) {
            Err(e) => Err(e),
            Ok(None) => Ok(None),
            Ok(Some(global)) => Ok(Some(ExecutionPermits { command, global })),
        },
    }
}

/// Decides what the leaf's own reservation outcome means for an execution.
pub fn command_admission(command: Option<Result<OwnedSemaphorePermit, SlotRefusal>>) -> (decision: Result<
    Option<Option<OwnedSemaphorePermit>>,
    Error,
>)
    ensures
        decision == command_step(command),
{
    match command {
        None => Ok(Some(None)),
        Some(Ok(permit)) => Ok(Some(Some(permit))),
        Some(Err(SlotRefusal::NoPermits)) => Ok(None),
        Some(Err(SlotRefusal::Closed)) => Err(Error::CommandSchedulerClosed),
    }
}

/// Decides what a framework-wide reservation outcome means.
pub fn slot_admission(outcome: Result<OwnedSemaphorePermit, SlotRefusal>) -> (decision: Result<
    Option<OwnedSemaphorePermit>,
    Error,
>)
    ensures
        decision == slot_step(outcome),
{
    match outcome {
        Ok(permit) => Ok(Some(permit)),
        Err(SlotRefusal::NoPermits) => Ok(None),
        Err(SlotRefusal::Closed) => Err(Error::CommandSchedulerClosed),
    }
}

/// Decides the admission of an execution from both reservation outcomes; the
/// framework-wide outcome is not consulted when the leaf's own slot stops it.
pub fn execution_admission(
    command: Option<Result<OwnedSemaphorePermit, SlotRefusal>>,
    global: Result<OwnedSemaphorePermit, SlotRefusal>,
) -> (decision: Result<Option<ExecutionPermits>, Error>)
    ensures
        decision == admission_outcome(command, global),
{
    match command_admission(command) {
        Err(e) => Err(e),
        Ok(None) => Ok(None),
        Ok(Some(command)) => match slot_admission(global) {
            Err(e) => Err(e),
            Ok(None) => Ok(None),
            Ok(Some(global)) => Ok(Some(ExecutionPermits { command, global })),
        },
    }
}

/// Reserves the execution slots of one invocation without waiting: first the
/// leaf's own slot, when the leaf has a limit, and only if that one was taken
/// the framework-wide slot. `Ok(None)` means that one of them is saturated; a
/// slot already taken is released again by dropping it.
///
/// Which outcome each reservation has depends on the permits that other
/// invocations hold; whatever they were, the result is their admission.
pub fn reserve_execution(command_slots: Option<&Arc<Semaphore>>, global_slots: &Arc<Semaphore>) -> (result: Result<
    Option<ExecutionPermits>,
    Error,
>)
    ensures
        exists|command: Option<Result<OwnedSemaphorePermit, SlotRefusal>>, global: Result<OwnedSemaphorePermit, SlotRefusal>|
            (command is Some) == (command_slots is Some) && result == #[trigger] admission_outcome(command, global),
        result matches Err(e) ==> e == Error::CommandSchedulerClosed,
        result matches Ok(Some(permits)) ==> (permits.command is Some) == (command_slots is Some),
{
    let command_outcome = match command_slots {
        Some(slots) => Some(try_acquire_slot(slots)),
        None => None,
    };
    let ghost command_seen = command_outcome;
    match command_admission(command_outcome) {
        Err(e) => {
            let ghost global: Result<OwnedSemaphorePermit, SlotRefusal> = Err(SlotRefusal::NoPermits);
            assert(Err::<Option<ExecutionPermits>, Error>(e) == admission_outcome(command_seen, global));
            Err(e)
        },
        Ok(None) => {
            let ghost global: Result<OwnedSemaphorePermit, SlotRefusal> = Err(SlotRefusal::NoPermits);
            assert(Ok::<Option<ExecutionPermits>, Error>(None) == admission_outcome(command_seen, global));
            Ok(None)
        },
        Ok(Some(command)) => {
            let global_outcome = try_acquire_slot(global_slots);
            let ghost global_seen = global_outcome;
            let decision = match slot_admission(global_outcome) {
                Err(e) => Err(e),
                Ok(None) => Ok(None),
                Ok(Some(global)) => Ok(Some(ExecutionPermits { command, global })),
            };
            assert(decision == admission_outcome(command_seen, global_seen));
            decision
        },
    }
}

/// Reserves a framework-wide slot for an autocomplete handler, which has no
/// per-command limit.
///
/// Whatever the reservation's outcome was, the result is its admission.
pub fn reserve_autocomplete(global_slots: &Arc<Semaphore>) -> (result: Result<Option<OwnedSemaphorePermit>, Error>)
    ensures
        exists|outcome: Result<OwnedSemaphorePermit, SlotRefusal>| result == #[trigger] slot_step(outcome),
        result matches Err(e) ==> e == Error::CommandSchedulerClosed,
{
    let outcome = try_acquire_slot(global_slots);
    let ghost seen = outcome;
    let decision = slot_admission(outcome);
    assert(decision == slot_step(seen));
    decision
}

} // verus!
