use vstd::prelude::*;
use crate::observability::LifecycleEvent;

verus! {

/// Where a command invocation stands in its lifecycle.
#[derive(Debug, Clone, Copy, PartialEq, Eq, Structural)]
pub enum LifecycleStage {
    /// The before-command hook of this index is running.
    Before(usize),
    /// The execution policy and the command handler are running.
    Handler,
    /// The after-command hook of this index is running.
    After(usize),
    /// The centralized error handler is running.
    HandlingError,
    /// The lifecycle has finished.
    Done,
}

/// What the runtime must do next for one invocation.
pub enum LifecycleStep<E> {
    /// Run the before-command hook of this index.
    RunBefore(usize),
    /// Evaluate the execution policy and run the command handler.
    RunHandler,
    /// Run the after-command hook of this index.
    RunAfter(usize),
    /// Hand the execution error to the centralized error handler.
    HandleError(E),
    /// The invocation is over, with this result.
    Finish(Result<(), E>),
}

/// Lifecycle of one command invocation: before hooks in order, then the
/// handler, then every after hook, then error routing.
///
/// A failing before hook skips the handler and the after hooks. After hooks
/// all run even when the handler or an earlier after hook failed; the first
/// execution error is the one that is kept.
pub struct CommandLifecycle<E> {
    pub before_hooks: usize,
    pub after_hooks: usize,
    pub error_handler: bool,
    pub stage: LifecycleStage,
    pub error: Option<E>,
}

impl<E> CommandLifecycle<E> {
    /// Whether the lifecycle values are consistent with its hook counts.
    pub open spec fn wf(self) -> bool {
        match self.stage {
            LifecycleStage::Before(i) => i < self.before_hooks && self.error is None,
            LifecycleStage::Handler => self.error is None,
            LifecycleStage::After(j) => j < self.after_hooks,
            LifecycleStage::HandlingError => self.error_handler && self.error is None,
            LifecycleStage::Done => self.error is None,
        }
    }

    /// The state and step that end the execution part: success, or the kept
    /// error routed to the error handler when one is configured.
    pub open spec fn spec_resolve(self, error: Option<E>) -> (Self, LifecycleStep<E>, LifecycleEvent) {
        match error {
            None => (
                CommandLifecycle { stage: LifecycleStage::Done, error: None, ..self },
                LifecycleStep::Finish(Ok(())),
                LifecycleEvent::Succeeded,
            ),
            Some(e) => if self.error_handler {
                (
                    CommandLifecycle { stage: LifecycleStage::HandlingError, error: None, ..self },
                    LifecycleStep::HandleError(e),
                    LifecycleEvent::Failed,
                )
            } else {
                (
                    CommandLifecycle { stage: LifecycleStage::Done, error: None, ..self },
                    LifecycleStep::Finish(Err(e)),
                    LifecycleEvent::Failed,
                )
            },
        }
    }

    /// The state, next step and record after the running step ends with `outcome`.
    pub open spec fn spec_advance(self, outcome: Result<(), E>) -> (Self, LifecycleStep<E>, Option<LifecycleEvent>) {
        match self.stage {
            LifecycleStage::Before(i) => match outcome {
                Err(e) => {
                    let (next, step, record) = self.spec_resolve(Some(e));
                    (next, step, Some(record))
                },
                Ok(()) => if i + 1 < self.before_hooks {
                    (
                        CommandLifecycle { stage: LifecycleStage::Before((i + 1) as usize), ..self },
                        LifecycleStep::RunBefore((i + 1) as usize),
                        None,
                    )
                } else {
                    (CommandLifecycle { stage: LifecycleStage::Handler, ..self }, LifecycleStep::RunHandler, None)
                },
            },
            LifecycleStage::Handler => if self.after_hooks > 0 {
                (
                    CommandLifecycle { stage: LifecycleStage::After(0), error: outcome.err(), ..self },
                    LifecycleStep::RunAfter(0),
                    None,
                )
            } else {
                let (next, step, record) = self.spec_resolve(outcome.err());
                (next, step, Some(record))
            },
            LifecycleStage::After(j) => {
                let kept = match self.error {
                    Some(e) => Some(e),
                    None => outcome.err(),
                };
                if j + 1 < self.after_hooks {
                    (
                        CommandLifecycle { stage: LifecycleStage::After((j + 1) as usize), error: kept, ..self },
                        LifecycleStep::RunAfter((j + 1) as usize),
                        None,
                    )
                } else {
                    let (next, step, record) = CommandLifecycle { error: None, ..self }.spec_resolve(kept);
                    (next, step, Some(record))
                }
            },
            LifecycleStage::HandlingError => match outcome {
                Ok(()) => (
                    CommandLifecycle { stage: LifecycleStage::Done, ..self },
                    LifecycleStep::Finish(Ok(())),
                    Some(LifecycleEvent::ErrorHandled),
                ),
                Err(e) => (
                    CommandLifecycle { stage: LifecycleStage::Done, ..self },
                    LifecycleStep::Finish(Err(e)),
                    Some(LifecycleEvent::ErrorHandlerFailed),
                ),
            },
            LifecycleStage::Done => (self, LifecycleStep::Finish(Ok(())), None),
        }
    }

    /// Starts an invocation: the first before hook, or the handler when there is none.
    pub fn start(before_hooks: usize, after_hooks: usize, error_handler: bool) -> (started: (
        Self,
        LifecycleStep<E>,
        LifecycleEvent,
    ))
        ensures
            started.0.wf(),
            started.0.before_hooks == before_hooks,
            started.0.after_hooks == after_hooks,
            started.0.error_handler == error_handler,
            started.0.error is None,
            before_hooks > 0 ==> started.0.stage == LifecycleStage::Before(0) && (started.1 matches LifecycleStep::RunBefore(0)),
            before_hooks == 0 ==> started.0.stage == LifecycleStage::Handler && started.1 is RunHandler,
            started.2 == LifecycleEvent::Started,
    {
        if before_hooks > 0 {
            (
                CommandLifecycle { before_hooks, after_hooks, error_handler, stage: LifecycleStage::Before(0), error: None },
                LifecycleStep::RunBefore(0),
                LifecycleEvent::Started,
            )
        } else {
            (
                CommandLifecycle { before_hooks, after_hooks, error_handler, stage: LifecycleStage::Handler, error: None },
                LifecycleStep::RunHandler,
                LifecycleEvent::Started,
            )
        }
    }

    /// Ends the execution part: success, or the kept error routed to the
    /// error handler when one is configured.
    fn resolve(&mut self, error: Option<E>) -> (outcome: (LifecycleStep<E>, LifecycleEvent))
        requires
            old(self).error is None,
        ensures
            (*final(self), outcome.0, outcome.1) == old(self).spec_resolve(error),
    {
        match error {
            None => {
                self.stage = LifecycleStage::Done;
                (LifecycleStep::Finish(Ok(())), LifecycleEvent::Succeeded)
            },
            Some(e) => {
                if self.error_handler {
                    self.stage = LifecycleStage::HandlingError;
                    (LifecycleStep::HandleError(e), LifecycleEvent::Failed)
                } else {
                    self.stage = LifecycleStage::Done;
                    (LifecycleStep::Finish(Err(e)), LifecycleEvent::Failed)
                }
            },
        }
    }

    /// Records the outcome of the step that just ran and decides the next
    /// one, with the lifecycle record to emit, if any.
    pub fn advance(&mut self, outcome: Result<(), E>) -> (next: (LifecycleStep<E>, Option<LifecycleEvent>))
        requires
            old(self).wf(),
            !(old(self).stage is Done),
        ensures
            final(self).wf(),
            (*final(self), next.0, next.1) == old(self).spec_advance(outcome),
    {
        match self.stage {
            LifecycleStage::Before(i) => match outcome {
                Err(e) => {
                    let (step, record) = self.resolve(Some(e));
                    (step, Some(record))
                },
                Ok(()) => {
                    if i + 1 < self.before_hooks {
                        self.stage = LifecycleStage::Before(i + 1);
                        (LifecycleStep::RunBefore(i + 1), None)
                    } else {
                        self.stage = LifecycleStage::Handler;
                        (LifecycleStep::RunHandler, None)
                    }
                },
            },
            LifecycleStage::Handler => {
                if self.after_hooks > 0 {
                    self.stage = LifecycleStage::After(0);
                    self.error = outcome.err();
                    (LifecycleStep::RunAfter(0), None)
                } else {
                    let (step, record) = self.resolve(outcome.err());
                    (step, Some(record))
                }
            },
            LifecycleStage::After(j) => {
                let mut kept: Option<E> = None;
                std::mem::swap(&mut kept, &mut self.error);
                if kept.is_none() {
                    kept = outcome.err();
                }
                if j + 1 < self.after_hooks {
                    self.stage = LifecycleStage::After(j + 1);
                    self.error = kept;
                    (LifecycleStep::RunAfter(j + 1), None)
                } else {
                    let (step, record) = self.resolve(kept);
                    (step, Some(record))
                }
            },
            LifecycleStage::HandlingError => {
                self.stage = LifecycleStage::Done;
                match outcome {
                    Ok(()) => (LifecycleStep::Finish(Ok(())), Some(LifecycleEvent::ErrorHandled)),
                    Err(e) => (LifecycleStep::Finish(Err(e)), Some(LifecycleEvent::ErrorHandlerFailed)),
                }
            },
            LifecycleStage::Done => {
                (LifecycleStep::Finish(Ok(())), None)
            },
        }
    }
}

/// The steps taken after each outcome of `outcomes`, in order, until the
/// lifecycle is done.
pub open spec fn trace<E>(lifecycle: CommandLifecycle<E>, outcomes: Seq<Result<(), E>>) -> Seq<LifecycleStep<E>>
    decreases outcomes.len(),
{
    if outcomes.len() == 0 || lifecycle.stage is Done {
        Seq::empty()
    } else {
        let (next, step, _) = lifecycle.spec_advance(outcomes[0]);
        seq![step] + trace(next, outcomes.drop_first())
    }
}

/// `n` successful outcomes.
pub open spec fn successes<E>(n: nat) -> Seq<Result<(), E>> {
    Seq::new(n, |i: int| Ok(()))
}

/// The after hooks from index `from` on, then a successful finish.
pub open spec fn after_steps<E>(from: int, count: int) -> Seq<LifecycleStep<E>> {
    Seq::new((count - from) as nat, |x: int| LifecycleStep::RunAfter((from + x) as usize))
}

/// The step that routes a kept error, or finishes successfully without one.
pub open spec fn routing_step<E>(error_handler: bool, error: Option<E>) -> LifecycleStep<E> {
    match error {
        None => LifecycleStep::Finish(Ok(())),
        Some(e) => if error_handler {
            LifecycleStep::HandleError(e)
        } else {
            LifecycleStep::Finish(Err(e))
        },
    }
}

proof fn lemma_after_hooks_succeed<E>(lifecycle: CommandLifecycle<E>, j: int)
    requires
        lifecycle.stage == LifecycleStage::After(j as usize),
        0 <= j < lifecycle.after_hooks,
    ensures
        trace(lifecycle, successes::<E>((lifecycle.after_hooks - j) as nat)) == after_steps::<E>(j + 1, lifecycle.after_hooks as int)
            + seq![routing_step(lifecycle.error_handler, lifecycle.error)],
    decreases lifecycle.after_hooks - j,
{
    let oks = successes::<E>((lifecycle.after_hooks - j) as nat);
    let (next, step, _) = lifecycle.spec_advance(oks[0]);
    assert(oks.drop_first() =~= successes::<E>((lifecycle.after_hooks - j - 1) as nat));
    if j + 1 < lifecycle.after_hooks {
        lemma_after_hooks_succeed(next, j + 1);
        assert(after_steps::<E>(j + 1, lifecycle.after_hooks as int) =~= seq![step] + after_steps::<E>(
            j + 2,
            lifecycle.after_hooks as int,
        ));
    } else {
        if next.stage is HandlingError {
            assert(oks.drop_first().len() == 0);
        }
        assert(trace(next, oks.drop_first()) =~= Seq::<LifecycleStep<E>>::empty());
        assert(after_steps::<E>(j + 1, lifecycle.after_hooks as int) =~= Seq::<LifecycleStep<E>>::empty());
    }
}

proof fn lemma_handler_succeeds<E>(lifecycle: CommandLifecycle<E>)
    requires
        lifecycle.stage == LifecycleStage::Handler,
        lifecycle.error is None,
    ensures
        trace(lifecycle, successes::<E>((lifecycle.after_hooks + 1) as nat)) == after_steps::<E>(0, lifecycle.after_hooks as int)
            + seq![LifecycleStep::<E>::Finish(Ok(()))],
{
    let oks = successes::<E>((lifecycle.after_hooks + 1) as nat);
    let (next, step, _) = lifecycle.spec_advance(oks[0]);
    assert(oks.drop_first() =~= successes::<E>(lifecycle.after_hooks as nat));
    if lifecycle.after_hooks > 0 {
        lemma_after_hooks_succeed(next, 0);
        assert(after_steps::<E>(0, lifecycle.after_hooks as int) =~= seq![step] + after_steps::<E>(
            1,
            lifecycle.after_hooks as int,
        ));
    } else {
        assert(after_steps::<E>(0, 0) =~= Seq::<LifecycleStep<E>>::empty());
        assert(trace(next, oks.drop_first()) =~= Seq::<LifecycleStep<E>>::empty());
    }
}

/// The handler, every after hook, then a successful finish.
pub open spec fn handler_and_after_steps<E>(after_hooks: int) -> Seq<LifecycleStep<E>> {
    seq![LifecycleStep::<E>::RunHandler] + after_steps::<E>(0, after_hooks) + seq![LifecycleStep::<E>::Finish(Ok(()))]
}

/// The before hooks from index `from` up to `count`.
pub open spec fn before_steps<E>(from: int, count: int) -> Seq<LifecycleStep<E>> {
    Seq::new((count - from) as nat, |x: int| LifecycleStep::RunBefore((from + x) as usize))
}

proof fn lemma_before_hooks_succeed<E>(lifecycle: CommandLifecycle<E>, i: int)
    requires
        lifecycle.stage == LifecycleStage::Before(i as usize),
        0 <= i < lifecycle.before_hooks,
        lifecycle.error is None,
    ensures
        trace(lifecycle, successes::<E>((lifecycle.before_hooks - i + lifecycle.after_hooks + 1) as nat)) == before_steps::<E>(
            i + 1,
            lifecycle.before_hooks as int,
        ) + handler_and_after_steps::<E>(lifecycle.after_hooks as int),
    decreases lifecycle.before_hooks - i,
{
    let n = (lifecycle.before_hooks - i + lifecycle.after_hooks + 1) as nat;
    let oks = successes::<E>(n);
    let (next, step, _) = lifecycle.spec_advance(oks[0]);
    assert(oks.drop_first() =~= successes::<E>((n - 1) as nat));
    let tail = handler_and_after_steps::<E>(lifecycle.after_hooks as int);
    if i + 1 < lifecycle.before_hooks {
        lemma_before_hooks_succeed(next, i + 1);
        let later = before_steps::<E>(i + 2, lifecycle.before_hooks as int);
        assert(before_steps::<E>(i + 1, lifecycle.before_hooks as int) =~= seq![step] + later);
        assert(seq![step] + (later + tail) =~= (seq![step] + later) + tail);
    } else {
        lemma_handler_succeeds(next);
        let after = after_steps::<E>(0, lifecycle.after_hooks as int);
        assert(before_steps::<E>(i + 1, lifecycle.before_hooks as int) =~= Seq::<LifecycleStep<E>>::empty());
        assert(seq![step] + (after + seq![LifecycleStep::<E>::Finish(Ok(()))]) =~= tail);
        assert(Seq::<LifecycleStep<E>>::empty() + tail =~= tail);
    }
}

/// When every hook and the handler succeed, an invocation runs the before
/// hooks in order, then the handler, then the after hooks in order, and
/// finishes successfully.
pub proof fn successful_invocation_runs_every_step_in_order<E>(before_hooks: usize, after_hooks: usize, error_handler: bool)
    ensures
        ({
            let first = if before_hooks > 0 {
                LifecycleStep::<E>::RunBefore(0)
            } else {
                LifecycleStep::<E>::RunHandler
            };
            let start = CommandLifecycle::<E> {
                before_hooks,
                after_hooks,
                error_handler,
                stage: if before_hooks > 0 { LifecycleStage::Before(0) } else { LifecycleStage::Handler },
                error: None,
            };
            seq![first] + trace(start, successes::<E>((before_hooks + after_hooks + 1) as nat)) == before_steps::<E>(
                0,
                before_hooks as int,
            ) + handler_and_after_steps::<E>(after_hooks as int)
        }),
{
    let start = CommandLifecycle::<E> {
        before_hooks,
        after_hooks,
        error_handler,
        stage: if before_hooks > 0 { LifecycleStage::Before(0) } else { LifecycleStage::Handler },
        error: None,
    };
    let tail = handler_and_after_steps::<E>(after_hooks as int);
    if before_hooks > 0 {
        lemma_before_hooks_succeed(start, 0);
        let later = before_steps::<E>(1, before_hooks as int);
        assert(before_steps::<E>(0, before_hooks as int) =~= seq![LifecycleStep::<E>::RunBefore(0)] + later);
        assert(seq![LifecycleStep::<E>::RunBefore(0)] + (later + tail) =~= (seq![LifecycleStep::<E>::RunBefore(0)] + later)
            + tail);
    } else {
        assert(successes::<E>((before_hooks + after_hooks + 1) as nat) =~= successes::<E>((after_hooks + 1) as nat));
        lemma_handler_succeeds(start);
        let after = after_steps::<E>(0, after_hooks as int);
        assert(before_steps::<E>(0, 0) =~= Seq::<LifecycleStep<E>>::empty());
        assert(seq![LifecycleStep::<E>::RunHandler] + (after + seq![LifecycleStep::<E>::Finish(Ok(()))]) =~= tail);
        assert(Seq::<LifecycleStep<E>>::empty() + tail =~= tail);
    }
}

/// A failing before hook skips the handler and every after hook: the only
/// steps left route its error.
pub proof fn failing_before_hook_short_circuits<E>(lifecycle: CommandLifecycle<E>, error: E, rest: Seq<Result<(), E>>)
    requires
        lifecycle.wf(),
        lifecycle.stage is Before,
    ensures
        forall|k: int|
            0 <= k < trace(lifecycle, seq![Err(error)] + rest).len() ==> !(#[trigger] trace(lifecycle, seq![Err(error)] + rest)[k] is RunHandler)
                && !(trace(lifecycle, seq![Err(error)] + rest)[k] is RunAfter) && !(trace(lifecycle, seq![Err(error)] + rest)[k] is RunBefore),
        trace(lifecycle, seq![Err(error)] + rest)[0] == if lifecycle.error_handler {
            LifecycleStep::HandleError(error)
        } else {
            LifecycleStep::<E>::Finish(Err(error))
        },
{
    let outcomes = seq![Err(error)] + rest;
    let (next, step, _) = lifecycle.spec_advance(outcomes[0]);
    assert(outcomes.drop_first() =~= rest);
    if next.stage is HandlingError && rest.len() > 0 {
        let (last, finish, _) = next.spec_advance(rest[0]);
        assert(last.stage is Done);
        assert(trace(last, rest.drop_first()) =~= Seq::<LifecycleStep<E>>::empty());
        assert(trace(next, rest) =~= seq![finish]);
    } else {
        assert(trace(next, rest) =~= Seq::<LifecycleStep<E>>::empty());
    }
}

/// A failing handler does not stop the after hooks: they all run, in order,
/// and then the handler's error is routed.
pub proof fn after_hooks_run_after_a_failing_handler<E>(lifecycle: CommandLifecycle<E>, error: E)
    requires
        lifecycle.wf(),
        lifecycle.stage is Handler,
    ensures
        trace(lifecycle, seq![Err(error)] + successes::<E>(lifecycle.after_hooks as nat)) == after_steps::<E>(
            0,
            lifecycle.after_hooks as int,
        ) + seq![
            if lifecycle.error_handler {
                LifecycleStep::HandleError(error)
            } else {
                LifecycleStep::<E>::Finish(Err(error))
            },
        ],
{
    let outcomes = seq![Err(error)] + successes::<E>(lifecycle.after_hooks as nat);
    let (next, step, _) = lifecycle.spec_advance(outcomes[0]);
    assert(outcomes.drop_first() =~= successes::<E>(lifecycle.after_hooks as nat));
    if lifecycle.after_hooks > 0 {
        lemma_after_hooks_succeed(next, 0);
        assert(after_steps::<E>(0, lifecycle.after_hooks as int) =~= seq![step] + after_steps::<E>(
            1,
            lifecycle.after_hooks as int,
        ));
    } else {
        assert(after_steps::<E>(0, 0) =~= Seq::<LifecycleStep<E>>::empty());
        assert(trace(next, outcomes.drop_first()) =~= Seq::<LifecycleStep<E>>::empty());
    }
}

/// Once an execution error is kept, later after-hook outcomes never replace
/// it: the remaining after hooks all run, and the first error is the one routed.
pub proof fn first_execution_error_is_kept<E>(lifecycle: CommandLifecycle<E>, outcomes: Seq<Result<(), E>>)
    requires
        lifecycle.stage is After,
        lifecycle.wf(),
        lifecycle.error is Some,
        outcomes.len() == lifecycle.after_hooks - lifecycle.stage->After_0,
    ensures
        trace(lifecycle, outcomes) == after_steps::<E>(lifecycle.stage->After_0 + 1, lifecycle.after_hooks as int) + seq![
            routing_step(lifecycle.error_handler, lifecycle.error),
        ],
    decreases outcomes.len(),
{
    let j = lifecycle.stage->After_0 as int;
    let (next, step, _) = lifecycle.spec_advance(outcomes[0]);
    if j + 1 < lifecycle.after_hooks {
        first_execution_error_is_kept(next, outcomes.drop_first());
        assert(after_steps::<E>(j + 1, lifecycle.after_hooks as int) =~= seq![step] + after_steps::<E>(
            j + 2,
            lifecycle.after_hooks as int,
        ));
    } else {
        if next.stage is HandlingError {
            assert(outcomes.drop_first().len() == 0);
        }
        assert(trace(next, outcomes.drop_first()) =~= Seq::<LifecycleStep<E>>::empty());
        assert(after_steps::<E>(j + 1, lifecycle.after_hooks as int) =~= Seq::<LifecycleStep<E>>::empty());
    }
}

} // verus!
