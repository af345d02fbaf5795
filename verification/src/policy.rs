use std::sync::Arc;
use tokio::sync::{Mutex, Semaphore};
use vstd::prelude::*;
use crate::cooldown::{shared_table, CooldownTable};
use crate::slots::{new_slots, MAX_EXECUTION_SLOTS};

verus! {

/// Discord interaction context in which a command was invoked.
#[derive(Debug, Clone, Copy, PartialEq, Eq, Structural)]
pub enum ContextKind {
    Guild,
    BotDm,
    PrivateChannel,
    /// A context code that this library does not know.
    Unknown(u8),
}

impl ContextKind {
    pub open spec fn spec_code(self) -> u8 {
        match self {
            ContextKind::Guild => 0,
            ContextKind::BotDm => 1,
            ContextKind::PrivateChannel => 2,
            ContextKind::Unknown(code) => code,
        }
    }

    /// The Discord wire code of this context.
    pub fn code(self) -> (code: u8)
        ensures
            code == self.spec_code(),
    {
        match self {
            ContextKind::Guild => 0,
            ContextKind::BotDm => 1,
            ContextKind::PrivateChannel => 2,
            ContextKind::Unknown(code) => code,
        }
    }

    /// The context of a Discord wire code; codes outside 0..=2 stay `Unknown`.
    pub fn from_code(code: u8) -> (kind: ContextKind)
        ensures
            kind.spec_code() == code,
            code <= 2 ==> kind !is Unknown,
    {
        match code {
            0 => ContextKind::Guild,
            1 => ContextKind::BotDm,
            2 => ContextKind::PrivateChannel,
            _ => ContextKind::Unknown(code),
        }
    }
}

/// Whether the `actual` permission bits hold every bit of `required`.
pub open spec fn permits(actual: u64, required: u64) -> bool {
    actual & required == required
}

/// Whether the `actual` permission bits hold every bit of `required`.
pub fn permissions_contain(actual: u64, required: u64) -> (contains: bool)
    ensures
        contains == permits(actual, required),
{
    actual & required == required
}

/// Permission sets are checked bit by bit: holding a union of permissions is
/// holding each of them, a single permission bit is held exactly when that bit
/// is set, a held set adds nothing to `actual`, and an empty set is always held.
pub proof fn permission_check_needs_every_bit(actual: u64, first: u64, second: u64)
    ensures
        permits(actual, first | second) <==> (permits(actual, first) && permits(actual, second)),
        permits(actual, first) <==> (actual | first) == actual,
        permits(actual, 0),
        forall|bit: u64| bit < 64 ==> (#[trigger] permits(actual, 1u64 << bit) <==> (actual >> bit) & 1u64 == 1u64),
{
    assert((actual & (first | second)) == (first | second) <==> ((actual & first) == first && (actual & second) == second))
        by (bit_vector);
    assert((actual & first) == first <==> (actual | first) == actual) by (bit_vector);
    assert(actual & 0u64 == 0u64) by (bit_vector);
    assert forall|bit: u64| bit < 64 implies #[trigger] permits(actual, 1u64 << bit) <==> (actual >> bit) & 1u64 == 1u64 by {
        assert((actual & (1u64 << bit)) == (1u64 << bit) <==> (actual >> bit) & 1u64 == 1u64) by (bit_vector)
            requires
                bit < 64,
        ;
    }
}

/// One named custom command check.
pub struct CheckDescriptor<C> {
    pub name: String,
    pub handler: C,
}

impl<C> CheckDescriptor<C> {
    /// Creates a named custom check descriptor.
    pub fn new(name: &str, handler: C) -> (check: Self)
        ensures
            check.name@ == name@,
            check.handler == handler,
    {
        CheckDescriptor { name: name.to_owned(), handler }
    }

    /// Returns the check name used in diagnostics.
    pub fn name(&self) -> (name: &str)
        ensures
            name@ == self.name@,
    {
        self.name.as_str()
    }

    /// Returns the custom check handler.
    pub fn handler(&self) -> (handler: &C)
        ensures
            *handler == self.handler,
    {
        &self.handler
    }
}

/// Facts about a received interaction that execution policy reads.
#[derive(Debug, Clone, Copy, PartialEq, Eq, Structural)]
pub struct InteractionFacts {
    /// Context in which the interaction was created, when Discord sent one.
    pub context: Option<ContextKind>,
    /// Permission bits of the invoking guild member, when present.
    pub member_permissions: Option<u64>,
    /// Permission bits of the application in the interaction channel, when present.
    pub app_permissions: Option<u64>,
    /// Identifier of the invoking user object, when present.
    pub user_id: Option<u64>,
    /// Identifier of the user inside the invoking member object, when present.
    pub member_user_id: Option<u64>,
}

impl InteractionFacts {
    pub open spec fn spec_invoking_user(self) -> Option<u64> {
        if self.user_id is Some {
            self.user_id
        } else {
            self.member_user_id
        }
    }

    /// The invoking user: the interaction user, else the member's user.
    pub fn invoking_user(&self) -> (user: Option<u64>)
        ensures
            user == self.spec_invoking_user(),
    {
        match self.user_id {
            Some(id) => Some(id),
            None => self.member_user_id,
        }
    }
}

/// What the policy asks the caller to do next.
#[derive(Debug, Clone, Copy, PartialEq, Eq, Structural)]
pub enum PolicyAction {
    /// Run the custom check at this index and report its verdict.
    RunCheck(usize),
    /// Reserve the per-user cooldown of this many nanoseconds.
    ReserveCooldown(u128),
    /// Every step passed; the handler may run.
    Finished,
}

/// Runtime execution policy attached to one slash-command leaf.
pub struct CommandPolicy<C> {
    checks: Vec<CheckDescriptor<C>>,
    contexts: Vec<ContextKind>,
    member_permissions: Option<u64>,
    bot_permissions: Option<u64>,
    cooldown_ns: Option<u128>,
    max_concurrency: Option<usize>,
    slots: Option<Arc<Semaphore>>,
    cooldowns: Arc<Mutex<CooldownTable>>,
}

impl<C> CommandPolicy<C> {
    #[verifier::type_invariant]
    spec fn inv(&self) -> bool {
        (self.slots is Some) == (self.max_concurrency is Some)
    }

    pub closed spec fn spec_checks(&self) -> Seq<CheckDescriptor<C>> {
        self.checks@
    }

    pub closed spec fn spec_contexts(&self) -> Seq<ContextKind> {
        self.contexts@
    }

    pub closed spec fn spec_member_permissions(&self) -> Option<u64> {
        self.member_permissions
    }

    pub closed spec fn spec_bot_permissions(&self) -> Option<u64> {
        self.bot_permissions
    }

    pub closed spec fn spec_cooldown(&self) -> Option<u128> {
        self.cooldown_ns
    }

    pub closed spec fn spec_max_concurrency(&self) -> Option<usize> {
        self.max_concurrency
    }

    /// The lock that holds this leaf's per-user cooldown deadlines.
    pub closed spec fn spec_cooldown_table(&self) -> Arc<Mutex<CooldownTable>> {
        self.cooldowns
    }

    /// Creates an unrestricted command policy.
    pub fn new() -> (policy: Self)
        ensures
            policy.spec_checks().len() == 0,
            policy.spec_contexts().len() == 0,
            policy.spec_member_permissions() is None,
            policy.spec_bot_permissions() is None,
            policy.spec_cooldown() is None,
            policy.spec_max_concurrency() is None,
    {
        CommandPolicy {
            checks: Vec::new(),
            contexts: Vec::new(),
            member_permissions: None,
            bot_permissions: None,
            cooldown_ns: None,
            max_concurrency: None,
            slots: None,
            cooldowns: shared_table(CooldownTable::new()),
        }
    }

    /// Appends one custom check in declaration order.
    pub fn check(self, check: CheckDescriptor<C>) -> (policy: Self)
        ensures
            policy.spec_checks() == self.spec_checks().push(check),
            policy.spec_contexts() == self.spec_contexts(),
            policy.spec_member_permissions() == self.spec_member_permissions(),
            policy.spec_bot_permissions() == self.spec_bot_permissions(),
            policy.spec_cooldown() == self.spec_cooldown(),
            policy.spec_max_concurrency() == self.spec_max_concurrency(),
    {
        proof {
            use_type_invariant(&self);
        }
        let CommandPolicy {
            mut checks,
            contexts,
            member_permissions,
            bot_permissions,
            cooldown_ns,
            max_concurrency,
            slots,
            cooldowns,
        } = self;
        checks.push(check);
        CommandPolicy {
            checks,
            contexts,
            member_permissions,
            bot_permissions,
            cooldown_ns,
            max_concurrency,
            slots,
            cooldowns,
        }
    }

    /// Restricts execution to the given interaction contexts; an empty list is unrestricted.
    pub fn contexts(self, contexts: Vec<ContextKind>) -> (policy: Self)
        ensures
            policy.spec_checks() == self.spec_checks(),
            policy.spec_contexts() == contexts@,
            policy.spec_member_permissions() == self.spec_member_permissions(),
            policy.spec_bot_permissions() == self.spec_bot_permissions(),
            policy.spec_cooldown() == self.spec_cooldown(),
            policy.spec_max_concurrency() == self.spec_max_concurrency(),
    {
        proof {
            use_type_invariant(&self);
        }
        CommandPolicy { contexts, ..self }
    }

    /// Restricts execution to guild interaction contexts.
    pub fn guild_only(self) -> (policy: Self)
        ensures
            policy.spec_checks() == self.spec_checks(),
            policy.spec_contexts() == seq![ContextKind::Guild],
            policy.spec_member_permissions() == self.spec_member_permissions(),
            policy.spec_bot_permissions() == self.spec_bot_permissions(),
            policy.spec_cooldown() == self.spec_cooldown(),
            policy.spec_max_concurrency() == self.spec_max_concurrency(),
    {
        let mut contexts = Vec::new();
        contexts.push(ContextKind::Guild);
        assert(contexts@ =~= seq![ContextKind::Guild]);
        self.contexts(contexts)
    }

    /// Requires the invoking guild member to hold all given permission bits.
    pub fn member_permissions(self, permissions: u64) -> (policy: Self)
        ensures
            policy.spec_checks() == self.spec_checks(),
            policy.spec_contexts() == self.spec_contexts(),
            policy.spec_member_permissions() == Some(permissions),
            policy.spec_bot_permissions() == self.spec_bot_permissions(),
            policy.spec_cooldown() == self.spec_cooldown(),
            policy.spec_max_concurrency() == self.spec_max_concurrency(),
    {
        proof {
            use_type_invariant(&self);
        }
        CommandPolicy { member_permissions: Some(permissions), ..self }
    }

    /// Requires the application to hold all given permission bits in the channel.
    pub fn bot_permissions(self, permissions: u64) -> (policy: Self)
        ensures
            policy.spec_checks() == self.spec_checks(),
            policy.spec_contexts() == self.spec_contexts(),
            policy.spec_member_permissions() == self.spec_member_permissions(),
            policy.spec_bot_permissions() == Some(permissions),
            policy.spec_cooldown() == self.spec_cooldown(),
            policy.spec_max_concurrency() == self.spec_max_concurrency(),
    {
        proof {
            use_type_invariant(&self);
        }
        CommandPolicy { bot_permissions: Some(permissions), ..self }
    }

    /// Adds a per-invoking-user cooldown of the given nanoseconds.
    pub fn cooldown(self, duration_ns: u128) -> (policy: Self)
        ensures
            policy.spec_checks() == self.spec_checks(),
            policy.spec_contexts() == self.spec_contexts(),
            policy.spec_member_permissions() == self.spec_member_permissions(),
            policy.spec_bot_permissions() == self.spec_bot_permissions(),
            policy.spec_cooldown() == Some(duration_ns),
            policy.spec_max_concurrency() == self.spec_max_concurrency(),
    {
        proof {
            use_type_invariant(&self);
        }
        CommandPolicy { cooldown_ns: Some(duration_ns), ..self }
    }

    /// Sets an additional per-command concurrency limit with its own shared
    /// execution slots; zero is refused at registration.
    pub fn max_concurrency(self, limit: usize) -> (policy: Self)
        requires
            limit <= MAX_EXECUTION_SLOTS,
        ensures
            policy.spec_checks() == self.spec_checks(),
            policy.spec_contexts() == self.spec_contexts(),
            policy.spec_member_permissions() == self.spec_member_permissions(),
            policy.spec_bot_permissions() == self.spec_bot_permissions(),
            policy.spec_cooldown() == self.spec_cooldown(),
            policy.spec_max_concurrency() == Some(limit),
    {
        CommandPolicy { max_concurrency: Some(limit), slots: Some(new_slots(limit)), ..self }
    }

    /// Returns the leaf's own execution slots, shared by every invocation;
    /// present exactly when a per-command concurrency limit is set.
    pub fn command_slots(&self) -> (slots: Option<&Arc<Semaphore>>)
        ensures
            (slots is Some) == (self.spec_max_concurrency() is Some),
    {
        proof {
            use_type_invariant(self);
        }
        self.slots.as_ref()
    }

    /// Returns the per-user cooldown deadlines of this leaf, shared by every
    /// invocation.
    pub fn cooldown_table(&self) -> (table: &Arc<Mutex<CooldownTable>>)
        ensures
            *table == self.spec_cooldown_table(),
    {
        &self.cooldowns
    }

    /// Returns custom checks in declaration order.
    pub fn checks(&self) -> (checks: &[CheckDescriptor<C>])
        ensures
            checks@ == self.spec_checks(),
    {
        self.checks.as_slice()
    }

    /// Returns allowed interaction contexts; an empty slice means unrestricted.
    pub fn allowed_contexts(&self) -> (contexts: &[ContextKind])
        ensures
            contexts@ == self.spec_contexts(),
    {
        self.contexts.as_slice()
    }

    /// Returns the required invoking-member permission bits.
    pub fn required_member_permissions(&self) -> (permissions: Option<u64>)
        ensures
            permissions == self.spec_member_permissions(),
    {
        self.member_permissions
    }

    /// Returns the required application permission bits.
    pub fn required_bot_permissions(&self) -> (permissions: Option<u64>)
        ensures
            permissions == self.spec_bot_permissions(),
    {
        self.bot_permissions
    }

    /// Returns the configured per-user cooldown in nanoseconds.
    pub fn cooldown_duration(&self) -> (duration_ns: Option<u128>)
        ensures
            duration_ns == self.spec_cooldown(),
    {
        self.cooldown_ns
    }

    /// Returns the configured per-command concurrency limit.
    pub fn max_concurrent_executions(&self) -> (limit: Option<usize>)
        ensures
            limit == self.spec_max_concurrency(),
    {
        self.max_concurrency
    }

    /// Whether the interaction context is allowed.
    pub open spec fn context_allowed(&self, facts: InteractionFacts) -> bool {
        self.spec_contexts().len() == 0 || (facts.context matches Some(c)
            && self.spec_contexts().contains(c))
    }

    /// The invoking member's permission bits, empty when absent.
    pub open spec fn member_actual(facts: InteractionFacts) -> u64 {
        match facts.member_permissions {
            Some(bits) => bits,
            None => 0,
        }
    }

    /// The application's permission bits, empty when absent.
    pub open spec fn app_actual(facts: InteractionFacts) -> u64 {
        match facts.app_permissions {
            Some(bits) => bits,
            None => 0,
        }
    }

    /// Whether the invoking member holds the required permissions.
    pub open spec fn member_allowed(&self, facts: InteractionFacts) -> bool {
        self.spec_member_permissions() matches Some(required) ==> permits(
            Self::member_actual(facts),
            required,
        )
    }

    /// Whether the application holds the required permissions.
    pub open spec fn bot_allowed(&self, facts: InteractionFacts) -> bool {
        self.spec_bot_permissions() matches Some(required) ==> permits(
            Self::app_actual(facts),
            required,
        )
    }

    /// The step that follows once the first `done` custom checks have passed.
    pub open spec fn action_after_checks(&self, done: int) -> PolicyAction {
        if done < self.spec_checks().len() {
            PolicyAction::RunCheck(done as usize)
        } else if self.spec_cooldown() is Some {
            PolicyAction::ReserveCooldown(self.spec_cooldown()->0)
        } else {
            PolicyAction::Finished
        }
    }

    fn next_action(&self, done: usize) -> (action: PolicyAction)
        requires
            done <= self.spec_checks().len(),
        ensures
            action == self.action_after_checks(done as int),
    {
        if done < self.checks.len() {
            PolicyAction::RunCheck(done)
        } else {
            match self.cooldown_ns {
                Some(duration) => PolicyAction::ReserveCooldown(duration),
                None => PolicyAction::Finished,
            }
        }
    }

    /// Evaluates the interaction context and the two permission gates, in that
    /// order, and names the first step that follows them.
    pub fn start(&self, facts: &InteractionFacts, path: &str) -> (result: Result<PolicyAction, crate::Error>)
        ensures
            !self.context_allowed(*facts) ==> (result matches Err(
                crate::Error::CommandContextNotAllowed(p),
            ) && p@ == path@),
            self.context_allowed(*facts) && !self.member_allowed(*facts) ==> (result matches Err(
                crate::Error::MissingMemberPermissions { path: p, required: r, actual: a },
            ) && p@ == path@ && Some(r) == self.spec_member_permissions() && a == Self::member_actual(
                *facts,
            )),
            self.context_allowed(*facts) && self.member_allowed(*facts) && !self.bot_allowed(*facts)
                ==> (result matches Err(
                crate::Error::MissingBotPermissions { path: p, required: r, actual: a },
            ) && p@ == path@ && Some(r) == self.spec_bot_permissions() && a == Self::app_actual(
                *facts,
            )),
            self.context_allowed(*facts) && self.member_allowed(*facts) && self.bot_allowed(*facts)
                ==> result == Ok::<PolicyAction, crate::Error>(self.action_after_checks(0)),
    {
        if self.contexts.len() > 0 {
            let allowed = match facts.context {
                None => false,
                Some(current) => {
                    let mut found = false;
                    let mut i: usize = 0;
                    while i < self.contexts.len()
                        invariant
                            i <= self.contexts@.len(),
                            found == exists|j: int| 0 <= j < i && self.contexts@[j] == current,
                        decreases self.contexts@.len() - i,
                    {
                        if self.contexts[i] == current {
                            found = true;
                        }
                        i = i + 1;
                    }
                    found
                },
            };
            if !allowed {
                return Err(crate::Error::CommandContextNotAllowed(path.to_owned()));
            }
        }
        if let Some(required) = self.member_permissions {
            let actual = match facts.member_permissions {
                Some(bits) => bits,
                None => 0,
            };
            if !permissions_contain(actual, required) {
                return Err(
                    crate::Error::MissingMemberPermissions {
                        path: path.to_owned(),
                        required,
                        actual,
                    },
                );
            }
        }
        if let Some(required) = self.bot_permissions {
            let actual = match facts.app_permissions {
                Some(bits) => bits,
                None => 0,
            };
            if !permissions_contain(actual, required) {
                return Err(
                    crate::Error::MissingBotPermissions { path: path.to_owned(), required, actual },
                );
            }
        }
        Ok(self.next_action(0))
    }

    /// Takes the verdict of the custom check at `index` and names the next step;
    /// a declining check ends evaluation with `CommandCheckFailed`.
    pub fn after_check(&self, index: usize, passed: bool, path: &str) -> (result: Result<
        PolicyAction,
        crate::Error,
    >)
        requires
            index < self.spec_checks().len(),
        ensures
            !passed ==> (result matches Err(crate::Error::CommandCheckFailed { path: p, check: c })
                && p@ == path@ && c@ == self.spec_checks()[index as int].name@),
            passed ==> result == Ok::<PolicyAction, crate::Error>(
                self.action_after_checks(index + 1),
            ),
    {
        if !passed {
            return Err(
                crate::Error::CommandCheckFailed {
                    path: path.to_owned(),
                    check: self.checks[index].name.clone(),
                },
            );
        }
        let count = self.checks.len();
        assert(index < count);
        Ok(self.next_action(index + 1))
    }
}

/// Custom checks are asked for one at a time in declaration order, and the
/// cooldown is reserved only after the last of them has passed.
pub proof fn checks_run_in_declaration_order<C>(policy: CommandPolicy<C>, done: int)
    requires
        0 <= done <= policy.spec_checks().len(),
    ensures
        done < policy.spec_checks().len() ==> policy.action_after_checks(done) == PolicyAction::RunCheck(done as usize),
        done == policy.spec_checks().len() ==> !(policy.action_after_checks(done) is RunCheck),
        done == policy.spec_checks().len() && policy.spec_cooldown() is Some ==> policy.action_after_checks(done)
            == PolicyAction::ReserveCooldown(policy.spec_cooldown()->0),
{
}

} // verus!
