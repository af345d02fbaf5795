use std::sync::Arc;
use tokio::sync::Semaphore;
use vstd::prelude::*;
use crate::dispatch::{carries_out, plan_dispatch, planned, DispatchPlan, InteractionSummary};
use crate::error::Error;
use crate::node::SlashCommand;
use crate::registry::{first_where, hierarchy_refusal, lemma_first_where, refused_with, CommandRegistry};
use crate::slots::{new_slots, MAX_EXECUTION_SLOTS};

verus! {

/// Default upper bound for simultaneously executing command handlers.
pub const DEFAULT_MAX_CONCURRENT_COMMANDS: usize = 64;

/// Where the local command registry is synchronized with Discord.
#[derive(Debug, Clone, Copy, PartialEq, Eq, Structural)]
pub enum Registration {
    /// Perform no registration requests; commands are managed externally.
    Disabled,
    /// Bulk-overwrite the application's global commands.
    Global,
    /// Bulk-overwrite the commands of one guild.
    Guild(u64),
}

impl Default for Registration {
    /// Registration is opt-in: by default nothing is registered.
    fn default() -> (registration: Self)
        ensures
            registration == Registration::Disabled,
    {
        Registration::Disabled
    }
}

/// Whether `commands[i]` is refused when the commands are registered in order:
/// its tree is malformed, or an earlier command has its name.
pub open spec fn refused_at<H, A, C>(commands: Seq<SlashCommand<H, A, C>>, i: int) -> bool {
    hierarchy_refusal(commands[i]) is Some || exists|j: int| 0 <= j < i && #[trigger] commands[j].spec_name() == commands[i].spec_name()
}

/// The first command refused when the commands are registered in order.
pub open spec fn first_refused<H, A, C>(commands: Seq<SlashCommand<H, A, C>>) -> Option<int> {
    first_where(commands.len() as int, |i: int| refused_at(commands, i), 0)
}

/// Whether `registry` holds exactly `commands`, each under its name.
pub open spec fn holds_exactly<H, A, C>(registry: CommandRegistry<H, A, C>, commands: Seq<SlashCommand<H, A, C>>) -> bool {
    &&& registry.spec_commands().len() == commands.len()
    &&& forall|i: int| 0 <= i < commands.len() ==> registry.spec_lookup(#[trigger] commands[i].spec_name()) == Some(commands[i])
    &&& forall|n: Seq<char>|
        (forall|i: int| 0 <= i < commands.len() ==> #[trigger] commands[i].spec_name() != n) ==> #[trigger] registry.spec_lookup(n) is None
}

/// Builder for a [`Framework`].
pub struct FrameworkBuilder<D, H, A, C> {
    data: D,
    commands: Vec<SlashCommand<H, A, C>>,
    registration: Registration,
    max_concurrent_commands: usize,
}

impl<D, H, A, C> FrameworkBuilder<D, H, A, C> {
    pub closed spec fn spec_data(&self) -> D {
        self.data
    }

    pub closed spec fn spec_commands(&self) -> Seq<SlashCommand<H, A, C>> {
        self.commands@
    }

    pub closed spec fn spec_registration(&self) -> Registration {
        self.registration
    }

    pub closed spec fn spec_max_concurrent_commands(&self) -> usize {
        self.max_concurrent_commands
    }

    /// Creates a framework builder from application state.
    pub fn new(data: D) -> (builder: Self)
        ensures
            builder.spec_data() == data,
            builder.spec_commands().len() == 0,
            builder.spec_registration() == Registration::Disabled,
            builder.spec_max_concurrent_commands() == DEFAULT_MAX_CONCURRENT_COMMANDS,
    {
        FrameworkBuilder {
            data,
            commands: Vec::new(),
            registration: Registration::Disabled,
            max_concurrent_commands: DEFAULT_MAX_CONCURRENT_COMMANDS,
        }
    }

    /// Adds one slash command.
    pub fn command(self, command: SlashCommand<H, A, C>) -> (builder: Self)
        ensures
            builder.spec_data() == self.spec_data(),
            builder.spec_commands() == self.spec_commands().push(command),
            builder.spec_registration() == self.spec_registration(),
            builder.spec_max_concurrent_commands() == self.spec_max_concurrent_commands(),
    {
        let mut builder = self;
        builder.commands.push(command);
        builder
    }

    /// Adds multiple slash commands, in order.
    pub fn commands(self, commands: Vec<SlashCommand<H, A, C>>) -> (builder: Self)
        ensures
            builder.spec_data() == self.spec_data(),
            builder.spec_commands() == self.spec_commands() + commands@,
            builder.spec_registration() == self.spec_registration(),
            builder.spec_max_concurrent_commands() == self.spec_max_concurrent_commands(),
    {
        let mut builder = self;
        let mut rest = commands;
        builder.commands.append(&mut rest);
        builder
    }

    /// Configures where the local command registry is synchronized.
    pub fn registration(self, registration: Registration) -> (builder: Self)
        ensures
            builder.spec_data() == self.spec_data(),
            builder.spec_commands() == self.spec_commands(),
            builder.spec_registration() == registration,
            builder.spec_max_concurrent_commands() == self.spec_max_concurrent_commands(),
    {
        FrameworkBuilder { registration, ..self }
    }

    /// Sets the global maximum number of simultaneously executing commands.
    pub fn max_concurrent_commands(self, limit: usize) -> (builder: Self)
        ensures
            builder.spec_data() == self.spec_data(),
            builder.spec_commands() == self.spec_commands(),
            builder.spec_registration() == self.spec_registration(),
            builder.spec_max_concurrent_commands() == limit,
    {
        FrameworkBuilder { max_concurrent_commands: limit, ..self }
    }

    /// Validates command registration and builds the framework.
    pub fn build(self) -> (result: Result<Framework<D, H, A, C>, Error>)
        requires
            self.spec_max_concurrent_commands() <= MAX_EXECUTION_SLOTS,
        ensures
            self.spec_max_concurrent_commands() == 0 ==> result matches Err(Error::InvalidConcurrencyLimit),
            self.spec_max_concurrent_commands() > 0 ==> match first_refused(self.spec_commands()) {
                Some(k) => match hierarchy_refusal(self.spec_commands()[k]) {
                    Some(r) => result matches Err(e) && refused_with(e, r),
                    None => result matches Err(Error::DuplicateCommand(n)) && n@ == self.spec_commands()[k].spec_name(),
                },
                None => result matches Ok(framework) && holds_exactly(framework.registry, self.spec_commands())
                    && framework.data == self.spec_data() && framework.registration == self.spec_registration()
                    && framework.max_concurrent_commands == self.spec_max_concurrent_commands(),
            },
    {
        if self.max_concurrent_commands == 0 {
            return Err(Error::InvalidConcurrencyLimit);
        }
        let ghost old_limit = self.spec_max_concurrent_commands();
        let ghost all = self.spec_commands();
        let FrameworkBuilder { data, commands, registration, max_concurrent_commands } = self;
        let ghost pred = |i: int| refused_at(all, i);
        proof {
            lemma_first_where(all.len() as int, pred, 0);
        }
        let mut registry: CommandRegistry<H, A, C> = CommandRegistry::new();
        let mut rest = commands;
        let total = rest.len();
        let mut i: usize = 0;
        while rest.len() > 0
            invariant
                all.len() == total,
                max_concurrent_commands == old_limit,
                old_limit > 0,
                old_limit == self.spec_max_concurrent_commands(),
                all == self.spec_commands(),
                i + rest@.len() == all.len(),
                rest@ == all.skip(i as int),
                pred == (|i: int| refused_at(all, i)),
                first_where(all.len() as int, pred, 0) == first_where(all.len() as int, pred, i as int),
                holds_exactly(registry, all.take(i as int)),
            decreases rest@.len(),
        {
            let command = rest.remove(0);
            assert(command == all[i as int]);
            match registry.insert(command) {
                Ok(()) => {
                    proof {
                        assert(!pred(i as int)) by {
                            if exists|j: int| 0 <= j < i && #[trigger] all[j].spec_name() == all[i as int].spec_name() {
                                let j = choose|j: int| 0 <= j < i && #[trigger] all[j].spec_name() == all[i as int].spec_name();
                                assert(all.take(i as int)[j] == all[j]);
                            }
                        }
                        let prefix = all.take(i as int + 1);
                        assert forall|k: int| 0 <= k < prefix.len() implies registry.spec_lookup(#[trigger] prefix[k].spec_name())
                            == Some(prefix[k]) by {
                            if k < i {
                                assert(all.take(i as int)[k] == prefix[k]);
                            }
                        }
                        assert forall|n: Seq<char>|
                            (forall|k: int| 0 <= k < prefix.len() ==> #[trigger] prefix[k].spec_name() != n)
                            implies #[trigger] registry.spec_lookup(n) is None by {
                            assert(prefix[i as int].spec_name() != n);
                            assert forall|k: int| 0 <= k < all.take(i as int).len() implies #[trigger] all.take(
                                i as int,
                            )[k].spec_name() != n by {
                                assert(all.take(i as int)[k] == prefix[k]);
                            }
                        }
                    }
                },
                Err(e) => {
                    proof {
                        if hierarchy_refusal(all[i as int]) is None {
                            let j = choose|j: int| 0 <= j < all.take(i as int).len() && #[trigger] all.take(i as int)[j].spec_name()
                                == all[i as int].spec_name();
                            assert(all.take(i as int)[j] == all[j]);
                        }
                        assert(pred(i as int));
                    }
                    return Err(e);
                },
            }
            i = i + 1;
        }
        assert(all.take(i as int) =~= all);
        let command_slots = new_slots(max_concurrent_commands);
        Ok(Framework { data, registry, registration, max_concurrent_commands, command_slots })
    }
}

/// Configured slash-command framework.
pub struct Framework<D, H, A, C> {
    pub data: D,
    pub registry: CommandRegistry<H, A, C>,
    pub registration: Registration,
    pub max_concurrent_commands: usize,
    pub command_slots: Arc<Semaphore>,
}

impl<D, H, A, C> Framework<D, H, A, C> {
    /// Starts configuring a framework around application state.
    pub fn builder(data: D) -> (builder: FrameworkBuilder<D, H, A, C>)
        ensures
            builder.spec_data() == data,
            builder.spec_commands().len() == 0,
            builder.spec_registration() == Registration::Disabled,
            builder.spec_max_concurrent_commands() == DEFAULT_MAX_CONCURRENT_COMMANDS,
    {
        FrameworkBuilder::new(data)
    }

    /// Returns the application state shared by command runtimes.
    pub fn data(&self) -> (data: &D)
        ensures
            *data == self.data,
    {
        &self.data
    }

    /// Returns the slash-command registry.
    pub fn registry(&self) -> (registry: &CommandRegistry<H, A, C>)
        ensures
            *registry == self.registry,
    {
        &self.registry
    }

    /// Returns the configured Discord command-registration target.
    pub fn registration(&self) -> (registration: Registration)
        ensures
            registration == self.registration,
    {
        self.registration
    }

    /// Returns the global limit for simultaneously executing commands.
    pub fn max_concurrent_commands(&self) -> (limit: usize)
        ensures
            limit == self.max_concurrent_commands,
    {
        self.max_concurrent_commands
    }

    /// Decides what to do with one received interaction against this
    /// framework's registry.
    pub fn plan<'a, 'b>(&'a self, interaction: &'b InteractionSummary) -> (result: Result<
        DispatchPlan<'a, 'b, H, A, C>,
        Error,
    >)
        ensures
            carries_out(result, planned(self.registry, *interaction)),
    {
        plan_dispatch(&self.registry, interaction)
    }
}

} // verus!
