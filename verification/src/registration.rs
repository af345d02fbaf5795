use vstd::prelude::*;
use crate::command::{clone_choice, CommandChoiceDescriptor, CommandDescriptor, CommandOptionDescriptor, NumericValue, OptionKind};
use crate::framework::{Framework, Registration};
use crate::node::{CommandNode, SlashCommand};

verus! {

/// One option of a Discord application-command registration request.
pub struct ApplicationCommandOption {
    pub kind: OptionKind,
    pub name: String,
    pub description: String,
    /// `Some(true)` for a required scalar option; omitted otherwise.
    pub required: Option<bool>,
    pub choices: Vec<CommandChoiceDescriptor>,
    /// Nested subcommand or scalar options.
    pub options: Vec<ApplicationCommandOption>,
    pub min_value: Option<NumericValue>,
    pub max_value: Option<NumericValue>,
    pub min_length: Option<u32>,
    pub max_length: Option<u32>,
    /// `Some(true)` for an option served by an autocomplete handler; omitted otherwise.
    pub autocomplete: Option<bool>,
}

/// One chat-input command of a registration request.
pub struct ApplicationCommandRequest {
    pub name: String,
    pub description: String,
    pub options: Vec<ApplicationCommandOption>,
}

/// What synchronization sends to Discord.
pub enum SynchronizationPlan {
    /// Registration is disabled: no request at all.
    Skip,
    /// Bulk-overwrite the global commands with these.
    Global(Vec<ApplicationCommandRequest>),
    /// Bulk-overwrite the commands of this guild with these.
    Guild(u64, Vec<ApplicationCommandRequest>),
}

/// `Some(true)` when the flag is set, omitted otherwise.
pub open spec fn flag(set: bool) -> Option<bool> {
    if set {
        Some(true)
    } else {
        None
    }
}

/// Whether `option` registers the scalar option `descriptor`.
pub open spec fn scalar_matches(option: ApplicationCommandOption, descriptor: CommandOptionDescriptor) -> bool {
    &&& option.kind == descriptor.kind
    &&& option.name@ == descriptor.name@
    &&& option.description@ == descriptor.description@
    &&& option.required == flag(descriptor.required)
    &&& option.choices@ == descriptor.choices@
    &&& option.options@.len() == 0
    &&& option.min_value == descriptor.min_value
    &&& option.max_value == descriptor.max_value
    &&& option.min_length == descriptor.min_length
    &&& option.max_length == descriptor.max_length
    &&& option.autocomplete == flag(descriptor.autocomplete)
}

/// Whether `options` register the scalar options `descriptors`, in order.
pub open spec fn scalars_match(options: Seq<ApplicationCommandOption>, descriptors: Seq<CommandOptionDescriptor>) -> bool {
    &&& options.len() == descriptors.len()
    &&& forall|i: int| 0 <= i < options.len() ==> scalar_matches(#[trigger] options[i], descriptors[i])
}

/// Whether `option` registers the child node `command`: a leaf as a
/// subcommand with its scalar options, a group as a subcommand group with its
/// children.
pub open spec fn node_matches<H, A, C>(option: ApplicationCommandOption, command: SlashCommand<H, A, C>) -> bool
    decreases command, 0int,
{
    &&& option.name@ == command.descriptor.name@
    &&& option.description@ == command.descriptor.description@
    &&& option.required is None
    &&& option.choices@.len() == 0
    &&& option.min_value is None
    &&& option.max_value is None
    &&& option.min_length is None
    &&& option.max_length is None
    &&& option.autocomplete is None
    &&& match command.node {
        CommandNode::Leaf(_) => option.kind == OptionKind::SubCommand && scalars_match(
            option.options@,
            command.descriptor.options@,
        ),
        CommandNode::Group(children) => option.kind == OptionKind::SubCommandGroup && option.options@.len()
            == children@.len() && children_match(option.options@, children@, 0),
    }
}

/// Whether `options[i..]` register `children[i..]`, in order.
pub open spec fn children_match<H, A, C>(
    options: Seq<ApplicationCommandOption>,
    children: Seq<SlashCommand<H, A, C>>,
    i: int,
) -> bool
    decreases children, children.len() - i,
{
    if i < 0 || i >= children.len() {
        true
    } else {
        node_matches(options[i], children[i]) && children_match(options, children, i + 1)
    }
}

/// Whether `request` registers the top-level command `command`.
pub open spec fn request_matches<H, A, C>(request: ApplicationCommandRequest, command: SlashCommand<H, A, C>) -> bool {
    &&& request.name@ == command.descriptor.name@
    &&& request.description@ == command.descriptor.description@
    &&& match command.node {
        CommandNode::Leaf(_) => scalars_match(request.options@, command.descriptor.options@),
        CommandNode::Group(children) => request.options@.len() == children@.len() && children_match(
            request.options@,
            children@,
            0,
        ),
    }
}

proof fn lemma_children_match<H, A, C>(options: Seq<ApplicationCommandOption>, children: Seq<SlashCommand<H, A, C>>, i: int)
    requires
        0 <= i,
        forall|k: int| i <= k < children.len() ==> node_matches(#[trigger] options[k], children[k]),
    ensures
        children_match(options, children, i),
    decreases children.len() - i,
{
    if i < children.len() {
        lemma_children_match(options, children, i + 1);
    }
}

fn clone_choices(choices: &Vec<CommandChoiceDescriptor>) -> (copy: Vec<CommandChoiceDescriptor>)
    ensures
        copy@ == choices@,
{
    let mut copy: Vec<CommandChoiceDescriptor> = Vec::new();
    let mut i: usize = 0;
    while i < choices.len()
        invariant
            i <= choices@.len(),
            copy@ == choices@.take(i as int),
        decreases choices@.len() - i,
    {
        copy.push(clone_choice(&choices[i]));
        assert(copy@ =~= choices@.take(i as int + 1));
        i = i + 1;
    }
    assert(choices@.take(choices@.len() as int) =~= choices@);
    copy
}

/// The registration form of one scalar option.
pub fn application_command_option(descriptor: &CommandOptionDescriptor) -> (option: ApplicationCommandOption)
    ensures
        scalar_matches(option, *descriptor),
{
    ApplicationCommandOption {
        kind: descriptor.kind,
        name: descriptor.name.clone(),
        description: descriptor.description.clone(),
        required: if descriptor.required {
            Some(true)
        } else {
            None
        },
        choices: clone_choices(&descriptor.choices),
        options: Vec::new(),
        min_value: descriptor.min_value,
        max_value: descriptor.max_value,
        min_length: descriptor.min_length,
        max_length: descriptor.max_length,
        autocomplete: if descriptor.autocomplete {
            Some(true)
        } else {
            None
        },
    }
}

fn scalar_options(descriptors: &[CommandOptionDescriptor]) -> (options: Vec<ApplicationCommandOption>)
    ensures
        scalars_match(options@, descriptors@),
{
    let mut options: Vec<ApplicationCommandOption> = Vec::new();
    let mut i: usize = 0;
    while i < descriptors.len()
        invariant
            i <= descriptors@.len(),
            options@.len() == i,
            forall|k: int| 0 <= k < i ==> scalar_matches(#[trigger] options@[k], descriptors@[k]),
        decreases descriptors@.len() - i,
    {
        options.push(application_command_option(&descriptors[i]));
        i = i + 1;
    }
    options
}

fn node_option<H, A, C>(command: &SlashCommand<H, A, C>) -> (option: ApplicationCommandOption)
    ensures
        node_matches(option, *command),
    decreases *command, 0int,
{
    let (kind, options) = match &command.node {
        CommandNode::Leaf(_) => (OptionKind::SubCommand, scalar_options(command.descriptor.options.as_slice())),
        CommandNode::Group(children) => (OptionKind::SubCommandGroup, children_options(children.as_slice())),
    };
    ApplicationCommandOption {
        kind,
        name: command.descriptor.name.clone(),
        description: command.descriptor.description.clone(),
        required: None,
        choices: Vec::new(),
        options,
        min_value: None,
        max_value: None,
        min_length: None,
        max_length: None,
        autocomplete: None,
    }
}

fn children_options<H, A, C>(children: &[SlashCommand<H, A, C>]) -> (options: Vec<ApplicationCommandOption>)
    ensures
        options@.len() == children@.len(),
        children_match(options@, children@, 0),
    decreases children@, 0int,
{
    let mut options: Vec<ApplicationCommandOption> = Vec::new();
    let mut i: usize = 0;
    while i < children.len()
        invariant
            i <= children@.len(),
            options@.len() == i,
            forall|k: int| 0 <= k < i ==> node_matches(#[trigger] options@[k], children@[k]),
        decreases children@.len() - i,
    {
        assert(decreases_to!(children@ => children@[i as int]));
        options.push(node_option(&children[i]));
        i = i + 1;
    }
    proof {
        lemma_children_match(options@, children@, 0);
    }
    options
}

/// The registration form of one top-level command: a leaf with its scalar
/// options, or a group with a subcommand per child leaf and a subcommand
/// group per nested group.
pub fn application_command<H, A, C>(command: &SlashCommand<H, A, C>) -> (request: ApplicationCommandRequest)
    ensures
        request_matches(request, *command),
{
    let options = match &command.node {
        CommandNode::Leaf(_) => scalar_options(command.descriptor.options.as_slice()),
        CommandNode::Group(children) => children_options(children.as_slice()),
    };
    ApplicationCommandRequest { name: command.descriptor.name.clone(), description: command.descriptor.description.clone(), options }
}

/// The registration form of a bare descriptor, as a top-level leaf.
pub fn create_application_command(descriptor: &CommandDescriptor) -> (request: ApplicationCommandRequest)
    ensures
        request.name@ == descriptor.name@,
        request.description@ == descriptor.description@,
        scalars_match(request.options@, descriptor.options@),
{
    ApplicationCommandRequest {
        name: descriptor.name.clone(),
        description: descriptor.description.clone(),
        options: scalar_options(descriptor.options.as_slice()),
    }
}

impl<D, H, A, C> Framework<D, H, A, C> {
    /// What synchronizing the registry with Discord sends: nothing when
    /// registration is disabled, else one request per registered command, in
    /// the registry's name order.
    pub fn synchronization_plan(&self) -> (plan: SynchronizationPlan)
        ensures
            match self.registration {
                Registration::Disabled => plan is Skip,
                Registration::Global => plan matches SynchronizationPlan::Global(requests) && requests@.len()
                    == self.registry.spec_commands().len() && forall|i: int|
                    0 <= i < requests@.len() ==> request_matches(
                        #[trigger] requests@[i],
                        self.registry.spec_commands()[i],
                    ),
                Registration::Guild(guild) => plan matches SynchronizationPlan::Guild(g, requests) && g == guild
                    && requests@.len() == self.registry.spec_commands().len() && forall|i: int|
                    0 <= i < requests@.len() ==> request_matches(
                        #[trigger] requests@[i],
                        self.registry.spec_commands()[i],
                    ),
            },
    {
        if self.registration == Registration::Disabled {
            return SynchronizationPlan::Skip;
        }
        let commands = self.registry.commands();
        let mut requests: Vec<ApplicationCommandRequest> = Vec::new();
        let mut i: usize = 0;
        while i < commands.len()
            invariant
                i <= commands@.len(),
                commands@ == self.registry.spec_commands(),
                requests@.len() == i,
                forall|k: int| 0 <= k < i ==> request_matches(#[trigger] requests@[k], commands@[k]),
            decreases commands@.len() - i,
        {
            requests.push(application_command(&commands[i]));
            i = i + 1;
        }
        match self.registration {
            Registration::Guild(guild) => SynchronizationPlan::Guild(guild, requests),
            _ => SynchronizationPlan::Global(requests),
        }
    }
}

} // verus!
