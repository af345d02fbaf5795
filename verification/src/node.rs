use vstd::prelude::*;
use crate::command::CommandDescriptor;
use crate::policy::CommandPolicy;

verus! {

/// Association between one command option and its autocomplete handler.
pub struct AutocompleteHandlerDescriptor<A> {
    pub option_name: String,
    pub handler: A,
}

impl<A> AutocompleteHandlerDescriptor<A> {
    /// Creates an autocomplete-handler association for one registered option name.
    pub fn new(option_name: &str, handler: A) -> (descriptor: Self)
        ensures
            descriptor.option_name@ == option_name@,
            descriptor.handler == handler,
    {
        AutocompleteHandlerDescriptor { option_name: option_name.to_owned(), handler }
    }

    /// Returns the registered option name.
    pub fn option_name(&self) -> (name: &str)
        ensures
            name@ == self.option_name@,
    {
        self.option_name.as_str()
    }

    /// Returns the autocomplete handler.
    pub fn handler(&self) -> (handler: &A)
        ensures
            *handler == self.handler,
    {
        &self.handler
    }
}

/// A leaf command: its handler, execution policy and autocomplete handlers.
pub struct LeafCommand<H, A, C> {
    pub handler: H,
    pub policy: CommandPolicy<C>,
    pub autocomplete: Vec<AutocompleteHandlerDescriptor<A>>,
}

/// Shape of one node in a command tree.
pub enum CommandNode<H, A, C> {
    Leaf(LeafCommand<H, A, C>),
    Group(Vec<SlashCommand<H, A, C>>),
}

/// One node in the registered Discord chat-input command tree.
///
/// `H` is the command handler, `A` the autocomplete handler and `C` the
/// custom-check handler that the application stores with each node.
pub struct SlashCommand<H, A, C> {
    pub descriptor: CommandDescriptor,
    pub node: CommandNode<H, A, C>,
}

impl<H, A, C> SlashCommand<H, A, C> {
    pub open spec fn spec_name(&self) -> Seq<char> {
        self.descriptor.name@
    }

    pub open spec fn spec_is_leaf(&self) -> bool {
        self.node is Leaf
    }

    pub open spec fn spec_children(&self) -> Seq<SlashCommand<H, A, C>> {
        match self.node {
            CommandNode::Leaf(_) => Seq::empty(),
            CommandNode::Group(children) => children@,
        }
    }

    pub open spec fn spec_handlers(&self) -> Seq<AutocompleteHandlerDescriptor<A>> {
        match self.node {
            CommandNode::Leaf(leaf) => leaf.autocomplete@,
            CommandNode::Group(_) => Seq::empty(),
        }
    }

    /// Creates a leaf command with an unrestricted policy.
    pub fn new(descriptor: CommandDescriptor, handler: H) -> (command: Self)
        ensures
            command.descriptor == descriptor,
            command.node matches CommandNode::Leaf(leaf) && leaf.handler == handler
                && leaf.autocomplete@.len() == 0 && leaf.policy.spec_checks().len() == 0
                && leaf.policy.spec_contexts().len() == 0 && leaf.policy.spec_member_permissions() is None
                && leaf.policy.spec_bot_permissions() is None && leaf.policy.spec_cooldown() is None
                && leaf.policy.spec_max_concurrency() is None,
    {
        SlashCommand {
            descriptor,
            node: CommandNode::Leaf(
                LeafCommand { handler, policy: CommandPolicy::new(), autocomplete: Vec::new() },
            ),
        }
    }

    /// Creates a leaf command with an execution policy.
    pub fn new_with_policy(descriptor: CommandDescriptor, handler: H, policy: CommandPolicy<C>) -> (command: Self)
        ensures
            command.descriptor == descriptor,
            command.node matches CommandNode::Leaf(leaf) && leaf.handler == handler
                && leaf.policy == policy && leaf.autocomplete@.len() == 0,
    {
        SlashCommand {
            descriptor,
            node: CommandNode::Leaf(LeafCommand { handler, policy, autocomplete: Vec::new() }),
        }
    }

    /// Creates a leaf command whose options are served by autocomplete handlers.
    pub fn new_with_autocomplete(
        descriptor: CommandDescriptor,
        handler: H,
        autocomplete: Vec<AutocompleteHandlerDescriptor<A>>,
    ) -> (command: Self)
        ensures
            command.descriptor == descriptor,
            command.node matches CommandNode::Leaf(leaf) && leaf.handler == handler
                && leaf.autocomplete == autocomplete && leaf.policy.spec_checks().len() == 0
                && leaf.policy.spec_contexts().len() == 0 && leaf.policy.spec_member_permissions() is None
                && leaf.policy.spec_bot_permissions() is None && leaf.policy.spec_cooldown() is None
                && leaf.policy.spec_max_concurrency() is None,
    {
        SlashCommand {
            descriptor,
            node: CommandNode::Leaf(LeafCommand { handler, policy: CommandPolicy::new(), autocomplete }),
        }
    }

    /// Creates a leaf command with both an execution policy and autocomplete handlers.
    pub fn new_with_policy_and_autocomplete(
        descriptor: CommandDescriptor,
        handler: H,
        policy: CommandPolicy<C>,
        autocomplete: Vec<AutocompleteHandlerDescriptor<A>>,
    ) -> (command: Self)
        ensures
            command.descriptor == descriptor,
            command.node matches CommandNode::Leaf(leaf) && leaf.handler == handler
                && leaf.policy == policy && leaf.autocomplete == autocomplete,
    {
        SlashCommand {
            descriptor,
            node: CommandNode::Leaf(LeafCommand { handler, policy, autocomplete }),
        }
    }

    /// Creates a group node containing child commands.
    pub fn group(descriptor: CommandDescriptor, children: Vec<Self>) -> (command: Self)
        ensures
            command.descriptor == descriptor,
            command.node matches CommandNode::Group(c) && c == children,
    {
        SlashCommand { descriptor, node: CommandNode::Group(children) }
    }

    /// Returns the node descriptor.
    pub fn descriptor(&self) -> (descriptor: &CommandDescriptor)
        ensures
            *descriptor == self.descriptor,
    {
        &self.descriptor
    }

    /// Returns the handler when this node is a leaf command.
    pub fn handler(&self) -> (handler: Option<&H>)
        ensures
            match self.node {
                CommandNode::Leaf(leaf) => handler == Some(&leaf.handler),
                CommandNode::Group(_) => handler is None,
            },
    {
        match &self.node {
            CommandNode::Leaf(leaf) => Some(&leaf.handler),
            CommandNode::Group(_) => None,
        }
    }

    /// Returns the execution policy when this node is a leaf command.
    pub fn policy(&self) -> (policy: Option<&CommandPolicy<C>>)
        ensures
            match self.node {
                CommandNode::Leaf(leaf) => policy == Some(&leaf.policy),
                CommandNode::Group(_) => policy is None,
            },
    {
        match &self.node {
            CommandNode::Leaf(leaf) => Some(&leaf.policy),
            CommandNode::Group(_) => None,
        }
    }

    /// Returns the autocomplete handlers of a leaf; a group has none.
    pub fn autocomplete_handlers(&self) -> (handlers: &[AutocompleteHandlerDescriptor<A>])
        ensures
            handlers@ == self.spec_handlers(),
    {
        match &self.node {
            CommandNode::Leaf(leaf) => leaf.autocomplete.as_slice(),
            CommandNode::Group(_) => &[],
        }
    }

    /// Returns the autocomplete handler registered for one option name.
    pub fn autocomplete_handler(&self, option_name: &str) -> (handler: Option<&A>)
        ensures
            match handler {
                Some(h) => exists|i: int|
                    0 <= i < self.spec_handlers().len() && self.spec_handlers()[i].option_name@
                        == option_name@ && self.spec_handlers()[i].handler == *h && forall|j: int|
                        0 <= j < i ==> self.spec_handlers()[j].option_name@ != option_name@,
                None => forall|i: int|
                    0 <= i < self.spec_handlers().len() ==> self.spec_handlers()[i].option_name@
                        != option_name@,
            },
    {
        let handlers = self.autocomplete_handlers();
        let mut i: usize = 0;
        while i < handlers.len()
            invariant
                handlers@ == self.spec_handlers(),
                i <= handlers@.len(),
                forall|j: int| 0 <= j < i ==> handlers@[j].option_name@ != option_name@,
            decreases handlers@.len() - i,
        {
            if crate::text::str_eq(handlers[i].option_name.as_str(), option_name) {
                return Some(&handlers[i].handler);
            }
            i = i + 1;
        }
        None
    }

    /// Returns child nodes; a leaf has none.
    pub fn children(&self) -> (children: &[Self])
        ensures
            children@ == self.spec_children(),
    {
        match &self.node {
            CommandNode::Leaf(_) => &[],
            CommandNode::Group(children) => children.as_slice(),
        }
    }

    /// Returns whether this node is a leaf command.
    pub fn is_leaf(&self) -> (leaf: bool)
        ensures
            leaf == self.spec_is_leaf(),
    {
        match &self.node {
            CommandNode::Leaf(_) => true,
            CommandNode::Group(_) => false,
        }
    }

    /// Returns whether this node is a group.
    pub fn is_group(&self) -> (group: bool)
        ensures
            group == !self.spec_is_leaf(),
    {
        match &self.node {
            CommandNode::Leaf(_) => false,
            CommandNode::Group(_) => true,
        }
    }
}

} // verus!
