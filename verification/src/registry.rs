use vstd::prelude::*;
use crate::command::CommandOptionDescriptor;
use crate::error::Error;
use crate::node::{AutocompleteHandlerDescriptor, CommandNode, SlashCommand};
use crate::text::{child_path, clone_strings, format_path, seq_lt, str_eq, str_lt, views};

verus! {

/// Why a command tree is refused at registration, with the refused path.
pub enum Refusal {
    /// A group with options, without children, or nested deeper than Discord allows.
    Hierarchy(Seq<char>),
    /// Two siblings share a name.
    DuplicatePath(Seq<char>),
    /// A leaf policy cannot be honoured.
    Policy(Seq<char>),
    /// Autocomplete handlers and option descriptors disagree.
    Autocomplete(Seq<char>),
}

/// Whether the error reports the refusal.
pub open spec fn refused_with(e: Error, r: Refusal) -> bool {
    match r {
        Refusal::Hierarchy(p) => e matches Error::InvalidCommandHierarchy(s) && s@ == p,
        Refusal::DuplicatePath(p) => e matches Error::DuplicateCommandPath(s) && s@ == p,
        Refusal::Policy(p) => e matches Error::InvalidCommandPolicy(s) && s@ == p,
        Refusal::Autocomplete(p) => e matches Error::InvalidAutocompleteConfiguration(s) && s@ == p,
    }
}

/// Whether a validation result is `Ok` exactly when nothing is refused, and
/// otherwise reports the refusal.
pub open spec fn reports(result: Result<(), Error>, refusal: Option<Refusal>) -> bool {
    match refusal {
        None => result is Ok,
        Some(r) => result matches Err(e) && refused_with(e, r),
    }
}

/// The first index in `i..n` at which `pred` holds.
pub open spec fn first_where(n: int, pred: spec_fn(int) -> bool, i: int) -> Option<int>
    decreases n - i,
{
    if i >= n {
        None
    } else if pred(i) {
        Some(i)
    } else {
        first_where(n, pred, i + 1)
    }
}

pub proof fn lemma_first_where(n: int, pred: spec_fn(int) -> bool, i: int)
    ensures
        match first_where(n, pred, i) {
            Some(k) => i <= k < n && pred(k) && forall|j: int| i <= j < k ==> !#[trigger] pred(j),
            None => forall|j: int| i <= j < n ==> !#[trigger] pred(j),
        },
    decreases n - i,
{
    if i < n && !pred(i) {
        lemma_first_where(n, pred, i + 1);
    }
}

/// A path and the name of one of its options, separated by a space.
pub open spec fn labelled(path: Seq<char>, name: Seq<char>) -> Seq<char> {
    path + seq![' '] + name
}

/// Whether the handler at `i` repeats an earlier handler's option name, or
/// the first option of that name is missing or not marked for autocomplete.
pub open spec fn handler_bad<A>(
    handlers: Seq<AutocompleteHandlerDescriptor<A>>,
    options: Seq<CommandOptionDescriptor>,
    i: int,
) -> bool {
    (exists|j: int| 0 <= j < i && #[trigger] handlers[j].option_name@ == handlers[i].option_name@)
        || !(exists|o: int|
        0 <= o < options.len() && #[trigger] options[o].name@ == handlers[i].option_name@
            && options[o].autocomplete && forall|p: int|
            0 <= p < o ==> #[trigger] options[p].name@ != handlers[i].option_name@)
}

/// Whether the option at `o` asks for autocomplete but is not a String,
/// Integer or Number option, carries static choices, or has no handler.
pub open spec fn option_bad<A>(
    handlers: Seq<AutocompleteHandlerDescriptor<A>>,
    options: Seq<CommandOptionDescriptor>,
    o: int,
) -> bool {
    options[o].autocomplete && (!options[o].kind.spec_is_choice_capable()
        || options[o].choices@.len() > 0 || !(exists|h: int|
        0 <= h < handlers.len() && #[trigger] handlers[h].option_name@ == options[o].name@))
}

/// The refusal of a leaf at `path`, if any: a zero concurrency limit first,
/// then the first bad autocomplete handler, then the first bad option.
pub open spec fn leaf_refusal<H, A, C>(command: SlashCommand<H, A, C>, path: Seq<char>) -> Option<Refusal> {
    match command.node {
        CommandNode::Group(_) => None,
        CommandNode::Leaf(leaf) => {
            let handlers = leaf.autocomplete@;
            let options = command.descriptor.options@;
            if leaf.policy.spec_max_concurrency() == Some(0usize) {
                Some(Refusal::Policy(path))
            } else {
                match first_where(handlers.len() as int, |i: int| handler_bad(handlers, options, i), 0) {
                    Some(i) => Some(Refusal::Autocomplete(labelled(path, handlers[i].option_name@))),
                    None => match first_where(options.len() as int, |o: int| option_bad(handlers, options, o), 0) {
                        Some(o) => Some(Refusal::Autocomplete(labelled(path, options[o].name@))),
                        None => None,
                    },
                }
            }
        },
    }
}

/// Whether any child of the node is a group.
pub open spec fn has_group_child<H, A, C>(command: SlashCommand<H, A, C>) -> bool {
    exists|k: int| 0 <= k < command.spec_children().len() && !#[trigger] command.spec_children()[k].spec_is_leaf()
}

/// The refusal of a non-root node at `path` below the `parent` path at `depth`.
pub open spec fn node_refusal<H, A, C>(
    command: SlashCommand<H, A, C>,
    parent: Seq<Seq<char>>,
    depth: int,
    path: Seq<char>,
) -> Option<Refusal>
    decreases command, 0int,
{
    match command.node {
        CommandNode::Leaf(_) => leaf_refusal(command, path),
        CommandNode::Group(children) => {
            if depth >= 2 || command.descriptor.options@.len() > 0 || children@.len() == 0 {
                Some(Refusal::Hierarchy(path))
            } else if has_group_child(command) {
                Some(Refusal::Hierarchy(path))
            } else {
                children_refusal(children@, parent.push(command.descriptor.name@), depth + 1, 0)
            }
        },
    }
}

/// The first refusal among `children[i..]`, each checked in order: a name that
/// repeats an earlier sibling, then the child itself.
pub open spec fn children_refusal<H, A, C>(
    children: Seq<SlashCommand<H, A, C>>,
    parent: Seq<Seq<char>>,
    depth: int,
    i: int,
) -> Option<Refusal>
    decreases children, children.len() - i,
{
    if i < 0 || i >= children.len() {
        None
    } else {
        let child = children[i];
        let path = child_path(parent, child.descriptor.name@);
        if exists|j: int| 0 <= j < i && #[trigger] children[j].descriptor.name@ == child.descriptor.name@ {
            Some(Refusal::DuplicatePath(path))
        } else {
            match node_refusal(child, parent, depth, path) {
                Some(r) => Some(r),
                None => children_refusal(children, parent, depth, i + 1),
            }
        }
    }
}

/// The refusal of a top-level command tree, if any.
pub open spec fn hierarchy_refusal<H, A, C>(command: SlashCommand<H, A, C>) -> Option<Refusal> {
    match command.node {
        CommandNode::Leaf(_) => leaf_refusal(command, command.descriptor.name@),
        CommandNode::Group(children) => {
            if command.descriptor.options@.len() > 0 || children@.len() == 0 {
                Some(Refusal::Hierarchy(command.descriptor.name@))
            } else {
                children_refusal(children@, seq![command.descriptor.name@], 1, 0)
            }
        },
    }
}

pub(crate) fn labelled_path(path: &str, name: &str) -> (label: String)
    ensures
        label@ == labelled(path@, name@),
{
    proof {
        reveal_strlit(" ");
    }
    let mut label = path.to_owned();
    label.append(" ");
    label.append(name);
    label
}

#[verifier::loop_isolation(false)]
fn validate_leaf<H, A, C>(command: &SlashCommand<H, A, C>, path: &str) -> (result: Result<(), Error>)
    requires
        command.spec_is_leaf(),
    ensures
        reports(result, leaf_refusal(*command, path@)),
{
    let leaf = match &command.node {
        CommandNode::Leaf(leaf) => leaf,
        CommandNode::Group(_) => {
            return Ok(());
        },
    };
    if leaf.policy.max_concurrent_executions() == Some(0usize) {
        return Err(Error::InvalidCommandPolicy(path.to_owned()));
    }
    let handlers = &leaf.autocomplete;
    let options = &command.descriptor.options;
    let ghost hpred = |i: int| handler_bad(handlers@, options@, i);
    let ghost opred = |o: int| option_bad(handlers@, options@, o);
    let mut i: usize = 0;
    while i < handlers.len()
        invariant
            i <= handlers@.len(),
            hpred == (|k: int| handler_bad(handlers@, options@, k)),
            first_where(handlers@.len() as int, hpred, 0) == first_where(handlers@.len() as int, hpred, i as int),
        decreases handlers@.len() - i,
    {
        let name = handlers[i].option_name.as_str();
        let mut duplicate = false;
        let mut j: usize = 0;
        while j < i
            invariant
                j <= i < handlers@.len(),
                name@ == handlers@[i as int].option_name@,
                duplicate == exists|m: int| 0 <= m < j && #[trigger] handlers@[m].option_name@ == name@,
            decreases i - j,
        {
            if str_eq(handlers[j].option_name.as_str(), name) {
                duplicate = true;
            }
            j = j + 1;
        }
        let mut found: Option<usize> = None;
        let mut o: usize = 0;
        while o < options.len() && found.is_none()
            invariant
                o <= options@.len(),
                name@ == handlers@[i as int].option_name@,
                found matches Some(k) ==> k < o && options@[k as int].name@ == name@ && forall|p: int|
                    0 <= p < k ==> #[trigger] options@[p].name@ != name@,
                found is None ==> forall|p: int| 0 <= p < o ==> #[trigger] options@[p].name@ != name@,
            decreases options@.len() - o,
        {
            if str_eq(options[o].name.as_str(), name) {
                found = Some(o);
            }
            o = o + 1;
        }
        let bad = duplicate || match found {
            None => true,
            Some(k) => !options[k].autocomplete,
        };
        proof {
            if !bad {
                let k = found->0;
                assert(0 <= k < options@.len() && options@[k as int].name@ == handlers@[i as int].option_name@
                    && options@[k as int].autocomplete);
            } else if !duplicate {
                if exists|q: int|
                    0 <= q < options@.len() && #[trigger] options@[q].name@ == handlers@[i as int].option_name@
                        && options@[q].autocomplete && forall|p: int|
                        0 <= p < q ==> #[trigger] options@[p].name@ != handlers@[i as int].option_name@ {
                    let q = choose|q: int|
                        0 <= q < options@.len() && #[trigger] options@[q].name@ == handlers@[i as int].option_name@
                            && options@[q].autocomplete && forall|p: int|
                            0 <= p < q ==> #[trigger] options@[p].name@ != handlers@[i as int].option_name@;
                    if let Some(k) = found {
                        assert(q == k as int);
                    }
                }
            }
            assert(bad == hpred(i as int));
        }
        if bad {
            proof {
                assert(first_where(handlers@.len() as int, hpred, i as int) == Some(i as int));
                assert(hpred =~= (|k: int| handler_bad(leaf.autocomplete@, command.descriptor.options@, k)));
            }
            return Err(Error::InvalidAutocompleteConfiguration(labelled_path(path, name)));
        }
        i = i + 1;
    }
    proof {
        lemma_first_where(handlers@.len() as int, hpred, 0);
    }
    let mut o: usize = 0;
    while o < options.len()
        invariant
            o <= options@.len(),
            opred == (|k: int| option_bad(handlers@, options@, k)),
            first_where(handlers@.len() as int, hpred, 0) is None,
            first_where(options@.len() as int, opred, 0) == first_where(options@.len() as int, opred, o as int),
        decreases options@.len() - o,
    {
        let option = &options[o];
        if option.autocomplete {
            let mut has_handler = false;
            let mut h: usize = 0;
            while h < handlers.len()
                invariant
                    h <= handlers@.len(),
                    has_handler == exists|m: int| 0 <= m < h && #[trigger] handlers@[m].option_name@ == option.name@,
                decreases handlers@.len() - h,
            {
                if str_eq(handlers[h].option_name.as_str(), option.name.as_str()) {
                    has_handler = true;
                }
                h = h + 1;
            }
            if !option.kind.is_choice_capable() || option.choices.len() > 0 || !has_handler {
                assert(opred(o as int));
                proof {
                    assert(first_where(options@.len() as int, opred, o as int) == Some(o as int));
                    assert(hpred =~= (|k: int| handler_bad(leaf.autocomplete@, command.descriptor.options@, k)));
                    assert(opred =~= (|k: int| option_bad(leaf.autocomplete@, command.descriptor.options@, k)));
                }
                return Err(
                    Error::InvalidAutocompleteConfiguration(labelled_path(path, option.name.as_str())),
                );
            }
        }
        assert(!opred(o as int));
        o = o + 1;
    }
    proof {
        lemma_first_where(options@.len() as int, opred, 0);
        assert(hpred =~= (|k: int| handler_bad(leaf.autocomplete@, command.descriptor.options@, k)));
        assert(opred =~= (|k: int| option_bad(leaf.autocomplete@, command.descriptor.options@, k)));
    }
    Ok(())
}


fn has_group_among<H, A, C>(children: &[SlashCommand<H, A, C>]) -> (found: bool)
    ensures
        found == exists|k: int| 0 <= k < children@.len() && !#[trigger] children@[k].spec_is_leaf(),
{
    let mut i: usize = 0;
    while i < children.len()
        invariant
            i <= children@.len(),
            forall|k: int| 0 <= k < i ==> #[trigger] children@[k].spec_is_leaf(),
        decreases children@.len() - i,
    {
        if children[i].is_group() {
            return true;
        }
        i = i + 1;
    }
    false
}

fn validate_node<H, A, C>(
    command: &SlashCommand<H, A, C>,
    parent: &Vec<String>,
    depth: usize,
    path: &String,
) -> (result: Result<(), Error>)
    requires
        depth <= 2,
    ensures
        reports(result, node_refusal(*command, views(parent@), depth as int, path@)),
    decreases *command, 0int,
{
    let children = match &command.node {
        CommandNode::Leaf(_) => {
            return validate_leaf(command, path.as_str());
        },
        CommandNode::Group(children) => children,
    };
    if depth >= 2 || command.descriptor.options.len() > 0 || children.len() == 0 {
        return Err(Error::InvalidCommandHierarchy(path.clone()));
    }
    assert(children@ == command.spec_children());
    if has_group_among(children.as_slice()) {
        return Err(Error::InvalidCommandHierarchy(path.clone()));
    }
    let mut nested = clone_strings(parent.as_slice());
    nested.push(command.descriptor.name.clone());
    assert(views(nested@) =~= views(parent@).push(command.descriptor.name@));
    validate_children(children.as_slice(), &nested, depth + 1)
}

fn validate_children<H, A, C>(
    children: &[SlashCommand<H, A, C>],
    parent: &Vec<String>,
    depth: usize,
) -> (result: Result<(), Error>)
    requires
        depth <= 2,
    ensures
        reports(result, children_refusal(children@, views(parent@), depth as int, 0)),
    decreases children@, 0int,
{
    let mut i: usize = 0;
    while i < children.len()
        invariant
            i <= children@.len(),
            depth <= 2,
            children_refusal(children@, views(parent@), depth as int, 0) == children_refusal(
                children@,
                views(parent@),
                depth as int,
                i as int,
            ),
        decreases children@.len() - i,
    {
        let child = &children[i];
        let name = child.descriptor.name.as_str();
        let path = format_path(parent.as_slice(), name);
        let mut duplicate = false;
        let mut j: usize = 0;
        while j < i
            invariant
                j <= i < children@.len(),
                name@ == children@[i as int].descriptor.name@,
                duplicate == exists|m: int| 0 <= m < j && #[trigger] children@[m].descriptor.name@ == name@,
            decreases i - j,
        {
            if str_eq(children[j].descriptor.name.as_str(), name) {
                duplicate = true;
            }
            j = j + 1;
        }
        if duplicate {
            return Err(Error::DuplicateCommandPath(path));
        }
        assert(decreases_to!(children@ => children@[i as int]));
        match validate_node(child, parent, depth, &path) {
            Err(e) => {
                return Err(e);
            },
            Ok(()) => {},
        }
        i = i + 1;
    }
    Ok(())
}

fn validate_hierarchy<H, A, C>(command: &SlashCommand<H, A, C>) -> (result: Result<(), Error>)
    ensures
        reports(result, hierarchy_refusal(*command)),
{
    let children = match &command.node {
        CommandNode::Leaf(_) => {
            return validate_leaf(command, command.descriptor.name.as_str());
        },
        CommandNode::Group(children) => children,
    };
    if command.descriptor.options.len() > 0 || children.len() == 0 {
        return Err(Error::InvalidCommandHierarchy(command.descriptor.name.clone()));
    }
    let mut root: Vec<String> = Vec::new();
    root.push(command.descriptor.name.clone());
    assert(views(root@) =~= seq![command.descriptor.name@]);
    validate_children(children.as_slice(), &root, 1)
}


/// Whether the command names strictly increase in code-point order.
pub open spec fn sorted_names<H, A, C>(commands: Seq<SlashCommand<H, A, C>>) -> bool {
    forall|i: int, j: int|
        0 <= i < j < commands.len() ==> seq_lt(
            #[trigger] commands[i].spec_name(),
            #[trigger] commands[j].spec_name(),
        )
}

/// The command registered under `name`, if any.
pub open spec fn lookup<H, A, C>(commands: Seq<SlashCommand<H, A, C>>, name: Seq<char>) -> Option<
    SlashCommand<H, A, C>,
> {
    if exists|i: int| 0 <= i < commands.len() && #[trigger] commands[i].spec_name() == name {
        Some(commands[choose|i: int| 0 <= i < commands.len() && #[trigger] commands[i].spec_name() == name])
    } else {
        None
    }
}

proof fn lemma_lookup_unique<H, A, C>(commands: Seq<SlashCommand<H, A, C>>, i: int)
    requires
        sorted_names(commands),
        0 <= i < commands.len(),
    ensures
        lookup(commands, commands[i].spec_name()) == Some(commands[i]),
{
    let name = commands[i].spec_name();
    let j = choose|j: int| 0 <= j < commands.len() && #[trigger] commands[j].spec_name() == name;
    if j != i {
        crate::text::lemma_seq_lt_irreflexive(name);
        if i < j {
            assert(seq_lt(commands[i].spec_name(), commands[j].spec_name()));
        } else {
            assert(seq_lt(commands[j].spec_name(), commands[i].spec_name()));
        }
    }
}

/// Deterministic registry of slash commands keyed by Discord command name.
///
/// Commands are kept in increasing name order, so iteration is deterministic.
pub struct CommandRegistry<H, A, C> {
    commands: Vec<SlashCommand<H, A, C>>,
}

impl<H, A, C> CommandRegistry<H, A, C> {
    #[verifier::type_invariant]
    spec fn inv(&self) -> bool {
        sorted_names(self.commands@)
    }

    /// The registered top-level commands in increasing name order.
    pub closed spec fn spec_commands(&self) -> Seq<SlashCommand<H, A, C>> {
        self.commands@
    }

    /// The command registered under `name`, if any.
    pub open spec fn spec_lookup(&self, name: Seq<char>) -> Option<SlashCommand<H, A, C>> {
        lookup(self.spec_commands(), name)
    }

    /// Creates an empty registry.
    pub fn new() -> (registry: Self)
        ensures
            registry.spec_commands().len() == 0,
    {
        CommandRegistry { commands: Vec::new() }
    }

    /// Inserts one command after validating its Discord-native hierarchy.
    pub fn insert(&mut self, command: SlashCommand<H, A, C>) -> (result: Result<(), Error>)
        ensures
            hierarchy_refusal(command) is Some ==> reports(result, hierarchy_refusal(command))
                && final(self).spec_commands() == old(self).spec_commands(),
            hierarchy_refusal(command) is None && old(self).spec_lookup(command.spec_name()) is Some
                ==> (result matches Err(Error::DuplicateCommand(n)) && n@ == command.spec_name())
                && final(self).spec_commands() == old(self).spec_commands(),
            hierarchy_refusal(command) is None && old(self).spec_lookup(command.spec_name()) is None
                ==> result is Ok && final(self).spec_commands().len() == old(self).spec_commands().len() + 1
                && final(self).spec_lookup(command.spec_name()) == Some(command) && forall|n: Seq<char>|
                n != command.spec_name() ==> #[trigger] final(self).spec_lookup(n) == old(self).spec_lookup(n),
    {
        proof {
            use_type_invariant(&*self);
        }
        match validate_hierarchy(&command) {
            Err(e) => {
                return Err(e);
            },
            Ok(()) => {},
        }
        let ghost old_commands = self.commands@;
        let name = command.descriptor.name.as_str();
        let mut k: usize = 0;
        while k < self.commands.len() && str_lt(self.commands[k].descriptor.name.as_str(), name)
            invariant
                self.commands@ == old_commands,
                sorted_names(old_commands),
                k <= old_commands.len(),
                name@ == command.spec_name(),
                forall|i: int| 0 <= i < k ==> seq_lt(#[trigger] old_commands[i].spec_name(), name@),
            decreases old_commands.len() - k,
        {
            k = k + 1;
        }
        if k < self.commands.len() && str_eq(self.commands[k].descriptor.name.as_str(), name) {
            proof {
                lemma_lookup_unique(old_commands, k as int);
            }
            return Err(Error::DuplicateCommand(command.descriptor.name.clone()));
        }
        proof {
            if k < old_commands.len() {
                crate::text::lemma_seq_lt_trichotomy(old_commands[k as int].spec_name(), name@);
            }
            assert forall|i: int| 0 <= i < old_commands.len() implies #[trigger] old_commands[i].spec_name()
                != name@ by {
                crate::text::lemma_seq_lt_irreflexive(name@);
                if i >= k {
                    if i > k {
                        crate::text::lemma_seq_lt_transitive(name@, old_commands[k as int].spec_name(), old_commands[i].spec_name());
                    }
                }
            }
        }
        let mut commands: Vec<SlashCommand<H, A, C>> = Vec::new();
        std::mem::swap(&mut commands, &mut self.commands);
        commands.insert(k, command);
        let ghost updated = commands@;
        assert(updated == old_commands.insert(k as int, command));
        proof {
            assert forall|i: int, j: int| 0 <= i < j < updated.len() implies seq_lt(
                #[trigger] updated[i].spec_name(),
                #[trigger] updated[j].spec_name(),
            ) by {
                if j < k {
                } else if j == k {
                } else if i < k {
                    crate::text::lemma_seq_lt_trichotomy(old_commands[k as int].spec_name(), name@);
                    crate::text::lemma_seq_lt_transitive(updated[i].spec_name(), name@, old_commands[k as int].spec_name());
                    if j - 1 > k {
                        crate::text::lemma_seq_lt_transitive(updated[i].spec_name(), old_commands[k as int].spec_name(), updated[j].spec_name());
                    }
                } else if i == k {
                    crate::text::lemma_seq_lt_trichotomy(old_commands[k as int].spec_name(), name@);
                    if j - 1 > k {
                        crate::text::lemma_seq_lt_transitive(name@, old_commands[k as int].spec_name(), updated[j].spec_name());
                    }
                } else {
                    assert(updated[i] == old_commands[i - 1]);
                    assert(updated[j] == old_commands[j - 1]);
                }
            }
            lemma_lookup_unique(updated, k as int);
            assert forall|n: Seq<char>| n != name@ implies #[trigger] lookup(updated, n) == lookup(old_commands, n) by {
                if exists|i: int| 0 <= i < old_commands.len() && #[trigger] old_commands[i].spec_name() == n {
                    let i = choose|i: int| 0 <= i < old_commands.len() && #[trigger] old_commands[i].spec_name() == n;
                    lemma_lookup_unique(old_commands, i);
                    if i < k {
                        lemma_lookup_unique(updated, i);
                    } else {
                        assert(updated[i + 1] == old_commands[i]);
                        lemma_lookup_unique(updated, i + 1);
                    }
                } else {
                    assert forall|i: int| 0 <= i < updated.len() implies #[trigger] updated[i].spec_name() != n by {
                        if i < k {
                            assert(updated[i] == old_commands[i]);
                        } else if i > k {
                            assert(updated[i] == old_commands[i - 1]);
                        }
                    }
                }
            }
        }
        self.commands = commands;
        Ok(())
    }

    /// Resolves one top-level command by registered name.
    pub fn get(&self, name: &str) -> (command: Option<&SlashCommand<H, A, C>>)
        ensures
            match command {
                Some(c) => self.spec_lookup(name@) == Some(*c),
                None => self.spec_lookup(name@) is None,
            },
    {
        proof {
            use_type_invariant(self);
        }
        let mut i: usize = 0;
        while i < self.commands.len()
            invariant
                sorted_names(self.commands@),
                i <= self.commands@.len(),
                forall|j: int| 0 <= j < i ==> #[trigger] self.commands@[j].spec_name() != name@,
            decreases self.commands@.len() - i,
        {
            if str_eq(self.commands[i].descriptor.name.as_str(), name) {
                proof {
                    lemma_lookup_unique(self.commands@, i as int);
                }
                return Some(&self.commands[i]);
            }
            i = i + 1;
        }
        None
    }

    /// Returns the number of registered top-level commands.
    pub fn len(&self) -> (count: usize)
        ensures
            count == self.spec_commands().len(),
    {
        self.commands.len()
    }

    /// Returns whether the registry has no commands.
    pub fn is_empty(&self) -> (empty: bool)
        ensures
            empty == (self.spec_commands().len() == 0),
    {
        self.commands.len() == 0
    }

    /// The registered commands in increasing name order.
    pub fn commands(&self) -> (commands: &[SlashCommand<H, A, C>])
        ensures
            commands@ == self.spec_commands(),
            sorted_names(commands@),
    {
        proof {
            use_type_invariant(self);
        }
        self.commands.as_slice()
    }

    /// Iterates over the registered commands in increasing name order.
    pub fn iter(&self) -> (iter: std::slice::Iter<'_, SlashCommand<H, A, C>>)
        ensures
            vstd::std_specs::slice::into_iter_elts(iter) == self.spec_commands(),
    {
        proof {
            use_type_invariant(self);
        }
        let commands = self.commands.as_slice();
        let iter = commands.iter();
        proof {
            vstd::std_specs::slice::axiom_spec_slice_iter(commands);
            assert(commands@.as_ref().unref() =~= commands@);
        }
        iter
    }
}

impl<H, A, C> Default for CommandRegistry<H, A, C> {
    fn default() -> (registry: Self)
        ensures
            registry.spec_commands().len() == 0,
    {
        Self::new()
    }
}

} // verus!
