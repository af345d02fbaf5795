use vstd::prelude::*;
use crate::command::{CommandOptionDescriptor, OptionKind};
use crate::node::{AutocompleteHandlerDescriptor, CommandNode};
use crate::policy::CommandPolicy;
use crate::registry::CommandRegistry;
use crate::error::Error;
use crate::interaction::{CommandOptions, SubmittedOption};
use crate::node::SlashCommand;
use crate::registry::{first_where, labelled, labelled_path, lemma_first_where};
use crate::text::{join_path, join_spaces, str_eq, views};

verus! {

/// A submitted command path resolved to a registered leaf.
pub struct ResolvedCommand<'a, 'b, H, A, C> {
    /// The registered leaf that handles the invocation.
    pub command: &'a SlashCommand<H, A, C>,
    /// Names from the top-level command down to the leaf.
    pub path: Vec<String>,
    /// The scalar options submitted for the leaf.
    pub options: &'b [SubmittedOption],
}

/// Index of the first child named `name`.
pub open spec fn child_named<H, A, C>(children: Seq<SlashCommand<H, A, C>>, name: Seq<char>) -> Option<int> {
    first_where(children.len() as int, |j: int| children[j].spec_name() == name, 0)
}

/// How a submitted option tree resolves below `command`: the leaf, its path
/// and its scalar options, or the path reported as unknown.
pub open spec fn resolution<H, A, C>(command: SlashCommand<H, A, C>, submitted: Seq<SubmittedOption>) -> Result<
    (SlashCommand<H, A, C>, Seq<Seq<char>>, Seq<SubmittedOption>),
    Seq<char>,
> {
    let root = seq![command.spec_name()];
    if command.spec_is_leaf() {
        Ok((command, root, submitted))
    } else if submitted.len() != 1 {
        Err(join_spaces(root))
    } else {
        let branch = submitted[0];
        match child_named(command.spec_children(), branch.name@) {
            None => Err(labelled(join_spaces(root), branch.name@)),
            Some(ci) => {
                let child = command.spec_children()[ci];
                let middle = root.push(child.spec_name());
                if child.spec_is_leaf() {
                    if branch.kind != OptionKind::SubCommand {
                        Err(join_spaces(middle))
                    } else {
                        Ok((child, middle, branch.options@))
                    }
                } else if branch.kind != OptionKind::SubCommandGroup || branch.options@.len() != 1 {
                    Err(join_spaces(middle))
                } else {
                    let nested = branch.options@[0];
                    match child_named(child.spec_children(), nested.name@) {
                        None => Err(labelled(join_spaces(middle), nested.name@)),
                        Some(li) => {
                            let leaf = child.spec_children()[li];
                            let full = middle.push(leaf.spec_name());
                            if !leaf.spec_is_leaf() || nested.kind != OptionKind::SubCommand {
                                Err(join_spaces(full))
                            } else {
                                Ok((leaf, full, nested.options@))
                            }
                        },
                    }
                }
            },
        }
    }
}

/// Finds the first child named `name`.
fn find_child<H, A, C>(children: &[SlashCommand<H, A, C>], name: &str) -> (index: Option<usize>)
    ensures
        match index {
            Some(k) => child_named(children@, name@) == Some(k as int) && k < children@.len()
                && children@[k as int].spec_name() == name@,
            None => child_named(children@, name@) is None,
        },
{
    let ghost pred = |j: int| children@[j].spec_name() == name@;
    proof {
        lemma_first_where(children@.len() as int, pred, 0);
    }
    let mut i: usize = 0;
    while i < children.len()
        invariant
            i <= children@.len(),
            pred == (|j: int| children@[j].spec_name() == name@),
            first_where(children@.len() as int, pred, 0) == first_where(children@.len() as int, pred, i as int),
        decreases children@.len() - i,
    {
        if str_eq(children[i].descriptor.name.as_str(), name) {
            assert(pred(i as int));
            return Some(i);
        }
        i = i + 1;
    }
    None
}

/// The only branch of a group invocation; anything else is an unknown path.
pub fn only_branch<'b>(submitted: &'b [SubmittedOption], path: &[String]) -> (branch: Result<
    &'b SubmittedOption,
    Error,
>)
    ensures
        submitted@.len() == 1 ==> branch == Ok::<&SubmittedOption, Error>(&submitted@[0]),
        submitted@.len() != 1 ==> (branch matches Err(Error::UnknownCommandPath(p)) && p@ == join_spaces(
            views(path@),
        )),
{
    if submitted.len() != 1 {
        return Err(Error::UnknownCommandPath(join_path(path)));
    }
    Ok(&submitted[0])
}

fn unknown_path(path: &Vec<String>) -> (e: Error)
    ensures
        e matches Error::UnknownCommandPath(p) && p@ == join_spaces(views(path@)),
{
    Error::UnknownCommandPath(join_path(path.as_slice()))
}

fn unknown_child(path: &Vec<String>, name: &str) -> (e: Error)
    ensures
        e matches Error::UnknownCommandPath(p) && p@ == labelled(join_spaces(views(path@)), name@),
{
    let joined = join_path(path.as_slice());
    Error::UnknownCommandPath(labelled_path(joined.as_str(), name))
}

/// Resolves the submitted Discord-native branch (subcommand, or subcommand
/// group and subcommand) to the registered leaf that handles it.
pub fn resolve_command<'a, 'b, H, A, C>(command: &'a SlashCommand<H, A, C>, submitted: &'b [SubmittedOption]) -> (result:
    Result<ResolvedCommand<'a, 'b, H, A, C>, Error>)
    ensures
        match resolution(*command, submitted@) {
            Ok((leaf, path, options)) => result matches Ok(r) && *r.command == leaf && views(r.path@) == path
                && r.options@ == options,
            Err(p) => result matches Err(Error::UnknownCommandPath(s)) && s@ == p,
        },
{
    let mut path: Vec<String> = Vec::new();
    path.push(command.descriptor.name.clone());
    let ghost root = seq![command.spec_name()];
    assert(views(path@) =~= root);
    if command.is_leaf() {
        return Ok(ResolvedCommand { command, path, options: submitted });
    }
    let branch = match only_branch(submitted, path.as_slice()) {
        Ok(b) => b,
        Err(e) => {
            return Err(e);
        },
    };
    let children = command.children();
    let ci = match find_child(children, branch.name.as_str()) {
        Some(ci) => ci,
        None => {
            return Err(unknown_child(&path, branch.name.as_str()));
        },
    };
    let child = &children[ci];
    path.push(child.descriptor.name.clone());
    let ghost middle = root.push(child.spec_name());
    assert(views(path@) =~= middle);
    if child.is_leaf() {
        if branch.kind != OptionKind::SubCommand {
            return Err(unknown_path(&path));
        }
        return Ok(ResolvedCommand { command: child, path, options: branch.options.as_slice() });
    }
    if branch.kind != OptionKind::SubCommandGroup {
        return Err(unknown_path(&path));
    }
    let nested = match only_branch(branch.options.as_slice(), path.as_slice()) {
        Ok(n) => n,
        Err(e) => {
            return Err(e);
        },
    };
    let grandchildren = child.children();
    let li = match find_child(grandchildren, nested.name.as_str()) {
        Some(li) => li,
        None => {
            return Err(unknown_child(&path, nested.name.as_str()));
        },
    };
    let leaf = &grandchildren[li];
    path.push(leaf.descriptor.name.clone());
    assert(views(path@) =~= middle.push(leaf.spec_name()));
    if !leaf.is_leaf() || nested.kind != OptionKind::SubCommand {
        return Err(unknown_path(&path));
    }
    Ok(ResolvedCommand { command: leaf, path, options: nested.options.as_slice() })
}

/// The option scope a resolution hands to the leaf is the option list of the
/// innermost submitted branch: the whole submission for a top-level leaf, the
/// subcommand's own options under a group, and the nested subcommand's own
/// options under a subcommand group. Each branch that reaches a leaf is a
/// subcommand.
pub proof fn resolved_scope_is_the_innermost_branch<H, A, C>(command: SlashCommand<H, A, C>, submitted: Seq<SubmittedOption>)
    ensures
        resolution(command, submitted) matches Ok((leaf, path, options)) ==> {
            &&& path.len() == 1 ==> options == submitted
            &&& path.len() == 2 ==> submitted.len() == 1 && submitted[0].kind == OptionKind::SubCommand
                && options == submitted[0].options@
            &&& path.len() == 3 ==> submitted.len() == 1 && submitted[0].options@.len() == 1
                && submitted[0].options@[0].kind == OptionKind::SubCommand
                && options == submitted[0].options@[0].options@
        },
{
}

/// A subcommand submitted under a group resolves to the first child of that
/// name, by the path of the group and the subcommand, with the subcommand's
/// own options as the scope its handler reads.
pub proof fn subcommand_resolves_with_its_own_options<H, A, C>(
    command: SlashCommand<H, A, C>,
    branch: SubmittedOption,
    ci: int,
)
    requires
        !command.spec_is_leaf(),
        0 <= ci < command.spec_children().len(),
        command.spec_children()[ci].spec_name() == branch.name@,
        forall|j: int| 0 <= j < ci ==> #[trigger] command.spec_children()[j].spec_name() != branch.name@,
        command.spec_children()[ci].spec_is_leaf(),
        branch.kind == OptionKind::SubCommand,
    ensures
        resolution(command, seq![branch]) == Ok::<_, Seq<char>>(
            (command.spec_children()[ci], seq![command.spec_name(), branch.name@], branch.options@),
        ),
{
    let children = command.spec_children();
    let pred = |j: int| children[j].spec_name() == branch.name@;
    lemma_first_where(children.len() as int, pred, 0);
    assert(pred(ci));
    match first_where(children.len() as int, pred, 0) {
        Some(k) => {
            if k < ci {
                assert(!pred(k));
            }
            if k > ci {
                assert(!pred(ci));
            }
        },
        None => {
            assert(!pred(ci));
        },
    }
    assert(seq![branch][0] == branch);
    assert(seq![command.spec_name()].push(children[ci].spec_name()) =~= seq![command.spec_name(), branch.name@]);
}

/// Whatever the submission, a successful resolution names a registered leaf
/// by a path of one to three names that starts at the top-level command and
/// ends at the leaf.
pub proof fn resolution_names_a_leaf<H, A, C>(command: SlashCommand<H, A, C>, submitted: Seq<SubmittedOption>)
    ensures
        (resolution(command, submitted) matches Ok((leaf, path, _)) ==> {
            &&& leaf.spec_is_leaf()
            &&& 1 <= path.len() <= 3
            &&& path[0] == command.spec_name()
            &&& path.last() == leaf.spec_name()
        }),
{
}

/// A leaf reached through a group is one of that group's children, and a
/// leaf reached through a subcommand group is a child of one of its children.
pub proof fn resolution_follows_the_tree<H, A, C>(command: SlashCommand<H, A, C>, submitted: Seq<SubmittedOption>)
    ensures
        (resolution(command, submitted) matches Ok((leaf, path, _)) ==> {
            &&& path.len() == 1 ==> leaf == command
            &&& path.len() == 2 ==> command.spec_children().contains(leaf)
            &&& path.len() == 3 ==> exists|i: int|
                0 <= i < command.spec_children().len() && #[trigger] command.spec_children()[i].spec_children().contains(
                    leaf,
                )
        }),
{
    if let Ok((leaf, path, _)) = resolution(command, submitted) {
        if !command.spec_is_leaf() {
            let branch = submitted[0];
            let ci = child_named(command.spec_children(), branch.name@).unwrap();
            lemma_first_where(
                command.spec_children().len() as int,
                |j: int| command.spec_children()[j].spec_name() == branch.name@,
                0,
            );
            let child = command.spec_children()[ci];
            if !child.spec_is_leaf() {
                let nested = branch.options@[0];
                let li = child_named(child.spec_children(), nested.name@).unwrap();
                lemma_first_where(
                    child.spec_children().len() as int,
                    |j: int| child.spec_children()[j].spec_name() == nested.name@,
                    0,
                );
                assert(child.spec_children()[li] == leaf);
                assert(command.spec_children()[ci].spec_children().contains(leaf));
            } else {
                assert(command.spec_children()[ci] == leaf);
            }
        }
    }
}

/// Whether Discord marked the option as the one being completed.
pub open spec fn is_focused(option: SubmittedOption) -> bool {
    option.focused == Some(true)
}

/// The index of the only focused option, if exactly one is focused.
pub open spec fn sole_focus(options: Seq<SubmittedOption>) -> Option<int> {
    let pred = |j: int| is_focused(options[j]);
    match first_where(options.len() as int, pred, 0) {
        Some(i) => if first_where(options.len() as int, pred, i + 1) is None {
            Some(i)
        } else {
            None
        },
        None => None,
    }
}

/// Finds the one focused leaf option of an autocomplete interaction.
pub fn focused_option_index(options: &[SubmittedOption], path: &[String]) -> (result: Result<usize, Error>)
    ensures
        match result {
            Ok(i) => sole_focus(options@) == Some(i as int) && i < options@.len(),
            Err(e) => sole_focus(options@) is None && (e matches Error::InvalidAutocompleteFocus(p) && p@
                == join_spaces(views(path@))),
        },
{
    let ghost pred = |j: int| is_focused(options@[j]);
    let mut found: Option<usize> = None;
    let mut i: usize = 0;
    while i < options.len()
        invariant
            i <= options@.len(),
            pred == (|j: int| is_focused(options@[j])),
            match found {
                None => first_where(options@.len() as int, pred, 0) == first_where(options@.len() as int, pred, i as int),
                Some(k) => k < i && first_where(options@.len() as int, pred, 0) == Some(k as int)
                    && first_where(options@.len() as int, pred, k + 1) == first_where(options@.len() as int, pred, i as int),
            },
        decreases options@.len() - i,
    {
        if matches!(options[i].focused, Some(true)) {
            assert(pred(i as int));
            match found {
                None => {
                    found = Some(i);
                    assert(first_where(options@.len() as int, pred, i + 1) == first_where(
                        options@.len() as int,
                        pred,
                        i + 1,
                    ));
                },
                Some(k) => {
                    return Err(Error::InvalidAutocompleteFocus(join_path(path)));
                },
            }
        }
        i = i + 1;
    }
    match found {
        Some(k) => Ok(k),
        None => Err(Error::InvalidAutocompleteFocus(join_path(path))),
    }
}

/// Kind of a received interaction.
#[derive(Debug, Clone, Copy, PartialEq, Eq, Structural)]
pub enum InteractionKind {
    /// A chat-input or other application-command invocation.
    ApplicationCommand,
    /// An application-command autocomplete request.
    Autocomplete,
    /// Any other interaction (components, modals, pings).
    Other,
}

/// Parsed application-command data of an interaction.
pub struct CommandData {
    /// Top-level command name.
    pub name: String,
    /// Whether the command is a chat-input (slash) command.
    pub chat_input: bool,
    /// Submitted option tree.
    pub options: Vec<SubmittedOption>,
}

/// What dispatch reads of one received interaction.
pub struct InteractionSummary {
    pub kind: InteractionKind,
    pub data: Option<CommandData>,
}

impl<'a> CommandOptions<'a> {
    /// Creates an option view over the top-level options of command data.
    pub fn new(data: &'a CommandData) -> (view: Self)
        ensures
            view.options@ == data.options@,
    {
        CommandOptions::from_slice(data.options.as_slice())
    }
}

/// What the runtime should do with one interaction.
pub enum DispatchPlan<'a, 'b, H, A, C> {
    /// Unrelated to chat-input application commands.
    Ignored,
    /// A chat-input command that is not registered locally.
    Unregistered(String),
    /// Run the leaf's policy and handler.
    Command {
        command_name: String,
        handler: &'a H,
        policy: &'a CommandPolicy<C>,
        path: Vec<String>,
        options: &'b [SubmittedOption],
    },
    /// Run the autocomplete handler of the focused option.
    Autocomplete {
        command_name: String,
        option_kind: OptionKind,
        autocomplete_handler: &'a A,
        path: Vec<String>,
        options: &'b [SubmittedOption],
        focused_index: usize,
    },
}

/// Index of the registered option that the focused option completes.
pub open spec fn autocomplete_option(options: Seq<CommandOptionDescriptor>, focused: SubmittedOption) -> Option<int> {
    first_where(
        options.len() as int,
        |j: int| options[j].name@ == focused.name@ && options[j].kind == focused.kind && options[j].autocomplete,
        0,
    )
}

/// The handler registered first for option `name`.
pub open spec fn handler_for<A>(handlers: Seq<AutocompleteHandlerDescriptor<A>>, name: Seq<char>) -> Option<A> {
    match first_where(handlers.len() as int, |j: int| handlers[j].option_name@ == name, 0) {
        Some(k) => Some(handlers[k].handler),
        None => None,
    }
}

/// The decision of dispatch, over plain values.
pub enum Planned<H, A, C> {
    Ignored,
    Unregistered(Seq<char>),
    Command { leaf: SlashCommand<H, A, C>, path: Seq<Seq<char>>, options: Seq<SubmittedOption> },
    Autocomplete {
        leaf: SlashCommand<H, A, C>,
        path: Seq<Seq<char>>,
        options: Seq<SubmittedOption>,
        focused: int,
        option_kind: OptionKind,
        handler: A,
    },
    MissingData,
    UnknownPath(Seq<char>),
    BadFocus(Seq<char>),
    UnknownAutocomplete(Seq<char>, Seq<char>),
}

/// What dispatch decides for an interaction against the registered commands.
pub open spec fn planned<H, A, C>(registry: CommandRegistry<H, A, C>, interaction: InteractionSummary) -> Planned<H, A, C> {
    if interaction.kind is Other {
        Planned::Ignored
    } else {
        match interaction.data {
            None => Planned::MissingData,
            Some(data) => if !data.chat_input {
                Planned::Ignored
            } else {
                match registry.spec_lookup(data.name@) {
                    None => Planned::Unregistered(data.name@),
                    Some(top) => match resolution(top, data.options@) {
                        Err(p) => Planned::UnknownPath(p),
                        Ok((leaf, path, options)) => if interaction.kind is Autocomplete {
                            match sole_focus(options) {
                                None => Planned::BadFocus(join_spaces(path)),
                                Some(f) => match autocomplete_option(leaf.descriptor.options@, options[f]) {
                                    None => Planned::UnknownAutocomplete(join_spaces(path), options[f].name@),
                                    Some(o) => {
                                        let option = leaf.descriptor.options@[o];
                                        match handler_for(leaf.spec_handlers(), option.name@) {
                                            None => Planned::UnknownAutocomplete(join_spaces(path), options[f].name@),
                                            Some(handler) => Planned::Autocomplete {
                                                leaf,
                                                path,
                                                options,
                                                focused: f,
                                                option_kind: option.kind,
                                                handler,
                                            },
                                        }
                                    },
                                },
                            }
                        } else {
                            Planned::Command { leaf, path, options }
                        },
                    },
                }
            },
        }
    }
}

/// Whether an executed plan carries out the decision.
pub open spec fn carries_out<'a, 'b, H, A, C>(
    result: Result<DispatchPlan<'a, 'b, H, A, C>, Error>,
    decision: Planned<H, A, C>,
) -> bool {
    match decision {
        Planned::Ignored => result matches Ok(DispatchPlan::Ignored),
        Planned::Unregistered(name) => result matches Ok(DispatchPlan::Unregistered(n)) && n@ == name,
        Planned::Command { leaf, path, options } => match result {
            Ok(DispatchPlan::Command { command_name, handler, policy, path: p, options: o }) => {
                &&& (leaf.node matches CommandNode::Leaf(l) && *handler == l.handler && *policy == l.policy)
                &&& command_name@ == leaf.spec_name()
                &&& views(p@) == path
                &&& o@ == options
            },
            _ => false,
        },
        Planned::Autocomplete { leaf, path, options, focused, option_kind, handler } => match result {
            Ok(DispatchPlan::Autocomplete { command_name, option_kind: k, autocomplete_handler: h, path: p, options: o, focused_index }) => {
                &&& command_name@ == leaf.spec_name()
                &&& k == option_kind
                &&& *h == handler
                &&& views(p@) == path
                &&& o@ == options
                &&& focused_index == focused
            },
            _ => false,
        },
        Planned::MissingData => result matches Err(Error::MissingApplicationCommandData),
        Planned::UnknownPath(p) => result matches Err(Error::UnknownCommandPath(s)) && s@ == p,
        Planned::BadFocus(p) => result matches Err(Error::InvalidAutocompleteFocus(s)) && s@ == p,
        Planned::UnknownAutocomplete(p, name) => result matches Err(Error::UnknownAutocompleteOption { path: s, option: n })
            && s@ == p && n@ == name,
    }
}

fn find_autocomplete_option(options: &[CommandOptionDescriptor], focused: &SubmittedOption) -> (index: Option<usize>)
    ensures
        match index {
            Some(k) => autocomplete_option(options@, *focused) == Some(k as int) && k < options@.len(),
            None => autocomplete_option(options@, *focused) is None,
        },
{
    let ghost pred = |j: int| options@[j].name@ == focused.name@ && options@[j].kind == focused.kind && options@[j].autocomplete;
    proof {
        lemma_first_where(options@.len() as int, pred, 0);
    }
    let mut i: usize = 0;
    while i < options.len()
        invariant
            i <= options@.len(),
            pred == (|j: int| options@[j].name@ == focused.name@ && options@[j].kind == focused.kind && options@[j].autocomplete),
            first_where(options@.len() as int, pred, 0) == first_where(options@.len() as int, pred, i as int),
        decreases options@.len() - i,
    {
        let option = &options[i];
        if str_eq(option.name.as_str(), focused.name.as_str()) && option.kind == focused.kind && option.autocomplete {
            assert(pred(i as int));
            return Some(i);
        }
        i = i + 1;
    }
    None
}

fn unknown_autocomplete(path: &Vec<String>, option: &String) -> (e: Error)
    ensures
        e matches Error::UnknownAutocompleteOption { path: p, option: o } && p@ == join_spaces(views(path@))
            && o@ == option@,
{
    Error::UnknownAutocompleteOption { path: join_path(path.as_slice()), option: option.clone() }
}

/// Decides what to do with one received interaction: ignore it, report an
/// unregistered command, or run the resolved leaf's handler or the focused
/// option's autocomplete handler.
pub fn plan_dispatch<'a, 'b, H, A, C>(registry: &'a CommandRegistry<H, A, C>, interaction: &'b InteractionSummary) -> (result:
    Result<DispatchPlan<'a, 'b, H, A, C>, Error>)
    ensures
        carries_out(result, planned(*registry, *interaction)),
{
    if interaction.kind == InteractionKind::Other {
        return Ok(DispatchPlan::Ignored);
    }
    let data = match &interaction.data {
        Some(data) => data,
        None => {
            return Err(Error::MissingApplicationCommandData);
        },
    };
    if !data.chat_input {
        return Ok(DispatchPlan::Ignored);
    }
    let top = match registry.get(data.name.as_str()) {
        Some(top) => top,
        None => {
            return Ok(DispatchPlan::Unregistered(data.name.clone()));
        },
    };
    let resolved = match resolve_command(top, data.options.as_slice()) {
        Ok(r) => r,
        Err(e) => {
            return Err(e);
        },
    };
    let leaf = resolved.command;
    let command_name = leaf.descriptor.name.clone();
    if interaction.kind == InteractionKind::Autocomplete {
        let focused_index = match focused_option_index(resolved.options, resolved.path.as_slice()) {
            Ok(i) => i,
            Err(e) => {
                return Err(e);
            },
        };
        let focused = &resolved.options[focused_index];
        let o = match find_autocomplete_option(leaf.descriptor.options.as_slice(), focused) {
            Some(o) => o,
            None => {
                return Err(unknown_autocomplete(&resolved.path, &focused.name));
            },
        };
        let option = &leaf.descriptor.options[o];
        let handler = match leaf.autocomplete_handler(option.name.as_str()) {
            Some(h) => h,
            None => {
                proof {
                    lemma_first_where(
                        leaf.spec_handlers().len() as int,
                        |j: int| leaf.spec_handlers()[j].option_name@ == option.name@,
                        0,
                    );
                }
                return Err(unknown_autocomplete(&resolved.path, &focused.name));
            },
        };
        proof {
            let hs = leaf.spec_handlers();
            let pred = |j: int| hs[j].option_name@ == option.name@;
            lemma_first_where(hs.len() as int, pred, 0);
            let i = choose|i: int|
                0 <= i < hs.len() && hs[i].option_name@ == option.name@ && hs[i].handler == *handler && forall|j: int|
                    0 <= j < i ==> hs[j].option_name@ != option.name@;
            assert(pred(i));
            let k = first_where(hs.len() as int, pred, 0).unwrap();
            assert(pred(k));
            assert(k == i);
        }
        return Ok(
            DispatchPlan::Autocomplete {
                command_name,
                option_kind: option.kind,
                autocomplete_handler: handler,
                path: resolved.path,
                options: resolved.options,
                focused_index,
            },
        );
    }
    let handler = match leaf.handler() {
        Some(h) => h,
        None => {
            return Err(unknown_path(&resolved.path));
        },
    };
    let policy = match leaf.policy() {
        Some(p) => p,
        None => {
            return Err(unknown_path(&resolved.path));
        },
    };
    Ok(DispatchPlan::Command { command_name, handler, policy, path: resolved.path, options: resolved.options })
}

/// Autocomplete dispatch resolves a submission exactly as command dispatch
/// does: the completed option belongs to the same registered leaf, path and
/// option scope that the command would run with.
pub proof fn autocomplete_targets_the_command_leaf<H, A, C>(registry: CommandRegistry<H, A, C>, data: CommandData)
    ensures
        (planned(registry, InteractionSummary { kind: InteractionKind::Autocomplete, data: Some(data) }) matches Planned::Autocomplete {
            leaf,
            path,
            options,
            focused,
            ..
        } ==> {
            &&& planned(registry, InteractionSummary { kind: InteractionKind::ApplicationCommand, data: Some(data) })
                == Planned::<H, A, C>::Command { leaf, path, options }
            &&& leaf.spec_is_leaf()
            &&& 0 <= focused < options.len()
            &&& is_focused(options[focused])
            &&& exists|o: int|
                0 <= o < leaf.descriptor.options@.len() && (#[trigger] leaf.descriptor.options@[o]).name@ == options[focused].name@
                    && leaf.descriptor.options@[o].autocomplete
        }),
{
    let summary = InteractionSummary { kind: InteractionKind::Autocomplete, data: Some(data) };
    if let Planned::Autocomplete { leaf, path, options, focused, .. } = planned(registry, summary) {
        let top = registry.spec_lookup(data.name@).unwrap();
        resolution_names_a_leaf(top, data.options@);
        let pred = |j: int| is_focused(options[j]);
        lemma_first_where(options.len() as int, pred, 0);
        let o = autocomplete_option(leaf.descriptor.options@, options[focused]).unwrap();
        lemma_first_where(
            leaf.descriptor.options@.len() as int,
            |j: int|
                leaf.descriptor.options@[j].name@ == options[focused].name@ && leaf.descriptor.options@[j].kind
                    == options[focused].kind && leaf.descriptor.options@[j].autocomplete,
            0,
        );
        assert(leaf.descriptor.options@[o].name@ == options[focused].name@);
    }
}

} // verus!
