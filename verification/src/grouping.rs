use vstd::prelude::*;
use crate::schema::{fails_with, SchemaError, Site};

verus! {

/// One item in the body of a `#[group]` module.
#[derive(Debug)]
pub enum GroupItem {
    /// A `#[command]` function, by its identifier (raw prefix removed).
    Command(String),
    /// A nested `#[group]` module, with its inline body when it has one.
    Group { ident: String, body: Option<Vec<GroupItem>> },
    /// Any other item.
    Other,
}

pub open spec fn inline_body_message() -> Seq<char> {
    "`#[group]` requires an inline module body"@
}

pub open spec fn depth_message() -> Seq<char> {
    "Discord slash commands support at most `command -> subcommand group -> subcommand`"@
}

/// Index of the first nested group among `items`.
pub open spec fn first_group(items: Seq<GroupItem>) -> Option<int> {
    crate::registry::first_where(items.len() as int, |k: int| items[k] is Group, 0)
}

/// The first violation of Discord's depth among a group's items: a nested
/// group without an inline body, or a nested group that itself nests a group.
pub open spec fn hierarchy_violation(items: Seq<GroupItem>) -> Option<(Seq<char>, Site)> {
    match crate::registry::first_where(
        items.len() as int,
        |i: int|
            match items[i] {
                GroupItem::Group { body: None, .. } => true,
                GroupItem::Group { body: Some(children), .. } => first_group(children@) is Some,
                _ => false,
            },
        0,
    ) {
        None => None,
        Some(i) => match items[i] {
            GroupItem::Group { body: Some(children), .. } => Some(
                (depth_message(), Site::NestedItem(i as usize, first_group(children@).unwrap() as usize)),
            ),
            _ => Some((inline_body_message(), Site::ModuleItem(i as usize))),
        },
    }
}

fn find_group(items: &[GroupItem]) -> (index: Option<usize>)
    ensures
        match index {
            Some(k) => first_group(items@) == Some(k as int),
            None => first_group(items@) is None,
        },
{
    let ghost pred = |k: int| items@[k] is Group;
    let mut i: usize = 0;
    while i < items.len()
        invariant
            i <= items@.len(),
            pred == (|k: int| items@[k] is Group),
            crate::registry::first_where(items@.len() as int, pred, 0) == crate::registry::first_where(
                items@.len() as int,
                pred,
                i as int,
            ),
        decreases items@.len() - i,
    {
        if matches!(items[i], GroupItem::Group { .. }) {
            assert(pred(i as int));
            return Some(i);
        }
        i = i + 1;
    }
    None
}

/// Rejects a group body whose nested groups are not inline or nest further.
pub fn validate_native_hierarchy(items: &[GroupItem]) -> (result: Result<(), SchemaError>)
    ensures
        match hierarchy_violation(items@) {
            None => result is Ok,
            Some((m, s)) => fails_with(result, m, s),
        },
{
    let ghost pred = |i: int|
        match items@[i] {
            GroupItem::Group { body: None, .. } => true,
            GroupItem::Group { body: Some(children), .. } => first_group(children@) is Some,
            _ => false,
        };
    let mut i: usize = 0;
    while i < items.len()
        invariant
            i <= items@.len(),
            pred == (|i: int|
                match items@[i] {
                    GroupItem::Group { body: None, .. } => true,
                    GroupItem::Group { body: Some(children), .. } => first_group(children@) is Some,
                    _ => false,
                }),
            crate::registry::first_where(items@.len() as int, pred, 0) == crate::registry::first_where(
                items@.len() as int,
                pred,
                i as int,
            ),
        decreases items@.len() - i,
    {
        match &items[i] {
            GroupItem::Group { body: None, .. } => {
                assert(pred(i as int));
                return Err(SchemaError { message: "`#[group]` requires an inline module body".to_owned(), site: Site::ModuleItem(i) });
            },
            GroupItem::Group { body: Some(children), .. } => {
                if let Some(k) = find_group(children.as_slice()) {
                    assert(pred(i as int));
                    return Err(
                        SchemaError {
                            message: "Discord slash commands support at most `command -> subcommand group -> subcommand`".to_owned(),
                            site: Site::NestedItem(i, k),
                        },
                    );
                }
            },
            _ => {},
        }
        i = i + 1;
    }
    Ok(())
}

/// The generated factory function of a command or group named `ident`.
pub open spec fn factory_name(ident: Seq<char>) -> Seq<char> {
    "__gloam_command_"@ + ident
}

/// Names the generated factory of a command or group.
pub fn command_factory_name(ident: &str) -> (name: String)
    ensures
        name@ == factory_name(ident@),
{
    let mut name = "__gloam_command_".to_owned();
    name.append(ident);
    name
}

/// The factories of the direct children of a group, in item order.
pub open spec fn child_factory_names(items: Seq<GroupItem>) -> Seq<Seq<char>>
    decreases items.len(),
{
    if items.len() == 0 {
        Seq::empty()
    } else {
        let rest = child_factory_names(items.drop_last());
        match items.last() {
            GroupItem::Command(ident) => rest.push(factory_name(ident@)),
            GroupItem::Group { ident, .. } => rest.push(factory_name(ident@)),
            GroupItem::Other => rest,
        }
    }
}

/// Lists the factories of a group's direct `#[command]` and `#[group]` children.
pub fn child_factories(items: &[GroupItem]) -> (names: Vec<String>)
    ensures
        names@.map_values(|n: String| n@) == child_factory_names(items@),
{
    let mut names: Vec<String> = Vec::new();
    let mut i: usize = 0;
    while i < items.len()
        invariant
            i <= items@.len(),
            names@.map_values(|n: String| n@) == child_factory_names(items@.take(i as int)),
        decreases items@.len() - i,
    {
        assert(items@.take(i as int + 1).drop_last() =~= items@.take(i as int));
        match &items[i] {
            GroupItem::Command(ident) => {
                names.push(command_factory_name(ident.as_str()));
            },
            GroupItem::Group { ident, .. } => {
                names.push(command_factory_name(ident.as_str()));
            },
            GroupItem::Other => {},
        }
        assert(names@.map_values(|n: String| n@) =~= child_factory_names(items@.take(i as int + 1)));
        i = i + 1;
    }
    assert(items@.take(items@.len() as int) =~= items@);
    names
}

/// Where the first `#[command]` leaf of a group body is, searching nested
/// groups in item order: the item indices leading to it.
pub open spec fn first_leaf(items: Seq<GroupItem>) -> Result<Option<Seq<usize>>, (Seq<char>, Site)>
    decreases items, items.len() + 1,
{
    first_leaf_from(items, 0)
}

pub open spec fn first_leaf_from(items: Seq<GroupItem>, i: int) -> Result<Option<Seq<usize>>, (Seq<char>, Site)>
    decreases items, items.len() - i,
{
    if i < 0 || i >= items.len() {
        Ok(None)
    } else {
        match items[i] {
            GroupItem::Command(_) => Ok(Some(seq![i as usize])),
            GroupItem::Group { body: None, .. } => Err((inline_body_message(), Site::ModuleItem(i as usize))),
            GroupItem::Group { body: Some(children), .. } => {
                proof {
                    assert(decreases_to!(items => items[i]));
                }
                match first_leaf(children@) {
                    Err(e) => Err(e),
                    Ok(Some(path)) => Ok(Some(seq![i as usize] + path)),
                    Ok(None) => first_leaf_from(items, i + 1),
                }
            },
            GroupItem::Other => first_leaf_from(items, i + 1),
        }
    }
}

/// Finds the first `#[command]` leaf of a group body, whose context gives the
/// group's application-state type.
pub fn find_first_leaf(items: &[GroupItem]) -> (result: Result<Option<Vec<usize>>, SchemaError>)
    ensures
        match first_leaf(items@) {
            Ok(Some(path)) => result matches Ok(Some(p)) && p@ == path,
            Ok(None) => result matches Ok(None),
            Err((m, s)) => fails_with(result, m, s),
        },
    decreases items@, 1int,
{
    let mut i: usize = 0;
    while i < items.len()
        invariant
            i <= items@.len(),
            first_leaf(items@) == first_leaf_from(items@, i as int),
        decreases items@.len() - i,
    {
        match &items[i] {
            GroupItem::Command(_) => {
                let mut path = Vec::new();
                path.push(i);
                assert(path@ =~= seq![i]);
                return Ok(Some(path));
            },
            GroupItem::Group { body: None, .. } => {
                return Err(SchemaError { message: "`#[group]` requires an inline module body".to_owned(), site: Site::ModuleItem(i) });
            },
            GroupItem::Group { body: Some(children), .. } => {
                assert(decreases_to!(items@ => items@[i as int]));
                match find_first_leaf(children.as_slice()) {
                    Err(e) => {
                        return Err(e);
                    },
                    Ok(Some(inner)) => {
                        let mut path = Vec::new();
                        path.push(i);
                        let mut rest = inner;
                        path.append(&mut rest);
                        assert(path@ =~= seq![i] + inner@);
                        return Ok(Some(path));
                    },
                    Ok(None) => {},
                }
            },
            GroupItem::Other => {},
        }
        i = i + 1;
    }
    Ok(None)
}

/// What the body of a `#[group]` module gives: the factories of its direct
/// children and the location of its first command leaf.
pub open spec fn group_body_outcome(body: Option<Seq<GroupItem>>) -> Result<(Seq<Seq<char>>, Seq<usize>), (Seq<char>, Site)> {
    match body {
        None => Err((inline_body_message(), Site::Module)),
        Some(items) => match hierarchy_violation(items) {
            Some(e) => Err(e),
            None => if child_factory_names(items).len() == 0 {
                Err(("slash-command groups require at least one direct `#[command]` or `#[group]` child"@, Site::ItemIdent))
            } else {
                match first_leaf(items) {
                    Err(e) => Err(e),
                    Ok(None) => Err(("slash-command groups must contain at least one `#[command]` leaf"@, Site::ItemIdent)),
                    Ok(Some(path)) => Ok((child_factory_names(items), path)),
                }
            },
        },
    }
}

/// Checks the body of a `#[group]` module: inline, within Discord's depth,
/// with at least one direct child and at least one command leaf.
pub fn group_body(body: Option<&[GroupItem]>) -> (result: Result<(Vec<String>, Vec<usize>), SchemaError>)
    ensures
        match group_body_outcome(
            match body {
                Some(items) => Some(items@),
                None => None,
            },
        ) {
            Ok((names, path)) => result matches Ok((n, p)) && n@.map_values(|s: String| s@) == names && p@ == path,
            Err((m, s)) => fails_with(result, m, s),
        },
{
    let items = match body {
        Some(items) => items,
        None => {
            return Err(SchemaError { message: "`#[group]` requires an inline module body".to_owned(), site: Site::Module });
        },
    };
    match validate_native_hierarchy(items) {
        Err(e) => {
            return Err(e);
        },
        Ok(()) => {},
    }
    let names = child_factories(items);
    if names.len() == 0 {
        return Err(
            SchemaError {
                message: "slash-command groups require at least one direct `#[command]` or `#[group]` child".to_owned(),
                site: Site::ItemIdent,
            },
        );
    }
    match find_first_leaf(items) {
        Err(e) => Err(e),
        Ok(None) => Err(
            SchemaError {
                message: "slash-command groups must contain at least one `#[command]` leaf".to_owned(),
                site: Site::ItemIdent,
            },
        ),
        Ok(Some(path)) => Ok((names, path)),
    }
}

/// The factory path that `commands![...]` calls for a command path.
pub open spec fn factory_path_outcome(segments: Seq<String>, last_has_arguments: bool) -> Result<Seq<Seq<char>>, (Seq<char>, Site)> {
    if segments.len() == 0 {
        Err(("expected a slash-command path"@, Site::Arguments))
    } else if last_has_arguments {
        Err(("slash-command paths cannot contain generic arguments"@, Site::PathArguments))
    } else {
        Ok(segments.drop_last().map_values(|s: String| s@).push(factory_name(segments.last()@)))
    }
}

/// Maps a command path to the path of its generated factory: the last
/// segment is replaced by the factory's name.
pub fn factory_path(segments: &[String], last_has_arguments: bool) -> (result: Result<Vec<String>, SchemaError>)
    ensures
        match factory_path_outcome(segments@, last_has_arguments) {
            Ok(path) => result matches Ok(p) && p@.map_values(|s: String| s@) == path,
            Err((m, s)) => fails_with(result, m, s),
        },
{
    if segments.len() == 0 {
        return Err(SchemaError { message: "expected a slash-command path".to_owned(), site: Site::Arguments });
    }
    if last_has_arguments {
        return Err(
            SchemaError { message: "slash-command paths cannot contain generic arguments".to_owned(), site: Site::PathArguments },
        );
    }
    let last = segments.len() - 1;
    let mut path: Vec<String> = Vec::new();
    let mut i: usize = 0;
    while i < last
        invariant
            last == segments@.len() - 1,
            i <= last,
            path@ == segments@.take(i as int),
        decreases last - i,
    {
        path.push(segments[i].clone());
        assert(path@ =~= segments@.take(i as int + 1));
        i = i + 1;
    }
    path.push(command_factory_name(segments[last].as_str()));
    assert(segments@.take(last as int) =~= segments@.drop_last());
    assert(path@.map_values(|s: String| s@) =~= segments@.drop_last().map_values(|s: String| s@).push(
        factory_name(segments@.last()@),
    ));
    Ok(path)
}

/// The adapter that an `#[autocomplete = path]` attribute refers to: the last
/// segment is replaced by the generated adapter's name.
pub open spec fn autocomplete_adapter(segments: Seq<String>) -> Seq<Seq<char>> {
    segments.drop_last().map_values(|s: String| s@).push("__gloam_autocomplete_"@ + segments.last()@)
}

/// Maps an autocomplete handler path to the path of its generated adapter.
pub fn autocomplete_adapter_path(segments: &[String]) -> (path: Vec<String>)
    requires
        segments@.len() > 0,
    ensures
        path@.map_values(|s: String| s@) == autocomplete_adapter(segments@),
{
    let last = segments.len() - 1;
    let mut path: Vec<String> = Vec::new();
    let mut i: usize = 0;
    while i < last
        invariant
            last == segments@.len() - 1,
            i <= last,
            path@ == segments@.take(i as int),
        decreases last - i,
    {
        path.push(segments[i].clone());
        assert(path@ =~= segments@.take(i as int + 1));
        i = i + 1;
    }
    let mut adapter = "__gloam_autocomplete_".to_owned();
    adapter.append(segments[last].as_str());
    path.push(adapter);
    assert(segments@.take(last as int) =~= segments@.drop_last());
    assert(path@.map_values(|s: String| s@) =~= autocomplete_adapter(segments@));
    path
}

} // verus!
