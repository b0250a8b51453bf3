//! The configuration schema: which documents list launch targets, and
//! which targets they list.
//!
//! A document holds its targets as an array of tables under the key
//! `shells`, or under `shell`. Each table has `name`, `path` and `color`
//! as strings, `args` as an array of strings and, if it likes, `default`
//! as a boolean. Other keys are passed over.

use vstd::prelude::*;

use crate::color::{color_of_text, is_color_text, parse_color, SColor};
use crate::config::{shell_views, texts, Config, Shell, ShellView};
use crate::document::{
    document_nodes, list_nodes, parse_document, table_get, table_nodes, value_as_array,
    value_as_bool, value_as_str, value_as_table, value_node, Node,
};
use crate::error::{ConfigError, EntryFault, Field};

verus! {

/// The string that an entry holds as `field`, which it must have.
pub open spec fn text_of(table: Map<Seq<char>, Node>, field: Field) -> Result<
    Seq<char>,
    EntryFault,
> {
    if !table.contains_key(field.key_of()) {
        Err(EntryFault::Missing(field))
    } else {
        match table[field.key_of()] {
            Node::Text(text) => Ok(text),
            _ => Err(EntryFault::WrongType(field)),
        }
    }
}

/// The strings of an array, where every item of it is a string.
pub open spec fn strings_of(items: Seq<Node>) -> Option<Seq<Seq<char>>> {
    if forall|i: int| 0 <= i < items.len() ==> (#[trigger] items[i]) is Text {
        Some(Seq::new(items.len(), |i: int| items[i]->Text_0))
    } else {
        None
    }
}

/// The arguments of an entry: `args`, an array of strings.
pub open spec fn args_of(table: Map<Seq<char>, Node>) -> Result<Seq<Seq<char>>, EntryFault> {
    if !table.contains_key(Field::Args.key_of()) {
        Err(EntryFault::Missing(Field::Args))
    } else {
        match table[Field::Args.key_of()] {
            Node::List(items) => match strings_of(items) {
                Some(args) => Ok(args),
                None => Err(EntryFault::WrongType(Field::Args)),
            },
            _ => Err(EntryFault::WrongType(Field::Args)),
        }
    }
}

/// The colour of an entry: `color`, a well-formed colour text.
pub open spec fn color_of(table: Map<Seq<char>, Node>) -> Result<SColor, EntryFault> {
    match text_of(table, Field::Color) {
        Err(fault) => Err(fault),
        Ok(text) => if is_color_text(text) {
            Ok(color_of_text(text))
        } else {
            Err(EntryFault::MalformedColor)
        },
    }
}

/// The default mark of an entry: `default`, a boolean, or nothing.
pub open spec fn default_of(table: Map<Seq<char>, Node>) -> Result<Option<bool>, EntryFault> {
    if !table.contains_key(Field::Default.key_of()) {
        Ok(None)
    } else {
        match table[Field::Default.key_of()] {
            Node::Flag(flag) => Ok(Some(flag)),
            _ => Err(EntryFault::WrongType(Field::Default)),
        }
    }
}

/// The launch target that a table describes. The fields are read in the
/// order name, path, args, color, default, and the first one at fault
/// decides the error.
pub open spec fn target_of(table: Map<Seq<char>, Node>) -> Result<ShellView, EntryFault> {
    match text_of(table, Field::Name) {
        Err(fault) => Err(fault),
        Ok(name) => match text_of(table, Field::Path) {
            Err(fault) => Err(fault),
            Ok(path) => match args_of(table) {
                Err(fault) => Err(fault),
                Ok(args) => match color_of(table) {
                    Err(fault) => Err(fault),
                    Ok(color) => match default_of(table) {
                        Err(fault) => Err(fault),
                        Ok(default) => Ok(ShellView { name, path, args, color, default }),
                    },
                },
            },
        },
    }
}

/// The launch target that one item of the list describes.
pub open spec fn entry_of(node: Node) -> Result<ShellView, EntryFault> {
    match node {
        Node::Table(table) => target_of(table),
        _ => Err(EntryFault::NotATable),
    }
}

/// Whether the entry at `k` is refused and every entry before it is not.
pub open spec fn is_first_refused(items: Seq<Node>, k: int) -> bool {
    &&& 0 <= k < items.len()
    &&& entry_of(items[k]) is Err
    &&& forall|j: int| 0 <= j < k ==> entry_of(#[trigger] items[j]) is Ok
}

/// The targets that a list of entries describes. The first refused entry
/// decides the error; a list without entries is refused as well.
pub open spec fn config_of_list(items: Seq<Node>) -> Result<Seq<ShellView>, ConfigError> {
    if exists|k: int| is_first_refused(items, k) {
        let k = choose|k: int| is_first_refused(items, k);
        Err(ConfigError::Entry(k as usize, entry_of(items[k])->Err_0))
    } else if items.len() == 0 {
        Err(ConfigError::NoTargets)
    } else {
        Ok(Seq::new(items.len(), |i: int| entry_of(items[i])->Ok_0))
    }
}

/// The list of entries of a document: the array under `shells` or under
/// `shell`, whichever of the two is there.
pub open spec fn list_of(document: Map<Seq<char>, Node>) -> Result<Seq<Node>, ConfigError> {
    let plural = document.contains_key("shells"@);
    let singular = document.contains_key("shell"@);
    if plural && singular {
        Err(ConfigError::DuplicateList)
    } else if !plural && !singular {
        Err(ConfigError::MissingList)
    } else {
        match (if plural {
            document["shells"@]
        } else {
            document["shell"@]
        }) {
            Node::List(items) => Ok(items),
            _ => Err(ConfigError::NotAList),
        }
    }
}

/// The targets that a document lists.
pub open spec fn config_of_document(document: Map<Seq<char>, Node>) -> Result<
    Seq<ShellView>,
    ConfigError,
> {
    match list_of(document) {
        Err(e) => Err(e),
        Ok(items) => config_of_list(items),
    }
}

/// The targets that a configuration text lists.
pub open spec fn config_of_text(text: Seq<char>) -> Result<Seq<ShellView>, ConfigError> {
    match document_nodes(text) {
        None => Err(ConfigError::Syntax),
        Some(document) => config_of_document(document),
    }
}

/// Where the entry at `k` is refused, some entry is the first one that is.
proof fn lemma_first_refused_exists(items: Seq<Node>, k: int)
    requires
        0 <= k < items.len(),
        entry_of(items[k]) is Err,
    ensures
        exists|j: int| is_first_refused(items, j),
    decreases k,
{
    if exists|j: int| 0 <= j < k && entry_of(#[trigger] items[j]) is Err {
        let j = choose|j: int| 0 <= j < k && entry_of(#[trigger] items[j]) is Err;
        lemma_first_refused_exists(items, j);
    } else {
        assert(is_first_refused(items, k));
    }
}

/// A list yields targets exactly where it holds an entry and none of its
/// entries is refused, and then the target of each entry in its place. A
/// list without entries is refused as such, and every other list that is
/// refused is so for its first refused entry.
pub proof fn lemma_config_of_list(items: Seq<Node>)
    ensures
        config_of_list(items) is Ok <==> items.len() > 0 && forall|i: int|
            0 <= i < items.len() ==> entry_of(#[trigger] items[i]) is Ok,
        config_of_list(items) matches Ok(targets) ==> targets.len() == items.len() && forall|
            i: int,
        |
            0 <= i < items.len() ==> entry_of(#[trigger] items[i]) == Ok::<ShellView, EntryFault>(
                targets[i],
            ),
        config_of_list(items) == Err::<Seq<ShellView>, ConfigError>(ConfigError::NoTargets)
            <==> items.len() == 0,
        forall|k: int| #[trigger]
            is_first_refused(items, k) ==> config_of_list(items) == Err::<
                Seq<ShellView>,
                ConfigError,
            >(ConfigError::Entry(k as usize, entry_of(items[k])->Err_0)),
{
    if exists|k: int| is_first_refused(items, k) {
        let first = choose|k: int| is_first_refused(items, k);
        assert forall|k: int| is_first_refused(items, k) implies k == first by {}
    } else {
        assert forall|i: int| 0 <= i < items.len() implies entry_of(#[trigger] items[i]) is Ok by {
            if entry_of(items[i]) is Err {
                lemma_first_refused_exists(items, i);
            }
        }
    }
}

/// A document yields the same, targets or error, whether its list stands
/// under `shells` or under `shell`.
pub proof fn lemma_alias_yields_same(document: Map<Seq<char>, Node>, list: Node)
    ensures
        config_of_document(document.remove("shell"@).insert("shells"@, list))
            == config_of_document(document.remove("shells"@).insert("shell"@, list)),
{
    reveal_strlit("shells");
    reveal_strlit("shell");
}

/// Two configuration texts yield the same where they are parsed into
/// documents that differ in the key of the list alone.
pub proof fn lemma_alias_texts_yield_same(
    plural: Seq<char>,
    singular: Seq<char>,
    document: Map<Seq<char>, Node>,
    list: Node,
)
    ensures
        document_nodes(plural) == Some(document.remove("shell"@).insert("shells"@, list))
            && document_nodes(singular) == Some(
            document.remove("shells"@).insert("shell"@, list),
        ) ==> config_of_text(plural) == config_of_text(singular),
{
    lemma_alias_yields_same(document, list);
}

/// A document with an entry whose colour is not a well-formed colour text
/// yields an error, and so does a text that is parsed into such a document.
pub proof fn lemma_malformed_color_is_refused(
    document: Map<Seq<char>, Node>,
    items: Seq<Node>,
    k: int,
    table: Map<Seq<char>, Node>,
    color: Seq<char>,
)
    requires
        list_of(document) == Ok::<Seq<Node>, ConfigError>(items),
        0 <= k < items.len(),
        items[k] == Node::Table(table),
        table.contains_key(Field::Color.key_of()),
        table[Field::Color.key_of()] == Node::Text(color),
        !is_color_text(color),
    ensures
        config_of_document(document) is Err,
        forall|text: Seq<char>|
            document_nodes(text) == Some(document) ==> (#[trigger] config_of_text(text)) is Err,
{
    lemma_first_refused_exists(items, k);
}

fn text_field(table: &toml::Table, field: Field) -> (out: Result<String, EntryFault>)
    ensures
        match out {
            Ok(text) => text_of(table_nodes(*table), field) == Ok::<Seq<char>, EntryFault>(text@),
            Err(fault) => text_of(table_nodes(*table), field) == Err::<Seq<char>, EntryFault>(
                fault,
            ),
        },
{
    match table_get(table, field.key()) {
        None => Err(EntryFault::Missing(field)),
        Some(value) => match value_as_str(value) {
            Some(text) => Ok(text.to_owned()),
            None => Err(EntryFault::WrongType(field)),
        },
    }
}

fn string_list(items: &Vec<toml::Value>) -> (out: Option<Vec<String>>)
    ensures
        match out {
            Some(strings) => strings_of(list_nodes(items@)) == Some(texts(strings@)),
            None => strings_of(list_nodes(items@)) is None,
        },
{
    let ghost nodes = list_nodes(items@);
    let mut strings: Vec<String> = Vec::new();
    let mut i: usize = 0;
    while i < items.len()
        invariant
            i <= items.len(),
            nodes == list_nodes(items@),
            strings@.len() == i,
            forall|j: int| 0 <= j < i ==> nodes[j] == Node::Text(#[trigger] strings@[j]@),
        decreases items.len() - i,
    {
        match value_as_str(&items[i]) {
            Some(text) => {
                strings.push(text.to_owned());
            },
            None => {
                assert(!(nodes[i as int] is Text));
                return None;
            },
        }
        i += 1;
    }
    proof {
        assert forall|j: int| 0 <= j < nodes.len() implies (#[trigger] nodes[j]) is Text by {
            assert(nodes[j] == Node::Text(strings@[j]@));
        }
    }
    Some(strings)
}

fn args_field(table: &toml::Table) -> (out: Result<Vec<String>, EntryFault>)
    ensures
        match out {
            Ok(args) => args_of(table_nodes(*table)) == Ok::<Seq<Seq<char>>, EntryFault>(
                texts(args@),
            ),
            Err(fault) => args_of(table_nodes(*table)) == Err::<Seq<Seq<char>>, EntryFault>(
                fault,
            ),
        },
{
    match table_get(table, Field::Args.key()) {
        None => Err(EntryFault::Missing(Field::Args)),
        Some(value) => match value_as_array(value) {
            None => Err(EntryFault::WrongType(Field::Args)),
            Some(items) => match string_list(items) {
                Some(args) => Ok(args),
                None => Err(EntryFault::WrongType(Field::Args)),
            },
        },
    }
}

fn color_field(table: &toml::Table) -> (out: Result<SColor, EntryFault>)
    ensures
        out == color_of(table_nodes(*table)),
{
    match text_field(table, Field::Color) {
        Err(fault) => Err(fault),
        Ok(text) => match parse_color(text.as_str()) {
            Some(color) => Ok(color),
            None => Err(EntryFault::MalformedColor),
        },
    }
}

fn default_field(table: &toml::Table) -> (out: Result<Option<bool>, EntryFault>)
    ensures
        out == default_of(table_nodes(*table)),
{
    match table_get(table, Field::Default.key()) {
        None => Ok(None),
        Some(value) => match value_as_bool(value) {
            Some(flag) => Ok(Some(flag)),
            None => Err(EntryFault::WrongType(Field::Default)),
        },
    }
}

fn target_from_table(table: &toml::Table) -> (out: Result<Shell, EntryFault>)
    ensures
        match out {
            Ok(shell) => target_of(table_nodes(*table)) == Ok::<ShellView, EntryFault>(shell@),
            Err(fault) => target_of(table_nodes(*table)) == Err::<ShellView, EntryFault>(fault),
        },
{
    let name = match text_field(table, Field::Name) {
        Ok(name) => name,
        Err(fault) => return Err(fault),
    };
    let path = match text_field(table, Field::Path) {
        Ok(path) => path,
        Err(fault) => return Err(fault),
    };
    let args = match args_field(table) {
        Ok(args) => args,
        Err(fault) => return Err(fault),
    };
    let color = match color_field(table) {
        Ok(color) => color,
        Err(fault) => return Err(fault),
    };
    let default = match default_field(table) {
        Ok(default) => default,
        Err(fault) => return Err(fault),
    };
    Ok(Shell { name, path, args, color, default })
}

fn entry_from_value(value: &toml::Value) -> (out: Result<Shell, EntryFault>)
    ensures
        match out {
            Ok(shell) => entry_of(value_node(*value)) == Ok::<ShellView, EntryFault>(shell@),
            Err(fault) => entry_of(value_node(*value)) == Err::<ShellView, EntryFault>(fault),
        },
{
    match value_as_table(value) {
        Some(table) => target_from_table(table),
        None => Err(EntryFault::NotATable),
    }
}

fn config_from_items(items: &Vec<toml::Value>) -> (out: Result<Config, ConfigError>)
    ensures
        match out {
            Ok(config) => config_of_list(list_nodes(items@)) == Ok::<Seq<ShellView>, ConfigError>(
                config@,
            ),
            Err(e) => config_of_list(list_nodes(items@)) == Err::<Seq<ShellView>, ConfigError>(e),
        },
{
    let ghost nodes = list_nodes(items@);
    let mut shells: Vec<Shell> = Vec::new();
    let mut i: usize = 0;
    while i < items.len()
        invariant
            i <= items.len(),
            nodes == list_nodes(items@),
            shells@.len() == i,
            forall|j: int|
                0 <= j < i ==> entry_of(#[trigger] nodes[j]) == Ok::<ShellView, EntryFault>(
                    shells@[j]@,
                ),
        decreases items.len() - i,
    {
        match entry_from_value(&items[i]) {
            Ok(shell) => {
                shells.push(shell);
            },
            Err(fault) => {
                proof {
                    assert(is_first_refused(nodes, i as int));
                    lemma_config_of_list(nodes);
                }
                return Err(ConfigError::Entry(i, fault));
            },
        }
        i += 1;
    }
    proof {
        lemma_config_of_list(nodes);
    }
    match Config::new(shells) {
        Ok(config) => {
            assert(config@ =~= config_of_list(nodes)->Ok_0);
            Ok(config)
        },
        Err(e) => Err(e),
    }
}

/// The configuration that a parsed document lists.
pub fn config_from_document(document: &toml::Table) -> (out: Result<Config, ConfigError>)
    ensures
        match out {
            Ok(config) => config_of_document(table_nodes(*document)) == Ok::<
                Seq<ShellView>,
                ConfigError,
            >(config@),
            Err(e) => config_of_document(table_nodes(*document)) == Err::<
                Seq<ShellView>,
                ConfigError,
            >(e),
        },
{
    let plural = table_get(document, "shells");
    let singular = table_get(document, "shell");
    let list = match (plural, singular) {
        (Some(_), Some(_)) => return Err(ConfigError::DuplicateList),
        (None, None) => return Err(ConfigError::MissingList),
        (Some(list), None) => list,
        (None, Some(list)) => list,
    };
    match value_as_array(list) {
        Some(items) => config_from_items(items),
        None => Err(ConfigError::NotAList),
    }
}

/// Reads a configuration text: parses it as TOML and takes the launch
/// targets that the document lists.
pub fn parse_config(text: &str) -> (out: Result<Config, ConfigError>)
    ensures
        match out {
            Ok(config) => config_of_text(text@) == Ok::<Seq<ShellView>, ConfigError>(config@),
            Err(e) => config_of_text(text@) == Err::<Seq<ShellView>, ConfigError>(e),
        },
{
    match parse_document(text) {
        Ok(document) => config_from_document(&document),
        Err(_) => Err(ConfigError::Syntax),
    }
}

} // verus!
