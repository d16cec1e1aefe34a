//! The configuration that the host hands over at startup.

use crate::command::{views, Command};
use crate::context::{entries_view, lookup, same_text, value_of, Entry};
use crate::model::pending_commands;
use crate::text::{chars_of, count_in, occurrences, split, split_on, string_views, trim, trimmed};
use vstd::prelude::*;
use vstd::string::*;

verus! {

/// The names of the top-level nodes of `text` read as a KDL document, in
/// order; `None` where `text` is no KDL document.
pub uninterp spec fn kdl_node_names(text: Seq<char>) -> Option<Seq<Seq<char>>>;

/// The names as sequences of characters, where there are any.
pub open spec fn names_view(names: Option<Vec<String>>) -> Option<Seq<Seq<char>>> {
    match names {
        Some(names) => Some(string_views(names@)),
        None => None,
    }
}

/// How many marks of nesting a text may hold to be handed to the parser.
pub const MAX_NESTING_MARKS: usize = 32;

/// Whether the text holds, anywhere, an opening parenthesis directly
/// followed by one of the words `true`, `false` and `null`. Every text with
/// such a word as a type annotation does.
pub open spec fn has_reserved_annotation(text: Seq<char>) -> bool {
    ||| occurrences(text, "(true"@) > 0
    ||| occurrences(text, "(false"@) > 0
    ||| occurrences(text, "(null"@) > 0
}

/// A measure of how deep the parser can nest on the text. It nests once for
/// each opening brace and each slashdash and, where the text holds the
/// opening of a block comment, up to twice for each star and each slash.
pub open spec fn nesting_marks(text: Seq<char>) -> nat {
    occurrences(text, "{"@) + occurrences(text, "/-"@) + if occurrences(text, "/*"@) > 0 {
        occurrences(text, "*"@) + occurrences(text, "/"@)
    } else {
        0
    }
}

/// The texts that are handed to the parser: those without a reserved word
/// as a type annotation, and with few enough marks of nesting.
pub open spec fn kdl_admits(text: Seq<char>) -> bool {
    !has_reserved_annotation(text) && nesting_marks(text) <= MAX_NESTING_MARKS
}

/// The names of the nodes of a text that is handed to the parser and is a
/// KDL document; `None` for every other text.
pub open spec fn admitted_node_names(text: Seq<char>) -> Option<Seq<Seq<char>>> {
    if kdl_admits(text) {
        kdl_node_names(text)
    } else {
        None
    }
}

/// Parses `text` with the `FromStr` impl of `kdl::KdlDocument` and, where
/// that succeeds, collects `KdlNode::name().value()` of each node that
/// `KdlDocument::nodes` gives. The parser reads nothing but `text`, so the
/// result is a function of it; the contract gives that function its name
/// and claims no more.
///
/// Two kinds of text are kept from the parser. On a reserved word as a type
/// annotation it reports an error whose span it then cuts out of the wrong
/// text, which can panic. And it calls itself once for each level of
/// children blocks, for each slashdash and for each piece of a block
/// comment, so that a text with many of these can exhaust the stack.
#[verifier::external_body]
fn parse_kdl_node_names(text: &str) -> (names: Option<Vec<String>>)
    requires
        kdl_admits(text@),
    ensures
        names_view(names) == kdl_node_names(text@),
{
    match text.parse::<kdl::KdlDocument>() {
        Ok(document) => Some(
            document.nodes().iter().map(|node| node.name().value().to_string()).collect(),
        ),
        Err(_) => None,
    }
}

/// Whether the text can be handed to the parser.
pub fn admits_kdl(text: &str) -> (admitted: bool)
    ensures
        admitted == kdl_admits(text@),
{
    let chars = chars_of(text);
    if count_in(&chars, "(true") > 0 || count_in(&chars, "(false") > 0 || count_in(
        &chars,
        "(null",
    ) > 0 {
        return false;
    }
    let braces = count_in(&chars, "{");
    let slashdashes = count_in(&chars, "/-");
    if braces > MAX_NESTING_MARKS || slashdashes > MAX_NESTING_MARKS {
        return false;
    }
    if count_in(&chars, "/*") > 0 {
        let stars = count_in(&chars, "*");
        let slashes = count_in(&chars, "/");
        if stars > MAX_NESTING_MARKS || slashes > MAX_NESTING_MARKS {
            return false;
        }
        braces + slashdashes + stars + slashes <= MAX_NESTING_MARKS
    } else {
        braces + slashdashes <= MAX_NESTING_MARKS
    }
}

/// The names of the nodes of `text` where it can be handed to the parser
/// and is a KDL document; `None` for every other text.
pub fn node_names_of(text: &str) -> (names: Option<Vec<String>>)
    ensures
        names_view(names) == admitted_node_names(text@),
{
    if admits_kdl(text) {
        parse_kdl_node_names(text)
    } else {
        None
    }
}

/// Each line without its surrounding whitespace.
pub open spec fn trimmed_all(lines: Seq<Seq<char>>) -> Seq<Seq<char>> {
    Seq::new(lines.len(), |i: int| trimmed(lines[i]))
}

/// The separator of commands in a configuration that is no KDL document.
pub open spec fn command_separator() -> Seq<char> {
    seq!['&', '&']
}

/// The command lines that a configured text holds: the trimmed names of its
/// nodes where it is a KDL document, else its trimmed pieces between
/// separators.
pub open spec fn command_lines_in(text: Seq<char>, node_names: Option<Seq<Seq<char>>>) -> Seq<
    Seq<char>,
> {
    match node_names {
        Some(names) => trimmed_all(names),
        None => trimmed_all(split(text, command_separator())),
    }
}

/// The names without repetition, each where it first occurs.
pub open spec fn distinct(names: Seq<Seq<char>>) -> Seq<Seq<char>>
    decreases names.len(),
{
    if names.len() == 0 {
        names
    } else if distinct(names.drop_last()).contains(names.last()) {
        distinct(names.drop_last())
    } else {
        distinct(names.drop_last()).push(names.last())
    }
}

/// No name occurs twice in `distinct(names)`, and every one of them is one
/// of `names`.
pub proof fn lemma_distinct(names: Seq<Seq<char>>)
    ensures
        forall|i: int, j: int|
            0 <= i < j < distinct(names).len() ==> distinct(names)[i] != distinct(names)[j],
        forall|i: int|
            0 <= i < distinct(names).len() ==> names.contains(#[trigger] distinct(names)[i]),
        forall|i: int| 0 <= i < names.len() ==> distinct(names).contains(#[trigger] names[i]),
    decreases names.len(),
{
    if names.len() > 0 {
        let front = names.drop_last();
        lemma_distinct(front);
        assert forall|i: int| 0 <= i < distinct(names).len() implies names.contains(
            #[trigger] distinct(names)[i],
        ) by {
            if i < distinct(front).len() {
                let k = choose|k: int| 0 <= k < front.len() && front[k] == distinct(front)[i];
                assert(names[k] == distinct(names)[i]);
            } else {
                assert(names[names.len() - 1] == distinct(names)[i]);
            }
        }
        assert forall|i: int| 0 <= i < names.len() implies distinct(names).contains(
            #[trigger] names[i],
        ) by {
            if i < front.len() {
                assert(front[i] == names[i]);
                let k = choose|k: int|
                    0 <= k < distinct(front).len() && distinct(front)[k] == front[i];
                assert(distinct(names)[k] == names[i]);
            } else if distinct(front).contains(names.last()) {
            } else {
                assert(distinct(names)[distinct(names).len() - 1] == names[i]);
            }
        }
    }
}

/// The titles that a configured text holds: the trimmed names of its nodes,
/// without repetition, where it is a KDL document; none otherwise.
pub open spec fn titles_in(node_names: Option<Seq<Seq<char>>>) -> Seq<Seq<char>> {
    match node_names {
        Some(names) => distinct(trimmed_all(names)),
        None => Seq::empty(),
    }
}

/// The command lines of a configuration.
pub open spec fn configured_command_lines(config: Seq<(Seq<char>, Seq<char>)>) -> Seq<Seq<char>> {
    match value_of(config, "commands"@) {
        Some(text) => command_lines_in(text, admitted_node_names(text)),
        None => Seq::empty(),
    }
}

/// The titles of the sessions that run again after a successful run.
pub open spec fn configured_completion_titles(config: Seq<(Seq<char>, Seq<char>)>) -> Seq<
    Seq<char>,
> {
    match value_of(config, "panes_to_run_on_completion"@) {
        Some(text) => titles_in(admitted_node_names(text)),
        None => Seq::empty(),
    }
}

/// The shell of a configuration: `bash` where none is given.
pub open spec fn configured_shell(config: Seq<(Seq<char>, Seq<char>)>) -> Seq<char> {
    match value_of(config, "shell"@) {
        Some(shell) => shell,
        None => "bash"@,
    }
}

/// The working directory of a configuration: `.` where none is given.
pub open spec fn configured_folder(config: Seq<(Seq<char>, Seq<char>)>) -> Seq<char> {
    match value_of(config, "folder"@) {
        Some(folder) => folder,
        None => "."@,
    }
}

/// Whether a configuration asks to stop on failure: only the value `true`
/// does.
pub open spec fn configured_stop_on_failure(config: Seq<(Seq<char>, Seq<char>)>) -> bool {
    value_of(config, "stop_on_failure"@) == Some("true"@)
}

/// Trims every line.
fn trim_all(lines: &Vec<String>) -> (trimmed: Vec<String>)
    ensures
        string_views(trimmed@) == trimmed_all(string_views(lines@)),
{
    let mut trimmed: Vec<String> = Vec::new();
    let mut i: usize = 0;
    while i < lines.len()
        invariant
            i <= lines.len(),
            string_views(trimmed@) == trimmed_all(string_views(lines@)).take(i as int),
        decreases lines.len() - i,
    {
        let ghost before = trimmed@;
        let line = trim(lines[i].as_str());
        trimmed.push(line);
        i += 1;
        assert(string_views(trimmed@) =~= string_views(before).push(line@));
    }
    trimmed
}

/// Whether `name` is among the names.
fn contains_name(names: &Vec<String>, name: &str) -> (found: bool)
    ensures
        found == string_views(names@).contains(name@),
{
    let mut i: usize = 0;
    while i < names.len()
        invariant
            i <= names.len(),
            forall|j: int| 0 <= j < i ==> string_views(names@)[j] != name@,
        decreases names.len() - i,
    {
        if same_text(names[i].as_str(), name) {
            assert(string_views(names@)[i as int] == name@);
            return true;
        }
        i += 1;
    }
    false
}

/// Drops every name that has occurred before.
fn remove_repeated(names: Vec<String>) -> (kept: Vec<String>)
    ensures
        string_views(kept@) == distinct(string_views(names@)),
{
    let mut kept: Vec<String> = Vec::new();
    let mut i: usize = 0;
    while i < names.len()
        invariant
            i <= names.len(),
            string_views(kept@) == distinct(string_views(names@).take(i as int)),
        decreases names.len() - i,
    {
        assert(string_views(names@).take(i as int + 1).drop_last() =~= string_views(names@).take(
            i as int,
        ));
        if !contains_name(&kept, names[i].as_str()) {
            let name = names[i].clone();
            kept.push(name);
        }
        i += 1;
    }
    assert(string_views(names@).take(i as int) =~= string_views(names@));
    kept
}

/// The command lines of a configured text, given the names of its nodes
/// where it is a KDL document.
pub fn command_lines_from(text: &str, node_names: Option<Vec<String>>) -> (lines: Vec<String>)
    ensures
        string_views(lines@) == command_lines_in(text@, names_view(node_names)),
{
    match node_names {
        Some(names) => trim_all(&names),
        None => {
            proof {
                reveal_strlit("&&");
                assert("&&"@ =~= command_separator());
            }
            let pieces = split_on(text, "&&");
            trim_all(&pieces)
        },
    }
}

/// The titles of a configured text, given the names of its nodes where it
/// is a KDL document.
pub fn titles_from(node_names: Option<Vec<String>>) -> (titles: Vec<String>)
    ensures
        string_views(titles@) == titles_in(names_view(node_names)),
{
    match node_names {
        Some(names) => remove_repeated(trim_all(&names)),
        None => {
            let titles: Vec<String> = Vec::new();
            titles
        },
    }
}

/// The commands of a configuration, all pending: under the key `commands`,
/// as a KDL document with one node per command, or else as one text with
/// `&&` between the commands.
pub fn parse_commands_from_configuration(config: &Vec<Entry>) -> (commands: Vec<Command>)
    ensures
        views(commands@) == pending_commands(configured_command_lines(entries_view(config@))),
{
    let mut commands: Vec<Command> = Vec::new();
    match lookup(config, "commands") {
        Some(text) => {
            let names = node_names_of(text.as_str());
            let lines = command_lines_from(text.as_str(), names);
            let ghost all = configured_command_lines(entries_view(config@));
            let mut i: usize = 0;
            while i < lines.len()
                invariant
                    i <= lines.len(),
                    string_views(lines@) == all,
                    views(commands@) == pending_commands(all).take(i as int),
                decreases lines.len() - i,
            {
                let ghost before = commands@;
                let command = Command::new(lines[i].as_str());
                commands.push(command);
                i += 1;
                assert(views(commands@) =~= views(before).push(command@));
            }
        },
        None => {},
    }
    commands
}

/// The titles, under the key `panes_to_run_on_completion`, of the sessions
/// that run again after a successful run.
pub fn parse_panes_to_run_on_completion_from_configuration(config: &Vec<Entry>) -> (titles: Vec<
    String,
>)
    ensures
        string_views(titles@) == configured_completion_titles(entries_view(config@)),
{
    match lookup(config, "panes_to_run_on_completion") {
        Some(text) => titles_from(node_names_of(text.as_str())),
        None => {
            let titles: Vec<String> = Vec::new();
            titles
        },
    }
}

/// The shell, the working directory and the stop-on-failure flag of a
/// configuration.
pub fn parse_other_configuration(config: &Vec<Entry>) -> (other: (String, String, bool))
    ensures
        other.0@ == configured_shell(entries_view(config@)),
        other.1@ == configured_folder(entries_view(config@)),
        other.2 == configured_stop_on_failure(entries_view(config@)),
{
    let shell = match lookup(config, "shell") {
        Some(shell) => shell.clone(),
        None => String::from_str("bash"),
    };
    let folder = match lookup(config, "folder") {
        Some(folder) => folder.clone(),
        None => String::from_str("."),
    };
    let stop_on_failure = match lookup(config, "stop_on_failure") {
        Some(value) => same_text(value.as_str(), "true"),
        None => false,
    };
    (shell, folder, stop_on_failure)
}

} // verus!
