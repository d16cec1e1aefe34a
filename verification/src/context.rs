//! String-keyed entries, as the host hands over configuration and echoes
//! back the context of a request, and the correlation record that travels in
//! such a context.

use crate::text::{decimal, format_index, lemma_parse_format_roundtrip, parse_index, parsed_index};
use vstd::prelude::*;
use vstd::string::*;

verus! {

/// One entry of a string-keyed map.
#[derive(Clone, Debug, PartialEq, Eq)]
pub struct Entry {
    pub key: String,
    pub value: String,
}

/// The entries as pairs of key and value, in order.
pub open spec fn entries_view(entries: Seq<Entry>) -> Seq<(Seq<char>, Seq<char>)> {
    Seq::new(entries.len(), |i: int| (entries[i].key@, entries[i].value@))
}

/// The value of the first entry with the given key.
pub open spec fn value_of(entries: Seq<(Seq<char>, Seq<char>)>, key: Seq<char>) -> Option<
    Seq<char>,
>
    decreases entries.len(),
{
    if entries.len() == 0 {
        None
    } else if entries[0].0 == key {
        Some(entries[0].1)
    } else {
        value_of(entries.skip(1), key)
    }
}

/// Whether two texts hold the same characters.
pub fn same_text(a: &str, b: &str) -> (same: bool)
    ensures
        same == (a@ == b@),
{
    let a = String::from_str(a);
    let b = String::from_str(b);
    a == b
}

/// Finds the first entry with the given key.
pub fn lookup<'a>(entries: &'a Vec<Entry>, key: &str) -> (found: Option<&'a String>)
    ensures
        match found {
            Some(value) => value_of(entries_view(entries@), key@) == Some(value@),
            None => value_of(entries_view(entries@), key@) is None,
        },
{
    let mut i: usize = 0;
    assert(entries_view(entries@).skip(0) =~= entries_view(entries@));
    while i < entries.len()
        invariant
            i <= entries.len(),
            value_of(entries_view(entries@), key@) == value_of(
                entries_view(entries@).skip(i as int),
                key@,
            ),
        decreases entries.len() - i,
    {
        if same_text(entries[i].key.as_str(), key) {
            return Some(&entries[i].value);
        }
        assert(entries_view(entries@).skip(i as int).skip(1) =~= entries_view(entries@).skip(
            i as int + 1,
        ));
        i += 1;
    }
    None
}

/// What ties a lifecycle event to the request that caused it: the index of
/// the command and the epoch of the run in which the request was made.
#[derive(Clone, Copy, Debug, PartialEq, Eq, Structural)]
pub struct Correlation {
    pub command_index: usize,
    pub epoch: usize,
}

/// The key under which the command's index travels.
pub open spec fn index_key() -> Seq<char> {
    "command_index"@
}

/// The key under which the run's epoch travels.
pub open spec fn epoch_key() -> Seq<char> {
    "current_run_index"@
}

/// The context that carries a correlation record.
pub open spec fn context_of(correlation: Correlation) -> Seq<(Seq<char>, Seq<char>)> {
    seq![
        (index_key(), decimal(correlation.command_index as nat)),
        (epoch_key(), decimal(correlation.epoch as nat)),
    ]
}

/// The correlation record that a context carries, if it holds both fields
/// as decimal numbers.
pub open spec fn correlation_of(context: Seq<(Seq<char>, Seq<char>)>) -> Option<Correlation> {
    match (value_of(context, index_key()), value_of(context, epoch_key())) {
        (Some(index), Some(epoch)) => match (parsed_index(index), parsed_index(epoch)) {
            (Some(command_index), Some(epoch)) => Some(Correlation { command_index, epoch }),
            _ => None,
        },
        _ => None,
    }
}

impl Correlation {
    /// Writes the record as the context of a request.
    pub fn to_context(&self) -> (context: Vec<Entry>)
        ensures
            entries_view(context@) == context_of(*self),
    {
        let mut context: Vec<Entry> = Vec::new();
        context.push(
            Entry {
                key: String::from_str("command_index"),
                value: format_index(self.command_index),
            },
        );
        context.push(
            Entry { key: String::from_str("current_run_index"), value: format_index(self.epoch) },
        );
        context
    }

    /// Reads the record out of the context of an event. `None` where a
    /// field is missing or is no decimal number.
    pub fn from_context(context: &Vec<Entry>) -> (correlation: Option<Correlation>)
        ensures
            correlation == correlation_of(entries_view(context@)),
    {
        let index = match lookup(context, "command_index") {
            Some(text) => parse_index(text.as_str()),
            None => None,
        };
        let epoch = match lookup(context, "current_run_index") {
            Some(text) => parse_index(text.as_str()),
            None => None,
        };
        match (index, epoch) {
            (Some(command_index), Some(epoch)) => Some(Correlation { command_index, epoch }),
            _ => None,
        }
    }
}

/// A context that was written from a correlation record is read back as
/// that record.
pub proof fn lemma_correlation_roundtrip(correlation: Correlation)
    ensures
        correlation_of(context_of(correlation)) == Some(correlation),
{
    let context = context_of(correlation);
    reveal_strlit("command_index");
    reveal_strlit("current_run_index");
    assert(index_key() != epoch_key()) by {
        assert(index_key().len() != epoch_key().len());
    }
    assert(value_of(context.skip(1), epoch_key()) == Some(decimal(correlation.epoch as nat)));
    lemma_parse_format_roundtrip(correlation.command_index);
    lemma_parse_format_roundtrip(correlation.epoch);
}

} // verus!
