//! The declarative schema: field kinds, converters, and errors.
use vstd::prelude::*;

verus! {

/// The search-query function that a full-text field matches with.
#[derive(Clone, Copy, Debug, PartialEq, Eq, Structural)]
pub enum FulltextSyntax {
    Plain,
    Phrase,
    Websearch,
}

/// How a field is queried.
#[derive(Debug)]
pub enum FieldQuery {
    /// A number, also queried through the derived keys `min` and `max`.
    Range { min: String, max: String, aliases: Vec<(String, i64)> },
    Min,
    Max,
    Bool,
    /// A value stored sometimes as a number, sometimes as a string.
    AmbiguousTag,
    NumericTag { aliases: Vec<(String, i64)> },
    StringTag,
    /// A prefix of dotted paths.
    Nested,
    Fulltext { lang: String, syntax: FulltextSyntax, target: Option<String> },
    Not(Box<FieldQuery>),
}

/// The format a value arrives in.
#[derive(Clone, Copy, Debug, PartialEq, Eq, Structural)]
pub enum ConvertFrom {
    DateTimeString,
    Timestamp,
    TimestampMillis,
}

/// The format a value is stored in.
#[derive(Clone, Copy, Debug, PartialEq, Eq, Structural)]
pub enum ConvertTo {
    DateTimeString,
    Timestamp,
    TimestampMillis,
}

#[derive(Clone, Copy, Debug, PartialEq, Eq, Structural)]
pub struct ConverterSchema {
    pub from: ConvertFrom,
    pub to: ConvertTo,
}

#[derive(Debug)]
pub struct FieldSchema {
    pub query: FieldQuery,
    pub converter: Option<ConverterSchema>,
}

/// One table: its fields by name, in declaration order, and its default sort key.
#[derive(Debug)]
pub struct Schema {
    pub table: String,
    pub fields: Vec<(String, FieldSchema)>,
    pub default_order_by: String,
}

/// Why a compilation failed.
#[derive(Clone, Copy, Debug, PartialEq, Eq, Structural)]
pub enum QueryError {
    /// An atom that had to be an integer was not one.
    InvalidNumber,
    /// An atom that had to be a boolean was not one.
    InvalidBool,
}

/// No two entries share a key.
pub open spec fn distinct_keys<V>(entries: Seq<(String, V)>) -> bool {
    forall|i: int, j: int| 0 <= i < j < entries.len() ==> entries[i].0@ != entries[j].0@
}

impl Schema {
    /// Field names are unique.
    pub open spec fn wf(&self) -> bool {
        distinct_keys(self.fields@)
    }
}

/// Whether no two entries share a key.
pub fn has_distinct_keys<V>(entries: &Vec<(String, V)>) -> (r: bool)
    ensures
        r == distinct_keys(entries@),
{
    let n = entries.len();
    let mut i: usize = 0;
    while i < n
        invariant
            n == entries@.len(),
            i <= n,
            forall|a: int, b: int| 0 <= a < i && a < b < n ==> entries@[a].0@ != entries@[b].0@,
        decreases n - i,
    {
        let mut j: usize = i + 1;
        while j < n
            invariant
                n == entries@.len(),
                i < n,
                i + 1 <= j <= n,
                forall|a: int, b: int| 0 <= a < i && a < b < n ==> entries@[a].0@ != entries@[b].0@,
                forall|b: int| i < b < j ==> entries@[i as int].0@ != entries@[b].0@,
            decreases n - j,
        {
            if entries[i].0 == entries[j].0 {
                return false;
            }
            j += 1;
        }
        i += 1;
    }
    true
}

/// The first entry with the given key, from the front.
pub open spec fn first_index<V>(entries: Seq<(String, V)>, key: Seq<char>) -> Option<int>
    decreases entries.len(),
{
    if entries.len() == 0 {
        None
    } else {
        match first_index(entries.drop_last(), key) {
            Some(i) => Some(i),
            None => if entries.last().0@ == key {
                Some(entries.len() - 1)
            } else {
                None
            },
        }
    }
}

pub proof fn lemma_first_index_bounds<V>(entries: Seq<(String, V)>, key: Seq<char>)
    ensures
        first_index(entries, key) matches Some(i) ==> 0 <= i < entries.len() && entries[i].0@ == key,
    decreases entries.len(),
{
    if entries.len() > 0 {
        lemma_first_index_bounds(entries.drop_last(), key);
    }
}

/// The value of the first entry with the given key.
pub open spec fn lookup<V>(entries: Seq<(String, V)>, key: Seq<char>) -> Option<V> {
    match first_index(entries, key) {
        Some(i) => Some(entries[i].1),
        None => None,
    }
}

/// Finds the first entry with the given key.
pub fn find_key<V>(entries: &Vec<(String, V)>, key: &str) -> (r: Option<usize>)
    ensures
        r matches Some(i) ==> first_index(entries@, key@) == Some(i as int),
        r is None ==> first_index(entries@, key@) is None,
        r matches Some(i) ==> i < entries@.len(),
{
    let mut i: usize = 0;
    while i < entries.len()
        invariant
            i <= entries.len(),
            first_index(entries@.subrange(0, i as int), key@) is None,
        decreases entries.len() - i,
    {
        let e = &entries[i].0;
        assert(entries@.subrange(0, i + 1).drop_last() =~= entries@.subrange(0, i as int));
        if crate::text::text_is(e, key) {
            proof {
                lemma_first_index_prefix(entries@, key@, i as int + 1);
            }
            return Some(i);
        }
        i += 1;
    }
    assert(entries@.subrange(0, entries.len() as int) =~= entries@);
    None
}

/// A key found in a prefix is found at the same place in the whole.
pub proof fn lemma_first_index_prefix<V>(entries: Seq<(String, V)>, key: Seq<char>, n: int)
    requires
        0 <= n <= entries.len(),
        first_index(entries.subrange(0, n), key) is Some,
    ensures
        first_index(entries, key) == first_index(entries.subrange(0, n), key),
    decreases entries.len() - n,
{
    if n < entries.len() {
        let m = n + 1;
        assert(entries.subrange(0, m).drop_last() =~= entries.subrange(0, n));
        lemma_first_index_prefix(entries, key, m);
    } else {
        assert(entries.subrange(0, n) =~= entries);
    }
}

} // verus!
