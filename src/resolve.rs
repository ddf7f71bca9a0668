//! Mapping a filter key to a field name and the kind it is queried as.
use vstd::prelude::*;
use vstd::string::*;
use crate::schema::{find_key, lemma_first_index_bounds, lookup, FieldQuery, FieldSchema};
use crate::text::{drop_last_char, first_segment, first_segment_of, text_is};

verus! {

/// What a declared field offers to a key that is not its own name: a range's
/// min or max key, or a dotted path under a nested field.
pub open spec fn derived_match(entry: (String, FieldSchema), key: Seq<char>) -> Option<(Seq<char>, FieldQuery)> {
    match entry.1.query {
        FieldQuery::Range { min, max, .. } => if key == min@ {
            Some((entry.0@, FieldQuery::Min))
        } else if key == max@ {
            Some((entry.0@, FieldQuery::Max))
        } else {
            None
        },
        FieldQuery::Nested => if first_segment(key) == entry.0@ {
            Some((key, FieldQuery::Nested))
        } else {
            None
        },
        _ => None,
    }
}

/// The first declared field, in order, that offers itself to the key.
pub open spec fn derived(fields: Seq<(String, FieldSchema)>, key: Seq<char>) -> Option<(Seq<char>, FieldQuery)>
    decreases fields.len(),
{
    if fields.len() == 0 {
        None
    } else {
        match derived(fields.drop_last(), key) {
            Some(x) => Some(x),
            None => derived_match(fields.last(), key),
        }
    }
}

/// The field name and kind a filter key resolves to, if any: its own field,
/// else (for a key ending in `!`) the negation of what the rest resolves to,
/// else a derived key.
pub open spec fn resolve(fields: Seq<(String, FieldSchema)>, key: Seq<char>) -> Option<(Seq<char>, FieldQuery)> {
    match lookup(fields, key) {
        Some(fs) => Some((key, fs.query)),
        None => if key.len() > 0 && key.last() == '!' {
            let f = key.drop_last();
            match lookup(fields, f) {
                Some(fs) => Some((f, FieldQuery::Not(Box::new(fs.query)))),
                None => match derived(fields, f) {
                    Some(x) => Some((x.0, FieldQuery::Not(Box::new(x.1)))),
                    None => None,
                },
            }
        } else {
            derived(fields, key)
        },
    }
}

/// Where a resolved kind comes from.
#[derive(Clone, Copy, Debug, PartialEq, Eq, Structural)]
pub enum Source {
    /// The declared kind of the field at this index.
    Declared(usize),
    Min,
    Max,
    Nested,
}

/// A resolved key: the field name or path, where its kind comes from, and
/// whether that kind is negated.
#[derive(Debug)]
pub struct Resolution {
    pub name: String,
    pub source: Source,
    pub negated: bool,
}

pub open spec fn source_kind(fields: Seq<(String, FieldSchema)>, s: Source) -> FieldQuery {
    match s {
        Source::Declared(i) => fields[i as int].1.query,
        Source::Min => FieldQuery::Min,
        Source::Max => FieldQuery::Max,
        Source::Nested => FieldQuery::Nested,
    }
}

pub open spec fn resolution_view(fields: Seq<(String, FieldSchema)>, r: Resolution) -> (Seq<char>, FieldQuery) {
    let k = source_kind(fields, r.source);
    (r.name@, if r.negated { FieldQuery::Not(Box::new(k)) } else { k })
}

pub open spec fn resolution_ok(fields: Seq<(String, FieldSchema)>, r: Resolution) -> bool {
    &&& r.source matches Source::Declared(i) ==> i < fields.len()
    &&& !(r.source is Declared) ==> !(source_kind(fields, r.source) is Not)
}

fn derived_field(fields: &Vec<(String, FieldSchema)>, key: &String) -> (r: Option<(String, Source)>)
    ensures
        match r {
            Some(x) => !(x.1 is Declared) && derived(fields@, key@) == Some((x.0@, source_kind(fields@, x.1))),
            None => derived(fields@, key@) is None,
        },
{
    let segment = first_segment_of(key);
    let mut i: usize = 0;
    while i < fields.len()
        invariant
            i <= fields.len(),
            segment@ == first_segment(key@),
            derived(fields@.subrange(0, i as int), key@) is None,
        decreases fields.len() - i,
    {
        let entry = &fields[i];
        assert(fields@.subrange(0, i + 1).drop_last() =~= fields@.subrange(0, i as int));
        let found: Option<(String, Source)> = match &entry.1.query {
            FieldQuery::Range { min, max, .. } => {
                if text_is(key, min.as_str()) {
                    Some((entry.0.clone(), Source::Min))
                } else if text_is(key, max.as_str()) {
                    Some((entry.0.clone(), Source::Max))
                } else {
                    None
                }
            },
            FieldQuery::Nested => {
                if text_is(&segment, entry.0.as_str()) {
                    Some((key.clone(), Source::Nested))
                } else {
                    None
                }
            },
            _ => None,
        };
        if let Some(x) = found {
            proof {
                lemma_derived_prefix(fields@, key@, i as int + 1);
            }
            return Some(x);
        }
        i += 1;
    }
    assert(fields@.subrange(0, fields.len() as int) =~= fields@);
    None
}

proof fn lemma_derived_prefix(fields: Seq<(String, FieldSchema)>, key: Seq<char>, n: int)
    requires
        0 <= n <= fields.len(),
        derived(fields.subrange(0, n), key) is Some,
    ensures
        derived(fields, key) == derived(fields.subrange(0, n), key),
    decreases fields.len() - n,
{
    if n < fields.len() {
        assert(fields.subrange(0, n + 1).drop_last() =~= fields.subrange(0, n));
        lemma_derived_prefix(fields, key, n + 1);
    } else {
        assert(fields.subrange(0, n) =~= fields);
    }
}

/// Resolves a filter key against the declared fields.
pub fn resolve_field(fields: &Vec<(String, FieldSchema)>, key: &String) -> (r: Option<Resolution>)
    ensures
        match r {
            Some(x) => resolution_ok(fields@, x) && resolve(fields@, key@) == Some(resolution_view(fields@, x)),
            None => resolve(fields@, key@) is None,
        },
{
    proof {
        lemma_first_index_bounds(fields@, key@);
    }
    if let Some(i) = find_key(fields, key.as_str()) {
        return Some(Resolution { name: key.clone(), source: Source::Declared(i), negated: false });
    }
    let n = key.as_str().unicode_len();
    if n > 0 && key.as_str().get_char(n - 1) == '!' {
        let f = drop_last_char(key);
        proof {
            lemma_first_index_bounds(fields@, f@);
        }
        if let Some(i) = find_key(fields, f.as_str()) {
            return Some(Resolution { name: f, source: Source::Declared(i), negated: true });
        }
        match derived_field(fields, &f) {
            Some((name, source)) => Some(Resolution { name, source, negated: true }),
            None => None,
        }
    } else {
        match derived_field(fields, key) {
            Some((name, source)) => Some(Resolution { name, source, negated: false }),
            None => None,
        }
    }
}

} // verus!
