//! Rewriting stored values of returned documents by their declared converters.
use vstd::prelude::*;
use crate::schema::{ConvertFrom, ConvertTo, ConverterSchema, FieldSchema, Schema};

verus! {

/// The RFC 3339 text, in UTC with millisecond precision and a `Z` suffix, of
/// an instant given in milliseconds since the Unix epoch.
pub uninterp spec fn rfc3339_millis_text(millis: int) -> Seq<char>;

/// Milliseconds since the epoch of the first instant chrono represents,
/// -262143-01-01T00:00:00.000Z.
pub const MIN_MILLIS: i64 = -8334601228800000;

/// Milliseconds since the epoch of the last instant chrono represents at
/// millisecond precision, 262142-12-31T23:59:59.999Z.
pub const MAX_MILLIS: i64 = 8210266876799999;

/// Relies on chrono's `DateTime::from_timestamp_millis`, which is `None` only
/// for dates outside its years -262143 to 262142, and on
/// `to_rfc3339_opts(SecondsFormat::Millis, true)`.
#[verifier::external_body]
fn rfc3339_from_millis(millis: i64) -> (r: Option<String>)
    ensures
        r matches Some(s) ==> s@ == rfc3339_millis_text(millis as int),
        MIN_MILLIS <= millis <= MAX_MILLIS ==> r is Some,
{
    match chrono::DateTime::from_timestamp_millis(millis) {
        Some(d) => Some(d.to_rfc3339_opts(chrono::SecondsFormat::Millis, true)),
        None => None,
    }
}

/// How many milliseconds one stored unit is worth, for the converters that
/// turn a stored number back into a date-time string.
pub open spec fn millis_factor(c: ConverterSchema) -> Option<int> {
    match (c.from, c.to) {
        (ConvertFrom::DateTimeString, ConvertTo::Timestamp) => Some(1000),
        (ConvertFrom::DateTimeString, ConvertTo::TimestampMillis) => Some(1),
        _ => None,
    }
}

/// The outcome of converting one stored value.
#[derive(Debug)]
pub enum Converted {
    /// The converter defines no rewrite: the value stays as it is.
    Unchanged,
    /// The value's replacement.
    Text(String),
    /// The instant lies outside the representable range.
    OutOfRange,
}

/// Whether a converter rewrites stored numbers at all.
pub fn has_rule(conv: ConverterSchema) -> (r: bool)
    ensures
        r == (millis_factor(conv) is Some),
{
    match (conv.from, conv.to) {
        (ConvertFrom::DateTimeString, ConvertTo::Timestamp) => true,
        (ConvertFrom::DateTimeString, ConvertTo::TimestampMillis) => true,
        _ => false,
    }
}

/// Converts one stored number by a converter.
pub fn convert_value(conv: ConverterSchema, value: i64) -> (r: Converted)
    ensures
        millis_factor(conv) is None <==> r is Unchanged,
        r matches Converted::Text(s) ==> s@ == rfc3339_millis_text(value * millis_factor(conv)->0),
        millis_factor(conv) matches Some(f) && !(i64::MIN <= value * f <= i64::MAX) ==> r is OutOfRange,
        millis_factor(conv) is Some && MIN_MILLIS <= value * millis_factor(conv)->0 <= MAX_MILLIS ==> (r matches Converted::Text(s)
            && s@ == rfc3339_millis_text(value * millis_factor(conv)->0)),
{
    let millis = match (conv.from, conv.to) {
        (ConvertFrom::DateTimeString, ConvertTo::Timestamp) => value.checked_mul(1000),
        (ConvertFrom::DateTimeString, ConvertTo::TimestampMillis) => Some(value),
        _ => {
            return Converted::Unchanged;
        },
    };
    match millis {
        Some(ms) => match rfc3339_from_millis(ms) {
            Some(s) => Converted::Text(s),
            None => Converted::OutOfRange,
        },
        None => Converted::OutOfRange,
    }
}

/// The declared converters of the fields, in declaration order.
pub open spec fn converter_list(fields: Seq<(String, FieldSchema)>) -> Seq<(Seq<char>, ConverterSchema)>
    decreases fields.len(),
{
    if fields.len() == 0 {
        Seq::empty()
    } else {
        match fields.last().1.converter {
            Some(c) => converter_list(fields.drop_last()).push((fields.last().0@, c)),
            None => converter_list(fields.drop_last()),
        }
    }
}

pub open spec fn named_views(v: Seq<(String, ConverterSchema)>) -> Seq<(Seq<char>, ConverterSchema)> {
    v.map_values(|p: (String, ConverterSchema)| (p.0@, p.1))
}

/// The fields of a schema that declare a converter, with it.
pub fn converters(schema: &Schema) -> (r: Vec<(String, ConverterSchema)>)
    ensures
        named_views(r@) == converter_list(schema.fields@),
{
    let mut r: Vec<(String, ConverterSchema)> = Vec::new();
    let mut i: usize = 0;
    assert(named_views(r@) =~= converter_list(schema.fields@.subrange(0, 0)));
    while i < schema.fields.len()
        invariant
            i <= schema.fields.len(),
            named_views(r@) == converter_list(schema.fields@.subrange(0, i as int)),
        decreases schema.fields.len() - i,
    {
        assert(schema.fields@.subrange(0, i + 1).drop_last() =~= schema.fields@.subrange(0, i as int));
        match schema.fields[i].1.converter {
            Some(c) => {
                let ghost before = r@;
                r.push((schema.fields[i].0.clone(), c));
                assert(named_views(r@) =~= named_views(before).push((schema.fields@[i as int].0@, c)));
            },
            None => {},
        }
        i += 1;
    }
    assert(schema.fields@.subrange(0, schema.fields.len() as int) =~= schema.fields@);
    r
}

} // verus!
