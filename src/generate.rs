//! The fragments that one resolved field contributes to a query.
use vstd::prelude::*;
use vstd::string::*;
use crate::atoms::is_atomic;
use crate::combine::{combined, parse_query_list};
use crate::schema::{FieldQuery, FulltextSyntax, QueryError};
use crate::text::{nat_text, push_decimal, views};

verus! {

/// What one field adds: document-path fragments, flat SQL fragments, and the
/// values bound for the flat fragments.
pub struct FieldEffect {
    pub json: Seq<Seq<char>>,
    pub flat: Seq<Seq<char>>,
    pub binds: Seq<Seq<char>>,
}

pub open spec fn no_effect() -> FieldEffect {
    FieldEffect { json: Seq::empty(), flat: Seq::empty(), binds: Seq::empty() }
}

/// The search-query function for a matching syntax.
pub open spec fn syntax_function(s: FulltextSyntax) -> Seq<char> {
    match s {
        FulltextSyntax::Plain => "plainto_tsquery"@,
        FulltextSyntax::Phrase => "phraseto_tsquery"@,
        FulltextSyntax::Websearch => "websearch_to_tsquery"@,
    }
}

/// A text-search match of document field `key` against bound parameter `param`.
pub open spec fn fulltext_frag(lang: Seq<char>, key: Seq<char>, syntax: FulltextSyntax, param: nat) -> Seq<char> {
    "to_tsvector('"@ + lang + "',object->>'"@ + key + "') @@ "@ + syntax_function(syntax) + "('"@
        + lang + "',$"@ + nat_text(param) + ")"@
}

pub open spec fn negate(f: Seq<char>) -> Seq<char> {
    "!("@ + f + ")"@
}

/// What a field of the given kind and name adds for value `v`, when
/// `n_flat` flat fragments stand before it.
pub open spec fn field_effect(v: Seq<char>, name: Seq<char>, kind: FieldQuery, bind_index: nat, n_flat: nat) -> Result<
    FieldEffect,
    QueryError,
>
    decreases kind,
{
    match kind {
        FieldQuery::Fulltext { lang, syntax, target } => {
            let key = match target {
                Some(t) => t@,
                None => name,
            };
            Ok(
                FieldEffect {
                    json: Seq::empty(),
                    flat: seq![fulltext_frag(lang@, key, syntax, n_flat + bind_index)],
                    binds: seq![v],
                },
            )
        },
        FieldQuery::Not(inner) => match field_effect(v, name, *inner, bind_index, 0) {
            Ok(e) => Ok(
                FieldEffect {
                    json: e.json.map_values(|f: Seq<char>| negate(f)),
                    flat: Seq::empty(),
                    binds: Seq::empty(),
                },
            ),
            Err(e) => Err(e),
        },
        _ => match combined(v, kind, name) {
            Ok(t) => Ok(FieldEffect { json: seq![t], flat: Seq::empty(), binds: Seq::empty() }),
            Err(e) => Err(e),
        },
    }
}

fn syntax_name(s: FulltextSyntax) -> (r: String)
    ensures
        r@ == syntax_function(s),
{
    match s {
        FulltextSyntax::Plain => String::from_str("plainto_tsquery"),
        FulltextSyntax::Phrase => String::from_str("phraseto_tsquery"),
        FulltextSyntax::Websearch => String::from_str("websearch_to_tsquery"),
    }
}

fn fulltext(lang: &String, key: &String, syntax: FulltextSyntax, param: u128) -> (r: String)
    ensures
        r@ == fulltext_frag(lang@, key@, syntax, param as nat),
{
    let mut r = String::from_str("to_tsvector('");
    r.append(lang.as_str());
    r.append("',object->>'");
    r.append(key.as_str());
    r.append("') @@ ");
    let f = syntax_name(syntax);
    r.append(f.as_str());
    r.append("('");
    r.append(lang.as_str());
    r.append("',$");
    push_decimal(&mut r, param);
    r.append(")");
    assert(r@ =~= fulltext_frag(lang@, key@, syntax, param as nat));
    r
}

/// Adds to the three lists what the field `field.0` of kind `field.1` asks
/// for value `v`. On an error the lists are left as they were.
pub fn generate_one_field(
    v: &str,
    field: (&String, &FieldQuery),
    jsonb_filters: &mut Vec<String>,
    other_filters: &mut Vec<String>,
    other_bindings: &mut Vec<String>,
    bind_index: usize,
) -> (r: Result<(), QueryError>)
    ensures
        match field_effect(v@, field.0@, *field.1, bind_index as nat, old(other_filters)@.len()) {
            Ok(e) => {
                &&& r is Ok
                &&& views(final(jsonb_filters)@) == views(old(jsonb_filters)@) + e.json
                &&& views(final(other_filters)@) == views(old(other_filters)@) + e.flat
                &&& views(final(other_bindings)@) == views(old(other_bindings)@) + e.binds
            },
            Err(e) => {
                &&& r == Err::<(), QueryError>(e)
                &&& final(jsonb_filters)@ == old(jsonb_filters)@
                &&& final(other_filters)@ == old(other_filters)@
                &&& final(other_bindings)@ == old(other_bindings)@
            },
        },
    decreases field.1, 0nat,
{
    let name = field.0;
    match field.1 {
        FieldQuery::Fulltext { lang, syntax, target } => {
            let key = match target {
                Some(t) => t,
                None => name,
            };
            let param = other_filters.len() as u128 + bind_index as u128;
            let frag = fulltext(lang, key, *syntax, param);
            let ghost of = other_filters@;
            let ghost ob = other_bindings@;
            other_filters.push(frag);
            other_bindings.push(String::from_str(v));
            assert(views(other_filters@) =~= views(of) + seq![frag@]);
            assert(views(other_bindings@) =~= views(ob) + seq![v@]);
            assert(views(jsonb_filters@) =~= views(jsonb_filters@) + Seq::<Seq<char>>::empty());
            Ok(())
        },
        FieldQuery::Not(inner) => {
            let inner_kind: &FieldQuery = inner;
            let r = generate_negated(v, name, inner_kind, jsonb_filters, bind_index);
            assert(views(other_filters@) =~= views(other_filters@) + Seq::<Seq<char>>::empty());
            assert(views(other_bindings@) =~= views(other_bindings@) + Seq::<Seq<char>>::empty());
            r
        },
        _ => {
            let kind: &FieldQuery = field.1;
            assert(is_atomic(*kind));
            match parse_query_list(v, kind, name.as_str()) {
                Ok(t) => {
                    let ghost j0 = jsonb_filters@;
                    jsonb_filters.push(t);
                    assert(views(jsonb_filters@) =~= views(j0) + seq![t@]);
                    assert(views(other_filters@) =~= views(other_filters@) + Seq::<Seq<char>>::empty());
                    assert(views(other_bindings@) =~= views(other_bindings@) + Seq::<Seq<char>>::empty());
                    Ok(())
                },
                Err(e) => Err(e),
            }
        },
    }
}

/// Adds the negation of each document-path fragment that a field of kind
/// `inner` would add. Flat fragments and bindings of `inner` are not kept.
pub fn generate_negated(
    v: &str,
    name: &String,
    inner: &FieldQuery,
    jsonb_filters: &mut Vec<String>,
    bind_index: usize,
) -> (r: Result<(), QueryError>)
    ensures
        match field_effect(v@, name@, FieldQuery::Not(Box::new(*inner)), bind_index as nat, 0) {
            Ok(e) => {
                &&& r is Ok
                &&& views(final(jsonb_filters)@) == views(old(jsonb_filters)@) + e.json
            },
            Err(e) => {
                &&& r == Err::<(), QueryError>(e)
                &&& final(jsonb_filters)@ == old(jsonb_filters)@
            },
        },
    decreases inner, 1nat,
{
    let mut inner_json: Vec<String> = Vec::new();
    let mut inner_flat: Vec<String> = Vec::new();
    let mut inner_binds: Vec<String> = Vec::new();
    assert(views(inner_json@) =~= Seq::<Seq<char>>::empty());
    match generate_one_field(v, (name, inner), &mut inner_json, &mut inner_flat, &mut inner_binds, bind_index) {
        Ok(()) => {},
        Err(e) => {
            return Err(e);
        },
    }
    let ghost j0 = jsonb_filters@;
    let ghost negs = views(inner_json@).map_values(|f: Seq<char>| negate(f));
    let mut i: usize = 0;
    while i < inner_json.len()
        invariant
            i <= inner_json.len(),
            negs == views(inner_json@).map_values(|f: Seq<char>| negate(f)),
            views(jsonb_filters@) == views(j0) + negs.subrange(0, i as int),
        decreases inner_json.len() - i,
    {
        let mut s = String::from_str("!(");
        s.append(inner_json[i].as_str());
        s.append(")");
        let ghost before = jsonb_filters@;
        jsonb_filters.push(s);
        assert(views(jsonb_filters@) =~= views(before).push(s@));
        assert(negs.subrange(0, i + 1) =~= negs.subrange(0, i as int).push(s@));
        i += 1;
    }
    assert(negs.subrange(0, inner_json.len() as int) =~= negs);
    Ok(())
}

} // verus!
