//! Assembling all fields' fragments into the filter, order and pagination
//! clauses of one query.
use vstd::prelude::*;
use vstd::string::*;
use crate::generate::{field_effect, generate_negated, generate_one_field, no_effect, FieldEffect};
use crate::resolve::{resolve, resolution_view, resolve_field, source_kind, Source};
use crate::schema::{distinct_keys, find_key, lemma_first_index_bounds, lookup, FieldQuery, FieldSchema, QueryError, Schema};
use crate::text::{join, join_strings, text_is, to_upper, upper_text, views};

verus! {

pub open spec fn add_effect(a: FieldEffect, b: FieldEffect) -> FieldEffect {
    FieldEffect { json: a.json + b.json, flat: a.flat + b.flat, binds: a.binds + b.binds }
}

/// Every filter entry resolved and generated in turn, up to the first error.
pub open spec fn collect(
    fields: Seq<(String, FieldSchema)>,
    entries: Seq<(String, String)>,
    bind_index: nat,
) -> Result<FieldEffect, QueryError>
    decreases entries.len(),
{
    if entries.len() == 0 {
        Ok(no_effect())
    } else {
        match collect(fields, entries.drop_last(), bind_index) {
            Err(e) => Err(e),
            Ok(acc) => match resolve(fields, entries.last().0@) {
                None => Ok(acc),
                Some(x) => match field_effect(entries.last().1@, x.0, x.1, bind_index, acc.flat.len()) {
                    Err(e) => Err(e),
                    Ok(e) => Ok(add_effect(acc, e)),
                },
            },
        }
    }
}

/// The filter clause, by which of the two kinds of predicate there are.
pub open spec fn filter_clause(json: Seq<Seq<char>>, flat: Seq<Seq<char>>, force: bool) -> Seq<char> {
    let path = json.len() > 0 || force;
    if path && flat.len() == 0 {
        "WHERE object @@ CAST($1 AS JSONPATH)"@
    } else if path {
        "WHERE object @@ CAST($1 AS JSONPATH) AND "@ + join(flat, " AND "@)
    } else if flat.len() > 0 {
        "WHERE "@ + join(flat, " AND "@)
    } else {
        Seq::empty()
    }
}

/// `ASC` or `DESC` as asked by `sortorder`, `ASC` when it asks anything else,
/// `DESC` when it is absent.
pub open spec fn sort_direction(entries: Seq<(String, String)>) -> Seq<char> {
    match lookup(entries, "sortorder"@) {
        Some(l) => if upper_text(l@) == "ASC"@ || upper_text(l@) == "DESC"@ {
            upper_text(l@)
        } else {
            "ASC"@
        },
        None => "DESC"@,
    }
}

pub open spec fn order_clause(direction: Seq<char>) -> Seq<char> {
    " ORDER BY (object #> ($2)::text[]) "@ + direction + ", doc_id NULLS LAST LIMIT $3 OFFSET $4"@
}

pub open spec fn path_expression(json: Seq<Seq<char>>) -> Seq<char> {
    "("@ + join(json, " && "@) + ")"@
}

/// Filter clause, order clause, document-path expression, flat bindings.
pub open spec fn where_clause(
    fields: Seq<(String, FieldSchema)>,
    entries: Seq<(String, String)>,
    bind_index: nat,
    force: bool,
) -> Result<(Seq<char>, Seq<char>, Seq<char>, Seq<Seq<char>>), QueryError> {
    match collect(fields, entries, bind_index) {
        Err(e) => Err(e),
        Ok(e) => Ok(
            (
                filter_clause(e.json, e.flat, force),
                order_clause(sort_direction(entries)),
                path_expression(e.json),
                e.binds,
            ),
        ),
    }
}

pub open spec fn where_view(r: Result<(String, String, String, Vec<String>), QueryError>) -> Result<
    (Seq<char>, Seq<char>, Seq<char>, Seq<Seq<char>>),
    QueryError,
> {
    match r {
        Ok(w) => Ok((w.0@, w.1@, w.2@, views(w.3@))),
        Err(e) => Err(e),
    }
}

fn direction(fields: &Vec<(String, String)>) -> (r: String)
    ensures
        r@ == sort_direction(fields@),
{
    proof {
        lemma_first_index_bounds(fields@, "sortorder"@);
    }
    match find_key(fields, "sortorder") {
        Some(i) => {
            let u = to_upper(fields[i].1.as_str());
            if text_is(&u, "ASC") || text_is(&u, "DESC") {
                u
            } else {
                String::from_str("ASC")
            }
        },
        None => String::from_str("DESC"),
    }
}

/// Compiles a filter map, with distinct keys, against a schema. Flat fragments bind parameters
/// from `bind_index` on; `force_json_query` keeps the document-path test even
/// when no field adds to it.
pub fn generate_where(
    schema: &Schema,
    fields: &Vec<(String, String)>,
    bind_index: usize,
    force_json_query: bool,
) -> (r: Result<(String, String, String, Vec<String>), QueryError>)
    requires
        schema.wf(),
        distinct_keys(fields@),
    ensures
        where_view(r) == where_clause(schema.fields@, fields@, bind_index as nat, force_json_query),
{
    let ghost sf = schema.fields@;
    let mut jsonb_filters: Vec<String> = Vec::new();
    let mut other_filters: Vec<String> = Vec::new();
    let mut other_bindings: Vec<String> = Vec::new();
    let mut err: Option<QueryError> = None;
    let min_kind = FieldQuery::Min;
    let max_kind = FieldQuery::Max;
    let nested_kind = FieldQuery::Nested;
    let mut i: usize = 0;
    assert(views(jsonb_filters@) =~= Seq::<Seq<char>>::empty());
    assert(views(other_filters@) =~= Seq::<Seq<char>>::empty());
    assert(views(other_bindings@) =~= Seq::<Seq<char>>::empty());
    while i < fields.len()
        invariant
            i <= fields.len(),
            sf == schema.fields@,
            min_kind == FieldQuery::Min,
            max_kind == FieldQuery::Max,
            nested_kind == FieldQuery::Nested,
            match collect(sf, fields@.subrange(0, i as int), bind_index as nat) {
                Ok(acc) => {
                    &&& err is None
                    &&& views(jsonb_filters@) == acc.json
                    &&& views(other_filters@) == acc.flat
                    &&& views(other_bindings@) == acc.binds
                },
                Err(e) => err == Some(e),
            },
        decreases fields.len() - i,
    {
        assert(fields@.subrange(0, i + 1).drop_last() =~= fields@.subrange(0, i as int));
        if err.is_none() {
            let key = &fields[i].0;
            let value = fields[i].1.as_str();
            match resolve_field(&schema.fields, key) {
                None => {},
                Some(res) => {
                    let kind: &FieldQuery = match res.source {
                        Source::Declared(j) => &schema.fields[j].1.query,
                        Source::Min => &min_kind,
                        Source::Max => &max_kind,
                        Source::Nested => &nested_kind,
                    };
                    assert(*kind == source_kind(sf, res.source));
                    let outcome = if res.negated {
                        let ghost n_flat = other_filters@.len();
                        assert(field_effect(value@, res.name@, FieldQuery::Not(Box::new(*kind)), bind_index as nat, n_flat)
                            == field_effect(value@, res.name@, FieldQuery::Not(Box::new(*kind)), bind_index as nat, 0));
                        let o = generate_negated(value, &res.name, kind, &mut jsonb_filters, bind_index);
                        assert(views(other_filters@) =~= views(other_filters@) + Seq::<Seq<char>>::empty());
                        assert(views(other_bindings@) =~= views(other_bindings@) + Seq::<Seq<char>>::empty());
                        o
                    } else {
                        generate_one_field(
                            value,
                            (&res.name, kind),
                            &mut jsonb_filters,
                            &mut other_filters,
                            &mut other_bindings,
                            bind_index,
                        )
                    };
                    match outcome {
                        Ok(()) => {},
                        Err(e) => {
                            err = Some(e);
                        },
                    }
                },
            }
        }
        i += 1;
    }
    assert(fields@.subrange(0, fields.len() as int) =~= fields@);
    if let Some(e) = err {
        return Err(e);
    }
    let mut json_query = String::from_str("(");
    let body = join_strings(&jsonb_filters, " && ");
    json_query.append(body.as_str());
    json_query.append(")");
    let path = jsonb_filters.len() > 0 || force_json_query;
    let query = if path && other_filters.len() == 0 {
        String::from_str("WHERE object @@ CAST($1 AS JSONPATH)")
    } else if path {
        let mut q = String::from_str("WHERE object @@ CAST($1 AS JSONPATH) AND ");
        let flat = join_strings(&other_filters, " AND ");
        q.append(flat.as_str());
        q
    } else if other_filters.len() > 0 {
        let mut q = String::from_str("WHERE ");
        let flat = join_strings(&other_filters, " AND ");
        q.append(flat.as_str());
        q
    } else {
        String::new()
    };
    let dir = direction(fields);
    let mut order = String::from_str(" ORDER BY (object #> ($2)::text[]) ");
    order.append(dir.as_str());
    order.append(", doc_id NULLS LAST LIMIT $3 OFFSET $4");
    Ok((query, order, json_query, other_bindings))
}

} // verus!
