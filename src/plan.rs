//! Complete statements for searching, counting and fetching by id.
use vstd::prelude::*;
use vstd::string::*;
use crate::assemble::{generate_where, where_clause};
use crate::schema::{distinct_keys, find_key, lemma_first_index_bounds, lookup, QueryError, Schema};
use crate::text::{parse_i64, parsed_i64, views};

verus! {

/// What a search runs: the statement, its document-path parameter (`$1`), its
/// sort path (`$2`), limit (`$3`), offset (`$4`), and the flat bindings from `$5`.
#[derive(Debug)]
pub struct SearchPlan {
    pub query: String,
    pub json_query: String,
    pub sort_by: String,
    pub limit: i64,
    pub offset: i64,
    pub bindings: Vec<String>,
}

/// What a count runs: the statement, its document-path parameter (`$1`), and
/// the flat bindings from `$2`.
#[derive(Debug)]
pub struct CountPlan {
    pub query: String,
    pub json_query: String,
    pub bindings: Vec<String>,
}

/// The integer under `key`, or `default` when the key is absent.
pub open spec fn number_or(entries: Seq<(String, String)>, key: Seq<char>, default: i64) -> Result<i64, QueryError> {
    match lookup(entries, key) {
        Some(s) => match parsed_i64(s@) {
            Some(n) => Ok(n),
            None => Err(QueryError::InvalidNumber),
        },
        None => Ok(default),
    }
}

pub open spec fn select_text(table: Seq<char>, filter: Seq<char>, order: Seq<char>) -> Seq<char> {
    "SELECT object FROM "@ + table + " "@ + filter + " "@ + order
}

pub open spec fn count_text(table: Seq<char>, filter: Seq<char>) -> Seq<char> {
    "SELECT COUNT(*) FROM "@ + table + " "@ + filter
}

pub open spec fn ids_text(table: Seq<char>) -> Seq<char> {
    "SELECT object FROM "@ + table + " WHERE doc_id = ANY($1)"@
}

pub open spec fn sort_key(schema: Schema, entries: Seq<(String, String)>) -> Seq<char> {
    match lookup(entries, "sortby"@) {
        Some(s) => s@,
        None => schema.default_order_by@,
    }
}

fn number_param(fields: &Vec<(String, String)>, key: &str, default: i64) -> (r: Result<i64, QueryError>)
    ensures
        r == number_or(fields@, key@, default),
{
    proof {
        lemma_first_index_bounds(fields@, key@);
    }
    match find_key(fields, key) {
        Some(i) => match parse_i64(fields[i].1.as_str()) {
            Some(n) => Ok(n),
            None => Err(QueryError::InvalidNumber),
        },
        None => Ok(default),
    }
}

/// The search statement and its parameters. `raw_query`, when given, replaces
/// the generated document-path expression and forces the document-path test.
pub fn search_plan(schema: &Schema, fields: &Vec<(String, String)>, raw_query: Option<String>) -> (r: Result<
    SearchPlan,
    QueryError,
>)
    requires
        schema.wf(),
        distinct_keys(fields@),
    ensures
        match where_clause(schema.fields@, fields@, 5, raw_query is Some) {
            Err(e) => r == Err::<SearchPlan, QueryError>(e),
            Ok(w) => match (number_or(fields@, "limit"@, 100), number_or(fields@, "offset"@, 0)) {
                (Ok(limit), Ok(offset)) => r matches Ok(p) && {
                    &&& p.query@ == select_text(schema.table@, w.0, w.1)
                    &&& p.json_query@ == (match raw_query {
                        Some(q) => q@,
                        None => w.2,
                    })
                    &&& p.sort_by@ == sort_key(*schema, fields@)
                    &&& p.limit == limit
                    &&& p.offset == offset
                    &&& views(p.bindings@) == w.3
                },
                (Err(e), _) => r == Err::<SearchPlan, QueryError>(e),
                (Ok(_), Err(e)) => r == Err::<SearchPlan, QueryError>(e),
            },
        },
{
    let (filter, order, generated, bindings) = match generate_where(schema, fields, 5, raw_query.is_some()) {
        Ok(w) => w,
        Err(e) => {
            return Err(e);
        },
    };
    let json_query = match raw_query {
        Some(q) => q,
        None => generated,
    };
    let mut query = String::from_str("SELECT object FROM ");
    query.append(schema.table.as_str());
    query.append(" ");
    query.append(filter.as_str());
    query.append(" ");
    query.append(order.as_str());
    proof {
        lemma_first_index_bounds(fields@, "sortby"@);
    }
    let sort_by = match find_key(fields, "sortby") {
        Some(i) => fields[i].1.clone(),
        None => schema.default_order_by.clone(),
    };
    let limit = match number_param(fields, "limit", 100) {
        Ok(n) => n,
        Err(e) => {
            return Err(e);
        },
    };
    let offset = match number_param(fields, "offset", 0) {
        Ok(n) => n,
        Err(e) => {
            return Err(e);
        },
    };
    Ok(SearchPlan { query, json_query, sort_by, limit, offset, bindings })
}

/// The count statement and its parameters; limit and offset play no part.
pub fn count_plan(schema: &Schema, fields: &Vec<(String, String)>) -> (r: Result<CountPlan, QueryError>)
    requires
        schema.wf(),
        distinct_keys(fields@),
    ensures
        match where_clause(schema.fields@, fields@, 2, false) {
            Err(e) => r == Err::<CountPlan, QueryError>(e),
            Ok(w) => r matches Ok(p) && {
                &&& p.query@ == count_text(schema.table@, w.0)
                &&& p.json_query@ == w.2
                &&& views(p.bindings@) == w.3
            },
        },
{
    let (filter, _order, json_query, bindings) = match generate_where(schema, fields, 2, false) {
        Ok(w) => w,
        Err(e) => {
            return Err(e);
        },
    };
    let mut query = String::from_str("SELECT COUNT(*) FROM ");
    query.append(schema.table.as_str());
    query.append(" ");
    query.append(filter.as_str());
    Ok(CountPlan { query, json_query, bindings })
}

/// The statement that fetches the documents whose ids are bound at `$1`.
pub fn ids_query(schema: &Schema) -> (r: String)
    ensures
        r@ == ids_text(schema.table@),
{
    let mut query = String::from_str("SELECT object FROM ");
    query.append(schema.table.as_str());
    query.append(" WHERE doc_id = ANY($1)");
    query
}

} // verus!
