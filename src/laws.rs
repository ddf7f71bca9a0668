//! Properties of the compiler as a whole.
use vstd::prelude::*;
use crate::assemble::{collect, where_clause, where_view};
use crate::generate::no_effect;
use crate::plan::number_or;
use crate::resolve::resolve;
use crate::schema::{lookup, FieldSchema, QueryError};

verus! {

/// Compiling is a function of its inputs: any two results that
/// `generate_where` may give for the same schema, filter map, starting bind
/// index and force flag are the same, text for text.
pub proof fn lemma_compile_deterministic(
    fields: Seq<(String, FieldSchema)>,
    entries: Seq<(String, String)>,
    bind_index: nat,
    force: bool,
    r1: Result<(String, String, String, Vec<String>), QueryError>,
    r2: Result<(String, String, String, Vec<String>), QueryError>,
)
    requires
        where_view(r1) == where_clause(fields, entries, bind_index, force),
        where_view(r2) == where_clause(fields, entries, bind_index, force),
    ensures
        where_view(r1) == where_view(r2),
{
}

proof fn lemma_collect_nothing(fields: Seq<(String, FieldSchema)>, entries: Seq<(String, String)>, bind_index: nat)
    requires
        forall|i: int| 0 <= i < entries.len() ==> resolve(fields, #[trigger] entries[i].0@) is None,
    ensures
        collect(fields, entries, bind_index) == Ok::<_, QueryError>(no_effect()),
    decreases entries.len(),
{
    if entries.len() > 0 {
        let rest = entries.drop_last();
        assert forall|i: int| 0 <= i < rest.len() implies resolve(fields, #[trigger] rest[i].0@) is None by {
            assert(rest[i] == entries[i]);
        }
        lemma_collect_nothing(fields, rest, bind_index);
        assert(resolve(fields, entries[entries.len() - 1].0@) is None);
    }
}

/// A filter map none of whose keys resolves to a field gives an empty filter
/// clause, an empty path expression and no bindings, unless the document-path
/// test is forced.
pub proof fn lemma_unrecognized_keys_filter_nothing(
    fields: Seq<(String, FieldSchema)>,
    entries: Seq<(String, String)>,
    bind_index: nat,
)
    requires
        forall|i: int| 0 <= i < entries.len() ==> resolve(fields, #[trigger] entries[i].0@) is None,
    ensures
        where_clause(fields, entries, bind_index, false) matches Ok(w) && w.0.len() == 0
            && w.2 == "()"@ && w.3.len() == 0,
{
    lemma_collect_nothing(fields, entries, bind_index);
    reveal_strlit("()");
    reveal_strlit("(");
    reveal_strlit(")");
    let w = where_clause(fields, entries, bind_index, false);
    assert(w->Ok_0.2 =~= "()"@);
}

/// An absent `limit` reads as 100 and an absent `offset` as 0.
pub proof fn lemma_default_pagination(entries: Seq<(String, String)>)
    requires
        lookup(entries, "limit"@) is None,
        lookup(entries, "offset"@) is None,
    ensures
        number_or(entries, "limit"@, 100) == Ok::<i64, QueryError>(100),
        number_or(entries, "offset"@, 0) == Ok::<i64, QueryError>(0),
{
}

} // verus!
