use compass::assemble::generate_where;
use compass::combine::parse_query_list;
use compass::convert::{convert_value, converters, has_rule, Converted, MAX_MILLIS, MIN_MILLIS};
use compass::generate::generate_one_field;
use compass::plan::{count_plan, ids_query, search_plan};
use compass::schema::{
    has_distinct_keys,
    ConvertFrom, ConvertTo, ConverterSchema, FieldQuery, FieldSchema, FulltextSyntax, QueryError,
    Schema,
};

fn s(x: &str) -> String {
    x.to_string()
}

fn field(query: FieldQuery) -> FieldSchema {
    FieldSchema { query, converter: None }
}

fn films() -> Schema {
    Schema {
        table: s("films"),
        fields: vec![
            (s("season"), field(FieldQuery::Range { min: s("season_min"), max: s("season_max"), aliases: vec![] })),
            (s("year"), field(FieldQuery::Range { min: s("year_min"), max: s("year_max"), aliases: vec![] })),
            (s("rating"), field(FieldQuery::NumericTag { aliases: vec![(s("PG13"), 13)] })),
            (s("genre"), field(FieldQuery::StringTag)),
            (s("subbed"), field(FieldQuery::Bool)),
            (s("tag"), field(FieldQuery::AmbiguousTag)),
            (s("meta"), field(FieldQuery::Nested)),
            (
                s("body"),
                field(FieldQuery::Fulltext { lang: s("english"), syntax: FulltextSyntax::Websearch, target: None }),
            ),
            (
                s("created_at"),
                FieldSchema {
                    query: FieldQuery::Min,
                    converter: Some(ConverterSchema { from: ConvertFrom::DateTimeString, to: ConvertTo::Timestamp }),
                },
            ),
        ],
        default_order_by: s("created_at"),
    }
}

fn one(v: &str, name: &str, kind: FieldQuery) -> Result<Vec<String>, QueryError> {
    let mut json = Vec::new();
    let mut flat = Vec::new();
    let mut binds = Vec::new();
    let n = s(name);
    generate_one_field(v, (&n, &kind), &mut json, &mut flat, &mut binds, 5).map(|_| json)
}

fn filters(entries: &[(&str, &str)]) -> Vec<(String, String)> {
    entries.iter().map(|(k, v)| (s(k), s(v))).collect()
}

#[test]
fn range_conjunction_of_atoms() {
    let r = one("16_and_18", "season", FieldQuery::Range { min: s("a"), max: s("b"), aliases: vec![] });
    assert_eq!(r, Ok(vec![s("(($.season == 16) && ($.season == 18))")]));
}

#[test]
fn range_exists_keyword() {
    let r = one("exists", "season", FieldQuery::Range { min: s("a"), max: s("b"), aliases: vec![] });
    assert_eq!(r, Ok(vec![s("((exists($.season)))")]));
    let r = one("notexists", "season", FieldQuery::Range { min: s("a"), max: s("b"), aliases: vec![] });
    assert_eq!(r, Ok(vec![s("((!exists($.season)))")]));
}

#[test]
fn range_disjunction_and_alias() {
    let kind = FieldQuery::Range { min: s("a"), max: s("b"), aliases: vec![(s("NEW"), 7)] };
    assert_eq!(one("1_or_new", "season", kind), Ok(vec![s("(($.season == 1) || ($.season == 7))")]));
}

#[test]
fn numeric_tag_alias_any_case() {
    for v in ["pg13", "PG13", "Pg13"] {
        let r = one(v, "rating", FieldQuery::NumericTag { aliases: vec![(s("PG13"), 13)] });
        assert_eq!(r, Ok(vec![s("((($.rating == 13) || ($.rating == \"13\")))")]));
    }
}

#[test]
fn numeric_tag_number_and_error() {
    let r = one("-4", "rating", FieldQuery::NumericTag { aliases: vec![] });
    assert_eq!(r, Ok(vec![s("((($.rating == -4) || ($.rating == \"-4\")))")]));
    let r = one("r", "rating", FieldQuery::NumericTag { aliases: vec![] });
    assert_eq!(r, Err(QueryError::InvalidNumber));
}

#[test]
fn negated_string_tag() {
    let w = generate_where(&films(), &filters(&[("genre!", "comedy")]), 5, false).unwrap();
    assert_eq!(w.0, "WHERE object @@ CAST($1 AS JSONPATH)");
    assert_eq!(w.2, "(!((($.genre == \"comedy\"))))");
    assert!(w.3.is_empty());
}

#[test]
fn range_min_alias_resolves_to_min() {
    let w = generate_where(&films(), &filters(&[("year_min", "2000")]), 5, false).unwrap();
    assert_eq!(w.2, "((($.year > 2000)))");
    let w = generate_where(&films(), &filters(&[("year_max", "2010")]), 5, false).unwrap();
    assert_eq!(w.2, "((($.year < 2010)))");
}

#[test]
fn min_max_reject_text() {
    assert_eq!(one("x", "year", FieldQuery::Min), Err(QueryError::InvalidNumber));
    assert_eq!(one("exists", "year", FieldQuery::Max), Err(QueryError::InvalidNumber));
}

#[test]
fn bool_values_and_error() {
    assert_eq!(one("true", "subbed", FieldQuery::Bool), Ok(vec![s("(($.subbed == true))")]));
    assert_eq!(one("maybe", "subbed", FieldQuery::Bool), Err(QueryError::InvalidBool));
}

#[test]
fn ambiguous_tag_alternatives() {
    assert_eq!(one("5", "tag", FieldQuery::AmbiguousTag), Ok(vec![s("((($.tag == 5) || ($.tag == \"5\")))")]));
    assert_eq!(
        one("false", "tag", FieldQuery::AmbiguousTag),
        Ok(vec![s("((($.tag == false) || ($.tag == \"false\")))")])
    );
    assert_eq!(one("red", "tag", FieldQuery::AmbiguousTag), Ok(vec![s("((($.tag == \"red\")))")]));
}

#[test]
fn string_atoms_are_escaped() {
    assert_eq!(one("a\"b\\c", "genre", FieldQuery::StringTag), Ok(vec![s("(($.genre == \"a\\\"b\\\\c\"))")]));
}

#[test]
fn nested_path_key() {
    let w = generate_where(&films(), &filters(&[("meta.color", "red")]), 5, false).unwrap();
    assert_eq!(w.2, "(((($.meta.color == \"red\"))))");
}

#[test]
fn fulltext_is_flat_and_bound() {
    let w = generate_where(&films(), &filters(&[("body", "big cat")]), 5, false).unwrap();
    assert_eq!(w.0, "WHERE to_tsvector('english',object->>'body') @@ websearch_to_tsquery('english',$5)");
    assert_eq!(w.2, "()");
    assert_eq!(w.3, vec![s("big cat")]);
}

#[test]
fn fulltext_and_path_combined() {
    let w = generate_where(&films(), &filters(&[("genre", "drama"), ("body", "x")]), 2, false).unwrap();
    assert_eq!(
        w.0,
        "WHERE object @@ CAST($1 AS JSONPATH) AND to_tsvector('english',object->>'body') @@ websearch_to_tsquery('english',$2)"
    );
}

#[test]
fn negated_fulltext_is_dropped() {
    let w = generate_where(&films(), &filters(&[("body!", "x")]), 5, false).unwrap();
    assert_eq!(w.0, "");
    assert!(w.3.is_empty());
}

#[test]
fn separators_need_whole_pieces() {
    assert_eq!(
        parse_query_list("xand_y", &FieldQuery::StringTag, "g"),
        Ok(s("(($.g == \"xand_y\"))"))
    );
    assert_eq!(parse_query_list("", &FieldQuery::StringTag, "g"), Ok(s("()")));
}

#[test]
fn sort_order_defaults() {
    let tail = ", doc_id NULLS LAST LIMIT $3 OFFSET $4";
    let w = generate_where(&films(), &filters(&[]), 5, false).unwrap();
    assert_eq!(w.1, format!(" ORDER BY (object #> ($2)::text[]) DESC{}", tail));
    let w = generate_where(&films(), &filters(&[("sortorder", "asc")]), 5, false).unwrap();
    assert_eq!(w.1, format!(" ORDER BY (object #> ($2)::text[]) ASC{}", tail));
    let w = generate_where(&films(), &filters(&[("sortorder", "sideways")]), 5, false).unwrap();
    assert_eq!(w.1, format!(" ORDER BY (object #> ($2)::text[]) ASC{}", tail));
}

#[test]
fn pagination_defaults() {
    let p = search_plan(&films(), &filters(&[("genre", "drama")]), None).unwrap();
    assert_eq!(p.limit, 100);
    assert_eq!(p.offset, 0);
    assert_eq!(p.sort_by, "created_at");
    assert_eq!(
        p.query,
        "SELECT object FROM films WHERE object @@ CAST($1 AS JSONPATH)  ORDER BY (object #> ($2)::text[]) DESC, doc_id NULLS LAST LIMIT $3 OFFSET $4"
    );
    let p = search_plan(&films(), &filters(&[("limit", "10"), ("offset", "20"), ("sortby", "year")]), None).unwrap();
    assert_eq!((p.limit, p.offset), (10, 20));
    assert_eq!(p.sort_by, "year");
}

#[test]
fn pagination_must_be_numeric() {
    let e = search_plan(&films(), &filters(&[("limit", "ten")]), None);
    assert_eq!(e.err(), Some(QueryError::InvalidNumber));
}

#[test]
fn raw_query_overrides_path() {
    let p = search_plan(&films(), &filters(&[]), Some(s("$.a == 1"))).unwrap();
    assert_eq!(p.json_query, "$.a == 1");
    assert!(p.query.contains("WHERE object @@ CAST($1 AS JSONPATH)"));
}

#[test]
fn compile_is_deterministic() {
    let f = filters(&[("season", "1_or_2"), ("genre!", "x"), ("body", "y")]);
    let a = generate_where(&films(), &f, 5, true);
    let b = generate_where(&films(), &f, 5, true);
    assert_eq!(a, b);
}

#[test]
fn unrecognized_keys_give_empty_clause() {
    let f = filters(&[("unknown", "1"), ("limit", "3"), ("sortby", "x")]);
    let w = generate_where(&films(), &f, 5, false).unwrap();
    assert_eq!(w.0, "");
    assert_eq!(w.2, "()");
    assert!(w.3.is_empty());
    let w = generate_where(&films(), &f, 5, true).unwrap();
    assert_eq!(w.0, "WHERE object @@ CAST($1 AS JSONPATH)");
}

#[test]
fn count_and_ids_statements() {
    let c = count_plan(&films(), &filters(&[("season", "3")])).unwrap();
    assert_eq!(c.query, "SELECT COUNT(*) FROM films WHERE object @@ CAST($1 AS JSONPATH)");
    assert_eq!(c.json_query, "((($.season == 3)))");
    assert_eq!(ids_query(&films()), "SELECT object FROM films WHERE doc_id = ANY($1)");
}

#[test]
fn timestamp_converts_to_rfc3339() {
    let c = ConverterSchema { from: ConvertFrom::DateTimeString, to: ConvertTo::Timestamp };
    match convert_value(c, 1700000000) {
        Converted::Text(t) => assert_eq!(t, "2023-11-14T22:13:20.000Z"),
        other => panic!("{:?}", other),
    }
}

#[test]
fn millis_convert_and_others_unchanged() {
    let c = ConverterSchema { from: ConvertFrom::DateTimeString, to: ConvertTo::TimestampMillis };
    match convert_value(c, 1700000000123) {
        Converted::Text(t) => assert_eq!(t, "2023-11-14T22:13:20.123Z"),
        other => panic!("{:?}", other),
    }
    let c = ConverterSchema { from: ConvertFrom::Timestamp, to: ConvertTo::DateTimeString };
    assert!(matches!(convert_value(c, 5), Converted::Unchanged));
    let c = ConverterSchema { from: ConvertFrom::DateTimeString, to: ConvertTo::Timestamp };
    assert!(matches!(convert_value(c, i64::MAX), Converted::OutOfRange));
}

#[test]
fn converters_of_schema() {
    let c = converters(&films());
    assert_eq!(c.len(), 1);
    assert_eq!(c[0].0, "created_at");
}

#[test]
fn conversion_range_bounds() {
    let ms = ConverterSchema { from: ConvertFrom::DateTimeString, to: ConvertTo::TimestampMillis };
    match convert_value(ms, MAX_MILLIS) {
        Converted::Text(t) => assert_eq!(t, "+262142-12-31T23:59:59.999Z"),
        other => panic!("{:?}", other),
    }
    match convert_value(ms, MIN_MILLIS) {
        Converted::Text(t) => assert_eq!(t, "-262143-01-01T00:00:00.000Z"),
        other => panic!("{:?}", other),
    }
    assert!(matches!(convert_value(ms, MAX_MILLIS + 1), Converted::OutOfRange));
    assert!(matches!(convert_value(ms, MIN_MILLIS - 1), Converted::OutOfRange));
    let secs = ConverterSchema { from: ConvertFrom::DateTimeString, to: ConvertTo::Timestamp };
    match convert_value(secs, 0) {
        Converted::Text(t) => assert_eq!(t, "1970-01-01T00:00:00.000Z"),
        other => panic!("{:?}", other),
    }
}

#[test]
fn converter_rules() {
    assert!(has_rule(ConverterSchema { from: ConvertFrom::DateTimeString, to: ConvertTo::Timestamp }));
    assert!(has_rule(ConverterSchema { from: ConvertFrom::DateTimeString, to: ConvertTo::TimestampMillis }));
    assert!(!has_rule(ConverterSchema { from: ConvertFrom::Timestamp, to: ConvertTo::TimestampMillis }));
}

#[test]
fn distinct_keys_check() {
    assert!(has_distinct_keys(&films().fields));
    assert!(has_distinct_keys(&filters(&[("a", "1"), ("b", "2")])));
    assert!(!has_distinct_keys(&filters(&[("a", "1"), ("b", "2"), ("a", "3")])));
    assert!(has_distinct_keys(&filters(&[])));
}
