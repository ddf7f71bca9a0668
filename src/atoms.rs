//! Translating one atom of a filter value into a document-path fragment.
use vstd::prelude::*;
use vstd::string::*;
use crate::schema::{find_key, lookup, FieldQuery, QueryError};
use crate::text::{
    bool_text, escaped, int_text, parse_bool, parse_i64, parsed_bool, parsed_i64, push_escaped,
    push_int, text_is, to_upper, upper_text,
};

verus! {

/// `$.` followed by the field's path.
pub open spec fn path(name: Seq<char>) -> Seq<char> {
    "$."@ + name
}

pub open spec fn exists_frag(name: Seq<char>) -> Seq<char> {
    "(exists("@ + path(name) + "))"@
}

pub open spec fn notexists_frag(name: Seq<char>) -> Seq<char> {
    "(!exists("@ + path(name) + "))"@
}

/// `($.name <op> value)`.
pub open spec fn cmp_frag(name: Seq<char>, op: Seq<char>, value: Seq<char>) -> Seq<char> {
    "("@ + path(name) + op + value + ")"@
}

pub open spec fn quoted(s: Seq<char>) -> Seq<char> {
    "\""@ + s + "\""@
}

/// Equality with the atom as a string, quotes and backslashes escaped.
pub open spec fn str_frag(name: Seq<char>, atom: Seq<char>) -> Seq<char> {
    cmp_frag(name, " == "@, quoted(escaped(atom)))
}

/// Equality with a number, either stored as a number or as a string.
pub open spec fn dual_frag(name: Seq<char>, n: i64) -> Seq<char> {
    "("@ + cmp_frag(name, " == "@, int_text(n as int)) + " || "@ + cmp_frag(
        name,
        " == "@,
        quoted(int_text(n as int)),
    ) + ")"@
}

/// The existence test that an atom names, if it names one.
pub open spec fn keyword_frag(name: Seq<char>, atom: Seq<char>) -> Option<Seq<char>> {
    if atom == "exists"@ {
        Some(exists_frag(name))
    } else if atom == "notexists"@ {
        Some(notexists_frag(name))
    } else {
        None
    }
}

/// The typed alternative of a loosely typed value: a number, else a boolean,
/// else an existence keyword.
pub open spec fn loose_alt(name: Seq<char>, atom: Seq<char>) -> Option<Seq<char>> {
    match parsed_i64(atom) {
        Some(n) => Some(cmp_frag(name, " == "@, int_text(n as int))),
        None => match parsed_bool(atom) {
            Some(b) => Some(cmp_frag(name, " == "@, bool_text(b))),
            None => keyword_frag(name, atom),
        },
    }
}

/// Any typed alternative, or-ed with string equality.
pub open spec fn loose_frag(name: Seq<char>, atom: Seq<char>) -> Seq<char> {
    match loose_alt(name, atom) {
        Some(f) => "("@ + f + " || "@ + str_frag(name, atom) + ")"@,
        None => "("@ + str_frag(name, atom) + ")"@,
    }
}

/// Whether a kind is translated atom by atom.
pub open spec fn is_atomic(kind: FieldQuery) -> bool {
    !(kind is Fulltext) && !(kind is Not)
}

/// The fragment for one atom of a field of the given kind.
pub open spec fn atom_fragment(kind: FieldQuery, name: Seq<char>, atom: Seq<char>) -> Result<
    Seq<char>,
    QueryError,
> {
    match kind {
        FieldQuery::Range { aliases, .. } => match keyword_frag(name, atom) {
            Some(f) => Ok(f),
            None => match lookup(aliases@, upper_text(atom)) {
                Some(n) => Ok(cmp_frag(name, " == "@, int_text(n as int))),
                None => match parsed_i64(atom) {
                    Some(n) => Ok(cmp_frag(name, " == "@, int_text(n as int))),
                    None => Err(QueryError::InvalidNumber),
                },
            },
        },
        FieldQuery::Min => match parsed_i64(atom) {
            Some(n) => Ok(cmp_frag(name, " > "@, int_text(n as int))),
            None => Err(QueryError::InvalidNumber),
        },
        FieldQuery::Max => match parsed_i64(atom) {
            Some(n) => Ok(cmp_frag(name, " < "@, int_text(n as int))),
            None => Err(QueryError::InvalidNumber),
        },
        FieldQuery::Bool => match keyword_frag(name, atom) {
            Some(f) => Ok(f),
            None => match parsed_bool(atom) {
                Some(b) => Ok(cmp_frag(name, " == "@, bool_text(b))),
                None => Err(QueryError::InvalidBool),
            },
        },
        FieldQuery::NumericTag { aliases } => match keyword_frag(name, atom) {
            Some(f) => Ok(f),
            None => match lookup(aliases@, upper_text(atom)) {
                Some(n) => Ok(dual_frag(name, n)),
                None => match parsed_i64(atom) {
                    Some(n) => Ok(dual_frag(name, n)),
                    None => Err(QueryError::InvalidNumber),
                },
            },
        },
        FieldQuery::StringTag => Ok(str_frag(name, atom)),
        _ => Ok(loose_frag(name, atom)),
    }
}

pub open spec fn text_result(r: Result<String, QueryError>) -> Result<Seq<char>, QueryError> {
    match r {
        Ok(s) => Ok(s@),
        Err(e) => Err(e),
    }
}

fn push_path(out: &mut String, name: &str)
    ensures
        final(out)@ == old(out)@ + path(name@),
{
    out.append("$.");
    out.append(name);
    assert(final(out)@ =~= old(out)@ + path(name@));
}

/// `($.name <op> ` with the value and closing parenthesis still to come.
fn open_cmp(out: &mut String, name: &str, op: &str)
    ensures
        final(out)@ == old(out)@ + "("@ + path(name@) + op@,
{
    out.append("(");
    push_path(out, name);
    out.append(op);
    assert(final(out)@ =~= old(out)@ + "("@ + path(name@) + op@);
}

fn int_cmp(name: &str, op: &str, n: i64) -> (r: String)
    ensures
        r@ == cmp_frag(name@, op@, int_text(n as int)),
{
    let mut r = String::new();
    open_cmp(&mut r, name, op);
    push_int(&mut r, n);
    r.append(")");
    assert(r@ =~= cmp_frag(name@, op@, int_text(n as int)));
    r
}

fn bool_cmp(name: &str, b: bool) -> (r: String)
    ensures
        r@ == cmp_frag(name@, " == "@, bool_text(b)),
{
    let mut r = String::new();
    open_cmp(&mut r, name, " == ");
    if b {
        r.append("true");
    } else {
        r.append("false");
    }
    r.append(")");
    assert(r@ =~= cmp_frag(name@, " == "@, bool_text(b)));
    r
}

fn str_cmp(out: &mut String, name: &str, atom: &str)
    ensures
        final(out)@ == old(out)@ + str_frag(name@, atom@),
{
    open_cmp(out, name, " == ");
    out.append("\"");
    push_escaped(out, atom);
    out.append("\"");
    out.append(")");
    assert(final(out)@ =~= old(out)@ + str_frag(name@, atom@));
}

fn dual_cmp(name: &str, n: i64) -> (r: String)
    ensures
        r@ == dual_frag(name@, n),
{
    let mut r = String::new();
    r.append("(");
    open_cmp(&mut r, name, " == ");
    push_int(&mut r, n);
    r.append(")");
    r.append(" || ");
    open_cmp(&mut r, name, " == ");
    r.append("\"");
    push_int(&mut r, n);
    r.append("\"");
    r.append(")");
    r.append(")");
    assert(r@ =~= dual_frag(name@, n));
    r
}

fn keyword(name: &str, atom: &String) -> (r: Option<String>)
    ensures
        match r {
            Some(s) => keyword_frag(name@, atom@) == Some(s@),
            None => keyword_frag(name@, atom@) is None,
        },
{
    if text_is(atom, "exists") {
        let mut r = String::new();
        r.append("(exists(");
        push_path(&mut r, name);
        r.append("))");
        assert(r@ =~= exists_frag(name@));
        Some(r)
    } else if text_is(atom, "notexists") {
        let mut r = String::new();
        r.append("(!exists(");
        push_path(&mut r, name);
        r.append("))");
        assert(r@ =~= notexists_frag(name@));
        Some(r)
    } else {
        None
    }
}

fn loose(name: &str, atom: &String) -> (r: String)
    ensures
        r@ == loose_frag(name@, atom@),
{
    let alt = match parse_i64(atom.as_str()) {
        Some(n) => Some(int_cmp(name, " == ", n)),
        None => match parse_bool(atom) {
            Some(b) => Some(bool_cmp(name, b)),
            None => keyword(name, atom),
        },
    };
    let mut r = String::new();
    r.append("(");
    match alt {
        Some(f) => {
            r.append(f.as_str());
            r.append(" || ");
        },
        None => {},
    }
    str_cmp(&mut r, name, atom.as_str());
    r.append(")");
    assert(r@ =~= loose_frag(name@, atom@));
    r
}

fn alias_code(aliases: &Vec<(String, i64)>, atom: &String) -> (r: Option<i64>)
    ensures
        r == lookup(aliases@, upper_text(atom@)),
{
    let key = to_upper(atom.as_str());
    match find_key(aliases, key.as_str()) {
        Some(i) => Some(aliases[i].1),
        None => None,
    }
}

/// Translates one atom for a field of an atom-by-atom kind.
pub fn translate_atom(kind: &FieldQuery, name: &str, atom: &String) -> (r: Result<
    String,
    QueryError,
>)
    requires
        is_atomic(*kind),
    ensures
        text_result(r) == atom_fragment(*kind, name@, atom@),
{
    match kind {
        FieldQuery::Range { aliases, .. } => match keyword(name, atom) {
            Some(f) => Ok(f),
            None => match alias_code(aliases, atom) {
                Some(n) => Ok(int_cmp(name, " == ", n)),
                None => match parse_i64(atom.as_str()) {
                    Some(n) => Ok(int_cmp(name, " == ", n)),
                    None => Err(QueryError::InvalidNumber),
                },
            },
        },
        FieldQuery::Min => match parse_i64(atom.as_str()) {
            Some(n) => Ok(int_cmp(name, " > ", n)),
            None => Err(QueryError::InvalidNumber),
        },
        FieldQuery::Max => match parse_i64(atom.as_str()) {
            Some(n) => Ok(int_cmp(name, " < ", n)),
            None => Err(QueryError::InvalidNumber),
        },
        FieldQuery::Bool => match keyword(name, atom) {
            Some(f) => Ok(f),
            None => match parse_bool(atom) {
                Some(b) => Ok(bool_cmp(name, b)),
                None => Err(QueryError::InvalidBool),
            },
        },
        FieldQuery::NumericTag { aliases } => match keyword(name, atom) {
            Some(f) => Ok(f),
            None => match alias_code(aliases, atom) {
                Some(n) => Ok(dual_cmp(name, n)),
                None => match parse_i64(atom.as_str()) {
                    Some(n) => Ok(dual_cmp(name, n)),
                    None => Err(QueryError::InvalidNumber),
                },
            },
        },
        FieldQuery::StringTag => {
            let mut r = String::new();
            str_cmp(&mut r, name, atom.as_str());
            assert(r@ =~= str_frag(name@, atom@));
            Ok(r)
        },
        _ => Ok(loose(name, atom)),
    }
}

} // verus!
