//! Splitting a filter value on the `and_` / `or_` separators and combining
//! the translated atoms left to right.
use vstd::prelude::*;
use vstd::string::*;
use crate::atoms::{atom_fragment, is_atomic, text_result, translate_atom};
use crate::schema::{FieldQuery, QueryError};
use crate::text::{drop_last_char, join, join_strings, push_char, text_is, views};

verus! {

/// Where a left-to-right reading of a value stands: the fragments and operators
/// so far, the complete pieces of the pending atom, the piece being read, and
/// the first error.
pub struct Scan {
    pub tokens: Seq<Seq<char>>,
    pub curr: Seq<char>,
    pub piece: Seq<char>,
    pub err: Option<QueryError>,
}

/// The pending atom without the underscore that ended its last piece.
pub open spec fn strip_underscore(s: Seq<char>) -> Seq<char> {
    if s.len() > 0 && s.last() == '_' {
        s.drop_last()
    } else {
        s
    }
}

/// Closes the pending atom at a separator piece `p` with operator `op`.
pub open spec fn emit(st: Scan, p: Seq<char>, kind: FieldQuery, name: Seq<char>, op: Seq<char>) -> Scan {
    match atom_fragment(kind, name, strip_underscore(st.curr)) {
        Ok(f) => Scan { tokens: st.tokens.push(f).push(op), curr: Seq::empty(), piece: Seq::empty(), err: None },
        Err(e) => Scan { tokens: st.tokens, curr: st.curr, piece: p, err: Some(e) },
    }
}

/// Reads one more character.
pub open spec fn step(st: Scan, c: char, kind: FieldQuery, name: Seq<char>) -> Scan {
    let p = st.piece.push(c);
    if st.err is Some {
        st
    } else if c != '_' {
        Scan { tokens: st.tokens, curr: st.curr, piece: p, err: None }
    } else if p == "and_"@ {
        emit(st, p, kind, name, "&&"@)
    } else if p == "or_"@ {
        emit(st, p, kind, name, "||"@)
    } else {
        Scan { tokens: st.tokens, curr: st.curr + p, piece: Seq::empty(), err: None }
    }
}

pub open spec fn scan(v: Seq<char>, kind: FieldQuery, name: Seq<char>) -> Scan
    decreases v.len(),
{
    if v.len() == 0 {
        Scan { tokens: Seq::empty(), curr: Seq::empty(), piece: Seq::empty(), err: None }
    } else {
        step(scan(v.drop_last(), kind, name), v.last(), kind, name)
    }
}

/// The parenthesised expression for a whole value: its atoms translated and
/// chained with `&&` / `||` in the order they come, no precedence.
pub open spec fn combined(v: Seq<char>, kind: FieldQuery, name: Seq<char>) -> Result<Seq<char>, QueryError> {
    let st = scan(v, kind, name);
    let rest = st.curr + st.piece;
    if st.err is Some {
        Err(st.err->0)
    } else if rest.len() > 0 {
        match atom_fragment(kind, name, rest) {
            Ok(f) => Ok("("@ + join(st.tokens.push(f), " "@) + ")"@),
            Err(e) => Err(e),
        }
    } else {
        Ok("("@ + join(st.tokens, " "@) + ")"@)
    }
}

fn strip_last_underscore(s: &String) -> (r: String)
    ensures
        r@ == strip_underscore(s@),
{
    let n = s.as_str().unicode_len();
    if n == 0 || s.as_str().get_char(n - 1) != '_' {
        s.clone()
    } else {
        drop_last_char(s)
    }
}

/// Splits `q` on the `and_` / `or_` pieces and translates each atom for a
/// field of the given kind and name.
pub fn parse_query_list(q: &str, kind: &FieldQuery, name: &str) -> (r: Result<String, QueryError>)
    requires
        is_atomic(*kind),
    ensures
        text_result(r) == combined(q@, *kind, name@),
{
    let ghost k = *kind;
    let n = q.unicode_len();
    let mut tokens: Vec<String> = Vec::new();
    let mut curr = String::new();
    let mut piece = String::new();
    let mut err: Option<QueryError> = None;
    let mut i: usize = 0;
    assert(views(tokens@) =~= Seq::<Seq<char>>::empty());
    while i < n
        invariant
            n == q@.len(),
            i <= n,
            is_atomic(k),
            k == *kind,
            scan(q@.subrange(0, i as int), k, name@) == (Scan {
                tokens: views(tokens@),
                curr: curr@,
                piece: piece@,
                err,
            }),
        decreases n - i,
    {
        let c = q.get_char(i);
        proof {
            assert(q@.subrange(0, i + 1).drop_last() =~= q@.subrange(0, i as int));
        }
        if err.is_none() {
            push_char(&mut piece, c);
            if c == '_' {
                let is_and = text_is(&piece, "and_");
                let is_or = text_is(&piece, "or_");
                if is_and || is_or {
                    let atom = strip_last_underscore(&curr);
                    match translate_atom(kind, name, &atom) {
                        Ok(f) => {
                            let op = if is_and {
                                String::from_str("&&")
                            } else {
                                String::from_str("||")
                            };
                            let ghost old_tokens = tokens@;
                            tokens.push(f);
                            tokens.push(op);
                            proof {
                                assert(views(tokens@) =~= views(old_tokens).push(f@).push(op@));
                            }
                            curr = String::new();
                            piece = String::new();
                        },
                        Err(e) => {
                            err = Some(e);
                        },
                    }
                } else {
                    curr.append(piece.as_str());
                    piece = String::new();
                }
            }
        }
        i += 1;
    }
    assert(q@.subrange(0, n as int) =~= q@);
    if let Some(e) = err {
        return Err(e);
    }
    curr.append(piece.as_str());
    if curr.as_str().unicode_len() > 0 {
        match translate_atom(kind, name, &curr) {
            Ok(f) => {
                let ghost old_tokens = tokens@;
                tokens.push(f);
                assert(views(tokens@) =~= views(old_tokens).push(f@));
            },
            Err(e) => {
                return Err(e);
            },
        }
    }
    let mut r = String::from_str("(");
    let body = join_strings(&tokens, " ");
    r.append(body.as_str());
    r.append(")");
    Ok(r)
}

} // verus!
