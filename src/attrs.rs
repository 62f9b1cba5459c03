use vstd::prelude::*;
use crate::ast::{ErrorKind, Metadata, MetadataV, ParseError, err_at, error_at, strings_view};
use crate::literal::{decode_str_lit, expr_text_ok, is_expr_text, str_lit_value};
use crate::tokens::{
    Delim, Tok, group_inner, is_group, is_punct, render, render_range, text_is, tok_is_punct,
    tok_text,
};

verus! {

/// The single identifier that forms an attribute's path, if its path is one identifier.
pub open spec fn attr_word(inner: Seq<Tok>) -> Option<Seq<char>> {
    if inner.len() >= 1 && inner[0] is Ident && !(inner.len() >= 2 && is_punct(inner[1], ':')) {
        Some(inner[0]->Ident_0@)
    } else {
        None
    }
}

/// Whether an attribute has the form `name = value`.
pub open spec fn is_name_value(inner: Seq<Tok>) -> bool {
    inner.len() >= 3 && is_punct(inner[1], '=')
}

/// Source text of the value of a `name = value` attribute.
pub open spec fn nv_text(inner: Seq<Tok>) -> Seq<char> {
    render(inner.subrange(2, inner.len() as int))
}

/// Whether an attribute has the form `name = value` with an expression as its value.
pub open spec fn is_valued(inner: Seq<Tok>) -> bool {
    is_name_value(inner) && is_expr_text(nv_text(inner))
}

/// What a `doc = value` attribute adds to the documentation: the value of a string
/// literal, and nothing for any other value.
pub open spec fn doc_piece(inner: Seq<Tok>) -> Seq<char> {
    if inner.len() == 3 && inner[2] is Lit {
        match str_lit_value(inner[2]->Lit_0@) {
            Some(v) => v,
            None => Seq::empty(),
        }
    } else {
        Seq::empty()
    }
}

pub open spec fn empty_metadata() -> MetadataV {
    MetadataV { cfgs: Seq::empty(), doc: Seq::empty(), description: None, unit: None }
}

/// One step of the scan: the state after attribute group `g`.
pub open spec fn step(st: MetadataV, g: Tok) -> Result<MetadataV, ErrorKind> {
    let inner = group_inner(g);
    match attr_word(inner) {
        Some(w) => if w == "cfg"@ {
            Ok(MetadataV { cfgs: st.cfgs.push(tok_text(g)), ..st })
        } else if w == "doc"@ {
            if is_name_value(inner) {
                Ok(MetadataV { doc: st.doc + doc_piece(inner), ..st })
            } else {
                Err(ErrorKind::Syntax)
            }
        } else if w == "description"@ {
            if st.description is Some {
                Err(ErrorKind::DuplicateDescription)
            } else if !is_valued(inner) {
                Err(ErrorKind::Syntax)
            } else {
                Ok(MetadataV { description: Some(nv_text(inner)), ..st })
            }
        } else if w == "unit"@ {
            if st.unit is Some {
                Err(ErrorKind::DuplicateUnit)
            } else if !is_valued(inner) {
                Err(ErrorKind::Syntax)
            } else {
                Ok(MetadataV { unit: Some(nv_text(inner)), ..st })
            }
        } else {
            Err(ErrorKind::UnrecognizedAttribute)
        },
        None => Err(ErrorKind::UnrecognizedAttribute),
    }
}

/// Left-to-right scan of attribute groups; the first failure ends it, with the index of
/// the attribute where it failed. On success it also gives the index of the `unit`
/// attribute, or -1 where there is none.
pub open spec fn scan(gs: Seq<Tok>) -> Result<(MetadataV, int), (ErrorKind, int)>
    decreases gs.len(),
{
    if gs.len() == 0 {
        Ok((empty_metadata(), -1))
    } else {
        match scan(gs.drop_last()) {
            Ok((st, u)) => match step(st, gs.last()) {
                Ok(next) => Ok(
                    (next, if st.unit is None && next.unit is Some { gs.len() - 1 } else { u }),
                ),
                Err(e) => Err((e, gs.len() - 1)),
            },
            Err(x) => Err(x),
        }
    }
}

/// The metadata of a declaration with attribute groups `gs`, or the error found first
/// with the index of the attribute it concerns.
pub open spec fn validate(gs: Seq<Tok>) -> Result<MetadataV, (ErrorKind, int)> {
    match scan(gs) {
        Ok((st, u)) => if st.unit is Some && st.description is None {
            Err((ErrorKind::MissingDescriptionForUnit, u))
        } else {
            Ok(st)
        },
        Err(x) => Err(x),
    }
}

/// Number of outer attributes (`#` then a bracket group) from position `p` on.
pub open spec fn attr_count(ts: Seq<Tok>, p: int) -> nat
    decreases ts.len() - p,
{
    if 0 <= p && p + 1 < ts.len() && is_punct(ts[p], '#') && is_group(ts[p + 1], Delim::Bracket) {
        1 + attr_count(ts, p + 2)
    } else {
        0
    }
}

/// The bracket groups of the `n` attributes that start at `p`.
pub open spec fn attr_groups(ts: Seq<Tok>, p: int, n: nat) -> Seq<Tok> {
    Seq::new(n, |k: int| ts[p + 2 * k + 1])
}

pub open spec fn step_result(r: Result<Metadata, ErrorKind>) -> Result<MetadataV, ErrorKind> {
    match r {
        Ok(m) => Ok(m@),
        Err(e) => Err(e),
    }
}

pub open spec fn meta_result(r: Result<Metadata, (ErrorKind, usize)>) -> Result<MetadataV, (ErrorKind, int)> {
    match r {
        Ok(m) => Ok(m@),
        Err((e, k)) => Err((e, k as int)),
    }
}

proof fn lemma_attr_count_bound(ts: Seq<Tok>, p: int)
    requires
        0 <= p,
    ensures
        p + 2 * attr_count(ts, p) <= ts.len() || attr_count(ts, p) == 0,
    decreases ts.len() - p,
{
    if 0 <= p && p + 1 < ts.len() && is_punct(ts[p], '#') && is_group(ts[p + 1], Delim::Bracket) {
        lemma_attr_count_bound(ts, p + 2);
    }
}

/// Counts the outer attributes from position `p` on.
pub fn count_attrs(ts: &Vec<Tok>, p: usize) -> (n: usize)
    requires
        p <= ts@.len(),
    ensures
        n == attr_count(ts@, p as int),
        p + 2 * n <= ts@.len(),
{
    let mut i: usize = p;
    let mut n: usize = 0;
    while ts.len() - i > 1 && tok_is_punct(&ts[i], '#') && crate::tokens::tok_is_group(&ts[i + 1], Delim::Bracket)
        invariant
            p <= i <= ts@.len(),
            i == p + 2 * n,
            attr_count(ts@, p as int) == n + attr_count(ts@, i as int),
        decreases ts@.len() - i,
    {
        i = i + 2;
        n = n + 1;
    }
    n
}

/// The single identifier of an attribute's path, as in `attr_word`.
fn attr_word_exec(inner: &Vec<Tok>) -> (r: Option<&String>)
    ensures
        match r {
            Some(s) => attr_word(inner@) == Some(s@),
            None => attr_word(inner@) is None,
        },
{
    if inner.len() >= 1 {
        if inner.len() >= 2 && tok_is_punct(&inner[1], ':') {
            return None;
        }
        match &inner[0] {
            Tok::Ident(s) => Some(s),
            _ => None,
        }
    } else {
        None
    }
}

/// The value text of a `name = value` attribute whose value is an expression.
fn valued_text(inner: &Vec<Tok>) -> (r: Option<String>)
    ensures
        match r {
            Some(t) => is_valued(inner@) && t@ == nv_text(inner@),
            None => !is_valued(inner@),
        },
{
    if inner.len() >= 3 && tok_is_punct(&inner[1], '=') {
        let t = render_range(inner, 2, inner.len());
        if expr_text_ok(t.as_str()) {
            Some(t)
        } else {
            None
        }
    } else {
        None
    }
}

/// Performs one step of the attribute scan.
pub fn apply_attr(st: Metadata, g: &Tok) -> (r: Result<Metadata, ErrorKind>)
    ensures
        step_result(r) == step(st@, *g),
{
    let empty: Vec<Tok> = Vec::new();
    let (inner, text) = match g {
        Tok::Group(_, v, s) => (v, s.clone()),
        _ => (&empty, String::new()),
    };
    assert(inner@ == group_inner(*g));
    let word = attr_word_exec(inner);
    match word {
        None => Err(ErrorKind::UnrecognizedAttribute),
        Some(w) => {
            proof {
                reveal_strlit("cfg");
                reveal_strlit("doc");
                reveal_strlit("description");
                reveal_strlit("unit");
            }
            if text_is(w, "cfg") {
                let mut st = st;
                let ghost old_cfgs = st.cfgs@;
                st.cfgs.push(text);
                proof {
                    assert(group_inner(*g).len() >= 1);
                    assert(g is Group);
                    assert(strings_view(st.cfgs@) =~= strings_view(old_cfgs).push(tok_text(*g)));
                }
                Ok(st)
            } else if text_is(w, "doc") {
                if inner.len() >= 3 && tok_is_punct(&inner[1], '=') {
                    let mut st = st;
                    if inner.len() == 3 {
                        match &inner[2] {
                            Tok::Lit(s) => {
                                match decode_str_lit(s.as_str()) {
                                    Some(v) => st.doc.append(v.as_str()),
                                    None => {
                                        assert(st.doc@ =~= st.doc@ + Seq::<char>::empty());
                                    },
                                }
                            },
                            _ => {
                                assert(st.doc@ =~= st.doc@ + Seq::<char>::empty());
                            },
                        }
                    } else {
                        assert(st.doc@ =~= st.doc@ + Seq::<char>::empty());
                    }
                    Ok(st)
                } else {
                    Err(ErrorKind::Syntax)
                }
            } else if text_is(w, "description") {
                if st.description.is_some() {
                    Err(ErrorKind::DuplicateDescription)
                } else {
                    match valued_text(inner) {
                        Some(t) => {
                            let mut st = st;
                            st.description = Some(t);
                            Ok(st)
                        },
                        None => Err(ErrorKind::Syntax),
                    }
                }
            } else if text_is(w, "unit") {
                if st.unit.is_some() {
                    Err(ErrorKind::DuplicateUnit)
                } else {
                    match valued_text(inner) {
                        Some(t) => {
                            let mut st = st;
                            st.unit = Some(t);
                            Ok(st)
                        },
                        None => Err(ErrorKind::Syntax),
                    }
                }
            } else {
                Err(ErrorKind::UnrecognizedAttribute)
            }
        },
    }
}

/// Validates the `n` attributes that start at position `p`: scans them left to right,
/// fails at a second `description` or `unit` or at an unknown attribute, and at the end
/// fails where a unit stands without a description. An error gives the index (among the
/// `n`) of the attribute it concerns.
pub fn validate_attrs_at(ts: &Vec<Tok>, p: usize, n: usize) -> (r: Result<Metadata, (ErrorKind, usize)>)
    requires
        p + 2 * n <= ts@.len(),
    ensures
        meta_result(r) == validate(attr_groups(ts@, p as int, n as nat)),
        r matches Err((_, k)) ==> k < n,
{
    let mut st = Metadata { cfgs: Vec::new(), doc: String::new(), description: None, unit: None };
    assert(strings_view(st.cfgs@) =~= Seq::<Seq<char>>::empty());
    let mut k: usize = 0;
    let mut unit_at: usize = 0;
    while k < n
        invariant
            p + 2 * n <= ts@.len(),
            k <= n,
            scan(attr_groups(ts@, p as int, k as nat)) matches Ok((m, u)) && m == st@ && (
            st@.unit is Some ==> u == unit_at) && (st@.unit is None ==> u == -1),
            st@.unit is Some ==> unit_at < k,
        decreases n - k,
    {
        let ghost gs = attr_groups(ts@, p as int, (k + 1) as nat);
        assert(gs.drop_last() =~= attr_groups(ts@, p as int, k as nat));
        let len = ts.len();
        assert(p + 2 * k + 1 < len);
        let at: usize = p + 2 * k + 1;
        let had_unit = st.unit.is_some();
        match apply_attr(st, &ts[at]) {
            Ok(next) => {
                if !had_unit && next.unit.is_some() {
                    unit_at = k;
                }
                st = next;
            },
            Err(e) => {
                proof {
                    lemma_scan_err_sticks(ts@, p as int, (k + 1) as nat, n as nat);
                }
                return Err((e, k));
            },
        }
        k = k + 1;
    }
    assert(attr_groups(ts@, p as int, n as nat) =~= attr_groups(ts@, p as int, k as nat));
    if st.unit.is_some() && st.description.is_none() {
        Err((ErrorKind::MissingDescriptionForUnit, unit_at))
    } else {
        Ok(st)
    }
}

/// Once the scan fails, it fails with the same error on every longer list.
proof fn lemma_scan_err_sticks(ts: Seq<Tok>, p: int, k: nat, n: nat)
    requires
        k <= n,
        scan(attr_groups(ts, p, k)) is Err,
    ensures
        scan(attr_groups(ts, p, n)) == scan(attr_groups(ts, p, k)),
    decreases n - k,
{
    if k < n {
        assert(attr_groups(ts, p, k + 1).drop_last() =~= attr_groups(ts, p, k));
        lemma_scan_err_sticks(ts, p, k + 1, n);
    }
}

/// Validates a list of attributes (`#` then a bracket group, each). An error is located
/// at the bracket group of the attribute it concerns; a list with any other token is a
/// syntax error at the first such token.
pub fn validate_attrs(attrs: &Vec<Tok>) -> (r: Result<Metadata, ParseError>)
    ensures
        ({
            let n = attr_count(attrs@, 0);
            if 2 * n != attrs@.len() {
                r matches Err(e) && e@ == err_at(ErrorKind::Syntax, 2 * n as int)
            } else {
                match validate(attr_groups(attrs@, 0, n)) {
                    Ok(m) => r matches Ok(v) && v@ == m,
                    Err((kind, k)) => r matches Err(e) && e@ == err_at(kind, 2 * k + 1),
                }
            }
        }),
{
    let n = count_attrs(attrs, 0);
    let len = attrs.len();
    if n * 2 != len {
        return Err(error_at(ErrorKind::Syntax, n * 2));
    }
    match validate_attrs_at(attrs, 0, n) {
        Ok(m) => Ok(m),
        Err((kind, k)) => {
            assert(2 * k + 1 < len);
            Err(error_at(kind, 2 * k + 1))
        },
    }
}

} // verus!
