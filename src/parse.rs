use vstd::prelude::*;
use crate::ast::{
    Declaration, DeclarationV, ErrorKind, Kind, Module, ModuleV, Param, ParamV, ParseError,
    ParseErrorV, decls_view, err_at, error_at, nest, nest_error, params_view, strings_view,
};
use crate::literal::{
    ident_text_ok, is_ident_text, is_type_text, is_vis_text, type_text_ok, vis_text_ok,
};
use crate::attrs::{attr_count, attr_groups, count_attrs, validate, validate_attrs_at};
use crate::tokens::{
    Delim, Tok, group_inner, is_group, is_punct, is_word, render, render_range,
    tok_is_group, tok_is_punct, tok_is_word, tok_text,
};

verus! {

/// The text of an identifier token (empty for any other token).
pub open spec fn ident_text(t: Tok) -> Seq<char> {
    match t {
        Tok::Ident(s) => s@,
        _ => Seq::empty(),
    }
}

/// The end of a parameter's type that starts at `j`: the first `,` outside angle
/// brackets, or the end of the list. `depth` counts the open angle brackets; the `>` of
/// an arrow `->` closes none.
pub open spec fn type_end(ts: Seq<Tok>, j: int, depth: nat) -> int
    decreases ts.len() - j,
{
    if j < 0 || j >= ts.len() {
        j
    } else if is_punct(ts[j], ',') && depth == 0 {
        j
    } else if is_punct(ts[j], '<') {
        type_end(ts, j + 1, depth + 1)
    } else if is_punct(ts[j], '>') && !(j > 0 && ts[j - 1] == Tok::Punct('-', true)) {
        type_end(ts, j + 1, if depth > 0 { (depth - 1) as nat } else { 0 })
    } else {
        type_end(ts, j + 1, depth)
    }
}

/// The parameters listed in `ts` from position `i` on: `name: type` separated by commas,
/// with an optional trailing comma. Each type must parse as a type.
pub open spec fn parse_params(ts: Seq<Tok>, i: int) -> Result<Seq<ParamV>, ParseErrorV>
    decreases ts.len() - i,
{
    if i < 0 || i >= ts.len() {
        Ok(Seq::empty())
    } else if !(ts[i] is Ident && is_ident_text(ident_text(ts[i]))) {
        Err(err_at(ErrorKind::Syntax, i))
    } else if !(i + 1 < ts.len() && is_punct(ts[i + 1], ':')) {
        Err(err_at(ErrorKind::Syntax, i + 1))
    } else {
        let e = type_end(ts, i + 2, 0);
        if e <= i + 2 {
            Err(err_at(ErrorKind::Syntax, i + 2))
        } else {
            let prm = ParamV { name: ident_text(ts[i]), ty: render(ts.subrange(i + 2, e)) };
            if !is_type_text(prm.ty) {
                Err(err_at(ErrorKind::Syntax, i + 2))
            } else if e >= ts.len() {
                Ok(seq![prm])
            } else {
                match parse_params(ts, e + 1) {
                    Ok(rest) => Ok(seq![prm] + rest),
                    Err(x) => Err(x),
                }
            }
        }
    }
}

/// The kind named by a return type: exactly one of the three bare identifiers.
pub open spec fn kind_of(ty: Seq<Tok>) -> Option<Kind> {
    if ty.len() == 1 && is_word(ty[0], "Counter"@) {
        Some(Kind::Counter)
    } else if ty.len() == 1 && is_word(ty[0], "Gauge"@) {
        Some(Kind::Gauge)
    } else if ty.len() == 1 && is_word(ty[0], "Histogram"@) {
        Some(Kind::Histogram)
    } else {
        None
    }
}

/// Position of the first `;` from `r` on, or the end.
pub open spec fn semi_pos(ts: Seq<Tok>, r: int) -> int
    decreases ts.len() - r,
{
    if r < 0 || r >= ts.len() {
        r
    } else if is_punct(ts[r], ';') {
        r
    } else {
        semi_pos(ts, r + 1)
    }
}

/// The end of a visibility marker that starts at `p`: `pub`, possibly with a
/// parenthesized scope, or nothing.
pub open spec fn vis_end(ts: Seq<Tok>, p: int) -> int {
    if 0 <= p < ts.len() && is_word(ts[p], "pub"@) {
        if p + 1 < ts.len() && is_group(ts[p + 1], Delim::Paren) {
            p + 2
        } else {
            p + 1
        }
    } else {
        p
    }
}

/// The declaration that starts at `p`, and the position after its `;`.
///
/// The shape is: attributes, visibility, `fn`, name, parenthesized parameters, `->`, a
/// kind, `;`. The attributes are validated first, then the shape is read in order; an
/// error is located at the first token that does not fit.
pub open spec fn parse_decl(ts: Seq<Tok>, p: int) -> Result<(DeclarationV, int), ParseErrorV> {
    let n = attr_count(ts, p);
    let q = p + 2 * n;
    let v = vis_end(ts, q);
    match validate(attr_groups(ts, p, n)) {
        Err((kind, k)) => Err(err_at(kind, p + 2 * k + 1)),
        Ok(meta) => if v > q && !is_vis_text(render(ts.subrange(q, v))) {
            Err(err_at(ErrorKind::Syntax, q))
        } else if !(v < ts.len() && is_word(ts[v], "fn"@)) {
            Err(err_at(ErrorKind::Syntax, v))
        } else if !(v + 1 < ts.len() && ts[v + 1] is Ident && is_ident_text(ident_text(ts[v + 1]))) {
            Err(err_at(ErrorKind::Syntax, v + 1))
        } else if !(v + 2 < ts.len() && is_group(ts[v + 2], Delim::Paren)) {
            Err(err_at(ErrorKind::Syntax, v + 2))
        } else {
            match parse_params(group_inner(ts[v + 2]), 0) {
                Err(x) => Err(nest(v + 2, x)),
                Ok(params) => match parse_return(ts, v + 3) {
                    Err(x) => Err(x),
                    Ok((k, end)) => Ok(
                        (
                            DeclarationV {
                                metadata: meta,
                                vis: render(ts.subrange(q, v)),
                                name: ident_text(ts[v + 1]),
                                params,
                                kind: k,
                            },
                            end,
                        ),
                    ),
                },
            }
        },
    }
}

/// What follows the parameters, from position `r` on: `->`, a type that names a kind, and
/// `;`. Gives the kind and the position after the `;`.
pub open spec fn parse_return(ts: Seq<Tok>, r: int) -> Result<(Kind, int), ParseErrorV> {
    if !(r < ts.len() && ts[r] == Tok::Punct('-', true)) {
        Err(err_at(ErrorKind::Syntax, r))
    } else if !(r + 1 < ts.len() && is_punct(ts[r + 1], '>')) {
        Err(err_at(ErrorKind::Syntax, r + 1))
    } else {
        let e = semi_pos(ts, r + 2);
        let ty = ts.subrange(r + 2, e);
        if ty.len() == 0 || !is_type_text(render(ty)) {
            Err(err_at(ErrorKind::Syntax, r + 2))
        } else {
            match kind_of(ty) {
                None => Err(err_at(ErrorKind::UnknownKind, r + 2)),
                Some(k) => if e >= ts.len() {
                    Err(err_at(ErrorKind::Syntax, e))
                } else {
                    Ok((k, e + 1))
                },
            }
        }
    }
}

/// The declarations in `ts` from position `p` on, in order.
pub open spec fn parse_decls(ts: Seq<Tok>, p: int) -> Result<Seq<DeclarationV>, ParseErrorV>
    decreases ts.len() - p,
    via parse_decls_decreases
{
    if p < 0 || p >= ts.len() {
        Ok(Seq::empty())
    } else {
        match parse_decl(ts, p) {
            Err(e) => Err(e),
            Ok((d, next)) => match parse_decls(ts, next) {
                Ok(ds) => Ok(seq![d] + ds),
                Err(e) => Err(e),
            },
        }
    }
}

proof fn lemma_semi_pos(ts: Seq<Tok>, r: int)
    requires
        0 <= r <= ts.len(),
    ensures
        r <= semi_pos(ts, r) <= ts.len(),
        semi_pos(ts, r) < ts.len() ==> is_punct(ts[semi_pos(ts, r)], ';'),
    decreases ts.len() - r,
{
    if r < ts.len() && !is_punct(ts[r], ';') {
        lemma_semi_pos(ts, r + 1);
    }
}

/// A declaration that parses ends after the position where it starts.
proof fn lemma_parse_decl_advances(ts: Seq<Tok>, p: int)
    requires
        0 <= p,
    ensures
        parse_decl(ts, p) matches Ok((_, next)) ==> next > p,
{
    if let Ok((d, next)) = parse_decl(ts, p) {
        let n = attr_count(ts, p);
        let v = vis_end(ts, p + 2 * n);
        lemma_semi_pos(ts, v + 5);
    }
}

#[via_fn]
proof fn parse_decls_decreases(ts: Seq<Tok>, p: int) {
    if 0 <= p < ts.len() {
        lemma_parse_decl_advances(ts, p);
    }
}

/// The block that `ts` holds: outer attributes, visibility, `mod`, name, and a braced body
/// of declarations, and nothing after it.
pub open spec fn parse_module(ts: Seq<Tok>) -> Result<ModuleV, ParseErrorV> {
    let n = attr_count(ts, 0);
    let q = 2 * n as int;
    let v = vis_end(ts, q);
    if v > q && !is_vis_text(render(ts.subrange(q, v))) {
        Err(err_at(ErrorKind::Syntax, q))
    } else if !(v < ts.len() && is_word(ts[v], "mod"@)) {
        Err(err_at(ErrorKind::Syntax, v))
    } else if !(v + 1 < ts.len() && ts[v + 1] is Ident && is_ident_text(ident_text(ts[v + 1]))) {
        Err(err_at(ErrorKind::Syntax, v + 1))
    } else if !(v + 2 < ts.len() && is_group(ts[v + 2], Delim::Brace)) {
        Err(err_at(ErrorKind::Syntax, v + 2))
    } else {
        match parse_decls(group_inner(ts[v + 2]), 0) {
            Err(x) => Err(nest(v + 2, x)),
            Ok(ds) => if v + 3 != ts.len() {
                Err(err_at(ErrorKind::Syntax, v + 3))
            } else {
                Ok(
                    ModuleV {
                        attrs: Seq::new(n, |k: int| tok_text(ts[2 * k + 1])),
                        vis: render(ts.subrange(q, v)),
                        name: ident_text(ts[v + 1]),
                        decls: ds,
                    },
                )
            },
        }
    }
}

pub open spec fn params_result(r: Result<Vec<Param>, ParseError>) -> Result<Seq<ParamV>, ParseErrorV> {
    match r {
        Ok(v) => Ok(params_view(v@)),
        Err(e) => Err(e@),
    }
}

pub open spec fn decl_result(r: Result<(Declaration, usize), ParseError>) -> Result<(DeclarationV, int), ParseErrorV> {
    match r {
        Ok((d, e)) => Ok((d@, e as int)),
        Err(x) => Err(x@),
    }
}

pub open spec fn module_result(r: Result<Module, ParseError>) -> Result<ModuleV, ParseErrorV> {
    match r {
        Ok(m) => Ok(m@),
        Err(x) => Err(x@),
    }
}

/// Whether a token is an identifier that is not a keyword.
fn ident_ok(t: &Tok) -> (r: bool)
    ensures
        r == (t is Ident && is_ident_text(ident_text(*t))),
{
    match t {
        Tok::Ident(s) => ident_text_ok(s.as_str()),
        _ => false,
    }
}

fn ident_string(t: &Tok) -> (r: String)
    ensures
        r@ == ident_text(*t),
{
    match t {
        Tok::Ident(s) => s.clone(),
        _ => String::new(),
    }
}

/// Finds the end of a parameter's type that starts at `j0`, as `type_end` says.
pub fn find_type_end(ts: &Vec<Tok>, j0: usize) -> (e: usize)
    requires
        j0 <= ts@.len(),
    ensures
        e as int == type_end(ts@, j0 as int, 0),
        j0 <= e <= ts@.len(),
{
    let mut j: usize = j0;
    let mut depth: usize = 0;
    while j < ts.len()
        invariant
            j0 <= j <= ts@.len(),
            depth <= j,
            type_end(ts@, j0 as int, 0) == type_end(ts@, j as int, depth as nat),
        decreases ts@.len() - j,
    {
        if tok_is_punct(&ts[j], ',') && depth == 0 {
            return j;
        } else if tok_is_punct(&ts[j], '<') {
            depth = depth + 1;
        } else if tok_is_punct(&ts[j], '>') {
            let after_dash = j > 0 && match &ts[j - 1] {
                Tok::Punct(c, joint) => *c == '-' && *joint,
                _ => false,
            };
            if !after_dash {
                depth = if depth > 0 { depth - 1 } else { 0 };
            }
        }
        j = j + 1;
    }
    j
}

/// Parses a parameter list (the contents of the parentheses), as `parse_params` says.
pub fn parse_param_list(ts: &Vec<Tok>) -> (r: Result<Vec<Param>, ParseError>)
    ensures
        params_result(r) == parse_params(ts@, 0),
{
    let mut acc: Vec<Param> = Vec::new();
    let mut i: usize = 0;
    assert(params_view(acc@) =~= Seq::<ParamV>::empty());
    while i < ts.len()
        invariant
            i <= ts@.len(),
            parse_params(ts@, 0) == match parse_params(ts@, i as int) {
                Ok(rest) => Ok(params_view(acc@) + rest),
                Err(e) => Err(e),
            },
        decreases ts@.len() - i,
    {
        if !ident_ok(&ts[i]) {
            return Err(error_at(ErrorKind::Syntax, i));
        }
        if !(ts.len() - i > 1 && tok_is_punct(&ts[i + 1], ':')) {
            return Err(error_at(ErrorKind::Syntax, i + 1));
        }
        let e = find_type_end(ts, i + 2);
        if e <= i + 2 {
            return Err(error_at(ErrorKind::Syntax, i + 2));
        }
        let prm = Param { name: ident_string(&ts[i]), ty: render_range(ts, i + 2, e) };
        if !type_text_ok(prm.ty.as_str()) {
            return Err(error_at(ErrorKind::Syntax, i + 2));
        }
        let ghost before = params_view(acc@);
        acc.push(prm);
        assert(params_view(acc@) =~= before.push(prm@));
        if e >= ts.len() {
            assert(params_view(acc@) =~= before + seq![prm@]);
            return Ok(acc);
        }
        proof {
            match parse_params(ts@, e + 1) {
                Ok(rest) => {
                    assert(before + (seq![prm@] + rest) =~= params_view(acc@) + rest);
                },
                Err(_) => {},
            }
        }
        i = e + 1;
    }
    assert(params_view(acc@) + Seq::<ParamV>::empty() =~= params_view(acc@));
    Ok(acc)
}

/// The kind that the return type `ts[start..end]` names, as `kind_of` says: only the bare
/// identifiers `Counter`, `Gauge` and `Histogram` are kinds.
pub fn return_kind(ts: &Vec<Tok>, start: usize, end: usize) -> (r: Option<Kind>)
    requires
        start <= end <= ts@.len(),
    ensures
        r == kind_of(ts@.subrange(start as int, end as int)),
{
    let ghost ty = ts@.subrange(start as int, end as int);
    if end - start != 1 {
        return None;
    }
    assert(ty[0] == ts@[start as int]);
    proof {
        reveal_strlit("Counter");
        reveal_strlit("Gauge");
        reveal_strlit("Histogram");
    }
    if tok_is_word(&ts[start], "Counter") {
        Some(Kind::Counter)
    } else if tok_is_word(&ts[start], "Gauge") {
        Some(Kind::Gauge)
    } else if tok_is_word(&ts[start], "Histogram") {
        Some(Kind::Histogram)
    } else {
        None
    }
}

/// Parses what follows the parameters, as `parse_return` says.
pub fn parse_return_part(ts: &Vec<Tok>, r: usize) -> (res: Result<(Kind, usize), ParseError>)
    requires
        r <= ts@.len(),
    ensures
        match res {
            Ok((k, e)) => parse_return(ts@, r as int) == Ok::<(Kind, int), ParseErrorV>((k, e as int)),
            Err(x) => parse_return(ts@, r as int) == Err::<(Kind, int), ParseErrorV>(x@),
        },
{
    let arrow = r < ts.len() && match &ts[r] {
        Tok::Punct(c, joint) => *c == '-' && *joint,
        _ => false,
    };
    if !arrow {
        return Err(error_at(ErrorKind::Syntax, r));
    }
    if !(ts.len() - r > 1 && tok_is_punct(&ts[r + 1], '>')) {
        return Err(error_at(ErrorKind::Syntax, r + 1));
    }
    let mut e: usize = r + 2;
    while e < ts.len() && !tok_is_punct(&ts[e], ';')
        invariant
            r + 2 <= e <= ts@.len(),
            semi_pos(ts@, r + 2) == semi_pos(ts@, e as int),
        decreases ts@.len() - e,
    {
        e = e + 1;
    }
    if e == r + 2 {
        return Err(error_at(ErrorKind::Syntax, r + 2));
    }
    let ty_text = render_range(ts, r + 2, e);
    if !type_text_ok(ty_text.as_str()) {
        return Err(error_at(ErrorKind::Syntax, r + 2));
    }
    let kind = match return_kind(ts, r + 2, e) {
        Some(k) => k,
        None => return Err(error_at(ErrorKind::UnknownKind, r + 2)),
    };
    if e >= ts.len() {
        return Err(error_at(ErrorKind::Syntax, e));
    }
    Ok((kind, e + 1))
}

/// Parses the declaration that starts at `p`, as `parse_decl` says.
pub fn parse_declaration(ts: &Vec<Tok>, p: usize) -> (r: Result<(Declaration, usize), ParseError>)
    requires
        p <= ts@.len(),
    ensures
        decl_result(r) == parse_decl(ts@, p as int),
{
    let n = count_attrs(ts, p);
    let len = ts.len();
    assert(p + 2 * n <= len);
    let q = p + 2 * n;
    let mut v = q;
    proof {
        reveal_strlit("pub");
        reveal_strlit("fn");
    }
    if v < ts.len() && tok_is_word(&ts[v], "pub") {
        if ts.len() - v > 1 && tok_is_group(&ts[v + 1], Delim::Paren) {
            v = v + 2;
        } else {
            v = v + 1;
        }
    }
    assert(v == vis_end(ts@, q as int));
    let metadata = match validate_attrs_at(ts, p, n) {
        Err((kind, k)) => {
            assert(p + 2 * k + 1 < len);
            return Err(error_at(kind, p + 2 * k + 1));
        },
        Ok(m) => m,
    };
    if v > q {
        let vis = render_range(ts, q, v);
        if !vis_text_ok(vis.as_str()) {
            return Err(error_at(ErrorKind::Syntax, q));
        }
    }
    if !(v < ts.len() && tok_is_word(&ts[v], "fn")) {
        return Err(error_at(ErrorKind::Syntax, v));
    }
    if !(ts.len() - v > 1 && ident_ok(&ts[v + 1])) {
        return Err(error_at(ErrorKind::Syntax, v + 1));
    }
    if !(ts.len() - v > 2 && tok_is_group(&ts[v + 2], Delim::Paren)) {
        return Err(error_at(ErrorKind::Syntax, v + 2));
    }
    let params = match &ts[v + 2] {
        Tok::Group(_, inner, _) => match parse_param_list(inner) {
            Err(e) => return Err(nest_error(v + 2, e)),
            Ok(ps) => ps,
        },
        _ => return Err(error_at(ErrorKind::Syntax, v + 2)),
    };
    let (kind, end) = match parse_return_part(ts, v + 3) {
        Err(x) => return Err(x),
        Ok(x) => x,
    };
    let decl = Declaration {
        metadata,
        vis: render_range(ts, q, v),
        name: ident_string(&ts[v + 1]),
        params,
        kind,
    };
    Ok((decl, end))
}

/// Parses the declarations of a block body, in order, as `parse_decls` says.
pub fn parse_declarations(ts: &Vec<Tok>) -> (r: Result<Vec<Declaration>, ParseError>)
    ensures
        match r {
            Ok(ds) => parse_decls(ts@, 0) == Ok::<Seq<DeclarationV>, ParseErrorV>(decls_view(ds@)),
            Err(e) => parse_decls(ts@, 0) == Err::<Seq<DeclarationV>, ParseErrorV>(e@),
        },
{
    let mut acc: Vec<Declaration> = Vec::new();
    let mut p: usize = 0;
    assert(decls_view(acc@) =~= Seq::<DeclarationV>::empty());
    while p < ts.len()
        invariant
            p <= ts@.len(),
            parse_decls(ts@, 0) == match parse_decls(ts@, p as int) {
                Ok(rest) => Ok(decls_view(acc@) + rest),
                Err(e) => Err(e),
            },
        decreases ts@.len() - p,
    {
        let (d, next) = match parse_declaration(ts, p) {
            Err(e) => return Err(e),
            Ok(x) => x,
        };
        proof {
            lemma_parse_decl_advances(ts@, p as int);
        }
        let ghost before = decls_view(acc@);
        let ghost dv = d@;
        acc.push(d);
        assert(decls_view(acc@) =~= before.push(dv));
        proof {
            match parse_decls(ts@, next as int) {
                Ok(rest) => {
                    assert(before + (seq![dv] + rest) =~= decls_view(acc@) + rest);
                },
                Err(_) => {},
            }
        }
        p = next;
    }
    assert(decls_view(acc@) + Seq::<DeclarationV>::empty() =~= decls_view(acc@));
    Ok(acc)
}

/// Parses a whole block, as `parse_module` says: the first failure found is returned.
pub fn parse_block(ts: &Vec<Tok>) -> (r: Result<Module, ParseError>)
    ensures
        module_result(r) == parse_module(ts@),
{
    let n = count_attrs(ts, 0);
    let len = ts.len();
    assert(2 * n <= len);
    let q = 2 * n;
    let mut v = q;
    proof {
        reveal_strlit("pub");
        reveal_strlit("mod");
    }
    if v < ts.len() && tok_is_word(&ts[v], "pub") {
        if ts.len() - v > 1 && tok_is_group(&ts[v + 1], Delim::Paren) {
            v = v + 2;
        } else {
            v = v + 1;
        }
    }
    assert(v == vis_end(ts@, q as int));
    if v > q {
        let vis = render_range(ts, q, v);
        if !vis_text_ok(vis.as_str()) {
            return Err(error_at(ErrorKind::Syntax, q));
        }
    }
    if !(v < ts.len() && tok_is_word(&ts[v], "mod")) {
        return Err(error_at(ErrorKind::Syntax, v));
    }
    if !(ts.len() - v > 1 && ident_ok(&ts[v + 1])) {
        return Err(error_at(ErrorKind::Syntax, v + 1));
    }
    if !(ts.len() - v > 2 && tok_is_group(&ts[v + 2], Delim::Brace)) {
        return Err(error_at(ErrorKind::Syntax, v + 2));
    }
    let decls = match &ts[v + 2] {
        Tok::Group(_, body, _) => match parse_declarations(body) {
            Err(e) => return Err(nest_error(v + 2, e)),
            Ok(ds) => ds,
        },
        _ => return Err(error_at(ErrorKind::Syntax, v + 2)),
    };
    if ts.len() - v != 3 {
        return Err(error_at(ErrorKind::Syntax, v + 3));
    }
    let mut attrs: Vec<String> = Vec::new();
    let mut k: usize = 0;
    while k < n
        invariant
            k <= n,
            2 * n <= ts@.len(),
            strings_view(attrs@) =~= Seq::new(k as nat, |i: int| tok_text(ts@[2 * i + 1])),
        decreases n - k,
    {
        let len = ts.len();
        assert(2 * k + 1 < len);
        let at: usize = 2 * k + 1;
        let text = match &ts[at] {
            Tok::Ident(s) => s.clone(),
            Tok::Punct(c, _) => {
                let mut t = String::new();
                crate::tokens::push_char(&mut t, *c);
                t
            },
            Tok::Lit(s) => s.clone(),
            Tok::Group(_, _, s) => s.clone(),
        };
        assert(text@ =~= tok_text(ts@[at as int]));
        let ghost before = strings_view(attrs@);
        let ghost tv = text@;
        attrs.push(text);
        assert(strings_view(attrs@) =~= before.push(tv));
        k = k + 1;
    }
    Ok(Module { attrs, vis: render_range(ts, q, v), name: ident_string(&ts[v + 1]), decls })
}

} // verus!
