use vstd::prelude::*;

verus! {

broadcast use vstd::string::group_string_axioms;

/// The delimiter of a token group.
#[derive(Clone, Copy, Debug, PartialEq, Eq, Structural)]
pub enum Delim {
    Paren,
    Brace,
    Bracket,
    Invisible,
}

/// One token tree of the input, as the host tokenizer hands it over.
///
/// A group keeps its contents (one level down) and the source text of the whole group,
/// delimiters included, which is how it is rendered back.
#[derive(Debug)]
pub enum Tok {
    Ident(String),
    /// A punctuation character, and whether it is joined to the next one (as in `::`).
    Punct(char, bool),
    /// A literal, as written in the source.
    Lit(String),
    Group(Delim, Vec<Tok>, String),
}

/// The text of one token.
pub open spec fn tok_text(t: Tok) -> Seq<char> {
    match t {
        Tok::Ident(s) => s@,
        Tok::Punct(c, _) => seq![c],
        Tok::Lit(s) => s@,
        Tok::Group(_, _, s) => s@,
    }
}

/// What follows a token when rendered: nothing after a joined punctuation, else a space.
pub open spec fn tok_sep(t: Tok) -> Seq<char> {
    match t {
        Tok::Punct(_, true) => Seq::empty(),
        _ => seq![' '],
    }
}

/// Source text of a token sequence.
pub open spec fn render(ts: Seq<Tok>) -> Seq<char>
    decreases ts.len(),
{
    if ts.len() == 0 {
        Seq::empty()
    } else {
        render(ts.drop_last()) + tok_text(ts.last()) + tok_sep(ts.last())
    }
}

pub open spec fn is_word(t: Tok, w: Seq<char>) -> bool {
    t matches Tok::Ident(s) && s@ == w
}

pub open spec fn is_punct(t: Tok, c: char) -> bool {
    t matches Tok::Punct(d, _) && d == c
}

pub open spec fn is_group(t: Tok, d: Delim) -> bool {
    t matches Tok::Group(e, _, _) && e == d
}

/// The contents of a group token (empty for any other token).
pub open spec fn group_inner(t: Tok) -> Seq<Tok> {
    match t {
        Tok::Group(_, v, _) => v@,
        _ => Seq::empty(),
    }
}

/// Relies on `String::push`: the character is appended.
#[verifier::external_body]
pub(crate) fn push_char(s: &mut String, c: char)
    ensures
        final(s)@ == old(s)@.push(c),
{
    s.push(c)
}

/// Whether `s` spells `w`.
pub fn text_is(s: &String, w: &str) -> (r: bool)
    ensures
        r == (s@ == w@),
{
    let t = w.to_string();
    *s == t
}

/// Whether a token is the identifier `w`.
pub fn tok_is_word(t: &Tok, w: &str) -> (r: bool)
    ensures
        r == is_word(*t, w@),
{
    match t {
        Tok::Ident(s) => text_is(s, w),
        _ => false,
    }
}

/// Whether a token is the punctuation character `c`.
pub fn tok_is_punct(t: &Tok, c: char) -> (r: bool)
    ensures
        r == is_punct(*t, c),
{
    match t {
        Tok::Punct(d, _) => *d == c,
        _ => false,
    }
}

/// Whether a token is a group with delimiter `d`.
pub fn tok_is_group(t: &Tok, d: Delim) -> (r: bool)
    ensures
        r == is_group(*t, d),
{
    match t {
        Tok::Group(e, _, _) => *e == d,
        _ => false,
    }
}

/// Appends the rendering of `ts[start..end]` to `out`.
pub fn render_into(ts: &Vec<Tok>, start: usize, end: usize, out: &mut String)
    requires
        start <= end <= ts@.len(),
    ensures
        final(out)@ == old(out)@ + render(ts@.subrange(start as int, end as int)),
{
    let mut i: usize = start;
    while i < end
        invariant
            start <= i <= end <= ts@.len(),
            out@ == old(out)@ + render(ts@.subrange(start as int, i as int)),
        decreases end - i,
    {
        let ghost before = out@;
        match &ts[i] {
            Tok::Ident(s) => out.append(s.as_str()),
            Tok::Punct(c, _) => push_char(out, *c),
            Tok::Lit(s) => out.append(s.as_str()),
            Tok::Group(_, _, s) => out.append(s.as_str()),
        }
        match &ts[i] {
            Tok::Punct(_, true) => {},
            _ => push_char(out, ' '),
        }
        proof {
            let sub = ts@.subrange(start as int, i + 1);
            assert(sub.drop_last() =~= ts@.subrange(start as int, i as int));
            assert(sub.last() == ts@[i as int]);
        }
        i = i + 1;
    }
}

/// Source text of `ts[start..end]`.
pub fn render_range(ts: &Vec<Tok>, start: usize, end: usize) -> (r: String)
    requires
        start <= end <= ts@.len(),
    ensures
        r@ == render(ts@.subrange(start as int, end as int)),
{
    let mut out = String::new();
    render_into(ts, start, end, &mut out);
    out
}

} // verus!
