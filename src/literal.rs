use vstd::prelude::*;
use vstd::string::StrSliceExecFns;
use crate::tokens::push_char;

verus! {

/// The value of the string literal written as `text`, or none where `text` is not a
/// string literal.
pub uninterp spec fn str_lit_value(text: Seq<char>) -> Option<Seq<char>>;

/// Whether `text` parses as a Rust type.
pub uninterp spec fn is_type_text(text: Seq<char>) -> bool;

/// Whether `text` parses as a Rust expression.
pub uninterp spec fn is_expr_text(text: Seq<char>) -> bool;

/// Whether `text` parses as an identifier (a keyword does not).
pub uninterp spec fn is_ident_text(text: Seq<char>) -> bool;

/// Whether `text` parses as a visibility marker.
pub uninterp spec fn is_vis_text(text: Seq<char>) -> bool;

/// Relies on `syn::parse_str::<syn::Ident>`: whether the whole text is one identifier
/// that is not a keyword. `proc_macro2::fallback::force` first makes proc-macro2 lex with
/// its own lexer in every process, so the verdict depends on the text alone.
#[verifier::external_body]
pub(crate) fn ident_text_ok(text: &str) -> (r: bool)
    ensures
        r == is_ident_text(text@),
{
    proc_macro2::fallback::force();
    syn::parse_str::<syn::Ident>(text).is_ok()
}

/// Relies on `syn::parse_str::<syn::Visibility>`: whether the whole text is one
/// visibility marker. `proc_macro2::fallback::force` first makes proc-macro2 lex with its
/// own lexer in every process, so the verdict depends on the text alone.
#[verifier::external_body]
pub(crate) fn vis_text_ok(text: &str) -> (r: bool)
    ensures
        r == is_vis_text(text@),
{
    proc_macro2::fallback::force();
    syn::parse_str::<syn::Visibility>(text).is_ok()
}

/// Relies on `syn::parse_str::<syn::LitStr>` and `LitStr::value`: reads a string literal's
/// value. `proc_macro2::fallback::force` first makes proc-macro2 lex with its own lexer in
/// every process, so the outcome depends on the text alone.
#[verifier::external_body]
pub(crate) fn decode_str_lit(text: &str) -> (r: Option<String>)
    ensures
        match r {
            Some(v) => str_lit_value(text@) == Some(v@),
            None => str_lit_value(text@) is None,
        },
{
    proc_macro2::fallback::force();
    match syn::parse_str::<syn::LitStr>(text) {
        Ok(lit) => Some(lit.value()),
        Err(_) => None,
    }
}

/// Relies on `syn::parse_str::<syn::Type>`: whether the whole text is one type.
/// `proc_macro2::fallback::force` first makes proc-macro2 lex with its own lexer in every
/// process, so the verdict depends on the text alone.
#[verifier::external_body]
pub(crate) fn type_text_ok(text: &str) -> (r: bool)
    ensures
        r == is_type_text(text@),
{
    proc_macro2::fallback::force();
    syn::parse_str::<syn::Type>(text).is_ok()
}

/// Relies on `syn::parse_str::<syn::Expr>`: whether the whole text is one expression.
/// `proc_macro2::fallback::force` first makes proc-macro2 lex with its own lexer in every
/// process, so the verdict depends on the text alone.
#[verifier::external_body]
pub(crate) fn expr_text_ok(text: &str) -> (r: bool)
    ensures
        r == is_expr_text(text@),
{
    proc_macro2::fallback::force();
    syn::parse_str::<syn::Expr>(text).is_ok()
}

/// How one character is written inside a string literal.
pub open spec fn escape_char(c: char) -> Seq<char> {
    if c == '"' {
        seq!['\\', '"']
    } else if c == '\\' {
        seq!['\\', '\\']
    } else if c == '\n' {
        seq!['\\', 'n']
    } else if c == '\r' {
        seq!['\\', 'r']
    } else if c == '\t' {
        seq!['\\', 't']
    } else if c == '\0' {
        seq!['\\', '0']
    } else {
        seq![c]
    }
}

pub open spec fn escape_text(s: Seq<char>) -> Seq<char>
    decreases s.len(),
{
    if s.len() == 0 {
        Seq::empty()
    } else {
        escape_text(s.drop_last()) + escape_char(s.last())
    }
}

/// The source text of the string literal that this library writes for the value `s`.
pub open spec fn str_lit_of(s: Seq<char>) -> Seq<char> {
    seq!['"'] + escape_text(s) + seq!['"']
}

fn push_escaped(out: &mut String, c: char)
    ensures
        final(out)@ == old(out)@ + escape_char(c),
{
    let ghost o = out@;
    if c == '"' || c == '\\' {
        push_char(out, '\\');
        push_char(out, c);
    } else if c == '\n' {
        push_char(out, '\\');
        push_char(out, 'n');
    } else if c == '\r' {
        push_char(out, '\\');
        push_char(out, 'r');
    } else if c == '\t' {
        push_char(out, '\\');
        push_char(out, 't');
    } else if c == '\0' {
        push_char(out, '\\');
        push_char(out, '0');
    } else {
        push_char(out, c);
    }
    assert(out@ =~= o + escape_char(c));
}

/// Writes a string literal whose value is `s`.
pub fn encode_str_lit(s: &str) -> (r: String)
    ensures
        r@ == str_lit_of(s@),
{
    let mut out = String::new();
    push_char(&mut out, '"');
    let n = s.unicode_len();
    let mut i: usize = 0;
    assert(s@.subrange(0, 0) =~= Seq::<char>::empty());
    while i < n
        invariant
            n == s@.len(),
            i <= n,
            out@ == seq!['"'] + escape_text(s@.subrange(0, i as int)),
        decreases n - i,
    {
        let c = s.get_char(i);
        push_escaped(&mut out, c);
        assert(s@.subrange(0, i + 1).drop_last() =~= s@.subrange(0, i as int));
        assert(out@ =~= seq!['"'] + escape_text(s@.subrange(0, i + 1)));
        i = i + 1;
    }
    assert(s@.subrange(0, i as int) =~= s@);
    push_char(&mut out, '"');
    out
}

} // verus!
