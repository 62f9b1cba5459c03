//! Properties of the compiler that relate its parts.
use vstd::prelude::*;
use crate::ast::{DeclarationV, ErrorKind, Kind, MetadataV, ModuleV};
use crate::attrs::{attr_count, attr_word, empty_metadata, scan, validate};
use crate::emit::{
    decl_text, attrs_text, describe_args, entries_text, kind_macro, label_entries, labels_binding,
    labels_ref, module_text, record_call,
};
use crate::literal::{is_ident_text, is_vis_text, str_lit_of};
use crate::parse::{ident_text, kind_of, parse_decls, parse_module, vis_end};
use crate::tokens::{Delim, Tok, group_inner, is_group, is_word, render};

verus! {

/// A block without declarations is generated with the same attributes, visibility and
/// name, and an empty body.
pub proof fn lemma_empty_block(m: ModuleV)
    requires
        m.decls.len() == 0,
    ensures
        module_text(m) == attrs_text(m.attrs) + m.vis + "mod "@ + m.name + " { "@ + "}"@,
{
    assert(crate::emit::decls_text(m.decls) =~= Seq::<char>::empty());
    assert(module_text(m) =~= attrs_text(m.attrs) + m.vis + "mod "@ + m.name + " { "@ + "}"@);
}

/// A block whose body is empty (and whose visibility and name are well formed) parses to a
/// block without declarations, with the name that it was written with.
pub proof fn lemma_empty_body_parses(ts: Seq<Tok>)
    requires
        ({
            let v = vis_end(ts, 2 * attr_count(ts, 0) as int);
            &&& v + 3 == ts.len()
            &&& (v > 2 * attr_count(ts, 0) ==> is_vis_text(render(ts.subrange(2 * attr_count(ts, 0) as int, v))))
            &&& is_word(ts[v], "mod"@)
            &&& ts[v + 1] is Ident
            &&& is_ident_text(ident_text(ts[v + 1]))
            &&& is_group(ts[v + 2], Delim::Brace)
            &&& group_inner(ts[v + 2]).len() == 0
        }),
    ensures
        parse_module(ts) matches Ok(m) && m.decls.len() == 0 && m.name == ident_text(
            ts[vis_end(ts, 2 * attr_count(ts, 0) as int) + 1],
        ),
{
    assert(parse_decls(Seq::<Tok>::empty(), 0) == Ok::<Seq<DeclarationV>, crate::ast::ParseErrorV>(
        Seq::empty(),
    ));
}

/// Without parameters the accessor binds no label collection and the record call has no
/// label argument at all.
pub proof fn lemma_no_params_no_labels(d: DeclarationV)
    requires
        d.params.len() == 0,
    ensures
        labels_binding(d.params) == Seq::<char>::empty(),
        labels_ref(d.params) == Seq::<char>::empty(),
        record_call(d) == "::metrics::"@ + kind_macro(d.kind) + "!("@ + str_lit_of(d.name) + ", "@
            + ")"@,
{
    assert(record_call(d) =~= "::metrics::"@ + kind_macro(d.kind) + "!("@ + str_lit_of(d.name)
        + ", "@ + ")"@);
}

/// With parameters, the label collection has one entry per parameter, in declaration
/// order, keyed by the parameter's name; the record call passes a reference to it.
pub proof fn lemma_labels_follow_params(d: DeclarationV)
    requires
        d.params.len() >= 1,
    ensures
        label_entries(d.params).len() == d.params.len(),
        forall|i: int|
            0 <= i < d.params.len() ==> (#[trigger] label_entries(d.params)[i]).0 == str_lit_of(
                d.params[i].name,
            ) && label_entries(d.params)[i].1 == d.params[i].name + ".to_string()"@,
        labels_binding(d.params) == "let labels = ["@ + entries_text(label_entries(d.params))
            + "]; "@,
        labels_ref(d.params) == "&labels"@,
{
}

/// The describe call takes the name and the description; with a unit, the unit stands
/// between them.
pub proof fn lemma_describe_arity(d: DeclarationV)
    requires
        d.metadata.description is Some,
    ensures
        d.metadata.unit is None ==> describe_args(d) == seq![
            str_lit_of(d.name),
            d.metadata.description->Some_0,
        ],
        d.metadata.unit is Some ==> describe_args(d) == seq![
            str_lit_of(d.name),
            d.metadata.unit->Some_0,
            d.metadata.description->Some_0,
        ],
{
}

/// Validating the same attribute list twice gives the same metadata or the same error.
pub proof fn lemma_validate_deterministic(a: Seq<Tok>, b: Seq<Tok>)
    requires
        a == b,
    ensures
        validate(a) == validate(b),
{
}

/// A return type of more than one token, such as a qualified path, names no kind.
pub proof fn lemma_qualified_kind_rejected(ty: Seq<Tok>)
    requires
        ty.len() > 1,
    ensures
        kind_of(ty) is None,
{
}

/// A counter without parameters or attributes gets only its accessor, whose body is the
/// record call with the name alone.
pub proof fn lemma_plain_counter(d: DeclarationV)
    requires
        d.params.len() == 0,
        d.metadata == empty_metadata(),
        d.vis.len() == 0,
        d.kind == Kind::Counter,
    ensures
        decl_text(d) == plain_counter_text(d.name),
{
    assert(attrs_text(Seq::<Seq<char>>::empty()) =~= Seq::<char>::empty());
    assert(crate::emit::params_text(d.params) =~= Seq::<char>::empty());
    assert(decl_text(d) =~= plain_counter_text(d.name));
}

/// `#[doc = ""] fn name() -> ::metrics::Counter { ::metrics::counter!("name", ) }`
pub open spec fn plain_counter_text(name: Seq<char>) -> Seq<char> {
    "#[doc = "@ + str_lit_of(Seq::empty()) + "] "@ + "fn "@ + name + "("@ + ") -> "@
        + "::metrics::Counter"@ + " { "@ + "::metrics::"@ + "counter"@ + "!("@ + str_lit_of(name)
        + ", "@ + ")"@ + " } "@
}

/// `#[doc = ""] fn name() -> ::metrics::Histogram { ::metrics::histogram!("name", ) }`
pub open spec fn histogram_accessor_text(name: Seq<char>) -> Seq<char> {
    "#[doc = "@ + str_lit_of(Seq::empty()) + "] "@ + "fn "@ + name + "("@ + ") -> "@
        + "::metrics::Histogram"@ + " { "@ + "::metrics::"@ + "histogram"@ + "!("@ + str_lit_of(
        name,
    ) + ", "@ + ")"@ + " } "@
}

/// `#[doc = "Describes the metric `name`."] fn describe_name() {
/// ::metrics::describe_histogram!("name", u, desc); }`
pub open spec fn histogram_describer_text(name: Seq<char>, u: Seq<char>, desc: Seq<char>) -> Seq<
    char,
> {
    "#[doc = "@ + str_lit_of(crate::emit::describe_doc(name)) + "] "@ + "fn describe_"@ + name
        + "() { ::metrics::describe_"@ + "histogram"@ + "!("@ + str_lit_of(name) + ", "@ + u + ", "@
        + desc + "); } "@
}

/// A histogram without parameters, with a description `desc` and a unit `u`, gets its
/// accessor and then a description function that passes the name, `u` and `desc`.
pub proof fn lemma_histogram_with_unit(d: DeclarationV, desc: Seq<char>, u: Seq<char>)
    requires
        d.params.len() == 0,
        d.metadata == (MetadataV {
            cfgs: Seq::empty(),
            doc: Seq::empty(),
            description: Some(desc),
            unit: Some(u),
        }),
        d.vis.len() == 0,
        d.kind == Kind::Histogram,
    ensures
        decl_text(d) == histogram_accessor_text(d.name) + histogram_describer_text(d.name, u, desc),
{
    let args = describe_args(d);
    let l = str_lit_of(d.name);
    assert(args.drop_last().drop_last() =~= seq![l]);
    assert(args.drop_last() =~= seq![l, u]);
    assert(crate::emit::join_args(args.drop_last().drop_last()) == l);
    assert(crate::emit::join_args(args.drop_last()) == l + ", "@ + u);
    assert(crate::emit::join_args(args) == l + ", "@ + u + ", "@ + desc);
    assert(attrs_text(Seq::<Seq<char>>::empty()) =~= Seq::<char>::empty());
    assert(crate::emit::params_text(d.params) =~= Seq::<char>::empty());
    assert(crate::emit::accessor_text(d) =~= histogram_accessor_text(d.name));
    assert(crate::emit::describer_text(d) =~= histogram_describer_text(d.name, u, desc));
}

/// Whether an attribute group is a `description` attribute.
pub open spec fn is_description_attr(g: Tok) -> bool {
    attr_word(group_inner(g)) == Some("description"@)
}

/// Whether an attribute group is a `unit` attribute.
pub open spec fn is_unit_attr(g: Tok) -> bool {
    attr_word(group_inner(g)) == Some("unit"@)
}

proof fn lemma_words_differ()
    ensures
        "description"@ != "cfg"@,
        "description"@ != "doc"@,
        "unit"@ != "cfg"@,
        "unit"@ != "doc"@,
        "unit"@ != "description"@,
{
    reveal_strlit("description");
    reveal_strlit("cfg");
    reveal_strlit("doc");
    reveal_strlit("unit");
    assert("description"@[0] != "cfg"@[0]);
    assert("description"@[1] != "doc"@[1]);
    assert("unit"@[0] != "cfg"@[0]);
    assert("unit"@[0] != "doc"@[0]);
    assert("unit"@[0] != "description"@[0]);
}

/// Once a prefix of the list fails, the whole list fails the same way.
proof fn lemma_prefix_err(gs: Seq<Tok>, k: int)
    requires
        0 <= k <= gs.len(),
        scan(gs.take(k)) is Err,
    ensures
        scan(gs) == scan(gs.take(k)),
    decreases gs.len() - k,
{
    if k == gs.len() {
        assert(gs.take(k) =~= gs);
    } else {
        assert(gs.take(k + 1).drop_last() =~= gs.take(k));
        lemma_prefix_err(gs, k + 1);
    }
}

proof fn lemma_description_stays(gs: Seq<Tok>, i: int, k: int)
    requires
        0 <= i < k <= gs.len(),
        is_description_attr(gs[i]),
        scan(gs.take(k)) is Ok,
    ensures
        scan(gs.take(k))->Ok_0.0.description is Some,
    decreases k,
{
    lemma_words_differ();
    let t = gs.take(k);
    assert(t.drop_last() =~= gs.take(k - 1));
    assert(t.last() == gs[k - 1]);
    if k - 1 > i {
        lemma_description_stays(gs, i, k - 1);
    }
}

/// A second `description` attribute fails the validation at that attribute, where no
/// attribute before it fails.
pub proof fn lemma_second_description_rejected(gs: Seq<Tok>, i: int, j: int)
    requires
        0 <= i < j < gs.len(),
        is_description_attr(gs[i]),
        is_description_attr(gs[j]),
        scan(gs.take(j)) is Ok,
    ensures
        validate(gs) == Err::<MetadataV, (ErrorKind, int)>((ErrorKind::DuplicateDescription, j)),
{
    lemma_words_differ();
    lemma_description_stays(gs, i, j);
    let t = gs.take(j + 1);
    assert(t.drop_last() =~= gs.take(j));
    assert(t.last() == gs[j]);
    assert(scan(t) == Err::<(MetadataV, int), (ErrorKind, int)>((ErrorKind::DuplicateDescription, j)));
    lemma_prefix_err(gs, j + 1);
}

proof fn lemma_unit_scan(gs: Seq<Tok>, i: int, k: int)
    requires
        0 <= i < gs.len(),
        0 <= k <= gs.len(),
        is_unit_attr(gs[i]),
        forall|m: int| 0 <= m < gs.len() ==> !is_description_attr(#[trigger] gs[m]),
        forall|m: int| 0 <= m < gs.len() && m != i ==> !is_unit_attr(#[trigger] gs[m]),
        scan(gs.take(k)) is Ok,
    ensures
        ({
            let (st, u) = scan(gs.take(k))->Ok_0;
            &&& st.description is None
            &&& k <= i ==> st.unit is None && u == -1
            &&& k > i ==> st.unit is Some && u == i
        }),
    decreases k,
{
    lemma_words_differ();
    let t = gs.take(k);
    if k > 0 {
        assert(t.drop_last() =~= gs.take(k - 1));
        assert(t.last() == gs[k - 1]);
        lemma_unit_scan(gs, i, k - 1);
    }
}

/// The only `unit` attribute of a list without a `description` attribute fails the
/// validation at that attribute, where the scan finds no other fault.
pub proof fn lemma_unit_without_description(gs: Seq<Tok>, i: int)
    requires
        0 <= i < gs.len(),
        is_unit_attr(gs[i]),
        forall|m: int| 0 <= m < gs.len() ==> !is_description_attr(#[trigger] gs[m]),
        forall|m: int| 0 <= m < gs.len() && m != i ==> !is_unit_attr(#[trigger] gs[m]),
        scan(gs) is Ok,
    ensures
        validate(gs) == Err::<MetadataV, (ErrorKind, int)>((ErrorKind::MissingDescriptionForUnit, i)),
{
    assert(gs.take(gs.len() as int) =~= gs);
    lemma_unit_scan(gs, i, gs.len() as int);
}

} // verus!
