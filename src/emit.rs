use vstd::prelude::*;
use crate::ast::{
    Declaration, DeclarationV, Kind, Module, ModuleV, Param, ParamV, decls_view,
    params_view, strings_view,
};
use crate::literal::{encode_str_lit, str_lit_of};

verus! {

/// The type an accessor returns, for each kind.
pub open spec fn kind_type(k: Kind) -> Seq<char> {
    match k {
        Kind::Counter => "::metrics::Counter"@,
        Kind::Gauge => "::metrics::Gauge"@,
        Kind::Histogram => "::metrics::Histogram"@,
    }
}

/// The macro name that records (and, prefixed with `describe_`, describes) each kind.
pub open spec fn kind_macro(k: Kind) -> Seq<char> {
    match k {
        Kind::Counter => "counter"@,
        Kind::Gauge => "gauge"@,
        Kind::Histogram => "histogram"@,
    }
}

/// Attributes, each written `#` then its bracket group.
pub open spec fn attrs_text(attrs: Seq<Seq<char>>) -> Seq<char>
    decreases attrs.len(),
{
    if attrs.len() == 0 {
        Seq::empty()
    } else {
        attrs_text(attrs.drop_last()) + "#"@ + attrs.last() + " "@
    }
}

/// A parameter list, each parameter followed by a comma.
pub open spec fn params_text(ps: Seq<ParamV>) -> Seq<char>
    decreases ps.len(),
{
    if ps.len() == 0 {
        Seq::empty()
    } else {
        params_text(ps.drop_last()) + ps.last().name + ": "@ + ps.last().ty + ", "@
    }
}

/// The entries of the label collection, in parameter order: the parameter's name as a
/// string literal, and the parameter converted to text.
pub open spec fn label_entries(ps: Seq<ParamV>) -> Seq<(Seq<char>, Seq<char>)> {
    ps.map_values(|p: ParamV| (str_lit_of(p.name), p.name + ".to_string()"@))
}

pub open spec fn entries_text(es: Seq<(Seq<char>, Seq<char>)>) -> Seq<char>
    decreases es.len(),
{
    if es.len() == 0 {
        Seq::empty()
    } else {
        entries_text(es.drop_last()) + "("@ + es.last().0 + ", "@ + es.last().1 + "), "@
    }
}

/// The statement that binds the label collection; nothing without parameters.
pub open spec fn labels_binding(ps: Seq<ParamV>) -> Seq<char> {
    if ps.len() == 0 {
        Seq::empty()
    } else {
        "let labels = ["@ + entries_text(label_entries(ps)) + "]; "@
    }
}

/// The label argument of the record call; nothing at all without parameters.
pub open spec fn labels_ref(ps: Seq<ParamV>) -> Seq<char> {
    if ps.len() == 0 {
        Seq::empty()
    } else {
        "&labels"@
    }
}

pub open spec fn record_call(d: DeclarationV) -> Seq<char> {
    "::metrics::"@ + kind_macro(d.kind) + "!("@ + str_lit_of(d.name) + ", "@ + labels_ref(d.params)
        + ")"@
}

pub open spec fn doc_attr(doc: Seq<char>) -> Seq<char> {
    "#[doc = "@ + str_lit_of(doc) + "] "@
}

/// The accessor function of a declaration.
pub open spec fn accessor_text(d: DeclarationV) -> Seq<char> {
    doc_attr(d.metadata.doc) + attrs_text(d.metadata.cfgs) + d.vis + "fn "@ + d.name + "("@
        + params_text(d.params) + ") -> "@ + kind_type(d.kind) + " { "@ + labels_binding(d.params)
        + record_call(d) + " } "@
}

/// The arguments of the describe call: the name, then the unit where there is one, then
/// the description last. Empty where there is no description.
pub open spec fn describe_args(d: DeclarationV) -> Seq<Seq<char>> {
    match d.metadata.description {
        Some(desc) => match d.metadata.unit {
            Some(u) => seq![str_lit_of(d.name), u, desc],
            None => seq![str_lit_of(d.name), desc],
        },
        None => Seq::empty(),
    }
}

/// Arguments separated by commas.
pub open spec fn join_args(args: Seq<Seq<char>>) -> Seq<char>
    decreases args.len(),
{
    if args.len() == 0 {
        Seq::empty()
    } else if args.len() == 1 {
        args[0]
    } else {
        join_args(args.drop_last()) + ", "@ + args.last()
    }
}

pub open spec fn describe_doc(name: Seq<char>) -> Seq<char> {
    "Describes the metric `"@ + name + "`."@
}

/// The description function of a declaration; nothing without a description.
pub open spec fn describer_text(d: DeclarationV) -> Seq<char> {
    if d.metadata.description is Some {
        doc_attr(describe_doc(d.name)) + attrs_text(d.metadata.cfgs) + d.vis + "fn describe_"@
            + d.name + "() { ::metrics::describe_"@ + kind_macro(d.kind) + "!("@ + join_args(
            describe_args(d),
        ) + "); } "@
    } else {
        Seq::empty()
    }
}

pub open spec fn decl_text(d: DeclarationV) -> Seq<char> {
    accessor_text(d) + describer_text(d)
}

pub open spec fn decls_text(ds: Seq<DeclarationV>) -> Seq<char>
    decreases ds.len(),
{
    if ds.len() == 0 {
        Seq::empty()
    } else {
        decls_text(ds.drop_last()) + decl_text(ds.last())
    }
}

/// The generated block: same attributes, visibility and name, the functions of each
/// declaration in order.
pub open spec fn module_text(m: ModuleV) -> Seq<char> {
    attrs_text(m.attrs) + m.vis + "mod "@ + m.name + " { "@ + decls_text(m.decls) + "}"@
}

fn put(out: &mut String, s: &str)
    ensures
        final(out)@ == old(out)@ + s@,
{
    out.append(s);
}

fn put_lit(out: &mut String, s: &str)
    ensures
        final(out)@ == old(out)@ + str_lit_of(s@),
{
    let l = encode_str_lit(s);
    out.append(l.as_str());
}

fn emit_attrs(attrs: &Vec<String>, out: &mut String)
    ensures
        final(out)@ == old(out)@ + attrs_text(strings_view(attrs@)),
{
    let ghost av = strings_view(attrs@);
    let mut i: usize = 0;
    assert(av.subrange(0, 0) =~= Seq::<Seq<char>>::empty());
    while i < attrs.len()
        invariant
            i <= attrs@.len(),
            av == strings_view(attrs@),
            out@ == old(out)@ + attrs_text(av.subrange(0, i as int)),
        decreases attrs@.len() - i,
    {
        put(out, "#");
        put(out, attrs[i].as_str());
        put(out, " ");
        assert(av.subrange(0, i + 1).drop_last() =~= av.subrange(0, i as int));
        assert(out@ =~= old(out)@ + attrs_text(av.subrange(0, i + 1)));
        i = i + 1;
    }
    assert(av.subrange(0, i as int) =~= av);
}

fn emit_params(ps: &Vec<Param>, out: &mut String)
    ensures
        final(out)@ == old(out)@ + params_text(params_view(ps@)),
{
    let ghost pv = params_view(ps@);
    let mut i: usize = 0;
    assert(pv.subrange(0, 0) =~= Seq::<ParamV>::empty());
    while i < ps.len()
        invariant
            i <= ps@.len(),
            pv == params_view(ps@),
            out@ == old(out)@ + params_text(pv.subrange(0, i as int)),
        decreases ps@.len() - i,
    {
        put(out, ps[i].name.as_str());
        put(out, ": ");
        put(out, ps[i].ty.as_str());
        put(out, ", ");
        assert(pv.subrange(0, i + 1).drop_last() =~= pv.subrange(0, i as int));
        assert(out@ =~= old(out)@ + params_text(pv.subrange(0, i + 1)));
        i = i + 1;
    }
    assert(pv.subrange(0, i as int) =~= pv);
}

fn emit_label_entries(ps: &Vec<Param>, out: &mut String)
    ensures
        final(out)@ == old(out)@ + entries_text(label_entries(params_view(ps@))),
{
    let ghost es = label_entries(params_view(ps@));
    let mut i: usize = 0;
    assert(es.subrange(0, 0) =~= Seq::<(Seq<char>, Seq<char>)>::empty());
    while i < ps.len()
        invariant
            i <= ps@.len(),
            es == label_entries(params_view(ps@)),
            out@ == old(out)@ + entries_text(es.subrange(0, i as int)),
        decreases ps@.len() - i,
    {
        put(out, "(");
        put_lit(out, ps[i].name.as_str());
        put(out, ", ");
        put(out, ps[i].name.as_str());
        put(out, ".to_string()");
        put(out, "), ");
        assert(es.subrange(0, i + 1).drop_last() =~= es.subrange(0, i as int));
        assert(out@ =~= old(out)@ + entries_text(es.subrange(0, i + 1)));
        i = i + 1;
    }
    assert(es.subrange(0, i as int) =~= es);
}

fn emit_kind_macro(k: Kind, out: &mut String)
    ensures
        final(out)@ == old(out)@ + kind_macro(k),
{
    match k {
        Kind::Counter => put(out, "counter"),
        Kind::Gauge => put(out, "gauge"),
        Kind::Histogram => put(out, "histogram"),
    }
}

fn emit_kind_type(k: Kind, out: &mut String)
    ensures
        final(out)@ == old(out)@ + kind_type(k),
{
    match k {
        Kind::Counter => put(out, "::metrics::Counter"),
        Kind::Gauge => put(out, "::metrics::Gauge"),
        Kind::Histogram => put(out, "::metrics::Histogram"),
    }
}

proof fn lemma_assoc(a: Seq<char>, b: Seq<char>, c: Seq<char>)
    ensures
        a + b + c == a + (b + c),
{
    vstd::seq_lib::lemma_concat_associative(a, b, c);
}

/// Appends the documentation, the `cfg` attributes and the visibility that both generated
/// functions of a declaration start with.
fn emit_head(doc: &str, cfgs: &Vec<String>, vis: &str, out: &mut String)
    ensures
        final(out)@ == old(out)@ + (doc_attr(doc@) + attrs_text(strings_view(cfgs@)) + vis@),
{
    let ghost o = out@;
    put(out, "#[doc = ");
    put_lit(out, doc);
    proof { lemma_assoc(o, "#[doc = "@, str_lit_of(doc@)); }
    put(out, "] ");
    proof { lemma_assoc(o, "#[doc = "@ + str_lit_of(doc@), "] "@); }
    let ghost t = doc_attr(doc@);
    emit_attrs(cfgs, out);
    proof { lemma_assoc(o, t, attrs_text(strings_view(cfgs@))); }
    let ghost t = t + attrs_text(strings_view(cfgs@));
    put(out, vis);
    proof { lemma_assoc(o, t, vis@); }
}

fn emit_labels_binding(ps: &Vec<Param>, out: &mut String)
    ensures
        final(out)@ == old(out)@ + labels_binding(params_view(ps@)),
{
    let ghost o = out@;
    if ps.len() > 0 {
        put(out, "let labels = [");
        let ghost es = entries_text(label_entries(params_view(ps@)));
        emit_label_entries(ps, out);
        proof { lemma_assoc(o, "let labels = ["@, es); }
        put(out, "]; ");
        proof { lemma_assoc(o, "let labels = ["@ + es, "]; "@); }
    } else {
        assert(out@ =~= o + labels_binding(params_view(ps@)));
    }
}

fn emit_record_call(d: &Declaration, out: &mut String)
    ensures
        final(out)@ == old(out)@ + record_call(d@),
{
    let ghost o = out@;
    let ghost dv = d@;
    put(out, "::metrics::");
    let ghost t = "::metrics::"@;
    emit_kind_macro(d.kind, out);
    proof { lemma_assoc(o, t, kind_macro(dv.kind)); }
    let ghost t = t + kind_macro(dv.kind);
    put(out, "!(");
    proof { lemma_assoc(o, t, "!("@); }
    let ghost t = t + "!("@;
    put_lit(out, d.name.as_str());
    proof { lemma_assoc(o, t, str_lit_of(dv.name)); }
    let ghost t = t + str_lit_of(dv.name);
    put(out, ", ");
    proof { lemma_assoc(o, t, ", "@); }
    let ghost t = t + ", "@;
    let ghost o2 = out@;
    if d.params.len() > 0 {
        put(out, "&labels");
    } else {
        assert(out@ =~= o2 + Seq::<char>::empty());
    }
    proof { lemma_assoc(o, t, labels_ref(dv.params)); }
    let ghost t = t + labels_ref(dv.params);
    put(out, ")");
    proof { lemma_assoc(o, t, ")"@); }
}

/// Appends the accessor function of `d`.
pub fn emit_accessor(d: &Declaration, out: &mut String)
    ensures
        final(out)@ == old(out)@ + accessor_text(d@),
{
    let ghost o = out@;
    let ghost dv = d@;
    emit_head(d.metadata.doc.as_str(), &d.metadata.cfgs, d.vis.as_str(), out);
    let ghost t = doc_attr(dv.metadata.doc) + attrs_text(dv.metadata.cfgs) + dv.vis;
    put(out, "fn ");
    proof { lemma_assoc(o, t, "fn "@); }
    let ghost t = t + "fn "@;
    put(out, d.name.as_str());
    proof { lemma_assoc(o, t, dv.name); }
    let ghost t = t + dv.name;
    put(out, "(");
    proof { lemma_assoc(o, t, "("@); }
    let ghost t = t + "("@;
    emit_params(&d.params, out);
    proof { lemma_assoc(o, t, params_text(dv.params)); }
    let ghost t = t + params_text(dv.params);
    put(out, ") -> ");
    proof { lemma_assoc(o, t, ") -> "@); }
    let ghost t = t + ") -> "@;
    emit_kind_type(d.kind, out);
    proof { lemma_assoc(o, t, kind_type(dv.kind)); }
    let ghost t = t + kind_type(dv.kind);
    put(out, " { ");
    proof { lemma_assoc(o, t, " { "@); }
    let ghost t = t + " { "@;
    emit_labels_binding(&d.params, out);
    proof { lemma_assoc(o, t, labels_binding(dv.params)); }
    let ghost t = t + labels_binding(dv.params);
    emit_record_call(d, out);
    proof { lemma_assoc(o, t, record_call(dv)); }
    let ghost t = t + record_call(dv);
    put(out, " } ");
    proof { lemma_assoc(o, t, " } "@); }
}

fn emit_describe_args(d: &Declaration, desc: &String, out: &mut String)
    requires
        d.metadata.description == Some(*desc),
    ensures
        final(out)@ == old(out)@ + join_args(describe_args(d@)),
{
    let ghost o = out@;
    let ghost args = describe_args(d@);
    let ghost l = str_lit_of(d@.name);
    put_lit(out, d.name.as_str());
    match &d.metadata.unit {
        Some(u) => {
            put(out, ", ");
            proof { lemma_assoc(o, l, ", "@); }
            put(out, u.as_str());
            proof { lemma_assoc(o, l + ", "@, u@); }
            let ghost a1 = args.drop_last().drop_last();
            assert(a1 =~= seq![l]);
            assert(join_args(a1) == l);
            assert(args.drop_last() =~= seq![l, u@]);
            assert(join_args(args.drop_last()) == join_args(a1) + ", "@ + u@);
        },
        None => {
            let ghost a1 = args.drop_last();
            assert(a1 =~= seq![l]);
            assert(join_args(a1) == l);
        },
    }
    let ghost t = join_args(args.drop_last());
    put(out, ", ");
    proof { lemma_assoc(o, t, ", "@); }
    put(out, desc.as_str());
    proof { lemma_assoc(o, t + ", "@, desc@); }
    assert(join_args(args) == join_args(args.drop_last()) + ", "@ + desc@);
}

/// Appends the description function of `d`, where `d` has a description.
pub fn emit_describer(d: &Declaration, out: &mut String)
    ensures
        final(out)@ == old(out)@ + describer_text(d@),
{
    let ghost o = out@;
    let ghost dv = d@;
    match &d.metadata.description {
        None => {
            assert(out@ =~= o + describer_text(d@));
        },
        Some(desc) => {
            let mut doc = "Describes the metric `".to_string();
            doc.append(d.name.as_str());
            doc.append("`.");
            assert(doc@ == describe_doc(d@.name));
            emit_head(doc.as_str(), &d.metadata.cfgs, d.vis.as_str(), out);
            let ghost t = doc_attr(describe_doc(dv.name)) + attrs_text(dv.metadata.cfgs) + dv.vis;
            put(out, "fn describe_");
            proof { lemma_assoc(o, t, "fn describe_"@); }
            let ghost t = t + "fn describe_"@;
            put(out, d.name.as_str());
            proof { lemma_assoc(o, t, dv.name); }
            let ghost t = t + dv.name;
            put(out, "() { ::metrics::describe_");
            proof { lemma_assoc(o, t, "() { ::metrics::describe_"@); }
            let ghost t = t + "() { ::metrics::describe_"@;
            emit_kind_macro(d.kind, out);
            proof { lemma_assoc(o, t, kind_macro(dv.kind)); }
            let ghost t = t + kind_macro(dv.kind);
            put(out, "!(");
            proof { lemma_assoc(o, t, "!("@); }
            let ghost t = t + "!("@;
            emit_describe_args(d, desc, out);
            proof { lemma_assoc(o, t, join_args(describe_args(dv))); }
            let ghost t = t + join_args(describe_args(dv));
            put(out, "); } ");
            proof { lemma_assoc(o, t, "); } "@); }
        },
    }
}

/// Appends the functions generated for `d`: its accessor, then its description function.
pub fn expand_metric_fn(d: &Declaration, out: &mut String)
    ensures
        final(out)@ == old(out)@ + decl_text(d@),
{
    let ghost o = out@;
    emit_accessor(d, out);
    emit_describer(d, out);
    assert(out@ =~= o + decl_text(d@));
}

/// The source text generated for a block.
pub fn expand_from_parsed(m: &Module) -> (r: String)
    ensures
        r@ == module_text(m@),
{
    let mut out = String::new();
    emit_attrs(&m.attrs, &mut out);
    put(&mut out, m.vis.as_str());
    put(&mut out, "mod ");
    put(&mut out, m.name.as_str());
    put(&mut out, " { ");
    let ghost o = out@;
    let ghost dv = decls_view(m.decls@);
    let mut i: usize = 0;
    assert(dv.subrange(0, 0) =~= Seq::<DeclarationV>::empty());
    assert(out@ =~= o + decls_text(dv.subrange(0, 0)));
    while i < m.decls.len()
        invariant
            i <= m.decls@.len(),
            dv == decls_view(m.decls@),
            out@ == o + decls_text(dv.subrange(0, i as int)),
        decreases m.decls@.len() - i,
    {
        expand_metric_fn(&m.decls[i], &mut out);
        assert(dv.subrange(0, i + 1).drop_last() =~= dv.subrange(0, i as int));
        assert(out@ =~= o + decls_text(dv.subrange(0, i + 1)));
        i = i + 1;
    }
    assert(dv.subrange(0, i as int) =~= dv);
    put(&mut out, "}");
    assert(out@ =~= module_text(m@));
    out
}

} // verus!
