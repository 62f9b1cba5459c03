use necessary_metrics::ast::{ErrorKind, Kind};
use necessary_metrics::attrs::validate_attrs;
use necessary_metrics::expand;
use necessary_metrics::parse::parse_block;
use necessary_metrics::tokens::{Delim, Tok};
use proc_macro2::{Delimiter, Spacing, TokenStream, TokenTree};

fn convert(ts: TokenStream) -> Vec<Tok> {
    ts.into_iter()
        .map(|tt| match tt {
            TokenTree::Ident(i) => Tok::Ident(i.to_string()),
            TokenTree::Punct(p) => Tok::Punct(p.as_char(), p.spacing() == Spacing::Joint),
            TokenTree::Literal(l) => Tok::Lit(l.to_string()),
            TokenTree::Group(g) => {
                let delim = match g.delimiter() {
                    Delimiter::Parenthesis => Delim::Paren,
                    Delimiter::Brace => Delim::Brace,
                    Delimiter::Bracket => Delim::Bracket,
                    Delimiter::None => Delim::Invisible,
                };
                Tok::Group(delim, convert(g.stream()), g.to_string())
            }
        })
        .collect()
}

fn toks(src: &str) -> Vec<Tok> {
    convert(src.parse::<TokenStream>().unwrap())
}

fn code_str(src: &str) -> String {
    src.parse::<TokenStream>().unwrap().to_string()
}

fn compile(src: &str) -> Result<String, ErrorKind> {
    expand(&toks(src)).map(|s| code_str(&s)).map_err(|e| e.kind)
}

#[test]
fn scenario_plain_counter() {
    let out = compile("mod m { fn counter() -> Counter; }").unwrap();
    let expected = code_str(
        r#"mod m {
            #[doc = ""]
            fn counter() -> ::metrics::Counter {
                ::metrics::counter!("counter",)
            }
        }"#,
    );
    assert_eq!(out, expected);
    assert!(!out.contains("describe_"));
    assert!(!out.contains("labels"));
}

#[test]
fn scenario_one_label() {
    let out = compile("mod m { fn counter(label_key: &str) -> Counter; }").unwrap();
    let expected = code_str(
        r#"mod m {
            #[doc = ""]
            fn counter(label_key: &str,) -> ::metrics::Counter {
                let labels = [("label_key", label_key.to_string()),];
                ::metrics::counter!("counter", &labels)
            }
        }"#,
    );
    assert_eq!(out, expected);
}

#[test]
fn scenario_description_and_unit() {
    let out =
        compile(r#"mod m { #[description = "d"] #[unit = U] fn histogram() -> Histogram; }"#)
            .unwrap();
    let expected = code_str(
        r#"mod m {
            #[doc = ""]
            fn histogram() -> ::metrics::Histogram {
                ::metrics::histogram!("histogram",)
            }
            #[doc = "Describes the metric `histogram`."]
            fn describe_histogram() {
                ::metrics::describe_histogram!("histogram", U, "d");
            }
        }"#,
    );
    assert_eq!(out, expected);
}

#[test]
fn scenario_two_descriptions() {
    let r = compile(r#"mod m { #[description = "a"] #[description = "b"] fn c() -> Counter; }"#);
    assert_eq!(r, Err(ErrorKind::DuplicateDescription));
}

#[test]
fn scenario_unit_without_description() {
    let r = compile("mod m { #[unit = U] fn histogram() -> Histogram; }");
    assert_eq!(r, Err(ErrorKind::MissingDescriptionForUnit));
}

#[test]
fn scenario_qualified_kind() {
    assert_eq!(compile("mod m { fn x() -> some::Path; }"), Err(ErrorKind::UnknownKind));
    assert_eq!(compile("mod m { fn x() -> Timer; }"), Err(ErrorKind::UnknownKind));
    assert_eq!(compile("mod m { fn x() -> (Counter); }"), Err(ErrorKind::UnknownKind));
}

#[test]
fn empty_block_keeps_name_and_visibility() {
    let out = compile("#[a] #[b(c)] pub(crate) mod inner {}").unwrap();
    assert_eq!(out, code_str("#[a] #[b(c)] pub(crate) mod inner { }"));
    let m = parse_block(&toks("pub mod inner {}")).unwrap();
    assert_eq!(m.decls.len(), 0);
    assert_eq!(m.name, "inner");
    assert_eq!(m.vis, "pub ");
}

#[test]
fn labels_follow_parameter_order() {
    let out = compile("mod m { pub fn g(b: u8, a: HashMap<K, V>, c: &'a str) -> Gauge; }").unwrap();
    let expected = code_str(
        r#"mod m {
            #[doc = ""]
            pub fn g(b: u8, a: HashMap<K, V>, c: &'a str,) -> ::metrics::Gauge {
                let labels = [("b", b.to_string()), ("a", a.to_string()), ("c", c.to_string()),];
                ::metrics::gauge!("g", &labels)
            }
        }"#,
    );
    assert_eq!(out, expected);
    let m = parse_block(&toks("mod m { fn g(b: u8, a: HashMap<K, V>,) -> Gauge; }")).unwrap();
    assert_eq!(m.decls[0].params.len(), 2);
    assert_eq!(m.decls[0].params[0].name, "b");
    assert_eq!(m.decls[0].params[1].name, "a");
    assert_eq!(m.decls[0].kind, Kind::Gauge);
}

#[test]
fn closure_type_arrow_does_not_close_angle() {
    let m = parse_block(&toks("mod m { fn g(f: Box<dyn Fn(u8) -> u8>, x: u8) -> Gauge; }")).unwrap();
    assert_eq!(m.decls[0].params.len(), 2);
    assert_eq!(m.decls[0].params[1].name, "x");
}

#[test]
fn description_only_has_two_arguments() {
    let out = compile(r#"mod m { #[description = "d"] fn c() -> Counter; }"#).unwrap();
    assert!(out.contains(&code_str(r#"::metrics::describe_counter!("c", "d");"#)));
}

#[test]
fn unit_before_description_is_accepted() {
    let out = compile(r#"mod m { #[unit = U] #[description = "d"] fn c() -> Counter; }"#).unwrap();
    assert!(out.contains(&code_str(r#"::metrics::describe_counter!("c", U, "d");"#)));
}

#[test]
fn cfg_is_kept_on_both_functions() {
    let out =
        compile(r#"mod m { #[cfg(test)] #[description = "d"] pub fn c() -> Counter; }"#).unwrap();
    let expected = code_str(
        r#"mod m {
            #[doc = ""]
            #[cfg(test)]
            pub fn c() -> ::metrics::Counter {
                ::metrics::counter!("c",)
            }
            #[doc = "Describes the metric `c`."]
            #[cfg(test)]
            pub fn describe_c() {
                ::metrics::describe_counter!("c", "d");
            }
        }"#,
    );
    assert_eq!(out, expected);
}

#[test]
fn doc_fragments_are_joined_and_escaped() {
    let out = compile("mod m { /// one\n/// two \"q\"\nfn c() -> Counter; }").unwrap();
    assert!(out.contains(&code_str(r#"#[doc = " one two \"q\""]"#)));
}

#[test]
fn declarations_keep_their_order() {
    let out = compile("mod m { fn b() -> Gauge; fn a() -> Counter; }").unwrap();
    let b = out.find("fn b").unwrap();
    let a = out.find("fn a").unwrap();
    assert!(b < a);
}

#[test]
fn unknown_attribute_is_rejected() {
    let r = compile("mod m { #[inline] fn c() -> Counter; }");
    assert_eq!(r, Err(ErrorKind::UnrecognizedAttribute));
    let r = compile("mod m { #[a::doc = \"x\"] fn c() -> Counter; }");
    assert_eq!(r, Err(ErrorKind::UnrecognizedAttribute));
}

#[test]
fn duplicate_unit_is_rejected() {
    let r = compile(r#"mod m { #[description = "d"] #[unit = U] #[unit = V] fn c() -> Counter; }"#);
    assert_eq!(r, Err(ErrorKind::DuplicateUnit));
}

#[test]
fn malformed_declarations_are_syntax_errors() {
    assert_eq!(compile("mod m { fn c() -> Counter }"), Err(ErrorKind::Syntax));
    assert_eq!(compile("mod m { fn c() Counter; }"), Err(ErrorKind::Syntax));
    assert_eq!(compile("mod m { fn c(a u8) -> Counter; }"), Err(ErrorKind::Syntax));
    assert_eq!(compile("mod m { fn c(a:) -> Counter; }"), Err(ErrorKind::Syntax));
    assert_eq!(compile("mod m { fn c() -> ; }"), Err(ErrorKind::Syntax));
    assert_eq!(compile("mod m { #[doc(hidden)] fn c() -> Counter; }"), Err(ErrorKind::Syntax));
    assert_eq!(compile("fn m() {}"), Err(ErrorKind::Syntax));
    assert_eq!(compile("mod m {} extra"), Err(ErrorKind::Syntax));
}

#[test]
fn validating_twice_gives_the_same_result() {
    let attrs = toks(r#"/// doc
        #[description = "d"] #[unit = U] #[cfg(x)]"#);
    let a = validate_attrs(&attrs).unwrap();
    let b = validate_attrs(&attrs).unwrap();
    assert_eq!(a.doc, b.doc);
    assert_eq!(a.doc, " doc");
    assert_eq!(a.description, b.description);
    assert_eq!(a.unit, b.unit);
    assert_eq!(a.cfgs, b.cfgs);
    assert_eq!(a.cfgs.len(), 1);
    let bad = toks(r#"#[unit = U] #[unit = U]"#);
    assert_eq!(validate_attrs(&bad).err().map(|e| e.kind), validate_attrs(&bad).err().map(|e| e.kind));
    assert_eq!(validate_attrs(&bad).err().map(|e| e.kind), Some(ErrorKind::DuplicateUnit));
    assert_eq!(validate_attrs(&toks("fn")).err().map(|e| e.kind), Some(ErrorKind::Syntax));
}

#[test]
fn error_messages() {
    assert_eq!(ErrorKind::DuplicateDescription.message(), "Metric description has already been set");
    assert_eq!(ErrorKind::DuplicateUnit.message(), "Metric unit has already been set");
    assert_eq!(
        ErrorKind::MissingDescriptionForUnit.message(),
        "Cannot set metric unit without setting metric description"
    );
    assert_eq!(
        ErrorKind::UnrecognizedAttribute.message(),
        "Only `#[cfg]` and `#[doc]` are allowed on functions"
    );
}

#[test]
fn bare_description_or_unit_is_rejected() {
    let r = compile(r#"mod m { #[description] #[description = "x"] fn c() -> Counter; }"#);
    assert_eq!(r, Err(ErrorKind::Syntax));
    let r = compile(r#"mod m { #[description = "x"] #[unit] #[unit = U] fn c() -> Counter; }"#);
    assert_eq!(r, Err(ErrorKind::Syntax));
    let r = compile(r#"mod m { #[description =] fn c() -> Counter; }"#);
    assert_eq!(r, Err(ErrorKind::Syntax));
}

#[test]
fn malformed_types_are_syntax_errors() {
    assert_eq!(compile("mod m { fn c(a: u8 b: u8) -> Counter; }"), Err(ErrorKind::Syntax));
    assert_eq!(compile("mod m { fn c(a: u8 b) -> Counter; }"), Err(ErrorKind::Syntax));
    assert_eq!(compile("mod m { fn c() -> Counter Gauge; }"), Err(ErrorKind::Syntax));
}

#[test]
fn string_literals_are_escaped() {
    let out = compile("mod m { #[doc = \"a\\\\b\\tc\\n\"] fn c() -> Counter; }").unwrap();
    assert!(out.contains(&code_str(r#"#[doc = "a\\b\tc\n"]"#)));
}

#[test]
fn syntax_and_kind_messages() {
    assert_eq!(ErrorKind::Syntax.message(), "Unexpected tokens in metric declarations");
    assert_eq!(
        ErrorKind::UnknownKind.message(),
        "Only `Counter`, `Gauge`, and `Histogram` (verbatim, no qualified paths) are allowed as return types on functions"
    );
}

#[test]
fn errors_are_located() {
    // The body is token 4; in it the first declaration takes tokens 0 to 7, and the
    // second `description` group of the next one is token 11.
    let src = r#"#[metrics] mod m {
        pub fn a() -> Counter;
        #[description = "x"] #[description = "y"] pub fn b() -> Counter;
    }"#;
    let e = expand(&toks(src)).err().unwrap();
    assert_eq!(e.kind, ErrorKind::DuplicateDescription);
    assert_eq!(e.at, vec![4, 11]);
    let e = expand(&toks("mod m { fn c(a: u8 b: u8) -> Counter; }")).err().unwrap();
    assert_eq!(e.kind, ErrorKind::Syntax);
    assert_eq!(e.at, vec![2, 2, 2]);
    let e = expand(&toks("mod m { #[unit = U] fn c() -> some::Path; }")).err().unwrap();
    assert_eq!(e.kind, ErrorKind::MissingDescriptionForUnit);
    assert_eq!(e.at, vec![2, 1]);
    let e = expand(&toks("mod m { fn c() -> some::Path; }")).err().unwrap();
    assert_eq!(e.kind, ErrorKind::UnknownKind);
    assert_eq!(e.at, vec![2, 5]);
    let e = expand(&toks("mod m {} extra")).err().unwrap();
    assert_eq!(e.at, vec![3]);
}

#[test]
fn malformed_visibility_and_names_are_syntax_errors() {
    assert_eq!(compile("mod m { pub(anything) fn c() -> Counter; }"), Err(ErrorKind::Syntax));
    assert_eq!(compile("mod m { fn fn() -> Counter; }"), Err(ErrorKind::Syntax));
    assert_eq!(compile("mod m { fn c(fn: u8) -> Counter; }"), Err(ErrorKind::Syntax));
    assert_eq!(compile("pub(nowhere) mod m {}"), Err(ErrorKind::Syntax));
    assert!(compile("pub(crate) mod m { pub(super) fn c(r#type: u8) -> Counter; }").is_ok());
}
