use necessary_metrics::emit::expand_from_parsed;
use necessary_metrics::parse::parse_block;
use necessary_metrics::tokens::{Delim, Tok};
use proc_macro2::{Delimiter, Spacing, TokenStream, TokenTree};

fn convert(ts: TokenStream) -> Vec<Tok> {
    ts.into_iter()
        .map(|tt| match tt {
            TokenTree::Ident(i) => Tok::Ident(i.to_string()),
            TokenTree::Punct(p) => Tok::Punct(p.as_char(), p.spacing() == Spacing::Joint),
            TokenTree::Literal(l) => Tok::Lit(l.to_string()),
            TokenTree::Group(g) => {
                let delim = match g.delimiter() {
                    Delimiter::Parenthesis => Delim::Paren,
                    Delimiter::Brace => Delim::Brace,
                    Delimiter::Bracket => Delim::Bracket,
                    Delimiter::None => Delim::Invisible,
                };
                Tok::Group(delim, convert(g.stream()), g.to_string())
            }
        })
        .collect()
}

fn toks(src: &str) -> Vec<Tok> {
    convert(src.parse::<TokenStream>().unwrap())
}

fn code_str(src: &str) -> String {
    src.parse::<TokenStream>().unwrap().to_string()
}

fn expand_str(src: &str) -> String {
    let m = parse_block(&toks(src)).unwrap();
    code_str(&expand_from_parsed(&m))
}

fn parse_or_panic(src: &str) {
    if let Err(e) = parse_block(&toks(src)) {
        panic!("{}", e.kind.message());
    }
}

#[test]
fn expand_empty() {
    let actual = expand_str("#[metrics] mod empty {}");
    let expected = code_str("#[metrics] mod empty { }");
    assert_eq!(actual, expected);
}

#[test]
fn expand_counter() {
    let actual = expand_str("#[metrics] mod metrics { pub fn counter() -> Counter; }");
    let expected = code_str(
        r#"#[metrics]
        mod metrics {
            #[doc = ""]
            pub fn counter() -> ::metrics::Counter {
                ::metrics::counter!("counter",)
            }
        }"#,
    );
    assert_eq!(actual, expected);
}

#[test]
fn expand_gauge() {
    let actual = expand_str("#[metrics] mod metrics { pub fn gauge() -> Gauge; }");
    let expected = code_str(
        r#"#[metrics]
        mod metrics {
            #[doc = ""]
            pub fn gauge() -> ::metrics::Gauge {
                ::metrics::gauge!("gauge",)
            }
        }"#,
    );
    assert_eq!(actual, expected);
}

#[test]
fn expand_histogram() {
    let actual = expand_str("#[metrics] mod metrics { pub fn histogram() -> Histogram; }");
    let expected = code_str(
        r#"#[metrics]
        mod metrics {
            #[doc = ""]
            pub fn histogram() -> ::metrics::Histogram {
                ::metrics::histogram!("histogram",)
            }
        }"#,
    );
    assert_eq!(actual, expected);
}

#[test]
fn expand_labels() {
    let actual =
        expand_str("#[metrics] mod metrics { pub fn counter(label_key: &str) -> Counter; }");
    let expected = code_str(
        r#"#[metrics]
        mod metrics {
            #[doc = ""]
            pub fn counter(label_key: &str,) -> ::metrics::Counter {
                let labels = [("label_key", label_key.to_string()),];
                ::metrics::counter!("counter", &labels)
            }
        }"#,
    );
    assert_eq!(actual, expected);
}

#[test]
fn rust_docs_are_forwarded() {
    let actual = expand_str(
        "#[metrics] mod metrics {
            /// Rust docs
            pub fn counter() -> Counter;
        }",
    );
    let expected = code_str(
        r#"#[metrics]
        mod metrics {
            #[doc = " Rust docs"]
            pub fn counter() -> ::metrics::Counter {
                ::metrics::counter!("counter",)
            }
        }"#,
    );
    assert_eq!(actual, expected);
}

#[test]
fn unit_and_description() {
    let actual = expand_str(
        r#"#[metrics] mod metrics {
            /// Rust docs
            #[description = "metric description"]
            #[unit = metrics::Unit::Count]
            pub fn histogram() -> Histogram;
        }"#,
    );
    let expected = code_str(
        r#"#[metrics]
        mod metrics {
            #[doc = " Rust docs"]
            pub fn histogram() -> ::metrics::Histogram {
                ::metrics::histogram!("histogram",)
            }

            #[doc = "Describes the metric `histogram`."]
            pub fn describe_histogram() {
                ::metrics::describe_histogram!(
                    "histogram",
                    metrics::Unit::Count,
                    "metric description"
                );
            }
        }"#,
    );
    assert_eq!(actual, expected);
}

#[test]
fn description_only() {
    let actual = expand_str(
        r#"#[metrics] mod metrics {
            /// Rust docs
            #[description = " expression".trim() ]
            pub fn gauge() -> Gauge;
        }"#,
    );
    let expected = code_str(
        r#"#[metrics]
        mod metrics {
            #[doc = " Rust docs"]
            pub fn gauge() -> ::metrics::Gauge {
                ::metrics::gauge!("gauge",)
            }

            #[doc = "Describes the metric `gauge`."]
            pub fn describe_gauge() {
                ::metrics::describe_gauge!(
                    "gauge",
                    " expression".trim()
                );
            }
        }"#,
    );
    assert_eq!(actual, expected);
}

#[test]
#[should_panic(expected = "Metric description has already been set")]
fn description_must_only_be_set_once() {
    parse_or_panic(
        r#"#[metrics] mod metrics {
            #[description = "metric description"]
            #[description = "another metric description"]
            pub fn counter() -> Counter;
        }"#,
    );
}

#[test]
#[should_panic(expected = "Cannot set metric unit without setting metric description")]
fn cannot_set_unit_without_description() {
    parse_or_panic(
        r#"#[metrics] mod metrics {
            #[unit = metrics::Unit::Seconds]
            pub fn histogram() -> Histogram;
        }"#,
    );
}

#[test]
#[should_panic(expected = "Metric unit has already been set")]
fn unit_must_only_be_set_once() {
    parse_or_panic(
        r#"#[metrics] mod metrics {
            #[description = "metric description"]
            #[unit = metrics::Unit::Seconds]
            #[unit = metrics::Unit::Seconds]
            pub fn gauge() -> Gauge;
        }"#,
    );
}

#[test]
#[should_panic(
    expected = "Only `Counter`, `Gauge`, and `Histogram` (verbatim, no qualified paths) are allowed as return types on functions"
)]
fn bad_fn_return_ty() {
    parse_or_panic("#[metrics] mod metrics { pub fn counter() -> metrics::Counter; }");
}
