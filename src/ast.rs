use vstd::prelude::*;

verus! {

/// The closed set of metric kinds.
#[derive(Clone, Copy, Debug, PartialEq, Eq, Structural)]
pub enum Kind {
    Counter,
    Gauge,
    Histogram,
}

/// Why a block was rejected. The first failure found ends the compilation.
#[derive(Clone, Copy, Debug, PartialEq, Eq, Structural)]
pub enum ErrorKind {
    /// The tokens do not have the shape of a block or of a declaration.
    Syntax,
    /// The return type is not one of the bare kinds `Counter`, `Gauge`, `Histogram`.
    UnknownKind,
    /// A second `description` attribute on one declaration.
    DuplicateDescription,
    /// A second `unit` attribute on one declaration.
    DuplicateUnit,
    /// A `unit` attribute without a `description` attribute.
    MissingDescriptionForUnit,
    /// An attribute other than `cfg`, `doc`, `description` and `unit`.
    UnrecognizedAttribute,
}

/// The message reported for each error.
pub open spec fn error_text(e: ErrorKind) -> Seq<char> {
    match e {
        ErrorKind::Syntax => "Unexpected tokens in metric declarations"@,
        ErrorKind::UnknownKind => "Only `Counter`, `Gauge`, and `Histogram` (verbatim, no qualified paths) are allowed as return types on functions"@,
        ErrorKind::DuplicateDescription => "Metric description has already been set"@,
        ErrorKind::DuplicateUnit => "Metric unit has already been set"@,
        ErrorKind::MissingDescriptionForUnit => "Cannot set metric unit without setting metric description"@,
        ErrorKind::UnrecognizedAttribute => "Only `#[cfg]` and `#[doc]` are allowed on functions"@,
    }
}

impl ErrorKind {
    /// The message reported for this error.
    pub fn message(&self) -> (r: String)
        ensures
            r@ == error_text(*self),
    {
        match self {
            ErrorKind::Syntax => "Unexpected tokens in metric declarations".to_string(),
            ErrorKind::UnknownKind => "Only `Counter`, `Gauge`, and `Histogram` (verbatim, no qualified paths) are allowed as return types on functions".to_string(),
            ErrorKind::DuplicateDescription => "Metric description has already been set".to_string(),
            ErrorKind::DuplicateUnit => "Metric unit has already been set".to_string(),
            ErrorKind::MissingDescriptionForUnit => "Cannot set metric unit without setting metric description".to_string(),
            ErrorKind::UnrecognizedAttribute => "Only `#[cfg]` and `#[doc]` are allowed on functions".to_string(),
        }
    }
}

/// A rejected block: why, and where. `at` is the path of token indices from the block's
/// token list down to the offending token (an index equal to a list's length means its end).
#[derive(Debug)]
pub struct ParseError {
    pub kind: ErrorKind,
    pub at: Vec<usize>,
}

pub ghost struct ParseErrorV {
    pub kind: ErrorKind,
    pub at: Seq<int>,
}

impl View for ParseError {
    type V = ParseErrorV;

    open spec fn view(&self) -> ParseErrorV {
        ParseErrorV { kind: self.kind, at: self.at@.map_values(|i: usize| i as int) }
    }
}

/// An error of the given kind at index `i` of the current token list.
pub open spec fn err_at(kind: ErrorKind, i: int) -> ParseErrorV {
    ParseErrorV { kind, at: seq![i] }
}

/// An error found inside the group at index `i`.
pub open spec fn nest(i: int, e: ParseErrorV) -> ParseErrorV {
    ParseErrorV { kind: e.kind, at: seq![i] + e.at }
}

/// An error of the given kind at index `i`.
pub fn error_at(kind: ErrorKind, i: usize) -> (r: ParseError)
    ensures
        r@ == err_at(kind, i as int),
{
    let at = vec![i];
    let r = ParseError { kind, at };
    assert(r@.at =~= seq![i as int]);
    r
}

/// Prefixes the location of `e` with the index `i` of the group it was found in.
pub fn nest_error(i: usize, e: ParseError) -> (r: ParseError)
    ensures
        r@ == nest(i as int, e@),
{
    let mut e = e;
    let ghost old_at = e@.at;
    e.at.insert(0, i);
    assert(e@.at =~= seq![i as int] + old_at);
    e
}

/// One parameter of a declaration: its name and the source text of its type.
#[derive(Debug)]
pub struct Param {
    pub name: String,
    pub ty: String,
}

pub ghost struct ParamV {
    pub name: Seq<char>,
    pub ty: Seq<char>,
}

impl View for Param {
    type V = ParamV;

    open spec fn view(&self) -> ParamV {
        ParamV { name: self.name@, ty: self.ty@ }
    }
}

/// What the attributes of a declaration say.
#[derive(Debug)]
pub struct Metadata {
    /// The `cfg` attributes, each as the source text of its bracket group.
    pub cfgs: Vec<String>,
    /// The documentation, all `doc` fragments joined in order.
    pub doc: String,
    /// Source text of the description expression.
    pub description: Option<String>,
    /// Source text of the unit expression.
    pub unit: Option<String>,
}

pub ghost struct MetadataV {
    pub cfgs: Seq<Seq<char>>,
    pub doc: Seq<char>,
    pub description: Option<Seq<char>>,
    pub unit: Option<Seq<char>>,
}

pub open spec fn opt_view(o: Option<String>) -> Option<Seq<char>> {
    match o {
        Some(s) => Some(s@),
        None => None,
    }
}

pub open spec fn strings_view(v: Seq<String>) -> Seq<Seq<char>> {
    v.map_values(|s: String| s@)
}

impl View for Metadata {
    type V = MetadataV;

    open spec fn view(&self) -> MetadataV {
        MetadataV {
            cfgs: strings_view(self.cfgs@),
            doc: self.doc@,
            description: opt_view(self.description),
            unit: opt_view(self.unit),
        }
    }
}

/// One declared metric.
#[derive(Debug)]
pub struct Declaration {
    pub metadata: Metadata,
    /// Source text of the visibility marker (empty when there is none).
    pub vis: String,
    pub name: String,
    pub params: Vec<Param>,
    pub kind: Kind,
}

pub ghost struct DeclarationV {
    pub metadata: MetadataV,
    pub vis: Seq<char>,
    pub name: Seq<char>,
    pub params: Seq<ParamV>,
    pub kind: Kind,
}

pub open spec fn params_view(v: Seq<Param>) -> Seq<ParamV> {
    v.map_values(|p: Param| p@)
}

impl View for Declaration {
    type V = DeclarationV;

    open spec fn view(&self) -> DeclarationV {
        DeclarationV {
            metadata: self.metadata@,
            vis: self.vis@,
            name: self.name@,
            params: params_view(self.params@),
            kind: self.kind,
        }
    }
}

/// A parsed block of declarations.
#[derive(Debug)]
pub struct Module {
    /// The outer attributes, each as the source text of its bracket group.
    pub attrs: Vec<String>,
    pub vis: String,
    pub name: String,
    pub decls: Vec<Declaration>,
}

pub ghost struct ModuleV {
    pub attrs: Seq<Seq<char>>,
    pub vis: Seq<char>,
    pub name: Seq<char>,
    pub decls: Seq<DeclarationV>,
}

pub open spec fn decls_view(v: Seq<Declaration>) -> Seq<DeclarationV> {
    v.map_values(|d: Declaration| d@)
}

impl View for Module {
    type V = ModuleV;

    open spec fn view(&self) -> ModuleV {
        ModuleV {
            attrs: strings_view(self.attrs@),
            vis: self.vis@,
            name: self.name@,
            decls: decls_view(self.decls@),
        }
    }
}

} // verus!
