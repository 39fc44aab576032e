//! The markup tree that the lowering engine reads, and the expression tree that it builds.
use vstd::prelude::*;

verus! {

/// A parsed markup node.
#[derive(Debug, PartialEq, Eq)]
pub enum MarkupNode {
    Element(Element),
    Text(String),
    /// Unquoted text, already rendered to its best plain-text form.
    RawText(String),
    Comment(String),
    /// Embedded host code, kept as its source text.
    Block(String),
    Fragment(Vec<MarkupNode>),
    /// A doctype declaration; the engine does not lower it.
    Doctype(String),
}

/// An element: a tag name, its attributes and its children, in source order.
#[derive(Debug, PartialEq, Eq)]
pub struct Element {
    pub name: String,
    pub attributes: Vec<Attribute>,
    pub children: Vec<MarkupNode>,
}

/// An attribute of an element.
#[derive(Debug, PartialEq, Eq)]
pub enum Attribute {
    /// A key with an optional value, the value being the source text of an expression.
    Keyed(String, Option<String>),
    /// Embedded host code standing where an attribute should be.
    Block(String),
}

/// The argument handed to an attribute setter.
#[derive(Debug, PartialEq, Eq)]
pub enum Arg {
    /// The attribute's value expression, as source text.
    Code(String),
    /// The boolean `true`, for a typed attribute given without a value.
    True,
    /// The empty string, for a free attribute given without a value.
    Empty,
}

/// One setter call chained onto a constructor.
#[derive(Debug, PartialEq, Eq)]
pub enum Setter {
    /// A typed setter named after the attribute.
    Typed(String, Arg),
    /// The generic key/value setter.
    Generic(String, Arg),
}

/// How an element value is constructed.
#[derive(Debug, PartialEq, Eq)]
pub enum Ctor {
    /// The attribute definition that applies to all elements.
    AttributesAll,
    /// The attribute definition that applies to a class.
    AttributesClass,
    /// The attribute definition that applies to the named element.
    AttributesElement(String),
    /// The default value of a typed element: its module and its type.
    Typed(String, String),
    /// A text-only typed element built from its text: module, type and text.
    TypedText(String, String, String),
    /// A generic node with the given tag.
    Generic(String),
}

/// A lowered expression.
#[derive(Debug, PartialEq, Eq)]
pub enum Expr {
    /// The unit value.
    Unit,
    /// A fragment of sibling values.
    Fragment(Vec<Expr>),
    /// Host code passed through as it stands.
    Code(String),
    Text(String),
    Comment(String),
    /// Conversion into the child type of the enclosing value.
    Into(Box<Expr>),
    /// A constructor, its setters, and the children attached to it (none when empty).
    Build(Ctor, Vec<Setter>, Vec<Expr>),
}

/// The kinds of structural error.
#[derive(Clone, Copy, PartialEq, Eq, Structural, Debug)]
pub enum ErrorKind {
    /// A void element was given children; they are dropped.
    SelfClosingChildren,
    /// Host code stood where an attribute was expected.
    CodeBlockAttribute,
    /// A text-only element was given a child other than text.
    NonTextChild,
}

/// A structural error, naming the tag of the offending element.
#[derive(Debug, PartialEq, Eq)]
pub struct LowerError {
    pub kind: ErrorKind,
    pub tag: String,
}

/// The mathematical form of a setter argument.
pub enum SArg {
    Code(Seq<char>),
    True,
    Empty,
}

/// The mathematical form of a setter call.
pub enum SSetter {
    Typed(Seq<char>, SArg),
    Generic(Seq<char>, SArg),
}

/// The mathematical form of a constructor.
pub enum SCtor {
    AttributesAll,
    AttributesClass,
    AttributesElement(Seq<char>),
    Typed(Seq<char>, Seq<char>),
    TypedText(Seq<char>, Seq<char>, Seq<char>),
    Generic(Seq<char>),
}

/// The mathematical form of a lowered expression.
pub enum SExpr {
    Unit,
    Fragment(Seq<SExpr>),
    Code(Seq<char>),
    Text(Seq<char>),
    Comment(Seq<char>),
    Into(Box<SExpr>),
    Build(SCtor, Seq<SSetter>, Seq<SExpr>),
}

impl View for Arg {
    type V = SArg;

    open spec fn view(&self) -> SArg {
        match self {
            Arg::Code(c) => SArg::Code(c@),
            Arg::True => SArg::True,
            Arg::Empty => SArg::Empty,
        }
    }
}

impl View for Setter {
    type V = SSetter;

    open spec fn view(&self) -> SSetter {
        match self {
            Setter::Typed(k, a) => SSetter::Typed(k@, a@),
            Setter::Generic(k, a) => SSetter::Generic(k@, a@),
        }
    }
}

impl View for Ctor {
    type V = SCtor;

    open spec fn view(&self) -> SCtor {
        match self {
            Ctor::AttributesAll => SCtor::AttributesAll,
            Ctor::AttributesClass => SCtor::AttributesClass,
            Ctor::AttributesElement(n) => SCtor::AttributesElement(n@),
            Ctor::Typed(m, t) => SCtor::Typed(m@, t@),
            Ctor::TypedText(m, t, x) => SCtor::TypedText(m@, t@, x@),
            Ctor::Generic(t) => SCtor::Generic(t@),
        }
    }
}

impl View for LowerError {
    type V = (ErrorKind, Seq<char>);

    open spec fn view(&self) -> (ErrorKind, Seq<char>) {
        (self.kind, self.tag@)
    }
}

/// The mathematical form of a sequence of setter calls.
pub open spec fn setters_view(s: Seq<Setter>) -> Seq<SSetter> {
    s.map_values(|x: Setter| x@)
}

/// The mathematical form of a sequence of errors.
pub open spec fn errors_view(s: Seq<LowerError>) -> Seq<(ErrorKind, Seq<char>)> {
    s.map_values(|x: LowerError| x@)
}

/// The mathematical form of an expression.
pub open spec fn expr_view(e: Expr) -> SExpr
    decreases e,
{
    match e {
        Expr::Unit => SExpr::Unit,
        Expr::Fragment(v) => SExpr::Fragment(exprs_view(v@)),
        Expr::Code(c) => SExpr::Code(c@),
        Expr::Text(t) => SExpr::Text(t@),
        Expr::Comment(t) => SExpr::Comment(t@),
        Expr::Into(b) => SExpr::Into(Box::new(expr_view(*b))),
        Expr::Build(c, s, v) => SExpr::Build(c@, setters_view(s@), exprs_view(v@)),
    }
}

/// The mathematical form of a sequence of expressions, element by element.
pub open spec fn exprs_view(s: Seq<Expr>) -> Seq<SExpr>
    decreases s,
{
    if s.len() == 0 {
        Seq::empty()
    } else {
        exprs_view(s.subrange(0, s.len() - 1)).push(expr_view(s[s.len() - 1]))
    }
}

impl View for Expr {
    type V = SExpr;

    open spec fn view(&self) -> SExpr {
        expr_view(*self)
    }
}

/// The expressions held by an optional result: none or one.
pub open spec fn opt_view(o: Option<Expr>) -> Seq<SExpr> {
    match o {
        Some(e) => seq![e@],
        None => Seq::empty(),
    }
}

/// Pushing an expression pushes its form.
pub proof fn lemma_exprs_view_push(s: Seq<Expr>, e: Expr)
    ensures
        exprs_view(s.push(e)) == exprs_view(s).push(e@),
{
    assert(s.push(e).subrange(0, s.len() as int) =~= s);
}

} // verus!
