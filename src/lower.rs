//! The lowering engine: from a markup tree to constructor and setter calls.
use vstd::prelude::*;
use crate::classify::{
    attribute_definition_tag, is_attribute_definition_tag, is_mjml_element,
    is_mjml_not_free_attributes, is_mjml_text_element, is_self_closing, same_text,
    self_closing_tags, text_only_tags, typed_attribute_tags, typed_document_tags,
};
use crate::markup::{
    errors_view, exprs_view, lemma_exprs_view_push, opt_view, setters_view, Arg, Attribute,
    Ctor, Element, ErrorKind, Expr, LowerError, MarkupNode, SArg, SCtor, SExpr, SSetter, Setter,
};
use crate::names::{
    attribute_name, convert_to_pascal_case, convert_to_snake_case, pascal_of, snake_of,
    underscored,
};

verus! {

/// The context in which a node is lowered, inherited from its parent.
#[derive(Clone, Copy, PartialEq, Eq, Structural, Debug)]
pub enum Mode {
    /// The outermost call, on a single node.
    Root,
    /// The children of a fragment.
    Fragment,
    /// The children of a typed document element.
    Typed,
    /// The children of a generic node.
    Generic,
    /// The children of the element that opens attribute definitions.
    AttributeDefinitions,
}

/// What lowering a node or a sequence of nodes gives: the error that aborted it, if any; the
/// expressions built; and the structural errors that did not abort it.
pub struct Outcome {
    pub abort: Option<(ErrorKind, Seq<char>)>,
    pub exprs: Seq<SExpr>,
    pub errors: Seq<(ErrorKind, Seq<char>)>,
}

/// A lowering that built `exprs` without error.
pub open spec fn done(exprs: Seq<SExpr>) -> Outcome {
    Outcome { abort: None, exprs, errors: Seq::empty() }
}

/// A lowering aborted by an error on the element `tag`.
pub open spec fn aborted(kind: ErrorKind, tag: Seq<char>) -> Outcome {
    Outcome { abort: Some((kind, tag)), exprs: Seq::empty(), errors: Seq::empty() }
}

/// Lowering `a`, then, unless `a` aborted, lowering `b`.
pub open spec fn follow(a: Outcome, b: Outcome) -> Outcome {
    if a.abort is Some {
        a
    } else {
        Outcome { abort: b.abort, exprs: a.exprs + b.exprs, errors: a.errors + b.errors }
    }
}

/// The mode of an element's children.
pub open spec fn next_mode(tag: Seq<char>, mode: Mode) -> Mode {
    if mode == Mode::AttributeDefinitions {
        Mode::Typed
    } else if typed_document_tags().contains(tag) {
        if tag == attribute_definition_tag() {
            Mode::AttributeDefinitions
        } else {
            Mode::Typed
        }
    } else {
        Mode::Generic
    }
}

/// Whether an element is built straight from its text.
pub open spec fn is_text_shortcut(tag: Seq<char>, mode: Mode) -> bool {
    mode != Mode::AttributeDefinitions && typed_document_tags().contains(tag)
        && text_only_tags().contains(tag)
}

/// The constructor of an element that is not built from its text.
pub open spec fn ctor_for(tag: Seq<char>, mode: Mode) -> SCtor {
    if mode == Mode::AttributeDefinitions {
        if tag == "mj-all"@ {
            SCtor::AttributesAll
        } else if tag == "mj-class"@ {
            SCtor::AttributesClass
        } else {
            SCtor::AttributesElement(tag)
        }
    } else if typed_document_tags().contains(tag) {
        SCtor::Typed(snake_of(tag), pascal_of(tag))
    } else {
        SCtor::Generic(tag)
    }
}

/// Whether attributes of `tag`, whose children are in mode `next`, go through typed setters.
pub open spec fn routes_typed(tag: Seq<char>, next: Mode) -> bool {
    next != Mode::Generic && typed_attribute_tags().contains(tag)
}

/// The setter call for a keyed attribute.
pub open spec fn route(key: Seq<char>, value: Option<Seq<char>>, typed: bool) -> SSetter {
    if typed {
        SSetter::Typed(
            underscored(key),
            match value {
                Some(v) => SArg::Code(v),
                None => SArg::True,
            },
        )
    } else {
        SSetter::Generic(
            key,
            match value {
                Some(v) => SArg::Code(v),
                None => SArg::Empty,
            },
        )
    }
}

/// The setter call for an attribute (a code block gives none: it aborts the lowering).
pub open spec fn attribute_setter(a: Attribute, typed: bool) -> SSetter {
    match a {
        Attribute::Keyed(k, v) => route(
            k@,
            match v {
                Some(s) => Some(s@),
                None => None,
            },
            typed,
        ),
        Attribute::Block(_) => SSetter::Generic(Seq::empty(), SArg::Empty),
    }
}

/// Whether one of the attributes is a code block.
pub open spec fn has_code_attribute(attrs: Seq<Attribute>) -> bool {
    exists|i: int| 0 <= i < attrs.len() && attrs[i] is Block
}

/// The text of a sequence of text nodes, in order; none if any node is not text.
pub open spec fn collapse(ns: Seq<MarkupNode>) -> Option<Seq<char>>
    decreases ns.len(),
{
    if ns.len() == 0 {
        Some(Seq::empty())
    } else {
        match collapse(ns.subrange(0, ns.len() - 1)) {
            None => None,
            Some(t) => match ns[ns.len() - 1] {
                MarkupNode::Text(s) => Some(t + s@),
                MarkupNode::RawText(s) => Some(t + s@),
                _ => None,
            },
        }
    }
}

/// Wraps every expression into the conversion to the parent's child type, outside the root.
pub open spec fn wrap(o: Outcome, mode: Mode) -> Outcome {
    if mode == Mode::Root {
        o
    } else {
        Outcome { exprs: o.exprs.map_values(|e: SExpr| SExpr::Into(Box::new(e))), ..o }
    }
}

/// Lowering of one node in the given mode.
pub open spec fn lower_node_spec(n: MarkupNode, mode: Mode) -> Outcome
    decreases n,
{
    match n {
        MarkupNode::Element(el) => wrap(lower_element_spec(el, mode), mode),
        MarkupNode::Text(t) => wrap(done(seq![SExpr::Text(t@)]), mode),
        MarkupNode::RawText(t) => wrap(done(seq![SExpr::Text(t@)]), mode),
        MarkupNode::Comment(t) => wrap(done(seq![SExpr::Comment(t@)]), mode),
        MarkupNode::Block(c) => done(seq![SExpr::Code(c@)]),
        MarkupNode::Fragment(ch) => {
            let o = lower_seq_spec(ch@, Mode::Fragment);
            wrap(Outcome { exprs: seq![SExpr::Fragment(o.exprs)], ..o }, mode)
        },
        MarkupNode::Doctype(_) => done(Seq::empty()),
    }
}

/// Lowering of an element in the given (inherited) mode.
pub open spec fn lower_element_spec(el: Element, mode: Mode) -> Outcome
    decreases el,
{
    let tag = el.name@;
    let next = next_mode(tag, mode);
    if is_text_shortcut(tag, mode) {
        match collapse(el.children@) {
            Some(t) => done(
                seq![SExpr::Build(SCtor::TypedText(snake_of(tag), pascal_of(tag), t), Seq::empty(), Seq::empty())],
            ),
            None => aborted(ErrorKind::NonTextChild, tag),
        }
    } else if has_code_attribute(el.attributes@) {
        aborted(ErrorKind::CodeBlockAttribute, tag)
    } else {
        let ctor = ctor_for(tag, mode);
        let typed = routes_typed(tag, next);
        let setters = el.attributes@.map_values(|a: Attribute| attribute_setter(a, typed));
        if self_closing_tags().contains(tag) {
            Outcome {
                abort: None,
                exprs: seq![SExpr::Build(ctor, setters, Seq::empty())],
                errors: if el.children@.len() > 0 {
                    seq![(ErrorKind::SelfClosingChildren, tag)]
                } else {
                    Seq::empty()
                },
            }
        } else {
            let o = lower_seq_spec(el.children@, next);
            Outcome { exprs: seq![SExpr::Build(ctor, setters, o.exprs)], ..o }
        }
    }
}

/// Lowering of a sequence of sibling nodes, in order, in the given mode.
pub open spec fn lower_seq_spec(ns: Seq<MarkupNode>, mode: Mode) -> Outcome
    decreases ns,
{
    if ns.len() == 0 {
        done(Seq::empty())
    } else {
        follow(lower_seq_spec(ns.subrange(0, ns.len() - 1), mode), lower_node_spec(ns[ns.len() - 1], mode))
    }
}

/// Lowering of the top-level nodes of a template.
pub open spec fn render_spec(ns: Seq<MarkupNode>) -> Outcome {
    if ns.len() == 0 {
        done(seq![SExpr::Unit])
    } else if ns.len() == 1 {
        lower_node_spec(ns[0], Mode::Root)
    } else {
        let o = lower_seq_spec(ns, Mode::Fragment);
        Outcome { exprs: seq![SExpr::Fragment(o.exprs)], ..o }
    }
}

/// Whether an executable result agrees with an outcome: the same abort, or the same expressions.
pub open spec fn lowered(r: Result<Option<Expr>, LowerError>, o: Outcome) -> bool {
    match r {
        Ok(v) => o.abort is None && opt_view(v) == o.exprs,
        Err(e) => o.abort == Some(e@),
    }
}

proof fn lemma_errors_view_push(s: Seq<LowerError>, e: LowerError)
    ensures
        errors_view(s.push(e)) == errors_view(s).push(e@),
{
    assert(errors_view(s.push(e)) =~= errors_view(s).push(e@));
}

/// Once a prefix of the siblings aborts, the rest is not lowered.
proof fn lemma_seq_abort_prefix(ns: Seq<MarkupNode>, k: int, mode: Mode)
    requires
        0 <= k <= ns.len(),
        lower_seq_spec(ns.subrange(0, k), mode).abort is Some,
    ensures
        lower_seq_spec(ns, mode) == lower_seq_spec(ns.subrange(0, k), mode),
    decreases ns.len() - k,
{
    if k < ns.len() {
        let m = ns.len() - 1;
        assert(ns.subrange(0, m).subrange(0, k) =~= ns.subrange(0, k));
        lemma_seq_abort_prefix(ns.subrange(0, m), k, mode);
    } else {
        assert(ns.subrange(0, k) =~= ns);
    }
}

/// Once a non-text node is met, the text cannot be collapsed.
proof fn lemma_collapse_prefix(ns: Seq<MarkupNode>, k: int)
    requires
        0 <= k <= ns.len(),
        collapse(ns.subrange(0, k)) is None,
    ensures
        collapse(ns) is None,
    decreases ns.len() - k,
{
    if k < ns.len() {
        let m = ns.len() - 1;
        assert(ns.subrange(0, m).subrange(0, k) =~= ns.subrange(0, k));
        lemma_collapse_prefix(ns.subrange(0, m), k);
    } else {
        assert(ns.subrange(0, k) =~= ns);
    }
}

/// The expression in the conversion to the parent's child type, outside the root.
fn wrap_expr(e: Expr, mode: Mode) -> (r: Expr)
    ensures
        wrap(done(seq![e@]), mode).exprs == seq![r@],
{
    if mode == Mode::Root {
        e
    } else {
        let r = Expr::Into(Box::new(e));
        assert(seq![e@].map_values(|x: SExpr| SExpr::Into(Box::new(x))) =~= seq![r@]);
        r
    }
}

/// The text of the children of a text-only element.
fn collapse_text(children: &Vec<MarkupNode>) -> (r: Option<String>)
    ensures
        match r {
            Some(t) => collapse(children@) == Some(t@),
            None => collapse(children@) is None,
        },
{
    let mut acc = String::new();
    let mut i: usize = 0;
    while i < children.len()
        invariant
            i <= children@.len(),
            collapse(children@.subrange(0, i as int)) == Some(acc@),
        decreases children@.len() - i,
    {
        let ghost pre = children@.subrange(0, i as int);
        assert(children@.subrange(0, i + 1).subrange(0, i as int) =~= pre);
        match &children[i] {
            MarkupNode::Text(t) => {
                acc.append(t.as_str());
            },
            MarkupNode::RawText(t) => {
                acc.append(t.as_str());
            },
            _ => {
                proof {
                    lemma_collapse_prefix(children@, i + 1);
                }
                return None;
            },
        }
        i = i + 1;
    }
    assert(children@.subrange(0, children@.len() as int) =~= children@);
    Some(acc)
}

/// The setter call for a keyed attribute.
fn keyed_setter(key: &String, value: &Option<String>, typed: bool) -> (r: Setter)
    ensures
        r@ == attribute_setter(Attribute::Keyed(*key, *value), typed),
{
    let arg = match value {
        Some(c) => Arg::Code(c.clone()),
        None => if typed {
            Arg::True
        } else {
            Arg::Empty
        },
    };
    if typed {
        Setter::Typed(attribute_name(key.as_str()), arg)
    } else {
        Setter::Generic(key.clone(), arg)
    }
}

/// The setter calls for the attributes of an element, in order; none if one is a code block.
fn attribute_setters(attrs: &Vec<Attribute>, typed: bool) -> (r: Option<Vec<Setter>>)
    ensures
        r is None <==> has_code_attribute(attrs@),
        r matches Some(v) ==> setters_view(v@) == attrs@.map_values(
            |a: Attribute| attribute_setter(a, typed),
        ),
{
    let mut out: Vec<Setter> = Vec::new();
    let mut i: usize = 0;
    while i < attrs.len()
        invariant
            i <= attrs@.len(),
            forall|j: int| 0 <= j < i ==> !(attrs@[j] is Block),
            setters_view(out@) == attrs@.subrange(0, i as int).map_values(
                |a: Attribute| attribute_setter(a, typed),
            ),
        decreases attrs@.len() - i,
    {
        match &attrs[i] {
            Attribute::Keyed(k, v) => {
                let s = keyed_setter(k, v, typed);
                let ghost before = out@;
                out.push(s);
                assert(setters_view(out@) =~= setters_view(before).push(s@));
                assert(attrs@.subrange(0, i + 1).map_values(|a: Attribute| attribute_setter(a, typed))
                    =~= attrs@.subrange(0, i as int).map_values(|a: Attribute| attribute_setter(a, typed)).push(
                    attribute_setter(attrs@[i as int], typed)));
            },
            Attribute::Block(_) => {
                assert(attrs@[i as int] is Block);
                return None;
            },
        }
        i = i + 1;
    }
    assert(attrs@.subrange(0, attrs@.len() as int) =~= attrs@);
    Some(out)
}

/// The constructor of an element that is not built from its text.
fn element_ctor(tag: &String, mode: Mode, typed_tag: bool) -> (r: Ctor)
    requires
        typed_tag == typed_document_tags().contains(tag@),
    ensures
        r@ == ctor_for(tag@, mode),
{
    if mode == Mode::AttributeDefinitions {
        if same_text(tag.as_str(), "mj-all") {
            Ctor::AttributesAll
        } else if same_text(tag.as_str(), "mj-class") {
            Ctor::AttributesClass
        } else {
            Ctor::AttributesElement(tag.clone())
        }
    } else if typed_tag {
        Ctor::Typed(convert_to_snake_case(tag.as_str()), convert_to_pascal_case(tag.as_str()))
    } else {
        Ctor::Generic(tag.clone())
    }
}

/// Lowers a sequence of sibling nodes in order, dropping those that lower to nothing.
fn lower_children(nodes: &Vec<MarkupNode>, mode: Mode, errors: &mut Vec<LowerError>) -> (r: Result<
    Vec<Expr>,
    LowerError,
>)
    ensures
        match r {
            Ok(v) => lower_seq_spec(nodes@, mode).abort is None && exprs_view(v@)
                == lower_seq_spec(nodes@, mode).exprs,
            Err(e) => lower_seq_spec(nodes@, mode).abort == Some(e@),
        },
        errors_view(final(errors)@) == errors_view(old(errors)@) + lower_seq_spec(
            nodes@,
            mode,
        ).errors,
    decreases nodes,
{
    let mut out: Vec<Expr> = Vec::new();
    let mut i: usize = 0;
    assert(nodes@.subrange(0, 0) =~= Seq::<MarkupNode>::empty());
    assert(errors_view(errors@) =~= errors_view(errors@) + Seq::empty());
    while i < nodes.len()
        invariant
            i <= nodes@.len(),
            lower_seq_spec(nodes@.subrange(0, i as int), mode).abort is None,
            exprs_view(out@) == lower_seq_spec(nodes@.subrange(0, i as int), mode).exprs,
            errors_view(errors@) == errors_view(old(errors)@) + lower_seq_spec(
                nodes@.subrange(0, i as int),
                mode,
            ).errors,
        decreases nodes@.len() - i,
    {
        let ghost pre = nodes@.subrange(0, i as int);
        let ghost errs = errors_view(errors@);
        assert(nodes@.subrange(0, i + 1).subrange(0, i as int) =~= pre);
        let r = lower_node(&nodes[i], mode, errors);
        let ghost both = lower_seq_spec(nodes@.subrange(0, i + 1), mode);
        assert(both == follow(lower_seq_spec(pre, mode), lower_node_spec(nodes@[i as int], mode)));
        assert(both.errors =~= lower_seq_spec(pre, mode).errors + lower_node_spec(nodes@[i as int], mode).errors);
        match r {
            Err(e) => {
                proof {
                    lemma_seq_abort_prefix(nodes@, i + 1, mode);
                }
                return Err(e);
            },
            Ok(Some(x)) => {
                let ghost before = out@;
                out.push(x);
                proof {
                    lemma_exprs_view_push(before, x);
                }
                assert(both.exprs =~= lower_seq_spec(pre, mode).exprs + seq![x@]);
            },
            Ok(None) => {
                assert(both.exprs =~= lower_seq_spec(pre, mode).exprs);
            },
        }
        i = i + 1;
    }
    assert(nodes@.subrange(0, nodes@.len() as int) =~= nodes@);
    Ok(out)
}

/// Lowers one node in the given mode; a doctype lowers to nothing.
fn lower_node(node: &MarkupNode, mode: Mode, errors: &mut Vec<LowerError>) -> (r: Result<
    Option<Expr>,
    LowerError,
>)
    ensures
        lowered(r, lower_node_spec(*node, mode)),
        errors_view(final(errors)@) == errors_view(old(errors)@) + lower_node_spec(
            *node,
            mode,
        ).errors,
    decreases node,
{
    match node {
        MarkupNode::Element(el) => {
            match lower_element(el, mode, errors) {
                Ok(e) => {
                    let r = wrap_expr(e, mode);
                    assert(wrap(lower_element_spec(*el, mode), mode).exprs =~= wrap(done(seq![e@]), mode).exprs);
                    Ok(Some(r))
                },
                Err(e) => Err(e),
            }
        },
        MarkupNode::Text(t) => {
            let r = wrap_expr(Expr::Text(t.clone()), mode);
            assert(errors_view(errors@) =~= errors_view(errors@) + Seq::empty());
            Ok(Some(r))
        },
        MarkupNode::RawText(t) => {
            let r = wrap_expr(Expr::Text(t.clone()), mode);
            assert(errors_view(errors@) =~= errors_view(errors@) + Seq::empty());
            Ok(Some(r))
        },
        MarkupNode::Comment(t) => {
            let r = wrap_expr(Expr::Comment(t.clone()), mode);
            assert(errors_view(errors@) =~= errors_view(errors@) + Seq::empty());
            Ok(Some(r))
        },
        MarkupNode::Block(c) => {
            assert(errors_view(errors@) =~= errors_view(errors@) + Seq::empty());
            Ok(Some(Expr::Code(c.clone())))
        },
        MarkupNode::Fragment(ch) => {
            match lower_children(ch, Mode::Fragment, errors) {
                Ok(v) => {
                    let f = Expr::Fragment(v);
                    let r = wrap_expr(f, mode);
                    assert(wrap(lower_node_spec(*node, Mode::Root), mode).exprs =~= wrap(done(seq![f@]), mode).exprs);
                    Ok(Some(r))
                },
                Err(e) => Err(e),
            }
        },
        MarkupNode::Doctype(_) => {
            assert(errors_view(errors@) =~= errors_view(errors@) + Seq::empty());
            Ok(None)
        },
    }
}

/// Lowers an element in the given (inherited) mode.
fn lower_element(el: &Element, mode: Mode, errors: &mut Vec<LowerError>) -> (r: Result<
    Expr,
    LowerError,
>)
    ensures
        match r {
            Ok(e) => lower_element_spec(*el, mode).abort is None && lower_element_spec(
                *el,
                mode,
            ).exprs == seq![e@],
            Err(e) => lower_element_spec(*el, mode).abort == Some(e@),
        },
        errors_view(final(errors)@) == errors_view(old(errors)@) + lower_element_spec(
            *el,
            mode,
        ).errors,
    decreases el,
{
    let tag = el.name.as_str();
    let typed_tag = is_mjml_element(tag);
    let defining = mode == Mode::AttributeDefinitions;
    let next = if defining {
        Mode::Typed
    } else if typed_tag {
        if is_attribute_definition_tag(tag) {
            Mode::AttributeDefinitions
        } else {
            Mode::Typed
        }
    } else {
        Mode::Generic
    };
    assert(next == next_mode(el.name@, mode));
    if !defining && typed_tag && is_mjml_text_element(tag) {
        assert(errors_view(errors@) =~= errors_view(errors@) + Seq::empty());
        return match collapse_text(&el.children) {
            Some(t) => {
                let no_setters: Vec<Setter> = Vec::new();
                let no_children: Vec<Expr> = Vec::new();
                assert(setters_view(no_setters@) =~= Seq::empty());
                assert(exprs_view(no_children@) =~= Seq::empty());
                let ctor = Ctor::TypedText(
                    convert_to_snake_case(tag),
                    convert_to_pascal_case(tag),
                    t,
                );
                Ok(Expr::Build(ctor, no_setters, no_children))
            },
            None => Err(LowerError { kind: ErrorKind::NonTextChild, tag: el.name.clone() }),
        };
    }
    let typed = next != Mode::Generic && is_mjml_not_free_attributes(tag);
    let setters = match attribute_setters(&el.attributes, typed) {
        Some(v) => v,
        None => {
            assert(errors_view(errors@) =~= errors_view(errors@) + Seq::empty());
            return Err(LowerError { kind: ErrorKind::CodeBlockAttribute, tag: el.name.clone() });
        },
    };
    let ctor = element_ctor(&el.name, mode, typed_tag);
    if is_self_closing(tag) {
        if el.children.len() > 0 {
            let ghost before = errors@;
            let err = LowerError { kind: ErrorKind::SelfClosingChildren, tag: el.name.clone() };
            errors.push(err);
            proof {
                lemma_errors_view_push(before, err);
            }
            assert(errors_view(errors@) =~= errors_view(old(errors)@) + seq![(ErrorKind::SelfClosingChildren, el.name@)]);
        } else {
            assert(errors_view(errors@) =~= errors_view(errors@) + Seq::empty());
        }
        let ghost no_children = Seq::<Expr>::empty();
        let e = Expr::Build(ctor, setters, Vec::new());
        assert(exprs_view(no_children) =~= Seq::empty());
        Ok(e)
    } else {
        match lower_children(&el.children, next, errors) {
            Ok(v) => Ok(Expr::Build(ctor, setters, v)),
            Err(e) => Err(e),
        }
    }
}

/// Lowers the top-level nodes of a template: none gives the unit value, one gives its own
/// expression, and several give a fragment of theirs. Structural errors that do not abort are
/// appended to `errors`; one that aborts is returned.
pub fn render_view(nodes: &Vec<MarkupNode>, errors: &mut Vec<LowerError>) -> (r: Result<
    Option<Expr>,
    LowerError,
>)
    ensures
        lowered(r, render_spec(nodes@)),
        errors_view(final(errors)@) == errors_view(old(errors)@) + render_spec(nodes@).errors,
{
    if nodes.len() == 0 {
        assert(errors_view(errors@) =~= errors_view(errors@) + Seq::empty());
        Ok(Some(Expr::Unit))
    } else if nodes.len() == 1 {
        lower_node(&nodes[0], Mode::Root, errors)
    } else {
        match lower_children(nodes, Mode::Fragment, errors) {
            Ok(v) => Ok(Some(Expr::Fragment(v))),
            Err(e) => Err(e),
        }
    }
}

} // verus!
