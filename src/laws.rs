//! Laws of the lowering engine, proved over its specification.
use vstd::prelude::*;
use crate::classify::{lemma_typed_attribute_tag_not_void, lemma_void_tag_untyped, self_closing_tags, text_only_tags, typed_attribute_tags, typed_document_tags};
use crate::lower::{
    collapse, ctor_for, done, follow, has_code_attribute, is_text_shortcut,
    lower_element_spec, lower_node_spec, lower_seq_spec, lowered, render_spec, Mode, Outcome,
};
use crate::markup::{opt_view, Attribute, Element, ErrorKind, Expr, LowerError, MarkupNode, SArg, SCtor, SExpr, SSetter};
use crate::names::{pascal_of, snake_of, underscored};

verus! {

broadcast use vstd::string::group_string_axioms;

/// An empty template lowers to the unit value, not to a fragment.
pub proof fn lemma_empty_input()
    ensures
        render_spec(Seq::empty()) == done(seq![SExpr::Unit]),
{
}

/// A template of one node lowers to that node's own expression in the root mode: it is
/// neither put in a fragment nor converted to a child type.
pub proof fn lemma_single_node(n: MarkupNode)
    ensures
        render_spec(seq![n]) == lower_node_spec(n, Mode::Root),
        forall|i: int|
            0 <= i < render_spec(seq![n]).exprs.len() ==> !(#[trigger] render_spec(
                seq![n],
            ).exprs[i] is Into),
        !(n is Fragment) ==> forall|i: int|
            0 <= i < render_spec(seq![n]).exprs.len() ==> !(#[trigger] render_spec(
                seq![n],
            ).exprs[i] is Fragment),
{
}

/// A template of several nodes lowers to one fragment of their expressions, each lowered in
/// the fragment mode.
pub proof fn lemma_multiple_nodes(ns: Seq<MarkupNode>)
    requires
        ns.len() >= 2,
    ensures
        render_spec(ns).exprs == seq![SExpr::Fragment(lower_seq_spec(ns, Mode::Fragment).exprs)],
        render_spec(ns).abort == lower_seq_spec(ns, Mode::Fragment).abort,
        render_spec(ns).errors == lower_seq_spec(ns, Mode::Fragment).errors,
{
}

/// Two siblings lower in source order: the expressions of the first, then those of the
/// second, unless the first aborts.
pub proof fn lemma_two_siblings(a: MarkupNode, b: MarkupNode, mode: Mode)
    requires
        lower_node_spec(a, mode).abort is None,
    ensures
        lower_seq_spec(seq![a, b], mode) == (Outcome {
            abort: lower_node_spec(b, mode).abort,
            exprs: lower_node_spec(a, mode).exprs + lower_node_spec(b, mode).exprs,
            errors: lower_node_spec(a, mode).errors + lower_node_spec(b, mode).errors,
        }),
{
    let s = seq![a, b];
    assert(s.subrange(0, 1) =~= seq![a]);
    assert(seq![a].subrange(0, 0) =~= Seq::<MarkupNode>::empty());
    assert(seq![a][0] == a);
    assert(lower_seq_spec(Seq::<MarkupNode>::empty(), mode) == done(Seq::empty()));
    assert(lower_seq_spec(seq![a], mode) == follow(done(Seq::empty()), lower_node_spec(a, mode)));
    assert(lower_seq_spec(seq![a], mode).exprs =~= lower_node_spec(a, mode).exprs);
    assert(lower_seq_spec(seq![a], mode).errors =~= lower_node_spec(a, mode).errors);
}

/// Where an element's attributes go through typed setters, the setters follow the
/// attributes in source order, each named after its key with hyphens turned to underscores,
/// and an attribute without a value passes the boolean `true`.
pub proof fn lemma_typed_attribute_routing(el: Element, mode: Mode)
    requires
        mode != Mode::AttributeDefinitions ==> typed_document_tags().contains(el.name@),
        typed_attribute_tags().contains(el.name@),
        !text_only_tags().contains(el.name@),
        !has_code_attribute(el.attributes@),
    ensures
        lower_element_spec(el, mode).exprs.len() == 1,
        lower_element_spec(el, mode).exprs[0] matches SExpr::Build(_, setters, _) && setters.len()
            == el.attributes@.len() && forall|i: int|
            0 <= i < setters.len() ==> (#[trigger] el.attributes@[i] matches Attribute::Keyed(
                k,
                v,
            ) && setters[i] == SSetter::Typed(
                underscored(k@),
                match v {
                    Some(c) => SArg::Code(c@),
                    None => SArg::True,
                },
            )),
{
    lemma_typed_attribute_tag_not_void(el.name@);
    let o = lower_element_spec(el, mode);
    assert forall|i: int| 0 <= i < el.attributes@.len() implies el.attributes@[i] is Keyed by {
        if el.attributes@[i] is Block {
            assert(has_code_attribute(el.attributes@));
        }
    }
}

/// Lowering one more sibling: the siblings before it, then it, unless they aborted.
pub proof fn lemma_seq_push(ns: Seq<MarkupNode>, n: MarkupNode, mode: Mode)
    ensures
        lower_seq_spec(ns.push(n), mode) == follow(lower_seq_spec(ns, mode), lower_node_spec(n, mode)),
{
    assert(ns.push(n).subrange(0, ns.len() as int) =~= ns);
}

/// A void element given children lowers to its constructor and setters alone and reports
/// one error that names its tag; a sibling after it is lowered all the same.
pub proof fn lemma_self_closing_violation(el: Element, sibling: MarkupNode, mode: Mode)
    requires
        self_closing_tags().contains(el.name@),
        el.children@.len() > 0,
        !has_code_attribute(el.attributes@),
    ensures
        lower_element_spec(el, mode).abort is None,
        lower_element_spec(el, mode).errors == seq![(ErrorKind::SelfClosingChildren, el.name@)],
        lower_element_spec(el, mode).exprs.len() == 1,
        lower_element_spec(el, mode).exprs[0] matches SExpr::Build(c, _, ch) && c == ctor_for(
            el.name@,
            mode,
        ) && ch.len() == 0,
        lower_seq_spec(seq![MarkupNode::Element(el), sibling], mode).abort == lower_node_spec(
            sibling,
            mode,
        ).abort,
        lower_seq_spec(seq![MarkupNode::Element(el), sibling], mode).errors == seq![
            (ErrorKind::SelfClosingChildren, el.name@),
        ] + lower_node_spec(sibling, mode).errors,
        lower_seq_spec(seq![MarkupNode::Element(el), sibling], mode).exprs == lower_node_spec(
            MarkupNode::Element(el),
            mode,
        ).exprs + lower_node_spec(sibling, mode).exprs,
{
    lemma_void_tag_untyped(el.name@);
    lemma_two_siblings(MarkupNode::Element(el), sibling, mode);
}

/// The text of a text node.
pub open spec fn node_text(n: MarkupNode) -> Seq<char> {
    match n {
        MarkupNode::Text(s) => s@,
        MarkupNode::RawText(s) => s@,
        _ => Seq::empty(),
    }
}

/// A text-only element with two text children is built from their concatenated text, with
/// no setters and no list of children.
pub proof fn lemma_text_collapse(el: Element, mode: Mode, x: MarkupNode, y: MarkupNode)
    requires
        is_text_shortcut(el.name@, mode),
        el.children@ == seq![x, y],
        x is Text || x is RawText,
        y is Text || y is RawText,
    ensures
        lower_element_spec(el, mode) == done(
            seq![SExpr::Build(SCtor::TypedText(snake_of(el.name@), pascal_of(el.name@), node_text(x) + node_text(y)), Seq::empty(), Seq::empty())],
        ),
{
    let s = seq![x, y];
    assert(s.subrange(0, 1) =~= seq![x]);
    assert(seq![x].subrange(0, 0) =~= Seq::<MarkupNode>::empty());
    assert(seq![x][0] == x);
    assert(collapse(Seq::<MarkupNode>::empty()) == Some(Seq::<char>::empty()));
    assert(collapse(seq![x]) == Some(Seq::<char>::empty() + node_text(x)));
    assert(Seq::<char>::empty() + node_text(x) =~= node_text(x));
}

/// The constructor of a child converted to its parent's child type.
pub open spec fn child_ctor(e: SExpr) -> Option<SCtor> {
    match e {
        SExpr::Into(b) => match *b {
            SExpr::Build(c, _, _) => Some(c),
            _ => None,
        },
        _ => None,
    }
}

/// Inside the element that opens attribute definitions, a child tagged `mj-all` defines
/// attributes for all elements, one tagged `mj-class` defines them for a class, and any
/// other defines them for the element it is named after.
pub proof fn lemma_attribute_definitions(el: Element, mode: Mode, a: Element, b: Element, c: Element)
    requires
        el.name@ == "mj-attributes"@,
        mode != Mode::AttributeDefinitions,
        el.children@ == seq![MarkupNode::Element(a), MarkupNode::Element(b), MarkupNode::Element(c)],
        a.name@ == "mj-all"@,
        b.name@ == "mj-class"@,
        c.name@ != "mj-all"@,
        c.name@ != "mj-class"@,
        lower_element_spec(el, mode).abort is None,
    ensures
        lower_element_spec(el, mode).exprs.len() == 1,
        lower_element_spec(el, mode).exprs[0] matches SExpr::Build(_, _, ch) && ch.len() == 3
            && child_ctor(ch[0]) == Some(SCtor::AttributesAll) && child_ctor(ch[1]) == Some(
            SCtor::AttributesClass,
        ) && child_ctor(ch[2]) == Some(SCtor::AttributesElement(c.name@)),
{
    reveal_strlit("mj-attributes");
    reveal_strlit("mj-preview");
    reveal_strlit("mj-style");
    reveal_strlit("mj-title");
    reveal_strlit("mj-all");
    reveal_strlit("mj-class");
    assert(typed_document_tags()[4] == el.name@);
    assert(!text_only_tags().contains(el.name@));
    assert(!self_closing_tags().contains(el.name@)) by {
        if self_closing_tags().contains(el.name@) {
            lemma_void_tag_untyped(el.name@);
        }
    }
    let m = Mode::AttributeDefinitions;
    let na = MarkupNode::Element(a);
    let nb = MarkupNode::Element(b);
    let nc = MarkupNode::Element(c);
    assert(seq![na, nb, nc] =~= Seq::<MarkupNode>::empty().push(na).push(nb).push(nc));
    lemma_seq_push(Seq::<MarkupNode>::empty(), na, m);
    lemma_seq_push(Seq::<MarkupNode>::empty().push(na), nb, m);
    lemma_seq_push(Seq::<MarkupNode>::empty().push(na).push(nb), nc, m);
    assert(lower_seq_spec(Seq::<MarkupNode>::empty(), m) == done(Seq::empty()));
    let o = lower_seq_spec(el.children@, m);
    assert(o.abort is None);
    assert(lower_element_spec(a, m).abort is None);
    assert(lower_element_spec(b, m).abort is None);
    assert(lower_element_spec(c, m).abort is None);
    assert(o.exprs =~= lower_node_spec(na, m).exprs + lower_node_spec(nb, m).exprs + lower_node_spec(nc, m).exprs);
    assert(ctor_for(a.name@, m) == SCtor::AttributesAll);
    assert("mj-class"@.len() != "mj-all"@.len());
    assert(ctor_for(b.name@, m) == SCtor::AttributesClass);
    assert(ctor_for(c.name@, m) == SCtor::AttributesElement(c.name@));
    let ea = lower_element_spec(a, m).exprs[0];
    let eb = lower_element_spec(b, m).exprs[0];
    let ec = lower_element_spec(c, m).exprs[0];
    assert(lower_node_spec(na, m).exprs =~= seq![SExpr::Into(Box::new(ea))]);
    assert(lower_node_spec(nb, m).exprs =~= seq![SExpr::Into(Box::new(eb))]);
    assert(lower_node_spec(nc, m).exprs =~= seq![SExpr::Into(Box::new(ec))]);
    assert(child_ctor(o.exprs[0]) == Some(SCtor::AttributesAll));
    assert(child_ctor(o.exprs[1]) == Some(SCtor::AttributesClass));
    assert(child_ctor(o.exprs[2]) == Some(SCtor::AttributesElement(c.name@)));
}

/// Lowering is a function of its input: any two results that meet the contract of the
/// engine on the same nodes agree.
pub proof fn lemma_render_deterministic(
    ns: Seq<MarkupNode>,
    r1: Result<Option<Expr>, LowerError>,
    r2: Result<Option<Expr>, LowerError>,
)
    requires
        lowered(r1, render_spec(ns)),
        lowered(r2, render_spec(ns)),
    ensures
        r1 is Ok <==> r2 is Ok,
        r1 matches Ok(v1) ==> r2 matches Ok(v2) && opt_view(v1) == opt_view(v2),
        r1 matches Err(e1) ==> r2 matches Err(e2) && e1@ == e2@,
{
}

} // verus!
