use mrmx::classify::{
    is_attribute_definition_tag, is_mjml_element, is_mjml_not_free_attributes,
    is_mjml_text_element, is_self_closing, same_text, compare_text,
};
use mrmx::names::{attribute_name, convert_to_pascal_case, convert_to_snake_case};
use mrmx::{render_view, Arg, Attribute, Ctor, Element, ErrorKind, Expr, LowerError, MarkupNode, Setter};

fn s(x: &str) -> String {
    x.to_string()
}

fn el(name: &str, attributes: Vec<Attribute>, children: Vec<MarkupNode>) -> MarkupNode {
    MarkupNode::Element(Element { name: s(name), attributes, children })
}

fn attr(key: &str, value: &str) -> Attribute {
    Attribute::Keyed(s(key), Some(s(value)))
}

fn flag(key: &str) -> Attribute {
    Attribute::Keyed(s(key), None)
}

fn text(x: &str) -> MarkupNode {
    MarkupNode::Text(s(x))
}

fn typed(tag: &str, ty: &str) -> Ctor {
    Ctor::Typed(s(tag), s(ty))
}

fn build(ctor: Ctor, setters: Vec<Setter>, children: Vec<Expr>) -> Expr {
    Expr::Build(ctor, setters, children)
}

fn into(e: Expr) -> Expr {
    Expr::Into(Box::new(e))
}

fn generic(key: &str, value: &str) -> Setter {
    Setter::Generic(s(key), Arg::Code(s(value)))
}

fn render(nodes: Vec<MarkupNode>) -> (Result<Option<Expr>, LowerError>, Vec<LowerError>) {
    let mut errors = Vec::new();
    let r = render_view(&nodes, &mut errors);
    (r, errors)
}

fn lowered(nodes: Vec<MarkupNode>) -> Expr {
    let (r, errors) = render(nodes);
    assert!(errors.is_empty(), "{errors:?}");
    r.expect("lowering aborted").expect("nothing lowered")
}

#[test]
fn basic_html() {
    let actual = lowered(vec![el("p", vec![], vec![])]);
    assert_eq!(actual, build(Ctor::Generic(s("p")), vec![], vec![]));
}

#[test]
fn mjml() {
    let actual = lowered(vec![el("mjml", vec![], vec![])]);
    assert_eq!(actual, build(typed("mjml", "Mjml"), vec![], vec![]));
}

#[test]
fn mjml_title() {
    let actual = lowered(vec![el(
        "mjml",
        vec![],
        vec![el("mj-head", vec![], vec![el("mj-title", vec![], vec![text("title")])])],
    )]);
    let title = build(Ctor::TypedText(s("mj_title"), s("MjTitle"), s("title")), vec![], vec![]);
    let head = build(typed("mj_head", "MjHead"), vec![], vec![into(title)]);
    assert_eq!(actual, build(typed("mjml", "Mjml"), vec![], vec![into(head)]));
}

#[test]
fn mjml_conditional() {
    let code = "if true { view!{<mj-button>\"Hi\"</mj-button>}.into() } else { view!{ \"Bye\" }.into() }";
    let actual = lowered(vec![el(
        "mjml",
        vec![],
        vec![
            el("mj-head", vec![], vec![el("mj-title", vec![], vec![text("title")])]),
            el("mj-body", vec![], vec![MarkupNode::Block(s(code))]),
        ],
    )]);
    let title = build(Ctor::TypedText(s("mj_title"), s("MjTitle"), s("title")), vec![], vec![]);
    let head = build(typed("mj_head", "MjHead"), vec![], vec![into(title)]);
    let body = build(typed("mj_body", "MjBody"), vec![], vec![Expr::Code(s(code))]);
    assert_eq!(actual, build(typed("mjml", "Mjml"), vec![], vec![into(head), into(body)]));
}

#[test]
fn mjml_doc() {
    let actual = lowered(vec![el(
        "mjml",
        vec![],
        vec![
            el(
                "mj-head",
                vec![],
                vec![
                    el("mj-title", vec![], vec![text("It's a title!")]),
                    el(
                        "mj-attributes",
                        vec![],
                        vec![
                            el("mj-text", vec![attr("padding", "\"0\"")], vec![]),
                            el("mj-all", vec![attr("font-family", "\"serif\"")], vec![]),
                            el(
                                "mj-class",
                                vec![attr("name", "\"heading\""), attr("color", "\"red\"")],
                                vec![],
                            ),
                        ],
                    ),
                ],
            ),
            el(
                "mj-body",
                vec![],
                vec![el(
                    "mj-section",
                    vec![],
                    vec![el(
                        "mj-column",
                        vec![],
                        vec![el("mj-text", vec![attr("mj-class", "\"heading\"")], vec![text("coucou")])],
                    )],
                )],
            ),
        ],
    )]);
    let title =
        build(Ctor::TypedText(s("mj_title"), s("MjTitle"), s("It's a title!")), vec![], vec![]);
    let attributes = build(
        typed("mj_attributes", "MjAttributes"),
        vec![],
        vec![
            into(build(Ctor::AttributesElement(s("mj-text")), vec![generic("padding", "\"0\"")], vec![])),
            into(build(Ctor::AttributesAll, vec![generic("font-family", "\"serif\"")], vec![])),
            into(build(
                Ctor::AttributesClass,
                vec![generic("name", "\"heading\""), generic("color", "\"red\"")],
                vec![],
            )),
        ],
    );
    let head = build(typed("mj_head", "MjHead"), vec![], vec![into(title), into(attributes)]);
    let mj_text = build(
        typed("mj_text", "MjText"),
        vec![generic("mj-class", "\"heading\"")],
        vec![into(Expr::Text(s("coucou")))],
    );
    let column = build(typed("mj_column", "MjColumn"), vec![], vec![into(mj_text)]);
    let section = build(typed("mj_section", "MjSection"), vec![], vec![into(column)]);
    let body = build(typed("mj_body", "MjBody"), vec![], vec![into(section)]);
    assert_eq!(actual, build(typed("mjml", "Mjml"), vec![], vec![into(head), into(body)]));
}

#[test]
fn empty_input_is_unit() {
    assert_eq!(lowered(vec![]), Expr::Unit);
}

#[test]
fn single_text_is_not_wrapped() {
    assert_eq!(lowered(vec![text("hello")]), Expr::Text(s("hello")));
}

#[test]
fn siblings_become_a_fragment_in_order() {
    let actual = lowered(vec![el("p", vec![], vec![]), el("div", vec![], vec![])]);
    assert_eq!(
        actual,
        Expr::Fragment(vec![
            into(build(Ctor::Generic(s("p")), vec![], vec![])),
            into(build(Ctor::Generic(s("div")), vec![], vec![])),
        ])
    );
}

#[test]
fn nested_fragment_of_nothing() {
    let actual = lowered(vec![MarkupNode::Fragment(vec![]), text("x")]);
    assert_eq!(actual, Expr::Fragment(vec![into(Expr::Fragment(vec![])), into(Expr::Text(s("x")))]));
}

#[test]
fn typed_attributes_keep_source_order() {
    let actual = lowered(vec![el("mj-raw", vec![flag("hidden"), attr("data-id", "7")], vec![])]);
    assert_eq!(
        actual,
        build(
            typed("mj_raw", "MjRaw"),
            vec![Setter::Typed(s("hidden"), Arg::True), Setter::Typed(s("data_id"), Arg::Code(s("7")))],
            vec![],
        )
    );
}

#[test]
fn free_attribute_without_value_is_empty_string() {
    let actual = lowered(vec![el("input", vec![flag("disabled"), attr("type", "\"text\"")], vec![])]);
    assert_eq!(
        actual,
        build(
            Ctor::Generic(s("input")),
            vec![Setter::Generic(s("disabled"), Arg::Empty), generic("type", "\"text\"")],
            vec![],
        )
    );
}

#[test]
fn html_tag_with_typed_name_uses_generic_setters() {
    let actual = lowered(vec![el("mj-include", vec![attr("path", "\"x\"")], vec![])]);
    assert_eq!(actual, build(Ctor::Generic(s("mj-include")), vec![generic("path", "\"x\"")], vec![]));
}

#[test]
fn self_closing_with_children_reports_and_keeps_siblings() {
    let (r, errors) = render(vec![el("br", vec![], vec![text("oops")]), el("p", vec![], vec![])]);
    assert_eq!(errors, vec![LowerError { kind: ErrorKind::SelfClosingChildren, tag: s("br") }]);
    assert_eq!(
        r,
        Ok(Some(Expr::Fragment(vec![
            into(build(Ctor::Generic(s("br")), vec![], vec![])),
            into(build(Ctor::Generic(s("p")), vec![], vec![])),
        ])))
    );
}

#[test]
fn text_only_children_collapse() {
    let actual =
        lowered(vec![el("mj-title", vec![attr("lang", "\"en\"")], vec![text("Hello, "), MarkupNode::RawText(s("world"))])]);
    assert_eq!(
        actual,
        build(Ctor::TypedText(s("mj_title"), s("MjTitle"), s("Hello, world")), vec![], vec![])
    );
}

#[test]
fn text_only_with_element_child_aborts() {
    let (r, _) = render(vec![el("mj-style", vec![], vec![el("b", vec![], vec![])])]);
    assert_eq!(r, Err(LowerError { kind: ErrorKind::NonTextChild, tag: s("mj-style") }));
}

#[test]
fn code_block_attribute_aborts() {
    let (r, _) = render(vec![el("mj-text", vec![Attribute::Block(s("{ x }"))], vec![])]);
    assert_eq!(r, Err(LowerError { kind: ErrorKind::CodeBlockAttribute, tag: s("mj-text") }));
}

#[test]
fn errors_before_an_abort_are_kept() {
    let (r, errors) = render(vec![
        el("hr", vec![], vec![text("a")]),
        el("mj-text", vec![Attribute::Block(s("{ x }"))], vec![]),
    ]);
    assert_eq!(errors, vec![LowerError { kind: ErrorKind::SelfClosingChildren, tag: s("hr") }]);
    assert_eq!(r, Err(LowerError { kind: ErrorKind::CodeBlockAttribute, tag: s("mj-text") }));
}

#[test]
fn attribute_definition_kinds() {
    let actual = lowered(vec![el(
        "mj-attributes",
        vec![],
        vec![el("mj-all", vec![], vec![]), el("mj-class", vec![], vec![]), el("mj-button", vec![], vec![])],
    )]);
    assert_eq!(
        actual,
        build(
            typed("mj_attributes", "MjAttributes"),
            vec![],
            vec![
                into(build(Ctor::AttributesAll, vec![], vec![])),
                into(build(Ctor::AttributesClass, vec![], vec![])),
                into(build(Ctor::AttributesElement(s("mj-button")), vec![], vec![])),
            ],
        )
    );
}

#[test]
fn attribute_definition_children_are_typed() {
    let actual = lowered(vec![el(
        "mj-attributes",
        vec![],
        vec![el("mj-raw", vec![attr("data-x", "1")], vec![el("p", vec![], vec![])])],
    )]);
    assert_eq!(
        actual,
        build(
            typed("mj_attributes", "MjAttributes"),
            vec![],
            vec![into(build(
                Ctor::AttributesElement(s("mj-raw")),
                vec![Setter::Typed(s("data_x"), Arg::Code(s("1")))],
                vec![into(build(Ctor::Generic(s("p")), vec![], vec![]))],
            ))],
        )
    );
}

#[test]
fn doctype_is_dropped() {
    let actual = lowered(vec![MarkupNode::Doctype(s("html")), el("p", vec![], vec![]), MarkupNode::Comment(s("c"))]);
    assert_eq!(
        actual,
        Expr::Fragment(vec![into(build(Ctor::Generic(s("p")), vec![], vec![])), into(Expr::Comment(s("c")))])
    );
    let (r, errors) = render(vec![MarkupNode::Doctype(s("html"))]);
    assert_eq!(r, Ok(None));
    assert!(errors.is_empty());
}

#[test]
fn lowering_twice_gives_the_same_tree() {
    let input = || {
        vec![el(
            "mj-body",
            vec![attr("width", "\"600px\"")],
            vec![el("mj-text", vec![], vec![text("a")]), MarkupNode::Block(s("extra"))],
        )]
    };
    assert_eq!(render(input()), render(input()));
}

#[test]
fn classifier_tables() {
    assert!(is_mjml_element("mjml"));
    assert!(is_mjml_element("mj-wrapper"));
    assert!(!is_mjml_element("div"));
    assert!(!is_mjml_element("mj-include"));
    assert!(is_mjml_text_element("mj-title"));
    assert!(!is_mjml_text_element("mj_preview"));
    assert!(!is_mjml_text_element("mj-text"));
    assert!(is_mjml_not_free_attributes("mj-include-head"));
    assert!(!is_mjml_not_free_attributes("mj-text"));
    assert!(is_self_closing("wbr"));
    assert!(!is_self_closing("p"));
    assert!(is_attribute_definition_tag("mj-attributes"));
    assert!(!is_attribute_definition_tag("mj-attribute"));
    assert!(same_text("héllo", "héllo"));
    assert!(!same_text("abc", "abd"));
}

#[test]
fn identifier_conventions() {
    assert_eq!(convert_to_snake_case("mj-accordion-text"), "mj_accordion_text");
    assert_eq!(convert_to_pascal_case("mj-accordion-text"), "MjAccordionText");
    assert_eq!(convert_to_pascal_case("mjml"), "Mjml");
    assert_eq!(convert_to_snake_case("mj_body"), "mj_body");
    assert_eq!(convert_to_pascal_case("MjBody"), "MjBody");
    assert_eq!(attribute_name("font-family"), "font_family");
}

#[test]
fn text_order() {
    assert!(compare_text("a", "b") < 0);
    assert!(compare_text("b", "a") > 0);
    assert!(compare_text("mj-raw", "mj-raw") == 0);
    assert!(compare_text("mj-accordion", "mj-accordion-text") < 0);
    assert!(compare_text("mj-wrapper", "mjml") < 0);
    assert!(compare_text("", "a") < 0);
}
