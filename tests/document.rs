use mrml::mj_body::MjBodyChild;
use mrmx::{MjAccordionElementChild, MjmlChild, WithAttribute, WithChildren};

const EMPTY_ROOT: &str = "Mjml { attributes: MjmlAttributes { owa: None, lang: None, dir: None }, children: MjmlChildren { head: None, body: None } }";

#[test]
fn basic_html_document() {
    let actual: mrml::node::Node<MjBodyChild> =
        WithChildren::with_children(mrml::node::Node::from("p"), vec![]);
    assert_eq!(format!("{actual:?}"), r#"Node { tag: "p", attributes: Map({}), children: [] }"#);
}

#[test]
fn empty_root_document() {
    let actual = WithChildren::with_children(mrml::mjml::Mjml::default(), vec![]);
    assert_eq!(format!("{actual:?}"), EMPTY_ROOT);
}

#[test]
fn mjml_title_document() {
    let head = WithChildren::with_children(
        mrml::mj_head::MjHead::default(),
        vec![mrml::mj_title::MjTitle::from("title").into()],
    );
    let actual = WithChildren::with_children(mrml::mjml::Mjml::default(), vec![MjmlChild::from(head)]);
    assert_eq!(
        format!("{actual:?}"),
        r#"Mjml { attributes: MjmlAttributes { owa: None, lang: None, dir: None }, children: MjmlChildren { head: Some(MjHead { children: [MjTitle(MjTitle { children: "title" })] }), body: None } }"#
    );
}

#[test]
fn mjml_conditional_document() {
    let head = WithChildren::with_children(
        mrml::mj_head::MjHead::default(),
        vec![mrml::mj_title::MjTitle::from("title").into()],
    );
    let button = WithChildren::with_children(
        mrml::mj_button::MjButton::default(),
        vec![mrml::text::Text::from("Hi").into()],
    );
    let body = WithChildren::with_children(mrml::mj_body::MjBody::default(), vec![button.into()]);
    let actual = WithChildren::with_children(
        mrml::mjml::Mjml::default(),
        vec![MjmlChild::from(head), MjmlChild::from(body)],
    );
    assert_eq!(
        format!("{actual:?}"),
        r#"Mjml { attributes: MjmlAttributes { owa: None, lang: None, dir: None }, children: MjmlChildren { head: Some(MjHead { children: [MjTitle(MjTitle { children: "title" })] }), body: Some(MjBody { attributes: Map({}), children: [MjButton(MjButton { attributes: Map({}), children: [Text(Text("Hi"))] })] }) } }"#
    );
}

#[test]
fn later_head_replaces_earlier() {
    let first = WithChildren::with_children(
        mrml::mj_head::MjHead::default(),
        vec![mrml::mj_title::MjTitle::from("first").into()],
    );
    let second = WithChildren::with_children(
        mrml::mj_head::MjHead::default(),
        vec![mrml::mj_title::MjTitle::from("second").into()],
    );
    let actual = WithChildren::with_children(
        mrml::mjml::Mjml::default(),
        vec![MjmlChild::from(first), MjmlChild::from(second)],
    );
    let text = format!("{actual:?}");
    assert!(text.contains("\"second\""), "{text}");
    assert!(!text.contains("\"first\""), "{text}");
    assert!(text.contains("body: None"), "{text}");
}

#[test]
fn children_are_appended() {
    let column = WithChildren::with_children(
        mrml::mj_column::MjColumn::default(),
        vec![mrml::text::Text::from("a").into()],
    );
    let column = WithChildren::with_children(column, vec![mrml::text::Text::from("b").into()]);
    assert_eq!(column.children.len(), 2);
    assert_eq!(
        format!("{:?}", column.children),
        r#"[Text(Text("a")), Text(Text("b"))]"#
    );
}

#[test]
fn generic_attribute_is_inserted() {
    let node: mrml::node::Node<MjBodyChild> = mrml::node::Node::from("p");
    let node = node.with_attribute("class".to_string(), "x".to_string());
    let node = node.with_attribute("class".to_string(), "y".to_string());
    assert_eq!(node.attributes.get("class").map(String::as_str), Some("y"));
    assert_eq!(node.attributes.len(), 1);
    let text = mrml::mj_text::MjText::default().with_attribute("mj-class".to_string(), "heading".to_string());
    assert_eq!(text.attributes.get("mj-class").map(String::as_str), Some("heading"));
}

#[test]
fn breakpoint_takes_width_only() {
    let bp = mrml::mj_breakpoint::MjBreakpoint::default()
        .with_attribute("width".to_string(), "320px".to_string())
        .with_attribute("height".to_string(), "1px".to_string());
    assert_eq!(bp.attributes.width, "320px");
}

#[test]
fn style_takes_inline_only() {
    let style = mrml::mj_style::MjStyle::default()
        .with_attribute("inline".to_string(), "inline".to_string());
    assert_eq!(style.attributes.inline.as_deref(), Some("inline"));
    let other = mrml::mj_style::MjStyle::default().with_attribute("x".to_string(), "y".to_string());
    assert_eq!(other.attributes.inline, None);
}

#[test]
fn accordion_element_keeps_last_title_and_drops_comments() {
    let title = |t: &str| {
        WithChildren::with_children(
            mrml::mj_accordion_title::MjAccordionTitle::default(),
            vec![mrml::text::Text::from(t)],
        )
    };
    let el = WithChildren::with_children(
        mrml::mj_accordion_element::MjAccordionElement::default(),
        vec![
            MjAccordionElementChild::MjAccordionTitle(title("one")),
            MjAccordionElementChild::Comment(mrml::comment::Comment::from("note")),
            MjAccordionElementChild::MjAccordionTitle(title("two")),
        ],
    );
    let text = format!("{el:?}");
    assert!(text.contains("\"two\""), "{text}");
    assert!(!text.contains("\"one\""), "{text}");
    assert!(!text.contains("note"), "{text}");
    assert!(el.children.text.is_none());
}
