//! The builder capabilities on the element types of the `mrml` document model.
use vstd::prelude::*;
use crate::builder::{WithAttribute, WithChildren};
use crate::classify::same_text;

verus! {

#[verifier::external_type_specification]
#[verifier::external_body]
#[verifier::reject_recursive_types(K)]
#[verifier::reject_recursive_types(V)]
pub struct ExMap<K, V>(mrml::prelude::hash::Map<K, V>) where K: std::hash::Hash + std::cmp::Eq;

/// What an attribute map of the document model holds, key by key.
pub uninterp spec fn attribute_map(m: mrml::prelude::hash::Map<String, String>) -> Map<Seq<char>, Seq<char>>;

/// Relies on mrml's `Map`, which dereferences to a hash map whose `insert` sets the value of
/// the key, replacing the value it had.
#[verifier::external_body]
fn insert_attribute(m: &mut mrml::prelude::hash::Map<String, String>, key: String, value: String)
    ensures
        attribute_map(*final(m)) == attribute_map(*old(m)).insert(key@, value@),
{
    m.insert(key, value);
}

// Values that the builders only move, declared without their contents.
#[verifier::external_type_specification]
#[verifier::external_body]
pub struct ExMjBodyChild(mrml::mj_body::MjBodyChild);

#[verifier::external_type_specification]
#[verifier::external_body]
pub struct ExMjHeadChild(mrml::mj_head::MjHeadChild);

#[verifier::external_type_specification]
#[verifier::external_body]
pub struct ExMjRawChild(mrml::mj_raw::MjRawChild);

#[verifier::external_type_specification]
#[verifier::external_body]
pub struct ExMjAccordionChild(mrml::mj_accordion::MjAccordionChild);

#[verifier::external_type_specification]
#[verifier::external_body]
pub struct ExMjCarouselChild(mrml::mj_carousel::MjCarouselChild);

#[verifier::external_type_specification]
#[verifier::external_body]
pub struct ExMjNavbarChild(mrml::mj_navbar::MjNavbarChild);

#[verifier::external_type_specification]
#[verifier::external_body]
pub struct ExMjSocialChild(mrml::mj_social::MjSocialChild);

#[verifier::external_type_specification]
#[verifier::external_body]
pub struct ExMjIncludeBodyChild(mrml::mj_include::body::MjIncludeBodyChild);

#[verifier::external_type_specification]
#[verifier::external_body]
pub struct ExMjIncludeHeadChild(mrml::mj_include::head::MjIncludeHeadChild);

#[verifier::external_type_specification]
#[verifier::external_body]
pub struct ExText(mrml::text::Text);

#[verifier::external_type_specification]
#[verifier::external_body]
pub struct ExComment(mrml::comment::Comment);

#[verifier::external_type_specification]
#[verifier::external_body]
pub struct ExMjmlAttributes(mrml::mjml::MjmlAttributes);

#[verifier::external_type_specification]
#[verifier::external_body]
pub struct ExMjIncludeBodyAttributes(mrml::mj_include::body::MjIncludeBodyAttributes);

#[verifier::external_type_specification]
#[verifier::external_body]
pub struct ExMjIncludeHeadAttributes(mrml::mj_include::head::MjIncludeHeadAttributes);

// Element types declared with their public fields, which the builders read and write.
#[verifier::external_type_specification]
#[verifier::reject_recursive_types(T)]
pub struct ExNode<T>(mrml::node::Node<T>);

#[verifier::external_type_specification]
pub struct ExMjBody(mrml::mj_body::MjBody);

#[verifier::external_type_specification]
pub struct ExMjHead(mrml::mj_head::MjHead);

#[verifier::external_type_specification]
pub struct ExMjText(mrml::mj_text::MjText);

#[verifier::external_type_specification]
pub struct ExMjButton(mrml::mj_button::MjButton);

#[verifier::external_type_specification]
pub struct ExMjSection(mrml::mj_section::MjSection);

#[verifier::external_type_specification]
pub struct ExMjColumn(mrml::mj_column::MjColumn);

#[verifier::external_type_specification]
pub struct ExMjGroup(mrml::mj_group::MjGroup);

#[verifier::external_type_specification]
pub struct ExMjHero(mrml::mj_hero::MjHero);

#[verifier::external_type_specification]
pub struct ExMjTable(mrml::mj_table::MjTable);

#[verifier::external_type_specification]
pub struct ExMjWrapper(mrml::mj_wrapper::MjWrapper);

#[verifier::external_type_specification]
pub struct ExMjAccordionText(mrml::mj_accordion_text::MjAccordionText);

#[verifier::external_type_specification]
pub struct ExMjNavbarLink(mrml::mj_navbar_link::MjNavbarLink);

#[verifier::external_type_specification]
pub struct ExMjSocialElement(mrml::mj_social_element::MjSocialElement);

#[verifier::external_type_specification]
pub struct ExMjRaw(mrml::mj_raw::MjRaw);

#[verifier::external_type_specification]
pub struct ExMjAccordionTitle(mrml::mj_accordion_title::MjAccordionTitle);

#[verifier::external_type_specification]
pub struct ExMjAccordion(mrml::mj_accordion::MjAccordion);

#[verifier::external_type_specification]
pub struct ExMjCarousel(mrml::mj_carousel::MjCarousel);

#[verifier::external_type_specification]
pub struct ExMjNavbar(mrml::mj_navbar::MjNavbar);

#[verifier::external_type_specification]
pub struct ExMjSocial(mrml::mj_social::MjSocial);

#[verifier::external_type_specification]
pub struct ExMjIncludeBody(mrml::mj_include::body::MjIncludeBody);

#[verifier::external_type_specification]
pub struct ExMjIncludeHead(mrml::mj_include::head::MjIncludeHead);

#[verifier::external_type_specification]
pub struct ExMjAttributesAll(mrml::mj_attributes_all::MjAttributesAll);

#[verifier::external_type_specification]
pub struct ExMjCarouselImage(mrml::mj_carousel_image::MjCarouselImage);

#[verifier::external_type_specification]
pub struct ExMjImage(mrml::mj_image::MjImage);

#[verifier::external_type_specification]
pub struct ExMjDivider(mrml::mj_divider::MjDivider);

#[verifier::external_type_specification]
pub struct ExMjSpacer(mrml::mj_spacer::MjSpacer);

#[verifier::external_type_specification]
pub struct ExMjBreakpoint(mrml::mj_breakpoint::MjBreakpoint);

#[verifier::external_type_specification]
pub struct ExMjBreakpointAttributes(mrml::mj_breakpoint::MjBreakpointAttributes);

#[verifier::external_type_specification]
pub struct ExMjStyle(mrml::mj_style::MjStyle);

#[verifier::external_type_specification]
pub struct ExMjStyleAttributes(mrml::mj_style::MjStyleAttributes);

#[verifier::external_type_specification]
pub struct ExMjml(mrml::mjml::Mjml);

#[verifier::external_type_specification]
pub struct ExMjmlChildren(mrml::mjml::MjmlChildren);

#[verifier::external_type_specification]
pub struct ExMjAccordionElement(mrml::mj_accordion_element::MjAccordionElement);

#[verifier::external_type_specification]
pub struct ExMjAccordionElementChildren(mrml::mj_accordion_element::MjAccordionElementChildren);

impl<T> WithChildren for mrml::node::Node<T> {
    type Child = T;

    fn with_children(self, children: Vec<T>) -> (r: Self)
        ensures
            r.tag == self.tag,
            r.attributes == self.attributes,
            r.children@ == self.children@ + children@,
    {
        let mut el = self;
        let mut children = children;
        el.children.append(&mut children);
        el
    }
}

impl WithChildren for mrml::mj_body::MjBody {
    type Child = mrml::mj_body::MjBodyChild;

    fn with_children(self, children: Vec<mrml::mj_body::MjBodyChild>) -> (r: Self)
        ensures
            r.attributes == self.attributes,
            r.children@ == self.children@ + children@,
    {
        let mut el = self;
        let mut children = children;
        el.children.append(&mut children);
        el
    }
}

impl WithChildren for mrml::mj_head::MjHead {
    type Child = mrml::mj_head::MjHeadChild;

    fn with_children(self, children: Vec<mrml::mj_head::MjHeadChild>) -> (r: Self)
        ensures
            r.children@ == self.children@ + children@,
    {
        let mut el = self;
        let mut children = children;
        el.children.append(&mut children);
        el
    }
}

impl WithChildren for mrml::mj_text::MjText {
    type Child = mrml::mj_body::MjBodyChild;

    fn with_children(self, children: Vec<mrml::mj_body::MjBodyChild>) -> (r: Self)
        ensures
            r.attributes == self.attributes,
            r.children@ == self.children@ + children@,
    {
        let mut el = self;
        let mut children = children;
        el.children.append(&mut children);
        el
    }
}

impl WithChildren for mrml::mj_button::MjButton {
    type Child = mrml::mj_body::MjBodyChild;

    fn with_children(self, children: Vec<mrml::mj_body::MjBodyChild>) -> (r: Self)
        ensures
            r.attributes == self.attributes,
            r.children@ == self.children@ + children@,
    {
        let mut el = self;
        let mut children = children;
        el.children.append(&mut children);
        el
    }
}

impl WithChildren for mrml::mj_section::MjSection {
    type Child = mrml::mj_body::MjBodyChild;

    fn with_children(self, children: Vec<mrml::mj_body::MjBodyChild>) -> (r: Self)
        ensures
            r.attributes == self.attributes,
            r.children@ == self.children@ + children@,
    {
        let mut el = self;
        let mut children = children;
        el.children.append(&mut children);
        el
    }
}

impl WithChildren for mrml::mj_column::MjColumn {
    type Child = mrml::mj_body::MjBodyChild;

    fn with_children(self, children: Vec<mrml::mj_body::MjBodyChild>) -> (r: Self)
        ensures
            r.attributes == self.attributes,
            r.children@ == self.children@ + children@,
    {
        let mut el = self;
        let mut children = children;
        el.children.append(&mut children);
        el
    }
}

impl WithChildren for mrml::mj_group::MjGroup {
    type Child = mrml::mj_body::MjBodyChild;

    fn with_children(self, children: Vec<mrml::mj_body::MjBodyChild>) -> (r: Self)
        ensures
            r.attributes == self.attributes,
            r.children@ == self.children@ + children@,
    {
        let mut el = self;
        let mut children = children;
        el.children.append(&mut children);
        el
    }
}

impl WithChildren for mrml::mj_hero::MjHero {
    type Child = mrml::mj_body::MjBodyChild;

    fn with_children(self, children: Vec<mrml::mj_body::MjBodyChild>) -> (r: Self)
        ensures
            r.attributes == self.attributes,
            r.children@ == self.children@ + children@,
    {
        let mut el = self;
        let mut children = children;
        el.children.append(&mut children);
        el
    }
}

impl WithChildren for mrml::mj_table::MjTable {
    type Child = mrml::mj_body::MjBodyChild;

    fn with_children(self, children: Vec<mrml::mj_body::MjBodyChild>) -> (r: Self)
        ensures
            r.attributes == self.attributes,
            r.children@ == self.children@ + children@,
    {
        let mut el = self;
        let mut children = children;
        el.children.append(&mut children);
        el
    }
}

impl WithChildren for mrml::mj_wrapper::MjWrapper {
    type Child = mrml::mj_body::MjBodyChild;

    fn with_children(self, children: Vec<mrml::mj_body::MjBodyChild>) -> (r: Self)
        ensures
            r.attributes == self.attributes,
            r.children@ == self.children@ + children@,
    {
        let mut el = self;
        let mut children = children;
        el.children.append(&mut children);
        el
    }
}

impl WithChildren for mrml::mj_accordion_text::MjAccordionText {
    type Child = mrml::mj_raw::MjRawChild;

    fn with_children(self, children: Vec<mrml::mj_raw::MjRawChild>) -> (r: Self)
        ensures
            r.attributes == self.attributes,
            r.children@ == self.children@ + children@,
    {
        let mut el = self;
        let mut children = children;
        el.children.append(&mut children);
        el
    }
}

impl WithChildren for mrml::mj_navbar_link::MjNavbarLink {
    type Child = mrml::mj_raw::MjRawChild;

    fn with_children(self, children: Vec<mrml::mj_raw::MjRawChild>) -> (r: Self)
        ensures
            r.attributes == self.attributes,
            r.children@ == self.children@ + children@,
    {
        let mut el = self;
        let mut children = children;
        el.children.append(&mut children);
        el
    }
}

impl WithChildren for mrml::mj_social_element::MjSocialElement {
    type Child = mrml::mj_raw::MjRawChild;

    fn with_children(self, children: Vec<mrml::mj_raw::MjRawChild>) -> (r: Self)
        ensures
            r.attributes == self.attributes,
            r.children@ == self.children@ + children@,
    {
        let mut el = self;
        let mut children = children;
        el.children.append(&mut children);
        el
    }
}

impl WithChildren for mrml::mj_raw::MjRaw {
    type Child = mrml::mj_raw::MjRawChild;

    fn with_children(self, children: Vec<mrml::mj_raw::MjRawChild>) -> (r: Self)
        ensures
            r.children@ == self.children@ + children@,
    {
        let mut el = self;
        let mut children = children;
        el.children.append(&mut children);
        el
    }
}

impl WithChildren for mrml::mj_accordion_title::MjAccordionTitle {
    type Child = mrml::text::Text;

    fn with_children(self, children: Vec<mrml::text::Text>) -> (r: Self)
        ensures
            r.attributes == self.attributes,
            r.children@ == self.children@ + children@,
    {
        let mut el = self;
        let mut children = children;
        el.children.append(&mut children);
        el
    }
}

impl WithChildren for mrml::mj_accordion::MjAccordion {
    type Child = mrml::mj_accordion::MjAccordionChild;

    fn with_children(self, children: Vec<mrml::mj_accordion::MjAccordionChild>) -> (r: Self)
        ensures
            r.attributes == self.attributes,
            r.children@ == self.children@ + children@,
    {
        let mut el = self;
        let mut children = children;
        el.children.append(&mut children);
        el
    }
}

impl WithChildren for mrml::mj_carousel::MjCarousel {
    type Child = mrml::mj_carousel::MjCarouselChild;

    fn with_children(self, children: Vec<mrml::mj_carousel::MjCarouselChild>) -> (r: Self)
        ensures
            r.attributes == self.attributes,
            r.children@ == self.children@ + children@,
    {
        let mut el = self;
        let mut children = children;
        el.children.append(&mut children);
        el
    }
}

impl WithChildren for mrml::mj_navbar::MjNavbar {
    type Child = mrml::mj_navbar::MjNavbarChild;

    fn with_children(self, children: Vec<mrml::mj_navbar::MjNavbarChild>) -> (r: Self)
        ensures
            r.attributes == self.attributes,
            r.children@ == self.children@ + children@,
    {
        let mut el = self;
        let mut children = children;
        el.children.append(&mut children);
        el
    }
}

impl WithChildren for mrml::mj_social::MjSocial {
    type Child = mrml::mj_social::MjSocialChild;

    fn with_children(self, children: Vec<mrml::mj_social::MjSocialChild>) -> (r: Self)
        ensures
            r.attributes == self.attributes,
            r.children@ == self.children@ + children@,
    {
        let mut el = self;
        let mut children = children;
        el.children.append(&mut children);
        el
    }
}

impl WithChildren for mrml::mj_include::body::MjIncludeBody {
    type Child = mrml::mj_include::body::MjIncludeBodyChild;

    fn with_children(self, children: Vec<mrml::mj_include::body::MjIncludeBodyChild>) -> (r: Self)
        ensures
            r.attributes == self.attributes,
            r.children@ == self.children@ + children@,
    {
        let mut el = self;
        let mut children = children;
        el.children.append(&mut children);
        el
    }
}

impl WithChildren for mrml::mj_include::head::MjIncludeHead {
    type Child = mrml::mj_include::head::MjIncludeHeadChild;

    fn with_children(self, children: Vec<mrml::mj_include::head::MjIncludeHeadChild>) -> (r: Self)
        ensures
            r.attributes == self.attributes,
            r.children@ == self.children@ + children@,
    {
        let mut el = self;
        let mut children = children;
        el.children.append(&mut children);
        el
    }
}

impl<T> WithAttribute for mrml::node::Node<T> {
    fn with_attribute(self, key: String, value: String) -> (r: Self)
        ensures
            r.tag == self.tag,
            r.children == self.children,
            attribute_map(r.attributes) == attribute_map(self.attributes).insert(key@, value@),
    {
        let mut el = self;
        insert_attribute(&mut el.attributes, key, value);
        el
    }
}

impl WithAttribute for mrml::mj_body::MjBody {
    fn with_attribute(self, key: String, value: String) -> (r: Self)
        ensures
            r.children == self.children,
            attribute_map(r.attributes) == attribute_map(self.attributes).insert(key@, value@),
    {
        let mut el = self;
        insert_attribute(&mut el.attributes, key, value);
        el
    }
}

impl WithAttribute for mrml::mj_text::MjText {
    fn with_attribute(self, key: String, value: String) -> (r: Self)
        ensures
            r.children == self.children,
            attribute_map(r.attributes) == attribute_map(self.attributes).insert(key@, value@),
    {
        let mut el = self;
        insert_attribute(&mut el.attributes, key, value);
        el
    }
}

impl WithAttribute for mrml::mj_button::MjButton {
    fn with_attribute(self, key: String, value: String) -> (r: Self)
        ensures
            r.children == self.children,
            attribute_map(r.attributes) == attribute_map(self.attributes).insert(key@, value@),
    {
        let mut el = self;
        insert_attribute(&mut el.attributes, key, value);
        el
    }
}

impl WithAttribute for mrml::mj_section::MjSection {
    fn with_attribute(self, key: String, value: String) -> (r: Self)
        ensures
            r.children == self.children,
            attribute_map(r.attributes) == attribute_map(self.attributes).insert(key@, value@),
    {
        let mut el = self;
        insert_attribute(&mut el.attributes, key, value);
        el
    }
}

impl WithAttribute for mrml::mj_column::MjColumn {
    fn with_attribute(self, key: String, value: String) -> (r: Self)
        ensures
            r.children == self.children,
            attribute_map(r.attributes) == attribute_map(self.attributes).insert(key@, value@),
    {
        let mut el = self;
        insert_attribute(&mut el.attributes, key, value);
        el
    }
}

impl WithAttribute for mrml::mj_group::MjGroup {
    fn with_attribute(self, key: String, value: String) -> (r: Self)
        ensures
            r.children == self.children,
            attribute_map(r.attributes) == attribute_map(self.attributes).insert(key@, value@),
    {
        let mut el = self;
        insert_attribute(&mut el.attributes, key, value);
        el
    }
}

impl WithAttribute for mrml::mj_hero::MjHero {
    fn with_attribute(self, key: String, value: String) -> (r: Self)
        ensures
            r.children == self.children,
            attribute_map(r.attributes) == attribute_map(self.attributes).insert(key@, value@),
    {
        let mut el = self;
        insert_attribute(&mut el.attributes, key, value);
        el
    }
}

impl WithAttribute for mrml::mj_table::MjTable {
    fn with_attribute(self, key: String, value: String) -> (r: Self)
        ensures
            r.children == self.children,
            attribute_map(r.attributes) == attribute_map(self.attributes).insert(key@, value@),
    {
        let mut el = self;
        insert_attribute(&mut el.attributes, key, value);
        el
    }
}

impl WithAttribute for mrml::mj_wrapper::MjWrapper {
    fn with_attribute(self, key: String, value: String) -> (r: Self)
        ensures
            r.children == self.children,
            attribute_map(r.attributes) == attribute_map(self.attributes).insert(key@, value@),
    {
        let mut el = self;
        insert_attribute(&mut el.attributes, key, value);
        el
    }
}

impl WithAttribute for mrml::mj_accordion_text::MjAccordionText {
    fn with_attribute(self, key: String, value: String) -> (r: Self)
        ensures
            r.children == self.children,
            attribute_map(r.attributes) == attribute_map(self.attributes).insert(key@, value@),
    {
        let mut el = self;
        insert_attribute(&mut el.attributes, key, value);
        el
    }
}

impl WithAttribute for mrml::mj_navbar_link::MjNavbarLink {
    fn with_attribute(self, key: String, value: String) -> (r: Self)
        ensures
            r.children == self.children,
            attribute_map(r.attributes) == attribute_map(self.attributes).insert(key@, value@),
    {
        let mut el = self;
        insert_attribute(&mut el.attributes, key, value);
        el
    }
}

impl WithAttribute for mrml::mj_social_element::MjSocialElement {
    fn with_attribute(self, key: String, value: String) -> (r: Self)
        ensures
            r.children == self.children,
            attribute_map(r.attributes) == attribute_map(self.attributes).insert(key@, value@),
    {
        let mut el = self;
        insert_attribute(&mut el.attributes, key, value);
        el
    }
}

impl WithAttribute for mrml::mj_accordion_title::MjAccordionTitle {
    fn with_attribute(self, key: String, value: String) -> (r: Self)
        ensures
            r.children == self.children,
            attribute_map(r.attributes) == attribute_map(self.attributes).insert(key@, value@),
    {
        let mut el = self;
        insert_attribute(&mut el.attributes, key, value);
        el
    }
}

impl WithAttribute for mrml::mj_accordion::MjAccordion {
    fn with_attribute(self, key: String, value: String) -> (r: Self)
        ensures
            r.children == self.children,
            attribute_map(r.attributes) == attribute_map(self.attributes).insert(key@, value@),
    {
        let mut el = self;
        insert_attribute(&mut el.attributes, key, value);
        el
    }
}

impl WithAttribute for mrml::mj_carousel::MjCarousel {
    fn with_attribute(self, key: String, value: String) -> (r: Self)
        ensures
            r.children == self.children,
            attribute_map(r.attributes) == attribute_map(self.attributes).insert(key@, value@),
    {
        let mut el = self;
        insert_attribute(&mut el.attributes, key, value);
        el
    }
}

impl WithAttribute for mrml::mj_navbar::MjNavbar {
    fn with_attribute(self, key: String, value: String) -> (r: Self)
        ensures
            r.children == self.children,
            attribute_map(r.attributes) == attribute_map(self.attributes).insert(key@, value@),
    {
        let mut el = self;
        insert_attribute(&mut el.attributes, key, value);
        el
    }
}

impl WithAttribute for mrml::mj_social::MjSocial {
    fn with_attribute(self, key: String, value: String) -> (r: Self)
        ensures
            r.children == self.children,
            attribute_map(r.attributes) == attribute_map(self.attributes).insert(key@, value@),
    {
        let mut el = self;
        insert_attribute(&mut el.attributes, key, value);
        el
    }
}

impl WithAttribute for mrml::mj_attributes_all::MjAttributesAll {
    fn with_attribute(self, key: String, value: String) -> (r: Self)
        ensures
            attribute_map(r.attributes) == attribute_map(self.attributes).insert(key@, value@),
    {
        let mut el = self;
        insert_attribute(&mut el.attributes, key, value);
        el
    }
}

impl WithAttribute for mrml::mj_carousel_image::MjCarouselImage {
    fn with_attribute(self, key: String, value: String) -> (r: Self)
        ensures
            attribute_map(r.attributes) == attribute_map(self.attributes).insert(key@, value@),
    {
        let mut el = self;
        insert_attribute(&mut el.attributes, key, value);
        el
    }
}

impl WithAttribute for mrml::mj_image::MjImage {
    fn with_attribute(self, key: String, value: String) -> (r: Self)
        ensures
            attribute_map(r.attributes) == attribute_map(self.attributes).insert(key@, value@),
    {
        let mut el = self;
        insert_attribute(&mut el.attributes, key, value);
        el
    }
}

impl WithAttribute for mrml::mj_divider::MjDivider {
    fn with_attribute(self, key: String, value: String) -> (r: Self)
        ensures
            attribute_map(r.attributes) == attribute_map(self.attributes).insert(key@, value@),
    {
        let mut el = self;
        insert_attribute(&mut el.attributes, key, value);
        el
    }
}

impl WithAttribute for mrml::mj_spacer::MjSpacer {
    fn with_attribute(self, key: String, value: String) -> (r: Self)
        ensures
            attribute_map(r.attributes) == attribute_map(self.attributes).insert(key@, value@),
    {
        let mut el = self;
        insert_attribute(&mut el.attributes, key, value);
        el
    }
}

impl WithAttribute for mrml::mj_breakpoint::MjBreakpoint {
    /// Only `width` is taken; any other key leaves the breakpoint as it was.
    fn with_attribute(self, key: String, value: String) -> (r: Self)
        ensures
            key@ == "width"@ ==> r.attributes.width == value,
            key@ != "width"@ ==> r == self,
    {
        let mut el = self;
        if same_text(key.as_str(), "width") {
            el.attributes.width = value;
        }
        el
    }
}

impl WithAttribute for mrml::mj_style::MjStyle {
    /// Only `inline` is taken; any other key leaves the style as it was.
    fn with_attribute(self, key: String, value: String) -> (r: Self)
        ensures
            r.children == self.children,
            key@ == "inline"@ ==> r.attributes.inline == Some(value),
            key@ != "inline"@ ==> r == self,
    {
        let mut el = self;
        if same_text(key.as_str(), "inline") {
            el.attributes.inline = Some(value);
        }
        el
    }
}

/// A child of the root element: its head or its body.
pub enum MjmlChild {
    Head(mrml::mj_head::MjHead),
    Body(mrml::mj_body::MjBody),
}

impl From<mrml::mj_head::MjHead> for MjmlChild {
    fn from(value: mrml::mj_head::MjHead) -> (r: Self)
        ensures
            r == MjmlChild::Head(value),
    {
        MjmlChild::Head(value)
    }
}

impl vstd::std_specs::convert::FromSpecImpl<mrml::mj_head::MjHead> for MjmlChild {
    open spec fn obeys_from_spec() -> bool {
        true
    }

    open spec fn from_spec(v: mrml::mj_head::MjHead) -> MjmlChild {
        MjmlChild::Head(v)
    }
}

impl From<mrml::mj_body::MjBody> for MjmlChild {
    fn from(value: mrml::mj_body::MjBody) -> (r: Self)
        ensures
            r == MjmlChild::Body(value),
    {
        MjmlChild::Body(value)
    }
}

impl vstd::std_specs::convert::FromSpecImpl<mrml::mj_body::MjBody> for MjmlChild {
    open spec fn obeys_from_spec() -> bool {
        true
    }

    open spec fn from_spec(v: mrml::mj_body::MjBody) -> MjmlChild {
        MjmlChild::Body(v)
    }
}

/// The head that a list of children leaves in place of `current`: the last one it holds.
pub open spec fn last_head(s: Seq<MjmlChild>, current: Option<mrml::mj_head::MjHead>) -> Option<mrml::mj_head::MjHead>
    decreases s.len(),
{
    if s.len() == 0 {
        current
    } else {
        match s[s.len() - 1] {
            MjmlChild::Head(h) => Some(h),
            _ => last_head(s.subrange(0, s.len() - 1), current),
        }
    }
}

/// The body that a list of children leaves in place of `current`: the last one it holds.
pub open spec fn last_body(s: Seq<MjmlChild>, current: Option<mrml::mj_body::MjBody>) -> Option<mrml::mj_body::MjBody>
    decreases s.len(),
{
    if s.len() == 0 {
        current
    } else {
        match s[s.len() - 1] {
            MjmlChild::Body(b) => Some(b),
            _ => last_body(s.subrange(0, s.len() - 1), current),
        }
    }
}

impl WithChildren for mrml::mjml::Mjml {
    type Child = MjmlChild;

    /// A later head or body replaces an earlier one.
    fn with_children(self, children: Vec<MjmlChild>) -> (r: Self)
        ensures
            r.attributes == self.attributes,
            r.children.head == last_head(children@, self.children.head),
            r.children.body == last_body(children@, self.children.body),
    {
        let mut doc = self;
        let mut rest = children;
        let ghost all = rest@;
        let mut head_set = false;
        let mut body_set = false;
        while rest.len() > 0
            invariant
                rest@.len() <= all.len(),
                rest@ == all.subrange(0, rest@.len() as int),
                doc.attributes == self.attributes,
                head_set ==> doc.children.head == last_head(all, self.children.head),
                !head_set ==> last_head(all, self.children.head) == last_head(rest@, self.children.head),
                !head_set ==> doc.children.head == self.children.head,
                body_set ==> doc.children.body == last_body(all, self.children.body),
                !body_set ==> last_body(all, self.children.body) == last_body(rest@, self.children.body),
                !body_set ==> doc.children.body == self.children.body,
            decreases rest@.len(),
        {
            let ghost before = rest@;
            let child = rest.pop().unwrap();
            assert(before.subrange(0, before.len() - 1) =~= rest@);
            match child {
                MjmlChild::Head(head) => {
                    if !head_set {
                        doc.children.head = Some(head);
                        head_set = true;
                    }
                },
                MjmlChild::Body(body) => {
                    if !body_set {
                        doc.children.body = Some(body);
                        body_set = true;
                    }
                },
            }
        }
        doc
    }
}

/// A child of an accordion element.
pub enum MjAccordionElementChild {
    Comment(mrml::comment::Comment),
    MjAccordionText(mrml::mj_accordion_text::MjAccordionText),
    MjAccordionTitle(mrml::mj_accordion_title::MjAccordionTitle),
}

/// The text that a list of children leaves in place of `current`: the last one it holds.
pub open spec fn last_text(
    s: Seq<MjAccordionElementChild>,
    current: Option<mrml::mj_accordion_text::MjAccordionText>,
) -> Option<mrml::mj_accordion_text::MjAccordionText>
    decreases s.len(),
{
    if s.len() == 0 {
        current
    } else {
        match s[s.len() - 1] {
            MjAccordionElementChild::MjAccordionText(t) => Some(t),
            _ => last_text(s.subrange(0, s.len() - 1), current),
        }
    }
}

/// The title that a list of children leaves in place of `current`: the last one it holds.
pub open spec fn last_title(
    s: Seq<MjAccordionElementChild>,
    current: Option<mrml::mj_accordion_title::MjAccordionTitle>,
) -> Option<mrml::mj_accordion_title::MjAccordionTitle>
    decreases s.len(),
{
    if s.len() == 0 {
        current
    } else {
        match s[s.len() - 1] {
            MjAccordionElementChild::MjAccordionTitle(t) => Some(t),
            _ => last_title(s.subrange(0, s.len() - 1), current),
        }
    }
}

impl WithChildren for mrml::mj_accordion_element::MjAccordionElement {
    type Child = MjAccordionElementChild;

    /// A later text or title replaces an earlier one; comments are dropped.
    fn with_children(self, children: Vec<MjAccordionElementChild>) -> (r: Self)
        ensures
            r.attributes == self.attributes,
            r.children.text == last_text(children@, self.children.text),
            r.children.title == last_title(children@, self.children.title),
    {
        let mut el = self;
        let mut rest = children;
        let ghost all = rest@;
        let mut text_set = false;
        let mut title_set = false;
        while rest.len() > 0
            invariant
                rest@.len() <= all.len(),
                rest@ == all.subrange(0, rest@.len() as int),
                el.attributes == self.attributes,
                text_set ==> el.children.text == last_text(all, self.children.text),
                !text_set ==> last_text(all, self.children.text) == last_text(rest@, self.children.text),
                !text_set ==> el.children.text == self.children.text,
                title_set ==> el.children.title == last_title(all, self.children.title),
                !title_set ==> last_title(all, self.children.title) == last_title(rest@, self.children.title),
                !title_set ==> el.children.title == self.children.title,
            decreases rest@.len(),
        {
            let ghost before = rest@;
            let child = rest.pop().unwrap();
            assert(before.subrange(0, before.len() - 1) =~= rest@);
            match child {
                MjAccordionElementChild::Comment(_) => {},
                MjAccordionElementChild::MjAccordionText(text) => {
                    if !text_set {
                        el.children.text = Some(text);
                        text_set = true;
                    }
                },
                MjAccordionElementChild::MjAccordionTitle(title) => {
                    if !title_set {
                        el.children.title = Some(title);
                        title_set = true;
                    }
                },
            }
        }
        el
    }
}

} // verus!
