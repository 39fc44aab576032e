//! Lowering of JSX-like markup trees to the constructor and setter calls that build an MJML
//! document: tag classification, attribute routing, child aggregation, and the checks on void
//! and text-only elements.
pub mod builder;
pub mod classify;
pub mod document;
pub mod laws;
pub mod lower;
pub mod markup;
pub mod names;

pub use builder::{WithAttribute, WithChildren};
pub use document::{MjAccordionElementChild, MjmlChild};
pub use lower::{render_view, Mode};
pub use markup::{Arg, Attribute, Ctor, Element, ErrorKind, Expr, LowerError, MarkupNode, Setter};
