//! The capabilities that generated code asks of the document model's element types.
use vstd::prelude::*;

verus! {

/// An element type that takes a list of children, appended after those it already holds.
pub trait WithChildren: Sized {
    /// The type every child expression converts into.
    type Child;

    fn with_children(self, children: Vec<Self::Child>) -> Self;
}

/// An element type that takes free-form attributes as key/value strings.
pub trait WithAttribute: Sized {
    fn with_attribute(self, key: String, value: String) -> Self;
}

} // verus!
