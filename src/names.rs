//! Identifier conventions of the generated code.
use vstd::prelude::*;
use convert_case::Casing;

verus! {

/// The snake-case spelling that the case converter gives to a name.
pub uninterp spec fn snake_of(s: Seq<char>) -> Seq<char>;

/// The Pascal-case spelling that the case converter gives to a name.
pub uninterp spec fn pascal_of(s: Seq<char>) -> Seq<char>;

/// `s` with every hyphen turned into an underscore.
pub open spec fn underscored(s: Seq<char>) -> Seq<char> {
    s.map_values(|c: char| if c == '-' { '_' } else { c })
}

/// Relies on convert_case's `Casing::to_case` with `Case::Snake`: its result depends on the
/// characters of the name alone.
#[verifier::external_body]
fn to_snake_case(name: &str) -> (r: String)
    ensures
        r@ == snake_of(name@),
{
    name.to_case(convert_case::Case::Snake)
}

/// Relies on convert_case's `Casing::to_case` with `Case::Pascal`: its result depends on the
/// characters of the name alone.
#[verifier::external_body]
fn to_pascal_case(name: &str) -> (r: String)
    ensures
        r@ == pascal_of(name@),
{
    name.to_case(convert_case::Case::Pascal)
}

/// Relies on convert_case's `Casing::is_case` with `Case::Snake`, which compares the name with
/// what `to_case` gives it.
#[verifier::external_body]
fn is_snake_case(name: &str) -> (r: bool)
    ensures
        r == (snake_of(name@) == name@),
{
    name.is_case(convert_case::Case::Snake)
}

/// Relies on convert_case's `Casing::is_case` with `Case::Pascal`, which compares the name with
/// what `to_case` gives it.
#[verifier::external_body]
fn is_pascal_case(name: &str) -> (r: bool)
    ensures
        r == (pascal_of(name@) == name@),
{
    name.is_case(convert_case::Case::Pascal)
}

/// Relies on std's `str::replace` with a `char` pattern: every hyphen is replaced by an
/// underscore, and every other character is kept in place.
#[verifier::external_body]
fn replace_hyphens(s: &str) -> (r: String)
    ensures
        r@ == underscored(s@),
{
    s.replace('-', "_")
}

/// The module name under which the document model defines the element `tag`: the tag itself
/// where it already is in snake case.
pub fn convert_to_snake_case(tag: &str) -> (r: String)
    ensures
        r@ == snake_of(tag@),
{
    if !is_snake_case(tag) {
        to_snake_case(tag)
    } else {
        tag.to_owned()
    }
}

/// The type name under which the document model defines the element `tag`: the tag itself
/// where it already is in Pascal case.
pub fn convert_to_pascal_case(tag: &str) -> (r: String)
    ensures
        r@ == pascal_of(tag@),
{
    if !is_pascal_case(tag) {
        to_pascal_case(tag)
    } else {
        tag.to_owned()
    }
}

/// The name of the typed setter for the attribute `key`.
pub fn attribute_name(key: &str) -> (r: String)
    ensures
        r@ == underscored(key@),
{
    replace_hyphens(key)
}

} // verus!
