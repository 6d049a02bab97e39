//! The syntax nodes that the inspection reads: a variant of an enumeration,
//! its fields, and the attributes attached to it.
//!
//! Token streams are held as their text rendering.

use vstd::prelude::*;

verus! {

/// A path as it stands in an attribute: `repr`, `serde::rename`, `::foo::bar`.
#[derive(Clone, Debug, PartialEq, Eq)]
pub struct Path {
    /// Whether the path starts with `::`.
    pub leading_colon: bool,
    /// The identifiers of the path, in order.
    pub segments: Vec<String>,
}

impl Path {
    /// The path is the single identifier `name`: no leading `::` and exactly
    /// one segment, equal to `name` character for character.
    pub open spec fn spec_is_ident(&self, name: Seq<char>) -> bool {
        &&& !self.leading_colon
        &&& self.segments@.len() == 1
        &&& self.segments@[0]@ == name
    }

    /// Whether this path is the single identifier `name`.
    pub fn is_ident(&self, name: &str) -> (r: bool)
        ensures
            r == self.spec_is_ident(name@),
    {
        if self.leading_colon || self.segments.len() != 1 {
            return false;
        }
        let wanted = name.to_string();
        proof {
            broadcast use vstd::string::to_string_from_display_ensures_for_str;
        }
        self.segments[0] == wanted
    }
}

/// An attribute attached to a variant or to a declaration, `#[path(args)]`.
#[derive(Clone, Debug, PartialEq, Eq)]
pub struct Attribute {
    /// The path that names the attribute.
    pub path: Path,
    /// The tokens between the delimiters of a list attribute such as
    /// `#[repr(u16)]` (here `u16`); `None` for `#[foo]` and `#[foo = x]`.
    pub args: Option<String>,
}

/// A field of a variant with braces, `x: u16`.
#[derive(Clone, Debug, PartialEq, Eq)]
pub struct NamedField {
    pub ident: String,
    /// The field's type, rendered as text.
    pub ty: String,
}

/// The fields of a variant with braces, `Move { x: u16, y: u16 }`.
#[derive(Clone, Debug, PartialEq, Eq)]
pub struct FieldsNamed {
    pub named: Vec<NamedField>,
}

/// The fields of a variant with parentheses, `Write(String)`: the type of
/// each positional slot, rendered as text.
#[derive(Clone, Debug, PartialEq, Eq)]
pub struct FieldsUnnamed {
    pub unnamed: Vec<String>,
}

/// The shape of a variant's payload.
#[derive(Clone, Debug, PartialEq, Eq)]
pub enum Fields {
    Named(FieldsNamed),
    Unnamed(FieldsUnnamed),
    Unit,
}

/// One variant of an enumeration.
#[derive(Clone, Debug, PartialEq, Eq)]
pub struct Variant {
    pub attrs: Vec<Attribute>,
    pub ident: String,
    pub fields: Fields,
    /// The expression after `=`, rendered as text, where one was written.
    pub discriminant: Option<String>,
}

/// A literal was asked of a variant that was given no discriminant.
#[derive(Clone, Debug, PartialEq, Eq)]
pub struct MissingDiscriminant {
    /// The identifier of the offending variant.
    pub variant: String,
}

} // verus!
