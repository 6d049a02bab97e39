//! Classification of a single variant: its shape, its attributes and its
//! literal discriminant.

use crate::syntax::{Attribute, Fields, FieldsNamed, FieldsUnnamed, MissingDiscriminant, Variant};
use vstd::prelude::*;

verus! {

/// The first attribute of `attrs`, in order, whose path is the single
/// identifier `name`.
pub open spec fn first_attribute(attrs: Seq<Attribute>, name: Seq<char>) -> Option<Attribute>
    decreases attrs.len(),
{
    if attrs.len() == 0 {
        None
    } else if attrs[0].path.spec_is_ident(name) {
        Some(attrs[0])
    } else {
        first_attribute(attrs.drop_first(), name)
    }
}

impl Variant {
    /// The variant carries no payload.
    pub open spec fn spec_is_unit(&self) -> bool {
        self.fields is Unit
    }

    /// The fields of a variant with braces.
    pub open spec fn spec_named(&self) -> Option<FieldsNamed> {
        match self.fields {
            Fields::Named(f) => Some(f),
            _ => None,
        }
    }

    /// The fields of a variant with parentheses.
    pub open spec fn spec_unnamed(&self) -> Option<FieldsUnnamed> {
        match self.fields {
            Fields::Unnamed(f) => Some(f),
            _ => None,
        }
    }

    /// The first attribute of the variant named `name`.
    pub open spec fn spec_find_attribute(&self, name: Seq<char>) -> Option<Attribute> {
        first_attribute(self.attrs@, name)
    }
}

/// Queries on one variant of an enumeration.
pub trait VariantHelper {
    /// Whether the variant has no payload, as `Ok = 1`.
    fn is_unit(&self) -> bool;

    /// The fields of a variant with braces, as `Move { x: u16, y: u16 }`.
    fn is_named(&self) -> Option<&FieldsNamed>;

    /// The fields of a variant with parentheses, as `ChangeColor(u16, u16, u16)`.
    fn is_unnamed(&self) -> Option<&FieldsUnnamed>;

    /// The first attribute of the variant named `attr`.
    fn has_attribute<'a>(&'a self, attr: &str) -> Option<&'a Attribute>;

    /// The expression assigned to the variant, as `0` in `Ok = 0`.
    fn literal(&self) -> Result<String, MissingDiscriminant>;
}

impl VariantHelper for Variant {
    fn is_unit(&self) -> (r: bool)
        ensures
            r == self.spec_is_unit(),
    {
        match &self.fields {
            Fields::Unit => true,
            _ => false,
        }
    }

    fn is_named(&self) -> (r: Option<&FieldsNamed>)
        ensures
            match r {
                Some(f) => self.spec_named() == Some(*f),
                None => self.spec_named() is None,
            },
    {
        match &self.fields {
            Fields::Named(f) => Some(f),
            _ => None,
        }
    }

    fn is_unnamed(&self) -> (r: Option<&FieldsUnnamed>)
        ensures
            match r {
                Some(f) => self.spec_unnamed() == Some(*f),
                None => self.spec_unnamed() is None,
            },
    {
        match &self.fields {
            Fields::Unnamed(f) => Some(f),
            _ => None,
        }
    }

    fn has_attribute<'a>(&'a self, attr: &str) -> (r: Option<&'a Attribute>)
        ensures
            match r {
                Some(a) => self.spec_find_attribute(attr@) == Some(*a),
                None => self.spec_find_attribute(attr@) is None,
            },
    {
        let mut i: usize = 0;
        while i < self.attrs.len()
            invariant
                i <= self.attrs@.len(),
                forall|k: int| 0 <= k < i ==> !(#[trigger] self.attrs@[k]).path.spec_is_ident(attr@),
            decreases self.attrs@.len() - i,
        {
            if self.attrs[i].path.is_ident(attr) {
                proof {
                    lemma_first_attribute_wins(self.attrs@, attr@, i as int);
                }
                return Some(&self.attrs[i]);
            }
            i = i + 1;
        }
        proof {
            lemma_no_attribute_named(self.attrs@, attr@);
        }
        None
    }

    fn literal(&self) -> (r: Result<String, MissingDiscriminant>)
        ensures
            match r {
                Ok(text) => self.discriminant matches Some(d) && text@ == d@,
                Err(e) => self.discriminant is None && e.variant@ == self.ident@,
            },
    {
        match &self.discriminant {
            Some(d) => Ok(d.clone()),
            None => Err(MissingDiscriminant { variant: self.ident.clone() }),
        }
    }
}

/// A list in which no attribute is named `name` has no first match for it.
pub proof fn lemma_no_attribute_named(attrs: Seq<Attribute>, name: Seq<char>)
    requires
        forall|k: int| 0 <= k < attrs.len() ==> !(#[trigger] attrs[k]).path.spec_is_ident(name),
    ensures
        first_attribute(attrs, name) is None,
    decreases attrs.len(),
{
    if attrs.len() > 0 {
        let rest = attrs.drop_first();
        assert forall|k: int| 0 <= k < rest.len() implies !(#[trigger] rest[k]).path.spec_is_ident(
            name,
        ) by {
            assert(rest[k] == attrs[k + 1]);
        }
        lemma_no_attribute_named(rest, name);
    }
}

/// The first attribute named `name` is the one found, whatever attributes of
/// the same name follow it.
pub proof fn lemma_first_attribute_wins(attrs: Seq<Attribute>, name: Seq<char>, i: int)
    requires
        0 <= i < attrs.len(),
        attrs[i].path.spec_is_ident(name),
        forall|k: int| 0 <= k < i ==> !(#[trigger] attrs[k]).path.spec_is_ident(name),
    ensures
        first_attribute(attrs, name) == Some(attrs[i]),
    decreases i,
{
    if i > 0 {
        let rest = attrs.drop_first();
        assert(!attrs[0].path.spec_is_ident(name));
        assert forall|k: int| 0 <= k < i - 1 implies !(#[trigger] rest[k]).path.spec_is_ident(
            name,
        ) by {
            assert(rest[k] == attrs[k + 1]);
        }
        lemma_first_attribute_wins(rest, name, i - 1);
    }
}

/// A variant with no attributes has no attribute of any name.
pub proof fn lemma_unannotated_variant(v: &Variant, name: Seq<char>)
    requires
        v.attrs@.len() == 0,
    ensures
        v.spec_find_attribute(name) is None,
{
}

/// A variant without payload is unit, and has neither named nor positional
/// fields.
pub proof fn lemma_unit_shape(v: &Variant)
    requires
        v.fields is Unit,
    ensures
        v.spec_is_unit(),
        v.spec_named() is None,
        v.spec_unnamed() is None,
{
}

/// A variant with braces yields exactly its fields as named fields, is not
/// unit, and has no positional fields.
pub proof fn lemma_named_shape(v: &Variant, f: FieldsNamed)
    requires
        v.fields == Fields::Named(f),
    ensures
        v.spec_named() == Some(f),
        !v.spec_is_unit(),
        v.spec_unnamed() is None,
{
}

/// A variant with parentheses yields exactly its fields as positional fields,
/// is not unit, and has no named fields.
pub proof fn lemma_unnamed_shape(v: &Variant, f: FieldsUnnamed)
    requires
        v.fields == Fields::Unnamed(f),
    ensures
        v.spec_unnamed() == Some(f),
        !v.spec_is_unit(),
        v.spec_named() is None,
{
}

} // verus!
