//! Inspection of parsed enumeration declarations: the shape of each variant,
//! its marker attributes and its literal discriminant, and the `repr` width of
//! the whole declaration.

mod repr;
mod syntax;
mod variant;

pub use variant::{
    first_attribute, lemma_first_attribute_wins, lemma_named_shape, lemma_no_attribute_named,
    lemma_unannotated_variant, lemma_unit_shape, lemma_unnamed_shape, VariantHelper,
};
pub use repr::{
    is_integer_type_name, is_repr_list, last_repr, lemma_last_repr_is_repr_list, lemma_last_repr_wins, lemma_no_repr,
    possible_parses, repr_argument, SynUtils,
};
pub use syntax::{
    Attribute, Fields, FieldsNamed, FieldsUnnamed, MissingDiscriminant, NamedField, Path, Variant,
};

