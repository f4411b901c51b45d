//! The name and the visibility of the methods generated for a field.

use vstd::prelude::*;
use crate::directives::{FieldAttrData, FieldAttrModel};
use crate::model::{FieldDeclaration, Visibility};

verus! {

/// What the mutating method's name ends with.
pub open spec fn mutating_suffix() -> Seq<char> {
    "_mut"@
}

/// The name shared by both methods of a field: the type's prefix, if it has
/// one, then the field's custom name or else its declared name.
pub open spec fn base_name(
    prefix: Option<Seq<char>>,
    attrs: FieldAttrModel,
    declared: Seq<char>,
) -> Seq<char> {
    let head = match prefix {
        Some(p) => p,
        None => Seq::empty(),
    };
    let stem = match attrs.field_name {
        Some(custom) => custom,
        None => declared,
    };
    head + stem
}

/// The name of one method of a field: the base name for the consuming
/// method, the base name followed by `_mut` for the mutating one.
pub open spec fn method_name(
    prefix: Option<Seq<char>>,
    attrs: FieldAttrModel,
    declared: Seq<char>,
    mutable: bool,
) -> Seq<char> {
    if mutable {
        base_name(prefix, attrs, declared) + mutating_suffix()
    } else {
        base_name(prefix, attrs, declared)
    }
}

/// The visibility shared by both methods of a field: public where the
/// field is public or the field's settings force it, inherited otherwise.
pub open spec fn method_visibility(attrs: FieldAttrModel, declared: Visibility) -> Visibility {
    if attrs.force_public || declared == Visibility::Public {
        Visibility::Public
    } else {
        Visibility::Inherited
    }
}

/// Builds the name of the consuming (`mutable == false`) or the mutating
/// method of a field. An empty custom name is taken as it is.
pub fn get_method_name(
    field_attrs: &FieldAttrData,
    field: &FieldDeclaration,
    mutable: bool,
    prefix: &Option<String>,
) -> (res: String)
    ensures
        res@ == method_name(prefix.deep_view(), field_attrs.deep_view(), field.name@, mutable),
{
    let mut name = match prefix {
        Some(text) => text.clone(),
        None => String::new(),
    };
    match &field_attrs.field_name {
        Some(custom) => name.append(custom.as_str()),
        None => name.append(field.name.as_str()),
    }
    if mutable {
        name.append("_mut");
    }
    name
}

/// Decides the visibility of both methods of a field.
pub fn get_visibility(field_attrs: &FieldAttrData, field: &FieldDeclaration) -> (res: Visibility)
    ensures
        res == method_visibility(field_attrs.deep_view(), field.visibility),
{
    let is_public = field_attrs.force_public || match field.visibility {
        Visibility::Public => true,
        Visibility::Inherited => false,
    };
    if is_public {
        Visibility::Public
    } else {
        Visibility::Inherited
    }
}

} // verus!
