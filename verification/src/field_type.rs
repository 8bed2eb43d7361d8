//! Abstract descriptions of a field's declared type.

use vstd::prelude::*;

verus! {

/// An abstract, renderable description of a field's declared type,
/// decoupled from the source language's own type system.
///
/// Two descriptors are equal exactly when they describe the same kind of
/// declared type: the well-known scalar kinds are folded into one
/// descriptor each, and any other path type keeps its name.
#[derive(Debug)]
pub enum FieldType {
    Numeric,
    Boolean,
    Text,
    Named(String),
}

/// The mathematical model of a `FieldType`.
pub enum FieldTypeView {
    Numeric,
    Boolean,
    Text,
    Named(Seq<char>),
}

impl View for FieldType {
    type V = FieldTypeView;

    open spec fn view(&self) -> FieldTypeView {
        match self {
            FieldType::Numeric => FieldTypeView::Numeric,
            FieldType::Boolean => FieldTypeView::Boolean,
            FieldType::Text => FieldTypeView::Text,
            FieldType::Named(name) => FieldTypeView::Named(name@),
        }
    }
}

impl Clone for FieldType {
    /// A cloned descriptor is equal to the original.
    fn clone(&self) -> (r: Self)
        ensures
            r == self,
    {
        match self {
            FieldType::Numeric => FieldType::Numeric,
            FieldType::Boolean => FieldType::Boolean,
            FieldType::Text => FieldType::Text,
            FieldType::Named(name) => FieldType::Named(name.clone()),
        }
    }
}

impl PartialEq for FieldType {
    fn eq(&self, other: &Self) -> (r: bool) {
        match (self, other) {
            (FieldType::Numeric, FieldType::Numeric) => true,
            (FieldType::Boolean, FieldType::Boolean) => true,
            (FieldType::Text, FieldType::Text) => true,
            (FieldType::Named(a), FieldType::Named(b)) => *a == *b,
            _ => false,
        }
    }
}

impl vstd::std_specs::cmp::PartialEqSpecImpl for FieldType {
    open spec fn obeys_eq_spec() -> bool {
        true
    }

    open spec fn eq_spec(&self, other: &Self) -> bool {
        self@ == other@
    }
}

impl Eq for FieldType {

}

/// A field's declared type as the shape source reports it: a path type,
/// known by the name of its final segment, or some other form of type
/// that the descriptor mapping does not cover.
#[derive(Debug)]
pub enum TypeDecl {
    Path(String),
    Other,
}

/// The mathematical model of a `TypeDecl`.
pub enum TypeDeclView {
    Path(Seq<char>),
    Other,
}

impl View for TypeDecl {
    type V = TypeDeclView;

    open spec fn view(&self) -> TypeDeclView {
        match self {
            TypeDecl::Path(name) => TypeDeclView::Path(name@),
            TypeDecl::Other => TypeDeclView::Other,
        }
    }
}

} // verus!
