//! The shape classifier: decides whether a declaration is a supported
//! enumeration, a supported single-field wrapper, or neither.

use vstd::prelude::*;

use crate::decl::{DeclShape, EnumVariant, TypeDeclaration};

verus! {

/// The mathematical outcome of classification.
pub enum ClassModel {
    /// A non-empty enumeration, with its variants in declaration order.
    Enumeration(Seq<EnumVariant>),
    /// A single-field tuple struct, with the textual reference to the one
    /// field's type.
    Wrapper(Seq<char>),
    /// Anything else: no codec can be derived.
    Unsupported,
}

/// What a declaration classifies as: a non-empty enumeration keeps its
/// variant list, a tuple struct with exactly one field is a wrapper over
/// that field's type, and every other shape is unsupported.
pub open spec fn classify_model(decl: TypeDeclaration) -> ClassModel {
    match decl.shape {
        DeclShape::Enumeration(variants) => if variants@.len() > 0 {
            ClassModel::Enumeration(variants@)
        } else {
            ClassModel::Unsupported
        },
        DeclShape::TupleStruct(fields) => if fields@.len() == 1 {
            ClassModel::Wrapper(fields@[0]@)
        } else {
            ClassModel::Unsupported
        },
        DeclShape::Other => ClassModel::Unsupported,
    }
}

/// Classification of a borrowed declaration.
pub enum Classification<'a> {
    Enumeration(&'a Vec<EnumVariant>),
    Wrapper(&'a String),
    Unsupported,
}

/// Classifies a declaration by its raw shape alone; directives and the
/// identifier play no part in the decision.
pub fn classify<'a>(decl: &'a TypeDeclaration) -> (r: Classification<'a>)
    ensures
        match classify_model(*decl) {
            ClassModel::Enumeration(variants) => r matches Classification::Enumeration(v)
                && v@ == variants,
            ClassModel::Wrapper(inner) => r matches Classification::Wrapper(t) && t@ == inner,
            ClassModel::Unsupported => r is Unsupported,
        },
{
    match &decl.shape {
        DeclShape::Enumeration(variants) => {
            if variants.len() > 0 {
                Classification::Enumeration(variants)
            } else {
                Classification::Unsupported
            }
        },
        DeclShape::TupleStruct(fields) => {
            if fields.len() == 1 {
                Classification::Wrapper(&fields[0])
            } else {
                Classification::Unsupported
            }
        },
        DeclShape::Other => Classification::Unsupported,
    }
}

} // verus!
