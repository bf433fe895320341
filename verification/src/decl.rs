//! The input side of derivation: a type declaration as handed over by the
//! host front end, reduced to plain values.

use vstd::prelude::*;

verus! {

/// One name/value annotation attached to a declaration or to an enum variant.
///
/// Only the naming directive (see [`crate::overrides`]) is interpreted here;
/// directives under any other key are carried through and ignored.
pub struct Directive {
    pub key: String,
    pub value: String,
}

/// One variant of an enumeration declaration.
///
/// `carries_payload` is true when the variant has associated data of any
/// shape; such a variant cannot take part in a textual-label codec.
pub struct EnumVariant {
    pub identifier: String,
    pub directives: Vec<Directive>,
    pub carries_payload: bool,
}

/// The raw, pre-classification shape of a declaration.
pub enum DeclShape {
    /// An enum declaration with its variants in declaration order.
    Enumeration(Vec<EnumVariant>),
    /// A tuple-style struct declaration; each element is the textual
    /// reference to one positional field's type, in declaration order.
    TupleStruct(Vec<String>),
    /// Any other kind of item.
    Other,
}

/// A type declaration: the subject of one derivation pass.
pub struct TypeDeclaration {
    pub identifier: String,
    pub directives: Vec<Directive>,
    pub shape: DeclShape,
}

} // verus!
