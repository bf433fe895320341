//! Acceptance predicates: whether a wire-level type descriptor is compatible
//! with a derived codec, per shape.

use vstd::prelude::*;

use crate::overrides::str_eq;

verus! {

/// The kind of a wire type descriptor, with the base type where the wire
/// type is a domain (a named, constrained alias over a base type).
pub enum WireKind {
    /// An enumeration wire type.
    Enumeration,
    /// A domain over the given base type.
    Domain(Box<WireType>),
    /// Any other wire type.
    Other,
}

/// A wire-level type descriptor: a kind and a name.
pub struct WireType {
    pub name: String,
    pub kind: WireKind,
}

/// An enumeration codec accepts exactly the enumeration-kind descriptors
/// whose name equals the codec's resolved wire name.
pub open spec fn enum_accepts_model(wire_name: Seq<char>, descriptor: WireType) -> bool {
    descriptor.kind is Enumeration && descriptor.name@ == wire_name
}

/// The acceptance predicate of an enumeration codec with the given resolved
/// wire name.
pub fn enum_accepts(wire_name: &str, descriptor: &WireType) -> (r: bool)
    ensures
        r == enum_accepts_model(wire_name@, *descriptor),
{
    match &descriptor.kind {
        WireKind::Enumeration => str_eq(descriptor.name.as_str(), wire_name),
        _ => false,
    }
}

/// A wrapper codec accepts exactly the domain-kind descriptors whose name
/// equals the codec's resolved wire name and whose base type the inner
/// type's own predicate accepts.
pub open spec fn domain_accepts_model(
    wire_name: Seq<char>,
    descriptor: WireType,
    inner_accepts_base: bool,
) -> bool {
    descriptor.kind is Domain && descriptor.name@ == wire_name && inner_accepts_base
}

/// The acceptance predicate of a wrapper codec with the given resolved wire
/// name. The inner type's codec is a capability of the host, so its verdict
/// on the descriptor's base type is taken as an argument.
pub fn domain_accepts(wire_name: &str, descriptor: &WireType, inner_accepts_base: bool) -> (r:
    bool)
    ensures
        r == domain_accepts_model(wire_name@, *descriptor, inner_accepts_base),
{
    match &descriptor.kind {
        WireKind::Domain(_) => str_eq(descriptor.name.as_str(), wire_name) && inner_accepts_base,
        _ => false,
    }
}

} // verus!
