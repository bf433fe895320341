//! The override resolver: picks the explicit wire name out of a
//! declaration's (or a variant's) directives, if one is present.

use vstd::prelude::*;

use crate::decl::Directive;

verus! {

/// The one directive key that controls the wire name.
pub open spec fn directive_key() -> Seq<char> {
    "name"@
}

/// First-match resolution: the value of the first directive whose key is the
/// naming key, or nothing when no directive carries that key.
pub open spec fn resolve_spec(directives: Seq<Directive>) -> Option<Seq<char>>
    decreases directives.len(),
{
    if directives.len() == 0 {
        None
    } else if directives[0].key@ == directive_key() {
        Some(directives[0].value@)
    } else {
        resolve_spec(directives.drop_first())
    }
}

/// The wire name a declaration or variant resolves to: its override when one
/// is present, otherwise its own identifier.
pub open spec fn wire_name_spec(directives: Seq<Directive>, identifier: Seq<char>) -> Seq<char> {
    match resolve_spec(directives) {
        Some(name) => name,
        None => identifier,
    }
}

/// String equality by contents.
pub(crate) fn str_eq(a: &str, b: &str) -> (r: bool)
    ensures
        r == (a@ == b@),
{
    let left: String = a.to_owned();
    let right: String = b.to_owned();
    left == right
}

/// Scans the directives in order and returns the value of the first one whose
/// key is the naming key, verbatim; directives under other keys are ignored.
pub fn resolve(directives: &Vec<Directive>) -> (r: Option<&String>)
    ensures
        match resolve_spec(directives@) {
            Some(value) => r matches Some(s) && s@ == value,
            None => r is None,
        },
{
    let mut i: usize = 0;
    assert(directives@.skip(0) =~= directives@);
    while i < directives.len()
        invariant
            i <= directives@.len(),
            resolve_spec(directives@) == resolve_spec(directives@.skip(i as int)),
        decreases directives@.len() - i,
    {
        assert(directives@.skip(i as int)[0] == directives@[i as int]);
        assert(directives@.skip(i as int).drop_first() =~= directives@.skip(i as int + 1));
        if str_eq(directives[i].key.as_str(), "name") {
            return Some(&directives[i].value);
        }
        i = i + 1;
    }
    assert(directives@.skip(i as int) =~= Seq::<Directive>::empty());
    None
}

/// The resolved wire name of an entity: the first naming override when one
/// exists, else a copy of the entity's own identifier.
pub fn resolved_wire_name(directives: &Vec<Directive>, identifier: &String) -> (r: String)
    ensures
        r@ == wire_name_spec(directives@, identifier@),
{
    match resolve(directives) {
        Some(name) => name.clone(),
        None => identifier.clone(),
    }
}

} // verus!
