//! Laws of the derived codecs, proved once and for all: first-match override
//! resolution, and the decode/encode round trip for override-free
//! enumerations.

use vstd::prelude::*;

use crate::codec::enum_arms_model;
use crate::decl::{Directive, EnumVariant};
use crate::fromsql::decode_model;
use crate::overrides::{directive_key, resolve_spec, wire_name_spec};
use crate::tosql::encode_model;

verus! {

/// Override resolution is deterministic and takes the first match: when the
/// directive at position `i` carries the naming key and no earlier directive
/// does, resolution yields exactly that directive's value, whatever follows.
pub proof fn lemma_resolve_first_match(directives: Seq<Directive>, i: int)
    requires
        0 <= i < directives.len(),
        directives[i].key@ == directive_key(),
        forall|j: int| 0 <= j < i ==> directives[j].key@ != directive_key(),
    ensures
        resolve_spec(directives) == Some(directives[i].value@),
    decreases i,
{
    if i > 0 {
        assert(directives.drop_first()[i - 1] == directives[i]);
        assert(forall|j: int|
            0 <= j < i - 1 ==> directives.drop_first()[j] == directives[j + 1]);
        lemma_resolve_first_match(directives.drop_first(), i - 1);
    }
}

/// Every variant of the list is payload-free.
pub open spec fn payload_free(variants: Seq<EnumVariant>) -> bool {
    forall|j: int| 0 <= j < variants.len() ==> !variants[j].carries_payload
}

/// No variant of the list carries a naming override.
pub open spec fn override_free(variants: Seq<EnumVariant>) -> bool {
    forall|j: int| 0 <= j < variants.len() ==> resolve_spec(variants[j].directives@) is None
}

/// The variants' identifiers are pairwise distinct, as they are in any
/// well-formed enum declaration.
pub open spec fn distinct_identifiers(variants: Seq<EnumVariant>) -> bool {
    forall|j: int, k: int|
        0 <= j < k < variants.len() ==> variants[j].identifier@ != variants[k].identifier@
}

/// With payload-free, override-free variants, the derived arms pair each
/// variant's identifier with itself as its own wire label.
proof fn lemma_arms_of_override_free(variants: Seq<EnumVariant>)
    requires
        payload_free(variants),
        override_free(variants),
    ensures
        enum_arms_model(variants) =~= variants.map_values(
            |v: EnumVariant| (v.identifier@, v.identifier@),
        ),
    decreases variants.len(),
{
    if variants.len() > 0 {
        assert(forall|j: int|
            0 <= j < variants.len() - 1 ==> variants.drop_last()[j] == variants[j]);
        lemma_arms_of_override_free(variants.drop_last());
        assert(wire_name_spec(variants.last().directives@, variants.last().identifier@)
            == variants.last().identifier@);
    }
}

/// Decoding hits the first arm whose wire label equals the payload: when no
/// earlier arm shares arm `i`'s label, decoding that label yields arm `i`'s
/// variant identifier.
pub proof fn lemma_decode_hits_first_label(arms: Seq<(Seq<char>, Seq<char>)>, i: int)
    requires
        0 <= i < arms.len(),
        forall|j: int| 0 <= j < i ==> arms[j].0 != arms[i].0,
    ensures
        decode_model(arms, arms[i].0) == Ok::<Seq<char>, Seq<char>>(arms[i].1),
    decreases i,
{
    if i > 0 {
        assert(arms.drop_first()[i - 1] == arms[i]);
        assert(forall|j: int| 0 <= j < i - 1 ==> arms.drop_first()[j] == arms[j + 1]);
        lemma_decode_hits_first_label(arms.drop_first(), i - 1);
    }
}

/// Encoding hits the first arm whose variant identifier equals the value's:
/// when no earlier arm shares arm `i`'s identifier, encoding that identifier
/// yields arm `i`'s wire label.
pub proof fn lemma_encode_hits_first_identifier(arms: Seq<(Seq<char>, Seq<char>)>, i: int)
    requires
        0 <= i < arms.len(),
        forall|j: int| 0 <= j < i ==> arms[j].1 != arms[i].1,
    ensures
        encode_model(arms, arms[i].1) == Some(arms[i].0),
    decreases i,
{
    if i > 0 {
        assert(arms.drop_first()[i - 1] == arms[i]);
        assert(forall|j: int| 0 <= j < i - 1 ==> arms.drop_first()[j] == arms[j + 1]);
        lemma_encode_hits_first_identifier(arms.drop_first(), i - 1);
    }
}

/// The round-trip law: in the codec derived from a payload-free enumeration
/// with no naming overrides, every variant encodes to its own identifier as
/// the wire label, and decoding that label yields the variant back.
pub proof fn lemma_enum_round_trip(variants: Seq<EnumVariant>, i: int)
    requires
        payload_free(variants),
        override_free(variants),
        distinct_identifiers(variants),
        0 <= i < variants.len(),
    ensures
        encode_model(enum_arms_model(variants), variants[i].identifier@) == Some(
            variants[i].identifier@,
        ),
        decode_model(enum_arms_model(variants), variants[i].identifier@) == Ok::<
            Seq<char>,
            Seq<char>,
        >(variants[i].identifier@),
{
    lemma_arms_of_override_free(variants);
    let arms = enum_arms_model(variants);
    assert(arms[i] == (variants[i].identifier@, variants[i].identifier@));
    assert(forall|j: int| 0 <= j < i ==> arms[j].1 != arms[i].1);
    lemma_encode_hits_first_identifier(arms, i);
    assert(forall|j: int| 0 <= j < i ==> arms[j].0 != arms[i].0);
    lemma_decode_hits_first_label(arms, i);
}

} // verus!
