//! The encoder pipeline: derives an encoding codec from a declaration, and
//! the encode procedures the derived codec stands for.

use vstd::prelude::*;

use crate::classify::{classify, Classification};
use crate::codec::{
    arms_view, build_arms, expansion_ok, Arm, Codec, CodecBody, Diagnostic, Expansion,
};
use crate::decl::TypeDeclaration;
use crate::overrides::{resolved_wire_name, str_eq};

verus! {

/// The encoder's declaration of whether the encoded value stands for an
/// absent value on the wire.
#[derive(Clone, Copy, PartialEq, Eq, Debug)]
pub enum IsNull {
    Yes,
    No,
}

/// What an enumeration encoder hands to the wire: the matched label's text,
/// written to the output sink in full, and the null marker.
pub struct Encoded {
    pub text: String,
    pub null_marker: IsNull,
}

/// Encoding by variant: the wire label of the first arm whose variant
/// identifier is the value's own, or nothing when the value matches no arm.
pub open spec fn encode_model(arms: Seq<(Seq<char>, Seq<char>)>, variant: Seq<char>) -> Option<
    Seq<char>,
>
    decreases arms.len(),
{
    if arms.len() == 0 {
        None
    } else if arms[0].1 == variant {
        Some(arms[0].0)
    } else {
        encode_model(arms.drop_first(), variant)
    }
}

/// The encode procedure of an enumeration codec: matches the in-memory
/// value, given by the identifier of the variant it holds, against the arms,
/// and emits the matched arm's wire label with a definitely-not-null marker;
/// an enumeration never encodes to an absent wire value. The match is total
/// over the variants known at derivation time, so a value of the declared
/// type never returns `None`.
pub fn enum_to_sql(arms: &Vec<Arm>, variant: &str) -> (r: Option<Encoded>)
    ensures
        match encode_model(arms_view(arms@), variant@) {
            Some(label) => r matches Some(e) && e.text@ == label && e.null_marker == IsNull::No,
            None => r is None,
        },
{
    let ghost model = arms_view(arms@);
    let mut i: usize = 0;
    assert(model.skip(0) =~= model);
    while i < arms.len()
        invariant
            i <= arms@.len(),
            model == arms_view(arms@),
            encode_model(model, variant@) == encode_model(model.skip(i as int), variant@),
        decreases arms@.len() - i,
    {
        assert(model.skip(i as int)[0] == model[i as int]);
        assert(model.skip(i as int).drop_first() =~= model.skip(i as int + 1));
        if str_eq(arms[i].variant_identifier.as_str(), variant) {
            return Some(Encoded { text: arms[i].wire_label.clone(), null_marker: IsNull::No });
        }
        i = i + 1;
    }
    assert(model.skip(i as int) =~= Seq::<(Seq<char>, Seq<char>)>::empty());
    None
}

/// The encode procedure of a wrapper codec: pure delegation. The inner
/// type's encoder runs on the wrapped value with the same wire type and
/// context as a capability of the host, writing to the same sink; its
/// result, null marker included, is returned unchanged.
pub fn domain_to_sql<E>(inner: Result<IsNull, E>) -> (r: Result<IsNull, E>)
    ensures
        r == inner,
{
    inner
}

/// One pass of the encoder pipeline over a declaration: classifies it,
/// resolves the declaration's own wire name, and derives the encoding codec,
/// with a diagnostic for every rejected part.
pub fn expand(decl: &TypeDeclaration) -> (r: Expansion)
    ensures
        expansion_ok(*decl, r),
{
    match classify(decl) {
        Classification::Enumeration(variants) => {
            let wire_name = resolved_wire_name(&decl.directives, &decl.identifier);
            let (arms, diagnostics) = build_arms(variants);
            Expansion {
                codec: Some(
                    Codec {
                        type_identifier: decl.identifier.clone(),
                        wire_name,
                        body: CodecBody::Enumeration(arms),
                    },
                ),
                diagnostics,
            }
        },
        Classification::Wrapper(inner) => {
            let wire_name = resolved_wire_name(&decl.directives, &decl.identifier);
            Expansion {
                codec: Some(
                    Codec {
                        type_identifier: decl.identifier.clone(),
                        wire_name,
                        body: CodecBody::Wrapper(inner.clone()),
                    },
                ),
                diagnostics: Vec::new(),
            }
        },
        Classification::Unsupported => {
            let mut diagnostics: Vec<Diagnostic> = Vec::new();
            diagnostics.push(Diagnostic::StructuralError { declaration: decl.identifier.clone() });
            let r = Expansion { codec: None, diagnostics };
            assert(crate::codec::diags_view(r.diagnostics@) =~= seq![
                crate::codec::DiagModel::StructuralError(decl.identifier@),
            ]);
            r
        },
    }
}

} // verus!
