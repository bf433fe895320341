//! The decoder pipeline: derives a decoding codec from a declaration, and
//! the decode procedures the derived codec stands for.

use vstd::prelude::*;
use vstd::string::StringExecFns;

use crate::classify::{classify, Classification};
use crate::codec::{
    arms_view, build_arms, expansion_ok, Arm, Codec, CodecBody, Diagnostic, Expansion,
};
use crate::decl::TypeDeclaration;
use crate::overrides::{resolved_wire_name, str_eq};

verus! {

/// The decode-time failure for an enumeration: the textual wire payload
/// matched no known label. Its message carries the offending literal text.
#[derive(Debug)]
pub struct UnknownWireValueError {
    pub message: String,
}

/// The message an unmatched payload is reported with.
pub open spec fn unknown_variant_message(payload: Seq<char>) -> Seq<char> {
    "unknown variant `"@ + payload + "`"@
}

/// First-match decoding: the variant identifier of the first arm whose wire
/// label equals the payload exactly, else the unknown-variant message.
pub open spec fn decode_model(arms: Seq<(Seq<char>, Seq<char>)>, payload: Seq<char>) -> Result<
    Seq<char>,
    Seq<char>,
>
    decreases arms.len(),
{
    if arms.len() == 0 {
        Err(unknown_variant_message(payload))
    } else if arms[0].0 == payload {
        Ok(arms[0].1)
    } else {
        decode_model(arms.drop_first(), payload)
    }
}

/// The mathematical content of a decode result: the decoded variant's
/// identifier, or the error's message.
pub open spec fn decode_result_view(r: Result<String, UnknownWireValueError>) -> Result<
    Seq<char>,
    Seq<char>,
> {
    match r {
        Ok(identifier) => Ok(identifier@),
        Err(e) => Err(e.message@),
    }
}

/// The decode procedure of an enumeration codec: matches the textual wire
/// payload (read in full by the host) against the arms in order,
/// case-sensitively, and returns the first matching arm's variant
/// identifier; an unmatched payload is an [`UnknownWireValueError`] quoting
/// the payload verbatim.
pub fn enum_from_sql(arms: &Vec<Arm>, buf: &str) -> (r: Result<String, UnknownWireValueError>)
    ensures
        decode_result_view(r) == decode_model(arms_view(arms@), buf@),
{
    let ghost model = arms_view(arms@);
    let mut i: usize = 0;
    assert(model.skip(0) =~= model);
    while i < arms.len()
        invariant
            i <= arms@.len(),
            model == arms_view(arms@),
            decode_model(model, buf@) == decode_model(model.skip(i as int), buf@),
        decreases arms@.len() - i,
    {
        assert(model.skip(i as int)[0] == model[i as int]);
        assert(model.skip(i as int).drop_first() =~= model.skip(i as int + 1));
        if str_eq(arms[i].wire_label.as_str(), buf) {
            return Ok(arms[i].variant_identifier.clone());
        }
        i = i + 1;
    }
    assert(model.skip(i as int) =~= Seq::<(Seq<char>, Seq<char>)>::empty());
    let mut message = String::from_str("unknown variant `");
    message.append(buf);
    message.append("`");
    assert(message@ =~= unknown_variant_message(buf@));
    Err(UnknownWireValueError { message })
}

/// A decoded wrapper value: the inner type's decoded value in the wrapper's
/// own shape.
pub struct Wrapped<T>(pub T);

/// The decode procedure of a wrapper codec: pure delegation. The inner
/// type's decoder runs on the same payload and context as a capability of
/// the host; its successful value is wrapped, and its failure propagates
/// unchanged.
pub fn domain_from_sql<T, E>(inner: Result<T, E>) -> (r: Result<Wrapped<T>, E>)
    ensures
        inner matches Ok(v) ==> r matches Ok(w) && w.0 == v,
        inner matches Err(e) ==> r matches Err(e2) && e2 == e,
{
    match inner {
        Ok(v) => Ok(Wrapped(v)),
        Err(e) => Err(e),
    }
}

/// One pass of the decoder pipeline over a declaration: classifies it,
/// resolves the declaration's own wire name, and derives the decoding codec,
/// with a diagnostic for every rejected part.
pub fn expand(decl: &TypeDeclaration) -> (r: Expansion)
    ensures
        expansion_ok(*decl, r),
{
    match classify(decl) {
        Classification::Enumeration(variants) => {
            let wire_name = resolved_wire_name(&decl.directives, &decl.identifier);
            let (arms, diagnostics) = build_arms(variants);
            Expansion {
                codec: Some(
                    Codec {
                        type_identifier: decl.identifier.clone(),
                        wire_name,
                        body: CodecBody::Enumeration(arms),
                    },
                ),
                diagnostics,
            }
        },
        Classification::Wrapper(inner) => {
            let wire_name = resolved_wire_name(&decl.directives, &decl.identifier);
            Expansion {
                codec: Some(
                    Codec {
                        type_identifier: decl.identifier.clone(),
                        wire_name,
                        body: CodecBody::Wrapper(inner.clone()),
                    },
                ),
                diagnostics: Vec::new(),
            }
        },
        Classification::Unsupported => {
            let mut diagnostics: Vec<Diagnostic> = Vec::new();
            diagnostics.push(Diagnostic::StructuralError { declaration: decl.identifier.clone() });
            let r = Expansion { codec: None, diagnostics };
            assert(crate::codec::diags_view(r.diagnostics@) =~= seq![
                crate::codec::DiagModel::StructuralError(decl.identifier@),
            ]);
            r
        },
    }
}

} // verus!
