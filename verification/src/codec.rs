//! The derived artifact: a codec keyed by the originating declaration, the
//! diagnostics raised while deriving it, and the shared arm builder used by
//! both the decoder and the encoder pipeline.

use vstd::prelude::*;

use crate::classify::{classify_model, ClassModel};
use crate::decl::{EnumVariant, TypeDeclaration};
use crate::overrides::{resolved_wire_name, wire_name_spec};

verus! {

/// One match arm of an enumeration codec: the resolved wire label paired
/// with the identifier of the variant it stands for.
pub struct Arm {
    pub wire_label: String,
    pub variant_identifier: String,
}

/// The mathematical content of one arm: `(wire label, variant identifier)`.
pub open spec fn arm_view(a: Arm) -> (Seq<char>, Seq<char>) {
    (a.wire_label@, a.variant_identifier@)
}

/// The mathematical content of an arm list.
pub open spec fn arms_view(arms: Seq<Arm>) -> Seq<(Seq<char>, Seq<char>)> {
    arms.map_values(|a: Arm| arm_view(a))
}

/// The arms an enumeration's variant list gives rise to: one arm per
/// payload-free variant, in declaration order, labelled with that variant's
/// resolved wire name; variants carrying a payload contribute no arm.
pub open spec fn enum_arms_model(variants: Seq<EnumVariant>) -> Seq<(Seq<char>, Seq<char>)>
    decreases variants.len(),
{
    if variants.len() == 0 {
        Seq::empty()
    } else {
        let front = enum_arms_model(variants.drop_last());
        let last = variants.last();
        if last.carries_payload {
            front
        } else {
            front.push((wire_name_spec(last.directives@, last.identifier@), last.identifier@))
        }
    }
}

/// A structured diagnostic, tagged with the handle (the identifier) of the
/// offending declaration or variant.
pub enum Diagnostic {
    /// The declaration's shape is unsupported as a whole; no codec exists.
    StructuralError { declaration: String },
    /// One enum variant carries a payload; it is left out of the arms and
    /// the derivation as a whole is reported as failed.
    VariantShapeError { variant: String },
}

/// The mathematical content of a diagnostic.
pub enum DiagModel {
    StructuralError(Seq<char>),
    VariantShapeError(Seq<char>),
}

/// The mathematical content of one diagnostic.
pub open spec fn diag_view(d: Diagnostic) -> DiagModel {
    match d {
        Diagnostic::StructuralError { declaration } => DiagModel::StructuralError(declaration@),
        Diagnostic::VariantShapeError { variant } => DiagModel::VariantShapeError(variant@),
    }
}

/// The mathematical content of a diagnostic list.
pub open spec fn diags_view(ds: Seq<Diagnostic>) -> Seq<DiagModel> {
    ds.map_values(|d: Diagnostic| diag_view(d))
}

/// The variant-shape diagnostics an enumeration's variant list gives rise
/// to: one per payload-carrying variant, in declaration order.
pub open spec fn variant_errors_model(variants: Seq<EnumVariant>) -> Seq<DiagModel>
    decreases variants.len(),
{
    if variants.len() == 0 {
        Seq::empty()
    } else {
        let front = variant_errors_model(variants.drop_last());
        let last = variants.last();
        if last.carries_payload {
            front.push(DiagModel::VariantShapeError(last.identifier@))
        } else {
            front
        }
    }
}

/// The shape-specific part of a derived codec.
pub enum CodecBody {
    /// An enumeration codec: the ordered match arms over wire labels.
    Enumeration(Vec<Arm>),
    /// A wrapper codec: the textual reference to the inner type, whose own
    /// codec the wrapper delegates to.
    Wrapper(String),
}

/// A derived codec: the declaration it belongs to, the wire name its
/// acceptance predicate matches on, and the shape-specific body.
pub struct Codec {
    pub type_identifier: String,
    pub wire_name: String,
    pub body: CodecBody,
}

/// The outcome of one derivation pass: the codec, if the declaration's shape
/// admitted one at all, and the diagnostics raised along the way. A pass
/// with diagnostics is failed as a whole even when a partial codec exists;
/// such a codec is diagnostic material, not a deployable artifact.
pub struct Expansion {
    pub codec: Option<Codec>,
    pub diagnostics: Vec<Diagnostic>,
}

/// The codec's header fields: it is keyed by the declaration's identifier,
/// and its wire name is the declaration's own resolved wire name.
pub open spec fn codec_header_ok(decl: TypeDeclaration, c: Codec) -> bool {
    &&& c.type_identifier@ == decl.identifier@
    &&& c.wire_name@ == wire_name_spec(decl.directives@, decl.identifier@)
}

/// What one derivation pass returns for a declaration, by its
/// classification: a full enumeration codec plus one diagnostic per
/// payload-carrying variant; a full wrapper codec and no diagnostics; or no
/// codec and a single structural diagnostic against the declaration.
pub open spec fn expansion_ok(decl: TypeDeclaration, r: Expansion) -> bool {
    match classify_model(decl) {
        ClassModel::Enumeration(variants) => {
            &&& r.codec matches Some(c) && codec_header_ok(decl, c) && (c.body matches CodecBody::Enumeration(arms)
                && arms_view(arms@) == enum_arms_model(variants))
            &&& diags_view(r.diagnostics@) == variant_errors_model(variants)
        },
        ClassModel::Wrapper(inner) => {
            &&& r.codec matches Some(c) && codec_header_ok(decl, c) && (c.body matches CodecBody::Wrapper(t)
                && t@ == inner)
            &&& r.diagnostics@.len() == 0
        },
        ClassModel::Unsupported => {
            &&& r.codec is None
            &&& diags_view(r.diagnostics@) == seq![DiagModel::StructuralError(decl.identifier@)]
        },
    }
}

impl Expansion {
    /// Whether the pass succeeded outright: a codec exists and no
    /// diagnostic was raised.
    pub fn succeeded(&self) -> (r: bool)
        ensures
            r == (self.codec is Some && self.diagnostics@.len() == 0),
    {
        self.codec.is_some() && self.diagnostics.len() == 0
    }
}

/// Builds the match arms for an enumeration's variants, in declaration
/// order: each payload-free variant becomes one arm labelled with its
/// resolved wire name; each payload-carrying variant is skipped and raises
/// a variant-shape diagnostic instead.
pub fn build_arms(variants: &Vec<EnumVariant>) -> (r: (Vec<Arm>, Vec<Diagnostic>))
    ensures
        arms_view(r.0@) == enum_arms_model(variants@),
        diags_view(r.1@) == variant_errors_model(variants@),
{
    let mut arms: Vec<Arm> = Vec::new();
    let mut diagnostics: Vec<Diagnostic> = Vec::new();
    let mut i: usize = 0;
    assert(variants@.take(0) =~= Seq::<EnumVariant>::empty());
    while i < variants.len()
        invariant
            i <= variants@.len(),
            arms_view(arms@) =~= enum_arms_model(variants@.take(i as int)),
            diags_view(diagnostics@) =~= variant_errors_model(variants@.take(i as int)),
        decreases variants@.len() - i,
    {
        assert(variants@.take(i as int + 1).drop_last() =~= variants@.take(i as int));
        assert(variants@.take(i as int + 1).last() == variants@[i as int]);
        let v = &variants[i];
        if v.carries_payload {
            diagnostics.push(Diagnostic::VariantShapeError { variant: v.identifier.clone() });
        } else {
            let wire_label = resolved_wire_name(&v.directives, &v.identifier);
            arms.push(Arm { wire_label, variant_identifier: v.identifier.clone() });
        }
        i = i + 1;
    }
    assert(variants@.take(i as int) =~= variants@);
    (arms, diagnostics)
}

} // verus!
