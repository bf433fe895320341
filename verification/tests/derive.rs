use postgres_derive_codegen::accepts::{domain_accepts, enum_accepts, WireKind, WireType};
use postgres_derive_codegen::codec::{Arm, CodecBody, Diagnostic, Expansion};
use postgres_derive_codegen::decl::{DeclShape, Directive, EnumVariant, TypeDeclaration};
use postgres_derive_codegen::fromsql::{domain_from_sql, enum_from_sql, Wrapped};
use postgres_derive_codegen::overrides::{resolve, resolved_wire_name};
use postgres_derive_codegen::tosql::{domain_to_sql, enum_to_sql, IsNull};
use postgres_derive_codegen::{fromsql, tosql};

fn directive(key: &str, value: &str) -> Directive {
    Directive {
        key: key.to_string(),
        value: value.to_string(),
    }
}

fn unit_variant(identifier: &str) -> EnumVariant {
    EnumVariant {
        identifier: identifier.to_string(),
        directives: Vec::new(),
        carries_payload: false,
    }
}

fn enum_decl(identifier: &str, variants: Vec<EnumVariant>) -> TypeDeclaration {
    TypeDeclaration {
        identifier: identifier.to_string(),
        directives: Vec::new(),
        shape: DeclShape::Enumeration(variants),
    }
}

fn mood() -> TypeDeclaration {
    enum_decl("Mood", vec![unit_variant("Happy"), unit_variant("Sad")])
}

fn arms_of(expansion: &Expansion) -> &Vec<Arm> {
    match &expansion.codec.as_ref().expect("a codec was derived").body {
        CodecBody::Enumeration(arms) => arms,
        CodecBody::Wrapper(_) => panic!("expected an enumeration codec"),
    }
}

fn enum_descriptor(name: &str) -> WireType {
    WireType {
        name: name.to_string(),
        kind: WireKind::Enumeration,
    }
}

fn domain_descriptor(name: &str, base: WireType) -> WireType {
    WireType {
        name: name.to_string(),
        kind: WireKind::Domain(Box::new(base)),
    }
}

#[test]
fn resolve_picks_first_matching_directive() {
    let directives = vec![directive("name", "a"), directive("name", "b")];
    assert_eq!(resolve(&directives).expect("an override").as_str(), "a");
}

#[test]
fn resolve_ignores_unrelated_directives() {
    let directives = vec![directive("rename", "x"), directive("name", "wire")];
    assert_eq!(resolve(&directives).expect("an override").as_str(), "wire");
    assert!(resolve(&vec![directive("rename", "x")]).is_none());
    assert!(resolve(&Vec::new()).is_none());
}

#[test]
fn resolved_wire_name_defaults_to_identifier() {
    let name = resolved_wire_name(&Vec::new(), &"Mood".to_string());
    assert_eq!(name, "Mood");
    let name = resolved_wire_name(&vec![directive("name", "mood")], &"Mood".to_string());
    assert_eq!(name, "mood");
}

#[test]
fn enum_round_trip_without_overrides() {
    let expansion = fromsql::expand(&mood());
    assert!(expansion.succeeded());
    let arms = arms_of(&expansion);
    for identifier in ["Happy", "Sad"] {
        let encoded = enum_to_sql(arms, identifier).expect("a label");
        assert_eq!(encoded.null_marker, IsNull::No);
        let decoded = enum_from_sql(arms, &encoded.text).expect("a variant");
        assert_eq!(decoded, identifier);
    }
}

#[test]
fn enum_decode_matches_exact_label() {
    let expansion = fromsql::expand(&mood());
    let arms = arms_of(&expansion);
    assert_eq!(enum_from_sql(arms, "Sad").expect("a variant"), "Sad");
    let err = enum_from_sql(arms, "Angry").expect_err("no such label");
    assert!(err.message.contains("unknown variant `Angry`"));
    assert_eq!(err.message, "unknown variant `Angry`");
    let err = enum_from_sql(arms, "sad").expect_err("labels are case-sensitive");
    assert_eq!(err.message, "unknown variant `sad`");
}

#[test]
fn enum_encode_emits_label_and_not_null() {
    let expansion = tosql::expand(&mood());
    let arms = arms_of(&expansion);
    let encoded = enum_to_sql(arms, "Happy").expect("a label");
    assert_eq!(encoded.text, "Happy");
    assert_eq!(encoded.null_marker, IsNull::No);
    assert!(enum_to_sql(arms, "Angry").is_none());
}

#[test]
fn enum_acceptance_requires_enum_kind_and_exact_name() {
    let expansion = fromsql::expand(&mood());
    let codec = expansion.codec.expect("a codec");
    let wire_name = &codec.wire_name;
    assert!(enum_accepts(wire_name, &enum_descriptor("Mood")));
    assert!(!enum_accepts(wire_name, &enum_descriptor("mood")));
    assert!(!enum_accepts(wire_name, &enum_descriptor("Weather")));
    let domain = domain_descriptor("Mood", enum_descriptor("Mood"));
    assert!(!enum_accepts(wire_name, &domain));
    let other = WireType {
        name: "Mood".to_string(),
        kind: WireKind::Other,
    };
    assert!(!enum_accepts(wire_name, &other));
}

#[test]
fn type_level_override_renames_the_wire_type() {
    let decl = TypeDeclaration {
        directives: vec![directive("name", "mood")],
        ..mood()
    };
    let expansion = tosql::expand(&decl);
    let codec = expansion.codec.expect("a codec");
    assert_eq!(codec.type_identifier, "Mood");
    assert_eq!(codec.wire_name, "mood");
    assert!(enum_accepts(&codec.wire_name, &enum_descriptor("mood")));
    assert!(!enum_accepts(&codec.wire_name, &enum_descriptor("Mood")));
}

#[test]
fn variant_level_override_renames_the_label() {
    let variants = vec![
        EnumVariant {
            identifier: "Happy".to_string(),
            directives: vec![directive("name", "happy")],
            carries_payload: false,
        },
        unit_variant("Sad"),
    ];
    let expansion = fromsql::expand(&enum_decl("Mood", variants));
    let arms = arms_of(&expansion);
    assert_eq!(enum_from_sql(arms, "happy").expect("a variant"), "Happy");
    assert!(enum_from_sql(arms, "Happy").is_err());
    let encoded = enum_to_sql(arms, "Happy").expect("a label");
    assert_eq!(encoded.text, "happy");
}

#[test]
fn duplicate_labels_decode_to_the_first_variant() {
    let variants = vec![
        EnumVariant {
            identifier: "First".to_string(),
            directives: vec![directive("name", "same")],
            carries_payload: false,
        },
        EnumVariant {
            identifier: "Second".to_string(),
            directives: vec![directive("name", "same")],
            carries_payload: false,
        },
    ];
    let expansion = fromsql::expand(&enum_decl("Twin", variants));
    let arms = arms_of(&expansion);
    assert_eq!(enum_from_sql(arms, "same").expect("a variant"), "First");
}

#[test]
fn payload_variant_is_skipped_and_reported() {
    let variants = vec![
        unit_variant("Known"),
        EnumVariant {
            identifier: "Loaded".to_string(),
            directives: Vec::new(),
            carries_payload: true,
        },
    ];
    let expansion = fromsql::expand(&enum_decl("Mixed", variants));
    assert!(!expansion.succeeded());
    assert_eq!(expansion.diagnostics.len(), 1);
    assert!(matches!(
        &expansion.diagnostics[0],
        Diagnostic::VariantShapeError { variant } if variant.as_str() == "Loaded"
    ));
    let arms = arms_of(&expansion);
    assert_eq!(arms.len(), 1);
    assert_eq!(enum_from_sql(arms, "Known").expect("a variant"), "Known");
    assert!(enum_from_sql(arms, "Loaded").is_err());
}

#[test]
fn two_field_tuple_is_a_structural_error() {
    let decl = TypeDeclaration {
        identifier: "Pair".to_string(),
        directives: Vec::new(),
        shape: DeclShape::TupleStruct(vec!["i32".to_string(), "i32".to_string()]),
    };
    let expansion = fromsql::expand(&decl);
    assert!(expansion.codec.is_none());
    assert_eq!(expansion.diagnostics.len(), 1);
    assert!(matches!(
        &expansion.diagnostics[0],
        Diagnostic::StructuralError { declaration } if declaration.as_str() == "Pair"
    ));
    let expansion = tosql::expand(&decl);
    assert!(expansion.codec.is_none());
}

#[test]
fn empty_shapes_are_structural_errors() {
    let empty_enum = enum_decl("Void", Vec::new());
    assert!(fromsql::expand(&empty_enum).codec.is_none());
    let no_field = TypeDeclaration {
        identifier: "Unit".to_string(),
        directives: Vec::new(),
        shape: DeclShape::TupleStruct(Vec::new()),
    };
    assert!(tosql::expand(&no_field).codec.is_none());
    let other = TypeDeclaration {
        identifier: "Plain".to_string(),
        directives: Vec::new(),
        shape: DeclShape::Other,
    };
    let expansion = tosql::expand(&other);
    assert!(expansion.codec.is_none());
    assert!(!expansion.succeeded());
}

#[test]
fn wrapper_expansion_records_the_inner_type() {
    let decl = TypeDeclaration {
        identifier: "Meters".to_string(),
        directives: vec![directive("name", "meters")],
        shape: DeclShape::TupleStruct(vec!["f64".to_string()]),
    };
    let expansion = fromsql::expand(&decl);
    assert!(expansion.succeeded());
    let codec = expansion.codec.expect("a codec");
    assert_eq!(codec.wire_name, "meters");
    match &codec.body {
        CodecBody::Wrapper(inner) => assert_eq!(inner, "f64"),
        CodecBody::Enumeration(_) => panic!("expected a wrapper codec"),
    }
}

#[test]
fn wrapper_acceptance_requires_domain_name_and_inner_verdict() {
    // The inner f64 codec accepts exactly the float8 wire type.
    let f64_accepts = |base: &WireType| base.name == "float8";
    let good = domain_descriptor(
        "meters",
        WireType {
            name: "float8".to_string(),
            kind: WireKind::Other,
        },
    );
    let inner_ok = match &good.kind {
        WireKind::Domain(base) => f64_accepts(base),
        _ => false,
    };
    assert!(domain_accepts("meters", &good, inner_ok));
    assert!(!domain_accepts("yards", &good, inner_ok));
    let bad_base = domain_descriptor(
        "meters",
        WireType {
            name: "text".to_string(),
            kind: WireKind::Other,
        },
    );
    let inner_ok = match &bad_base.kind {
        WireKind::Domain(base) => f64_accepts(base),
        _ => false,
    };
    assert!(!domain_accepts("meters", &bad_base, inner_ok));
    assert!(!domain_accepts("meters", &enum_descriptor("meters"), true));
}

#[test]
fn wrapper_decode_wraps_the_inner_value() {
    let decoded: Result<f64, String> = Ok(3.5);
    match domain_from_sql(decoded) {
        Ok(Wrapped(v)) => assert_eq!(v, 3.5),
        Err(_) => panic!("the inner success must be wrapped"),
    }
    let failed: Result<f64, String> = Err("inner failure".to_string());
    match domain_from_sql(failed) {
        Ok(_) => panic!("the inner failure must propagate"),
        Err(e) => assert_eq!(e, "inner failure"),
    }
}

#[test]
fn wrapper_encode_is_an_exact_delegation() {
    // The inner f64 encoder writes its bytes to the shared sink itself; the
    // wrapper adds nothing and returns the inner result, null marker
    // included, so the sink holds the inner encoder's output byte for byte.
    let inner: Result<IsNull, String> = Ok(IsNull::No);
    assert_eq!(domain_to_sql(inner), Ok(IsNull::No));
    let inner: Result<IsNull, String> = Ok(IsNull::Yes);
    assert_eq!(domain_to_sql(inner), Ok(IsNull::Yes));
    let inner: Result<IsNull, String> = Err("write failure".to_string());
    assert_eq!(domain_to_sql(inner), Err("write failure".to_string()));
}

#[test]
fn decoder_and_encoder_pipelines_agree_on_the_codec() {
    let decl = mood();
    let from = fromsql::expand(&decl);
    let to = tosql::expand(&decl);
    let from_codec = from.codec.expect("a codec");
    let to_codec = to.codec.expect("a codec");
    assert_eq!(from_codec.wire_name, to_codec.wire_name);
    match (&from_codec.body, &to_codec.body) {
        (CodecBody::Enumeration(a), CodecBody::Enumeration(b)) => {
            assert_eq!(a.len(), b.len());
            for (x, y) in a.iter().zip(b.iter()) {
                assert_eq!(x.wire_label, y.wire_label);
                assert_eq!(x.variant_identifier, y.variant_identifier);
            }
        }
        _ => panic!("both pipelines classify the declaration the same way"),
    }
}
