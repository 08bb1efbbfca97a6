use cairo_core::semantic::enm::{
    enum_semantic_diagnostics, enum_variants, priv_enum_semantic_data, ConcreteEnumId,
    ConcreteVariant, EnumData, EnumId, SemanticDiagnostic, SemanticDiagnosticKind,
    SemanticEnumEx, TypeId, Variant, VariantDeclaration, VariantEntry, VariantId,
};

fn declared(name: &str, id: u64, ty: u64) -> VariantDeclaration {
    VariantDeclaration { name: name.to_string(), id: VariantId(id), ty: TypeId(ty) }
}

fn entry(name: &str, id: u64, ty: u64) -> VariantEntry {
    VariantEntry {
        name: name.to_string(),
        variant: Variant { enum_id: EnumId(7), id: VariantId(id), ty: TypeId(ty) },
    }
}

fn redefinition(at: usize, name: &str) -> SemanticDiagnostic {
    SemanticDiagnostic {
        at,
        kind: SemanticDiagnosticKind::EnumVariantRedefinition {
            enum_id: EnumId(7),
            variant_name: name.to_string(),
        },
    }
}

#[test]
fn enum_has_its_variants_in_the_order_of_the_text() {
    let declarations = vec![declared("A", 0, 10), declared("B", 1, 11), declared("C", 2, 10)];
    let data = priv_enum_semantic_data(EnumId(7), Some(&declarations)).unwrap();
    assert_eq!(data.variants, vec![entry("A", 0, 10), entry("B", 1, 11), entry("C", 2, 10)]);
    assert!(data.diagnostics.is_empty());
}

#[test]
fn enum_without_variants() {
    let data = priv_enum_semantic_data(EnumId(7), Some(&vec![])).unwrap();
    assert!(data.variants.is_empty());
    assert!(data.diagnostics.is_empty());
}

#[test]
fn enum_that_the_front_end_does_not_have() {
    assert_eq!(priv_enum_semantic_data(EnumId(7), None), None);
    assert_eq!(enum_variants(None), None);
    assert!(enum_semantic_diagnostics(None).is_empty());
}

#[test]
fn redefined_variant_takes_the_place_of_the_first_and_is_reported() {
    let declarations = vec![
        declared("A", 0, 10),
        declared("B", 1, 11),
        declared("A", 2, 12),
        declared("C", 3, 13),
        declared("A", 4, 14),
        declared("B", 5, 15),
    ];
    let data = priv_enum_semantic_data(EnumId(7), Some(&declarations)).unwrap();
    assert_eq!(data.variants, vec![entry("A", 4, 14), entry("B", 5, 15), entry("C", 3, 13)]);
    assert_eq!(
        data.diagnostics,
        vec![redefinition(2, "A"), redefinition(4, "A"), redefinition(5, "B")]
    );
    assert_eq!(
        enum_variants(Some(data.clone())),
        Some(vec![entry("A", 4, 14), entry("B", 5, 15), entry("C", 3, 13)])
    );
    assert_eq!(
        enum_semantic_diagnostics(Some(data)),
        vec![redefinition(2, "A"), redefinition(4, "A"), redefinition(5, "B")]
    );
}

#[test]
fn concrete_variant_is_the_variant_in_the_concrete_enum() {
    let data = EnumData { diagnostics: vec![], variants: vec![] };
    let variant = Variant { enum_id: EnumId(7), id: VariantId(3), ty: TypeId(13) };
    assert_eq!(
        data.concrete_enum_variant(ConcreteEnumId(21), &variant),
        ConcreteVariant { concrete_enum_id: ConcreteEnumId(21), id: VariantId(3), ty: TypeId(13) }
    );
}
