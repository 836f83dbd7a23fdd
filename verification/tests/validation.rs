use byte_enum::ast::{AttrDecl, Declaration, MetaArg, TypeBody, VariantDecl};
use byte_enum::validate::{parse_enum_contents, Diagnostic};

fn bare_variant(name: &str) -> VariantDecl {
    VariantDecl { name: name.to_string(), has_fields: false, has_discriminant: false }
}

fn repr_u8() -> AttrDecl {
    AttrDecl {
        name: "repr".to_string(),
        args: Some(vec![MetaArg::Word("u8".to_string())]),
    }
}

fn decl(attrs: Vec<AttrDecl>, body: TypeBody) -> Declaration {
    Declaration { name: "Sample".to_string(), attrs, body }
}

#[test]
fn accepts_a_plain_byte_enum() {
    let d = decl(
        vec![repr_u8()],
        TypeBody::Enum(vec![bare_variant("A"), bare_variant("B"), bare_variant("C")]),
    );
    let names = parse_enum_contents(&d).unwrap();
    let names: Vec<&str> = names.iter().map(|s| s.as_str()).collect();
    assert_eq!(names, vec!["A", "B", "C"]);
}

#[test]
fn accepts_other_attributes_around_repr() {
    let d = decl(
        vec![
            AttrDecl { name: "derive".to_string(), args: Some(vec![MetaArg::Word("Clone".to_string())]) },
            repr_u8(),
        ],
        TypeBody::Enum(vec![bare_variant("A")]),
    );
    assert!(parse_enum_contents(&d).is_ok());
}

#[test]
fn rejects_missing_repr() {
    let d = decl(vec![], TypeBody::Enum(vec![bare_variant("A")]));
    assert_eq!(parse_enum_contents(&d), Err(Diagnostic::InvalidRepresentation));
}

#[test]
fn rejects_other_repr() {
    let d = decl(
        vec![AttrDecl {
            name: "repr".to_string(),
            args: Some(vec![MetaArg::Word("C".to_string())]),
        }],
        TypeBody::Enum(vec![bare_variant("A")]),
    );
    assert_eq!(parse_enum_contents(&d), Err(Diagnostic::InvalidRepresentation));
}

#[test]
fn rejects_repr_with_two_arguments() {
    let d = decl(
        vec![AttrDecl {
            name: "repr".to_string(),
            args: Some(vec![
                MetaArg::Word("u8".to_string()),
                MetaArg::Word("align".to_string()),
            ]),
        }],
        TypeBody::Enum(vec![bare_variant("A")]),
    );
    assert_eq!(parse_enum_contents(&d), Err(Diagnostic::InvalidRepresentation));
}

#[test]
fn rejects_malformed_repr() {
    let d = decl(
        vec![AttrDecl { name: "repr".to_string(), args: None }],
        TypeBody::Enum(vec![bare_variant("A")]),
    );
    assert_eq!(parse_enum_contents(&d), Err(Diagnostic::InvalidRepresentation));
}

#[test]
fn rejects_repr_with_non_word_argument() {
    let d = decl(
        vec![AttrDecl { name: "repr".to_string(), args: Some(vec![MetaArg::Other]) }],
        TypeBody::Enum(vec![bare_variant("A")]),
    );
    assert_eq!(parse_enum_contents(&d), Err(Diagnostic::InvalidRepresentation));
}

#[test]
fn first_repr_attribute_decides() {
    let d = decl(
        vec![
            AttrDecl {
                name: "repr".to_string(),
                args: Some(vec![MetaArg::Word("C".to_string())]),
            },
            repr_u8(),
        ],
        TypeBody::Enum(vec![bare_variant("A")]),
    );
    assert_eq!(parse_enum_contents(&d), Err(Diagnostic::InvalidRepresentation));
}

#[test]
fn rejects_struct_shape() {
    let d = decl(vec![repr_u8()], TypeBody::Struct);
    assert_eq!(parse_enum_contents(&d), Err(Diagnostic::MustBeEnum));
}

#[test]
fn rejects_union_shape() {
    let d = decl(vec![repr_u8()], TypeBody::Union);
    assert_eq!(parse_enum_contents(&d), Err(Diagnostic::MustBeEnum));
}

#[test]
fn rejects_empty_enum() {
    let d = decl(vec![repr_u8()], TypeBody::Enum(vec![]));
    assert_eq!(parse_enum_contents(&d), Err(Diagnostic::NoVariants));
}

#[test]
fn accepts_enum_at_the_cap() {
    let mut variants = Vec::new();
    for i in 0..256usize {
        variants.push(bare_variant(&format!("V{}", i)));
    }
    let d = decl(vec![repr_u8()], TypeBody::Enum(variants));
    let names = parse_enum_contents(&d).unwrap();
    assert_eq!(names.len(), 256);
}

#[test]
fn rejects_enum_over_the_cap() {
    let mut variants = Vec::new();
    for i in 0..257usize {
        variants.push(bare_variant(&format!("V{}", i)));
    }
    let d = decl(vec![repr_u8()], TypeBody::Enum(variants));
    assert_eq!(parse_enum_contents(&d), Err(Diagnostic::TooManyVariants));
}

#[test]
fn rejects_fielded_variant() {
    let d = decl(
        vec![repr_u8()],
        TypeBody::Enum(vec![
            bare_variant("A"),
            VariantDecl { name: "B".to_string(), has_fields: true, has_discriminant: false },
        ]),
    );
    assert_eq!(parse_enum_contents(&d), Err(Diagnostic::MustBeFieldless));
}

#[test]
fn rejects_explicit_discriminant() {
    let d = decl(
        vec![repr_u8()],
        TypeBody::Enum(vec![
            bare_variant("A"),
            VariantDecl { name: "B".to_string(), has_fields: false, has_discriminant: true },
        ]),
    );
    assert_eq!(parse_enum_contents(&d), Err(Diagnostic::ExplicitDiscriminant));
}

#[test]
fn fields_are_reported_before_discriminant() {
    let d = decl(
        vec![repr_u8()],
        TypeBody::Enum(vec![VariantDecl {
            name: "A".to_string(),
            has_fields: true,
            has_discriminant: true,
        }]),
    );
    assert_eq!(parse_enum_contents(&d), Err(Diagnostic::MustBeFieldless));
}

#[test]
fn repr_check_runs_before_shape_check() {
    let d = decl(vec![], TypeBody::Struct);
    assert_eq!(parse_enum_contents(&d), Err(Diagnostic::InvalidRepresentation));
}

#[test]
fn diagnostic_texts_are_fixed() {
    assert_eq!(
        Diagnostic::InvalidRepresentation.message(),
        "#[derive(ByteEnum)] must be exclusively `#[repr(u8)]`"
    );
    assert_eq!(
        Diagnostic::MustBeEnum.message(),
        "#[derive(ByteEnum)] must be applied only to enum types"
    );
    assert_eq!(
        Diagnostic::NoVariants.message(),
        "#[derive(ByteEnum)] must have at least one variant"
    );
    assert_eq!(
        Diagnostic::TooManyVariants.message(),
        "#[derive(ByteEnum)] may not have more than 256 variants"
    );
    assert_eq!(
        Diagnostic::MustBeFieldless.message(),
        "#[derive(ByteEnum)] must be applied only to fieldless enums"
    );
    assert_eq!(
        Diagnostic::ExplicitDiscriminant.message(),
        "#[derive(ByteEnum)] enums may not have explicit discriminants"
    );
}
