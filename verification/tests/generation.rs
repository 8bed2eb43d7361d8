use sculpture::err::Error;
use sculpture::field_type::{FieldType, TypeDecl};
use sculpture::modifier::{map_visibility, Modifier, SourceVisibility};
use sculpture::recording::{CallRecord, RecordingSculptor};
use sculpture::translate::{generate, map_field_type, DeclKind, FieldDecl, GenerationError, ShapeDecl};

fn named_field(vis: SourceVisibility, name: &str, ty: &str) -> FieldDecl {
    FieldDecl { vis, name: Some(String::from(name)), ty: TypeDecl::Path(String::from(ty)) }
}

#[test]
fn visibility_mapping() {
    assert_eq!(map_visibility(SourceVisibility::Public), Modifier::Public);
    assert_eq!(map_visibility(SourceVisibility::Inherited), Modifier::Private);
    assert_eq!(map_visibility(SourceVisibility::Restricted), Modifier::Unspecified);
}

#[test]
fn field_type_mapping() {
    let numeric = ["u8", "u16", "u32", "u64", "u128", "usize", "i8", "i16", "i32", "i64", "i128", "isize"];
    for name in numeric.iter() {
        assert_eq!(
            map_field_type(&TypeDecl::Path(String::from(*name))),
            Some(FieldType::Numeric)
        );
    }
    assert_eq!(map_field_type(&TypeDecl::Path(String::from("bool"))), Some(FieldType::Boolean));
    for name in ["String", "str", "char"].iter() {
        assert_eq!(map_field_type(&TypeDecl::Path(String::from(*name))), Some(FieldType::Text));
    }
    assert_eq!(
        map_field_type(&TypeDecl::Path(String::from("Duration"))),
        Some(FieldType::Named(String::from("Duration")))
    );
    assert_eq!(map_field_type(&TypeDecl::Other), None);
}

#[test]
fn modifier_mapping_scenario() {
    let decl = ShapeDecl {
        kind: DeclKind::Struct,
        vis: SourceVisibility::Restricted,
        name: String::from("Counter"),
        fields: vec![named_field(SourceVisibility::Inherited, "count", "u32")],
    };
    let shape = generate(&decl).expect("a struct with one named field must generate");
    let mut rec = RecordingSculptor::new();
    assert_eq!(shape.sculpt(&mut rec), Ok(()));
    assert_eq!(
        rec.calls,
        vec![
            CallRecord::Start(Modifier::Unspecified, String::from("Counter")),
            CallRecord::Field(Modifier::Private, String::from("count"), FieldType::Numeric),
            CallRecord::End,
        ]
    );
}

#[test]
fn generate_keeps_declaration_order() {
    let decl = ShapeDecl {
        kind: DeclKind::Struct,
        vis: SourceVisibility::Public,
        name: String::from("Record"),
        fields: vec![
            named_field(SourceVisibility::Public, "id", "u64"),
            named_field(SourceVisibility::Inherited, "label", "String"),
            named_field(SourceVisibility::Inherited, "alive", "bool"),
        ],
    };
    let shape = generate(&decl).expect("a plain struct must generate");
    assert_eq!(shape.modifier, Modifier::Public);
    assert_eq!(shape.name, "Record");
    assert_eq!(shape.fields.len(), 3);
    assert_eq!(shape.fields[0].name, "id");
    assert_eq!(shape.fields[0].modifier, Modifier::Public);
    assert_eq!(shape.fields[0].ty, FieldType::Numeric);
    assert_eq!(shape.fields[1].name, "label");
    assert_eq!(shape.fields[1].ty, FieldType::Text);
    assert_eq!(shape.fields[2].name, "alive");
    assert_eq!(shape.fields[2].ty, FieldType::Boolean);
}

#[test]
fn generate_zero_field_struct() {
    let decl = ShapeDecl {
        kind: DeclKind::Struct,
        vis: SourceVisibility::Public,
        name: String::from("Marker"),
        fields: Vec::new(),
    };
    let shape = generate(&decl).expect("a zero-field struct must generate");
    assert!(shape.fields.is_empty());
}

#[test]
fn rejects_enum_at_generation_time() {
    let decl = ShapeDecl {
        kind: DeclKind::Enum,
        vis: SourceVisibility::Public,
        name: String::from("Either"),
        fields: Vec::new(),
    };
    let e = generate(&decl).expect_err("an enum must be refused");
    assert_eq!(
        e,
        GenerationError::UnsupportedShape { shape: String::from("Either"), kind: DeclKind::Enum }
    );
    let m = e.message();
    assert!(m.contains("Either"));
}

#[test]
fn rejects_union_at_generation_time() {
    let decl = ShapeDecl {
        kind: DeclKind::Union,
        vis: SourceVisibility::Public,
        name: String::from("Raw"),
        fields: Vec::new(),
    };
    let e = generate(&decl).expect_err("a union must be refused");
    assert_eq!(
        e,
        GenerationError::UnsupportedShape { shape: String::from("Raw"), kind: DeclKind::Union }
    );
}

#[test]
fn rejects_tuple_positional_field() {
    let decl = ShapeDecl {
        kind: DeclKind::Struct,
        vis: SourceVisibility::Public,
        name: String::from("Pair"),
        fields: vec![
            named_field(SourceVisibility::Public, "first", "u32"),
            FieldDecl {
                vis: SourceVisibility::Public,
                name: None,
                ty: TypeDecl::Path(String::from("u32")),
            },
        ],
    };
    let e = generate(&decl).expect_err("a tuple-positional field must be refused");
    assert_eq!(e, GenerationError::TupleField { shape: String::from("Pair"), index: 1 });
    let m = e.message();
    assert!(m.contains("Pair"));
}

#[test]
fn rejects_unmapped_field_type() {
    let decl = ShapeDecl {
        kind: DeclKind::Struct,
        vis: SourceVisibility::Public,
        name: String::from("Holder"),
        fields: vec![FieldDecl {
            vis: SourceVisibility::Inherited,
            name: Some(String::from("inner")),
            ty: TypeDecl::Other,
        }],
    };
    let e = generate(&decl).expect_err("an unmappable field type must be refused");
    assert_eq!(
        e,
        GenerationError::UnmappedFieldType {
            shape: String::from("Holder"),
            field: String::from("inner"),
        }
    );
    let m = e.message();
    assert!(m.contains("inner"));
    assert!(m.contains("Holder"));
}

#[test]
fn first_offending_field_wins() {
    let decl = ShapeDecl {
        kind: DeclKind::Struct,
        vis: SourceVisibility::Public,
        name: String::from("Mixed"),
        fields: vec![
            named_field(SourceVisibility::Public, "ok", "u8"),
            FieldDecl { vis: SourceVisibility::Public, name: None, ty: TypeDecl::Other },
            FieldDecl {
                vis: SourceVisibility::Public,
                name: Some(String::from("late")),
                ty: TypeDecl::Other,
            },
        ],
    };
    let e = generate(&decl).expect_err("the declaration must be refused");
    assert_eq!(e, GenerationError::TupleField { shape: String::from("Mixed"), index: 1 });
}

#[test]
fn unsupported_kind_reported_before_fields() {
    let decl = ShapeDecl {
        kind: DeclKind::Enum,
        vis: SourceVisibility::Public,
        name: String::from("Tagged"),
        fields: vec![FieldDecl { vis: SourceVisibility::Public, name: None, ty: TypeDecl::Other }],
    };
    let e = generate(&decl).expect_err("an enum must be refused");
    assert!(matches!(e, GenerationError::UnsupportedShape { .. }));
}
