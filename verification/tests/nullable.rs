use oasgen_core::openapi::{array_schema, map_schema, nullable_schema, nullable_schema_ref};
use oasgen_core::schema_ref::{mark_nullable, mark_nullable_ref, InlineSchema, SchemaRef};
use openapiv3::{RefOr, Schema, SchemaKind};

#[test]
fn nullable_schema_marks_the_inner_schema() {
    let s = nullable_schema(Schema::new_string());
    assert!(s.data.nullable);
    assert_eq!(s.kind, Schema::new_string().kind);
}

#[test]
fn nullable_schema_ref_marks_an_inline_schema() {
    match nullable_schema_ref(RefOr::Item(Schema::new_integer())) {
        RefOr::Item(s) => {
            assert!(s.data.nullable);
            assert_eq!(s.kind, Schema::new_integer().kind);
        },
        RefOr::Reference { .. } => panic!("expected an inline schema"),
    }
}

#[test]
fn nullable_schema_ref_wraps_a_reference_in_all_of() {
    let reference = "#/components/schemas/Task".to_string();
    match nullable_schema_ref(RefOr::Reference { reference: reference.clone() }) {
        RefOr::Item(s) => {
            assert!(s.data.nullable);
            match s.kind {
                SchemaKind::AllOf { all_of } => {
                    assert_eq!(all_of, vec![RefOr::Reference { reference }]);
                },
                other => panic!("expected allOf, got {other:?}"),
            }
        },
        RefOr::Reference { .. } => panic!("expected an inline schema"),
    }
}

#[test]
fn nullable_schema_ref_twice_is_once() {
    let once = nullable_schema_ref(RefOr::Reference { reference: "#/x".to_string() });
    let twice = nullable_schema_ref(once.clone());
    assert_eq!(once, twice);
}

#[test]
fn mark_nullable_on_plain_payloads() {
    let r = mark_nullable(InlineSchema::Given { nullable: false, schema: 5u8 });
    assert!(matches!(r, InlineSchema::Given { nullable: true, schema: 5 }));
    let r: SchemaRef<u8> = mark_nullable_ref(SchemaRef::Reference("#/a".to_string()));
    assert!(matches!(
        r,
        SchemaRef::Item(InlineSchema::AllOfReference { nullable: true, ref reference }) if reference == "#/a"
    ));
    let r = mark_nullable_ref(SchemaRef::Item(InlineSchema::<u8>::AllOfReference {
        nullable: false,
        reference: "#/b".to_string(),
    }));
    assert!(matches!(
        r,
        SchemaRef::Item(InlineSchema::AllOfReference { nullable: true, ref reference }) if reference == "#/b"
    ));
}

#[test]
fn array_and_map_schemas_wrap_their_inner_schema() {
    let inner = RefOr::Reference { reference: "#/components/schemas/Task".to_string() };
    assert_eq!(array_schema(inner.clone()), Schema::new_array(inner.clone()));
    assert_eq!(map_schema(inner.clone()), Schema::new_map(inner.clone()));
    match array_schema(RefOr::Item(Schema::new_string())).kind {
        SchemaKind::Type(openapiv3::Type::Array(a)) => {
            assert_eq!(a.items, Some(Box::new(RefOr::Item(Schema::new_string()))));
        },
        other => panic!("expected an array, got {other:?}"),
    }
}
