use oasgen_core::openapi::{path_parameters, query_parameters};
use oasgen_core::parameters::{
    contains_name, expand_query_parameters, name_path_parameters, QueryParameter, QuerySource,
};
use oasgen_core::schema_ref::{InlineSchema, SchemaRef};
use openapiv3::{
    ObjectType, Parameter, ParameterKind, ParameterSchemaOrContent, RefOr, Schema, SchemaKind,
    Type,
};

fn object(properties: Vec<(&str, RefOr<Schema>)>, required: Vec<&str>) -> RefOr<Schema> {
    let mut o = ObjectType::default();
    for (k, v) in properties {
        o.properties.insert(k.to_string(), v);
    }
    o.required = required.into_iter().map(|s| s.to_string()).collect();
    RefOr::Item(Schema {
        data: Default::default(),
        kind: SchemaKind::Type(Type::Object(o)),
    })
}

fn nullable(mut s: Schema) -> Schema {
    s.data.nullable = true;
    s
}

fn item(p: &RefOr<Parameter>) -> &Parameter {
    match p {
        RefOr::Item(p) => p,
        RefOr::Reference { .. } => panic!("expected an inline parameter"),
    }
}

fn schema_of(p: &Parameter) -> &RefOr<Schema> {
    match &p.data.format {
        ParameterSchemaOrContent::Schema(s) => s,
        ParameterSchemaOrContent::Content(_) => panic!("expected a schema"),
    }
}

#[test]
fn query_parameters_expand_object_properties_in_order() {
    let schemas = vec![object(
        vec![
            ("page", RefOr::Item(Schema::new_integer())),
            ("filter", RefOr::Item(Schema::new_string())),
        ],
        vec!["page"],
    )];
    let params = query_parameters(schemas);
    assert_eq!(params.len(), 2);
    let p0 = item(&params[0]);
    let p1 = item(&params[1]);
    assert_eq!(p0.data.name, "page");
    assert!(p0.data.required);
    assert!(matches!(p0.kind, ParameterKind::Query { .. }));
    assert_eq!(p1.data.name, "filter");
    assert!(!p1.data.required);
    assert_eq!(schema_of(p1), &RefOr::Item(Schema::new_string()));
}

#[test]
fn query_parameters_strip_nullable_from_inline_schemas() {
    let schemas = vec![object(
        vec![
            ("limit", RefOr::Item(nullable(Schema::new_integer()))),
            ("kind", RefOr::Reference { reference: "#/components/schemas/Kind".to_string() }),
        ],
        vec![],
    )];
    let params = query_parameters(schemas);
    assert_eq!(params.len(), 2);
    assert_eq!(schema_of(item(&params[0])), &RefOr::Item(Schema::new_integer()));
    assert_eq!(
        schema_of(item(&params[1])),
        &RefOr::Reference { reference: "#/components/schemas/Kind".to_string() }
    );
}

#[test]
fn query_parameters_skip_references_and_non_objects() {
    let schemas = vec![
        RefOr::Reference { reference: "#/components/schemas/Filter".to_string() },
        RefOr::Item(Schema::new_string()),
        object(vec![("q", RefOr::Item(Schema::new_string()))], vec!["q"]),
        object(vec![("n", RefOr::Item(Schema::new_integer()))], vec![]),
    ];
    let params = query_parameters(schemas);
    let names: Vec<&str> = params.iter().map(|p| item(p).data.name.as_str()).collect();
    assert_eq!(names, vec!["q", "n"]);
    assert!(item(&params[0]).data.required);
    assert!(!item(&params[1]).data.required);
}

#[test]
fn query_parameters_of_nothing_is_nothing() {
    assert!(query_parameters(vec![]).is_empty());
    assert!(query_parameters(vec![RefOr::Item(Schema::new_bool())]).is_empty());
}

#[test]
fn expand_query_parameters_on_plain_payloads() {
    let sources: Vec<QuerySource<u32>> = vec![
        QuerySource::Other,
        QuerySource::Object {
            properties: vec![
                (
                    "a".to_string(),
                    SchemaRef::Item(InlineSchema::Given { nullable: true, schema: 7 }),
                ),
                ("b".to_string(), SchemaRef::Reference("#/b".to_string())),
            ],
            required: vec!["b".to_string()],
        },
        QuerySource::Reference("#/c".to_string()),
    ];
    let r = expand_query_parameters(sources);
    assert_eq!(r.len(), 2);
    let QueryParameter { name, required, schema } = &r[0];
    assert_eq!(name, "a");
    assert!(!required);
    assert!(matches!(schema, SchemaRef::Item(InlineSchema::Given { nullable: false, schema: 7 })));
    let QueryParameter { name, required, schema } = &r[1];
    assert_eq!(name, "b");
    assert!(required);
    assert!(matches!(schema, SchemaRef::Reference(s) if s == "#/b"));
}

#[test]
fn contains_name_compares_whole_names() {
    let names = vec!["page".to_string(), "limit".to_string()];
    assert!(contains_name(&names, &"limit".to_string()));
    assert!(!contains_name(&names, &"lim".to_string()));
    assert!(!contains_name(&vec![], &"page".to_string()));
}

#[test]
fn path_parameters_are_named_path() {
    let schemas = vec![RefOr::Item(Schema::new_integer()), RefOr::Item(Schema::new_string())];
    let params = path_parameters(schemas);
    assert_eq!(params.len(), 2);
    for (p, expected) in params.iter().zip([Schema::new_integer(), Schema::new_string()]) {
        let p = item(p);
        assert_eq!(p.data.name, "path");
        assert!(matches!(p.kind, ParameterKind::Path { .. }));
        assert_eq!(schema_of(p), &RefOr::Item(expected));
    }
}

#[test]
fn name_path_parameters_keeps_order() {
    let r = name_path_parameters(vec![3u8, 1, 2]);
    let got: Vec<(String, u8)> = r.into_iter().map(|p| (p.name, p.schema)).collect();
    assert_eq!(
        got,
        vec![("path".to_string(), 3), ("path".to_string(), 1), ("path".to_string(), 2)]
    );
}

#[test]
fn query_parameters_of_a_concatenation_concatenate() {
    let a = || vec![object(vec![("x", RefOr::Item(Schema::new_string()))], vec!["x"])];
    let b = || {
        vec![
            RefOr::Item(Schema::new_bool()),
            object(
                vec![
                    ("y", RefOr::Item(Schema::new_integer())),
                    ("z", RefOr::Item(Schema::new_bool())),
                ],
                vec!["z"],
            ),
        ]
    };
    let mut both = a();
    both.extend(b());
    let mut expected = query_parameters(a());
    expected.extend(query_parameters(b()));
    assert_eq!(query_parameters(both), expected);
}
