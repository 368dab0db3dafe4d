//! The library's schema and parameter logic applied to `openapiv3` values:
//! each function reads its arguments into the library's model, runs the
//! verified logic, and writes the outcome back.

use vstd::prelude::*;
use openapiv3::{Parameter, RefOr, Schema};
use crate::parameters::{
    expand_query_parameters, name_path_parameters, names_contain, object_parameters,
    property_parameter, query_parameters_of, source_parameters, without_null, PathParameter,
    QueryParameter, QuerySource,
};
use crate::schema_ref::{mark_nullable, mark_nullable_ref, nullable_of, InlineSchema, SchemaRef};

verus! {

/// What `schema.nullable` reads (through `Deref` to `openapiv3::SchemaData`).
pub uninterp spec fn schema_nullable_flag(schema: Schema) -> bool;

/// The schema after `schema.nullable = nullable` (through `DerefMut`).
pub uninterp spec fn schema_with_nullable(schema: Schema, nullable: bool) -> Schema;

/// What `Schema::new_all_of(vec![RefOr::Reference { reference }])` returns.
pub uninterp spec fn all_of_reference_schema(reference: Seq<char>) -> Schema;

/// The value `RefOr::Reference { reference }`.
pub uninterp spec fn reference_ref(reference: Seq<char>) -> RefOr<Schema>;

/// The value `RefOr::Item(item)`.
pub uninterp spec fn item_ref(item: Schema) -> RefOr<Schema>;

/// The properties (name and schema, in the map's order) and the `required`
/// names of an object schema; `None` for a schema of any other kind.
pub uninterp spec fn object_fields(schema: Schema) -> Option<
    (Seq<(Seq<char>, RefOr<Schema>)>, Seq<Seq<char>>),
>;

/// What `Parameter::query(name, schema)` with `required` set, as an item, is.
pub uninterp spec fn query_parameter_ref(
    name: Seq<char>,
    schema: RefOr<Schema>,
    required: bool,
) -> RefOr<Parameter>;

/// What `Parameter::path(name, schema)`, as an item, is.
pub uninterp spec fn path_parameter_ref(name: Seq<char>, schema: RefOr<Schema>) -> RefOr<Parameter>;

/// Writing the `nullable` flag of `written` is writing it on `schema`: the
/// written schema differs from `schema` in that flag alone.
pub open spec fn differs_in_nullable_only(written: Schema, schema: Schema) -> bool {
    forall|b: bool|
        #[trigger] schema_with_nullable(written, b) == schema_with_nullable(schema, b)
}

/// What `Schema::new_array(inner)` returns: an array schema whose items are
/// `inner`.
pub uninterp spec fn array_schema_of(inner: RefOr<Schema>) -> Schema;

/// What `Schema::new_map(inner)` returns: an object schema whose additional
/// properties are `inner`.
pub uninterp spec fn map_schema_of(inner: RefOr<Schema>) -> Schema;

/// `r` is a reference to `reference`, and to nothing else.
pub open spec fn is_reference_to(r: RefOr<Schema>, reference: Seq<char>) -> bool {
    &&& r == reference_ref(reference)
    &&& forall|x: Seq<char>| #[trigger] reference_ref(x) == r ==> x == reference
    &&& forall|t: Schema| #[trigger] item_ref(t) != r
}

/// `r` is an item holding `item`, and nothing else.
pub open spec fn is_item_of(r: RefOr<Schema>, item: Schema) -> bool {
    &&& r == item_ref(item)
    &&& forall|t: Schema| #[trigger] item_ref(t) == r ==> t == item
    &&& forall|x: Seq<char>| #[trigger] reference_ref(x) != r
}

/// `r` holds an inline schema.
pub open spec fn has_item(r: RefOr<Schema>) -> bool {
    exists|t: Schema| #[trigger] item_ref(t) == r
}

/// The inline schema that `r` holds, where it holds one.
pub open spec fn item_schema(r: RefOr<Schema>) -> Schema {
    choose|t: Schema| #[trigger] item_ref(t) == r
}

/// The reference that `r` is, where it is one.
pub open spec fn reference_of(r: RefOr<Schema>) -> Seq<char> {
    choose|x: Seq<char>| #[trigger] reference_ref(x) == r
}

/// The two shapes of an `openapiv3` reference-or-item, with their fields.
enum RefParts<T> {
    Reference(String),
    Item(T),
}

/// Tells the variants of `openapiv3::Ref` apart, moving out their fields.
/// Claimed: the argument is the reference or the item that comes out, and
/// the two constructors are distinct and one-to-one, as an enum's are.
#[verifier::external_body]
fn ref_parts(r: RefOr<Schema>) -> (parts: RefParts<Schema>)
    ensures
        parts matches RefParts::Reference(reference) ==> is_reference_to(r, reference@),
        parts matches RefParts::Item(item) ==> is_item_of(r, item),
{
    match r {
        RefOr::Reference { reference } => RefParts::Reference(reference),
        RefOr::Item(item) => RefParts::Item(item),
    }
}

/// Builds the variant `openapiv3::Ref::Reference` with the given reference.
#[verifier::external_body]
fn reference_to(reference: String) -> (r: RefOr<Schema>)
    ensures
        r == reference_ref(reference@),
{
    RefOr::Reference { reference }
}

/// Builds the variant `openapiv3::Ref::Item` holding `item`.
#[verifier::external_body]
fn item_of(item: Schema) -> (r: RefOr<Schema>)
    ensures
        r == item_ref(item),
{
    RefOr::Item(item)
}

/// Reads the `nullable` field of `openapiv3::SchemaData` in a schema.
#[verifier::external_body]
fn schema_nullable(schema: &Schema) -> (nullable: bool)
    ensures
        nullable == schema_nullable_flag(*schema),
{
    schema.data.nullable
}

/// Writes the `nullable` field of `openapiv3::SchemaData` in a schema.
/// Claimed: the schema afterwards reads `nullable` there and differs from the
/// old one in that field alone, so a later write of the field overrides this
/// one.
#[verifier::external_body]
fn set_schema_nullable(schema: &mut Schema, nullable: bool)
    ensures
        *final(schema) == schema_with_nullable(*old(schema), nullable),
        schema_nullable_flag(*final(schema)) == nullable,
        differs_in_nullable_only(*final(schema), *old(schema)),
{
    schema.data.nullable = nullable;
}

/// `openapiv3::Schema::new_all_of` with a single member, a reference to
/// `reference`.
#[verifier::external_body]
fn all_of_reference(reference: String) -> (schema: Schema)
    ensures
        schema == all_of_reference_schema(reference@),
{
    Schema::new_all_of(vec![RefOr::Reference { reference }])
}

/// Moves the properties (the `openapiv3::RefMap`, in its order) and the
/// `required` list out of an object schema; `None` for a schema of any other
/// kind. Claimed: the result is what `object_fields` names, by the views of
/// its strings.
#[verifier::external_body]
fn object_parts(schema: Schema) -> (parts: Option<(Vec<(String, RefOr<Schema>)>, Vec<String>)>)
    ensures
        parts is None ==> object_fields(schema) is None,
        parts matches Some(p) ==> object_fields(schema) == Some(
            (
                p.0@.map_values(|e: (String, RefOr<Schema>)| (e.0@, e.1)),
                p.1@.map_values(|s: String| s@),
            ),
        ),
{
    match schema.kind {
        openapiv3::SchemaKind::Type(openapiv3::Type::Object(o)) => Some(
            (o.properties.into_iter().collect(), o.required),
        ),
        _ => None,
    }
}

/// `openapiv3::Parameter::query` with the given name and schema, its
/// `required` field set, as an item.
#[verifier::external_body]
fn query_parameter(name: String, schema: RefOr<Schema>, required: bool) -> (p: RefOr<Parameter>)
    ensures
        p == query_parameter_ref(name@, schema, required),
{
    let mut parameter = Parameter::query(name, schema);
    parameter.data.required = required;
    RefOr::Item(parameter)
}

/// `openapiv3::Parameter::path` with the given name and schema, as an item.
/// Claimed: the result is what `path_parameter_ref` names.
#[verifier::external_body]
fn path_parameter(name: String, schema: RefOr<Schema>) -> (p: RefOr<Parameter>)
    ensures
        p == path_parameter_ref(name@, schema),
{
    RefOr::Item(Parameter::path(name, schema))
}

/// `openapiv3::Schema::new_array` with items `inner`.
#[verifier::external_body]
fn new_array_schema(inner: RefOr<Schema>) -> (schema: Schema)
    ensures
        schema == array_schema_of(inner),
{
    Schema::new_array(inner)
}

/// `openapiv3::Schema::new_map` with additional properties `inner`.
#[verifier::external_body]
fn new_map_schema(inner: RefOr<Schema>) -> (schema: Schema)
    ensures
        schema == map_schema_of(inner),
{
    Schema::new_map(inner)
}

/// The schema that a modelled inline schema is written back as.
pub open spec fn inline_doc(inline: InlineSchema<Schema>) -> Schema {
    match inline {
        InlineSchema::Given { nullable, schema } => schema_with_nullable(schema, nullable),
        InlineSchema::AllOfReference { nullable, reference } => schema_with_nullable(
            all_of_reference_schema(reference@),
            nullable,
        ),
    }
}

/// The schema whose `nullable` flag a modelled inline schema writes: the
/// given schema, or the `allOf` around the reference.
pub open spec fn inline_base(inline: InlineSchema<Schema>) -> Schema {
    match inline {
        InlineSchema::Given { schema, .. } => schema,
        InlineSchema::AllOfReference { reference, .. } => all_of_reference_schema(reference@),
    }
}

/// The reference-or-schema that a modelled one is written back as.
pub open spec fn ref_doc(m: SchemaRef<Schema>) -> RefOr<Schema> {
    match m {
        SchemaRef::Reference(reference) => reference_ref(reference@),
        SchemaRef::Item(inline) => item_ref(inline_doc(inline)),
    }
}

/// `m` is how the model reads `r`.
pub open spec fn ref_model(r: RefOr<Schema>, m: SchemaRef<Schema>) -> bool {
    match m {
        SchemaRef::Reference(reference) => is_reference_to(r, reference@),
        SchemaRef::Item(InlineSchema::Given { nullable, schema }) => is_item_of(r, schema)
            && nullable == schema_nullable_flag(schema),
        SchemaRef::Item(InlineSchema::AllOfReference { .. }) => false,
    }
}

/// The schema of an optional value whose inner schema is `r`: an inline
/// schema marked nullable, or a nullable `allOf` around the reference.
pub open spec fn nullable_doc(r: RefOr<Schema>) -> RefOr<Schema> {
    if has_item(r) {
        item_ref(schema_with_nullable(item_schema(r), true))
    } else {
        item_ref(schema_with_nullable(all_of_reference_schema(reference_of(r)), true))
    }
}

/// `r` with the `nullable` flag of an inline schema cleared.
pub open spec fn cleared_doc(r: RefOr<Schema>) -> RefOr<Schema> {
    if has_item(r) {
        item_ref(schema_with_nullable(item_schema(r), false))
    } else {
        r
    }
}

/// The names of `names` include `name`.
pub open spec fn names_include(names: Seq<Seq<char>>, name: Seq<char>) -> bool {
    exists|j: int| 0 <= j < names.len() && names[j] == name
}

/// The query parameter of one property of an object schema.
pub open spec fn property_doc(
    property: (Seq<char>, RefOr<Schema>),
    required: Seq<Seq<char>>,
) -> RefOr<Parameter> {
    query_parameter_ref(property.0, cleared_doc(property.1), names_include(required, property.0))
}

/// The query parameters of one schema: one per property of an inline object
/// schema, none for a reference or a schema of another kind.
pub open spec fn schema_doc_parameters(r: RefOr<Schema>) -> Seq<RefOr<Parameter>> {
    if has_item(r) {
        match object_fields(item_schema(r)) {
            Some(fields) => fields.0.map_values(
                |p: (Seq<char>, RefOr<Schema>)| property_doc(p, fields.1),
            ),
            None => Seq::empty(),
        }
    } else {
        Seq::empty()
    }
}

/// The query parameters of all schemas, schema after schema.
pub open spec fn query_parameters_doc(schemas: Seq<RefOr<Schema>>) -> Seq<RefOr<Parameter>>
    decreases schemas.len(),
{
    if schemas.len() == 0 {
        Seq::empty()
    } else {
        query_parameters_doc(schemas.drop_last()) + schema_doc_parameters(schemas.last())
    }
}

/// The parameter that a modelled query parameter is written back as.
pub open spec fn parameter_doc(p: QueryParameter<Schema>) -> RefOr<Parameter> {
    query_parameter_ref(p.name@, ref_doc(p.schema), p.required)
}

/// `modelled` is how the model reads the properties `props`.
pub open spec fn properties_model(
    props: Seq<(Seq<char>, RefOr<Schema>)>,
    modelled: Seq<(String, SchemaRef<Schema>)>,
) -> bool {
    &&& props.len() == modelled.len()
    &&& forall|i: int|
        0 <= i < props.len() ==> (#[trigger] modelled[i]).0@ == props[i].0 && ref_model(
            props[i].1,
            modelled[i].1,
        )
}

/// `source` is how the model reads `r` for query expansion.
pub open spec fn source_model(r: RefOr<Schema>, source: QuerySource<Schema>) -> bool {
    match source {
        QuerySource::Reference(reference) => is_reference_to(r, reference@),
        QuerySource::Object { properties, required } => {
            &&& has_item(r)
            &&& is_item_of(r, item_schema(r))
            &&& object_fields(item_schema(r)) is Some
            &&& properties_model((object_fields(item_schema(r))->0).0, properties@)
            &&& (object_fields(item_schema(r))->0).1 == required@.map_values(|s: String| s@)
        },
        QuerySource::Other => {
            &&& has_item(r)
            &&& is_item_of(r, item_schema(r))
            &&& object_fields(item_schema(r)) is None
        },
    }
}

/// What `nullable_schema` promises of `r` for the inner schema `schema`.
pub open spec fn nullable_schema_spec(schema: Schema, r: Schema) -> bool {
    &&& r == schema_with_nullable(schema, true)
    &&& schema_nullable_flag(r)
    &&& differs_in_nullable_only(r, schema)
}

/// What `nullable_schema_ref` promises of `out` for the inner schema `r`.
pub open spec fn nullable_ref_spec(r: RefOr<Schema>, out: RefOr<Schema>) -> bool {
    &&& out == nullable_doc(r)
    &&& has_item(r) || exists|x: Seq<char>| #[trigger] reference_ref(x) == r
    &&& forall|t: Schema|
        #[trigger] item_ref(t) == r ==> out == item_ref(schema_with_nullable(t, true))
            && schema_nullable_flag(schema_with_nullable(t, true)) && differs_in_nullable_only(
            schema_with_nullable(t, true),
            t,
        )
    &&& forall|x: Seq<char>|
        #[trigger] reference_ref(x) == r ==> out == item_ref(
            schema_with_nullable(all_of_reference_schema(x), true),
        ) && schema_nullable_flag(schema_with_nullable(all_of_reference_schema(x), true))
            && differs_in_nullable_only(
            schema_with_nullable(all_of_reference_schema(x), true),
            all_of_reference_schema(x),
        )
}

/// `r` is the item or the reference that `item_schema` and `reference_of`
/// pick.
pub open spec fn ref_resolved(r: RefOr<Schema>) -> bool {
    &&& forall|t: Schema| #[trigger] item_ref(t) == r ==> has_item(r) && item_schema(r) == t
    &&& forall|x: Seq<char>| #[trigger] reference_ref(x) == r ==> !has_item(r) && reference_of(r)
        == x
}

/// The schemas given to `query_parameters`, and the property schemas of the
/// inline objects among them, are resolved.
pub open spec fn query_inputs_resolved(schemas: Seq<RefOr<Schema>>) -> bool {
    forall|i: int|
        0 <= i < schemas.len() ==> {
            &&& ref_resolved(#[trigger] schemas[i])
            &&& has_item(schemas[i]) && object_fields(item_schema(schemas[i])) is Some ==> forall|
                j: int,
            |
                0 <= j < (object_fields(item_schema(schemas[i]))->0).0.len() ==> ref_resolved(
                    #[trigger] (object_fields(item_schema(schemas[i]))->0).0[j].1,
                )
        }
}

/// Law: the schema of a doubly optional value is that of a singly optional
/// one; marking a schema nullable twice is marking it once.
pub proof fn nullable_schema_twice_is_once(schema: Schema, once: Schema, twice: Schema)
    requires
        nullable_schema_spec(schema, once),
        nullable_schema_spec(once, twice),
    ensures
        twice == once,
{
    assert(schema_with_nullable(once, true) == schema_with_nullable(schema, true));
}

/// Law: the schema (or reference) of a doubly optional value is that of a
/// singly optional one; no second `allOf` layer is added.
pub proof fn nullable_schema_ref_twice_is_once(r: RefOr<Schema>, once: RefOr<Schema>, twice: RefOr<Schema>)
    requires
        nullable_ref_spec(r, once),
        nullable_ref_spec(once, twice),
    ensures
        twice == once,
{
    if has_item(r) {
        let t = choose|t: Schema| #[trigger] item_ref(t) == r;
        let u = schema_with_nullable(t, true);
        assert(once == item_ref(u));
        assert(twice == item_ref(schema_with_nullable(u, true)));
        assert(schema_with_nullable(u, true) == schema_with_nullable(t, true));
    } else {
        let x = choose|x: Seq<char>| #[trigger] reference_ref(x) == r;
        let a = all_of_reference_schema(x);
        let u = schema_with_nullable(a, true);
        assert(once == item_ref(u));
        assert(twice == item_ref(schema_with_nullable(u, true)));
        assert(schema_with_nullable(u, true) == schema_with_nullable(a, true));
    }
}

/// A schema read for query expansion is resolved, and so are the property
/// schemas of an inline object.
proof fn lemma_source_resolved(r: RefOr<Schema>, source: QuerySource<Schema>)
    requires
        source_model(r, source),
    ensures
        ref_resolved(r),
        has_item(r) && object_fields(item_schema(r)) is Some ==> forall|j: int|
            0 <= j < (object_fields(item_schema(r))->0).0.len() ==> ref_resolved(
                #[trigger] (object_fields(item_schema(r))->0).0[j].1,
            ),
{
    match source {
        QuerySource::Reference(reference) => {
            lemma_reference_of(r, reference@);
        },
        QuerySource::Object { properties, required } => {
            lemma_item_schema(r, item_schema(r));
            let props = (object_fields(item_schema(r))->0).0;
            assert forall|j: int| 0 <= j < props.len() implies ref_resolved(
                #[trigger] props[j].1,
            ) by {
                lemma_ref_model_resolved(props[j].1, properties@[j].1);
            }
        },
        QuerySource::Other => {
            lemma_item_schema(r, item_schema(r));
        },
    }
}

/// A modelled reference-or-schema is resolved.
proof fn lemma_ref_model_resolved(r: RefOr<Schema>, m: SchemaRef<Schema>)
    requires
        ref_model(r, m),
    ensures
        ref_resolved(r),
{
    match m {
        SchemaRef::Reference(reference) => {
            lemma_reference_of(r, reference@);
        },
        SchemaRef::Item(InlineSchema::Given { schema, .. }) => {
            lemma_item_schema(r, schema);
        },
        SchemaRef::Item(InlineSchema::AllOfReference { .. }) => {},
    }
}

proof fn lemma_item_schema(r: RefOr<Schema>, t: Schema)
    requires
        is_item_of(r, t),
    ensures
        has_item(r),
        item_schema(r) == t,
{
    assert(item_ref(t) == r);
}

proof fn lemma_reference_of(r: RefOr<Schema>, x: Seq<char>)
    requires
        is_reference_to(r, x),
    ensures
        !has_item(r),
        reference_of(r) == x,
{
    assert(reference_ref(x) == r);
}

/// Clearing and marking nullable through the model agree with doing so on
/// the schema the model reads.
proof fn lemma_ref_model_docs(r: RefOr<Schema>, m: SchemaRef<Schema>)
    requires
        ref_model(r, m),
    ensures
        ref_doc(without_null(m)) == cleared_doc(r),
        ref_doc(nullable_of(m)) == nullable_doc(r),
{
    match m {
        SchemaRef::Reference(reference) => {
            lemma_reference_of(r, reference@);
        },
        SchemaRef::Item(InlineSchema::Given { nullable, schema }) => {
            lemma_item_schema(r, schema);
        },
        SchemaRef::Item(InlineSchema::AllOfReference { .. }) => {},
    }
}

/// Expanding a modelled source and writing its parameters back gives the
/// query parameters of the schema it reads.
proof fn lemma_source_doc(r: RefOr<Schema>, source: QuerySource<Schema>)
    requires
        source_model(r, source),
    ensures
        source_parameters(source).map_values(|p: QueryParameter<Schema>| parameter_doc(p))
            == schema_doc_parameters(r),
{
    match source {
        QuerySource::Reference(reference) => {
            lemma_reference_of(r, reference@);
            assert(source_parameters(source).map_values(
                |p: QueryParameter<Schema>| parameter_doc(p),
            ) =~= Seq::<RefOr<Parameter>>::empty());
        },
        QuerySource::Object { properties, required } => {
            let fields = object_fields(item_schema(r))->0;
            let props = fields.0;
            let req = fields.1;
            let lhs = source_parameters(source).map_values(
                |p: QueryParameter<Schema>| parameter_doc(p),
            );
            let rhs = schema_doc_parameters(r);
            assert(source_parameters(source) == object_parameters(properties@, required@));
            assert(lhs.len() == rhs.len());
            assert forall|i: int| 0 <= i < lhs.len() implies lhs[i] == rhs[i] by {
                let prop = properties@[i];
                assert(object_parameters(properties@, required@)[i] == property_parameter(
                    prop,
                    required@,
                ));
                lemma_ref_model_docs(props[i].1, prop.1);
                assert(prop.0@ == props[i].0);
                assert(names_contain(required@, prop.0) == names_include(req, props[i].0)) by {
                    if names_contain(required@, prop.0) {
                        let j = choose|j: int|
                            0 <= j < required@.len() && (#[trigger] required@[j])@ == prop.0@;
                        assert(req[j] == required@[j]@);
                    }
                    if names_include(req, props[i].0) {
                        let j = choose|j: int| 0 <= j < req.len() && req[j] == props[i].0;
                        assert(req[j] == required@[j]@);
                        assert(names_contain(required@, prop.0));
                    }
                }
            }
            assert(lhs =~= rhs);
        },
        QuerySource::Other => {
            assert(source_parameters(source).map_values(
                |p: QueryParameter<Schema>| parameter_doc(p),
            ) =~= Seq::<RefOr<Parameter>>::empty());
        },
    }
}

/// Expanding modelled sources and writing the parameters back gives the
/// query parameters of the schemas they read.
proof fn lemma_sources_doc(schemas: Seq<RefOr<Schema>>, sources: Seq<QuerySource<Schema>>)
    requires
        schemas.len() == sources.len(),
        forall|j: int| 0 <= j < sources.len() ==> source_model(schemas[j], #[trigger] sources[j]),
    ensures
        query_parameters_of(sources).map_values(|p: QueryParameter<Schema>| parameter_doc(p))
            == query_parameters_doc(schemas),
    decreases sources.len(),
{
    if sources.len() > 0 {
        let n = sources.len() - 1;
        lemma_sources_doc(schemas.drop_last(), sources.drop_last());
        lemma_source_doc(schemas.last(), sources.last());
        assert(source_model(schemas[n], sources[n]));
        let front = query_parameters_of(sources.drop_last());
        let back = source_parameters(sources.last());
        assert((front + back).map_values(|p: QueryParameter<Schema>| parameter_doc(p)) =~= front.map_values(
            |p: QueryParameter<Schema>| parameter_doc(p),
        ) + back.map_values(|p: QueryParameter<Schema>| parameter_doc(p)));
    } else {
        assert(query_parameters_of(sources).map_values(
            |p: QueryParameter<Schema>| parameter_doc(p),
        ) =~= Seq::<RefOr<Parameter>>::empty());
    }
}

/// Reads an inline schema into the model, with its `nullable` flag.
fn inline_model(schema: Schema) -> (inline: InlineSchema<Schema>)
    ensures
        inline == (InlineSchema::Given { nullable: schema_nullable_flag(schema), schema }),
{
    let nullable = schema_nullable(&schema);
    InlineSchema::Given { nullable, schema }
}

/// Writes a modelled inline schema back as a schema.
fn inline_document(inline: InlineSchema<Schema>) -> (schema: Schema)
    ensures
        schema == inline_doc(inline),
        schema_nullable_flag(schema) == inline.is_nullable(),
        differs_in_nullable_only(schema, inline_base(inline)),
{
    match inline {
        InlineSchema::Given { nullable, schema } => {
            let mut schema = schema;
            set_schema_nullable(&mut schema, nullable);
            schema
        },
        InlineSchema::AllOfReference { nullable, reference } => {
            let mut schema = all_of_reference(reference);
            set_schema_nullable(&mut schema, nullable);
            schema
        },
    }
}

/// Reads a reference-or-schema into the model.
fn schema_ref_model(r: RefOr<Schema>) -> (m: SchemaRef<Schema>)
    ensures
        ref_model(r, m),
{
    match ref_parts(r) {
        RefParts::Reference(reference) => SchemaRef::Reference(reference),
        RefParts::Item(schema) => SchemaRef::Item(inline_model(schema)),
    }
}

/// Writes a modelled reference-or-schema back.
fn schema_ref_document(r: SchemaRef<Schema>) -> (doc: RefOr<Schema>)
    ensures
        doc == ref_doc(r),
        r matches SchemaRef::Item(inline) ==> differs_in_nullable_only(
            inline_doc(inline),
            inline_base(inline),
        ),
        r matches SchemaRef::Item(inline) ==> schema_nullable_flag(inline_doc(inline))
            == inline.is_nullable(),
{
    match r {
        SchemaRef::Reference(reference) => reference_to(reference),
        SchemaRef::Item(inline) => item_of(inline_document(inline)),
    }
}

/// The schema of a sequence whose elements have the schema `inner`.
pub fn array_schema(inner: RefOr<Schema>) -> (schema: Schema)
    ensures
        schema == array_schema_of(inner),
{
    new_array_schema(inner)
}

/// The schema of a string-keyed map whose values have the schema `inner`.
pub fn map_schema(inner: RefOr<Schema>) -> (schema: Schema)
    ensures
        schema == map_schema_of(inner),
{
    new_map_schema(inner)
}

/// The schema of an optional value whose inner schema is `schema`: the same
/// schema, marked nullable (see `mark_nullable`).
pub fn nullable_schema(schema: Schema) -> (r: Schema)
    ensures
        nullable_schema_spec(schema, r),
{
    inline_document(mark_nullable(inline_model(schema)))
}

/// The schema of an optional value whose inner schema is `r`: an inline
/// schema marked nullable, or a reference wrapped in a nullable `allOf`
/// (see `mark_nullable_ref`).
pub fn nullable_schema_ref(r: RefOr<Schema>) -> (out: RefOr<Schema>)
    ensures
        nullable_ref_spec(r, out),
{
    let ghost input = r;
    let m = schema_ref_model(r);
    let ghost model = m;
    proof {
        lemma_ref_model_docs(input, m);
        lemma_ref_model_resolved(input, m);
    }
    let out = schema_ref_document(mark_nullable_ref(m));
    proof {
        match model {
            SchemaRef::Reference(reference) => {
                assert(reference_ref(reference@) == input);
            },
            SchemaRef::Item(InlineSchema::Given { schema, .. }) => {
                assert(item_ref(schema) == input);
            },
            SchemaRef::Item(InlineSchema::AllOfReference { .. }) => {},
        }
    }
    out
}

/// Reads a schema offered for query expansion into the model.
fn query_source(r: RefOr<Schema>) -> (source: QuerySource<Schema>)
    ensures
        source_model(r, source),
{
    let ghost input = r;
    match ref_parts(r) {
        RefParts::Reference(reference) => QuerySource::Reference(reference),
        RefParts::Item(schema) => {
            proof {
                lemma_item_schema(input, schema);
            }
            let ghost item = schema;
            match object_parts(schema) {
                Some((properties, required)) => {
                    let ghost all = properties@;
                    let ghost props = (object_fields(item)->0).0;
                    let mut modelled: Vec<(String, SchemaRef<Schema>)> = Vec::new();
                    for property in it: properties.into_iter()
                        invariant
                            it.seq() == all,
                            props == all.map_values(|e: (String, RefOr<Schema>)| (e.0@, e.1)),
                            modelled@.len() == it.index(),
                            forall|j: int|
                                0 <= j < modelled@.len() ==> (#[trigger] modelled@[j]).0@
                                    == props[j].0 && ref_model(props[j].1, modelled@[j].1),
                    {
                        let (name, schema) = property;
                        modelled.push((name, schema_ref_model(schema)));
                    }
                    QuerySource::Object { properties: modelled, required }
                },
                None => QuerySource::Other,
            }
        },
    }
}

/// Expands object schemas into one query parameter per property, marking each
/// parameter required when the schema lists it in its `required` set (see
/// `expand_query_parameters`).
pub fn query_parameters(schemas: Vec<RefOr<Schema>>) -> (r: Vec<RefOr<Parameter>>)
    ensures
        r@ == query_parameters_doc(schemas@),
        query_inputs_resolved(schemas@),
{
    let ghost input = schemas@;
    let mut sources: Vec<QuerySource<Schema>> = Vec::new();
    for schema in it: schemas.into_iter()
        invariant
            it.seq() == input,
            sources@.len() == it.index(),
            forall|j: int|
                0 <= j < sources@.len() ==> source_model(input[j], #[trigger] sources@[j]),
    {
        sources.push(query_source(schema));
    }
    proof {
        lemma_sources_doc(input, sources@);
        assert forall|i: int| 0 <= i < input.len() implies {
            &&& ref_resolved(#[trigger] input[i])
            &&& has_item(input[i]) && object_fields(item_schema(input[i])) is Some ==> forall|
                j: int,
            |
                0 <= j < (object_fields(item_schema(input[i]))->0).0.len() ==> ref_resolved(
                    #[trigger] (object_fields(item_schema(input[i]))->0).0[j].1,
                )
        } by {
            lemma_source_resolved(input[i], sources@[i]);
        }
    }
    let ghost srcs = sources@;
    let expanded = expand_query_parameters(sources);
    let ghost ex = expanded@;
    let mut parameters: Vec<RefOr<Parameter>> = Vec::new();
    for p in it: expanded.into_iter()
        invariant
            it.seq() == ex,
            parameters@ == ex.take(it.index() as int).map_values(
                |q: QueryParameter<Schema>| parameter_doc(q),
            ),
    {
        let ghost i = it.index() as int;
        let QueryParameter { name, required, schema } = p;
        parameters.push(query_parameter(name, schema_ref_document(schema), required));
        assert(ex.take(i + 1).map_values(|q: QueryParameter<Schema>| parameter_doc(q))
            =~= ex.take(i).map_values(|q: QueryParameter<Schema>| parameter_doc(q)).push(
            parameter_doc(ex[i]),
        ));
    }
    assert(ex.take(ex.len() as int) =~= ex);
    parameters
}

/// One path parameter named `path` for each schema, in order (see
/// `name_path_parameters`).
pub fn path_parameters(schemas: Vec<RefOr<Schema>>) -> (r: Vec<RefOr<Parameter>>)
    ensures
        r@.len() == schemas@.len(),
        forall|i: int|
            0 <= i < r@.len() ==> #[trigger] r@[i] == path_parameter_ref("path"@, schemas@[i]),
{
    let ghost input = schemas@;
    let named = name_path_parameters(schemas);
    let ghost all = named@;
    let mut parameters: Vec<RefOr<Parameter>> = Vec::new();
    for p in it: named.into_iter()
        invariant
            it.seq() == all,
            all.len() == input.len(),
            forall|j: int|
                0 <= j < all.len() ==> (#[trigger] all[j]).name@ == "path"@ && all[j].schema
                    == input[j],
            parameters@.len() == it.index(),
            forall|j: int|
                0 <= j < parameters@.len() ==> #[trigger] parameters@[j] == path_parameter_ref(
                    "path"@,
                    input[j],
                ),
    {
        let PathParameter { name, schema } = p;
        parameters.push(path_parameter(name, schema));
    }
    parameters
}

} // verus!

verus! {

/// Law: for an inline object schema among the schemas given to
/// `query_parameters`, each property gives the query parameter of its name
/// and cleared schema, required exactly when the object's `required` list
/// holds that name at some position. The result says where it stands.
pub proof fn query_parameters_doc_required_iff_listed(
    schemas: Seq<RefOr<Schema>>,
    k: int,
    j: int,
) -> (i: int)
    requires
        0 <= k < schemas.len(),
        has_item(schemas[k]),
        object_fields(item_schema(schemas[k])) is Some,
        0 <= j < (object_fields(item_schema(schemas[k]))->0).0.len(),
    ensures
        0 <= i < query_parameters_doc(schemas).len(),
        query_parameters_doc(schemas)[i] == query_parameter_ref(
            (object_fields(item_schema(schemas[k]))->0).0[j].0,
            cleared_doc((object_fields(item_schema(schemas[k]))->0).0[j].1),
            exists|m: int|
                0 <= m < (object_fields(item_schema(schemas[k]))->0).1.len() && (#[trigger] (
                object_fields(item_schema(schemas[k]))->0).1[m]) == (object_fields(
                    item_schema(schemas[k]),
                )->0).0[j].0,
        ),
    decreases schemas.len(),
{
    let rest = schemas.drop_last();
    let front = query_parameters_doc(rest);
    if k < schemas.len() - 1 {
        assert(rest[k] == schemas[k]);
        let i = query_parameters_doc_required_iff_listed(rest, k, j);
        assert(query_parameters_doc(schemas) == front + schema_doc_parameters(schemas.last()));
        i
    } else {
        assert(schemas.last() == schemas[k]);
        front.len() + j
    }
}

} // verus!
