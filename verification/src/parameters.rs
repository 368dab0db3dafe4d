//! Expansion of schemas into query and path parameters.

use vstd::prelude::*;
use crate::schema_ref::SchemaRef;

verus! {

/// A schema offered for expansion into query parameters, as far as the
/// expansion reads it.
pub enum QuerySource<S> {
    /// A `$ref` to a schema defined elsewhere.
    Reference(String),
    /// An inline object schema: its properties in order, and the names that
    /// its `required` list holds.
    Object { properties: Vec<(String, SchemaRef<S>)>, required: Vec<String> },
    /// Any other inline schema.
    Other,
}

/// A query parameter: its name, whether it is required, and its schema.
pub struct QueryParameter<S> {
    pub name: String,
    pub required: bool,
    pub schema: SchemaRef<S>,
}

/// A path parameter: its name and its schema.
pub struct PathParameter<S> {
    pub name: String,
    pub schema: S,
}

/// `name` occurs in `names`.
pub open spec fn names_contain(names: Seq<String>, name: String) -> bool {
    exists|j: int| 0 <= j < names.len() && (#[trigger] names[j])@ == name@
}

/// The schema with any `nullable` flag of an inline schema cleared: a query
/// string has no `null`, optionality is the parameter not being required.
pub open spec fn without_null<S>(r: SchemaRef<S>) -> SchemaRef<S> {
    match r {
        SchemaRef::Item(inline) => SchemaRef::Item(inline.with_nullable(false)),
        SchemaRef::Reference(reference) => SchemaRef::Reference(reference),
    }
}

/// The query parameter of one property of an object schema.
pub open spec fn property_parameter<S>(
    property: (String, SchemaRef<S>),
    required: Seq<String>,
) -> QueryParameter<S> {
    QueryParameter {
        name: property.0,
        required: names_contain(required, property.0),
        schema: without_null(property.1),
    }
}

/// The query parameters of an object schema: one per property, in order.
pub open spec fn object_parameters<S>(
    properties: Seq<(String, SchemaRef<S>)>,
    required: Seq<String>,
) -> Seq<QueryParameter<S>> {
    properties.map_values(|p: (String, SchemaRef<S>)| property_parameter(p, required))
}

/// The query parameters of one source: those of its properties when it is an
/// inline object schema, none otherwise.
pub open spec fn source_parameters<S>(source: QuerySource<S>) -> Seq<QueryParameter<S>> {
    match source {
        QuerySource::Object { properties, required } => object_parameters(
            properties@,
            required@,
        ),
        _ => Seq::empty(),
    }
}

/// The query parameters of all sources, source after source.
pub open spec fn query_parameters_of<S>(sources: Seq<QuerySource<S>>) -> Seq<QueryParameter<S>>
    decreases sources.len(),
{
    if sources.len() == 0 {
        Seq::empty()
    } else {
        query_parameters_of(sources.drop_last()) + source_parameters(sources.last())
    }
}

/// Whether `name` occurs in `names`.
pub fn contains_name(names: &Vec<String>, name: &String) -> (found: bool)
    ensures
        found == names_contain(names@, *name),
        found <==> exists|j: int| 0 <= j < names@.len() && (#[trigger] names@[j])@ == name@,
        forall|j: int| 0 <= j < names@.len() && (#[trigger] names@[j])@ == name@ ==> found,
{
    let mut i: usize = 0;
    while i < names.len()
        invariant
            i <= names.len(),
            forall|j: int| 0 <= j < i ==> (#[trigger] names@[j])@ != name@,
        decreases names.len() - i,
    {
        if names[i] == *name {
            assert(names@[i as int]@ == name@);
            return true;
        }
        i = i + 1;
    }
    false
}

/// The schema with the `nullable` flag of an inline schema cleared.
pub fn clear_null<S>(r: SchemaRef<S>) -> (out: SchemaRef<S>)
    ensures
        out == without_null(r),
{
    match r {
        SchemaRef::Item(inline) => SchemaRef::Item(inline.set_nullable(false)),
        SchemaRef::Reference(reference) => SchemaRef::Reference(reference),
    }
}

/// The query parameters of an object schema with the given properties and
/// `required` list.
pub fn object_query_parameters<S>(
    properties: Vec<(String, SchemaRef<S>)>,
    required: &Vec<String>,
) -> (r: Vec<QueryParameter<S>>)
    ensures
        r@ == object_parameters(properties@, required@),
{
    let ghost all = properties@;
    let mut r: Vec<QueryParameter<S>> = Vec::new();
    for property in it: properties.into_iter()
        invariant
            it.seq() == all,
            r@ == object_parameters(all.take(it.index() as int), required@),
    {
        let ghost i = it.index() as int;
        let (name, schema) = property;
        let is_required = contains_name(required, &name);
        r.push(QueryParameter { name, required: is_required, schema: clear_null(schema) });
        assert(all.take(i + 1) =~= all.take(i).push(all[i]));
    }
    assert(all.take(all.len() as int) =~= all);
    r
}

/// Expands schemas into query parameters: each inline object schema gives one
/// parameter per property, in order, required when the schema's `required`
/// list names it, with its schema's `nullable` flag cleared. References and
/// other schemas give none.
pub fn expand_query_parameters<S>(sources: Vec<QuerySource<S>>) -> (r: Vec<QueryParameter<S>>)
    ensures
        r@ == query_parameters_of(sources@),
{
    let ghost all = sources@;
    let mut r: Vec<QueryParameter<S>> = Vec::new();
    for source in it: sources.into_iter()
        invariant
            it.seq() == all,
            r@ == query_parameters_of(all.take(it.index() as int)),
    {
        let ghost i = it.index() as int;
        assert(all.take(i + 1).drop_last() =~= all.take(i));
        match source {
            QuerySource::Object { properties, required } => {
                let mut more = object_query_parameters(properties, &required);
                r.append(&mut more);
            },
            _ => {},
        }
    }
    assert(all.take(all.len() as int) =~= all);
    r
}

/// Names each schema as a path parameter called `path`, in order.
pub fn name_path_parameters<S>(schemas: Vec<S>) -> (r: Vec<PathParameter<S>>)
    ensures
        r@.len() == schemas@.len(),
        forall|i: int|
            0 <= i < r@.len() ==> (#[trigger] r@[i]).name@ == "path"@ && r@[i].schema
                == schemas@[i],
{
    let ghost all = schemas@;
    let mut r: Vec<PathParameter<S>> = Vec::new();
    for schema in it: schemas.into_iter()
        invariant
            it.seq() == all,
            r@.len() == it.index(),
            forall|j: int|
                0 <= j < r@.len() ==> (#[trigger] r@[j]).name@ == "path"@ && r@[j].schema
                    == all[j],
    {
        r.push(PathParameter { name: String::from_str("path"), schema });
    }
    r
}

} // verus!

verus! {

/// Law: expanding two lists of schemas one after the other gives the
/// parameters of each, in order.
pub proof fn query_parameters_of_concat<S>(a: Seq<QuerySource<S>>, b: Seq<QuerySource<S>>)
    ensures
        query_parameters_of(a + b) == query_parameters_of(a) + query_parameters_of(b),
    decreases b.len(),
{
    if b.len() == 0 {
        assert(a + b =~= a);
    } else {
        query_parameters_of_concat(a, b.drop_last());
        assert((a + b).drop_last() =~= a + b.drop_last());
        assert((a + b).last() == b.last());
    }
}

/// Law: no query parameter's inline schema admits `null`.
pub proof fn query_parameters_are_never_nullable<S>(sources: Seq<QuerySource<S>>, i: int)
    requires
        0 <= i < query_parameters_of(sources).len(),
    ensures
        (query_parameters_of(sources)[i].schema is Item) ==> !query_parameters_of(
            sources,
        )[i].schema->Item_0.is_nullable(),
    decreases sources.len(),
{
    if sources.len() > 0 {
        let front = query_parameters_of(sources.drop_last());
        if i < front.len() {
            query_parameters_are_never_nullable(sources.drop_last(), i);
        }
    }
}

/// Law: every query parameter is the parameter of one property of one inline
/// object schema among the sources; the result names which. So its name is
/// the property's name, and it is required exactly when that schema's
/// `required` list names it.
pub proof fn query_parameter_origin<S>(sources: Seq<QuerySource<S>>, i: int) -> (at: (int, int))
    requires
        0 <= i < query_parameters_of(sources).len(),
    ensures
        0 <= at.0 < sources.len(),
        (sources[at.0] is Object),
        0 <= at.1 < sources[at.0]->properties@.len(),
        query_parameters_of(sources)[i] == property_parameter(
            sources[at.0]->properties@[at.1],
            sources[at.0]->required@,
        ),
    decreases sources.len(),
{
    let rest = sources.drop_last();
    let front = query_parameters_of(rest);
    if i < front.len() {
        let at = query_parameter_origin(rest, i);
        assert(sources[at.0] == rest[at.0]);
        at
    } else {
        let k = sources.len() - 1;
        assert(sources[k] == sources.last());
        (k, i - front.len())
    }
}

/// Law: every property of every inline object schema among the sources gives
/// a query parameter; the result says where it stands in the expansion.
pub proof fn query_parameter_of_property<S>(sources: Seq<QuerySource<S>>, k: int, j: int) -> (i: int)
    requires
        0 <= k < sources.len(),
        (sources[k] is Object),
        0 <= j < sources[k]->properties@.len(),
    ensures
        0 <= i < query_parameters_of(sources).len(),
        query_parameters_of(sources)[i] == property_parameter(
            sources[k]->properties@[j],
            sources[k]->required@,
        ),
    decreases sources.len(),
{
    let rest = sources.drop_last();
    let front = query_parameters_of(rest);
    if k < sources.len() - 1 {
        assert(rest[k] == sources[k]);
        query_parameter_of_property(rest, k, j)
    } else {
        front.len() + j
    }
}

} // verus!

verus! {

/// Law: the query parameter of a property is required exactly when the
/// object's `required` list holds the property's name at some position, and
/// a name listed anywhere in that list makes it required. The result says
/// where the parameter stands in the expansion.
pub proof fn query_parameter_required_iff_listed<S>(
    sources: Seq<QuerySource<S>>,
    k: int,
    j: int,
) -> (i: int)
    requires
        0 <= k < sources.len(),
        (sources[k] is Object),
        0 <= j < sources[k]->properties@.len(),
    ensures
        0 <= i < query_parameters_of(sources).len(),
        query_parameters_of(sources)[i].name == sources[k]->properties@[j].0,
        sources[k]->properties@[j].1 is Reference ==> query_parameters_of(sources)[i].schema
            == sources[k]->properties@[j].1,
        sources[k]->properties@[j].1 is Item ==> query_parameters_of(sources)[i].schema == (
        SchemaRef::Item(sources[k]->properties@[j].1->Item_0.with_nullable(false))),
        query_parameters_of(sources)[i].required <==> exists|m: int|
            0 <= m < sources[k]->required@.len() && (#[trigger] sources[k]->required@[m])@
                == sources[k]->properties@[j].0@,
        forall|m: int|
            0 <= m < sources[k]->required@.len() && (#[trigger] sources[k]->required@[m])@
                == sources[k]->properties@[j].0@ ==> query_parameters_of(sources)[i].required,
{
    query_parameter_of_property(sources, k, j)
}

} // verus!
