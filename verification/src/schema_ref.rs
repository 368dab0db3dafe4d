//! Schemas written inline or referenced, and the nullable schemas that an
//! optional value documents.

use vstd::prelude::*;

verus! {

/// An inline schema, with its `nullable` flag read out of it.
pub enum InlineSchema<S> {
    /// A schema given by the caller, whose `nullable` flag is `nullable`.
    Given { nullable: bool, schema: S },
    /// An `allOf` schema whose single member is a `$ref` to `reference`.
    AllOfReference { nullable: bool, reference: String },
}

/// A schema: a `$ref` to one defined elsewhere, or one written inline.
pub enum SchemaRef<S> {
    Reference(String),
    Item(InlineSchema<S>),
}

impl<S> InlineSchema<S> {
    /// Whether the schema admits `null`.
    pub open spec fn is_nullable(self) -> bool {
        match self {
            InlineSchema::Given { nullable, .. } => nullable,
            InlineSchema::AllOfReference { nullable, .. } => nullable,
        }
    }

    /// The same schema with its `nullable` flag set to `nullable`.
    pub open spec fn with_nullable(self, nullable: bool) -> InlineSchema<S> {
        match self {
            InlineSchema::Given { schema, .. } => InlineSchema::Given { nullable, schema },
            InlineSchema::AllOfReference { reference, .. } => InlineSchema::AllOfReference {
                nullable,
                reference,
            },
        }
    }

    /// Sets the `nullable` flag.
    pub fn set_nullable(self, nullable: bool) -> (r: InlineSchema<S>)
        ensures
            r == self.with_nullable(nullable),
    {
        match self {
            InlineSchema::Given { schema, .. } => InlineSchema::Given { nullable, schema },
            InlineSchema::AllOfReference { reference, .. } => InlineSchema::AllOfReference {
                nullable,
                reference,
            },
        }
    }
}

/// The schema of an optional value whose inner schema is `r`. An inline
/// schema is marked nullable. OpenAPI 3.0 ignores keywords beside a `$ref`, so
/// a reference is wrapped in an `allOf` that is marked nullable instead.
pub open spec fn nullable_of<S>(r: SchemaRef<S>) -> SchemaRef<S> {
    match r {
        SchemaRef::Item(inline) => SchemaRef::Item(inline.with_nullable(true)),
        SchemaRef::Reference(reference) => SchemaRef::Item(
            InlineSchema::AllOfReference { nullable: true, reference },
        ),
    }
}

/// The inline schema of an optional value: the inner schema, marked nullable.
pub fn mark_nullable<S>(schema: InlineSchema<S>) -> (r: InlineSchema<S>)
    ensures
        r == schema.with_nullable(true),
{
    schema.set_nullable(true)
}

/// The schema of an optional value whose inner schema is `r`.
pub fn mark_nullable_ref<S>(r: SchemaRef<S>) -> (out: SchemaRef<S>)
    ensures
        out == nullable_of(r),
{
    match r {
        SchemaRef::Item(inline) => SchemaRef::Item(inline.set_nullable(true)),
        SchemaRef::Reference(reference) => SchemaRef::Item(
            InlineSchema::AllOfReference { nullable: true, reference },
        ),
    }
}

/// Law: the schema of an optional value is always written inline and always
/// admits `null`; a referenced inner schema is still referenced, from inside
/// the `allOf`.
pub proof fn nullable_of_is_inline_and_nullable<S>(r: SchemaRef<S>)
    ensures
        (nullable_of(r) is Item),
        nullable_of(r)->Item_0.is_nullable(),
        (r is Reference) ==> (nullable_of(r)->Item_0 == (InlineSchema::<S>::AllOfReference {
            nullable: true,
            reference: r->Reference_0,
        })),
        (r is Item) ==> (nullable_of(r)->Item_0 == r->Item_0.with_nullable(true)),
{
}

/// Law: marking a schema nullable twice is marking it once, so a doubly
/// optional value documents the same schema as a singly optional one.
pub proof fn nullable_of_is_idempotent<S>(r: SchemaRef<S>)
    ensures
        nullable_of(nullable_of(r)) == nullable_of(r),
{
}

} // verus!
