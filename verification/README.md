# oasgen_core

The core of an OpenAPI document generator, verified with Verus.

- `src/integer.rs`: the OpenAPI format and inclusive bounds of each Rust
  integer primitive, with the laws that tie them to the type's range.
- `src/responses.rs`: the response table of an `openapiv3::Operation`
  (`OperationExt`), modelled as the sequence of its status keys and
  responses, and the rejections of a JSON body extractor.
- `src/schema_ref.rs`: nullable schemas of optional values.
- `src/parameters.rs`: expansion of object schemas into query parameters and
  of schemas into path parameters, over a model generic in the schema type.
- `src/openapi.rs`: the same logic on `openapiv3` values, and array and map
  schemas.
- `src/outside.rs`: the `openapiv3` types that the library carries through.

`app/` holds the `OaSchema` and `OaParameter` traits with their
implementations for std, http, axum, uuid, bigdecimal, phonenumber and
serde_qs types, and the link-time registries; each implementation calls the
library for its rules.
