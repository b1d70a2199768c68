use vstd::prelude::*;
use vstd::string::StringExecFns;
use async_graphql::dynamic::{Field, FieldFuture, Object, Schema, TypeRef};

verus! {

/// The root query type of the fixed schema. Its one field, `hello`, resolves
/// to a constant greeting.
pub struct QueryRoot;

impl QueryRoot {
    /// The resolver of the schema's one field: a constant greeting.
    pub fn hello(&self) -> (r: String)
        ensures
            r@ == "Hello, world!"@,
    {
        String::from_str("Hello, world!")
    }
}

#[verifier::external_type_specification]
#[verifier::external_body]
pub struct ExSchema(Schema);

#[verifier::external_type_specification]
#[verifier::external_body]
pub struct ExRequest(async_graphql::Request);

/// A shared handle to the immutable query-execution schema. Construction is
/// deterministic and side-effect free; a process builds one handle at startup
/// and reads it concurrently without synchronization.
pub struct SchemaHandle {
    inner: Schema,
}

/// Relies on `async_graphql::dynamic::{Schema, Object, Field}`: registers the
/// root object `Query` with the single non-null string field `hello`, whose
/// resolver returns the constant produced by `QueryRoot::hello`. The fixed
/// definition is well-formed, so `finish` cannot fail.
#[verifier::external_body]
fn build_schema_inner() -> Schema {
    let hello = Field::new("hello", TypeRef::named_nn(TypeRef::STRING), |_| {
        FieldFuture::from_value(Some(async_graphql::Value::from(QueryRoot.hello())))
    });
    let query = Object::new("Query").field(hello);
    Schema::build("Query", None, None).register(query).finish().unwrap()
}

/// Constructs the schema handle. Every handle holds the same fixed schema;
/// callers construct one at startup and share it across invocations.
pub fn get_schema() -> SchemaHandle {
    SchemaHandle { inner: build_schema_inner() }
}

/// A query request deserialized from body bytes, kept together with the exact
/// bytes it came from. The engine value `req` is always the deserialization of
/// `raw` — `parse_query` is the only constructor — so anything the engine
/// computes from `req` is a function of `raw` alone.
pub struct ParsedQuery {
    raw: Vec<u8>,
    req: async_graphql::Request,
}

impl View for ParsedQuery {
    type V = Seq<u8>;

    closed spec fn view(&self) -> Seq<u8> {
        self.raw@
    }
}

/// What deserializing body bytes as a query document yields: `None` when the
/// bytes are accepted, `Some(diagnostic)` when they are rejected. Both the
/// acceptance and the diagnostic depend on the bytes alone.
pub uninterp spec fn parse_outcome(bytes: Seq<u8>) -> Option<Seq<char>>;

/// Relies on `serde_json::from_slice` for `async_graphql::Request` and on the
/// `Display` of `serde_json::Error`: deserialization is deterministic, so its
/// acceptance and its diagnostic are functions of the input bytes alone, named
/// by `parse_outcome`.
#[verifier::external_body]
pub(crate) fn parse_query(bytes: &[u8]) -> (r: Result<ParsedQuery, String>)
    ensures
        r is Ok <==> parse_outcome(bytes@) is None,
        r matches Ok(q) ==> q@ == bytes@,
        r matches Err(d) ==> parse_outcome(bytes@) matches Some(m) && d@ == m,
{
    match serde_json::from_slice::<async_graphql::Request>(bytes) {
        Ok(req) => Ok(ParsedQuery { raw: bytes.to_vec(), req }),
        Err(e) => Err(e.to_string()),
    }
}

/// What the engine answers, serialized, for the request parsed from the given
/// bytes. On the fixed schema — whose one resolver is a pure constant — the
/// answer depends on those bytes alone.
pub uninterp spec fn engine_response(bytes: Seq<u8>) -> Seq<char>;

/// Whether serializing the engine's answer for the request parsed from the
/// given bytes succeeds. Like the answer itself, it depends on the bytes
/// alone.
pub uninterp spec fn engine_serializes(bytes: Seq<u8>) -> bool;

/// Relies on `async_graphql::dynamic::Schema::execute`, driven to completion
/// with `futures_executor::block_on`, and on `serde_json::to_string`:
/// execution never raises — engine faults surface as entries of the result's
/// own error list — and on the fixed schema built by `get_schema` both the
/// serialized result and whether serializing it succeeds are functions of the
/// parsed bytes alone, named by `engine_response` and `engine_serializes`. A
/// serialization failure surfaces as `Err`.
#[verifier::external_body]
pub(crate) fn execute_serialized(schema: &SchemaHandle, query: ParsedQuery) -> (r: Result<
    String,
    String,
>)
    ensures
        r is Ok <==> engine_serializes(query@),
        r matches Ok(s) ==> s@ == engine_response(query@),
{
    let response = futures_executor::block_on(schema.inner.execute(query.req));
    match serde_json::to_string(&response) {
        Ok(s) => Ok(s),
        Err(e) => Err(e.to_string()),
    }
}

} // verus!
