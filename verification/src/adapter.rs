use vstd::prelude::*;
use vstd::string::StrSliceExecFns;
use vstd::string::StringExecFns;
use vstd::utf8::encode_utf8;
use crate::errors::{ClientError, ServerError};
use crate::playground::{contains_seq, graphiql_page, graphiql_source, verbatim_char};
use crate::render::{envelope_spec, render_client_error};
use crate::schemas::{
    engine_response,
    engine_serializes,
    execute_serialized,
    parse_outcome,
    parse_query,
    SchemaHandle,
};

verus! {

/// The classification of an inbound request's HTTP method: the two methods
/// the adapter serves, and everything else.
pub enum HttpMethod {
    Get,
    Post,
    Other,
}

/// The body of an inbound request as the hosting runtime delivers it: absent,
/// UTF-8 text, or raw bytes.
pub enum RequestBody {
    Empty,
    Text(String),
    Binary(Vec<u8>),
}

/// The mathematical value of a request body.
pub enum BodyView {
    Empty,
    Text(Seq<char>),
    Binary(Seq<u8>),
}

impl View for RequestBody {
    type V = BodyView;

    open spec fn view(&self) -> BodyView {
        match self {
            RequestBody::Empty => BodyView::Empty,
            RequestBody::Text(s) => BodyView::Text(s@),
            RequestBody::Binary(v) => BodyView::Binary(v@),
        }
    }
}

/// The bytes a body carries: a text body stands for its UTF-8 encoding, so a
/// text body and a binary body with the same content are indistinguishable
/// from here on.
pub open spec fn body_bytes(b: BodyView) -> Seq<u8> {
    match b {
        BodyView::Empty => Seq::empty(),
        BodyView::Text(t) => encode_utf8(t),
        BodyView::Binary(v) => v,
    }
}

/// One outbound HTTP response: status code, optional Content-Type header, and
/// body text.
pub struct HttpResponse {
    pub status: u16,
    pub content_type: Option<String>,
    pub body: String,
}

/// The mathematical value of an outbound response.
pub struct ResponseView {
    pub status: u16,
    pub content_type: Option<Seq<char>>,
    pub body: Seq<char>,
}

impl View for HttpResponse {
    type V = ResponseView;

    open spec fn view(&self) -> ResponseView {
        ResponseView {
            status: self.status,
            content_type: match self.content_type {
                Option::Some(s) => Option::Some(s@),
                Option::None => Option::None,
            },
            body: self.body@,
        }
    }
}

/// The path of the one logical endpoint, referenced by the exploration page
/// as the query submission target.
pub open spec fn endpoint_path() -> Seq<char> {
    "/prod/graphql"@
}

/// The whole request-to-response mapping of the adapter. A GET is answered
/// with the exploration page; a POST has its body bytes deserialized as a
/// query document and, on acceptance, executed by the engine; every failure
/// before execution is a 400 carrying the error envelope of its cause; every
/// other method is a 400 with the fixed "method not allowed" envelope.
pub open spec fn spec_response(m: HttpMethod, b: BodyView) -> ResponseView {
    match m {
        HttpMethod::Get => ResponseView {
            status: 200,
            content_type: Option::Some("text/html"@),
            body: graphiql_page(endpoint_path()),
        },
        HttpMethod::Other => ResponseView {
            status: 400,
            content_type: Option::None,
            body: envelope_spec("method not allowed"@),
        },
        HttpMethod::Post => {
            let bytes = body_bytes(b);
            if bytes.len() == 0 {
                ResponseView {
                    status: 400,
                    content_type: Option::None,
                    body: envelope_spec("empty request body"@),
                }
            } else {
                match parse_outcome(bytes) {
                    Option::Some(d) => ResponseView {
                        status: 400,
                        content_type: Option::None,
                        body: envelope_spec("malformed request payload: "@ + d),
                    },
                    Option::None => ResponseView {
                        status: 200,
                        content_type: Option::None,
                        body: engine_response(bytes),
                    },
                }
            }
        },
    }
}

/// Builds the 400 response for a client error: no Content-Type, body the
/// serialized error envelope.
fn client_error_response(e: &ClientError) -> (r: HttpResponse)
    ensures
        r@.status == 400,
        r@.content_type is None,
        r@.body == envelope_spec(e.message_spec()),
{
    HttpResponse { status: 400, content_type: Option::None, body: render_client_error(e) }
}

/// Maps one inbound request to its one outbound response. Every invocation
/// ends in exactly one response with status 200 or 400, except that a failure
/// to serialize a well-formed query result — a defect, not a client error —
/// is propagated to the caller as `Err`.
pub fn handle_request(schema: &SchemaHandle, method: HttpMethod, body: RequestBody) -> (r: Result<
    HttpResponse,
    ServerError,
>)
    ensures
        r matches Ok(resp) ==> resp@ == spec_response(method, body@),
        method is Get || method is Other ==> r is Ok,
        method is Post && (body_bytes(body@).len() == 0 || parse_outcome(body_bytes(body@)) is Some)
            ==> r is Ok,
        method is Post && body_bytes(body@).len() > 0 && parse_outcome(body_bytes(body@)) is None
            ==> (r is Ok <==> engine_serializes(body_bytes(body@))),
        r is Err ==> method is Post && body_bytes(body@).len() > 0 && parse_outcome(
            body_bytes(body@),
        ) is None && !engine_serializes(body_bytes(body@)),
        method is Get ==> (r matches Ok(resp) ==> contains_seq(resp@.body, endpoint_path())),
{
    match method {
        HttpMethod::Get => {
            let html = graphiql_source("/prod/graphql");
            proof {
                reveal_strlit("/prod/graphql");
                assert forall|i: int| 0 <= i < "/prod/graphql"@.len() implies verbatim_char(
                    "/prod/graphql"@[i],
                ) by {
                    assert("/prod/graphql"@.len() == 13);
                }
            }
            Ok(
                HttpResponse {
                    status: 200,
                    content_type: Option::Some(String::from_str("text/html")),
                    body: html,
                },
            )
        },
        HttpMethod::Other => Ok(client_error_response(&ClientError::MethodNotAllowed)),
        HttpMethod::Post => {
            let bytes: Vec<u8> = match body {
                RequestBody::Empty => Vec::new(),
                RequestBody::Text(s) => s.as_str().as_bytes_vec(),
                RequestBody::Binary(v) => v,
            };
            if bytes.len() == 0 {
                Ok(client_error_response(&ClientError::EmptyBody))
            } else {
                match parse_query(bytes.as_slice()) {
                    Err(d) => Ok(client_error_response(&ClientError::MalformedPayload(d))),
                    Ok(q) => match execute_serialized(schema, q) {
                        Ok(s) => Ok(
                            HttpResponse { status: 200, content_type: Option::None, body: s },
                        ),
                        Err(d) => Err(ServerError::Serialization(d)),
                    },
                }
            }
        },
    }
}

/// Law: the adapter is a pure mapping — two invocations given the same method
/// and the same body are mapped to the same success response.
pub proof fn lemma_same_input_same_response(
    m1: HttpMethod,
    b1: BodyView,
    m2: HttpMethod,
    b2: BodyView,
)
    requires
        m1 == m2,
        b1 == b2,
    ensures
        spec_response(m1, b1) == spec_response(m2, b2),
{
}

/// Law: a text body and a binary body carrying the same UTF-8 content are
/// handled identically.
pub proof fn lemma_text_binary_identical(t: Seq<char>, v: Seq<u8>)
    requires
        v == encode_utf8(t),
    ensures
        spec_response(HttpMethod::Post, BodyView::Text(t)) == spec_response(
            HttpMethod::Post,
            BodyView::Binary(v),
        ),
{
    assert(body_bytes(BodyView::Text(t)) == body_bytes(BodyView::Binary(v)));
}

} // verus!
