use vstd::prelude::*;
use vstd::string::StringExecFns;

verus! {

/// A failure caused by the client's request. Every client error is handled
/// inside the adapter and rendered as a 400 response carrying an error
/// envelope; the variant is kept for diagnostics even though the wire format
/// only exposes the message.
pub enum ClientError {
    /// The request body was absent or empty.
    EmptyBody,
    /// The body could not be deserialized as a query document; carries the
    /// parse diagnostic.
    MalformedPayload(String),
    /// The request used an HTTP method other than GET or POST.
    MethodNotAllowed,
}

impl ClientError {
    /// The display message rendered into the error envelope.
    pub open spec fn message_spec(&self) -> Seq<char> {
        match self {
            ClientError::EmptyBody => "empty request body"@,
            ClientError::MalformedPayload(d) => "malformed request payload: "@ + d@,
            ClientError::MethodNotAllowed => "method not allowed"@,
        }
    }

    /// Renders the human-readable message for this error.
    pub fn message(&self) -> (r: String)
        ensures
            r@ == self.message_spec(),
    {
        match self {
            ClientError::EmptyBody => String::from_str("empty request body"),
            ClientError::MalformedPayload(d) => {
                String::from_str("malformed request payload: ").concat(d.as_str())
            },
            ClientError::MethodNotAllowed => String::from_str("method not allowed"),
        }
    }
}

/// A failure of the adapter itself: serializing a well-formed query result did
/// not succeed. Such a failure is never turned into a handled response; it is
/// propagated out of the handler so the hosting runtime's own failure
/// reporting applies.
pub enum ServerError {
    /// Serialization of the query result failed; carries the diagnostic.
    Serialization(String),
}

impl ServerError {
    /// The display message for this error.
    pub open spec fn message_spec(&self) -> Seq<char> {
        match self {
            ServerError::Serialization(d) => "response serialization failed: "@ + d@,
        }
    }

    /// Renders the human-readable message for this error.
    pub fn message(&self) -> (r: String)
        ensures
            r@ == self.message_spec(),
    {
        match self {
            ServerError::Serialization(d) => {
                String::from_str("response serialization failed: ").concat(d.as_str())
            },
        }
    }
}

} // verus!
