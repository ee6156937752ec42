//! The closed set of errors a chat-completion call can end in, and the
//! tagged JSON form in which a caller receives one.

use crate::json::{empty_object, json_model, set_member, text_value, whole_value, Json, Numeral};
use vstd::prelude::*;

verus! {

/// Why a chat-completion call failed. Every failure is exactly one of these.
#[derive(Debug, PartialEq, Eq)]
pub enum ApiError {
    /// The request was rejected before anything was sent.
    ValidationError { message: String },
    /// The transport failed: name resolution, connecting, or other I/O.
    NetworkError { message: String },
    /// The request took longer than the configured timeout.
    Timeout,
    /// The remote rejected the credential (status 401 or 403).
    AuthError { message: String, status: u16 },
    /// The remote answered with a client error, or with a status that
    /// belongs to no other variant.
    ApiError { message: String, status: u16 },
    /// The remote answered with a server error (status 500 to 599).
    ServerError { message: String, status: u16 },
    /// The response body could not be read as text.
    ParseError { message: String },
}

/// The mathematical view of an [`ApiError`]: the same variants, with
/// messages as character sequences.
pub enum ApiErrorView {
    ValidationError { message: Seq<char> },
    NetworkError { message: Seq<char> },
    Timeout,
    AuthError { message: Seq<char>, status: u16 },
    ApiError { message: Seq<char>, status: u16 },
    ServerError { message: Seq<char>, status: u16 },
    ParseError { message: Seq<char> },
}

impl View for ApiError {
    type V = ApiErrorView;

    open spec fn view(&self) -> ApiErrorView {
        match self {
            ApiError::ValidationError { message } => ApiErrorView::ValidationError {
                message: message@,
            },
            ApiError::NetworkError { message } => ApiErrorView::NetworkError { message: message@ },
            ApiError::Timeout => ApiErrorView::Timeout,
            ApiError::AuthError { message, status } => ApiErrorView::AuthError {
                message: message@,
                status: *status,
            },
            ApiError::ApiError { message, status } => ApiErrorView::ApiError {
                message: message@,
                status: *status,
            },
            ApiError::ServerError { message, status } => ApiErrorView::ServerError {
                message: message@,
                status: *status,
            },
            ApiError::ParseError { message } => ApiErrorView::ParseError { message: message@ },
        }
    }
}

impl Clone for ApiError {
    fn clone(&self) -> (copy: Self)
        ensures
            copy@ == self@,
    {
        match self {
            ApiError::ValidationError { message } => ApiError::ValidationError {
                message: message.clone(),
            },
            ApiError::NetworkError { message } => ApiError::NetworkError {
                message: message.clone(),
            },
            ApiError::Timeout => ApiError::Timeout,
            ApiError::AuthError { message, status } => ApiError::AuthError {
                message: message.clone(),
                status: *status,
            },
            ApiError::ApiError { message, status } => ApiError::ApiError {
                message: message.clone(),
                status: *status,
            },
            ApiError::ServerError { message, status } => ApiError::ServerError {
                message: message.clone(),
                status: *status,
            },
            ApiError::ParseError { message } => ApiError::ParseError { message: message.clone() },
        }
    }
}

impl ApiErrorView {
    /// The discriminator a caller branches on: the variant's name.
    pub open spec fn tag(self) -> Seq<char> {
        match self {
            ApiErrorView::ValidationError { .. } => "ValidationError"@,
            ApiErrorView::NetworkError { .. } => "NetworkError"@,
            ApiErrorView::Timeout => "Timeout"@,
            ApiErrorView::AuthError { .. } => "AuthError"@,
            ApiErrorView::ApiError { .. } => "ApiError"@,
            ApiErrorView::ServerError { .. } => "ServerError"@,
            ApiErrorView::ParseError { .. } => "ParseError"@,
        }
    }

    /// The message the variant carries; `Timeout` carries none.
    pub open spec fn message(self) -> Option<Seq<char>> {
        match self {
            ApiErrorView::ValidationError { message } => Some(message),
            ApiErrorView::NetworkError { message } => Some(message),
            ApiErrorView::Timeout => None,
            ApiErrorView::AuthError { message, .. } => Some(message),
            ApiErrorView::ApiError { message, .. } => Some(message),
            ApiErrorView::ServerError { message, .. } => Some(message),
            ApiErrorView::ParseError { message } => Some(message),
        }
    }

    /// The HTTP status the variant carries, for the three variants that
    /// come from a response.
    pub open spec fn status(self) -> Option<u16> {
        match self {
            ApiErrorView::AuthError { status, .. } => Some(status),
            ApiErrorView::ApiError { status, .. } => Some(status),
            ApiErrorView::ServerError { status, .. } => Some(status),
            _ => None,
        }
    }

    /// The fields of the variant as the members of a JSON object, or
    /// `None` for a variant without fields.
    pub open spec fn details(self) -> Option<Map<Seq<char>, Json>> {
        match self.message() {
            None => None,
            Some(message) => {
                let fields = Map::<Seq<char>, Json>::empty().insert(
                    "message"@,
                    Json::Text(message),
                );
                match self.status() {
                    None => Some(fields),
                    Some(status) => Some(
                        fields.insert("status"@, Json::Number(Numeral::Whole(status as int))),
                    ),
                }
            },
        }
    }

    /// The tagged form: an object with the variant's name under `type` and,
    /// unless the variant has no fields, its fields under `details`.
    pub open spec fn wire(self) -> Json {
        let head = Map::<Seq<char>, Json>::empty().insert("type"@, Json::Text(self.tag()));
        match self.details() {
            None => Json::Object(head),
            Some(fields) => Json::Object(head.insert("details"@, Json::Object(fields))),
        }
    }
}

impl ApiError {
    /// The variant's name, by which callers tell errors apart.
    pub fn kind(&self) -> (name: &'static str)
        ensures
            name@ == self@.tag(),
    {
        match self {
            ApiError::ValidationError { .. } => "ValidationError",
            ApiError::NetworkError { .. } => "NetworkError",
            ApiError::Timeout => "Timeout",
            ApiError::AuthError { .. } => "AuthError",
            ApiError::ApiError { .. } => "ApiError",
            ApiError::ServerError { .. } => "ServerError",
            ApiError::ParseError { .. } => "ParseError",
        }
    }

    /// The error as a tagged JSON value, `{"type": .., "details": {..}}`.
    pub fn to_json(&self) -> (v: serde_json::Value)
        ensures
            json_model(v) == self@.wire(),
    {
        let mut out = empty_object();
        set_member(&mut out, "type", text_value(self.kind()));
        match self {
            ApiError::Timeout => {},
            ApiError::ValidationError { message }
            | ApiError::NetworkError { message }
            | ApiError::ParseError { message } => {
                let mut fields = empty_object();
                set_member(&mut fields, "message", text_value(message.as_str()));
                set_member(&mut out, "details", fields);
            },
            ApiError::AuthError { message, status }
            | ApiError::ApiError { message, status }
            | ApiError::ServerError { message, status } => {
                let mut fields = empty_object();
                set_member(&mut fields, "message", text_value(message.as_str()));
                set_member(&mut fields, "status", whole_value(*status as u64));
                set_member(&mut out, "details", fields);
            },
        }
        out
    }
}

/// The seven names are pairwise distinct: two errors with the same
/// discriminator are of the same variant.
pub proof fn lemma_tag_tells_variant(a: ApiErrorView, b: ApiErrorView)
    requires
        a.tag() == b.tag(),
    ensures
        a is ValidationError <==> b is ValidationError,
        a is NetworkError <==> b is NetworkError,
        a is Timeout <==> b is Timeout,
        a is AuthError <==> b is AuthError,
        a is ApiError <==> b is ApiError,
        a is ServerError <==> b is ServerError,
        a is ParseError <==> b is ParseError,
{
    reveal_strlit("ValidationError");
    reveal_strlit("NetworkError");
    reveal_strlit("Timeout");
    reveal_strlit("AuthError");
    reveal_strlit("ApiError");
    reveal_strlit("ServerError");
    reveal_strlit("ParseError");
    // No two of the names have the same length.
    assert("ValidationError"@.len() == 15 && "NetworkError"@.len() == 12 && "Timeout"@.len() == 7);
    assert("AuthError"@.len() == 9 && "ApiError"@.len() == 8 && "ServerError"@.len() == 11);
    assert("ParseError"@.len() == 10);
}

/// The tagged form always is an object that names the variant under `type`;
/// it has `details` exactly when the variant has fields, and then `details`
/// holds the message, and the status for the variants that have one.
pub proof fn lemma_wire_shape(e: ApiErrorView)
    ensures
        e.wire().lookup("type"@) == Some(Json::Text(e.tag())),
        e is Timeout <==> e.wire().lookup("details"@) is None,
        e.message() matches Some(m) ==> e.wire().lookup("details"@)->0.lookup("message"@) == Some(
            Json::Text(m),
        ),
        e.status() matches Some(s) ==> e.wire().lookup("details"@)->0.lookup("status"@) == Some(
            Json::Number(Numeral::Whole(s as int)),
        ),
        e.status() is None && !(e is Timeout) ==> e.wire().lookup("details"@)->0.lookup("status"@)
            is None,
{
    reveal_strlit("type");
    reveal_strlit("details");
    reveal_strlit("message");
    reveal_strlit("status");
    assert("type"@ != "details"@) by {
        assert("type"@.len() != "details"@.len());
    }
    assert("message"@ != "status"@) by {
        assert("message"@.len() != "status"@.len());
    }
}

} // verus!
