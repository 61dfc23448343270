//! The uniform response envelope and the fixed answers of the service.

use vstd::prelude::*;

verus! {

/// Which backend family produced a payload.
#[derive(Clone, Copy, Debug, PartialEq, Eq, Structural)]
pub enum PayloadKind {
    /// Rendered markup from a highlighter.
    Markup,
    /// An encoded occurrence document.
    Document,
}

/// The successful body of a response.
#[derive(Clone, Debug, PartialEq, Eq)]
pub struct Payload {
    pub kind: PayloadKind,
    pub body: String,
    pub plaintext: bool,
}

/// Mathematical model of a [`Payload`].
pub struct PayloadModel {
    pub kind: PayloadKind,
    pub body: Seq<char>,
    pub plaintext: bool,
}

impl View for Payload {
    type V = PayloadModel;

    open spec fn view(&self) -> PayloadModel {
        PayloadModel { kind: self.kind, body: self.body@, plaintext: self.plaintext }
    }
}

/// A failure that a backend reported itself.
#[derive(Clone, Debug, PartialEq, Eq)]
pub struct BackendError {
    pub message: String,
    pub code: Option<String>,
}

/// The text held by an optional string.
pub open spec fn text_of(s: Option<String>) -> Option<Seq<char>> {
    match s {
        Some(t) => Some(t@),
        None => None,
    }
}

/// What every endpoint answers: a payload, or an error with an optional
/// machine-readable code.
#[derive(Clone, Debug, PartialEq, Eq)]
pub enum ResponseEnvelope {
    Success(Payload),
    Failure { error: String, code: Option<String> },
}

/// Mathematical model of a [`ResponseEnvelope`].
pub enum EnvelopeModel {
    Success(PayloadModel),
    Failure { error: Seq<char>, code: Option<Seq<char>> },
}

impl View for ResponseEnvelope {
    type V = EnvelopeModel;

    open spec fn view(&self) -> EnvelopeModel {
        match *self {
            ResponseEnvelope::Success(p) => EnvelopeModel::Success(p@),
            ResponseEnvelope::Failure { error, code } => EnvelopeModel::Failure {
                error: error@,
                code: text_of(code),
            },
        }
    }
}

/// An error envelope that carries a message and no code.
pub open spec fn plain_error(message: Seq<char>) -> EnvelopeModel {
    EnvelopeModel::Failure { error: message, code: None }
}

/// The envelope answered when a highlighter terminated abruptly.
pub open spec fn panic_envelope() -> EnvelopeModel {
    EnvelopeModel::Failure { error: "panic while highlighting code"@, code: Some("panic"@) }
}

/// The envelope answered on a route that does not exist.
pub open spec fn not_found_envelope() -> EnvelopeModel {
    EnvelopeModel::Failure { error: "resource not found"@, code: Some("resource_not_found"@) }
}

impl ResponseEnvelope {
    /// Whether the envelope is of the error shape.
    pub fn is_error(&self) -> (r: bool)
        ensures
            r == (self@ is Failure),
    {
        match self {
            ResponseEnvelope::Success(_) => false,
            ResponseEnvelope::Failure { .. } => true,
        }
    }

    /// The envelope for an abrupt termination of a highlighter.
    pub fn panic() -> (r: ResponseEnvelope)
        ensures
            r@ == panic_envelope(),
    {
        ResponseEnvelope::Failure {
            error: "panic while highlighting code".to_owned(),
            code: Some("panic".to_owned()),
        }
    }
}

/// Wraps an error message into an envelope without a code.
pub fn jsonify_err(message: String) -> (r: ResponseEnvelope)
    ensures
        r@ == plain_error(message@),
{
    ResponseEnvelope::Failure { error: message, code: None }
}

/// The liveness marker: the same text on every call.
pub fn health() -> (r: &'static str)
    ensures
        r@ == "OK"@,
{
    "OK"
}

/// The answer to a request on an unknown route.
pub fn not_found() -> (r: ResponseEnvelope)
    ensures
        r@ == not_found_envelope(),
{
    ResponseEnvelope::Failure {
        error: "resource not found".to_owned(),
        code: Some("resource_not_found".to_owned()),
    }
}

} // verus!
