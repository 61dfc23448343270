//! Normalising what the highlighting backends hand back.

use vstd::prelude::*;
use crate::envelope::{text_of, panic_envelope, BackendError, EnvelopeModel, Payload, ResponseEnvelope};

verus! {

/// The outcome of a backend call made inside a crash boundary.
#[derive(Debug, PartialEq, Eq)]
pub enum Isolated {
    /// The call returned, with a payload or with an error of its own.
    Completed(Result<Payload, BackendError>),
    /// The call terminated abruptly and the boundary caught it.
    Crashed,
}

/// The envelope for a call that returned: the payload as it is, or the
/// backend's own message and code.
pub open spec fn normalized(result: Result<Payload, BackendError>) -> EnvelopeModel {
    match result {
        Ok(p) => EnvelopeModel::Success(p@),
        Err(e) => EnvelopeModel::Failure { error: e.message@, code: text_of(e.code) },
    }
}

/// The envelope for a call made inside a crash boundary: a crash becomes
/// the panic envelope, anything else is normalised as usual.
pub open spec fn isolated_envelope(outcome: Isolated) -> EnvelopeModel {
    match outcome {
        Isolated::Completed(result) => normalized(result),
        Isolated::Crashed => panic_envelope(),
    }
}

/// Shapes a returned backend result into an envelope.
pub fn normalize(result: Result<Payload, BackendError>) -> (r: ResponseEnvelope)
    ensures
        r@ == normalized(result),
{
    match result {
        Ok(p) => ResponseEnvelope::Success(p),
        Err(e) => ResponseEnvelope::Failure { error: e.message, code: e.code },
    }
}

/// The legacy highlighting endpoint: its backend runs inside a crash
/// boundary, and a crash is answered with the panic envelope.
pub fn syntect(outcome: Isolated) -> (r: ResponseEnvelope)
    ensures
        r@ == isolated_envelope(outcome),
        outcome is Crashed ==> r@ == panic_envelope(),
{
    match outcome {
        Isolated::Completed(result) => normalize(result),
        Isolated::Crashed => ResponseEnvelope::panic(),
    }
}

/// The compatibility endpoint of the structured highlighter.
pub fn lsif(result: Result<Payload, BackendError>) -> (r: ResponseEnvelope)
    ensures
        r@ == normalized(result),
{
    normalize(result)
}

/// The primary endpoint of the structured highlighter.
pub fn scip(result: Result<Payload, BackendError>) -> (r: ResponseEnvelope)
    ensures
        r@ == normalized(result),
{
    normalize(result)
}

/// A crash never reaches the caller as anything but the panic envelope, and
/// a backend's own error is never re-coded as one: the envelope of a
/// returned error carries the backend's message and code.
pub proof fn lemma_crash_is_contained(outcome: Isolated)
    ensures
        outcome is Crashed ==> isolated_envelope(outcome) == panic_envelope(),
        outcome matches Isolated::Completed(Err(e)) ==> isolated_envelope(outcome)
            == (EnvelopeModel::Failure { error: e.message@, code: text_of(e.code) }),
        outcome matches Isolated::Completed(Ok(p)) ==> isolated_envelope(outcome)
            == EnvelopeModel::Success(p@),
{
}

} // verus!
