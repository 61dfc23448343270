//! The symbol endpoint: resolve the grammar, then shape what extraction gave.

use vstd::prelude::*;
use crate::envelope::{jsonify_err, plain_error, EnvelopeModel, Payload, PayloadKind, PayloadModel, ResponseEnvelope};
use crate::grammar::ParserId;
use crate::resolver::{lookup_fits, resolution, resolve_filename, LookupModel, ResolveError};

verus! {

/// A request for the symbols of one file.
#[derive(Clone, Debug)]
pub struct SymbolQuery {
    filename: String,
    content: String,
}

impl SymbolQuery {
    /// The file name of the request.
    pub closed spec fn filename_text(&self) -> Seq<char> {
        self.filename@
    }

    /// The source text of the request.
    pub closed spec fn content_text(&self) -> Seq<char> {
        self.content@
    }

    pub fn new(filename: String, content: String) -> (q: SymbolQuery)
        ensures
            q.filename_text() == filename@,
            q.content_text() == content@,
    {
        SymbolQuery { filename, content }
    }

    pub fn filename(&self) -> (r: &str)
        ensures
            r@ == self.filename_text(),
    {
        self.filename.as_str()
    }

    pub fn content(&self) -> (r: &str)
        ensures
            r@ == self.content_text(),
    {
        self.content.as_str()
    }
}

impl Default for SymbolQuery {
    fn default() -> (q: SymbolQuery)
        ensures
            q.filename_text() == Seq::<char>::empty(),
            q.content_text() == Seq::<char>::empty(),
    {
        SymbolQuery { filename: String::new(), content: String::new() }
    }
}

/// What the endpoint does once the grammar is resolved or refused.
#[derive(Clone, Debug, PartialEq, Eq)]
pub enum SymbolStep {
    /// Answer at once with this envelope.
    Respond(ResponseEnvelope),
    /// Run the symbol extractor with this grammar on the request's content.
    Extract(ParserId),
}

/// Mathematical model of a [`SymbolStep`].
pub enum StepModel {
    Respond(EnvelopeModel),
    Extract(ParserId),
}

impl View for SymbolStep {
    type V = StepModel;

    open spec fn view(&self) -> StepModel {
        match *self {
            SymbolStep::Respond(e) => StepModel::Respond(e@),
            SymbolStep::Extract(p) => StepModel::Extract(p),
        }
    }
}

/// The step that a resolution leads to: extraction with the grammar, or an
/// error envelope with the resolver's message and no code.
pub open spec fn step_for(resolved: Result<ParserId, ResolveError>) -> StepModel {
    match resolved {
        Ok(p) => StepModel::Extract(p),
        Err(e) => StepModel::Respond(plain_error(e.message_text())),
    }
}

/// Turns the resolver's result into the endpoint's next step.
pub fn step_after_resolution(resolved: Result<ParserId, ResolveError>) -> (r: SymbolStep)
    ensures
        r@ == step_for(resolved),
{
    match resolved {
        Ok(p) => SymbolStep::Extract(p),
        Err(e) => SymbolStep::Respond(jsonify_err(e.message())),
    }
}

/// First half of the symbol endpoint: resolves the grammar from the file
/// name of the request.
pub fn symbols_begin(q: &SymbolQuery) -> (r: SymbolStep)
    ensures
        exists|lookup: LookupModel| #[trigger]
            lookup_fits(q.filename_text(), lookup) && r@ == step_for(resolution(lookup)),
        !q.filename_text().contains('.') ==> r@ == StepModel::Respond(
            plain_error(ResolveError::ExtensionlessFile.message_text()),
        ),
{
    step_after_resolution(resolve_filename(q.filename()))
}

/// How running the extractor and serialising its document ended.
#[derive(Clone, Debug, PartialEq, Eq)]
pub enum ExtractionOutcome {
    /// The document, in its binary form.
    Encoded(Vec<u8>),
    /// The extractor failed with this message.
    ExtractionFailed(String),
    /// The extractor has no support for the grammar.
    NoGlobals,
    /// The document could not be serialised; the serialiser's message.
    SerializationFailed(String),
}

/// The standard base64 text, with padding, of a byte sequence.
pub uninterp spec fn base64_text(bytes: Seq<u8>) -> Seq<char>;

/// The length of the padded base64 text of `n` bytes.
pub open spec fn encoded_len(n: nat) -> nat {
    if n % 3 == 0 {
        n / 3 * 4
    } else {
        n / 3 * 4 + 4
    }
}

/// Whether the base64 text of `n` bytes has a length that a string can
/// have: at most `isize::MAX`.
pub open spec fn encodable(n: nat) -> bool {
    n / 3 * 4 + 4 <= isize::MAX
}

/// Tests whether a document of `n` bytes can be encoded.
pub fn encodable_len(n: usize) -> (r: bool)
    ensures
        r == encodable(n as nat),
{
    n / 3 <= (isize::MAX as usize - 4) / 4
}

/// Calls `base64::encode`.
///
/// Trusted: the result is the standard padded base64 text of the input,
/// four characters for every three bytes begun. The call panics when that
/// length overflows `usize` or is more than a buffer can hold, which
/// `requires` leaves out.
#[verifier::external_body]
fn base64_encode(bytes: &[u8]) -> (text: String)
    requires
        encodable(bytes@.len()),
    ensures
        text@ == base64_text(bytes@),
        text@.len() == encoded_len(bytes@.len()),
{
    base64::encode(bytes)
}

/// The envelope that the symbol endpoint answers for an outcome.
pub open spec fn symbols_envelope(outcome: ExtractionOutcome) -> EnvelopeModel {
    match outcome {
        ExtractionOutcome::Encoded(bytes) => EnvelopeModel::Success(
            PayloadModel {
                kind: PayloadKind::Document,
                body: base64_text(bytes@),
                plaintext: false,
            },
        ),
        ExtractionOutcome::ExtractionFailed(message) => plain_error(message@),
        ExtractionOutcome::NoGlobals => plain_error("Failed to get globals"@),
        ExtractionOutcome::SerializationFailed(message) => plain_error(message@),
    }
}

/// Second half of the symbol endpoint: wraps the serialised document as
/// base64 text, or reports why there is none.
pub fn symbols_finish(outcome: ExtractionOutcome) -> (r: ResponseEnvelope)
    requires
        outcome matches ExtractionOutcome::Encoded(bytes) ==> encodable(bytes@.len()),
    ensures
        r@ == symbols_envelope(outcome),
        outcome matches ExtractionOutcome::Encoded(bytes) ==> (r@ matches EnvelopeModel::Success(p)
            && p.body.len() == encoded_len(bytes@.len())),
{
    match outcome {
        ExtractionOutcome::Encoded(bytes) => ResponseEnvelope::Success(
            Payload {
                kind: PayloadKind::Document,
                body: base64_encode(bytes.as_slice()),
                plaintext: false,
            },
        ),
        ExtractionOutcome::ExtractionFailed(message) => jsonify_err(message),
        ExtractionOutcome::NoGlobals => jsonify_err("Failed to get globals".to_owned()),
        ExtractionOutcome::SerializationFailed(message) => jsonify_err(message),
    }
}

/// Whether `answer` is what the symbol endpoint owes for a resolution: the
/// resolver's error, or the envelope of an outcome that `extract` can have
/// for the resolved grammar and the request.
pub open spec fn symbols_answer<F: FnOnce(ParserId, &SymbolQuery) -> ExtractionOutcome>(
    extract: F,
    q: &SymbolQuery,
    resolved: Result<ParserId, ResolveError>,
    answer: EnvelopeModel,
) -> bool {
    match resolved {
        Err(e) => answer == plain_error(e.message_text()),
        Ok(p) => exists|outcome: ExtractionOutcome| #[trigger]
            call_ensures(extract, (p, q), outcome) && answer == symbols_envelope(outcome),
    }
}

/// The symbol endpoint. Resolves the grammar from the file name; on
/// failure answers the resolver's error without running anything; on
/// success runs `extract` once, with the grammar and the request, and
/// answers the envelope of its outcome.
pub fn symbols<F: FnOnce(ParserId, &SymbolQuery) -> ExtractionOutcome>(
    q: &SymbolQuery,
    extract: F,
) -> (r: ResponseEnvelope)
    requires
        forall|p: ParserId| call_requires(extract, (p, q)),
        forall|p: ParserId, outcome: ExtractionOutcome| #[trigger]
            call_ensures(extract, (p, q), outcome) ==> (outcome matches ExtractionOutcome::Encoded(
                bytes,
            ) ==> encodable(bytes@.len())),
    ensures
        exists|lookup: LookupModel| #[trigger]
            lookup_fits(q.filename_text(), lookup) && symbols_answer(
                extract,
                q,
                resolution(lookup),
                r@,
            ),
        !q.filename_text().contains('.') ==> r@ == plain_error(
            ResolveError::ExtensionlessFile.message_text(),
        ),
{
    match symbols_begin(q) {
        SymbolStep::Respond(envelope) => envelope,
        SymbolStep::Extract(p) => {
            let outcome = extract(p, q);
            symbols_finish(outcome)
        },
    }
}

} // verus!
