//! Request dispatch and failure isolation for a syntax-highlighting service.
//!
//! The crate resolves a file name to a grammar, decides what each endpoint
//! answers for every outcome a backend can have, and shapes all of them into
//! one response envelope. Running the backends themselves is left to the
//! embedding program, which hands their outcomes in as plain values.

pub mod envelope;
pub mod grammar;
pub mod highlight;
pub mod resolver;
pub mod symbols;

pub use envelope::{health, jsonify_err, not_found, BackendError, EnvelopeModel, Payload, PayloadKind, PayloadModel, ResponseEnvelope};
pub use grammar::{grammar_for, ParserId};
pub use highlight::{lsif, scip, syntect, Isolated};
pub use resolver::{resolve_extension, resolve_filename, ExtensionLookup, ResolveError};
pub use symbols::{symbols, symbols_begin, symbols_finish, ExtractionOutcome, SymbolQuery, SymbolStep};
