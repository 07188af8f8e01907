//! The failures of the tool.

use crate::config::ConfigError;
use crate::transaction::{SigningError, TransactionId};
use vstd::prelude::*;

verus! {

/// A parameter is missing or out of shape. Nothing was sent to the
/// network, and nothing is tried again.
#[derive(Clone, Copy, Debug, PartialEq, Eq)]
pub enum PreconditionError {
    /// A field of the settings is missing, empty or malformed.
    Config(ConfigError),
    /// The transaction cannot be signed with the key pairs at hand.
    Signing(SigningError),
    /// The retry policy allows no attempt at all.
    NoAttemptsAllowed,
    /// An event arrived that answers no action that was asked for.
    UnexpectedEvent,
}

/// Why an operation failed.
#[derive(Clone, Debug, PartialEq, Eq)]
pub enum Failure {
    /// A parameter is missing or out of shape.
    Precondition(PreconditionError),
    /// No derived address exists for the seeds.
    DerivationExhausted,
    /// The network could not be reached within the allowed attempts.
    Network,
    /// The checkpoint expired before the transaction was accepted, and no
    /// attempt is left to sign under a new one.
    StaleCheckpoint,
    /// The network or the program turned the transaction down, with its
    /// own words.
    Rejected(String),
    /// The transaction was accepted, and no final status was seen within
    /// the allowed wait: it may still land.
    AmbiguousTimeout(TransactionId),
}

} // verus!
