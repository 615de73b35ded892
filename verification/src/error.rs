//! What can go wrong while fetching and classifying issues.

use vstd::prelude::*;

verus! {

/// The part of a response whose absence breaks the protocol.
#[derive(Clone, Copy, Debug, PartialEq, Eq, Structural)]
pub enum MissingField {
    /// The response has no `data`.
    Data,
    /// The data names no repository.
    Repository,
    /// The page says that another follows and gives no cursor to reach it.
    EndCursor,
}

/// Why a fetch was aborted or an issue was left out.
#[derive(Debug)]
pub enum TriageError {
    /// The request did not reach the API or no answer came back.
    TransportError(String),
    /// The API answered with a list of errors, kept here as it came.
    GraphQlError(Vec<String>),
    /// The answer lacks a part that every answer must have.
    ProtocolViolation(MissingField),
    /// More pages were needed than one fetch may ask for.
    RateLimitGuardTripped,
    /// The whole timeline was seen and never shows the label being applied.
    LabelHistoryInconsistent,
    /// Only a window of the timeline was fetched, so the label's age is unknown.
    LabelHistoryTruncated,
}

impl TriageError {
    /// Whether the error ends the whole run. The two about label history
    /// only leave one issue out.
    pub open spec fn is_fatal(self) -> bool {
        !(self is LabelHistoryInconsistent || self is LabelHistoryTruncated)
    }

    /// Whether the error ends the whole run rather than leaving one issue out.
    pub fn aborts_run(&self) -> (fatal: bool)
        ensures
            fatal == self.is_fatal(),
    {
        match self {
            TriageError::LabelHistoryInconsistent => false,
            TriageError::LabelHistoryTruncated => false,
            _ => true,
        }
    }
}

} // verus!
