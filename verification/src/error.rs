//! What can end a run before its last record is published.

use vstd::prelude::*;
use vstd::string::*;

verus! {

/// The reasons for which a run fails. Each of them ends the run; what was
/// published before stays published.
#[derive(Clone, Debug, PartialEq, Eq)]
pub enum RunError {
    /// No batch carries the identifier that was asked for.
    NotFound,
    /// More than one batch carries the identifier: the catalog is at fault.
    Ambiguous,
    /// A row lacks a value that its entity cannot do without.
    MissingField { column: String },
    /// The file name of a content record yields no sidecar name.
    DerivationFailure,
    /// The transport did not take a message.
    TransportFailure,
    /// The run was handed an event that its state does not wait for.
    UnexpectedEvent,
}

/// A `RunError` with its text as a sequence of characters.
pub enum RunErrorView {
    NotFound,
    Ambiguous,
    MissingField { column: Seq<char> },
    DerivationFailure,
    TransportFailure,
    UnexpectedEvent,
}

impl View for RunError {
    type V = RunErrorView;

    open spec fn view(&self) -> RunErrorView {
        match self {
            RunError::NotFound => RunErrorView::NotFound,
            RunError::Ambiguous => RunErrorView::Ambiguous,
            RunError::MissingField { column } => RunErrorView::MissingField { column: column@ },
            RunError::DerivationFailure => RunErrorView::DerivationFailure,
            RunError::TransportFailure => RunErrorView::TransportFailure,
            RunError::UnexpectedEvent => RunErrorView::UnexpectedEvent,
        }
    }
}

/// The sentence that tells an operator of `error`.
pub open spec fn description(error: RunErrorView) -> Seq<char> {
    match error {
        RunErrorView::NotFound => "no batch has this identifier"@,
        RunErrorView::Ambiguous => "more than one batch has this identifier"@,
        RunErrorView::MissingField { column } => "missing field: "@ + column,
        RunErrorView::DerivationFailure => "the file name of a record gives no sidecar name"@,
        RunErrorView::TransportFailure => "the transport did not take the message"@,
        RunErrorView::UnexpectedEvent => "the run was not waiting for this event"@,
    }
}

impl RunError {
    /// The sentence that tells an operator of the error.
    pub fn describe(&self) -> (text: String)
        ensures
            text@ == description(self@),
    {
        match self {
            RunError::NotFound => String::from_str("no batch has this identifier"),
            RunError::Ambiguous => String::from_str("more than one batch has this identifier"),
            RunError::MissingField { column } => {
                let mut text = String::from_str("missing field: ");
                text.append(column.as_str());
                text
            },
            RunError::DerivationFailure => String::from_str(
                "the file name of a record gives no sidecar name",
            ),
            RunError::TransportFailure => String::from_str("the transport did not take the message"),
            RunError::UnexpectedEvent => String::from_str("the run was not waiting for this event"),
        }
    }
}

} // verus!
