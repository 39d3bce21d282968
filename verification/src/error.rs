//! The failures that a request can end in.

use vstd::prelude::*;
use vstd::string::StringExecFns;

verus! {

/// Why a request failed. Every failure ends the request; none is retried.
#[derive(Clone, Debug, PartialEq, Eq)]
pub enum ContractError {
    /// The caller is not the stored admin.
    Unauthorized {},
    /// A persisted slot was read before it was ever written.
    NotInitialized,
    /// The contacts lookup returned an empty list.
    NoOracleContact,
    /// No piece of the oracle text starts with `<key>:`.
    FieldNotFound { key: String },
    /// The piece for `key` has no colon-separated value portion.
    FieldMalformed { key: String },
    /// The value portion for `key` is not a decimal literal.
    FieldUnparseable { key: String },
    /// A primitive lookup failed at the data source; `message` is its report.
    UpstreamQueryFailed { message: String },
    /// A state change was asked of a read-only contract.
    ReadOnly,
}

/// A [`ContractError`] with its texts as character sequences.
pub ghost enum ErrorView {
    Unauthorized,
    NotInitialized,
    NoOracleContact,
    FieldNotFound { key: Seq<char> },
    FieldMalformed { key: Seq<char> },
    FieldUnparseable { key: Seq<char> },
    UpstreamQueryFailed { message: Seq<char> },
    ReadOnly,
}

impl View for ContractError {
    type V = ErrorView;

    open spec fn view(&self) -> ErrorView {
        match self {
            ContractError::Unauthorized {  } => ErrorView::Unauthorized,
            ContractError::NotInitialized => ErrorView::NotInitialized,
            ContractError::NoOracleContact => ErrorView::NoOracleContact,
            ContractError::FieldNotFound { key } => ErrorView::FieldNotFound { key: key@ },
            ContractError::FieldMalformed { key } => ErrorView::FieldMalformed { key: key@ },
            ContractError::FieldUnparseable { key } => ErrorView::FieldUnparseable { key: key@ },
            ContractError::UpstreamQueryFailed { message } => ErrorView::UpstreamQueryFailed {
                message: message@,
            },
            ContractError::ReadOnly => ErrorView::ReadOnly,
        }
    }
}

/// The human-readable message of a failure.
pub open spec fn message_text(e: ErrorView) -> Seq<char> {
    match e {
        ErrorView::Unauthorized => "Unauthorized"@,
        ErrorView::NotInitialized => "Not initialized"@,
        ErrorView::NoOracleContact => "No oracle contacts found"@,
        ErrorView::FieldNotFound { key } => key + " not found in contact data"@,
        ErrorView::FieldMalformed { key } => key + " format invalid"@,
        ErrorView::FieldUnparseable { key } => key + " parse error"@,
        ErrorView::UpstreamQueryFailed { message } => message,
        ErrorView::ReadOnly => "This contract is read-only"@,
    }
}

/// An outcome with its failure, if it is one, by its view.
pub open spec fn outcome_view<T>(outcome: Result<T, ContractError>) -> Result<T, ErrorView> {
    match outcome {
        Ok(value) => Ok(value),
        Err(e) => Err(e@),
    }
}

impl ContractError {
    /// The human-readable message of this failure.
    pub fn message(&self) -> (text: String)
        ensures
            text@ == message_text(self@),
    {
        match self {
            ContractError::Unauthorized {  } => String::from_str("Unauthorized"),
            ContractError::NotInitialized => String::from_str("Not initialized"),
            ContractError::NoOracleContact => String::from_str("No oracle contacts found"),
            ContractError::FieldNotFound { key } => key.clone().concat(
                " not found in contact data",
            ),
            ContractError::FieldMalformed { key } => key.clone().concat(" format invalid"),
            ContractError::FieldUnparseable { key } => key.clone().concat(" parse error"),
            ContractError::UpstreamQueryFailed { message } => message.clone(),
            ContractError::ReadOnly => String::from_str("This contract is read-only"),
        }
    }
}

} // verus!
