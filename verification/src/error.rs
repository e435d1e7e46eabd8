//! The participant's error vocabulary, its messages, and the classification
//! of error texts that come back from the chain.
use vstd::prelude::*;
use crate::text::{chars_of, contains_exec, contains_str, push_str, string_from_chars};

verus! {

/// What went wrong inside a transaction.
#[derive(Debug)]
pub enum InternalError {
    InvalidNonce(String),
    Other(String),
}

/// Errors of the participant service.
#[derive(Debug)]
pub enum Error {
    CheckChainErr,
    GetNumCampaignsErr,
    CheckCampaignsInfoErr,
    TxInternalErr(InternalError),
    Unknown(String),
    /// A requested feature is not available.
    NotSupport(String),
}

/// The result type of the service.
pub type Result<T> = core::result::Result<T, Error>;

/// What std's `Debug` writes for a string: the text in double quotes with
/// special characters escaped.
pub uninterp spec fn debug_quoted(s: Seq<char>) -> Seq<char>;

/// std's `Debug` formatting of a string slice.
#[verifier::external_body]
fn debug_str(s: &str) -> (r: String)
    ensures
        r@ == debug_quoted(s@),
{
    format!("{:?}", s)
}

/// The `Debug` form of an internal error: the variant name and its quoted text.
pub open spec fn internal_error_debug(e: InternalError) -> Seq<char> {
    match e {
        InternalError::InvalidNonce(s) => "InvalidNonce("@ + debug_quoted(s@) + ")"@,
        InternalError::Other(s) => "Other("@ + debug_quoted(s@) + ")"@,
    }
}

/// The human-readable message of an error.
pub open spec fn error_message(e: Error) -> Seq<char> {
    match e {
        Error::CheckChainErr => "chain id check failed"@,
        Error::GetNumCampaignsErr => "Get numCampaigns faild"@,
        Error::CheckCampaignsInfoErr => "Check campaigns info faild"@,
        Error::TxInternalErr(i) => "Internal Error:: "@ + internal_error_debug(i),
        Error::Unknown(s) => "a unknown error happened: "@ + s@,
        Error::NotSupport(s) => s@,
    }
}

impl InternalError {
    /// The `Debug` form of the error.
    pub fn debug_text(&self) -> (r: String)
        ensures
            r@ == internal_error_debug(*self),
    {
        let mut out: Vec<char> = Vec::new();
        let (name, text) = match self {
            InternalError::InvalidNonce(s) => ("InvalidNonce(", s),
            InternalError::Other(s) => ("Other(", s),
        };
        push_str(&mut out, name);
        let q = debug_str(text.as_str());
        push_str(&mut out, q.as_str());
        push_str(&mut out, ")");
        string_from_chars(&out)
    }
}

impl Error {
    /// The human-readable message of the error.
    pub fn message(&self) -> (r: String)
        ensures
            r@ == error_message(*self),
    {
        let mut out: Vec<char> = Vec::new();
        match self {
            Error::CheckChainErr => push_str(&mut out, "chain id check failed"),
            Error::GetNumCampaignsErr => push_str(&mut out, "Get numCampaigns faild"),
            Error::CheckCampaignsInfoErr => push_str(&mut out, "Check campaigns info faild"),
            Error::TxInternalErr(i) => {
                push_str(&mut out, "Internal Error:: ");
                let d = i.debug_text();
                push_str(&mut out, d.as_str());
            },
            Error::Unknown(s) => {
                push_str(&mut out, "a unknown error happened: ");
                push_str(&mut out, s.as_str());
            },
            Error::NotSupport(s) => push_str(&mut out, s.as_str()),
        }
        string_from_chars(&out)
    }
}

/// How an error text from the chain is classified: by the first of its
/// markers that it contains, in a fixed order (0 for an error with no text).
pub open spec fn error_kind(text: Option<Seq<char>>) -> u8 {
    match text {
        None => 0,
        Some(s) => if contains_str(s, "broadcast_tx_sync"@) {
            1
        } else if contains_str(s, "Transaction check error"@) {
            2
        } else if contains_str(s, "error sending request"@) {
            3
        } else if contains_str(s, "InternalError"@) {
            if contains_str(s, "InvalidNonce"@) {
                4
            } else {
                5
            }
        } else {
            6
        },
    }
}

/// The error that `parse_error` gives for a text, stated per kind.
pub open spec fn parsed_error_is(text: Option<Seq<char>>, e: Error) -> bool {
    match error_kind(text) {
        0 => e matches Error::Unknown(m) && m@ == "empty error"@,
        1 => e is GetNumCampaignsErr,
        2 => e is CheckChainErr,
        3 => e is CheckCampaignsInfoErr,
        4 => e matches Error::TxInternalErr(InternalError::InvalidNonce(m)) && m@ == text->0,
        5 => e matches Error::TxInternalErr(InternalError::Other(m)) && m@ == text->0,
        _ => e matches Error::Unknown(m) && m@ == text->0,
    }
}

/// Classifies the text of an error reported by the chain client.
pub fn parse_error(err: Option<&str>) -> (r: Error)
    ensures
        parsed_error_is(
            match err {
                Some(s) => Some(s@),
                None => None,
            },
            r,
        ),
{
    match err {
        None => {
            let v = chars_of("empty error");
            Error::Unknown(string_from_chars(&v))
        },
        Some(s) => {
            let cs = chars_of(s);
            let owned = string_from_chars(&cs);
            if contains_exec(&cs, "broadcast_tx_sync") {
                Error::GetNumCampaignsErr
            } else if contains_exec(&cs, "Transaction check error") {
                Error::CheckChainErr
            } else if contains_exec(&cs, "error sending request") {
                Error::CheckCampaignsInfoErr
            } else if contains_exec(&cs, "InternalError") {
                if contains_exec(&cs, "InvalidNonce") {
                    Error::TxInternalErr(InternalError::InvalidNonce(owned))
                } else {
                    Error::TxInternalErr(InternalError::Other(owned))
                }
            } else {
                Error::Unknown(owned)
            }
        },
    }
}

/// A failed contract call, with the text of its cause.
#[derive(Debug)]
pub enum ContractError {
    InvalidOutputType(String),
    Abi(String),
    Api(String),
    Deployment(String),
    InterfaceUnsupported,
}

/// The text reported for a failed contract call.
pub open spec fn contract_error_text(e: ContractError) -> Seq<char> {
    match e {
        ContractError::InvalidOutputType(s) => "Invalid output type: "@ + s@,
        ContractError::Abi(s) => "Abi error: "@ + s@,
        ContractError::Api(s) => "Api error: "@ + s@,
        ContractError::Deployment(s) => "Deployment error: "@ + s@,
        ContractError::InterfaceUnsupported => "Contract does not support this interface."@,
    }
}

/// The text reported for a failed contract call.
pub fn handle_error(error: ContractError) -> (r: String)
    ensures
        r@ == contract_error_text(error),
{
    let mut out: Vec<char> = Vec::new();
    match &error {
        ContractError::InvalidOutputType(s) => {
            push_str(&mut out, "Invalid output type: ");
            push_str(&mut out, s.as_str());
        },
        ContractError::Abi(s) => {
            push_str(&mut out, "Abi error: ");
            push_str(&mut out, s.as_str());
        },
        ContractError::Api(s) => {
            push_str(&mut out, "Api error: ");
            push_str(&mut out, s.as_str());
        },
        ContractError::Deployment(s) => {
            push_str(&mut out, "Deployment error: ");
            push_str(&mut out, s.as_str());
        },
        ContractError::InterfaceUnsupported => {
            push_str(&mut out, "Contract does not support this interface.");
        },
    }
    string_from_chars(&out)
}

} // verus!
