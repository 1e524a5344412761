//! What can go wrong in an exchange with the relay.

use crate::decimal::{signed_decimal, spec_signed_decimal};
use crate::shelly::data::{ShellyError, ShellyErrorView, KEY_NOT_FOUND};
use vstd::prelude::*;

verus! {

/// A failed exchange. Failures of the transport and of the decoding carry
/// the message of the layer that reported them.
#[derive(Debug, Clone)]
pub enum ShellyRpcError {
    /// The request could not be sent, or no answer could be read.
    ReqwestError(String),
    /// A value could not be encoded or decoded.
    SerdeJsonError(String),
    /// The answer is neither the expected result nor a refusal: the two
    /// decoding failures, in that order.
    SerdeJsonBiError(String, String),
    /// The relay refused the request.
    HttpApiError(ShellyError),
}

/// The mathematical content of a `ShellyRpcError`.
pub enum ShellyRpcErrorView {
    ReqwestError(Seq<char>),
    SerdeJsonError(Seq<char>),
    SerdeJsonBiError(Seq<char>, Seq<char>),
    HttpApiError(ShellyErrorView),
}

impl View for ShellyRpcError {
    type V = ShellyRpcErrorView;

    open spec fn view(&self) -> ShellyRpcErrorView {
        match self {
            ShellyRpcError::ReqwestError(e) => ShellyRpcErrorView::ReqwestError(e@),
            ShellyRpcError::SerdeJsonError(e) => ShellyRpcErrorView::SerdeJsonError(e@),
            ShellyRpcError::SerdeJsonBiError(outer, inner) => ShellyRpcErrorView::SerdeJsonBiError(
                outer@,
                inner@,
            ),
            ShellyRpcError::HttpApiError(e) => ShellyRpcErrorView::HttpApiError(e@),
        }
    }
}

impl ShellyRpcErrorView {
    /// Whether the relay refused the request because it does not hold the
    /// key.
    pub open spec fn is_key_not_found(self) -> bool {
        self matches ShellyRpcErrorView::HttpApiError(e) && e.error.code == KEY_NOT_FOUND
    }

    /// The text shown for this failure.
    pub open spec fn message(self) -> Seq<char> {
        match self {
            ShellyRpcErrorView::ReqwestError(e) => "Reqwest error: "@ + e,
            ShellyRpcErrorView::SerdeJsonError(e) => "serde_json error: "@ + e,
            ShellyRpcErrorView::SerdeJsonBiError(outer, inner) => "serde_json error: (outer: "@
                + outer + ", inner: "@ + inner + ")"@,
            ShellyRpcErrorView::HttpApiError(e) => "Shelly API error: (code: "@
                + spec_signed_decimal(e.error.code as int) + ", message: "@ + e.error.message
                + ")"@,
        }
    }
}

impl ShellyRpcError {
    /// Whether the relay refused the request because it does not hold the
    /// key.
    pub fn is_key_not_found(&self) -> (found: bool)
        ensures
            found == self@.is_key_not_found(),
    {
        match self {
            ShellyRpcError::HttpApiError(e) => e.error.code == KEY_NOT_FOUND,
            _ => false,
        }
    }

    /// Renders the failure as text.
    pub fn message(&self) -> (text: String)
        ensures
            text@ == self@.message(),
    {
        match self {
            ShellyRpcError::ReqwestError(e) => {
                let mut text: String = String::from_str("Reqwest error: ");
                text.append(e.as_str());
                text
            },
            ShellyRpcError::SerdeJsonError(e) => {
                let mut text: String = String::from_str("serde_json error: ");
                text.append(e.as_str());
                text
            },
            ShellyRpcError::SerdeJsonBiError(outer, inner) => {
                let mut text: String = String::from_str("serde_json error: (outer: ");
                text.append(outer.as_str());
                text.append(", inner: ");
                text.append(inner.as_str());
                text.append(")");
                text
            },
            ShellyRpcError::HttpApiError(e) => {
                let mut text: String = String::from_str("Shelly API error: (code: ");
                text.append(signed_decimal(e.error.code as i64).as_str());
                text.append(", message: ");
                text.append(e.error.message.as_str());
                text.append(")");
                text
            },
        }
    }
}

impl From<ShellyError> for ShellyRpcError {
    fn from(err: ShellyError) -> (e: ShellyRpcError) {
        ShellyRpcError::HttpApiError(err)
    }
}

impl vstd::std_specs::convert::FromSpecImpl<ShellyError> for ShellyRpcError {
    open spec fn obeys_from_spec() -> bool {
        true
    }

    open spec fn from_spec(err: ShellyError) -> ShellyRpcError {
        ShellyRpcError::HttpApiError(err)
    }
}

} // verus!
