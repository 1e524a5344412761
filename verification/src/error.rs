//! Failures of the controller's own computations.

use crate::shelly::error::{ShellyRpcError, ShellyRpcErrorView};
use vstd::prelude::*;

verus! {

/// What can go wrong while planning the light's schedule, before any device
/// is involved.
#[derive(Debug, Clone, Copy, PartialEq, Eq, Structural)]
pub enum CustomError {
    /// The day length is negative.
    InvalidConfiguration,
    /// Sunrise does not come before sunset.
    InvalidWindow,
    /// A timestamp has no local date and time.
    TimeConversionError,
}

impl CustomError {
    /// The text shown for this failure.
    pub open spec fn spec_message(self) -> Seq<char> {
        match self {
            CustomError::InvalidConfiguration => "day_length is negative"@,
            CustomError::InvalidWindow => "It's the end of the world"@,
            CustomError::TimeConversionError => "timestamp out of range"@,
        }
    }

    /// Renders the failure as text.
    pub fn message(&self) -> (text: &'static str)
        ensures
            text@ == self.spec_message(),
    {
        match self {
            CustomError::InvalidConfiguration => "day_length is negative",
            CustomError::InvalidWindow => "It's the end of the world",
            CustomError::TimeConversionError => "timestamp out of range",
        }
    }
}

/// Why a run of the controller ended without a revision.
#[derive(Debug, Clone)]
pub enum ControllerError {
    /// The schedule could not be planned.
    Custom(CustomError),
    /// An exchange with the relay failed.
    Rpc(ShellyRpcError),
}

/// The mathematical content of a `ControllerError`.
pub enum ControllerErrorView {
    Custom(CustomError),
    Rpc(ShellyRpcErrorView),
}

impl View for ControllerError {
    type V = ControllerErrorView;

    open spec fn view(&self) -> ControllerErrorView {
        match self {
            ControllerError::Custom(e) => ControllerErrorView::Custom(*e),
            ControllerError::Rpc(e) => ControllerErrorView::Rpc(e@),
        }
    }
}

impl ControllerErrorView {
    /// The text shown for this failure.
    pub open spec fn message(self) -> Seq<char> {
        match self {
            ControllerErrorView::Custom(e) => e.spec_message(),
            ControllerErrorView::Rpc(e) => e.message(),
        }
    }
}

impl ControllerError {
    /// Renders the failure as text.
    pub fn message(&self) -> (text: String)
        ensures
            text@ == self@.message(),
    {
        match self {
            ControllerError::Custom(e) => String::from_str(e.message()),
            ControllerError::Rpc(e) => e.message(),
        }
    }
}

} // verus!
