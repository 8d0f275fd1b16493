use vstd::prelude::*;

verus! {

/// Why a vault, create or update instruction was refused.
#[derive(Clone, Copy, Debug, PartialEq, Eq, Structural)]
pub enum ErrorCode {
    InvalidXCoordinate,
    InvalidYCoordinate,
    InvalidRColor,
    InvalidGColor,
    InvalidBColor,
    /// The rate is zero, or does not outbid a live renter.
    InvalidLamportsPerSlot,
    /// The number of slots is zero.
    InvalidNumberSlots,
    /// The transfer from the bidder into the vault could not be completed.
    PaymentInvalid,
    /// The refund from the vault to the previous renter could not be completed.
    RefundInvalid,
    /// The new commitment does not exceed what is still owed to a live renter.
    InvalidNumberSlotsXLamportsPerSlot,
}

impl ErrorCode {
    /// The human-readable message attached to each error.
    pub fn message(&self) -> (s: &'static str) {
        match self {
            ErrorCode::InvalidXCoordinate => "The given X co-ordinate is not between 0-255",
            ErrorCode::InvalidYCoordinate => "The given Y co-ordinate is not between 0-255",
            ErrorCode::InvalidRColor => "The given R color is not between 0-255",
            ErrorCode::InvalidGColor => "The given G color is not between 0-255",
            ErrorCode::InvalidBColor => "The given B color is not between 0-255",
            ErrorCode::InvalidLamportsPerSlot => "The Lamports per slot is not bigger than the previous one",
            ErrorCode::InvalidNumberSlots => "The number of slots is not bigger than 0",
            ErrorCode::PaymentInvalid => "Payment Invalid",
            ErrorCode::RefundInvalid => "Refund Invalid",
            ErrorCode::InvalidNumberSlotsXLamportsPerSlot => "Number Slots X Lamports Per Slot Invalid",
        }
    }
}

} // verus!
