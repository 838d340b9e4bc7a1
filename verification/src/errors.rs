//! The error taxonomy of the engine. Every rejected precondition
//! surfaces a distinct, named kind; no error is ever swallowed.

use vstd::prelude::*;

verus! {

#[derive(Clone, Copy, PartialEq, Eq, Structural, Debug)]
pub enum EscrowError {
    /// Bootstrap rejected a fee rate above `MAX_FEE_BPS`.
    FeeTooHigh,
    /// `create_escrow` rejected an order id longer than
    /// `MAX_ORDER_ID_BYTES` bytes.
    OrderIdTooLong,
    /// `create_escrow` rejected an empty order id; an order id is one
    /// to `MAX_ORDER_ID_BYTES` bytes.
    OrderIdEmpty,
    /// `create_escrow` rejected a zero deposit.
    InvalidAmount,
    /// A settlement was attempted on a record that is no longer
    /// `Locked`.
    InvalidStatus,
    /// The caller of a settlement is not the configured admin.
    Unauthorized,
    /// A claimed payout destination does not match the configured (for
    /// release) or recorded (for refund) one.
    DestinationMismatch,
    /// A running total would exceed the unsigned 64-bit range.
    Overflow,
    /// The storage layer found an existing configuration; bootstrap
    /// runs only once.
    AlreadyInitialized,
    /// The storage layer found an existing record for the same
    /// `(order_id, buyer)` key.
    AlreadyExists,
}

} // verus!
