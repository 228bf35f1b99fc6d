//! Errors reported by the shop.

use vstd::prelude::*;

verus! {

/// Why a request to the shop was turned down.
#[derive(Debug, Clone, Copy, PartialEq, Eq, Structural)]
pub enum BurgerShopError {
    /// The shop tried to order from itself, or the order held no item.
    InvalidRequest,
    /// An amount or an order id does not fit its integer type.
    Overflow,
    /// The attached payment is not exactly the amount due.
    PaymentMismatch,
    /// The transfer of the payment to the shop failed.
    PaymentError,
    /// No order is stored under the requested id.
    NotFound,
}

/// The host could not move the balance.
#[derive(Debug, Clone, Copy, PartialEq, Eq, Structural)]
pub struct TransferError {}

} // verus!
