//! The payment record that the service reports.

use crate::amount::Amount;
use vstd::prelude::*;

verus! {

/// How far the service has taken a payment.
#[derive(Debug, Clone, Copy, PartialEq, Eq, Structural)]
pub struct PaymentStatus {
    pub developer_approved: bool,
    pub transaction_verified: bool,
    pub developer_completed: bool,
    pub cancelled: bool,
    pub user_cancelled: bool,
}

/// A payment as the service reports it.
#[derive(Debug, Clone)]
pub struct PaymentDto {
    /// The identifier that the service gave the payment.
    pub identifier: String,
    /// The user who pays or is paid.
    pub user_uid: String,
    /// The amount of the payment.
    pub amount: Amount,
    /// The memo shown to the user.
    pub memo: String,
    /// How far the payment has come.
    pub status: PaymentStatus,
}

} // verus!
