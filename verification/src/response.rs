//! The response a caller receives for a payment that ran to its end,
//! approved or declined.

use vstd::prelude::*;
use crate::clock::utc_now;

verus! {

/// The body of the response to a processed payment. `transaction_id` is the
/// text of the attempt's UUID; `timestamp` is in UTC and carries no offset.
#[derive(Debug, PartialEq, Eq)]
pub struct PaymentResponse {
    pub success: bool,
    pub transaction_id: String,
    pub message: String,
    pub timestamp: chrono::NaiveDateTime,
}

/// A [`PaymentResponse`] with its text as sequences of characters.
pub struct PaymentResponseView {
    pub success: bool,
    pub transaction_id: Seq<char>,
    pub message: Seq<char>,
    pub timestamp: chrono::NaiveDateTime,
}

impl View for PaymentResponse {
    type V = PaymentResponseView;

    open spec fn view(&self) -> PaymentResponseView {
        PaymentResponseView {
            success: self.success,
            transaction_id: self.transaction_id@,
            message: self.message@,
            timestamp: self.timestamp,
        }
    }
}

/// The transport status of every payment response. A decline is a processed
/// payment like an approval, and is answered with success.
pub const PAYMENT_RESPONSE_STATUS: u16 = 200;

impl PaymentResponse {
    /// The transport status this response is sent with, whether the payment
    /// was approved or declined.
    pub fn status_code(&self) -> (code: u16)
        ensures
            code == PAYMENT_RESPONSE_STATUS,
    {
        PAYMENT_RESPONSE_STATUS
    }

    /// A response with every field given.
    pub fn new_at(
        success: bool,
        transaction_id: String,
        message: String,
        timestamp: chrono::NaiveDateTime,
    ) -> (response: PaymentResponse)
        ensures
            response@ == (PaymentResponseView {
                success,
                transaction_id: transaction_id@,
                message: message@,
                timestamp,
            }),
    {
        PaymentResponse { success, transaction_id, message, timestamp }
    }

    /// The response to an approved payment, stamped with the current time.
    pub fn new_success(transaction_id: String, message: String) -> (response: PaymentResponse)
        ensures
            response@ == (PaymentResponseView {
                success: true,
                transaction_id: transaction_id@,
                message: message@,
                timestamp: response@.timestamp,
            }),
    {
        PaymentResponse::new_at(true, transaction_id, message, utc_now())
    }

    /// The response to a declined payment, stamped with the current time.
    pub fn new_failure(transaction_id: String, message: String) -> (response: PaymentResponse)
        ensures
            response@ == (PaymentResponseView {
                success: false,
                transaction_id: transaction_id@,
                message: message@,
                timestamp: response@.timestamp,
            }),
    {
        PaymentResponse::new_at(false, transaction_id, message, utc_now())
    }
}

} // verus!
