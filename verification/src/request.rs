//! The inbound payment request and the rules it must pass before anything
//! else happens.

use vstd::prelude::*;
use vstd::string::*;
use crate::error::{AppError, AppErrorView};

verus! {

/// A card-payment request as it arrives, untrusted. The amount is in the
/// currency's minor unit.
#[derive(Debug, PartialEq, Eq)]
pub struct PaymentRequest {
    pub amount: i32,
    pub currency: String,
    pub card_number: String,
    pub expiry_month: i32,
    pub expiry_year: i32,
    pub cvv: String,
}

/// A [`PaymentRequest`] with its text as sequences of characters.
pub struct PaymentRequestView {
    pub amount: int,
    pub currency: Seq<char>,
    pub card_number: Seq<char>,
    pub expiry_month: int,
    pub expiry_year: int,
    pub cvv: Seq<char>,
}

impl View for PaymentRequest {
    type V = PaymentRequestView;

    open spec fn view(&self) -> PaymentRequestView {
        PaymentRequestView {
            amount: self.amount as int,
            currency: self.currency@,
            card_number: self.card_number@,
            expiry_month: self.expiry_month as int,
            expiry_year: self.expiry_year as int,
            cvv: self.cvv@,
        }
    }
}

/// The fewest characters a card number may have.
pub const MIN_CARD_NUMBER_LEN: usize = 12;

/// The most characters a card number may have.
pub const MAX_CARD_NUMBER_LEN: usize = 19;

/// What a request with a zero or negative amount is told.
pub open spec fn amount_message() -> Seq<char> {
    "Payment amount must be greater than zero."@
}

/// What a request with a card number of the wrong length is told.
pub open spec fn card_number_message() -> Seq<char> {
    "Invalid card number."@
}

impl PaymentRequestView {
    /// The amount is positive.
    pub open spec fn has_valid_amount(self) -> bool {
        self.amount > 0
    }

    /// The card number has between 12 and 19 characters.
    pub open spec fn has_valid_card_number(self) -> bool {
        MIN_CARD_NUMBER_LEN <= self.card_number.len() <= MAX_CARD_NUMBER_LEN
    }

    /// The request passes both rules. Expiry and CVV are not looked at.
    pub open spec fn is_valid(self) -> bool {
        self.has_valid_amount() && self.has_valid_card_number()
    }

    /// The verdict on the request: the amount is judged first, the card
    /// number second, and the first rule broken gives the reason.
    pub open spec fn validation(self) -> Result<(), AppErrorView> {
        if !self.has_valid_amount() {
            Err(AppErrorView::BadRequest(amount_message()))
        } else if !self.has_valid_card_number() {
            Err(AppErrorView::BadRequest(card_number_message()))
        } else {
            Ok(())
        }
    }
}

/// Checks the shape of a request. Nothing but the request is read.
pub fn validate(request: &PaymentRequest) -> (verdict: Result<(), AppError>)
    ensures
        verdict is Ok <==> request@.is_valid(),
        match verdict {
            Ok(()) => request@.validation() == Ok::<(), AppErrorView>(()),
            Err(error) => request@.validation() == Err::<(), AppErrorView>(error@),
        },
{
    if request.amount <= 0 {
        return Err(AppError::BadRequest("Payment amount must be greater than zero.".to_owned()));
    }
    let len: usize = request.card_number.as_str().unicode_len();
    if len < MIN_CARD_NUMBER_LEN || len > MAX_CARD_NUMBER_LEN {
        return Err(AppError::BadRequest("Invalid card number.".to_owned()));
    }
    Ok(())
}

} // verus!
