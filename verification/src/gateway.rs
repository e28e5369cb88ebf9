//! The payment gateway: the authority that approves or declines an attempt.
//! The decision is simulated here by a fixed rule on the card number.

use vstd::prelude::*;
use vstd::string::*;
use crate::error::{AppError, AppErrorView};
use crate::request::PaymentRequest;
use crate::transaction::TransactionStatus;

verus! {

/// How long a call to the gateway may take before the client gives up, in
/// seconds. A call that runs out of time is a transport failure.
pub const GATEWAY_TIMEOUT_SECONDS: u64 = 10;

/// Card numbers that begin with these characters are declined.
pub open spec fn decline_prefix() -> Seq<char> {
    "4000"@
}

/// What the caller is told when no credential is configured.
pub open spec fn missing_key_message() -> Seq<char> {
    "API Key is missing."@
}

/// The gateway's message for a declined card.
pub open spec fn declined_message() -> Seq<char> {
    "Card declined: Insufficient funds (Simulation)."@
}

/// The gateway's message for an approved payment.
pub open spec fn approved_message() -> Seq<char> {
    "Payment successfully processed by external gateway."@
}

/// The gateway's answer. Without a credential there is none, and nothing is
/// asked. With one, a card number that starts with the decline prefix is
/// declined and every other is approved.
pub open spec fn gateway_decision(api_key: Seq<char>, card_number: Seq<char>) -> Result<
    (TransactionStatus, Seq<char>),
    AppErrorView,
> {
    if api_key.len() == 0 {
        Err(AppErrorView::EnvironmentError(missing_key_message()))
    } else if decline_prefix().is_prefix_of(card_number) {
        Ok((TransactionStatus::Failed, declined_message()))
    } else {
        Ok((TransactionStatus::Success, approved_message()))
    }
}

/// Whether the card number starts with the decline prefix.
fn has_decline_prefix(card_number: &str) -> (found: bool)
    ensures
        found == decline_prefix().is_prefix_of(card_number@),
{
    proof {
        reveal_strlit("4000");
    }
    let len: usize = card_number.unicode_len();
    if len < 4 {
        return false;
    }
    let found = card_number.get_char(0) == '4' && card_number.get_char(1) == '0'
        && card_number.get_char(2) == '0' && card_number.get_char(3) == '0';
    proof {
        let head = card_number@.subrange(0, 4);
        if found {
            assert(decline_prefix() =~= head);
        } else {
            assert(decline_prefix()[0] == '4' && decline_prefix()[1] == '0'
                && decline_prefix()[2] == '0' && decline_prefix()[3] == '0');
            assert(head[0] == card_number@[0] && head[1] == card_number@[1]
                && head[2] == card_number@[2] && head[3] == card_number@[3]);
        }
    }
    found
}

/// Asks the gateway to authorize a payment. The identifier of the attempt
/// travels with the question; the simulated rule does not read it.
pub fn call_external_payment_gateway(
    api_key: &str,
    data: &PaymentRequest,
    _transaction_uuid: u128,
) -> (reply: Result<(TransactionStatus, String), AppError>)
    ensures
        match reply {
            Ok((status, message)) => gateway_decision(api_key@, data@.card_number) == Ok::<
                (TransactionStatus, Seq<char>),
                AppErrorView,
            >((status, message@)),
            Err(error) => gateway_decision(api_key@, data@.card_number) == Err::<
                (TransactionStatus, Seq<char>),
                AppErrorView,
            >(error@),
        },
{
    if api_key.is_empty() {
        return Err(AppError::EnvironmentError("API Key is missing.".to_owned()));
    }
    if has_decline_prefix(data.card_number.as_str()) {
        return Ok(
            (
                TransactionStatus::Failed,
                "Card declined: Insufficient funds (Simulation).".to_owned(),
            ),
        );
    }
    Ok(
        (
            TransactionStatus::Success,
            "Payment successfully processed by external gateway.".to_owned(),
        ),
    )
}

} // verus!
