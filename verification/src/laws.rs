//! What holds of every payment, proved from the definitions of the stages.

use vstd::prelude::*;
use crate::error::AppErrorView;
use crate::gateway::{
    approved_message, decline_prefix, declined_message, gateway_decision, missing_key_message,
};
use crate::ident::{is_uuid_text, lemma_uuid_text_is_well_formed, uuid_text};
use crate::masking::{
    is_masked_card, last_four, lemma_masked_is_masked_card, mask_prefix, masked,
};
use crate::pipeline::{finish_payment, start_payment, PaymentStateView};
use crate::request::{amount_message, card_number_message, PaymentRequestView};
use crate::response::PaymentResponseView;
use crate::transaction::{NewTransactionView, TransactionStatus};

verus! {

/// The record of a valid request under the given identifier and outcome.
pub open spec fn record_of(
    request: PaymentRequestView,
    transaction_uuid: u128,
    status: TransactionStatus,
) -> NewTransactionView {
    NewTransactionView {
        transaction_uuid,
        amount: request.amount,
        currency: request.currency,
        status,
        masked_card_number: masked(request.card_number),
    }
}

/// A payment only moves forward. Each step leaves the state as it is or
/// takes it to a later stage, and a payment that is over stays as it ended:
/// there is no loop and no way back.
pub proof fn law_stages_only_advance(
    state: PaymentStateView,
    api_key: Seq<char>,
    transaction_uuid: u128,
    stored: Result<(), Seq<char>>,
    timestamp: chrono::NaiveDateTime,
)
    ensures
        state.validate() == state || state.validate().rank() > state.rank(),
        state.decide(api_key, transaction_uuid) == state || state.decide(
            api_key,
            transaction_uuid,
        ).rank() > state.rank(),
        state.record(stored) == state || state.record(stored).rank() > state.rank(),
        state.respond(timestamp) == state || state.respond(timestamp).rank() > state.rank(),
        state.is_terminal() ==> {
            &&& state.validate() == state
            &&& state.decide(api_key, transaction_uuid) == state
            &&& state.record(stored) == state
            &&& state.respond(timestamp) == state
        },
{
}

/// Every stage a payment can reach is well formed: a received request is,
/// and each step takes a well-formed state to a well-formed state. So the
/// record handed to the store always holds a masked card and never a card
/// number, a response always names its attempt by a UUID's text, a rejection
/// is always a bad request and an error never is.
pub proof fn law_steps_keep_states_well_formed(
    state: PaymentStateView,
    api_key: Seq<char>,
    transaction_uuid: u128,
    stored: Result<(), Seq<char>>,
    timestamp: chrono::NaiveDateTime,
)
    ensures
        state is Received ==> state.well_formed(),
        state.well_formed() ==> {
            &&& state.validate().well_formed()
            &&& state.decide(api_key, transaction_uuid).well_formed()
            &&& state.record(stored).well_formed()
            &&& state.respond(timestamp).well_formed()
        },
{
    if state.well_formed() {
        match state {
            PaymentStateView::Validated { request, masked_card } => {
                law_masked_card_form(request.card_number);
            },
            PaymentStateView::Persisted { transaction, message } => {
                lemma_uuid_text_is_well_formed(transaction.transaction_uuid);
            },
            _ => {},
        }
    }
}

/// A request stops at the store or is over, and a payment that waited for
/// the store is over once the store has reported. The store is asked only
/// after the gateway decided, and a response is given only after the store
/// wrote.
pub proof fn law_two_runs_end_a_payment(
    api_key: Seq<char>,
    request: PaymentRequestView,
    transaction_uuid: u128,
    stored: Result<(), Seq<char>>,
    timestamp: chrono::NaiveDateTime,
)
    ensures
        ({
            let decided = start_payment(api_key, request, transaction_uuid);
            let end = finish_payment(decided, stored, timestamp);
            &&& decided is GatewayDecided || decided is Rejected || decided is Errored
            &&& decided.pending_transaction() is Some <==> decided is GatewayDecided
            &&& end is Responded || end is Rejected || end is Errored
            &&& end.result() is Some
            &&& end is Responded <==> decided is GatewayDecided && stored is Ok
            &&& decided is GatewayDecided && stored is Err ==> end == (PaymentStateView::Errored {
                error: AppErrorView::DatabaseError(stored->Err_0),
            })
            &&& decided.is_terminal() ==> end == decided
        }),
{
}

/// A request whose amount is zero or negative is rejected as a bad request,
/// whatever its card number and whatever the credential. The gateway is not
/// asked, since its answer would depend on the credential; no record is
/// handed to the store; and no later step changes the verdict.
pub proof fn law_nonpositive_amount_is_rejected(
    api_key: Seq<char>,
    request: PaymentRequestView,
    transaction_uuid: u128,
    stored: Result<(), Seq<char>>,
    timestamp: chrono::NaiveDateTime,
)
    requires
        request.amount <= 0,
    ensures
        ({
            let rejected = PaymentStateView::Rejected {
                error: AppErrorView::BadRequest(amount_message()),
            };
            &&& (PaymentStateView::Received { request }).validate() == rejected
            &&& start_payment(api_key, request, transaction_uuid) == rejected
            &&& rejected.pending_transaction() is None
            &&& finish_payment(rejected, stored, timestamp) == rejected
            &&& rejected.result() == Some(
                Err::<PaymentResponseView, AppErrorView>(
                    AppErrorView::BadRequest(amount_message()),
                ),
            )
            &&& AppErrorView::BadRequest(amount_message()).status_code() == 400
        }),
{
}

/// A request whose card number has fewer than 12 or more than 19 characters
/// is rejected as a bad request, whatever the credential: for its amount if
/// that is not positive either, else for its card number. The gateway is
/// not asked, no record is handed to the store, and no later step changes
/// the verdict.
pub proof fn law_bad_card_length_is_rejected(
    api_key: Seq<char>,
    request: PaymentRequestView,
    transaction_uuid: u128,
    stored: Result<(), Seq<char>>,
    timestamp: chrono::NaiveDateTime,
)
    requires
        request.card_number.len() < 12 || request.card_number.len() > 19,
    ensures
        ({
            let reason = if request.amount <= 0 {
                amount_message()
            } else {
                card_number_message()
            };
            let rejected = PaymentStateView::Rejected { error: AppErrorView::BadRequest(reason) };
            &&& (PaymentStateView::Received { request }).validate() == rejected
            &&& start_payment(api_key, request, transaction_uuid) == rejected
            &&& rejected.pending_transaction() is None
            &&& finish_payment(rejected, stored, timestamp) == rejected
            &&& rejected.result() == Some(
                Err::<PaymentResponseView, AppErrorView>(AppErrorView::BadRequest(reason)),
            )
            &&& AppErrorView::BadRequest(reason).status_code() == 400
        }),
{
}

/// With a credential configured, a valid request whose card number starts
/// with the decline prefix is declined: the gateway's outcome is `Failed`,
/// the record handed to the store has that status, and once the store has
/// written it the response says `success: false` with the gateway's message.
/// A decline is a response, not an error.
pub proof fn law_declined_card(
    api_key: Seq<char>,
    request: PaymentRequestView,
    transaction_uuid: u128,
    timestamp: chrono::NaiveDateTime,
)
    requires
        request.is_valid(),
        decline_prefix().is_prefix_of(request.card_number),
        api_key.len() > 0,
    ensures
        ({
            let transaction = record_of(request, transaction_uuid, TransactionStatus::Failed);
            let decided = start_payment(api_key, request, transaction_uuid);
            &&& gateway_decision(api_key, request.card_number) == Ok::<
                (TransactionStatus, Seq<char>),
                AppErrorView,
            >((TransactionStatus::Failed, declined_message()))
            &&& decided == (PaymentStateView::GatewayDecided {
                transaction,
                message: declined_message(),
            })
            &&& decided.pending_transaction() == Some(transaction)
            &&& decided.record(Ok(())) == (PaymentStateView::Persisted {
                transaction,
                message: declined_message(),
            })
            &&& finish_payment(decided, Ok(()), timestamp) == (PaymentStateView::Responded {
                response: PaymentResponseView {
                    success: false,
                    transaction_id: uuid_text(transaction_uuid),
                    message: declined_message(),
                    timestamp,
                },
            })
        }),
{
}

/// With a credential configured, a valid request whose card number does not
/// start with the decline prefix is approved: the gateway's outcome is
/// `Success`, the record handed to the store has that status, and once the
/// store has written it the response says `success: true` with the
/// gateway's message.
pub proof fn law_approved_card(
    api_key: Seq<char>,
    request: PaymentRequestView,
    transaction_uuid: u128,
    timestamp: chrono::NaiveDateTime,
)
    requires
        request.is_valid(),
        !decline_prefix().is_prefix_of(request.card_number),
        api_key.len() > 0,
    ensures
        ({
            let transaction = record_of(request, transaction_uuid, TransactionStatus::Success);
            let decided = start_payment(api_key, request, transaction_uuid);
            &&& gateway_decision(api_key, request.card_number) == Ok::<
                (TransactionStatus, Seq<char>),
                AppErrorView,
            >((TransactionStatus::Success, approved_message()))
            &&& decided == (PaymentStateView::GatewayDecided {
                transaction,
                message: approved_message(),
            })
            &&& decided.pending_transaction() == Some(transaction)
            &&& decided.record(Ok(())) == (PaymentStateView::Persisted {
                transaction,
                message: approved_message(),
            })
            &&& finish_payment(decided, Ok(()), timestamp) == (PaymentStateView::Responded {
                response: PaymentResponseView {
                    success: true,
                    transaction_id: uuid_text(transaction_uuid),
                    message: approved_message(),
                    timestamp,
                },
            })
        }),
{
}

/// The masked form of a card number of at least four characters is
/// `XXXX-XXXX-XXXX-` and then the number's last four characters: nineteen
/// characters in all, of which the first fifteen never vary.
pub proof fn law_masked_card_form(card_number: Seq<char>)
    requires
        card_number.len() >= 4,
    ensures
        is_masked_card(masked(card_number)),
        masked(card_number).len() == 19,
        masked(card_number).subrange(0, 15) == mask_prefix(),
        masked(card_number).subrange(15, 19) == last_four(card_number),
        forall|i: int|
            0 <= i < 4 ==> #[trigger] masked(card_number)[15 + i] == card_number[card_number.len()
                - 4 + i],
        forall|i: int|
            0 <= i < 15 ==> #[trigger] masked(card_number)[i] == (if i % 5 == 4 {
                '-'
            } else {
                'X'
            }),
{
    reveal_strlit("XXXX-XXXX-XXXX-");
    lemma_masked_is_masked_card(card_number);
    assert(masked(card_number).subrange(0, 15) =~= mask_prefix());
    assert(masked(card_number).subrange(15, 19) =~= last_four(card_number));
}

/// Whenever a record is handed to the store, its masked card is the masked
/// form of the request's card number, and so shows that number's last four
/// characters and no other. The request has passed validation by then, so
/// its card number has a valid length.
pub proof fn law_record_holds_masked_card(
    api_key: Seq<char>,
    request: PaymentRequestView,
    transaction_uuid: u128,
)
    ensures
        match start_payment(api_key, request, transaction_uuid).pending_transaction() {
            Some(transaction) => {
                &&& request.has_valid_card_number()
                &&& transaction.masked_card_number == mask_prefix() + last_four(
                    request.card_number,
                )
                &&& transaction.masked_card_number.len() == 19
                &&& transaction.amount == request.amount
                &&& transaction.currency == request.currency
                &&& transaction.transaction_uuid == transaction_uuid
            },
            None => true,
        },
{
    if start_payment(api_key, request, transaction_uuid).pending_transaction() is Some {
        law_masked_card_form(request.card_number);
    }
}

/// Whenever a response is given, its transaction identifier is the text of
/// the UUID in the record that the store was handed, and that text has the
/// shape of a UUID. So a caller can always find the row of a response.
pub proof fn law_response_names_the_record(
    api_key: Seq<char>,
    request: PaymentRequestView,
    transaction_uuid: u128,
    stored: Result<(), Seq<char>>,
    timestamp: chrono::NaiveDateTime,
)
    ensures
        ({
            let decided = start_payment(api_key, request, transaction_uuid);
            match finish_payment(decided, stored, timestamp) {
                PaymentStateView::Responded { response } => {
                    &&& decided.pending_transaction() is Some
                    &&& decided.pending_transaction()->0.transaction_uuid == transaction_uuid
                    &&& response.transaction_id == uuid_text(
                        decided.pending_transaction()->0.transaction_uuid,
                    )
                    &&& is_uuid_text(response.transaction_id)
                    &&& response.success == (decided.pending_transaction()->0.status
                        == TransactionStatus::Success)
                },
                _ => true,
            }
        }),
{
    lemma_uuid_text_is_well_formed(transaction_uuid);
}

/// Without a credential no payment gets through: no record is handed to the
/// store and no response is given, whatever the request holds. A valid
/// request ends in an environment error, status 500. An invalid one has
/// been rejected before the credential was looked at, status 400.
pub proof fn law_missing_credential(
    api_key: Seq<char>,
    request: PaymentRequestView,
    transaction_uuid: u128,
    stored: Result<(), Seq<char>>,
    timestamp: chrono::NaiveDateTime,
)
    requires
        api_key.len() == 0,
    ensures
        ({
            let decided = start_payment(api_key, request, transaction_uuid);
            let missing = AppErrorView::EnvironmentError(missing_key_message());
            &&& decided.pending_transaction() is None
            &&& finish_payment(decided, stored, timestamp) == decided
            &&& decided.result() is Some && decided.result()->0 is Err
            &&& request.is_valid() ==> decided == (PaymentStateView::Errored { error: missing })
            &&& !request.is_valid() ==> decided is Rejected
            &&& missing.status_code() == 500
        }),
{
}

} // verus!
