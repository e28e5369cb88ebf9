//! The payment pipeline: one request's way from arrival to its response.
//!
//! A payment moves through the stages `Received`, `Validated`,
//! `GatewayDecided`, `Persisted` and `Responded`, in that order and never
//! back. It leaves the line for `Rejected` when validation fails and for
//! `Errored` when the gateway or the store fails. The one step the pipeline
//! cannot take itself is the write to the store: it hands the record out,
//! and is told how the write went.

use vstd::prelude::*;
use vstd::pervasive::arbitrary;
use crate::error::{AppError, AppErrorView};
use crate::gateway::{
    approved_message, call_external_payment_gateway, declined_message, gateway_decision,
};
use crate::ident::{
    fresh_uuid, is_random_uuid, is_uuid_text, lemma_uuid_text_is_well_formed, uuid_text, KIND_BITS,
    RANDOM_KIND,
};
use crate::masking::{is_masked_card, lemma_masked_is_masked_card, mask_card, masked};
use crate::request::{validate, PaymentRequest, PaymentRequestView};
use crate::response::{PaymentResponse, PaymentResponseView};
use crate::transaction::{NewTransaction, NewTransactionView, TransactionStatus};

verus! {

/// Where one payment stands.
#[derive(Debug, PartialEq, Eq)]
pub enum PaymentState {
    /// The request has arrived and nothing has been done with it.
    Received { request: PaymentRequest },
    /// The request passed validation and its card number has been masked.
    Validated { request: PaymentRequest, masked_card: String },
    /// The gateway has approved or declined. The record waits to be written.
    GatewayDecided { transaction: NewTransaction, message: String },
    /// The store holds the record.
    Persisted { transaction: NewTransaction, message: String },
    /// The response is ready. This is the end of a payment that ran through.
    Responded { response: PaymentResponse },
    /// Validation refused the request. Nothing was asked or written.
    Rejected { error: AppError },
    /// The gateway or the store failed. No response is given.
    Errored { error: AppError },
}

/// A [`PaymentState`] with its text as sequences of characters.
pub enum PaymentStateView {
    Received { request: PaymentRequestView },
    Validated { request: PaymentRequestView, masked_card: Seq<char> },
    GatewayDecided { transaction: NewTransactionView, message: Seq<char> },
    Persisted { transaction: NewTransactionView, message: Seq<char> },
    Responded { response: PaymentResponseView },
    Rejected { error: AppErrorView },
    Errored { error: AppErrorView },
}

impl View for PaymentState {
    type V = PaymentStateView;

    open spec fn view(&self) -> PaymentStateView {
        match self {
            PaymentState::Received { request } => PaymentStateView::Received { request: request@ },
            PaymentState::Validated { request, masked_card } => PaymentStateView::Validated {
                request: request@,
                masked_card: masked_card@,
            },
            PaymentState::GatewayDecided { transaction, message } => {
                PaymentStateView::GatewayDecided { transaction: transaction@, message: message@ }
            },
            PaymentState::Persisted { transaction, message } => PaymentStateView::Persisted {
                transaction: transaction@,
                message: message@,
            },
            PaymentState::Responded { response } => PaymentStateView::Responded {
                response: response@,
            },
            PaymentState::Rejected { error } => PaymentStateView::Rejected { error: error@ },
            PaymentState::Errored { error } => PaymentStateView::Errored { error: error@ },
        }
    }
}

/// What the store reported, with an error's detail as a sequence of
/// characters.
pub open spec fn store_report(stored: Result<(), String>) -> Result<(), Seq<char>> {
    match stored {
        Ok(_) => Ok(()),
        Err(detail) => Err(detail@),
    }
}

/// The gateway's message for each outcome.
pub open spec fn outcome_message(status: TransactionStatus) -> Seq<char> {
    match status {
        TransactionStatus::Success => approved_message(),
        TransactionStatus::Failed => declined_message(),
    }
}

impl PaymentStateView {
    /// The place of the stage on the line; the two ways out come last.
    pub open spec fn rank(self) -> nat {
        match self {
            PaymentStateView::Received { .. } => 0,
            PaymentStateView::Validated { .. } => 1,
            PaymentStateView::GatewayDecided { .. } => 2,
            PaymentStateView::Persisted { .. } => 3,
            PaymentStateView::Responded { .. } => 4,
            PaymentStateView::Rejected { .. } => 5,
            PaymentStateView::Errored { .. } => 5,
        }
    }

    /// What holds of a payment at every stage it can reach from a received
    /// request. A validated request is valid and carries its own masked card.
    /// A decided or persisted record has a positive amount, a masked card and
    /// the gateway's message for its outcome. A response names its attempt by
    /// a UUID's text. A rejection is a bad request, and an error is never
    /// one.
    pub open spec fn well_formed(self) -> bool {
        match self {
            PaymentStateView::Received { .. } => true,
            PaymentStateView::Validated { request, masked_card } => {
                &&& request.is_valid()
                &&& masked_card == masked(request.card_number)
            },
            PaymentStateView::GatewayDecided { transaction, message } => {
                &&& transaction.amount > 0
                &&& is_masked_card(transaction.masked_card_number)
                &&& message == outcome_message(transaction.status)
            },
            PaymentStateView::Persisted { transaction, message } => {
                &&& transaction.amount > 0
                &&& is_masked_card(transaction.masked_card_number)
                &&& message == outcome_message(transaction.status)
            },
            PaymentStateView::Responded { response } => {
                &&& is_uuid_text(response.transaction_id)
                &&& response.message == outcome_message(
                    if response.success {
                        TransactionStatus::Success
                    } else {
                        TransactionStatus::Failed
                    },
                )
            },
            PaymentStateView::Rejected { error } => error is BadRequest,
            PaymentStateView::Errored { error } => !(error is BadRequest),
        }
    }

    /// The payment is over: it has its response or its error.
    pub open spec fn is_terminal(self) -> bool {
        self is Responded || self is Rejected || self is Errored
    }

    /// The record the store is asked to write now, if the payment waits for
    /// the store.
    pub open spec fn pending_transaction(self) -> Option<NewTransactionView> {
        match self {
            PaymentStateView::GatewayDecided { transaction, .. } => Some(transaction),
            _ => None,
        }
    }

    /// What the caller gets, once the payment is over.
    pub open spec fn result(self) -> Option<Result<PaymentResponseView, AppErrorView>> {
        match self {
            PaymentStateView::Responded { response } => Some(Ok(response)),
            PaymentStateView::Rejected { error } => Some(Err(error)),
            PaymentStateView::Errored { error } => Some(Err(error)),
            _ => None,
        }
    }

    /// First step: judge the request. A valid one goes on with its card
    /// number masked, an invalid one is rejected with the reason.
    pub open spec fn validate(self) -> PaymentStateView {
        match self {
            PaymentStateView::Received { request } => match request.validation() {
                Ok(_) => PaymentStateView::Validated {
                    request,
                    masked_card: masked(request.card_number),
                },
                Err(error) => PaymentStateView::Rejected { error },
            },
            _ => self,
        }
    }

    /// Second step: name the attempt and ask the gateway. Its answer,
    /// approval or decline, makes the record to write. If the gateway gives
    /// no answer the payment ends in that error, with no record.
    pub open spec fn decide(self, api_key: Seq<char>, transaction_uuid: u128) -> PaymentStateView {
        match self {
            PaymentStateView::Validated { request, masked_card } => match gateway_decision(
                api_key,
                request.card_number,
            ) {
                Ok((status, message)) => PaymentStateView::GatewayDecided {
                    transaction: NewTransactionView {
                        transaction_uuid,
                        amount: request.amount,
                        currency: request.currency,
                        status,
                        masked_card_number: masked_card,
                    },
                    message,
                },
                Err(error) => PaymentStateView::Errored { error },
            },
            _ => self,
        }
    }

    /// Third step: take the store's report. A failed write ends the payment
    /// in a database error that holds the store's detail; the gateway's
    /// decision is then lost.
    pub open spec fn record(self, stored: Result<(), Seq<char>>) -> PaymentStateView {
        match self {
            PaymentStateView::GatewayDecided { transaction, message } => match stored {
                Ok(_) => PaymentStateView::Persisted { transaction, message },
                Err(detail) => PaymentStateView::Errored {
                    error: AppErrorView::DatabaseError(detail),
                },
            },
            _ => self,
        }
    }

    /// Last step: build the response. It succeeds exactly if the gateway
    /// approved, names the attempt by the text of its UUID and carries the
    /// gateway's message.
    pub open spec fn respond(self, timestamp: chrono::NaiveDateTime) -> PaymentStateView {
        match self {
            PaymentStateView::Persisted { transaction, message } => PaymentStateView::Responded {
                response: PaymentResponseView {
                    success: transaction.status == TransactionStatus::Success,
                    transaction_id: uuid_text(transaction.transaction_uuid),
                    message,
                    timestamp,
                },
            },
            _ => self,
        }
    }
}

/// Where a request stands once it has been validated and the gateway asked:
/// it waits for the store, or it is over.
pub open spec fn start_payment(
    api_key: Seq<char>,
    request: PaymentRequestView,
    transaction_uuid: u128,
) -> PaymentStateView {
    (PaymentStateView::Received { request }).validate().decide(api_key, transaction_uuid)
}

/// Where a payment stands once the store has reported and the response, if
/// one is due, has been built.
pub open spec fn finish_payment(
    state: PaymentStateView,
    stored: Result<(), Seq<char>>,
    timestamp: chrono::NaiveDateTime,
) -> PaymentStateView {
    state.record(stored).respond(timestamp)
}

impl PaymentState {
    /// Judges a received request and masks the card number of a valid one.
    /// Every other state is left as it is.
    pub fn validate(self) -> (next: PaymentState)
        ensures
            next@ == self@.validate(),
    {
        match self {
            PaymentState::Received { request } => match validate(&request) {
                Ok(()) => {
                    let masked_card = mask_card(request.card_number.as_str());
                    PaymentState::Validated { request, masked_card }
                },
                Err(error) => PaymentState::Rejected { error },
            },
            other => other,
        }
    }

    /// Asks the gateway about a validated request, under the given
    /// identifier. Every other state is left as it is.
    pub fn decide_with(self, api_key: &str, transaction_uuid: u128) -> (next: PaymentState)
        ensures
            next@ == self@.decide(api_key@, transaction_uuid),
    {
        match self {
            PaymentState::Validated { request, masked_card } => {
                match call_external_payment_gateway(api_key, &request, transaction_uuid) {
                    Ok((status, message)) => {
                        let PaymentRequest { amount, currency, .. } = request;
                        PaymentState::GatewayDecided {
                            transaction: NewTransaction {
                                transaction_uuid,
                                amount,
                                currency,
                                status,
                                masked_card_number: masked_card,
                            },
                            message,
                        }
                    },
                    Err(error) => PaymentState::Errored { error },
                }
            },
            other => other,
        }
    }

    /// Asks the gateway about a validated request, under a new random
    /// identifier. Every other state is left as it is, and no identifier is
    /// drawn for it.
    pub fn decide(self, api_key: &str) -> (next: PaymentState)
        ensures
            exists|id: u128| is_random_uuid(id) && next@ == #[trigger] self@.decide(api_key@, id),
    {
        let validated = match &self {
            PaymentState::Validated { .. } => true,
            _ => false,
        };
        if validated {
            let id = fresh_uuid();
            self.decide_with(api_key, id)
        } else {
            proof {
                assert(RANDOM_KIND & KIND_BITS == RANDOM_KIND) by (bit_vector);
                assert(self@ == self@.decide(api_key@, RANDOM_KIND));
            }
            self
        }
    }

    /// Takes the store's report on the record that waited to be written.
    /// Every other state is left as it is.
    pub fn record(self, stored: Result<(), String>) -> (next: PaymentState)
        ensures
            next@ == self@.record(store_report(stored)),
    {
        match self {
            PaymentState::GatewayDecided { transaction, message } => match stored {
                Ok(()) => PaymentState::Persisted { transaction, message },
                Err(detail) => PaymentState::Errored {
                    error: AppError::from_storage_failure(detail),
                },
            },
            other => other,
        }
    }

    /// Builds the response to a persisted payment, stamped with the given
    /// time. Every other state is left as it is.
    pub fn respond_at(self, timestamp: chrono::NaiveDateTime) -> (next: PaymentState)
        ensures
            next@ == self@.respond(timestamp),
    {
        match self {
            PaymentState::Persisted { transaction, message } => {
                let transaction_id = transaction.transaction_id();
                let success = match transaction.status {
                    TransactionStatus::Success => true,
                    TransactionStatus::Failed => false,
                };
                PaymentState::Responded {
                    response: PaymentResponse::new_at(success, transaction_id, message, timestamp),
                }
            },
            other => other,
        }
    }

    /// Builds the response to a persisted payment, stamped with the current
    /// time. Every other state is left as it is.
    pub fn respond(self) -> (next: PaymentState)
        ensures
            exists|timestamp: chrono::NaiveDateTime| next@ == #[trigger] self@.respond(timestamp),
    {
        match self {
            PaymentState::Persisted { transaction, message } => {
                let transaction_id = transaction.transaction_id();
                let response = match transaction.status {
                    TransactionStatus::Success => PaymentResponse::new_success(
                        transaction_id,
                        message,
                    ),
                    TransactionStatus::Failed => PaymentResponse::new_failure(
                        transaction_id,
                        message,
                    ),
                };
                let next = PaymentState::Responded { response };
                proof {
                    assert(next@ == self@.respond(response@.timestamp));
                }
                next
            },
            other => {
                proof {
                    assert(other@ == other@.respond(arbitrary()));
                }
                other
            },
        }
    }

    /// The record the store must write before the payment can go on: there
    /// is one exactly when the gateway has decided and the store has not yet
    /// reported.
    pub fn pending_transaction(&self) -> (pending: Option<&NewTransaction>)
        ensures
            match pending {
                Some(transaction) => self@.pending_transaction() == Some(transaction@),
                None => self@.pending_transaction() is None,
            },
    {
        match self {
            PaymentState::GatewayDecided { transaction, .. } => Some(transaction),
            _ => None,
        }
    }

    /// What the caller gets: the response of a payment that ran through, the
    /// error of one that did not, and nothing while the payment is under way.
    pub fn into_result(self) -> (result: Option<Result<PaymentResponse, AppError>>)
        ensures
            match result {
                Some(Ok(response)) => self@.result() == Some(
                    Ok::<PaymentResponseView, AppErrorView>(response@),
                ),
                Some(Err(error)) => self@.result() == Some(
                    Err::<PaymentResponseView, AppErrorView>(error@),
                ),
                None => self@.result() is None,
            },
    {
        match self {
            PaymentState::Responded { response } => Some(Ok(response)),
            PaymentState::Rejected { error } => Some(Err(error)),
            PaymentState::Errored { error } => Some(Err(error)),
            _ => None,
        }
    }
}

/// Takes a request as far as the pipeline can go alone: validation, masking,
/// a new identifier, the gateway. The state that comes back either waits for
/// the store, with the record to write, or is over.
pub fn process_payment(api_key: &str, payment_data: PaymentRequest) -> (state: PaymentState)
    ensures
        exists|id: u128|
            is_random_uuid(id) && state@ == #[trigger] start_payment(api_key@, payment_data@, id),
        state@.pending_transaction() is Some || state@.result() is Some,
        state@.well_formed(),
{
    let received = PaymentState::Received { request: payment_data };
    let validated = received.validate();
    let state = validated.decide(api_key);
    proof {
        let id = choose|id: u128|
            is_random_uuid(id) && state@ == #[trigger] validated@.decide(api_key@, id);
        assert(state@ == start_payment(api_key@, payment_data@, id));
        if validated@ is Validated {
            lemma_masked_is_masked_card(payment_data@.card_number);
        }
    }
    state
}

/// Takes a payment from the store's report to its end: the response if the
/// record was written, a database error if it was not. A state that did not
/// wait for the store is left as it is.
pub fn complete_payment(state: PaymentState, stored: Result<(), String>) -> (end: PaymentState)
    ensures
        exists|timestamp: chrono::NaiveDateTime|
            end@ == #[trigger] finish_payment(state@, store_report(stored), timestamp),
        state@.pending_transaction() is Some || state@.result() is Some ==> end@.result() is Some,
        state@.well_formed() ==> end@.well_formed(),
{
    let recorded = state.record(stored);
    let end = recorded.respond();
    proof {
        let timestamp = choose|timestamp: chrono::NaiveDateTime|
            end@ == #[trigger] recorded@.respond(timestamp);
        assert(end@ == finish_payment(state@, store_report(stored), timestamp));
        if let PaymentStateView::Persisted { transaction, .. } = recorded@ {
            lemma_uuid_text_is_well_formed(transaction.transaction_uuid);
        }
    }
    end
}

} // verus!
