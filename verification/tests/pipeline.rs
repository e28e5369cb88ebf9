use chrono::{DateTime, NaiveDateTime, Utc};
use payment_api::{
    complete_payment, process_payment, AppError, ErrorResponse, NewTransaction, PaymentRequest,
    PaymentResponse, PaymentState, TransactionStatus,
};
use uuid::Uuid;

const KEY: &str = "test-api-key";
const APPROVED: &str = "Payment successfully processed by external gateway.";
const DECLINED: &str = "Card declined: Insufficient funds (Simulation).";
const FIXED_UUID: u128 = 0x67e5504410b1426f9247bb680e5fe0c8;
const FIXED_UUID_TEXT: &str = "67e55044-10b1-426f-9247-bb680e5fe0c8";

fn payment(amount: i32, card_number: &str) -> PaymentRequest {
    PaymentRequest {
        amount,
        currency: "USD".to_string(),
        card_number: card_number.to_string(),
        expiry_month: 12,
        expiry_year: 2030,
        cvv: "123".to_string(),
    }
}

fn moment() -> NaiveDateTime {
    DateTime::from_timestamp(1_700_000_000, 0).unwrap().naive_utc()
}

fn decided_with_fixed_uuid(key: &str, request: PaymentRequest) -> PaymentState {
    PaymentState::Received { request }.validate().decide_with(key, FIXED_UUID)
}

fn record(status: TransactionStatus, masked_card_number: &str) -> NewTransaction {
    NewTransaction {
        transaction_uuid: FIXED_UUID,
        amount: 1000,
        currency: "USD".to_string(),
        status,
        masked_card_number: masked_card_number.to_string(),
    }
}

fn amount_rejection() -> AppError {
    AppError::BadRequest("Payment amount must be greater than zero.".to_string())
}

fn card_rejection() -> AppError {
    AppError::BadRequest("Invalid card number.".to_string())
}

fn missing_key() -> AppError {
    AppError::EnvironmentError("API Key is missing.".to_string())
}

#[test]
fn scenario_approved_payment() {
    let decided = decided_with_fixed_uuid(KEY, payment(1000, "4111111111111111"));
    assert_eq!(
        decided,
        PaymentState::GatewayDecided {
            transaction: record(TransactionStatus::Success, "XXXX-XXXX-XXXX-1111"),
            message: APPROVED.to_string(),
        }
    );
    assert_eq!(
        decided.pending_transaction(),
        Some(&record(TransactionStatus::Success, "XXXX-XXXX-XXXX-1111"))
    );
    assert_eq!(decided.pending_transaction().unwrap().status.as_str(), "SUCCESS");

    let end = decided.record(Ok(())).respond_at(moment());
    let response = end.into_result().unwrap().unwrap();
    assert_eq!(response.status_code(), 200);
    assert_eq!(
        response,
        PaymentResponse {
            success: true,
            transaction_id: FIXED_UUID_TEXT.to_string(),
            message: APPROVED.to_string(),
            timestamp: moment(),
        }
    );
}

#[test]
fn scenario_declined_payment() {
    let decided = decided_with_fixed_uuid(KEY, payment(1000, "4000000000000002"));
    assert_eq!(
        decided,
        PaymentState::GatewayDecided {
            transaction: record(TransactionStatus::Failed, "XXXX-XXXX-XXXX-0002"),
            message: DECLINED.to_string(),
        }
    );
    assert_eq!(decided.pending_transaction().unwrap().status.as_str(), "FAILED");

    let end = decided.record(Ok(())).respond_at(moment());
    let response = end.into_result().unwrap().unwrap();
    assert_eq!(response.status_code(), 200);
    assert_eq!(
        response,
        PaymentResponse {
            success: false,
            transaction_id: FIXED_UUID_TEXT.to_string(),
            message: DECLINED.to_string(),
            timestamp: moment(),
        }
    );
}

#[test]
fn scenario_zero_amount() {
    let state = process_payment(KEY, payment(0, "4111111111111111"));
    assert_eq!(state, PaymentState::Rejected { error: amount_rejection() });
    assert_eq!(state.pending_transaction(), None);
    let error = state.into_result().unwrap().unwrap_err();
    assert_eq!(
        error.into_response(),
        ErrorResponse {
            status: 400,
            error: "Payment amount must be greater than zero.".to_string()
        }
    );
}

#[test]
fn scenario_card_number_of_eight() {
    let state = process_payment(KEY, payment(1000, "41111111"));
    assert_eq!(state, PaymentState::Rejected { error: card_rejection() });
    assert_eq!(state.pending_transaction(), None);
    let error = state.into_result().unwrap().unwrap_err();
    assert_eq!(
        error.into_response(),
        ErrorResponse { status: 400, error: "Invalid card number.".to_string() }
    );
}

#[test]
fn scenario_credential_unset() {
    for card in ["4111111111111111", "4000000000000002", "123456789012"] {
        let state = process_payment("", payment(1000, card));
        assert_eq!(state, PaymentState::Errored { error: missing_key() });
        assert_eq!(state.pending_transaction(), None);
        let error = state.into_result().unwrap().unwrap_err();
        assert_eq!(
            error.into_response(),
            ErrorResponse { status: 500, error: "API Key is missing.".to_string() }
        );
    }
}

#[test]
fn invalid_request_is_rejected_whatever_the_credential() {
    for key in ["", KEY] {
        assert_eq!(
            process_payment(key, payment(0, "4111111111111111")),
            PaymentState::Rejected { error: amount_rejection() }
        );
        assert_eq!(
            process_payment(key, payment(-1, "4000000000000002")),
            PaymentState::Rejected { error: amount_rejection() }
        );
        assert_eq!(
            process_payment(key, payment(1000, "41111111111")),
            PaymentState::Rejected { error: card_rejection() }
        );
        assert_eq!(
            process_payment(key, payment(1000, "41111111111111111111")),
            PaymentState::Rejected { error: card_rejection() }
        );
    }
}

#[test]
fn nonpositive_amounts_never_reach_gateway_or_store() {
    for amount in [0, -1, -1000, i32::MIN] {
        for card in ["4111111111111111", "4000000000000002", "1", ""] {
            let state = process_payment(KEY, payment(amount, card));
            assert_eq!(state, PaymentState::Rejected { error: amount_rejection() });
            let end = complete_payment(state, Ok(()));
            assert_eq!(end, PaymentState::Rejected { error: amount_rejection() });
        }
    }
}

#[test]
fn bad_card_lengths_never_reach_gateway_or_store() {
    for card in ["", "4", "40000000000", "41111111111", "40000000000000000000", "41111111111111111111"] {
        let state = process_payment(KEY, payment(1, card));
        assert_eq!(state, PaymentState::Rejected { error: card_rejection() }, "card {card:?}");
        assert_eq!(state.pending_transaction(), None);
        let end = complete_payment(state, Err("unused".to_string()));
        assert_eq!(end, PaymentState::Rejected { error: card_rejection() });
    }
}

#[test]
fn validation_masks_the_card_of_a_valid_request() {
    let state = PaymentState::Received { request: payment(1000, "4111111111111111") }.validate();
    assert_eq!(
        state,
        PaymentState::Validated {
            request: payment(1000, "4111111111111111"),
            masked_card: "XXXX-XXXX-XXXX-1111".to_string(),
        }
    );
    assert_eq!(state.pending_transaction(), None);
    assert_eq!(state.into_result(), None);
}

#[test]
fn record_carries_amount_and_currency_of_the_request() {
    let request = PaymentRequest {
        amount: 2_499,
        currency: "TRY".to_string(),
        card_number: "5555444433332222".to_string(),
        expiry_month: 1,
        expiry_year: 2029,
        cvv: "999".to_string(),
    };
    let decided = decided_with_fixed_uuid(KEY, request);
    assert_eq!(
        decided.pending_transaction(),
        Some(&NewTransaction {
            transaction_uuid: FIXED_UUID,
            amount: 2_499,
            currency: "TRY".to_string(),
            status: TransactionStatus::Success,
            masked_card_number: "XXXX-XXXX-XXXX-2222".to_string(),
        })
    );
}

#[test]
fn valid_cards_at_both_length_limits_are_processed() {
    let short = decided_with_fixed_uuid(KEY, payment(1000, "400000000000"));
    assert_eq!(short.pending_transaction().unwrap().status, TransactionStatus::Failed);
    assert_eq!(short.pending_transaction().unwrap().masked_card_number, "XXXX-XXXX-XXXX-0000");
    let long = decided_with_fixed_uuid(KEY, payment(1000, "1234567890123456789"));
    assert_eq!(long.pending_transaction().unwrap().status, TransactionStatus::Success);
    assert_eq!(long.pending_transaction().unwrap().masked_card_number, "XXXX-XXXX-XXXX-6789");
}

#[test]
fn store_failure_is_a_database_error_and_no_response() {
    for card in ["4111111111111111", "4000000000000002"] {
        let decided = decided_with_fixed_uuid(KEY, payment(1000, card));
        let end = complete_payment(decided, Err("connection refused".to_string()));
        assert_eq!(
            end,
            PaymentState::Errored { error: AppError::DatabaseError("connection refused".to_string()) }
        );
        let error = end.into_result().unwrap().unwrap_err();
        assert_eq!(
            error.into_response(),
            ErrorResponse { status: 500, error: "Database operation failed.".to_string() }
        );
    }
}

#[test]
fn store_report_moves_a_decided_payment_to_persisted() {
    let decided = decided_with_fixed_uuid(KEY, payment(1000, "4111111111111111"));
    let persisted = decided.record(Ok(()));
    assert_eq!(
        persisted,
        PaymentState::Persisted {
            transaction: record(TransactionStatus::Success, "XXXX-XXXX-XXXX-1111"),
            message: APPROVED.to_string(),
        }
    );
    assert_eq!(persisted.pending_transaction(), None);
    assert_eq!(persisted.into_result(), None);
}

#[test]
fn process_payment_draws_a_random_version_4_identifier() {
    let first = process_payment(KEY, payment(1000, "4111111111111111"));
    let second = process_payment(KEY, payment(1000, "4111111111111111"));
    let first_uuid = first.pending_transaction().unwrap().transaction_uuid;
    let second_uuid = second.pending_transaction().unwrap().transaction_uuid;
    assert_ne!(first_uuid, second_uuid);
    for value in [first_uuid, second_uuid] {
        let uuid = Uuid::from_u128(value);
        assert_eq!(uuid.get_version_num(), 4);
        assert_eq!(uuid.get_variant(), uuid::Variant::RFC4122);
        assert_eq!(
            value & 0x0000_0000_0000_f000_c000_0000_0000_0000,
            0x0000_0000_0000_4000_8000_0000_0000_0000
        );
    }
}

#[test]
fn process_payment_differs_from_fixed_run_only_in_the_identifier() {
    for card in ["4111111111111111", "4000000000000002"] {
        let state = process_payment(KEY, payment(1000, card));
        let fixed = decided_with_fixed_uuid(KEY, payment(1000, card));
        match (state, fixed) {
            (
                PaymentState::GatewayDecided { transaction, message },
                PaymentState::GatewayDecided { transaction: expected, message: expected_message },
            ) => {
                assert_eq!(message, expected_message);
                assert_eq!(
                    NewTransaction { transaction_uuid: FIXED_UUID, ..transaction },
                    expected
                );
            }
            other => panic!("not decided: {other:?}"),
        }
    }
}

#[test]
fn response_identifier_is_a_uuid_and_names_the_record() {
    for card in ["4111111111111111", "4000000000000002"] {
        let decided = process_payment(KEY, payment(1000, card));
        let transaction_uuid = decided.pending_transaction().unwrap().transaction_uuid;
        let expected_id = decided.pending_transaction().unwrap().transaction_id();
        let response = complete_payment(decided, Ok(())).into_result().unwrap().unwrap();
        assert_eq!(response.transaction_id, expected_id);
        assert_eq!(Uuid::parse_str(&response.transaction_id).unwrap().as_u128(), transaction_uuid);
        assert_eq!(response.transaction_id, Uuid::from_u128(transaction_uuid).to_string());
    }
}

#[test]
fn complete_payment_stamps_the_response_with_the_current_time() {
    let before = Utc::now().naive_utc();
    let decided = process_payment(KEY, payment(1000, "4111111111111111"));
    let response = complete_payment(decided, Ok(())).into_result().unwrap().unwrap();
    let after = Utc::now().naive_utc();
    assert!(response.success);
    assert_eq!(response.message, APPROVED);
    assert!(before <= response.timestamp && response.timestamp <= after);
}

#[test]
fn complete_payment_of_a_declined_card_is_a_response_not_an_error() {
    let decided = process_payment(KEY, payment(1000, "4000000000000002"));
    let response = complete_payment(decided, Ok(())).into_result().unwrap().unwrap();
    assert!(!response.success);
    assert_eq!(response.message, DECLINED);
}

#[test]
fn finished_payments_stay_as_they_ended() {
    let responded = PaymentState::Responded {
        response: PaymentResponse::new_at(true, "id".to_string(), "m".to_string(), moment()),
    };
    let rejected = PaymentState::Rejected { error: card_rejection() };
    let errored = PaymentState::Errored { error: missing_key() };
    for (make, name) in [(0, "responded"), (1, "rejected"), (2, "errored")] {
        let fresh = || match make {
            0 => PaymentState::Responded {
                response: PaymentResponse::new_at(true, "id".to_string(), "m".to_string(), moment()),
            },
            1 => PaymentState::Rejected { error: card_rejection() },
            _ => PaymentState::Errored { error: missing_key() },
        };
        let expected = fresh();
        assert_eq!(fresh().validate(), expected, "{name}");
        assert_eq!(fresh().decide(KEY), expected, "{name}");
        assert_eq!(fresh().decide_with(KEY, 1), expected, "{name}");
        assert_eq!(fresh().record(Ok(())), expected, "{name}");
        assert_eq!(fresh().record(Err("x".to_string())), expected, "{name}");
        assert_eq!(fresh().respond(), expected, "{name}");
        assert_eq!(fresh().respond_at(moment()), expected, "{name}");
        assert_eq!(complete_payment(fresh(), Ok(())), expected, "{name}");
        assert!(fresh().into_result().is_some(), "{name}");
    }
    assert_eq!(responded.pending_transaction(), None);
    assert_eq!(rejected.pending_transaction(), None);
    assert_eq!(errored.pending_transaction(), None);
}

#[test]
fn steps_out_of_turn_leave_the_state_alone() {
    let received = || PaymentState::Received { request: payment(1000, "4111111111111111") };
    assert_eq!(received().decide_with(KEY, 1), received());
    assert_eq!(received().decide(KEY), received());
    assert_eq!(received().record(Ok(())), received());
    assert_eq!(received().respond_at(moment()), received());
    assert_eq!(complete_payment(received(), Ok(())), received());

    let validated = || received().validate();
    assert_eq!(validated().validate(), validated());
    assert_eq!(validated().record(Err("x".to_string())), validated());
    assert_eq!(validated().respond(), validated());

    let decided = || decided_with_fixed_uuid(KEY, payment(1000, "4111111111111111"));
    assert_eq!(decided().validate(), decided());
    assert_eq!(decided().decide_with("", 9), decided());
    assert_eq!(decided().respond_at(moment()), decided());

    let persisted = || decided().record(Ok(()));
    assert_eq!(persisted().validate(), persisted());
    assert_eq!(persisted().decide_with("", 9), persisted());
    assert_eq!(persisted().record(Err("late".to_string())), persisted());
}

#[test]
fn gateway_failure_skips_the_store() {
    let validated = PaymentState::Received { request: payment(1000, "4111111111111111") }.validate();
    let state = validated.decide_with("", FIXED_UUID);
    assert_eq!(state, PaymentState::Errored { error: missing_key() });
    assert_eq!(state.pending_transaction(), None);
    assert_eq!(complete_payment(state, Ok(())), PaymentState::Errored { error: missing_key() });
}
