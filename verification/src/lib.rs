//! Card-payment processing: request validation, card masking, the gateway
//! decision, the transaction record handed to the store, and the typed
//! response, under one closed error taxonomy.

pub mod clock;
pub mod error;
pub mod gateway;
pub mod ident;
pub mod laws;
pub mod masking;
pub mod pipeline;
pub mod request;
pub mod response;
pub mod transaction;

pub use error::{AppError, AppErrorView, ErrorResponse, ErrorResponseView};
pub use gateway::call_external_payment_gateway;
pub use masking::mask_card;
pub use pipeline::{complete_payment, process_payment, PaymentState, PaymentStateView};
pub use request::{validate, PaymentRequest, PaymentRequestView};
pub use response::{PaymentResponse, PaymentResponseView};
pub use transaction::{
    NewTransaction, NewTransactionView, Transaction, TransactionStatus, TransactionView,
};
