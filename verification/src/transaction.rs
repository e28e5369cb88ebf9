//! The record of one payment attempt: what is handed to the store, and the
//! row the store keeps.

use vstd::prelude::*;
use crate::ident::{format_uuid, uuid_text};

verus! {

/// The outcome of the gateway's authorization. A decline is an outcome, not
/// an error.
#[derive(Debug, Clone, Copy, PartialEq, Eq, Structural)]
pub enum TransactionStatus {
    Success,
    Failed,
}

impl TransactionStatus {
    /// The word the store keeps for this outcome.
    pub open spec fn text(self) -> Seq<char> {
        match self {
            TransactionStatus::Success => "SUCCESS"@,
            TransactionStatus::Failed => "FAILED"@,
        }
    }

    /// The outcome that a stored word stands for. Only the two words stand
    /// for one, and only as they are written: the set is closed.
    pub open spec fn from_text(word: Seq<char>) -> Option<TransactionStatus> {
        if word == "SUCCESS"@ {
            Some(TransactionStatus::Success)
        } else if word == "FAILED"@ {
            Some(TransactionStatus::Failed)
        } else {
            None
        }
    }

    /// The word the store keeps for this outcome.
    pub fn as_str(&self) -> (word: &'static str)
        ensures
            word@ == self.text(),
    {
        match self {
            TransactionStatus::Success => "SUCCESS",
            TransactionStatus::Failed => "FAILED",
        }
    }

    /// Reads an outcome back from the word the store keeps.
    pub fn parse(word: &str) -> (status: Option<TransactionStatus>)
        ensures
            status == TransactionStatus::from_text(word@),
    {
        let word = word.to_owned();
        if word == "SUCCESS".to_owned() {
            Some(TransactionStatus::Success)
        } else if word == "FAILED".to_owned() {
            Some(TransactionStatus::Failed)
        } else {
            None
        }
    }

    /// Each outcome is read back from its own word.
    pub proof fn lemma_word_round_trip(self)
        ensures
            TransactionStatus::from_text(self.text()) == Some(self),
    {
        reveal_strlit("SUCCESS");
        reveal_strlit("FAILED");
        assert("SUCCESS"@.len() == 7 && "FAILED"@.len() == 6);
    }
}

/// What the pipeline hands to the store for one attempt: the values of one
/// new row. The row's own number and its creation time are the store's to
/// set.
#[derive(Debug, PartialEq, Eq)]
pub struct NewTransaction {
    pub transaction_uuid: u128,
    pub amount: i32,
    pub currency: String,
    pub status: TransactionStatus,
    pub masked_card_number: String,
}

/// A [`NewTransaction`] with its text as sequences of characters.
pub struct NewTransactionView {
    pub transaction_uuid: u128,
    pub amount: int,
    pub currency: Seq<char>,
    pub status: TransactionStatus,
    pub masked_card_number: Seq<char>,
}

impl View for NewTransaction {
    type V = NewTransactionView;

    open spec fn view(&self) -> NewTransactionView {
        NewTransactionView {
            transaction_uuid: self.transaction_uuid,
            amount: self.amount as int,
            currency: self.currency@,
            status: self.status,
            masked_card_number: self.masked_card_number@,
        }
    }
}

impl NewTransaction {
    /// The identifier as the caller sees it: the UUID's hyphenated text.
    pub fn transaction_id(&self) -> (id: String)
        ensures
            id@ == uuid_text(self.transaction_uuid),
    {
        format_uuid(self.transaction_uuid)
    }

    /// The row the store holds once it has numbered and dated this record.
    pub fn into_row(self, id: i32, created_at: chrono::NaiveDateTime) -> (row: Transaction)
        ensures
            row@ == self@.row(id, created_at),
    {
        Transaction {
            id,
            transaction_uuid: self.transaction_uuid,
            amount: self.amount,
            currency: self.currency,
            status: self.status,
            masked_card_number: self.masked_card_number,
            created_at,
        }
    }
}

impl NewTransactionView {
    /// The row that holds this record under the given number and date.
    pub open spec fn row(self, id: i32, created_at: chrono::NaiveDateTime) -> TransactionView {
        TransactionView {
            id: id as int,
            transaction_uuid: self.transaction_uuid,
            amount: self.amount,
            currency: self.currency,
            status: self.status,
            masked_card_number: self.masked_card_number,
            created_at,
        }
    }
}

/// One row of the transactions table: the authoritative record of an
/// attempt. It holds the masked card, never the card number.
#[derive(Debug, PartialEq, Eq)]
pub struct Transaction {
    pub id: i32,
    pub transaction_uuid: u128,
    pub amount: i32,
    pub currency: String,
    pub status: TransactionStatus,
    pub masked_card_number: String,
    pub created_at: chrono::NaiveDateTime,
}

/// A [`Transaction`] with its text as sequences of characters.
pub struct TransactionView {
    pub id: int,
    pub transaction_uuid: u128,
    pub amount: int,
    pub currency: Seq<char>,
    pub status: TransactionStatus,
    pub masked_card_number: Seq<char>,
    pub created_at: chrono::NaiveDateTime,
}

impl View for Transaction {
    type V = TransactionView;

    open spec fn view(&self) -> TransactionView {
        TransactionView {
            id: self.id as int,
            transaction_uuid: self.transaction_uuid,
            amount: self.amount as int,
            currency: self.currency@,
            status: self.status,
            masked_card_number: self.masked_card_number@,
            created_at: self.created_at,
        }
    }
}

impl TransactionView {
    /// The record this row was written from.
    pub open spec fn record(self) -> NewTransactionView {
        NewTransactionView {
            transaction_uuid: self.transaction_uuid,
            amount: self.amount,
            currency: self.currency,
            status: self.status,
            masked_card_number: self.masked_card_number,
        }
    }
}

} // verus!
