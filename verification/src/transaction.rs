//! Transactions as the merchant side records them. The amount of a
//! transaction is a whole number of currency units, as the traffic generator
//! samples it; rates and crypto amounts are whole hundredths. Times of the
//! request and the answer are milliseconds since the Unix epoch.

use crate::models::{PaymentMethod, TransactionRequisites, TransactionStatus};
use vstd::prelude::*;

verus! {

/// A transaction of a merchant.
#[derive(Debug, Clone)]
pub struct Transaction {
    pub id: String,
    pub numeric_id: u64,
    pub order_id: String,
    /// The amount in whole units.
    pub amount: u64,
    /// The amount in the crypto currency, in hundredths.
    pub crypto: Option<u64>,
    pub status: TransactionStatus,
    pub trader_id: Option<String>,
    pub requisites: Option<TransactionRequisites>,
    pub created_at: String,
    pub updated_at: String,
    pub expired_at: String,
    pub method: Option<PaymentMethod>,
    pub is_mock: bool,
    pub callback_sent: bool,
    pub method_id: String,
    pub rate: Option<u64>,
}

/// What a merchant sends to create a transaction.
#[derive(Debug, Clone)]
pub struct TransactionRequest {
    /// The amount in whole units.
    pub amount: u64,
    pub order_id: String,
    pub method_id: String,
    pub rate: Option<u64>,
    pub expired_at: String,
    pub user_ip: Option<String>,
    pub user_id: Option<String>,
    pub transaction_type: Option<String>,
    pub callback_uri: Option<String>,
    pub success_uri: Option<String>,
    pub fail_uri: Option<String>,
    pub is_mock: Option<bool>,
}

/// The backend's answer to a created transaction.
#[derive(Debug, Clone)]
pub struct TransactionResponse {
    pub id: String,
    pub numeric_id: u64,
    /// The amount in whole units.
    pub amount: u64,
    /// The amount in the crypto currency, in hundredths.
    pub crypto: Option<u64>,
    pub status: TransactionStatus,
    pub trader_id: String,
    pub requisites: TransactionRequisites,
    pub created_at: String,
    pub updated_at: String,
    pub expired_at: String,
    pub method: PaymentMethod,
    pub is_mock: bool,
}

/// One attempt to create a transaction, as kept in the history.
#[derive(Debug, Clone)]
pub struct TransactionHistory {
    pub merchant_id: u128,
    pub transaction: Transaction,
    pub request_time: i64,
    pub response_time: i64,
    pub request_body: TransactionRequest,
    pub response_status: u16,
    /// The answer's body as text, where there was an answer.
    pub response_body: Option<String>,
    pub error: Option<String>,
}

} // verus!
