//! Plain records exchanged with the payment backend.

use crate::text::joined;
use vstd::prelude::*;

verus! {

/// What a device sends to open a session.
#[derive(Debug, Clone)]
pub struct ConnectDeviceRequest {
    pub device_code: String,
    pub battery_level: u8,
    pub network_info: String,
    pub device_model: String,
    pub android_version: String,
    pub app_version: String,
}

/// The backend's answer to a connection request. A token is present when the
/// session was opened.
#[derive(Debug, Clone)]
pub struct ConnectDeviceResponse {
    pub status: String,
    pub token: Option<String>,
    pub message: String,
}

/// The text shown when the backend refuses a connection: the refusal's
/// message where its body has one, else its error, else the status and the
/// body as they came.
pub open spec fn refusal_of(
    status: Seq<char>,
    body: Seq<char>,
    message: Option<Seq<char>>,
    error: Option<Seq<char>>,
) -> Seq<char> {
    match message {
        Some(text) => text,
        None => match error {
            Some(text) => text,
            None => "Failed to connect device ("@ + status + "): "@ + body,
        },
    }
}

/// The view of an optional text.
pub open spec fn optional_text(text: Option<String>) -> Option<Seq<char>> {
    match text {
        Some(t) => Some(t@),
        None => None,
    }
}

/// The text shown when the backend refuses a connection. `message` and
/// `error` are the fields of those names in the refusal's body, where the
/// body has them.
pub fn connect_refusal_text(
    status: &str,
    body: &str,
    message: Option<String>,
    error: Option<String>,
) -> (text: String)
    ensures
        text@ == refusal_of(status@, body@, optional_text(message), optional_text(error)),
{
    match message {
        Some(shown) => shown,
        None => match error {
            Some(shown) => shown,
            None => {
                let mut shown = joined("Failed to connect device (", status);
                shown.append("): ");
                shown.append(body);
                assert(shown@ =~= "Failed to connect device ("@ + status@ + "): "@ + body@);
                shown
            },
        },
    }
}

/// A notification as a device reports it.
#[derive(Debug, Clone)]
pub struct NotificationRequest {
    pub package_name: String,
    pub app_name: String,
    pub title: String,
    pub content: String,
    /// Milliseconds since the Unix epoch.
    pub timestamp: i64,
    pub priority: i32,
    pub category: String,
}

/// What the backend says about a merchant on connecting.
#[derive(Debug, Clone)]
pub struct MerchantInfo {
    pub id: String,
    pub name: String,
    pub created_at: Option<String>,
    pub total_tx: u64,
    pub paid_tx: u64,
}

/// The body of a failed call.
#[derive(Debug, Clone)]
pub struct ErrorResponse {
    pub error: String,
}

/// A payment method that the backend offers to a merchant.
#[derive(Debug, Clone)]
pub struct Method {
    pub id: String,
    pub code: String,
    pub name: String,
    pub method_type: String,
    pub currency: String,
}

/// Paging data of a transaction list.
#[derive(Debug, Clone, Copy, PartialEq, Eq, Structural)]
pub struct Pagination {
    pub total: u64,
    pub page: u64,
    pub limit: u64,
    pub pages: u64,
}

/// The kind of a notification raised for a device.
#[derive(Debug, Clone, Copy, PartialEq, Eq, Structural)]
pub enum NotificationType {
    BalanceTopUp,
    TransactionReceived,
}

/// The state of a transaction at the backend.
#[derive(Debug, Clone, Copy, PartialEq, Eq, Structural)]
pub enum TransactionStatus {
    Created,
    InProgress,
    Ready,
    Canceled,
    Expired,
    Dispute,
    Paused,
    FundsReturned,
}

impl TransactionStatus {
    /// The name under which the status is counted in statistics.
    pub open spec fn label_of(self) -> Seq<char> {
        match self {
            TransactionStatus::Created => "Created"@,
            TransactionStatus::InProgress => "InProgress"@,
            TransactionStatus::Ready => "Ready"@,
            TransactionStatus::Canceled => "Canceled"@,
            TransactionStatus::Expired => "Expired"@,
            TransactionStatus::Dispute => "Dispute"@,
            TransactionStatus::Paused => "Paused"@,
            TransactionStatus::FundsReturned => "FundsReturned"@,
        }
    }

    /// The name under which the status is counted in statistics.
    pub fn label(&self) -> (name: String)
        ensures
            name@ == self.label_of(),
    {
        match self {
            TransactionStatus::Created => "Created".to_owned(),
            TransactionStatus::InProgress => "InProgress".to_owned(),
            TransactionStatus::Ready => "Ready".to_owned(),
            TransactionStatus::Canceled => "Canceled".to_owned(),
            TransactionStatus::Expired => "Expired".to_owned(),
            TransactionStatus::Dispute => "Dispute".to_owned(),
            TransactionStatus::Paused => "Paused".to_owned(),
            TransactionStatus::FundsReturned => "FundsReturned".to_owned(),
        }
    }
}

/// The card a transaction is paid to, as attached to a transaction.
#[derive(Debug, Clone)]
pub struct TransactionRequisites {
    pub id: String,
    pub bank_type: String,
    pub card_number: String,
    pub recipient_name: String,
    pub trader_name: String,
}

/// The payment method of a transaction.
#[derive(Debug, Clone)]
pub struct PaymentMethod {
    pub id: String,
    pub code: String,
    pub name: String,
    pub method_type: String,
    pub currency: String,
}

/// A trader's card.
#[derive(Debug, Clone)]
pub struct Requisites {
    pub id: String,
    pub bank_type: String,
    pub name: String,
    pub card: String,
    pub card_formatted: String,
}

/// What the backend posts to a merchant's callback address.
#[derive(Debug, Clone)]
pub struct CallbackRequest {
    pub id: String,
    pub status: String,
}

} // verus!
