//! What the merchant side decides around a backend call: what a transaction
//! request holds, and what is recorded once the call has succeeded or failed.
//! The calls themselves are the caller's.

use crate::identity::{new_uuid, now_millis, rfc3339_of, rfc3339_text, uuid_hyphenated, uuid_text};
use crate::keyed::{after_insert, value_of};
use crate::merchant::{Merchant, PaymentType, DEFAULT_USDT_RATE, RUB_RATE};
use crate::models::{PaymentMethod, TransactionRequisites, TransactionStatus};
use crate::statistics::{
    empty_statistics, with_callback, with_failure, with_liquid, with_non_liquid, with_status,
    with_success, StatisticsService, StatisticsView,
};
use crate::storage::StorageService;
use crate::text::{copy_text, joined};
use crate::transaction::{Transaction, TransactionHistory, TransactionRequest, TransactionResponse};
use vstd::prelude::*;

verus! {

/// Life of a transaction request, in milliseconds: 24 hours.
pub const REQUEST_LIFETIME_MS: i64 = 86_400_000;

/// Status recorded for an attempt that the backend accepted.
pub const STATUS_CREATED: u16 = 201;

/// Status recorded for an attempt that failed.
pub const STATUS_FAILED: u16 = 500;

/// The rate sent for a merchant.
pub open spec fn rate_of(merchant: Merchant) -> u64 {
    match merchant.payment_type {
        PaymentType::UsdtTrc20 => match merchant.rate {
            Some(own) => own,
            None => DEFAULT_USDT_RATE,
        },
        PaymentType::Rub => RUB_RATE,
    }
}

/// The transaction that a successful answer stands for.
pub open spec fn created_transaction(request: TransactionRequest, response: TransactionResponse)
    -> Transaction {
    Transaction {
        id: response.id,
        numeric_id: response.numeric_id,
        order_id: request.order_id,
        amount: response.amount,
        crypto: response.crypto,
        status: response.status,
        trader_id: Some(response.trader_id),
        requisites: Some(response.requisites),
        created_at: response.created_at,
        updated_at: response.updated_at,
        expired_at: response.expired_at,
        method: Some(response.method),
        is_mock: response.is_mock,
        callback_sent: false,
        method_id: request.method_id,
        rate: request.rate,
    }
}

/// The view of an optional flag, false where there is none.
pub open spec fn flag_of(flag: Option<bool>) -> bool {
    match flag {
        Some(b) => b,
        None => false,
    }
}

fn copy_requisites(r: &TransactionRequisites) -> (copy: TransactionRequisites)
    ensures
        copy == *r,
{
    TransactionRequisites {
        id: r.id.clone(),
        bank_type: r.bank_type.clone(),
        card_number: r.card_number.clone(),
        recipient_name: r.recipient_name.clone(),
        trader_name: r.trader_name.clone(),
    }
}

fn copy_method(m: &PaymentMethod) -> (copy: PaymentMethod)
    ensures
        copy == *m,
{
    PaymentMethod {
        id: m.id.clone(),
        code: m.code.clone(),
        name: m.name.clone(),
        method_type: m.method_type.clone(),
        currency: m.currency.clone(),
    }
}

/// A copy of a transaction.
pub fn copy_transaction(t: &Transaction) -> (copy: Transaction)
    ensures
        copy == *t,
{
    Transaction {
        id: t.id.clone(),
        numeric_id: t.numeric_id,
        order_id: t.order_id.clone(),
        amount: t.amount,
        crypto: t.crypto,
        status: t.status,
        trader_id: copy_text(&t.trader_id),
        requisites: match &t.requisites {
            Some(r) => Some(copy_requisites(r)),
            None => None,
        },
        created_at: t.created_at.clone(),
        updated_at: t.updated_at.clone(),
        expired_at: t.expired_at.clone(),
        method: match &t.method {
            Some(m) => Some(copy_method(m)),
            None => None,
        },
        is_mock: t.is_mock,
        callback_sent: t.callback_sent,
        method_id: t.method_id.clone(),
        rate: t.rate,
    }
}

/// A request together with the moment it was prepared at.
pub struct PreparedRequest {
    pub request: TransactionRequest,
    /// Milliseconds since the Unix epoch.
    pub start_time: i64,
}

/// The text a moment is recorded as: its RFC 3339 text, or the empty text for
/// a moment that cannot be written down.
pub open spec fn time_text_of(millis: i64) -> Seq<char> {
    match rfc3339_of(millis) {
        Some(text) => text,
        None => Seq::empty(),
    }
}

/// The text of the moment at which a request prepared at `now` expires, where
/// that moment can be written down.
pub open spec fn expiry_of(now: i64) -> Option<Seq<char>> {
    if now + REQUEST_LIFETIME_MS <= i64::MAX {
        rfc3339_of((now + REQUEST_LIFETIME_MS) as i64)
    } else {
        None
    }
}

/// Whether `p` is the request for a transaction of `merchant` prepared at
/// `now`, with the order and the user named after the two UUIDs.
pub open spec fn is_prepared(
    p: PreparedRequest,
    merchant: Merchant,
    amount: u64,
    method_id: String,
    is_mock: bool,
    now: i64,
    order: u128,
    user: u128,
) -> bool {
    &&& p.start_time == now
    &&& expiry_of(now) == Some(p.request.expired_at@)
    &&& p.request.order_id@ == "order_"@ + uuid_hyphenated(order)
    &&& (p.request.user_id matches Some(id) && id@ == "user_"@ + uuid_hyphenated(user))
    &&& p.request.amount == amount
    &&& p.request.method_id == method_id
    &&& p.request.rate == Some(rate_of(merchant))
    &&& (p.request.user_ip matches Some(ip) && ip@ == "127.0.0.1"@)
    &&& (p.request.transaction_type matches Some(kind) && kind@ == "IN"@)
    &&& p.request.callback_uri == merchant.callback_url
    &&& p.request.success_uri is None
    &&& p.request.fail_uri is None
    &&& p.request.is_mock == Some(is_mock)
}

/// The merchant side's services: the store and the running statistics.
pub struct MerchantService {
    storage: StorageService,
    stats_service: StatisticsService,
}

impl MerchantService {
    /// The store.
    pub closed spec fn storage(&self) -> StorageService {
        self.storage
    }

    /// The running statistics.
    pub closed spec fn stats(&self) -> StatisticsService {
        self.stats_service
    }

    /// Both parts hold each merchant at most once.
    pub open spec fn wf(&self) -> bool {
        self.storage().wf() && self.stats().wf()
    }

    /// The services over the given store and statistics.
    pub fn new(storage: StorageService, stats_service: StatisticsService) -> (service:
        MerchantService)
        ensures
            service.storage() == storage,
            service.stats() == stats_service,
    {
        MerchantService { storage, stats_service }
    }

    /// The store, for reading.
    pub fn store(&self) -> (storage: &StorageService)
        ensures
            *storage == self.storage(),
    {
        &self.storage
    }

    /// The running statistics, for reading.
    pub fn statistics(&self) -> (stats: &StatisticsService)
        ensures
            *stats == self.stats(),
    {
        &self.stats_service
    }

    /// Takes in a merchant whose API key the backend has accepted: a new
    /// merchant with the balance the backend reported, or zero where it
    /// reported none, is stored and its statistics start afresh. The answer
    /// is the new merchant's id.
    pub fn create_merchant(&mut self, name: String, api_key: String, balance: Option<u64>) -> (id:
        u128)
        ensures
            exists|merchant: Merchant|
                {
                    &&& final(self).storage().merchants() == #[trigger] after_insert(
                        old(self).storage().merchants(),
                        id,
                        merchant,
                    )
                    &&& merchant.id == id
                    &&& merchant.balance_usdt == match balance {
                        Some(b) => b,
                        None => 0,
                    }
                    &&& (Merchant { balance_usdt: 0, ..merchant }).is_fresh(name, api_key)
                },
            final(self).storage().history() == old(self).storage().history(),
            final(self).storage().statistics() == old(self).storage().statistics(),
            final(self).storage().directory() == old(self).storage().directory(),
            final(self).stats().stats() == after_insert(
                old(self).stats().stats(),
                id,
                empty_statistics(id),
            ),
            old(self).wf() ==> final(self).wf(),
    {
        let mut merchant = Merchant::new(name, api_key);
        merchant.balance_usdt = match balance {
            Some(b) => b,
            None => 0,
        };
        let id = merchant.id;
        let ghost stored = merchant;
        self.storage.add_merchant(merchant);
        self.stats_service.initialize_merchant(id);
        assert(self.storage().merchants() == after_insert(
            old(self).storage().merchants(),
            id,
            stored,
        ));
        id
    }

    /// Stores a changed merchant.
    pub fn update_merchant(&mut self, merchant: Merchant)
        ensures
            final(self).storage().merchants() == after_insert(
                old(self).storage().merchants(),
                merchant.id,
                merchant,
            ),
            final(self).storage().history() == old(self).storage().history(),
            final(self).storage().statistics() == old(self).storage().statistics(),
            final(self).storage().directory() == old(self).storage().directory(),
            final(self).stats() == old(self).stats(),
            old(self).wf() ==> final(self).wf(),
    {
        self.storage.update_merchant(merchant);
    }

    /// The merchant with the given id.
    pub fn get_merchant(&self, id: &u128) -> (merchant: Option<&Merchant>)
        ensures
            match merchant {
                Some(m) => value_of(self.storage().merchants(), *id) == Some(*m),
                None => value_of(self.storage().merchants(), *id) is None,
            },
    {
        self.storage.get_merchant(id)
    }

    /// All merchants.
    pub fn get_all_merchants(&self) -> (all: Vec<&Merchant>)
        ensures
            all@.len() == self.storage().merchants().len(),
            forall|i: int|
                0 <= i < all@.len() ==> *(#[trigger] all@[i]) == self.storage().merchants()[i].1,
    {
        self.storage.get_all_merchants()
    }

    /// Puts a request together from its parts.
    pub fn build_request(
        merchant: &Merchant,
        amount: u64,
        method_id: String,
        is_mock: bool,
        order_id: String,
        user_id: String,
        expired_at: String,
    ) -> (request: TransactionRequest)
        ensures
            request.amount == amount,
            request.order_id == order_id,
            request.method_id == method_id,
            request.rate == Some(rate_of(*merchant)),
            request.expired_at == expired_at,
            request.user_ip matches Some(ip) && ip@ == "127.0.0.1"@,
            request.user_id == Some(user_id),
            request.transaction_type matches Some(kind) && kind@ == "IN"@,
            request.callback_uri == merchant.callback_url,
            request.success_uri is None,
            request.fail_uri is None,
            request.is_mock == Some(is_mock),
    {
        TransactionRequest {
            amount,
            order_id,
            method_id,
            rate: Some(merchant.effective_rate()),
            expired_at,
            user_ip: Some("127.0.0.1".to_owned()),
            user_id: Some(user_id),
            transaction_type: Some("IN".to_owned()),
            callback_uri: copy_text(&merchant.callback_url),
            success_uri: None,
            fail_uri: None,
            is_mock: Some(is_mock),
        }
    }

    /// Prepares the request for a transaction of `merchant` at the time `now`,
    /// with the order and the user named after the two given UUIDs. The
    /// request expires 24 hours later; there is no request where that moment
    /// cannot be written down.
    pub fn prepare_at(
        merchant: &Merchant,
        amount: u64,
        method_id: String,
        is_mock: bool,
        now: i64,
        order: u128,
        user: u128,
    ) -> (prepared: Option<PreparedRequest>)
        ensures
            match prepared {
                Some(p) => is_prepared(p, *merchant, amount, method_id, is_mock, now, order, user),
                None => expiry_of(now) is None,
            },
    {
        if now > i64::MAX - REQUEST_LIFETIME_MS {
            return None;
        }
        let expired_at = match rfc3339_text(now + REQUEST_LIFETIME_MS) {
            Some(text) => text,
            None => {
                return None;
            },
        };
        let order_text = uuid_text(order);
        let order_id = joined("order_", order_text.as_str());
        let user_text = uuid_text(user);
        let user_id = joined("user_", user_text.as_str());
        let request = Self::build_request(
            merchant,
            amount,
            method_id,
            is_mock,
            order_id,
            user_id,
            expired_at,
        );
        Some(PreparedRequest { request, start_time: now })
    }

    /// Prepares the request for a transaction of `merchant` as of now, with a
    /// fresh order id and user id.
    pub fn prepare_transaction(merchant: &Merchant, amount: u64, method_id: String, is_mock: bool)
        -> (prepared: Option<PreparedRequest>)
        ensures
            match prepared {
                Some(p) => exists|now: i64, order: u128, user: u128| #[trigger]
                    is_prepared(p, *merchant, amount, method_id, is_mock, now, order, user),
                None => exists|now: i64| #[trigger] expiry_of(now) is None,
            },
    {
        let now = now_millis();
        let order = new_uuid();
        let user = new_uuid();
        let prepared = Self::prepare_at(merchant, amount, method_id, is_mock, now, order, user);
        proof {
            if prepared is Some {
                assert(is_prepared(
                    prepared->Some_0,
                    *merchant,
                    amount,
                    method_id,
                    is_mock,
                    now,
                    order,
                    user,
                ));
            } else {
                assert(expiry_of(now) is None);
            }
        }
        prepared
    }

    /// Takes in the backend's answer to a request: the transaction goes into
    /// the history with the request and the answer, the success is counted,
    /// and so is one more liquid or mock transaction, as a fresh liquidity
    /// draw for the merchant decides. The answer is the transaction.
    pub fn transaction_created(
        &mut self,
        merchant: &Merchant,
        prepared: PreparedRequest,
        response: TransactionResponse,
        response_body: Option<String>,
        response_time: i64,
    ) -> (transaction: Transaction)
        ensures
            transaction == created_transaction(prepared.request, response),
            final(self).storage().history() == old(self).storage().history().push(
                TransactionHistory {
                    merchant_id: merchant.id,
                    transaction,
                    request_time: prepared.start_time,
                    response_time,
                    request_body: prepared.request,
                    response_status: STATUS_CREATED,
                    response_body,
                    error: None,
                },
            ),
            final(self).storage().merchants() == old(self).storage().merchants(),
            final(self).storage().statistics() == old(self).storage().statistics(),
            final(self).storage().directory() == old(self).storage().directory(),
            old(self).wf() ==> final(self).wf(),
            match value_of(old(self).stats().stats(), merchant.id) {
                Some(s) => {
                    let counted = with_success(s, prepared.request.amount, response.status.label_of());
                    final(self).stats().stats() == StatisticsService::changed(
                        old(self).stats().stats(),
                        merchant.id,
                        with_liquid(counted),
                    ) || final(self).stats().stats() == StatisticsService::changed(
                        old(self).stats().stats(),
                        merchant.id,
                        with_non_liquid(counted),
                    )
                },
                None => final(self).stats().stats() == old(self).stats().stats(),
            },
    {
        let PreparedRequest { request, start_time } = prepared;
        let TransactionResponse {
            id,
            numeric_id,
            amount,
            crypto,
            status,
            trader_id,
            requisites,
            created_at,
            updated_at,
            expired_at,
            method,
            is_mock,
        } = response;
        let transaction = Transaction {
            id,
            numeric_id,
            order_id: request.order_id.clone(),
            amount,
            crypto,
            status,
            trader_id: Some(trader_id),
            requisites: Some(requisites),
            created_at,
            updated_at,
            expired_at,
            method: Some(method),
            is_mock,
            callback_sent: false,
            method_id: request.method_id.clone(),
            rate: request.rate,
        };
        let sent = request.amount;
        let history = TransactionHistory {
            merchant_id: merchant.id,
            transaction: copy_transaction(&transaction),
            request_time: start_time,
            response_time,
            request_body: request,
            response_status: STATUS_CREATED,
            response_body,
            error: None,
        };
        self.storage.add_transaction(history);
        let ghost before = self.stats_service.stats();
        self.stats_service.record_success(merchant.id, sent, &status);
        let liquid = merchant.is_liquid();
        if liquid {
            self.stats_service.record_liquid_transaction(merchant.id);
        } else {
            self.stats_service.record_non_liquid_transaction(merchant.id);
        }
        proof {
            match value_of(before, merchant.id) {
                Some(s) => {
                    let first = with_success(s, sent, status.label_of());
                    lemma_second_change_wins(before, merchant.id, first, with_liquid(first));
                    lemma_second_change_wins(before, merchant.id, first, with_non_liquid(first));
                },
                None => {},
            }
        }
        transaction
    }

    /// Takes in the failure of a request: a cancelled transaction goes into
    /// the history with the request and the error, and the failure is counted
    /// under the category of the error.
    pub fn transaction_failed(
        &mut self,
        merchant: &Merchant,
        prepared: PreparedRequest,
        error: String,
        response_time: i64,
    )
        ensures
            final(self).storage().merchants() == old(self).storage().merchants(),
            final(self).storage().statistics() == old(self).storage().statistics(),
            final(self).storage().directory() == old(self).storage().directory(),
            old(self).wf() ==> final(self).wf(),
            final(self).storage().history().len() == old(self).storage().history().len() + 1,
            final(self).storage().history().drop_last() == old(self).storage().history(),
            ({
                let entry = final(self).storage().history().last();
                &&& entry.merchant_id == merchant.id
                &&& entry.request_time == prepared.start_time
                &&& entry.response_time == response_time
                &&& entry.request_body == prepared.request
                &&& entry.response_status == STATUS_FAILED
                &&& entry.response_body is None
                &&& entry.error == Some(error)
                &&& entry.transaction.status == TransactionStatus::Canceled
                &&& entry.transaction.id@.len() == 0
                &&& entry.transaction.numeric_id == 0
                &&& entry.transaction.order_id == prepared.request.order_id
                &&& entry.transaction.amount == prepared.request.amount
                &&& entry.transaction.method_id == prepared.request.method_id
                &&& entry.transaction.rate == prepared.request.rate
                &&& entry.transaction.expired_at == prepared.request.expired_at
                &&& entry.transaction.is_mock == flag_of(prepared.request.is_mock)
                &&& entry.transaction.created_at@ == time_text_of(prepared.start_time)
                &&& entry.transaction.updated_at@ == time_text_of(response_time)
                &&& entry.transaction.crypto is None
                &&& entry.transaction.trader_id is None
                &&& entry.transaction.requisites is None
                &&& entry.transaction.method is None
                &&& !entry.transaction.callback_sent
            }),
            final(self).stats().stats() == match value_of(old(self).stats().stats(), merchant.id) {
                Some(s) => StatisticsService::changed(
                    old(self).stats().stats(),
                    merchant.id,
                    with_failure(s, error@),
                ),
                None => old(self).stats().stats(),
            },
    {
        let PreparedRequest { request, start_time } = prepared;
        let started = match rfc3339_text(start_time) {
            Some(text) => text,
            None => String::new(),
        };
        let ended = match rfc3339_text(response_time) {
            Some(text) => text,
            None => String::new(),
        };
        let transaction = Transaction {
            id: String::new(),
            numeric_id: 0,
            order_id: request.order_id.clone(),
            amount: request.amount,
            crypto: None,
            status: TransactionStatus::Canceled,
            trader_id: None,
            requisites: None,
            created_at: started,
            updated_at: ended,
            expired_at: request.expired_at.clone(),
            method: None,
            is_mock: match request.is_mock {
                Some(b) => b,
                None => false,
            },
            callback_sent: false,
            method_id: request.method_id.clone(),
            rate: request.rate,
        };
        self.stats_service.record_failure(merchant.id, error.as_str());
        let ghost before = self.storage.history();
        let history = TransactionHistory {
            merchant_id: merchant.id,
            transaction,
            request_time: start_time,
            response_time,
            request_body: request,
            response_status: STATUS_FAILED,
            response_body: None,
            error: Some(error),
        };
        self.storage.add_transaction(history);
        assert(self.storage.history().drop_last() =~= before);
    }

    /// Takes in a callback for the merchant: it is counted, and the answer is
    /// the API key to fetch the transaction with, where the merchant is known.
    pub fn handle_callback(&mut self, merchant_id: u128) -> (api_key: Option<String>)
        ensures
            api_key == match value_of(old(self).storage().merchants(), merchant_id) {
                Some(merchant) => Some(merchant.api_key),
                None => None,
            },
            final(self).storage() == old(self).storage(),
            final(self).stats().stats() == match value_of(old(self).stats().stats(), merchant_id) {
                Some(s) => StatisticsService::changed(
                    old(self).stats().stats(),
                    merchant_id,
                    with_callback(s),
                ),
                None => old(self).stats().stats(),
            },
    {
        self.stats_service.record_callback(merchant_id);
        match self.storage.get_merchant(&merchant_id) {
            Some(merchant) => Some(merchant.api_key.clone()),
            None => None,
        }
    }

    /// Takes in the status of the transaction that a callback was about.
    pub fn callback_status_fetched(&mut self, merchant_id: u128, status: &str)
        ensures
            final(self).storage() == old(self).storage(),
            final(self).stats().stats() == match value_of(old(self).stats().stats(), merchant_id) {
                Some(s) => StatisticsService::changed(
                    old(self).stats().stats(),
                    merchant_id,
                    with_status(s, status@),
                ),
                None => old(self).stats().stats(),
            },
    {
        self.stats_service.update_status(&merchant_id, status);
    }
}

/// A change to a merchant's statistics that follows another one leaves what
/// the second change alone would have left, and after a change the merchant
/// holds what the change put there.
proof fn lemma_second_change_wins(
    entries: Seq<(u128, StatisticsView)>,
    id: u128,
    first: StatisticsView,
    second: StatisticsView,
)
    ensures
        StatisticsService::changed(StatisticsService::changed(entries, id, first), id, second)
            == StatisticsService::changed(entries, id, second),
        value_of(StatisticsService::changed(entries, id, first), id) == match value_of(entries, id) {
            Some(_) => Some(first),
            None => None,
        },
{
    crate::keyed::lemma_first_index_none(entries, id);
    let middle = StatisticsService::changed(entries, id, first);
    match crate::keyed::first_index(entries, id) {
        Some(i) => {
            assert(crate::keyed::is_first_at(middle, id, i)) by {
                assert forall|j: int| 0 <= j < i implies (#[trigger] middle[j]).0 != id by {
                    assert(middle[j] == entries[j]);
                }
            }
            crate::keyed::lemma_first_index_is(middle, id, i);
            assert(middle.update(i, (id, second)) =~= entries.update(i, (id, second)));
        },
        None => {},
    }
}

} // verus!
