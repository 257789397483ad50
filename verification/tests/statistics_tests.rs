use merchant_emulator::merchant::{Merchant, PaymentType};
use merchant_emulator::merchant_service::{
    copy_transaction, MerchantService, PreparedRequest, REQUEST_LIFETIME_MS, STATUS_CREATED,
    STATUS_FAILED,
};
use merchant_emulator::models::{PaymentMethod, TransactionRequisites, TransactionStatus};
use merchant_emulator::statistics::{error_category, Statistics, StatisticsService};
use merchant_emulator::storage::StorageService;
use merchant_emulator::transaction::{
    Transaction, TransactionHistory, TransactionRequest, TransactionResponse,
};

fn merchant(id: u128) -> Merchant {
    Merchant::with_identity(id, 1_700_000_000_000, format!("shop {}", id), format!("key {}", id))
}

fn request(order: &str, amount: u64) -> TransactionRequest {
    TransactionRequest {
        amount,
        order_id: order.to_string(),
        method_id: "m1".to_string(),
        rate: Some(100),
        expired_at: "2030-01-01T00:00:00+00:00".to_string(),
        user_ip: Some("127.0.0.1".to_string()),
        user_id: Some("user_1".to_string()),
        transaction_type: Some("IN".to_string()),
        callback_uri: None,
        success_uri: None,
        fail_uri: None,
        is_mock: Some(true),
    }
}

fn response(id: &str, amount: u64) -> TransactionResponse {
    TransactionResponse {
        id: id.to_string(),
        numeric_id: 17,
        amount,
        crypto: Some(5),
        status: TransactionStatus::InProgress,
        trader_id: "trader".to_string(),
        requisites: TransactionRequisites {
            id: "r".to_string(),
            bank_type: "sber".to_string(),
            card_number: "1111222233334444".to_string(),
            recipient_name: "Ivan".to_string(),
            trader_name: "Petr".to_string(),
        },
        created_at: "c".to_string(),
        updated_at: "u".to_string(),
        expired_at: "e".to_string(),
        method: PaymentMethod {
            id: "m1".to_string(),
            code: "c2c".to_string(),
            name: "Card".to_string(),
            method_type: "c2c".to_string(),
            currency: "rub".to_string(),
        },
        is_mock: true,
    }
}

fn history(merchant_id: u128, order: &str) -> TransactionHistory {
    TransactionHistory {
        merchant_id,
        transaction: Transaction {
            id: order.to_string(),
            numeric_id: 1,
            order_id: order.to_string(),
            amount: 100,
            crypto: None,
            status: TransactionStatus::Created,
            trader_id: None,
            requisites: None,
            created_at: "c".to_string(),
            updated_at: "u".to_string(),
            expired_at: "e".to_string(),
            method: None,
            is_mock: false,
            callback_sent: false,
            method_id: "m".to_string(),
            rate: None,
        },
        request_time: 1,
        response_time: 2,
        request_body: request(order, 100),
        response_status: 201,
        response_body: None,
        error: None,
    }
}

fn breakdown(stats: &Statistics, errors: bool, label: &str) -> Option<u64> {
    let list = if errors { &stats.error_breakdown } else { &stats.status_breakdown };
    list.get(&label.to_string()).copied()
}

#[test]
fn errors_are_sorted_into_categories() {
    assert_eq!(error_category("API error (400): bad"), "Bad Request");
    assert_eq!(error_category("Bad Request"), "Bad Request");
    assert_eq!(error_category("status 401"), "Unauthorized");
    assert_eq!(error_category("Unauthorized key"), "Unauthorized");
    assert_eq!(error_category("403"), "Forbidden");
    assert_eq!(error_category("Forbidden"), "Forbidden");
    assert_eq!(error_category("404 page"), "Not Found");
    assert_eq!(error_category("Not Found"), "Not Found");
    assert_eq!(error_category("code 500"), "Internal Server Error");
    assert_eq!(error_category("Internal Server Error"), "Internal Server Error");
    assert_eq!(error_category("request timeout"), "Timeout");
    assert_eq!(error_category("Timeout reached"), "Timeout");
    assert_eq!(error_category("connection refused"), "Other");
    assert_eq!(error_category(""), "Other");
}

#[test]
fn first_matching_category_wins() {
    assert_eq!(error_category("500 then 400"), "Bad Request");
    assert_eq!(error_category("timeout after 404"), "Not Found");
    assert_eq!(error_category("Forbidden 401"), "Unauthorized");
    assert_eq!(error_category("not found"), "Other");
}

#[test]
fn new_statistics_count_nothing() {
    let stats = Statistics::new(5);
    assert_eq!(stats.merchant_id, 5);
    assert_eq!(stats.total_requests, 0);
    assert_eq!(stats.successful_requests, 0);
    assert_eq!(stats.failed_requests, 0);
    assert_eq!(stats.total_amount, 0);
    assert_eq!(stats.callbacks_received, 0);
    assert_eq!(stats.liquid_transactions, 0);
    assert_eq!(stats.non_liquid_transactions, 0);
    assert_eq!(stats.error_breakdown.len(), 0);
    assert_eq!(stats.status_breakdown.len(), 0);
}

#[test]
fn successes_and_failures_are_counted() {
    let mut stats = Statistics::new(5);
    stats.record_success(1500, &TransactionStatus::Created);
    stats.record_success(2500, &TransactionStatus::Created);
    stats.record_success(10, &TransactionStatus::Ready);
    stats.record_failure("API error (500): boom");
    stats.record_failure("timeout");
    stats.record_failure("Timeout");
    assert_eq!(stats.total_requests, 6);
    assert_eq!(stats.successful_requests, 3);
    assert_eq!(stats.failed_requests, 3);
    assert_eq!(stats.total_amount, 4010);
    assert_eq!(breakdown(&stats, false, "Created"), Some(2));
    assert_eq!(breakdown(&stats, false, "Ready"), Some(1));
    assert_eq!(breakdown(&stats, false, "Expired"), None);
    assert_eq!(breakdown(&stats, true, "Internal Server Error"), Some(1));
    assert_eq!(breakdown(&stats, true, "Timeout"), Some(2));
    assert_eq!(breakdown(&stats, true, "Other"), None);
}

#[test]
fn other_events_are_counted() {
    let mut stats = Statistics::new(5);
    stats.record_callback();
    stats.record_callback();
    stats.record_liquid_transaction();
    stats.record_non_liquid_transaction();
    stats.record_non_liquid_transaction();
    stats.record_non_liquid_transaction();
    stats.update_status("READY");
    stats.update_status("READY");
    assert_eq!(stats.callbacks_received, 2);
    assert_eq!(stats.liquid_transactions, 1);
    assert_eq!(stats.non_liquid_transactions, 3);
    assert_eq!(breakdown(&stats, false, "READY"), Some(2));
    assert_eq!(stats.total_requests, 0);
}

#[test]
fn counters_stop_at_the_largest_number() {
    let mut stats = Statistics::new(5);
    stats.total_amount = u64::MAX - 5;
    stats.total_requests = u64::MAX;
    stats.record_success(10, &TransactionStatus::Created);
    assert_eq!(stats.total_amount, u64::MAX);
    assert_eq!(stats.total_requests, u64::MAX);
    assert_eq!(stats.successful_requests, 1);
}

#[test]
fn status_names_are_the_variant_names() {
    assert_eq!(TransactionStatus::Created.label(), "Created");
    assert_eq!(TransactionStatus::InProgress.label(), "InProgress");
    assert_eq!(TransactionStatus::Ready.label(), "Ready");
    assert_eq!(TransactionStatus::Canceled.label(), "Canceled");
    assert_eq!(TransactionStatus::Expired.label(), "Expired");
    assert_eq!(TransactionStatus::Dispute.label(), "Dispute");
    assert_eq!(TransactionStatus::Paused.label(), "Paused");
    assert_eq!(TransactionStatus::FundsReturned.label(), "FundsReturned");
}

#[test]
fn service_counts_only_for_initialized_merchants() {
    let mut service = StatisticsService::new();
    service.record_callback(1);
    service.record_success(1, 10, &TransactionStatus::Created);
    assert!(service.get_statistics(&1).is_none());
    assert!(!service.has_statistics(&1));
    service.initialize_merchant(1);
    service.initialize_merchant(2);
    service.record_callback(1);
    service.record_success(1, 10, &TransactionStatus::Created);
    service.record_failure(2, "404");
    service.record_liquid_transaction(2);
    service.record_non_liquid_transaction(1);
    service.update_status(&2, "READY");
    let one = service.get_statistics(&1).unwrap();
    assert_eq!(one.callbacks_received, 1);
    assert_eq!(one.total_requests, 1);
    assert_eq!(one.total_amount, 10);
    assert_eq!(one.non_liquid_transactions, 1);
    assert_eq!(one.liquid_transactions, 0);
    let two = service.get_statistics(&2).unwrap();
    assert_eq!(two.failed_requests, 1);
    assert_eq!(two.liquid_transactions, 1);
    assert_eq!(breakdown(two, true, "Not Found"), Some(1));
    assert_eq!(breakdown(two, false, "READY"), Some(1));
    service.initialize_merchant(1);
    assert_eq!(service.get_statistics(&1).unwrap().total_requests, 0);
    assert_eq!(service.get_statistics(&2).unwrap().failed_requests, 1);
}

#[test]
fn storage_keeps_merchants_by_id() {
    let mut storage = StorageService::new("/tmp/data".to_string());
    assert_eq!(storage.data_dir(), "/tmp/data");
    assert!(storage.get_merchant(&1).is_none());
    storage.add_merchant(merchant(1));
    storage.add_merchant(merchant(2));
    assert_eq!(storage.merchant_count(), 2);
    assert_eq!(storage.get_merchant(&2).unwrap().name, "shop 2");
    let mut changed = merchant(1);
    changed.liquidity_percentage = 30;
    storage.update_merchant(changed);
    assert_eq!(storage.merchant_count(), 2);
    assert_eq!(storage.get_merchant(&1).unwrap().liquidity_percentage, 30);
    let all: Vec<u128> = storage.get_all_merchants().iter().map(|m| m.id).collect();
    assert_eq!(all, vec![1, 2]);
}

#[test]
fn storage_loads_merchants_one_per_id() {
    let mut storage = StorageService::new("/tmp/data".to_string());
    storage.add_merchant(merchant(9));
    let mut later = merchant(1);
    later.name = "later".to_string();
    storage.load_merchants(vec![merchant(1), merchant(2), later]);
    assert_eq!(storage.merchant_count(), 2);
    assert!(storage.get_merchant(&9).is_none());
    assert_eq!(storage.get_merchant(&1).unwrap().name, "later");
}

#[test]
fn storage_filters_the_history_by_merchant() {
    let mut storage = StorageService::new("/tmp/data".to_string());
    storage.add_transaction(history(1, "a"));
    storage.add_transaction(history(2, "b"));
    storage.add_transaction(history(1, "c"));
    let of_one: Vec<&str> = storage
        .get_merchant_transactions(&1)
        .iter()
        .map(|h| h.transaction.order_id.as_str())
        .collect();
    assert_eq!(of_one, vec!["a", "c"]);
    assert_eq!(storage.get_merchant_transactions(&2).len(), 1);
    assert!(storage.get_merchant_transactions(&3).is_empty());
    storage.load_transactions(vec![history(3, "z")]);
    assert!(storage.get_merchant_transactions(&1).is_empty());
    assert_eq!(storage.get_merchant_transactions(&3).len(), 1);
}

#[test]
fn storage_keeps_saved_statistics() {
    let mut storage = StorageService::new("/tmp/data".to_string());
    assert!(storage.get_statistics(&1).is_none());
    let mut stats = Statistics::new(1);
    stats.record_callback();
    storage.update_statistics(1, stats);
    assert_eq!(storage.get_statistics(&1).unwrap().callbacks_received, 1);
    storage.update_statistics(1, Statistics::new(1));
    assert_eq!(storage.get_statistics(&1).unwrap().callbacks_received, 0);
}

fn service() -> MerchantService {
    MerchantService::new(StorageService::new("/tmp/data".to_string()), StatisticsService::new())
}

#[test]
fn created_merchant_is_stored_with_fresh_statistics() {
    let mut svc = service();
    let id = svc.create_merchant("shop".to_string(), "key".to_string(), Some(1250));
    let other = svc.create_merchant("other".to_string(), "key2".to_string(), None);
    assert_ne!(id, other);
    let m = svc.get_merchant(&id).unwrap();
    assert_eq!(m.name, "shop");
    assert_eq!(m.api_key, "key");
    assert_eq!(m.balance_usdt, 1250);
    assert_eq!(m.liquidity_percentage, 80);
    assert_eq!(svc.get_merchant(&other).unwrap().balance_usdt, 0);
    assert_eq!(svc.get_all_merchants().len(), 2);
    assert_eq!(svc.statistics().get_statistics(&id).unwrap().total_requests, 0);
    assert_eq!(svc.statistics().get_statistics(&id).unwrap().merchant_id, id);
}

#[test]
fn request_is_built_from_its_parts() {
    let mut m = merchant(1);
    m.callback_url = Some("http://cb".to_string());
    let request = MerchantService::build_request(
        &m,
        5000,
        "m1".to_string(),
        true,
        "order_x".to_string(),
        "user_y".to_string(),
        "later".to_string(),
    );
    assert_eq!(request.amount, 5000);
    assert_eq!(request.order_id, "order_x");
    assert_eq!(request.method_id, "m1");
    assert_eq!(request.rate, Some(100));
    assert_eq!(request.expired_at, "later");
    assert_eq!(request.user_ip, Some("127.0.0.1".to_string()));
    assert_eq!(request.user_id, Some("user_y".to_string()));
    assert_eq!(request.transaction_type, Some("IN".to_string()));
    assert_eq!(request.callback_uri, Some("http://cb".to_string()));
    assert_eq!(request.success_uri, None);
    assert_eq!(request.fail_uri, None);
    assert_eq!(request.is_mock, Some(true));
    m.payment_type = PaymentType::UsdtTrc20;
    let request = MerchantService::build_request(
        &m,
        1,
        "m".to_string(),
        false,
        "o".to_string(),
        "u".to_string(),
        "e".to_string(),
    );
    assert_eq!(request.rate, Some(9500));
    assert_eq!(request.is_mock, Some(false));
}

#[test]
fn prepared_request_expires_a_day_after_it_was_prepared() {
    let m = merchant(1);
    let prepared = MerchantService::prepare_transaction(&m, 777, "m1".to_string(), false).unwrap();
    assert!(prepared.start_time > 1_600_000_000_000);
    assert_eq!(REQUEST_LIFETIME_MS, 24 * 60 * 60 * 1000);
    let expires = chrono::DateTime::parse_from_rfc3339(&prepared.request.expired_at).unwrap();
    assert_eq!(expires.timestamp_millis(), prepared.start_time + REQUEST_LIFETIME_MS);
    assert_eq!(prepared.request.amount, 777);
    assert_eq!(prepared.request.method_id, "m1");
    assert!(prepared.request.order_id.starts_with("order_"));
    assert_eq!(prepared.request.order_id.len(), 6 + 36);
    let user = prepared.request.user_id.clone().unwrap();
    assert!(user.starts_with("user_"));
    assert_eq!(user.len(), 5 + 36);
    assert_ne!(&user[5..], &prepared.request.order_id[6..]);
    let again = MerchantService::prepare_transaction(&m, 777, "m1".to_string(), false).unwrap();
    assert_ne!(again.request.order_id, prepared.request.order_id);
}

#[test]
fn created_transaction_is_recorded() {
    let mut svc = service();
    let id = svc.create_merchant("shop".to_string(), "key".to_string(), None);
    let m = merchant(id);
    let prepared = PreparedRequest { request: request("order_1", 4000), start_time: 10 };
    let transaction =
        svc.transaction_created(&m, prepared, response("tx1", 4000), Some("{}".to_string()), 20);
    assert_eq!(transaction.id, "tx1");
    assert_eq!(transaction.numeric_id, 17);
    assert_eq!(transaction.order_id, "order_1");
    assert_eq!(transaction.amount, 4000);
    assert_eq!(transaction.crypto, Some(5));
    assert_eq!(transaction.status, TransactionStatus::InProgress);
    assert_eq!(transaction.trader_id, Some("trader".to_string()));
    assert_eq!(transaction.requisites.as_ref().unwrap().card_number, "1111222233334444");
    assert_eq!(transaction.method.as_ref().unwrap().code, "c2c");
    assert_eq!(transaction.method_id, "m1");
    assert_eq!(transaction.rate, Some(100));
    assert!(transaction.is_mock);
    assert!(!transaction.callback_sent);
    let entries = svc.store().get_merchant_transactions(&id);
    assert_eq!(entries.len(), 1);
    assert_eq!(entries[0].response_status, 201);
    assert_eq!(STATUS_CREATED, 201);
    assert_eq!(entries[0].request_time, 10);
    assert_eq!(entries[0].response_time, 20);
    assert_eq!(entries[0].response_body, Some("{}".to_string()));
    assert_eq!(entries[0].error, None);
    assert_eq!(entries[0].transaction.id, "tx1");
    assert_eq!(entries[0].request_body.order_id, "order_1");
    let stats = svc.statistics().get_statistics(&id).unwrap();
    assert_eq!(stats.total_requests, 1);
    assert_eq!(stats.successful_requests, 1);
    assert_eq!(stats.total_amount, 4000);
    assert_eq!(stats.liquid_transactions + stats.non_liquid_transactions, 1);
    assert_eq!(breakdown(stats, false, "InProgress"), Some(1));
}

#[test]
fn failed_transaction_is_recorded_as_cancelled() {
    let mut svc = service();
    let id = svc.create_merchant("shop".to_string(), "key".to_string(), None);
    let m = merchant(id);
    let prepared = PreparedRequest { request: request("order_2", 900), start_time: 1_700_000_000_000 };
    svc.transaction_failed(&m, prepared, "API error (401): no".to_string(), 1_700_000_000_250);
    let entries = svc.store().get_merchant_transactions(&id);
    assert_eq!(entries.len(), 1);
    let entry = entries[0];
    assert_eq!(entry.response_status, 500);
    assert_eq!(STATUS_FAILED, 500);
    assert_eq!(entry.response_body, None);
    assert_eq!(entry.error, Some("API error (401): no".to_string()));
    assert_eq!(entry.transaction.id, "");
    assert_eq!(entry.transaction.numeric_id, 0);
    assert_eq!(entry.transaction.status, TransactionStatus::Canceled);
    assert_eq!(entry.transaction.order_id, "order_2");
    assert_eq!(entry.transaction.amount, 900);
    assert!(entry.transaction.is_mock);
    assert_eq!(entry.transaction.expired_at, "2030-01-01T00:00:00+00:00");
    let started = chrono::DateTime::parse_from_rfc3339(&entry.transaction.created_at).unwrap();
    assert_eq!(started.timestamp_millis(), 1_700_000_000_000);
    let ended = chrono::DateTime::parse_from_rfc3339(&entry.transaction.updated_at).unwrap();
    assert_eq!(ended.timestamp_millis(), 1_700_000_000_250);
    let stats = svc.statistics().get_statistics(&id).unwrap();
    assert_eq!(stats.total_requests, 1);
    assert_eq!(stats.failed_requests, 1);
    assert_eq!(stats.successful_requests, 0);
    assert_eq!(breakdown(stats, true, "Unauthorized"), Some(1));
}

#[test]
fn callback_is_counted_and_answers_with_the_api_key() {
    let mut svc = service();
    let id = svc.create_merchant("shop".to_string(), "secret".to_string(), None);
    assert_eq!(svc.handle_callback(id), Some("secret".to_string()));
    assert_eq!(svc.handle_callback(id + 1), None);
    svc.callback_status_fetched(id, "READY");
    let stats = svc.statistics().get_statistics(&id).unwrap();
    assert_eq!(stats.callbacks_received, 1);
    assert_eq!(breakdown(stats, false, "READY"), Some(1));
}

#[test]
fn updated_merchant_replaces_the_stored_one() {
    let mut svc = service();
    let id = svc.create_merchant("shop".to_string(), "key".to_string(), None);
    let mut changed = merchant(id);
    changed.liquidity_percentage = 10;
    svc.update_merchant(changed);
    assert_eq!(svc.get_merchant(&id).unwrap().liquidity_percentage, 10);
    assert_eq!(svc.get_all_merchants().len(), 1);
}

#[test]
fn transaction_copy_equals_what_was_copied() {
    let source = history(1, "a").transaction;
    let copy = copy_transaction(&source);
    assert_eq!(copy.id, source.id);
    assert_eq!(copy.order_id, source.order_id);
    assert_eq!(copy.amount, source.amount);
    assert_eq!(copy.status, source.status);
    assert_eq!(copy.method_id, source.method_id);
}

#[test]
fn request_prepared_at_a_given_moment_is_exact() {
    let mut m = merchant(1);
    m.callback_url = Some("http://cb".to_string());
    let p = MerchantService::prepare_at(
        &m,
        777,
        "m1".to_string(),
        true,
        1_700_000_000_000,
        0x0123456789abcdef0123456789abcdef,
        1,
    )
    .unwrap();
    assert_eq!(p.start_time, 1_700_000_000_000);
    assert_eq!(p.request.order_id, "order_01234567-89ab-cdef-0123-456789abcdef");
    assert_eq!(
        p.request.user_id,
        Some("user_00000000-0000-0000-0000-000000000001".to_string())
    );
    assert_eq!(p.request.expired_at, "2023-11-15T22:13:20+00:00");
    assert_eq!(p.request.amount, 777);
    assert_eq!(p.request.method_id, "m1");
    assert_eq!(p.request.rate, Some(100));
    assert_eq!(p.request.user_ip, Some("127.0.0.1".to_string()));
    assert_eq!(p.request.transaction_type, Some("IN".to_string()));
    assert_eq!(p.request.callback_uri, Some("http://cb".to_string()));
    assert_eq!(p.request.is_mock, Some(true));
}

#[test]
fn no_request_is_prepared_where_the_expiry_cannot_be_written() {
    let m = merchant(1);
    assert!(MerchantService::prepare_at(&m, 1, "m".to_string(), false, i64::MAX, 1, 2).is_none());
    assert!(MerchantService::prepare_at(
        &m,
        1,
        "m".to_string(),
        false,
        i64::MAX - REQUEST_LIFETIME_MS,
        1,
        2
    )
    .is_none());
    assert!(MerchantService::prepare_at(&m, 1, "m".to_string(), false, 0, 1, 2).is_some());
    assert!(MerchantService::prepare_at(&m, 1, "m".to_string(), false, -1, 1, 2).is_some());
}

#[test]
fn failed_transaction_at_a_moment_that_cannot_be_written_has_empty_times() {
    let mut svc = service();
    let id = svc.create_merchant("shop".to_string(), "key".to_string(), None);
    let m = merchant(id);
    let prepared = PreparedRequest { request: request("order_3", 5), start_time: i64::MAX };
    svc.transaction_failed(&m, prepared, "boom".to_string(), 0);
    let entries = svc.store().get_merchant_transactions(&id);
    assert_eq!(entries.len(), 1);
    assert_eq!(entries[0].transaction.created_at, "");
    assert_eq!(entries[0].transaction.updated_at, "1970-01-01T00:00:00+00:00");
    assert_eq!(entries[0].request_time, i64::MAX);
    assert_eq!(entries[0].transaction.crypto, None);
    assert_eq!(entries[0].transaction.trader_id, None);
    assert!(entries[0].transaction.requisites.is_none());
    assert!(entries[0].transaction.method.is_none());
    assert!(!entries[0].transaction.callback_sent);
}

#[test]
fn recording_a_transaction_leaves_saved_statistics_and_directory_alone() {
    let mut storage = StorageService::new("/tmp/data".to_string());
    let mut saved = Statistics::new(7);
    saved.record_callback();
    storage.update_statistics(7, saved);
    let mut svc = MerchantService::new(storage, StatisticsService::new());
    let id = svc.create_merchant("shop".to_string(), "key".to_string(), None);
    let m = merchant(id);
    let prepared = PreparedRequest { request: request("order_1", 4000), start_time: 10 };
    svc.transaction_created(&m, prepared, response("tx1", 4000), None, 20);
    let prepared = PreparedRequest { request: request("order_2", 4000), start_time: 10 };
    svc.transaction_failed(&m, prepared, "boom".to_string(), 20);
    assert_eq!(svc.store().data_dir(), "/tmp/data");
    assert_eq!(svc.store().get_statistics(&7).unwrap().callbacks_received, 1);
    assert_eq!(svc.store().get_all_statistics().len(), 1);
    assert_eq!(svc.store().merchant_count(), 1);
}
