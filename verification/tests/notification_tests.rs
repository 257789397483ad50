use merchant_emulator::device::Device;
use merchant_emulator::device_notification_service::{
    DeviceNotificationService, TestNotificationError, PAYMENT_PRIORITY,
};
use merchant_emulator::device_store::DeviceManager;
use merchant_emulator::merchant::Merchant;
use merchant_emulator::models::{TransactionRequisites, TransactionStatus};
use merchant_emulator::money::to_hundredths;
use merchant_emulator::notifications::NotificationGenerator;
use merchant_emulator::transaction::Transaction;

fn transaction(trader: Option<&str>, bank_type: Option<&str>, amount: u64) -> Transaction {
    Transaction {
        id: "tx".to_string(),
        numeric_id: 1,
        order_id: "order".to_string(),
        amount,
        crypto: None,
        status: TransactionStatus::Created,
        trader_id: trader.map(|t| t.to_string()),
        requisites: bank_type.map(|b| TransactionRequisites {
            id: "r".to_string(),
            bank_type: b.to_string(),
            card_number: "2200111122223456".to_string(),
            recipient_name: "Ivan".to_string(),
            trader_name: "Petr".to_string(),
        }),
        created_at: "c".to_string(),
        updated_at: "u".to_string(),
        expired_at: "e".to_string(),
        method: None,
        is_mock: false,
        callback_sent: false,
        method_id: "m".to_string(),
        rate: None,
    }
}

fn store() -> DeviceManager {
    let mut store = DeviceManager::new("/tmp/data".to_string());
    store.load_devices(vec![
        Device::with_identity("a".to_string(), 1, "a".to_string()),
        Device::with_identity("b".to_string(), 1, "b".to_string()),
        Device::with_identity("c".to_string(), 1, "c".to_string()),
    ]);
    for id in ["a", "b", "c"] {
        assert!(store.link_device_to_trader(&id.to_string(), &"trader".to_string()).is_ok());
    }
    assert!(store
        .connect_device_at(&"a".to_string(), "code".to_string(), "tok-a".to_string(), 1)
        .is_ok());
    assert!(store
        .connect_device_at(&"c".to_string(), "code".to_string(), "tok-c".to_string(), 1)
        .is_ok());
    store
}

#[test]
fn bank_notification_uses_the_template_of_the_bank() {
    let n = NotificationGenerator::bank_notification_at(5000, "Сбербанк", None, 77);
    assert_eq!(n.package_name, "ru.sberbankmobile");
    assert_eq!(n.app_name, "900");
    assert_eq!(n.title, "900");
    assert_eq!(
        n.content,
        "СЧЁТ*1234 12:34 зачислен перевод по СБП 5000р из ТИНЬКОФФ БАНК Иван Иванов Баланс: 50000р"
    );
    assert_eq!(n.timestamp, 77);
    assert_eq!(n.priority, 1);
    assert_eq!(n.category, "transaction");
    let n = NotificationGenerator::bank_notification_at(150, "Тинькофф", None, 1);
    assert_eq!(n.package_name, "com.idamob.tinkoff.android");
    assert_eq!(n.app_name, "T-Bank");
    assert_eq!(n.content, "Пополнение, счет RUB. 150 RUB. Иван И. Доступно 50000 RUB");
    let n = NotificationGenerator::bank_notification_at(150, "ВТБ", None, 1);
    assert_eq!(n.package_name, "ru.vtb24.mobilebanking.android");
    assert_eq!(n.title, "VTB");
    assert_eq!(n.content, "Поступление 150р Счет*1234 SBP Баланс 50000р 12:34");
    let n = NotificationGenerator::bank_notification_at(150, "Альфа-Банк", None, 1);
    assert_eq!(n.package_name, "ru.alfabank.mobile.android");
    assert_eq!(n.title, "Alfa-Bank");
    assert_eq!(n.content, "Пополнение *1234 на 150 RUR Баланс: 50000 RUR");
    let n = NotificationGenerator::bank_notification_at(0, "Газпромбанк", None, 1);
    assert_eq!(n.package_name, "ru.gazprombank.android.mobilebank.app");
    assert_eq!(n.title, "Gazprombank");
    assert_eq!(n.content, "*5678 Получен перевод 0р SBP C2C ZACHISLENIE Доступно 50000р");
}

#[test]
fn unknown_bank_reports_through_the_messaging_app() {
    let n = NotificationGenerator::bank_notification_at(u32::MAX, "Другой", None, 1);
    assert_eq!(n.package_name, "com.android.messaging");
    assert_eq!(n.app_name, "Другой");
    assert_eq!(n.title, "Другой");
    assert_eq!(n.content, "Пополнение на сумму 4294967295 руб.");
}

#[test]
fn custom_message_replaces_the_text_of_the_bank() {
    let n = NotificationGenerator::bank_notification_at(
        5000,
        "Сбербанк",
        Some("hello".to_string()),
        1,
    );
    assert_eq!(n.content, "hello");
    assert_eq!(n.package_name, "ru.sberbankmobile");
}

#[test]
fn bank_notification_is_stamped_with_the_current_time() {
    let n = NotificationGenerator::generate_bank_notification(10, "ВТБ", None);
    assert!(n.timestamp > 1_600_000_000_000);
    assert_eq!(n.content, "Поступление 10р Счет*1234 SBP Баланс 50000р 12:34");
}

#[test]
fn random_notifications_come_in_the_number_asked_for() {
    assert!(NotificationGenerator::generate_random_notifications(0).is_empty());
    let batch = NotificationGenerator::generate_random_notifications(300);
    assert_eq!(batch.len(), 300);
    let mut categories = std::collections::BTreeSet::new();
    for n in &batch {
        let expected = match n.category.as_str() {
            "msg" | "transaction" => 1,
            "email" | "system" => 0,
            other => panic!("unexpected category {}", other),
        };
        assert_eq!(n.priority, expected);
        assert!(!n.package_name.is_empty());
        assert!(!n.title.is_empty());
        assert!(!n.content.is_empty());
        assert!(n.timestamp > 1_600_000_000_000);
        categories.insert(n.category.clone());
    }
    assert_eq!(categories.len(), 4);
}

#[test]
fn bank_types_have_display_names() {
    for (bank_type, name) in [
        ("sber", "Сбербанк"),
        ("sberbank", "Сбербанк"),
        ("tbank", "Тинькофф"),
        ("alpha", "Альфа-Банк"),
        ("vtb", "ВТБ"),
        ("raiff", "Райффайзен"),
        ("openbank", "Открытие"),
        ("gazprom", "Газпромбанк"),
        ("ozonbank", "Озон Банк"),
        ("otp", "ОТП Банк"),
        ("promsvyazbank", "ПСБ"),
        ("dom.rf", "ДОМ.РФ"),
        ("mts", "МТС Банк"),
        ("ubrr", "УралСиб"),
        ("pochtabank", "Почта Банк"),
        ("bankspb", "Банк СПб"),
        ("rnkb", "РНКБ"),
        ("rosselhoz", "Россельхозбанк"),
        ("home", "Хоум Кредит"),
        ("unknown", "Банк"),
        ("", "Банк"),
        ("SBER", "Банк"),
    ] {
        assert_eq!(DeviceNotificationService::bank_display_name(bank_type), name);
    }
}

#[test]
fn bank_types_have_packages() {
    assert_eq!(DeviceNotificationService::bank_package("alfa"), "ru.alfabank.mobile.android");
    assert_eq!(DeviceNotificationService::bank_package("bspb"), "com.bssys.bspb");
    assert_eq!(DeviceNotificationService::bank_package("rshb"), "ru.rshb.mbank");
    assert_eq!(DeviceNotificationService::bank_package("alpha"), "com.bank.app");
    assert_eq!(DeviceNotificationService::bank_package("whatever"), "com.bank.app");
}

#[test]
fn card_shows_its_last_four_characters() {
    assert_eq!(DeviceNotificationService::card_last_digits("2200111122223456"), "3456");
    assert_eq!(DeviceNotificationService::card_last_digits("3456"), "3456");
    assert_eq!(DeviceNotificationService::card_last_digits("12345"), "2345");
    assert_eq!(DeviceNotificationService::card_last_digits("12"), "12");
    assert_eq!(DeviceNotificationService::card_last_digits(""), "");
    assert_eq!(DeviceNotificationService::card_last_digits("карта№7"), "та№7");
}

#[test]
fn payment_notifications_are_worded_by_bank() {
    let n = DeviceNotificationService::payment_notification("sber", "3456", 150050, "01.02.24", 9);
    assert_eq!(n.package_name, "ru.sberbankmobile");
    assert_eq!(n.app_name, "СберБанк");
    assert_eq!(n.title, "900");
    assert_eq!(n.content, "СЧЁТ*3456 01.02.24 зачислен перевод 1500р. Баланс: 2500.50р");
    assert_eq!(n.timestamp, 9);
    assert_eq!(n.priority, 2);
    assert_eq!(PAYMENT_PRIORITY, 2);
    assert_eq!(n.category, "transaction");
    let n = DeviceNotificationService::payment_notification("tbank", "3456", 100000, "d", 9);
    assert_eq!(n.content, "Пополнение, счет RUB. 1000 RUB. Доступно 1500.00 RUB");
    let n = DeviceNotificationService::payment_notification("otp", "3456", 100000, "d", 9);
    assert_eq!(n.title, "OTP Bank");
    assert_eq!(n.content, "Счет *3456 зачисление 1000р. Доступно 1755.03р. otpbank.ru/tr");
    let n = DeviceNotificationService::payment_notification("mtsbank", "3456", 100000, "d", 9);
    assert_eq!(
        n.content,
        "Перевод на карту 1000.00 RUB PEREVOD DR BANK Остаток: 1122.50 RUB; *3456"
    );
    let n = DeviceNotificationService::payment_notification("domrf", "3456", 100000, "d", 9);
    assert_eq!(n.package_name, "ru.domrf.mobile");
    assert_eq!(
        n.content,
        "Пополнение +1000.00 RUB на счет **3456 успешно. Доступно 2612.00 RUB"
    );
}

#[test]
fn other_banks_share_the_default_wording() {
    let n = DeviceNotificationService::payment_notification("vtb", "3456", 123456, "d", 9);
    assert_eq!(n.package_name, "ru.vtb24.mobilebanking.android");
    assert_eq!(n.app_name, "ВТБ");
    assert_eq!(n.title, "ВТБ Online");
    assert_eq!(n.content, "Пополнение +1234.56 ₽\nКарта *3456");
    let n = DeviceNotificationService::payment_notification("nobody", "****", 100, "d", 9);
    assert_eq!(n.package_name, "com.bank.app");
    assert_eq!(n.app_name, "Банк");
    assert_eq!(n.title, "Банк Online");
    assert_eq!(n.content, "Пополнение +1.00 ₽\nКарта *****");
}

#[test]
fn test_notifications_recognise_a_bank_in_any_case() {
    let n = DeviceNotificationService::test_notification("SBER", 100000, "01.02.24", "10:30", 9);
    assert_eq!(n.package_name, "ru.sberbankmobile");
    assert_eq!(n.content, "СЧЁТ*1234 01.02.24 зачислен перевод 1000р. Баланс: 2000.00р");
    let n = DeviceNotificationService::test_notification("Сбербанк", 100000, "01.02.24", "10:30", 9);
    assert_eq!(n.app_name, "СберБанк");
    let n = DeviceNotificationService::test_notification("ВТБ", 100000, "d", "10:30", 9);
    assert_eq!(n.title, "ВТБ Online");
    assert_eq!(n.content, "Карта *1234. Зачисление 1000.00 RUB. Баланс: 3000.00 RUB");
    let n = DeviceNotificationService::test_notification("spb", 100049, "d", "10:30", 9);
    assert_eq!(n.title, "BankSPB");
    assert_eq!(n.content, "*0977 Зачислен перевод по СБП 1000RUB 10:30");
    let n = DeviceNotificationService::test_notification("uralsib", 100000, "d", "t", 9);
    assert_eq!(n.content, "Пополнение *2301 Сумма 1000.00 р Остаток 1663.20 р");
    assert_eq!(n.priority, 2);
    assert_eq!(n.timestamp, 9);
}

#[test]
fn test_notification_for_an_unknown_bank_is_built_from_its_name() {
    let n = DeviceNotificationService::test_notification("My Bank", 250, "d", "t", 9);
    assert_eq!(n.package_name, "com.mybank.app");
    assert_eq!(n.app_name, "My Bank");
    assert_eq!(n.title, "My Bank Online");
    assert_eq!(n.content, "Пополнение +2.50 ₽");
}

#[test]
fn delivery_goes_to_the_connected_devices_of_the_trader() {
    let store = store();
    let tx = transaction(Some("trader"), Some("sber"), 1500);
    let delivery =
        DeviceNotificationService::plan_delivery(&store, true, &tx, "01.02.24", 5).unwrap();
    let targets: Vec<(String, String)> =
        delivery.targets.into_iter().map(|t| (t.device_id, t.token)).collect();
    assert_eq!(
        targets,
        vec![("a".to_string(), "tok-a".to_string()), ("c".to_string(), "tok-c".to_string())]
    );
    assert_eq!(
        delivery.notification.content,
        "СЧЁТ*3456 01.02.24 зачислен перевод 1500р. Баланс: 2500.00р"
    );
    assert_eq!(delivery.notification.timestamp, 5);
}

#[test]
fn nothing_is_delivered_for_a_mock_or_without_trader_or_devices() {
    let store = store();
    let tx = transaction(Some("trader"), Some("sber"), 150000);
    assert!(DeviceNotificationService::plan_delivery(&store, false, &tx, "d", 5).is_none());
    let tx = transaction(None, Some("sber"), 150000);
    assert!(DeviceNotificationService::plan_delivery(&store, true, &tx, "d", 5).is_none());
    let tx = transaction(Some("stranger"), Some("sber"), 150000);
    assert!(DeviceNotificationService::plan_delivery(&store, true, &tx, "d", 5).is_none());
}

#[test]
fn transaction_without_requisites_gets_the_default_wording() {
    let store = store();
    let tx = transaction(Some("trader"), None, 100);
    let delivery = DeviceNotificationService::plan_delivery(&store, true, &tx, "d", 5).unwrap();
    assert_eq!(delivery.notification.package_name, "com.bank.app");
    assert_eq!(delivery.notification.app_name, "Банк");
    assert_eq!(delivery.notification.title, "Банк Online");
    assert_eq!(delivery.notification.content, "Пополнение +100.00 ₽\nКарта *****");
}

#[test]
fn fully_liquid_merchant_always_gets_its_delivery() {
    let store = store();
    let mut merchant = Merchant::with_identity(1, 1, "m".to_string(), "k".to_string());
    merchant.liquidity_percentage = 100;
    let tx = transaction(Some("trader"), Some("tinkoff"), 5000);
    for _ in 0..50 {
        let delivery =
            DeviceNotificationService::send_transaction_notification(&store, &merchant, &tx)
                .unwrap();
        assert_eq!(delivery.targets.len(), 2);
        assert_eq!(delivery.notification.package_name, "com.idamob.tinkoff.android");
        assert_eq!(delivery.notification.app_name, "T-Bank");
        assert_eq!(delivery.notification.title, "T-Bank");
        assert_eq!(
            delivery.notification.content,
            "Пополнение, счет RUB. 5000 RUB. Доступно 5500.00 RUB"
        );
        assert!(delivery.notification.timestamp > 1_600_000_000_000);
    }
    let tx = transaction(None, Some("tinkoff"), 5000);
    assert!(DeviceNotificationService::send_transaction_notification(&store, &merchant, &tx)
        .is_none());
}

#[test]
fn sber_delivery_carries_the_day_of_today() {
    let store = store();
    let mut merchant = Merchant::with_identity(1, 1, "m".to_string(), "k".to_string());
    merchant.liquidity_percentage = 100;
    let tx = transaction(Some("trader"), Some("sber"), 1000);
    let delivery =
        DeviceNotificationService::send_transaction_notification(&store, &merchant, &tx).unwrap();
    let content = delivery.notification.content;
    assert!(content.starts_with("СЧЁТ*3456 "));
    assert!(content.ends_with(" зачислен перевод 1000р. Баланс: 2000.00р"));
    let date: String = content.chars().skip(10).take(8).collect();
    let bytes = date.as_bytes();
    assert_eq!(bytes.len(), 8);
    assert_eq!(bytes[2], b'.');
    assert_eq!(bytes[5], b'.');
    for i in [0usize, 1, 3, 4, 6, 7] {
        assert!(bytes[i].is_ascii_digit());
    }
}

#[test]
fn test_notification_needs_a_connected_device_with_a_token() {
    let mut store = store();
    let sent = DeviceNotificationService::send_test_notification(
        &store,
        &"a".to_string(),
        "tinkoff",
        100000,
    )
    .unwrap();
    assert_eq!(sent.0, "tok-a");
    assert_eq!(sent.1.package_name, "com.idamob.tinkoff.android");
    assert_eq!(sent.1.app_name, "T-Bank");
    assert_eq!(sent.1.title, "T-Bank");
    assert_eq!(sent.1.content, "Пополнение, счет RUB. 1000 RUB. Доступно 1500.00 RUB");
    let missing = DeviceNotificationService::send_test_notification(
        &store,
        &"x".to_string(),
        "tinkoff",
        1,
    );
    assert_eq!(missing.err(), Some(TestNotificationError::DeviceNotFound));
    let offline = DeviceNotificationService::send_test_notification(
        &store,
        &"b".to_string(),
        "tinkoff",
        1,
    );
    assert_eq!(offline.err(), Some(TestNotificationError::NotConnected));
    let mut tokenless = Device::with_identity("d".to_string(), 1, "d".to_string());
    tokenless.is_connected = true;
    store.load_devices(vec![tokenless]);
    let without = DeviceNotificationService::send_test_notification(
        &store,
        &"d".to_string(),
        "tinkoff",
        1,
    );
    assert_eq!(without.err(), Some(TestNotificationError::NoToken));
    assert_eq!(TestNotificationError::DeviceNotFound.message(), "Device not found");
    assert_eq!(TestNotificationError::NotConnected.message(), "Device is not connected");
    assert_eq!(TestNotificationError::NoToken.message(), "Device has no token");
}

#[test]
fn spb_test_notification_carries_the_hour_of_now() {
    let store = store();
    let sent =
        DeviceNotificationService::send_test_notification(&store, &"a".to_string(), "bspb", 100)
            .unwrap();
    let content = sent.1.content;
    assert!(content.starts_with("*0977 Зачислен перевод по СБП 1RUB "));
    let clock: String = content.chars().rev().take(5).collect::<String>().chars().rev().collect();
    let bytes = clock.as_bytes();
    assert_eq!(bytes[2], b':');
    assert!(bytes[0].is_ascii_digit() && bytes[1].is_ascii_digit());
    assert!(bytes[3].is_ascii_digit() && bytes[4].is_ascii_digit());
}

#[test]
fn random_bank_notifications_print_the_wall_clock() {
    let batch = NotificationGenerator::generate_random_notifications(600);
    let mut seen = 0;
    for n in batch {
        if n.category == "transaction" {
            assert!(!n.content.contains('%'));
        }
        if n.category == "transaction" && n.package_name == "ru.vtb24.mobilebanking.android" {
            let clock: String =
                n.content.chars().rev().take(5).collect::<String>().chars().rev().collect();
            let bytes = clock.as_bytes();
            assert_eq!(bytes.len(), 5);
            assert_eq!(bytes[2], b':');
            assert!(bytes[0].is_ascii_digit() && bytes[1].is_ascii_digit());
            assert!(bytes[3].is_ascii_digit() && bytes[4].is_ascii_digit());
            assert!(n.content.starts_with("Поступление "));
            seen += 1;
        }
    }
    assert!(seen > 0);
}

#[test]
fn otp_transaction_is_delivered_in_the_wording_of_the_bank() {
    let mut store = DeviceManager::new("/tmp/data".to_string());
    store.load_devices(vec![Device::with_identity("a".to_string(), 1, "a".to_string())]);
    assert!(store.link_device_to_trader(&"a".to_string(), &"t1".to_string()).is_ok());
    assert!(store
        .connect_device_at(&"a".to_string(), "code".to_string(), "tok".to_string(), 1)
        .is_ok());
    let mut merchant = Merchant::with_identity(1, 1, "m".to_string(), "k".to_string());
    merchant.liquidity_percentage = 100;
    let mut tx = transaction(Some("t1"), Some("otp"), 1000);
    tx.requisites.as_mut().unwrap().card_number = "2200123456789012".to_string();
    let delivery =
        DeviceNotificationService::send_transaction_notification(&store, &merchant, &tx).unwrap();
    assert_eq!(delivery.targets.len(), 1);
    assert_eq!(delivery.targets[0].device_id, "a");
    assert_eq!(delivery.targets[0].token, "tok");
    let n = delivery.notification;
    assert_eq!(n.package_name, "ru.otpbank");
    assert_eq!(n.app_name, "ОТП Банк");
    assert_eq!(n.title, "OTP Bank");
    assert_eq!(n.content, "Счет *9012 зачисление 1000р. Доступно 1755.03р. otpbank.ru/tr");
    assert_eq!(n.priority, 2);
    assert_eq!(n.category, "transaction");
}

#[test]
fn amounts_of_transactions_are_worded_as_whole_units() {
    assert_eq!(to_hundredths(0), 0);
    assert_eq!(to_hundredths(1000), 100_000);
    assert_eq!(to_hundredths(u64::MAX / 100), (u64::MAX / 100) * 100);
    assert_eq!(to_hundredths(u64::MAX / 100 + 1), u64::MAX);
    assert_eq!(to_hundredths(u64::MAX), u64::MAX);
}
