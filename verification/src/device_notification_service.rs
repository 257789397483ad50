//! Notifications raised for the devices of a trader when a transaction comes
//! in, and test notifications for a single device. Each bank words its
//! message in its own way; the texts here follow the banks' own.
//!
//! A notification is worded for an amount in hundredths. A transaction holds
//! its amount in whole units, which `plan_delivery` converts.

use crate::device::Device;
use crate::device_store::{devices_of_trader, DeviceManager};
use crate::identity::{now_millis, utc_time_text};
use crate::keyed::value_of;
use crate::merchant::Merchant;
use crate::models::NotificationRequest;
use crate::money::{
    hundredths_of, money_of, money_text, raise, raised_by, to_hundredths, whole_money_of,
    whole_money_text,
};
use crate::text::{joined, lowercase_text, lowercased, replace_all, replaced, same_text};
use crate::transaction::Transaction;
use vstd::prelude::*;

verus! {

/// Priority of a notification about a payment.
pub const PAYMENT_PRIORITY: i32 = 2;

/// Number of characters of a card number that a notification shows.
pub const SHOWN_DIGITS: usize = 4;

/// A device that a notification goes to, and the token to send it under.
#[derive(Debug)]
pub struct DeviceTarget {
    pub device_id: String,
    pub token: String,
}

/// A notification and the devices it goes to.
#[derive(Debug)]
pub struct Delivery {
    pub notification: NotificationRequest,
    pub targets: Vec<DeviceTarget>,
}

/// Why a test notification cannot be sent.
#[derive(Debug, Clone, Copy, PartialEq, Eq, Structural)]
pub enum TestNotificationError {
    /// The store holds no device with the given id.
    DeviceNotFound,
    /// The device is not connected.
    NotConnected,
    /// The device has no token.
    NoToken,
}

impl TestNotificationError {
    /// The message shown to the operator.
    pub fn message(&self) -> (text: String)
        ensures
            text@ == match self {
                TestNotificationError::DeviceNotFound => "Device not found"@,
                TestNotificationError::NotConnected => "Device is not connected"@,
                TestNotificationError::NoToken => "Device has no token"@,
            },
    {
        match self {
            TestNotificationError::DeviceNotFound => "Device not found".to_owned(),
            TestNotificationError::NotConnected => "Device is not connected".to_owned(),
            TestNotificationError::NoToken => "Device has no token".to_owned(),
        }
    }
}

/// What a notification says apart from its time.
pub struct Wording {
    pub package: Seq<char>,
    pub app_name: Seq<char>,
    pub title: Seq<char>,
    pub content: Seq<char>,
}

/// The name a bank is shown under, by the bank type of a card.
pub open spec fn display_name_of(bank_type: Seq<char>) -> Seq<char> {
    if bank_type == "sber"@ || bank_type == "sberbank"@ {
        "Сбербанк"@
    } else if bank_type == "tinkoff"@ || bank_type == "t-bank"@ || bank_type == "tbank"@ {
        "Тинькофф"@
    } else if bank_type == "alfa"@ || bank_type == "alfabank"@ || bank_type == "alpha"@ {
        "Альфа-Банк"@
    } else if bank_type == "vtb"@ {
        "ВТБ"@
    } else if bank_type == "raiffeisen"@ || bank_type == "raiff"@ {
        "Райффайзен"@
    } else if bank_type == "otkritie"@ || bank_type == "openbank"@ {
        "Открытие"@
    } else if bank_type == "gazprombank"@ || bank_type == "gazprom"@ {
        "Газпромбанк"@
    } else if bank_type == "ozon"@ || bank_type == "ozonbank"@ {
        "Озон Банк"@
    } else if bank_type == "otp"@ || bank_type == "otpbank"@ {
        "ОТП Банк"@
    } else if bank_type == "psb"@ || bank_type == "promsvyazbank"@ {
        "ПСБ"@
    } else if bank_type == "domrf"@ || bank_type == "dom.rf"@ {
        "ДОМ.РФ"@
    } else if bank_type == "mts"@ || bank_type == "mtsbank"@ {
        "МТС Банк"@
    } else if bank_type == "uralsib"@ || bank_type == "ubrr"@ {
        "УралСиб"@
    } else if bank_type == "pochta"@ || bank_type == "pochtabank"@ {
        "Почта Банк"@
    } else if bank_type == "spb"@ || bank_type == "bspb"@ || bank_type == "bankspb"@ {
        "Банк СПб"@
    } else if bank_type == "rnkb"@ {
        "РНКБ"@
    } else if bank_type == "rshb"@ || bank_type == "rosselhoz"@ {
        "Россельхозбанк"@
    } else if bank_type == "homecredit"@ || bank_type == "home"@ {
        "Хоум Кредит"@
    } else {
        "Банк"@
    }
}

/// The app that reports for a bank without wording of its own.
pub open spec fn package_of(bank_type: Seq<char>) -> Seq<char> {
    if bank_type == "alfa"@ || bank_type == "alfabank"@ {
        "ru.alfabank.mobile.android"@
    } else if bank_type == "vtb"@ {
        "ru.vtb24.mobilebanking.android"@
    } else if bank_type == "gazprombank"@ {
        "ru.gazprombank.android.mobilebank.app"@
    } else if bank_type == "ozon"@ {
        "ru.ozon.app.android"@
    } else if bank_type == "psb"@ {
        "ru.psbank.mobile"@
    } else if bank_type == "raiffeisen"@ {
        "ru.raiffeisen.mobile.new"@
    } else if bank_type == "uralsib"@ {
        "ru.uralsib.mobile"@
    } else if bank_type == "pochta"@ {
        "ru.pochta.bank"@
    } else if bank_type == "spb"@ || bank_type == "bspb"@ {
        "com.bssys.bspb"@
    } else if bank_type == "rnkb"@ {
        "com.fakemobile.rnkb"@
    } else if bank_type == "rshb"@ {
        "ru.rshb.mbank"@
    } else {
        "com.bank.app"@
    }
}

/// The last characters of a card number, four at most.
pub open spec fn last_digits_of(card_number: Seq<char>) -> Seq<char> {
    if card_number.len() <= SHOWN_DIGITS {
        card_number
    } else {
        card_number.subrange(card_number.len() - SHOWN_DIGITS, card_number.len() as int)
    }
}

/// The wording of a notification about a payment of `amount` to the card
/// ending in `card` at a bank of the given type, on the day `date`.
pub open spec fn payment_wording(bank_type: Seq<char>, card: Seq<char>, amount: u64, date: Seq<char>)
    -> Wording {
    if bank_type == "sber"@ || bank_type == "sberbank"@ {
        Wording {
            package: "ru.sberbankmobile"@,
            app_name: "СберБанк"@,
            title: "900"@,
            content: "СЧЁТ*"@ + card + " "@ + date + " зачислен перевод "@ + whole_money_of(amount) + "р. Баланс: "@ + money_of(raised_by(amount, 100000)) + "р"@,
        }
    } else if bank_type == "tinkoff"@ || bank_type == "t-bank"@ || bank_type == "tbank"@ {
        Wording {
            package: "com.idamob.tinkoff.android"@,
            app_name: "T-Bank"@,
            title: "T-Bank"@,
            content: "Пополнение, счет RUB. "@ + whole_money_of(amount) + " RUB. Доступно "@ + money_of(raised_by(amount, 50000)) + " RUB"@,
        }
    } else if bank_type == "otp"@ || bank_type == "otpbank"@ {
        Wording {
            package: "ru.otpbank"@,
            app_name: "ОТП Банк"@,
            title: "OTP Bank"@,
            content: "Счет *"@ + card + " зачисление "@ + whole_money_of(amount) + "р. Доступно "@ + money_of(raised_by(amount, 75503)) + "р. otpbank.ru/tr"@,
        }
    } else if bank_type == "mts"@ || bank_type == "mtsbank"@ {
        Wording {
            package: "ru.mtsbank.mobile"@,
            app_name: "МТС Банк"@,
            title: "MTS-Bank"@,
            content: "Перевод на карту "@ + money_of(amount) + " RUB PEREVOD DR BANK Остаток: "@ + money_of(raised_by(amount, 12250)) + " RUB; *"@ + card,
        }
    } else if bank_type == "domrf"@ || bank_type == "dom.rf"@ {
        Wording {
            package: "ru.domrf.mobile"@,
            app_name: "ДОМ.РФ"@,
            title: "Bank_DOM.RF"@,
            content: "Пополнение +"@ + money_of(amount) + " RUB на счет **"@ + card + " успешно. Доступно "@ + money_of(raised_by(amount, 161200)) + " RUB"@,
        }
    } else {
        Wording {
            package: package_of(bank_type),
            app_name: display_name_of(bank_type),
            title: display_name_of(bank_type) + " Online"@,
            content: "Пополнение +"@ + money_of(amount) + " ₽\nКарта *"@ + card,
        }
    }
}

/// The wording of a test notification about `amount` for the bank whose
/// name in lower case is `bank`, and whose name as given is `bank_name`.
pub open spec fn test_wording(
    bank: Seq<char>,
    bank_name: Seq<char>,
    amount: u64,
    date: Seq<char>,
    clock: Seq<char>,
) -> Wording {
    if bank == "sber"@ || bank == "sberbank"@ || bank == "сбер"@ || bank == "сбербанк"@ {
        Wording {
            package: "ru.sberbankmobile"@,
            app_name: "СберБанк"@,
            title: "900"@,
            content: "СЧЁТ*1234 "@ + date + " зачислен перевод "@ + whole_money_of(amount) + "р. Баланс: "@ + money_of(raised_by(amount, 100000)) + "р"@,
        }
    } else if bank == "tinkoff"@ || bank == "t-bank"@ || bank == "tbank"@ || bank == "тинькофф"@ || bank == "т-банк"@ {
        Wording {
            package: "com.idamob.tinkoff.android"@,
            app_name: "T-Bank"@,
            title: "T-Bank"@,
            content: "Пополнение, счет RUB. "@ + whole_money_of(amount) + " RUB. Доступно "@ + money_of(raised_by(amount, 50000)) + " RUB"@,
        }
    } else if bank == "otp"@ || bank == "otpbank"@ || bank == "отп"@ {
        Wording {
            package: "ru.otpbank"@,
            app_name: "ОТП Банк"@,
            title: "OTP Bank"@,
            content: "Счет *0084 зачисление "@ + whole_money_of(amount) + "р. Доступно "@ + money_of(raised_by(amount, 75503)) + "р. otpbank.ru/tr"@,
        }
    } else if bank == "mts"@ || bank == "mtsbank"@ || bank == "мтс"@ {
        Wording {
            package: "ru.mtsbank.mobile"@,
            app_name: "МТС Банк"@,
            title: "MTS-Bank"@,
            content: "Перевод на карту "@ + money_of(amount) + " RUB PEREVOD DR BANK Остаток: "@ + money_of(raised_by(amount, 12250)) + " RUB; *9131"@,
        }
    } else if bank == "domrf"@ || bank == "dom.rf"@ || bank == "дом.рф"@ {
        Wording {
            package: "ru.domrf.mobile"@,
            app_name: "ДОМ.РФ"@,
            title: "Bank_DOM.RF"@,
            content: "Пополнение +"@ + money_of(amount) + " RUB на счет **8577 успешно. Доступно "@ + money_of(raised_by(amount, 161200)) + " RUB"@,
        }
    } else if bank == "alfa"@ || bank == "alfabank"@ || bank == "альфа"@ {
        Wording {
            package: "ru.alfabank.mobile.android"@,
            app_name: "Альфа-Банк"@,
            title: "Альфа-Банк"@,
            content: "Счёт RUB: Перевод СБП от ИВАН И. +"@ + money_of(amount) + " р."@,
        }
    } else if bank == "vtb"@ || bank == "втб"@ {
        Wording {
            package: "ru.vtb24.mobilebanking.android"@,
            app_name: "ВТБ"@,
            title: "ВТБ Online"@,
            content: "Карта *1234. Зачисление "@ + money_of(amount) + " RUB. Баланс: "@ + money_of(raised_by(amount, 200000)) + " RUB"@,
        }
    } else if bank == "psb"@ || bank == "псб"@ {
        Wording {
            package: "ru.psbank.mobile"@,
            app_name: "ПСБ"@,
            title: "ПСБ"@,
            content: "Поступление "@ + money_of(amount) + " руб. Карта *5678. Баланс "@ + money_of(raised_by(amount, 300000)) + " руб."@,
        }
    } else if bank == "uralsib"@ || bank == "уралсиб"@ {
        Wording {
            package: "ru.uralsib.mobile"@,
            app_name: "УралСиб"@,
            title: "UBRR"@,
            content: "Пополнение *2301 Сумма "@ + money_of(amount) + " р Остаток "@ + money_of(raised_by(amount, 66320)) + " р"@,
        }
    } else if bank == "raiffeisen"@ || bank == "райф"@ || bank == "райффайзен"@ {
        Wording {
            package: "ru.raiffeisen.mobile.new"@,
            app_name: "Райффайзен"@,
            title: "Raiffeisen"@,
            content: "Зачисление "@ + money_of(amount) + " RUB. Карта *4321. Доступно "@ + money_of(raised_by(amount, 150000)) + " RUB"@,
        }
    } else if bank == "pochta"@ || bank == "почта"@ {
        Wording {
            package: "ru.pochta.bank"@,
            app_name: "Почта Банк"@,
            title: "Почта Банк"@,
            content: "Перевод +"@ + money_of(amount) + "р на карту *6789. Баланс "@ + money_of(raised_by(amount, 80000)) + "р"@,
        }
    } else if bank == "spb"@ || bank == "bspb"@ || bank == "спб"@ {
        Wording {
            package: "com.bssys.bspb"@,
            app_name: "Банк СПб"@,
            title: "BankSPB"@,
            content: "*0977 Зачислен перевод по СБП "@ + whole_money_of(amount) + "RUB "@ + clock,
        }
    } else {
        Wording {
            package: "com."@ + replaced(bank, " "@, ""@) + ".app"@,
            app_name: bank_name,
            title: bank_name + " Online"@,
            content: "Пополнение +"@ + money_of(amount) + " ₽"@,
        }
    }
}

/// The devices that a notification for a trader goes to: the connected
/// devices linked to the trader that hold a token, in the store's order.
pub open spec fn targets_among(devices: Seq<Device>) -> Seq<(Seq<char>, Seq<char>)>
    decreases devices.len(),
{
    if devices.len() == 0 {
        Seq::empty()
    } else {
        let before = targets_among(devices.drop_last());
        match devices.last().token {
            Some(token) => before.push((devices.last().id@, token@)),
            None => before,
        }
    }
}

/// The view of a list of targets.
pub open spec fn targets_view(targets: Seq<DeviceTarget>) -> Seq<(Seq<char>, Seq<char>)> {
    Seq::new(targets.len(), |i: int| (targets[i].device_id@, targets[i].token@))
}

/// The bank type that a notification about a transaction is worded for: the
/// one of the transaction's card, or none.
pub open spec fn bank_type_of(transaction: Transaction) -> Seq<char> {
    match transaction.requisites {
        Some(requisites) => requisites.bank_type@,
        None => Seq::empty(),
    }
}

/// Whether a notification says what a wording says.
pub open spec fn is_worded(notification: NotificationRequest, wording: Wording) -> bool {
    &&& notification.package_name@ == wording.package
    &&& notification.app_name@ == wording.app_name
    &&& notification.title@ == wording.title
    &&& notification.content@ == wording.content
}

/// The wording of the notification about a transaction on the day `date`: that
/// of the bank of the transaction's card, for the card's last digits and the
/// transaction's amount.
pub open spec fn wording_for(transaction: Transaction, date: Seq<char>) -> Wording {
    payment_wording(
        bank_type_of(transaction),
        card_of(transaction),
        hundredths_of(transaction.amount),
        date,
    )
}

/// The card digits that a notification about a transaction shows.
pub open spec fn card_of(transaction: Transaction) -> Seq<char> {
    match transaction.requisites {
        Some(requisites) => last_digits_of(requisites.card_number@),
        None => "****"@,
    }
}

/// Notifications for devices.
pub struct DeviceNotificationService;

impl DeviceNotificationService {
    /// The name a bank is shown under.
    pub fn bank_display_name(bank_type: &str) -> (name: String)
        ensures
            name@ == display_name_of(bank_type@),
    {
        if same_text(bank_type, "sber") || same_text(bank_type, "sberbank") {
            "Сбербанк".to_owned()
        } else if same_text(bank_type, "tinkoff") || same_text(bank_type, "t-bank") || same_text(bank_type, "tbank") {
            "Тинькофф".to_owned()
        } else if same_text(bank_type, "alfa") || same_text(bank_type, "alfabank") || same_text(bank_type, "alpha") {
            "Альфа-Банк".to_owned()
        } else if same_text(bank_type, "vtb") {
            "ВТБ".to_owned()
        } else if same_text(bank_type, "raiffeisen") || same_text(bank_type, "raiff") {
            "Райффайзен".to_owned()
        } else if same_text(bank_type, "otkritie") || same_text(bank_type, "openbank") {
            "Открытие".to_owned()
        } else if same_text(bank_type, "gazprombank") || same_text(bank_type, "gazprom") {
            "Газпромбанк".to_owned()
        } else if same_text(bank_type, "ozon") || same_text(bank_type, "ozonbank") {
            "Озон Банк".to_owned()
        } else if same_text(bank_type, "otp") || same_text(bank_type, "otpbank") {
            "ОТП Банк".to_owned()
        } else if same_text(bank_type, "psb") || same_text(bank_type, "promsvyazbank") {
            "ПСБ".to_owned()
        } else if same_text(bank_type, "domrf") || same_text(bank_type, "dom.rf") {
            "ДОМ.РФ".to_owned()
        } else if same_text(bank_type, "mts") || same_text(bank_type, "mtsbank") {
            "МТС Банк".to_owned()
        } else if same_text(bank_type, "uralsib") || same_text(bank_type, "ubrr") {
            "УралСиб".to_owned()
        } else if same_text(bank_type, "pochta") || same_text(bank_type, "pochtabank") {
            "Почта Банк".to_owned()
        } else if same_text(bank_type, "spb") || same_text(bank_type, "bspb") || same_text(bank_type, "bankspb") {
            "Банк СПб".to_owned()
        } else if same_text(bank_type, "rnkb") {
            "РНКБ".to_owned()
        } else if same_text(bank_type, "rshb") || same_text(bank_type, "rosselhoz") {
            "Россельхозбанк".to_owned()
        } else if same_text(bank_type, "homecredit") || same_text(bank_type, "home") {
            "Хоум Кредит".to_owned()
        } else {
            "Банк".to_owned()
        }
    }

    /// The app that reports for a bank without wording of its own.
    pub fn bank_package(bank_type: &str) -> (package: String)
        ensures
            package@ == package_of(bank_type@),
    {
        if same_text(bank_type, "alfa") || same_text(bank_type, "alfabank") {
            "ru.alfabank.mobile.android".to_owned()
        } else if same_text(bank_type, "vtb") {
            "ru.vtb24.mobilebanking.android".to_owned()
        } else if same_text(bank_type, "gazprombank") {
            "ru.gazprombank.android.mobilebank.app".to_owned()
        } else if same_text(bank_type, "ozon") {
            "ru.ozon.app.android".to_owned()
        } else if same_text(bank_type, "psb") {
            "ru.psbank.mobile".to_owned()
        } else if same_text(bank_type, "raiffeisen") {
            "ru.raiffeisen.mobile.new".to_owned()
        } else if same_text(bank_type, "uralsib") {
            "ru.uralsib.mobile".to_owned()
        } else if same_text(bank_type, "pochta") {
            "ru.pochta.bank".to_owned()
        } else if same_text(bank_type, "spb") || same_text(bank_type, "bspb") {
            "com.bssys.bspb".to_owned()
        } else if same_text(bank_type, "rnkb") {
            "com.fakemobile.rnkb".to_owned()
        } else if same_text(bank_type, "rshb") {
            "ru.rshb.mbank".to_owned()
        } else {
            "com.bank.app".to_owned()
        }
    }

    /// The last characters of a card number, four at most.
    pub fn card_last_digits(card_number: &str) -> (digits: String)
        ensures
            digits@ == last_digits_of(card_number@),
    {
        let len = card_number.unicode_len();
        if len <= SHOWN_DIGITS {
            card_number.to_owned()
        } else {
            card_number.substring_char(len - SHOWN_DIGITS, len).to_owned()
        }
    }

    fn worded(package: String, app_name: String, title: String, content: String, timestamp: i64)
        -> (request: NotificationRequest)
        ensures
            request.package_name == package,
            request.app_name == app_name,
            request.title == title,
            request.content == content,
            request.timestamp == timestamp,
            request.priority == PAYMENT_PRIORITY,
            request.category@ == "transaction"@,
    {
        NotificationRequest {
            package_name: package,
            app_name,
            title,
            content,
            timestamp,
            priority: PAYMENT_PRIORITY,
            category: "transaction".to_owned(),
        }
    }

    /// The notification about a payment of `amount`, in hundredths, to the card ending in
    /// `card` at a bank of the given type, worded for the day `date` and
    /// reported at the time `timestamp`.
    pub fn payment_notification(
        bank_type: &str,
        card_text: &str,
        amount: u64,
        date_text: &str,
        timestamp: i64,
    ) -> (request: NotificationRequest)
        ensures
            request.package_name@ == payment_wording(
                bank_type@,
                card_text@,
                amount,
                date_text@,
            ).package,
            request.app_name@ == payment_wording(
                bank_type@,
                card_text@,
                amount,
                date_text@,
            ).app_name,
            request.title@ == payment_wording(bank_type@, card_text@, amount, date_text@).title,
            request.content@ == payment_wording(
                bank_type@,
                card_text@,
                amount,
                date_text@,
            ).content,
            request.timestamp == timestamp,
            request.priority == PAYMENT_PRIORITY,
            request.category@ == "transaction"@,
    {
        let ghost card = card_text@;
        let ghost date = date_text@;
        if same_text(bank_type, "sber") || same_text(bank_type, "sberbank") {
            let mut text = String::new();
            text.append("СЧЁТ*");
            text.append(card_text);
            text.append(" ");
            text.append(date_text);
            text.append(" зачислен перевод ");
            text.append(whole_money_text(amount).as_str());
            text.append("р. Баланс: ");
            text.append(money_text(raise(amount, 100000)).as_str());
            text.append("р");
            assert(text@ =~= "СЧЁТ*"@ + card + " "@ + date + " зачислен перевод "@ + whole_money_of(amount) + "р. Баланс: "@ + money_of(raised_by(amount, 100000)) + "р"@);
            Self::worded("ru.sberbankmobile".to_owned(), "СберБанк".to_owned(), "900".to_owned(), text, timestamp)
        } else if same_text(bank_type, "tinkoff") || same_text(bank_type, "t-bank") || same_text(bank_type, "tbank") {
            let mut text = String::new();
            text.append("Пополнение, счет RUB. ");
            text.append(whole_money_text(amount).as_str());
            text.append(" RUB. Доступно ");
            text.append(money_text(raise(amount, 50000)).as_str());
            text.append(" RUB");
            assert(text@ =~= "Пополнение, счет RUB. "@ + whole_money_of(amount) + " RUB. Доступно "@ + money_of(raised_by(amount, 50000)) + " RUB"@);
            Self::worded("com.idamob.tinkoff.android".to_owned(), "T-Bank".to_owned(), "T-Bank".to_owned(), text, timestamp)
        } else if same_text(bank_type, "otp") || same_text(bank_type, "otpbank") {
            let mut text = String::new();
            text.append("Счет *");
            text.append(card_text);
            text.append(" зачисление ");
            text.append(whole_money_text(amount).as_str());
            text.append("р. Доступно ");
            text.append(money_text(raise(amount, 75503)).as_str());
            text.append("р. otpbank.ru/tr");
            assert(text@ =~= "Счет *"@ + card + " зачисление "@ + whole_money_of(amount) + "р. Доступно "@ + money_of(raised_by(amount, 75503)) + "р. otpbank.ru/tr"@);
            Self::worded("ru.otpbank".to_owned(), "ОТП Банк".to_owned(), "OTP Bank".to_owned(), text, timestamp)
        } else if same_text(bank_type, "mts") || same_text(bank_type, "mtsbank") {
            let mut text = String::new();
            text.append("Перевод на карту ");
            text.append(money_text(amount).as_str());
            text.append(" RUB PEREVOD DR BANK Остаток: ");
            text.append(money_text(raise(amount, 12250)).as_str());
            text.append(" RUB; *");
            text.append(card_text);
            assert(text@ =~= "Перевод на карту "@ + money_of(amount) + " RUB PEREVOD DR BANK Остаток: "@ + money_of(raised_by(amount, 12250)) + " RUB; *"@ + card);
            Self::worded("ru.mtsbank.mobile".to_owned(), "МТС Банк".to_owned(), "MTS-Bank".to_owned(), text, timestamp)
        } else if same_text(bank_type, "domrf") || same_text(bank_type, "dom.rf") {
            let mut text = String::new();
            text.append("Пополнение +");
            text.append(money_text(amount).as_str());
            text.append(" RUB на счет **");
            text.append(card_text);
            text.append(" успешно. Доступно ");
            text.append(money_text(raise(amount, 161200)).as_str());
            text.append(" RUB");
            assert(text@ =~= "Пополнение +"@ + money_of(amount) + " RUB на счет **"@ + card + " успешно. Доступно "@ + money_of(raised_by(amount, 161200)) + " RUB"@);
            Self::worded("ru.domrf.mobile".to_owned(), "ДОМ.РФ".to_owned(), "Bank_DOM.RF".to_owned(), text, timestamp)
        } else {
            let mut text = String::new();
            text.append("Пополнение +");
            text.append(money_text(amount).as_str());
            text.append(" ₽\nКарта *");
            text.append(card_text);
            assert(text@ =~= "Пополнение +"@ + money_of(amount) + " ₽\nКарта *"@ + card);
            let name = Self::bank_display_name(bank_type);
            let title = joined(name.as_str(), " Online");
            Self::worded(Self::bank_package(bank_type), name, title, text, timestamp)
        }
    }

    /// The test notification about `amount`, in hundredths, for the bank called `bank_name`,
    /// worded for the day `date` and the hour `clock` and reported at the time
    /// `timestamp`. The bank is recognised whatever the case of its name.
    pub fn test_notification(
        bank_name: &str,
        amount: u64,
        date_text: &str,
        clock_text: &str,
        timestamp: i64,
    ) -> (request: NotificationRequest)
        ensures
            request.package_name@ == test_wording(
                lowercased(bank_name@),
                bank_name@,
                amount,
                date_text@,
                clock_text@,
            ).package,
            request.app_name@ == test_wording(
                lowercased(bank_name@),
                bank_name@,
                amount,
                date_text@,
                clock_text@,
            ).app_name,
            request.title@ == test_wording(
                lowercased(bank_name@),
                bank_name@,
                amount,
                date_text@,
                clock_text@,
            ).title,
            request.content@ == test_wording(
                lowercased(bank_name@),
                bank_name@,
                amount,
                date_text@,
                clock_text@,
            ).content,
            request.timestamp == timestamp,
            request.priority == PAYMENT_PRIORITY,
            request.category@ == "transaction"@,
    {
        let lower = lowercase_text(bank_name);
        let bank = lower.as_str();
        let ghost date = date_text@;
        let ghost clock = clock_text@;
        if same_text(bank, "sber") || same_text(bank, "sberbank") || same_text(bank, "сбер") || same_text(bank, "сбербанк") {
            let mut text = String::new();
            text.append("СЧЁТ*1234 ");
            text.append(date_text);
            text.append(" зачислен перевод ");
            text.append(whole_money_text(amount).as_str());
            text.append("р. Баланс: ");
            text.append(money_text(raise(amount, 100000)).as_str());
            text.append("р");
            assert(text@ =~= "СЧЁТ*1234 "@ + date + " зачислен перевод "@ + whole_money_of(amount) + "р. Баланс: "@ + money_of(raised_by(amount, 100000)) + "р"@);
            Self::worded("ru.sberbankmobile".to_owned(), "СберБанк".to_owned(), "900".to_owned(), text, timestamp)
        } else if same_text(bank, "tinkoff") || same_text(bank, "t-bank") || same_text(bank, "tbank") || same_text(bank, "тинькофф") || same_text(bank, "т-банк") {
            let mut text = String::new();
            text.append("Пополнение, счет RUB. ");
            text.append(whole_money_text(amount).as_str());
            text.append(" RUB. Доступно ");
            text.append(money_text(raise(amount, 50000)).as_str());
            text.append(" RUB");
            assert(text@ =~= "Пополнение, счет RUB. "@ + whole_money_of(amount) + " RUB. Доступно "@ + money_of(raised_by(amount, 50000)) + " RUB"@);
            Self::worded("com.idamob.tinkoff.android".to_owned(), "T-Bank".to_owned(), "T-Bank".to_owned(), text, timestamp)
        } else if same_text(bank, "otp") || same_text(bank, "otpbank") || same_text(bank, "отп") {
            let mut text = String::new();
            text.append("Счет *0084 зачисление ");
            text.append(whole_money_text(amount).as_str());
            text.append("р. Доступно ");
            text.append(money_text(raise(amount, 75503)).as_str());
            text.append("р. otpbank.ru/tr");
            assert(text@ =~= "Счет *0084 зачисление "@ + whole_money_of(amount) + "р. Доступно "@ + money_of(raised_by(amount, 75503)) + "р. otpbank.ru/tr"@);
            Self::worded("ru.otpbank".to_owned(), "ОТП Банк".to_owned(), "OTP Bank".to_owned(), text, timestamp)
        } else if same_text(bank, "mts") || same_text(bank, "mtsbank") || same_text(bank, "мтс") {
            let mut text = String::new();
            text.append("Перевод на карту ");
            text.append(money_text(amount).as_str());
            text.append(" RUB PEREVOD DR BANK Остаток: ");
            text.append(money_text(raise(amount, 12250)).as_str());
            text.append(" RUB; *9131");
            assert(text@ =~= "Перевод на карту "@ + money_of(amount) + " RUB PEREVOD DR BANK Остаток: "@ + money_of(raised_by(amount, 12250)) + " RUB; *9131"@);
            Self::worded("ru.mtsbank.mobile".to_owned(), "МТС Банк".to_owned(), "MTS-Bank".to_owned(), text, timestamp)
        } else if same_text(bank, "domrf") || same_text(bank, "dom.rf") || same_text(bank, "дом.рф") {
            let mut text = String::new();
            text.append("Пополнение +");
            text.append(money_text(amount).as_str());
            text.append(" RUB на счет **8577 успешно. Доступно ");
            text.append(money_text(raise(amount, 161200)).as_str());
            text.append(" RUB");
            assert(text@ =~= "Пополнение +"@ + money_of(amount) + " RUB на счет **8577 успешно. Доступно "@ + money_of(raised_by(amount, 161200)) + " RUB"@);
            Self::worded("ru.domrf.mobile".to_owned(), "ДОМ.РФ".to_owned(), "Bank_DOM.RF".to_owned(), text, timestamp)
        } else if same_text(bank, "alfa") || same_text(bank, "alfabank") || same_text(bank, "альфа") {
            let mut text = String::new();
            text.append("Счёт RUB: Перевод СБП от ИВАН И. +");
            text.append(money_text(amount).as_str());
            text.append(" р.");
            assert(text@ =~= "Счёт RUB: Перевод СБП от ИВАН И. +"@ + money_of(amount) + " р."@);
            Self::worded("ru.alfabank.mobile.android".to_owned(), "Альфа-Банк".to_owned(), "Альфа-Банк".to_owned(), text, timestamp)
        } else if same_text(bank, "vtb") || same_text(bank, "втб") {
            let mut text = String::new();
            text.append("Карта *1234. Зачисление ");
            text.append(money_text(amount).as_str());
            text.append(" RUB. Баланс: ");
            text.append(money_text(raise(amount, 200000)).as_str());
            text.append(" RUB");
            assert(text@ =~= "Карта *1234. Зачисление "@ + money_of(amount) + " RUB. Баланс: "@ + money_of(raised_by(amount, 200000)) + " RUB"@);
            Self::worded("ru.vtb24.mobilebanking.android".to_owned(), "ВТБ".to_owned(), "ВТБ Online".to_owned(), text, timestamp)
        } else if same_text(bank, "psb") || same_text(bank, "псб") {
            let mut text = String::new();
            text.append("Поступление ");
            text.append(money_text(amount).as_str());
            text.append(" руб. Карта *5678. Баланс ");
            text.append(money_text(raise(amount, 300000)).as_str());
            text.append(" руб.");
            assert(text@ =~= "Поступление "@ + money_of(amount) + " руб. Карта *5678. Баланс "@ + money_of(raised_by(amount, 300000)) + " руб."@);
            Self::worded("ru.psbank.mobile".to_owned(), "ПСБ".to_owned(), "ПСБ".to_owned(), text, timestamp)
        } else if same_text(bank, "uralsib") || same_text(bank, "уралсиб") {
            let mut text = String::new();
            text.append("Пополнение *2301 Сумма ");
            text.append(money_text(amount).as_str());
            text.append(" р Остаток ");
            text.append(money_text(raise(amount, 66320)).as_str());
            text.append(" р");
            assert(text@ =~= "Пополнение *2301 Сумма "@ + money_of(amount) + " р Остаток "@ + money_of(raised_by(amount, 66320)) + " р"@);
            Self::worded("ru.uralsib.mobile".to_owned(), "УралСиб".to_owned(), "UBRR".to_owned(), text, timestamp)
        } else if same_text(bank, "raiffeisen") || same_text(bank, "райф") || same_text(bank, "райффайзен") {
            let mut text = String::new();
            text.append("Зачисление ");
            text.append(money_text(amount).as_str());
            text.append(" RUB. Карта *4321. Доступно ");
            text.append(money_text(raise(amount, 150000)).as_str());
            text.append(" RUB");
            assert(text@ =~= "Зачисление "@ + money_of(amount) + " RUB. Карта *4321. Доступно "@ + money_of(raised_by(amount, 150000)) + " RUB"@);
            Self::worded("ru.raiffeisen.mobile.new".to_owned(), "Райффайзен".to_owned(), "Raiffeisen".to_owned(), text, timestamp)
        } else if same_text(bank, "pochta") || same_text(bank, "почта") {
            let mut text = String::new();
            text.append("Перевод +");
            text.append(money_text(amount).as_str());
            text.append("р на карту *6789. Баланс ");
            text.append(money_text(raise(amount, 80000)).as_str());
            text.append("р");
            assert(text@ =~= "Перевод +"@ + money_of(amount) + "р на карту *6789. Баланс "@ + money_of(raised_by(amount, 80000)) + "р"@);
            Self::worded("ru.pochta.bank".to_owned(), "Почта Банк".to_owned(), "Почта Банк".to_owned(), text, timestamp)
        } else if same_text(bank, "spb") || same_text(bank, "bspb") || same_text(bank, "спб") {
            let mut text = String::new();
            text.append("*0977 Зачислен перевод по СБП ");
            text.append(whole_money_text(amount).as_str());
            text.append("RUB ");
            text.append(clock_text);
            assert(text@ =~= "*0977 Зачислен перевод по СБП "@ + whole_money_of(amount) + "RUB "@ + clock);
            Self::worded("com.bssys.bspb".to_owned(), "Банк СПб".to_owned(), "BankSPB".to_owned(), text, timestamp)
        } else {
            let mut text = String::new();
            text.append("Пополнение +");
            text.append(money_text(amount).as_str());
            text.append(" ₽");
            assert(text@ =~= "Пополнение +"@ + money_of(amount) + " ₽"@);
            proof {
                reveal_strlit(" ");
            }
            let squeezed = replace_all(bank, " ", "");
            let head = joined("com.", squeezed.as_str());
            let package = joined(head.as_str(), ".app");
            let title = joined(bank_name, " Online");
            Self::worded(package, bank_name.to_owned(), title, text, timestamp)
        }
    }

    /// The targets among the trader's connected devices.
    pub fn targets_of(devices: &Vec<Device>) -> (targets: Vec<DeviceTarget>)
        ensures
            targets_view(targets@) == targets_among(devices@),
    {
        let mut targets: Vec<DeviceTarget> = Vec::new();
        let mut i: usize = 0;
        assert(devices@.subrange(0, 0) =~= Seq::<Device>::empty());
        assert(targets_view(targets@) =~= Seq::<(Seq<char>, Seq<char>)>::empty());
        while i < devices.len()
            invariant
                i <= devices.len(),
                targets_view(targets@) == targets_among(devices@.subrange(0, i as int)),
            decreases devices.len() - i,
        {
            proof {
                let upto = devices@.subrange(0, i + 1);
                assert(upto.drop_last() =~= devices@.subrange(0, i as int));
                assert(upto.last() == devices@[i as int]);
            }
            let ghost before = targets@;
            match &devices[i].token {
                Some(token) => {
                    targets.push(DeviceTarget { device_id: devices[i].id.clone(), token: token.clone() });
                    assert(targets_view(targets@) =~= targets_view(before).push(
                        (devices@[i as int].id@, token@),
                    ));
                },
                None => {},
            }
            i += 1;
        }
        assert(devices@.subrange(0, devices@.len() as int) =~= devices@);
        targets
    }

    /// Decides what is delivered for a transaction, given whether the
    /// liquidity draw made it liquid: nothing for a mock, for a transaction
    /// without a trader, and for a trader without connected devices; else the
    /// bank's notification, to every connected device of the trader that holds
    /// a token.
    pub fn plan_delivery(
        devices: &DeviceManager,
        liquid: bool,
        transaction: &Transaction,
        date: &str,
        timestamp: i64,
    ) -> (delivery: Option<Delivery>)
        ensures
            match transaction.trader_id {
                Some(trader_id) => if liquid && devices_of_trader(devices.devices(), trader_id@).len()
                    > 0 {
                    &&& delivery matches Some(d)
                    &&& targets_view(delivery->Some_0.targets@) == targets_among(
                        devices_of_trader(devices.devices(), trader_id@),
                    )
                    &&& is_worded(delivery->Some_0.notification, wording_for(*transaction, date@))
                    &&& delivery->Some_0.notification.timestamp == timestamp
                    &&& delivery->Some_0.notification.priority == PAYMENT_PRIORITY
                    &&& delivery->Some_0.notification.category@ == "transaction"@
                } else {
                    delivery is None
                },
                None => delivery is None,
            },
    {
        if !liquid {
            return None;
        }
        let trader_id = match &transaction.trader_id {
            Some(id) => id,
            None => {
                return None;
            },
        };
        let connected = devices.get_connected_devices_for_trader(trader_id);
        if connected.len() == 0 {
            return None;
        }
        let notification = match &transaction.requisites {
            Some(requisites) => {
                let card = Self::card_last_digits(requisites.card_number.as_str());
                Self::payment_notification(
                    requisites.bank_type.as_str(),
                    card.as_str(),
                    to_hundredths(transaction.amount),
                    date,
                    timestamp,
                )
            },
            None => {
                proof {
                    reveal_strlit("");
                    assert(""@ =~= Seq::<char>::empty());
                }
                Self::payment_notification(
                    "",
                    "****",
                    to_hundredths(transaction.amount),
                    date,
                    timestamp,
                )
            },
        };
        let targets = Self::targets_of(&connected);
        Some(Delivery { notification, targets })
    }

    /// Decides what is delivered for a transaction of `merchant`, by a fresh
    /// liquidity draw and as of now.
    pub fn send_transaction_notification(
        devices: &DeviceManager,
        merchant: &Merchant,
        transaction: &Transaction,
    ) -> (delivery: Option<Delivery>)
        ensures
            transaction.trader_id is None ==> delivery is None,
            match (delivery, transaction.trader_id) {
                (Some(d), Some(trader_id)) => {
                    &&& targets_view(d.targets@) == targets_among(
                        devices_of_trader(devices.devices(), trader_id@),
                    )
                    &&& devices_of_trader(devices.devices(), trader_id@).len() > 0
                    &&& d.notification.priority == PAYMENT_PRIORITY
                    &&& d.notification.category@ == "transaction"@
                    &&& exists|date: Seq<char>|
                        is_worded(d.notification, #[trigger] wording_for(*transaction, date))
                },
                (Some(d), None) => false,
                (None, Some(trader_id)) => merchant.liquidity_percentage < 99 || devices_of_trader(
                    devices.devices(),
                    trader_id@,
                ).len() == 0,
                (None, None) => true,
            },
    {
        let liquid = merchant.is_liquid();
        let date = utc_time_text("%d.%m.%y");
        let now = now_millis();
        let delivery = Self::plan_delivery(devices, liquid, transaction, date.as_str(), now);
        proof {
            if delivery is Some && transaction.trader_id is Some {
                assert(is_worded(delivery->Some_0.notification, wording_for(*transaction, date@)));
            }
        }
        delivery
    }

    /// Whether a test notification can go to the device with the given id,
    /// and the token to send it under.
    pub open spec fn test_target(devices: Seq<(Seq<char>, Device)>, device_id: Seq<char>) -> Result<
        String,
        TestNotificationError,
    > {
        match value_of(devices, device_id) {
            None => Err(TestNotificationError::DeviceNotFound),
            Some(device) => if !device.is_connected {
                Err(TestNotificationError::NotConnected)
            } else {
                match device.token {
                    Some(token) => Ok(token),
                    None => Err(TestNotificationError::NoToken),
                }
            },
        }
    }

    /// Prepares a test notification about `amount`, in hundredths, for one
    /// device: the device must exist, be connected and hold a token. The
    /// answer is the token and the notification, worded as of now.
    pub fn send_test_notification(
        devices: &DeviceManager,
        device_id: &String,
        bank_name: &str,
        amount: u64,
    ) -> (outcome: Result<(String, NotificationRequest), TestNotificationError>)
        ensures
            match Self::test_target(devices.devices(), device_id@) {
                Ok(token) => outcome matches Ok(sent) && sent.0 == token && sent.1.priority
                    == PAYMENT_PRIORITY && sent.1.category@ == "transaction"@ && exists|
                    date: Seq<char>,
                    clock: Seq<char>,
                |
                    is_worded(
                        sent.1,
                        #[trigger] test_wording(
                            lowercased(bank_name@),
                            bank_name@,
                            amount,
                            date,
                            clock,
                        ),
                    ),
                Err(error) => outcome matches Err(e) && e == error,
            },
    {
        let device = match devices.get_device(device_id) {
            Some(device) => device,
            None => {
                return Err(TestNotificationError::DeviceNotFound);
            },
        };
        if !device.is_connected {
            return Err(TestNotificationError::NotConnected);
        }
        let token = match device.token {
            Some(token) => token,
            None => {
                return Err(TestNotificationError::NoToken);
            },
        };
        let date = utc_time_text("%d.%m.%y");
        let clock = utc_time_text("%H:%M");
        let now = now_millis();
        let notification = Self::test_notification(bank_name, amount, date.as_str(), clock.as_str(), now);
        assert(is_worded(
            notification,
            test_wording(lowercased(bank_name@), bank_name@, amount, date@, clock@),
        ));
        Ok((token, notification))
    }
}

} // verus!
