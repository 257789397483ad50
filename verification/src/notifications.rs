//! Notifications that a simulated device reports: a bank's message about an
//! incoming payment, and everyday noise from messengers, mail and the system.

use crate::amount_range_map::{decimal_of, decimal_text};
use crate::chance::{pick_index, uniform_between};
use crate::identity::{local_time_text, now_millis};
use crate::models::NotificationRequest;
use crate::text::{joined, same_text};
use vstd::prelude::*;

verus! {

pub const SBER: &'static str = "Сбербанк";

pub const TINKOFF: &'static str = "Тинькофф";

pub const VTB: &'static str = "ВТБ";

pub const ALFA: &'static str = "Альфа-Банк";

pub const GAZPROM: &'static str = "Газпромбанк";

pub const SBER_PACKAGE: &'static str = "ru.sberbankmobile";

pub const TINKOFF_PACKAGE: &'static str = "com.idamob.tinkoff.android";

pub const VTB_PACKAGE: &'static str = "ru.vtb24.mobilebanking.android";

pub const ALFA_PACKAGE: &'static str = "ru.alfabank.mobile.android";

pub const GAZPROM_PACKAGE: &'static str = "ru.gazprombank.android.mobilebank.app";

pub const MESSAGING_PACKAGE: &'static str = "com.android.messaging";

pub const SBER_SENDER: &'static str = "900";

pub const TINKOFF_SENDER: &'static str = "T-Bank";

pub const VTB_SENDER: &'static str = "VTB";

pub const ALFA_SENDER: &'static str = "Alfa-Bank";

pub const GAZPROM_SENDER: &'static str = "Gazprombank";

pub const SBER_BEFORE: &'static str = "СЧЁТ*1234 12:34 зачислен перевод по СБП ";

pub const SBER_AFTER: &'static str = "р из ТИНЬКОФФ БАНК Иван Иванов Баланс: 50000р";

pub const TINKOFF_BEFORE: &'static str = "Пополнение, счет RUB. ";

pub const TINKOFF_AFTER: &'static str = " RUB. Иван И. Доступно 50000 RUB";

pub const VTB_BEFORE: &'static str = "Поступление ";

pub const VTB_AFTER: &'static str = "р Счет*1234 SBP Баланс 50000р 12:34";

pub const ALFA_BEFORE: &'static str = "Пополнение *1234 на ";

pub const ALFA_AFTER: &'static str = " RUR Баланс: 50000 RUR";

pub const GAZPROM_BEFORE: &'static str = "*5678 Получен перевод ";

pub const GAZPROM_AFTER: &'static str = "р SBP C2C ZACHISLENIE Доступно 50000р";

pub const OTHER_BEFORE: &'static str = "Пополнение на сумму ";

pub const OTHER_AFTER: &'static str = " руб.";

pub const CATEGORY_TRANSACTION: &'static str = "transaction";

pub const CATEGORY_MESSAGE: &'static str = "msg";

pub const CATEGORY_EMAIL: &'static str = "email";

pub const CATEGORY_SYSTEM: &'static str = "system";

/// Number of kinds of random notifications.
pub const KINDS: u64 = 5;

/// How a bank's notification looks: the reporting app, the sender shown as
/// app name and title, and the text around the amount.
pub struct BankTemplate {
    pub package: Seq<char>,
    pub sender: Seq<char>,
    pub before: Seq<char>,
    pub after: Seq<char>,
}

/// The template of a bank. A bank that has none of its own reports through
/// the messaging app under its own name.
pub open spec fn template_of(bank_name: Seq<char>) -> BankTemplate {
    if bank_name == SBER@ {
        BankTemplate {
            package: SBER_PACKAGE@,
            sender: SBER_SENDER@,
            before: SBER_BEFORE@,
            after: SBER_AFTER@,
        }
    } else if bank_name == TINKOFF@ {
        BankTemplate {
            package: TINKOFF_PACKAGE@,
            sender: TINKOFF_SENDER@,
            before: TINKOFF_BEFORE@,
            after: TINKOFF_AFTER@,
        }
    } else if bank_name == VTB@ {
        BankTemplate {
            package: VTB_PACKAGE@,
            sender: VTB_SENDER@,
            before: VTB_BEFORE@,
            after: VTB_AFTER@,
        }
    } else if bank_name == ALFA@ {
        BankTemplate {
            package: ALFA_PACKAGE@,
            sender: ALFA_SENDER@,
            before: ALFA_BEFORE@,
            after: ALFA_AFTER@,
        }
    } else if bank_name == GAZPROM@ {
        BankTemplate {
            package: GAZPROM_PACKAGE@,
            sender: GAZPROM_SENDER@,
            before: GAZPROM_BEFORE@,
            after: GAZPROM_AFTER@,
        }
    } else {
        BankTemplate {
            package: MESSAGING_PACKAGE@,
            sender: bank_name,
            before: OTHER_BEFORE@,
            after: OTHER_AFTER@,
        }
    }
}

/// Whether a category and a priority belong together: payments and messages
/// have priority 1, mail and system notices priority 0.
pub open spec fn is_noise(category: Seq<char>, priority: i32) -> bool {
    ||| (category == CATEGORY_MESSAGE@ && priority == 1)
    ||| (category == CATEGORY_TRANSACTION@ && priority == 1)
    ||| (category == CATEGORY_EMAIL@ && priority == 0)
    ||| (category == CATEGORY_SYSTEM@ && priority == 0)
}

fn notification(
    package: &str,
    app_name: &str,
    title: &str,
    content: String,
    timestamp: i64,
    priority: i32,
    category: &str,
) -> (request: NotificationRequest)
    ensures
        request.package_name@ == package@,
        request.app_name@ == app_name@,
        request.title@ == title@,
        request.content == content,
        request.timestamp == timestamp,
        request.priority == priority,
        request.category@ == category@,
{
    NotificationRequest {
        package_name: package.to_owned(),
        app_name: app_name.to_owned(),
        title: title.to_owned(),
        content,
        timestamp,
        priority,
        category: category.to_owned(),
    }
}

fn around(before: &str, number: u64, after: &str) -> (text: String)
    ensures
        text@ == before@ + decimal_of(number as nat) + after@,
{
    let digits = decimal_text(number);
    let head = joined(before, digits.as_str());
    joined(head.as_str(), after)
}

fn one_of(options: &Vec<&'static str>) -> (picked: &'static str)
    requires
        options@.len() > 0,
    ensures
        exists|i: int| 0 <= i < options@.len() && picked == #[trigger] options@[i],
{
    let at = pick_index(options.len());
    options[at]
}

/// Makes the notifications of a simulated device.
pub struct NotificationGenerator;

impl NotificationGenerator {
    /// The notification of `bank_name` about an incoming payment of `amount`,
    /// reported at the time `timestamp`. A custom message replaces the
    /// bank's own text.
    pub fn bank_notification_at(
        amount: u32,
        bank_name: &str,
        custom_message: Option<String>,
        timestamp: i64,
    ) -> (request: NotificationRequest)
        ensures
            request.package_name@ == template_of(bank_name@).package,
            request.app_name@ == template_of(bank_name@).sender,
            request.title@ == template_of(bank_name@).sender,
            request.content@ == match custom_message {
                Some(message) => message@,
                None => template_of(bank_name@).before + decimal_of(amount as nat) + template_of(
                    bank_name@,
                ).after,
            },
            request.timestamp == timestamp,
            request.priority == 1,
            request.category@ == CATEGORY_TRANSACTION@,
    {
        let (package, sender, before, after) = if same_text(bank_name, SBER) {
            (SBER_PACKAGE, SBER_SENDER, SBER_BEFORE, SBER_AFTER)
        } else if same_text(bank_name, TINKOFF) {
            (TINKOFF_PACKAGE, TINKOFF_SENDER, TINKOFF_BEFORE, TINKOFF_AFTER)
        } else if same_text(bank_name, VTB) {
            (VTB_PACKAGE, VTB_SENDER, VTB_BEFORE, VTB_AFTER)
        } else if same_text(bank_name, ALFA) {
            (ALFA_PACKAGE, ALFA_SENDER, ALFA_BEFORE, ALFA_AFTER)
        } else if same_text(bank_name, GAZPROM) {
            (GAZPROM_PACKAGE, GAZPROM_SENDER, GAZPROM_BEFORE, GAZPROM_AFTER)
        } else {
            (MESSAGING_PACKAGE, bank_name, OTHER_BEFORE, OTHER_AFTER)
        };
        let content = match custom_message {
            Some(message) => message,
            None => around(before, amount as u64, after),
        };
        notification(package, sender, sender, content, timestamp, 1, CATEGORY_TRANSACTION)
    }

    /// The notification of `bank_name` about an incoming payment of `amount`,
    /// reported now.
    pub fn generate_bank_notification(
        amount: u32,
        bank_name: &str,
        custom_message: Option<String>,
    ) -> (request: NotificationRequest)
        ensures
            request.package_name@ == template_of(bank_name@).package,
            request.app_name@ == template_of(bank_name@).sender,
            request.title@ == template_of(bank_name@).sender,
            request.content@ == match custom_message {
                Some(message) => message@,
                None => template_of(bank_name@).before + decimal_of(amount as nat) + template_of(
                    bank_name@,
                ).after,
            },
            request.priority == 1,
            request.category@ == CATEGORY_TRANSACTION@,
    {
        let now = now_millis();
        Self::bank_notification_at(amount, bank_name, custom_message, now)
    }

    /// `count` notifications of random kinds, all reported now.
    pub fn generate_random_notifications(count: usize) -> (notifications: Vec<NotificationRequest>)
        ensures
            notifications@.len() == count,
            forall|i: int|
                0 <= i < count ==> is_noise(
                    (#[trigger] notifications@[i]).category@,
                    notifications@[i].priority,
                ),
    {
        let mut notifications: Vec<NotificationRequest> = Vec::new();
        let mut i: usize = 0;
        while i < count
            invariant
                i <= count,
                notifications@.len() == i,
                forall|k: int|
                    0 <= k < i ==> is_noise(
                        (#[trigger] notifications@[k]).category@,
                        notifications@[k].priority,
                    ),
            decreases count - i,
        {
            let kind = uniform_between(0, KINDS - 1);
            let now = now_millis();
            let next = if kind == 0 {
                Self::generate_sms_notification(now)
            } else if kind == 1 {
                Self::generate_random_bank_notification(now)
            } else if kind == 2 {
                Self::generate_messenger_notification(now)
            } else if kind == 3 {
                Self::generate_email_notification(now)
            } else {
                Self::generate_system_notification(now)
            };
            notifications.push(next);
            i += 1;
        }
        notifications
    }

    fn generate_sms_notification(timestamp: i64) -> (request: NotificationRequest)
        ensures
            request.package_name@ == MESSAGING_PACKAGE@,
            request.category@ == CATEGORY_MESSAGE@,
            request.priority == 1,
            request.timestamp == timestamp,
    {
        let mut senders: Vec<&'static str> = Vec::new();
        senders.push("900");
        senders.push("+79001234567");
        senders.push("BANK");
        senders.push("INFO");
        let sender = one_of(&senders);
        let mut messages: Vec<&'static str> = Vec::new();
        messages.push("Ваш код подтверждения: 1234");
        messages.push("Перевод 5000 руб. от Иван И.");
        messages.push("Баланс карты *1234: 12 345 руб.");
        messages.push("Платеж на 1500 руб. успешно проведен");
        let message = one_of(&messages);
        notification(
            MESSAGING_PACKAGE,
            "Сообщения",
            sender,
            message.to_owned(),
            timestamp,
            1,
            CATEGORY_MESSAGE,
        )
    }

    fn generate_random_bank_notification(timestamp: i64) -> (request: NotificationRequest)
        ensures
            request.category@ == CATEGORY_TRANSACTION@,
            request.priority == 1,
            request.timestamp == timestamp,
            request.package_name@ == SBER_PACKAGE@ || request.package_name@ == TINKOFF_PACKAGE@
                || request.package_name@ == VTB_PACKAGE@ || request.package_name@ == ALFA_PACKAGE@
                || request.package_name@ == GAZPROM_PACKAGE@,
    {
        let amount = uniform_between(100, 49999);
        let balance = uniform_between(10000, 199999);
        let card = uniform_between(1000, 9998);
        let bank = uniform_between(0, 4);
        if bank == 0 {
            let clock = local_time_text("%H:%M");
            let mut text = around("СЧЁТ*", card, " ");
            text.append(clock.as_str());
            let text = joined(text.as_str(), around(" зачислен перевод по СБП ", amount, "").as_str());
            let text = joined(
                text.as_str(),
                around("р из ТИНЬКОФФ БАНК Иван Иванов Баланс: ", balance, "р").as_str(),
            );
            notification(
                SBER_PACKAGE,
                SBER_SENDER,
                SBER_SENDER,
                text,
                timestamp,
                1,
                CATEGORY_TRANSACTION,
            )
        } else if bank == 1 {
            let text = joined(
                around("Пополнение, счет RUB. ", amount, " RUB. Петров П. Доступно ").as_str(),
                around("", balance, " RUB").as_str(),
            );
            notification(
                TINKOFF_PACKAGE,
                TINKOFF_SENDER,
                TINKOFF_SENDER,
                text,
                timestamp,
                1,
                CATEGORY_TRANSACTION,
            )
        } else if bank == 2 {
            let clock = local_time_text("%H:%M");
            let text = joined(
                around("Поступление ", amount, "р Счет*").as_str(),
                around("", card, " SBP Баланс ").as_str(),
            );
            let mut text = joined(text.as_str(), around("", balance, "р ").as_str());
            text.append(clock.as_str());
            notification(VTB_PACKAGE, VTB_SENDER, VTB_SENDER, text, timestamp, 1, CATEGORY_TRANSACTION)
        } else if bank == 3 {
            let text = joined(
                around("Пополнение *", card, " на ").as_str(),
                around("", amount, " RUR Баланс: ").as_str(),
            );
            let text = joined(text.as_str(), around("", balance, " RUR").as_str());
            notification(
                ALFA_PACKAGE,
                ALFA_SENDER,
                ALFA_SENDER,
                text,
                timestamp,
                1,
                CATEGORY_TRANSACTION,
            )
        } else {
            let text = joined(
                around("*", card, " Получен перевод ").as_str(),
                around("", amount, "р SBP C2C ZACHISLENIE Доступно ").as_str(),
            );
            let text = joined(text.as_str(), around("", balance, "р").as_str());
            notification(
                GAZPROM_PACKAGE,
                GAZPROM_SENDER,
                GAZPROM_SENDER,
                text,
                timestamp,
                1,
                CATEGORY_TRANSACTION,
            )
        }
    }

    fn generate_messenger_notification(timestamp: i64) -> (request: NotificationRequest)
        ensures
            request.category@ == CATEGORY_MESSAGE@,
            request.priority == 1,
            request.timestamp == timestamp,
    {
        let app = uniform_between(0, 2);
        let (package, name) = if app == 0 {
            ("com.whatsapp", "WhatsApp")
        } else if app == 1 {
            ("org.telegram.messenger", "Telegram")
        } else {
            ("com.viber.voip", "Viber")
        };
        let mut senders: Vec<&'static str> = Vec::new();
        senders.push("Мама");
        senders.push("Работа");
        senders.push("Друг");
        senders.push("Доставка");
        let sender = one_of(&senders);
        let mut messages: Vec<&'static str> = Vec::new();
        messages.push("Привет! Как дела?");
        messages.push("Отправил документы");
        messages.push("Жду ответа");
        messages.push("Спасибо!");
        let message = one_of(&messages);
        notification(package, name, sender, message.to_owned(), timestamp, 1, CATEGORY_MESSAGE)
    }

    fn generate_email_notification(timestamp: i64) -> (request: NotificationRequest)
        ensures
            request.category@ == CATEGORY_EMAIL@,
            request.priority == 0,
            request.timestamp == timestamp,
            request.content@ == "У вас новое письмо"@,
    {
        let app = uniform_between(0, 2);
        let (package, name) = if app == 0 {
            ("com.google.android.gm", "Gmail")
        } else if app == 1 {
            ("ru.mail.mailapp", "Почта Mail.ru")
        } else {
            ("ru.yandex.mail", "Яндекс.Почта")
        };
        let mut subjects: Vec<&'static str> = Vec::new();
        subjects.push("Подтверждение заказа");
        subjects.push("Новое сообщение");
        subjects.push("Важное уведомление");
        subjects.push("Счет на оплату");
        let subject = one_of(&subjects);
        notification(
            package,
            name,
            subject,
            "У вас новое письмо".to_owned(),
            timestamp,
            0,
            CATEGORY_EMAIL,
        )
    }

    fn generate_system_notification(timestamp: i64) -> (request: NotificationRequest)
        ensures
            request.category@ == CATEGORY_SYSTEM@,
            request.priority == 0,
            request.timestamp == timestamp,
            request.title == request.app_name,
    {
        let which = uniform_between(0, 2);
        let (package, name, message) = if which == 0 {
            ("android", "Android System", "Обновление системы доступно")
        } else if which == 1 {
            ("com.android.vending", "Google Play", "2 приложения обновлено")
        } else {
            ("com.android.systemui", "Система", "Батарея разряжена (15%)")
        };
        let app_name = name.to_owned();
        NotificationRequest {
            package_name: package.to_owned(),
            title: app_name.clone(),
            app_name,
            content: message.to_owned(),
            timestamp,
            priority: 0,
            category: CATEGORY_SYSTEM.to_owned(),
        }
    }
}

} // verus!
