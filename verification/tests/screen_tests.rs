use merchant_emulator::config::{ApiType, AppConfig};
use merchant_emulator::device::Device;
use merchant_emulator::menu::{
    App, AppState, EnterAction, SubmitAction, TrafficMenu, TrafficSetting, BANK_COUNT,
};
use merchant_emulator::merchant::TrafficConfig;
use merchant_emulator::models::ConnectDeviceResponse;
use merchant_emulator::sampler::{AmountProbabilities, AmountRange, TableError};

fn app_with_devices(count: usize) -> App {
    let mut app = App::new();
    for i in 0..count {
        app.devices.push(Device::with_identity(format!("d{}", i), 1, format!("device {}", i)));
    }
    app
}

fn enter(app: &mut App, config: &mut AppConfig, state: AppState, selected: usize) -> EnterAction {
    app.state = state;
    app.selected = Some(selected);
    app.handle_enter(config)
}

fn submit(app: &mut App, config: &mut AppConfig, state: AppState, text: &str) -> SubmitAction {
    app.state = state;
    app.input_buffer = text.to_string();
    app.handle_input_submit(config)
}

#[test]
fn enter_on_the_main_menu_opens_a_screen() {
    let mut app = App::new();
    let mut config = AppConfig::default();
    assert_eq!(enter(&mut app, &mut config, AppState::MainMenu, 0), EnterAction::Nothing);
    assert_eq!(app.state, AppState::ApiSettings);
    enter(&mut app, &mut config, AppState::MainMenu, 1);
    assert_eq!(app.state, AppState::DeviceList);
    enter(&mut app, &mut config, AppState::MainMenu, 5);
    assert_eq!(app.state, AppState::MainMenu);
    app.state = AppState::MainMenu;
    app.selected = None;
    app.handle_enter(&mut config);
    assert_eq!(app.state, AppState::ApiSettings);
}

#[test]
fn enter_on_the_api_settings_switches_the_backend() {
    let mut app = App::new();
    let mut config = AppConfig::default();
    enter(&mut app, &mut config, AppState::ApiSettings, 1);
    assert_eq!(app.state, AppState::MainMenu);
    assert_eq!(config.api_base_url, "https://chasepay.pro/api");
    assert_eq!(app.success_message, Some("API настроен".to_string()));
    enter(&mut app, &mut config, AppState::ApiSettings, 0);
    assert_eq!(config.api_base_url, "http://localhost:3000/api");
    assert!(matches!(config.api_type, ApiType::Local));
    app.success_message = None;
    app.input_buffer = "old".to_string();
    enter(&mut app, &mut config, AppState::ApiSettings, 2);
    assert_eq!(app.state, AppState::ApiSettingsCustomInput);
    assert_eq!(app.input_buffer, "");
    assert_eq!(app.success_message, None);
    assert_eq!(config.api_base_url, "http://localhost:3000/api");
}

#[test]
fn enter_on_the_last_entry_of_the_device_list_creates_a_device() {
    let mut app = app_with_devices(2);
    let mut config = AppConfig::default();
    enter(&mut app, &mut config, AppState::DeviceList, 2);
    assert_eq!(app.state, AppState::DeviceList);
    assert_eq!(app.devices.len(), 3);
    assert_eq!(app.devices[2].name, "Устройство 3");
    assert!(!app.devices[2].is_connected);
    assert_eq!(app.devices[0].id, "d0");
    assert_eq!(app.success_message, Some("Устройство создано".to_string()));
    enter(&mut app, &mut config, AppState::DeviceList, 1);
    assert_eq!(app.state, AppState::DeviceMenu(1));
    assert_eq!(app.devices.len(), 3);
}

#[test]
fn enter_on_a_device_menu_depends_on_the_connection() {
    let mut app = app_with_devices(2);
    let mut config = AppConfig::default();
    app.input_buffer = "old".to_string();
    enter(&mut app, &mut config, AppState::DeviceMenu(1), 0);
    assert_eq!(app.state, AppState::DeviceCodeInput(1));
    assert_eq!(app.input_buffer, "");
    enter(&mut app, &mut config, AppState::DeviceMenu(1), 1);
    assert_eq!(app.state, AppState::DeviceMenu(1));
    assert_eq!(app.success_message, None);
    app.devices[1].connect_at("code".to_string(), "tok".to_string(), 5);
    enter(&mut app, &mut config, AppState::DeviceMenu(1), 0);
    assert_eq!(app.state, AppState::NotificationMenu(1));
    enter(&mut app, &mut config, AppState::DeviceMenu(1), 1);
    assert_eq!(app.state, AppState::DeviceMenu(1));
    assert!(!app.devices[1].is_connected);
    assert_eq!(app.devices[1].token, None);
    assert_eq!(app.devices[1].device_code, Some("code".to_string()));
    assert_eq!(app.success_message, Some("Устройство отключено".to_string()));
    enter(&mut app, &mut config, AppState::DeviceMenu(1), 2);
    assert_eq!(app.state, AppState::DeviceList);
    enter(&mut app, &mut config, AppState::DeviceMenu(7), 0);
    assert_eq!(app.state, AppState::DeviceMenu(7));
}

#[test]
fn enter_on_the_notification_menu_asks_for_random_notifications() {
    let mut app = app_with_devices(1);
    let mut config = AppConfig::default();
    assert_eq!(
        enter(&mut app, &mut config, AppState::NotificationMenu(0), 0),
        EnterAction::SendRandomNotifications(0)
    );
    assert_eq!(app.state, AppState::NotificationMenu(0));
    assert_eq!(
        enter(&mut app, &mut config, AppState::NotificationMenu(0), 1),
        EnterAction::Nothing
    );
    assert_eq!(app.state, AppState::NotificationAmountInput(0));
}

#[test]
fn enter_on_the_bank_list_picks_the_bank() {
    let mut app = app_with_devices(1);
    let mut config = AppConfig::default();
    let banks = ["Сбербанк", "Тинькофф", "ВТБ", "Альфа-Банк", "Газпромбанк", "Другой"];
    assert_eq!(BANK_COUNT, 6);
    for (i, bank) in banks.iter().enumerate() {
        enter(&mut app, &mut config, AppState::NotificationBankSelect(0), i);
        assert_eq!(app.selected_bank, Some(bank.to_string()));
        assert_eq!(app.state, AppState::NotificationMessageInput(0));
    }
    app.selected_bank = None;
    enter(&mut app, &mut config, AppState::NotificationBankSelect(0), 6);
    assert_eq!(app.selected_bank, None);
    assert_eq!(app.state, AppState::NotificationBankSelect(0));
}

#[test]
fn custom_api_address_is_taken_without_the_space_around_it() {
    let mut app = App::new();
    let mut config = AppConfig::default();
    let action =
        submit(&mut app, &mut config, AppState::ApiSettingsCustomInput, "  http://x/api \n");
    assert!(matches!(action, SubmitAction::Nothing));
    assert_eq!(config.api_base_url, "http://x/api");
    assert!(matches!(&config.api_type, ApiType::Custom(url) if url == "http://x/api"));
    assert_eq!(app.state, AppState::MainMenu);
    assert_eq!(app.input_buffer, "");
    assert_eq!(app.success_message, Some("Пользовательский API настроен".to_string()));
    submit(&mut app, &mut config, AppState::ApiSettingsCustomInput, "   ");
    assert_eq!(app.state, AppState::ApiSettingsCustomInput);
    assert_eq!(config.api_base_url, "http://x/api");
    assert_eq!(app.input_buffer, "");
}

#[test]
fn submitted_device_code_asks_for_a_connection() {
    let mut app = app_with_devices(2);
    let mut config = AppConfig::default();
    match submit(&mut app, &mut config, AppState::DeviceCodeInput(1), " ABC123 ") {
        SubmitAction::ConnectDevice { device, code } => {
            assert_eq!(device, 1);
            assert_eq!(code, "ABC123");
        }
        _ => panic!("a code asks for a connection"),
    }
    assert_eq!(app.state, AppState::DeviceConnecting(1));
    assert_eq!(app.input_buffer, "");
    let action = submit(&mut app, &mut config, AppState::DeviceCodeInput(1), "");
    assert!(matches!(action, SubmitAction::Nothing));
    assert_eq!(app.state, AppState::DeviceCodeInput(1));
}

#[test]
fn submitted_amount_must_be_a_number() {
    let mut app = app_with_devices(1);
    let mut config = AppConfig::default();
    submit(&mut app, &mut config, AppState::NotificationAmountInput(0), " 1500 ");
    assert_eq!(app.notification_amount, Some(1500));
    assert_eq!(app.state, AppState::NotificationBankSelect(0));
    assert_eq!(app.error_message, None);
    app.notification_amount = None;
    for bad in ["", "abc", "-5", "1.5", "4294967296", "99999999999999999999999"] {
        app.error_message = None;
        submit(&mut app, &mut config, AppState::NotificationAmountInput(0), bad);
        assert_eq!(app.notification_amount, None);
        assert_eq!(app.state, AppState::NotificationAmountInput(0));
        assert_eq!(app.error_message, Some("Неверная сумма".to_string()));
        assert_eq!(app.input_buffer, "");
    }
    submit(&mut app, &mut config, AppState::NotificationAmountInput(0), "4294967295");
    assert_eq!(app.notification_amount, Some(u32::MAX));
}

#[test]
fn submitted_message_asks_for_a_bank_notification() {
    let mut app = app_with_devices(1);
    let mut config = AppConfig::default();
    app.notification_amount = Some(700);
    app.selected_bank = Some("ВТБ".to_string());
    match submit(&mut app, &mut config, AppState::NotificationMessageInput(0), " hi there ") {
        SubmitAction::SendBankNotification { device, amount, bank, message } => {
            assert_eq!(device, 0);
            assert_eq!(amount, 700);
            assert_eq!(bank, "ВТБ");
            assert_eq!(message, Some("hi there".to_string()));
        }
        _ => panic!("a message asks for a notification"),
    }
    assert_eq!(app.state, AppState::NotificationMenu(0));
    assert_eq!(app.notification_amount, None);
    assert_eq!(app.selected_bank, None);
    app.notification_amount = Some(700);
    app.selected_bank = Some("ВТБ".to_string());
    match submit(&mut app, &mut config, AppState::NotificationMessageInput(0), "  ") {
        SubmitAction::SendBankNotification { message, .. } => assert_eq!(message, None),
        _ => panic!("an empty message still asks for a notification"),
    }
    app.notification_amount = None;
    app.selected_bank = Some("ВТБ".to_string());
    let action = submit(&mut app, &mut config, AppState::NotificationMessageInput(0), "x");
    assert!(matches!(action, SubmitAction::Nothing));
    assert_eq!(app.state, AppState::NotificationMessageInput(0));
    assert_eq!(app.selected_bank, Some("ВТБ".to_string()));
}

#[test]
fn submit_on_a_screen_without_text_only_drops_the_buffer() {
    let mut app = App::new();
    let mut config = AppConfig::default();
    let action = submit(&mut app, &mut config, AppState::MainMenu, "typed");
    assert!(matches!(action, SubmitAction::Nothing));
    assert_eq!(app.state, AppState::MainMenu);
    assert_eq!(app.input_buffer, "");
}

#[test]
fn answered_connection_connects_the_device() {
    let mut app = app_with_devices(2);
    app.state = AppState::DeviceConnecting(1);
    let response = ConnectDeviceResponse {
        status: "ok".to_string(),
        token: Some("tok".to_string()),
        message: "welcome".to_string(),
    };
    assert!(app.connection_answered(1, "code".to_string(), Ok(response)));
    assert_eq!(app.state, AppState::DeviceMenu(1));
    assert!(app.devices[1].is_connected);
    assert_eq!(app.devices[1].token, Some("tok".to_string()));
    assert_eq!(app.devices[1].device_code, Some("code".to_string()));
    assert!(!app.devices[0].is_connected);
    assert_eq!(app.success_message, Some("Устройство подключено".to_string()));
}

#[test]
fn refused_connection_shows_the_reason() {
    let mut app = app_with_devices(1);
    let response = ConnectDeviceResponse {
        status: "error".to_string(),
        token: None,
        message: "wrong code".to_string(),
    };
    assert!(!app.connection_answered(0, "code".to_string(), Ok(response)));
    assert_eq!(app.state, AppState::DeviceMenu(0));
    assert!(!app.devices[0].is_connected);
    assert_eq!(app.error_message, Some("wrong code".to_string()));
    assert!(!app.connection_answered(0, "code".to_string(), Err("timeout".to_string())));
    assert_eq!(app.error_message, Some("Ошибка подключения: timeout".to_string()));
    assert_eq!(app.devices[0].device_code, None);
}

#[test]
fn results_of_sending_are_shown() {
    let mut app = App::new();
    app.notifications_sent(10);
    assert_eq!(app.success_message, Some("Отправлено 10 уведомлений".to_string()));
    app.bank_notification_sent(None);
    assert_eq!(app.success_message, Some("Уведомление отправлено".to_string()));
    app.bank_notification_sent(Some("401".to_string()));
    assert_eq!(app.error_message, Some("Ошибка: 401".to_string()));
}

#[test]
fn offered_probabilities_match_the_standard_table() {
    assert_eq!(TrafficMenu::default_probability(1000), 64);
    assert_eq!(TrafficMenu::default_probability(3000), 69);
    assert_eq!(TrafficMenu::default_probability(5000), 73);
    assert_eq!(TrafficMenu::default_probability(10000), 82);
    assert_eq!(TrafficMenu::default_probability(20000), 88);
    assert_eq!(TrafficMenu::default_probability(50000), 92);
    assert_eq!(TrafficMenu::default_probability(7), 50);
    let ranges = TrafficMenu::ranges();
    assert_eq!(ranges.len(), 6);
    assert_eq!(ranges[0], AmountRange { min: 1000, max: 3000 });
    assert_eq!(ranges[5], AmountRange { min: 50000, max: 100000 });
    let defaults: Vec<u64> = ranges.iter().map(|r| TrafficMenu::default_probability(r.min)).collect();
    let table = TrafficMenu::configure_probabilities(&defaults).unwrap();
    assert_eq!(table.rows(), AmountProbabilities::standard().rows());
}

#[test]
fn configured_probabilities_fill_the_ranges_in_order() {
    let table = TrafficMenu::configure_probabilities(&vec![10, 20, 30, 40, 50, 60]).unwrap();
    assert_eq!(table.len(), 6);
    assert_eq!(table.get(AmountRange { min: 1000, max: 3000 }), Some(10));
    assert_eq!(table.get(AmountRange { min: 50000, max: 100000 }), Some(60));
    let short = TrafficMenu::configure_probabilities(&vec![0, 100]).unwrap();
    assert_eq!(short.len(), 2);
    assert!(TrafficMenu::configure_probabilities(&Vec::new()).unwrap().is_empty());
    assert_eq!(
        TrafficMenu::configure_probabilities(&vec![10, 101, 30]).err(),
        Some(TableError::InvalidProbability)
    );
    assert_eq!(
        TrafficMenu::configure_probabilities(&vec![1, 2, 3, 4, 5, 6, 7]).err(),
        Some(TableError::InvalidProbability)
    );
}

#[test]
fn settings_are_applied_when_they_are_positive() {
    let mut config = TrafficConfig::default();
    assert!(TrafficMenu::apply(&mut config, TrafficSetting::Interval(100)));
    assert_eq!(config.interval_ms, 100);
    assert!(!TrafficMenu::apply(&mut config, TrafficSetting::Interval(0)));
    assert_eq!(config.interval_ms, 100);
    assert!(TrafficMenu::apply(&mut config, TrafficSetting::Variance(7)));
    assert_eq!(config.interval_variance, 7);
    assert!(!TrafficMenu::apply(&mut config, TrafficSetting::Variance(0)));
    assert_eq!(config.interval_variance, 7);
    assert!(TrafficMenu::apply(&mut config, TrafficSetting::Limit(Some(5))));
    assert_eq!(config.max_transactions, Some(5));
    assert!(!TrafficMenu::apply(&mut config, TrafficSetting::Limit(Some(0))));
    assert_eq!(config.max_transactions, Some(5));
    assert!(TrafficMenu::apply(&mut config, TrafficSetting::Limit(None)));
    assert_eq!(config.max_transactions, None);
    assert!(TrafficMenu::apply(
        &mut config,
        TrafficSetting::Probabilities(AmountProbabilities::new())
    ));
    assert!(config.amount_probabilities.is_empty());
    assert_eq!(config.interval_ms, 100);
    assert!(TrafficMenu::apply(&mut config, TrafficSetting::Reset));
    assert_eq!(config.interval_ms, 5000);
    assert_eq!(config.interval_variance, 2000);
    assert_eq!(config.max_transactions, None);
    assert_eq!(config.amount_probabilities.len(), 6);
}
