use merchant_emulator::config::{ApiType, AppConfig, Config};
use merchant_emulator::menu::{
    App, AppState, DeviceMenuItem, MainMenu, MenuItem, MerchantMenu, MerchantMenuItem,
    TrafficStatus,
};
use merchant_emulator::text::joined;
use merchant_emulator::websocket::WebSocketClient;

#[test]
fn default_config_points_at_the_local_backend() {
    let config = AppConfig::default();
    assert_eq!(config.api_base_url, "http://localhost:3000/api");
    assert!(matches!(config.api_type, ApiType::Local));
}

#[test]
fn api_type_decides_the_base_address() {
    let mut config = AppConfig::default();
    config.set_api_type(ApiType::Production);
    assert_eq!(config.api_base_url, "https://chasepay.pro/api");
    assert!(matches!(config.api_type, ApiType::Production));
    config.set_api_type(ApiType::Custom("http://10.0.0.1:8000/api".to_string()));
    assert_eq!(config.api_base_url, "http://10.0.0.1:8000/api");
    assert!(matches!(&config.api_type, ApiType::Custom(url) if url == "http://10.0.0.1:8000/api"));
    config.set_api_type(ApiType::Local);
    assert_eq!(config.api_base_url, "http://localhost:3000/api");
}

#[test]
fn merchant_config_starts_with_the_documented_values() {
    let config = Config::with_dirs("/data".to_string(), "/exports".to_string());
    assert_eq!(config.api_base_url, "http://localhost:3000");
    assert_eq!(config.callback_server_port, 8080);
    assert_eq!(config.data_dir, "/data");
    assert_eq!(config.export_dir, "/exports");
    assert_eq!(config.log_level, "info");
    assert!(config.device_emulator_enabled);
}

#[test]
fn websocket_address_replaces_the_scheme() {
    let client = WebSocketClient::new("http://localhost:3000/api".to_string());
    assert_eq!(client.base_url(), "ws://localhost:3000/api");
    let client = WebSocketClient::new("https://chasepay.pro/api".to_string());
    assert_eq!(client.base_url(), "wss://chasepay.pro/api");
    let client = WebSocketClient::new("localhost:3000".to_string());
    assert_eq!(client.base_url(), "localhost:3000");
}

#[test]
fn websocket_address_replaces_every_occurrence() {
    let client = WebSocketClient::new("http://a/http://b/https://c".to_string());
    assert_eq!(client.base_url(), "ws://a/ws://b/wss://c");
    let client = WebSocketClient::new("".to_string());
    assert_eq!(client.base_url(), "");
}

#[test]
fn device_endpoint_is_appended() {
    let client = WebSocketClient::new("http://localhost:3000/api".to_string());
    assert_eq!(client.device_url("dev-1"), "ws://localhost:3000/api/ws/device/dev-1");
    assert_eq!(joined("ab", "cd"), "abcd");
    assert_eq!(joined("", ""), "");
}

#[test]
fn main_menu_positions_stand_for_its_entries() {
    assert_eq!(MainMenu::item_for(0), MenuItem::CreateMerchant);
    assert_eq!(MainMenu::item_for(1), MenuItem::SelectMerchant);
    assert_eq!(MainMenu::item_for(2), MenuItem::ViewStatistics);
    assert_eq!(MainMenu::item_for(3), MenuItem::ExportData);
    assert_eq!(MainMenu::item_for(4), MenuItem::DeviceEmulator);
    assert_eq!(MainMenu::item_for(5), MenuItem::Settings);
    assert_eq!(MainMenu::item_for(6), MenuItem::Exit);
    assert_eq!(MainMenu::item_for(100), MenuItem::Exit);
}

#[test]
fn merchant_menu_with_logged_traffic() {
    let info = Some((true, false));
    assert_eq!(MerchantMenu::item_for(0, info), MerchantMenuItem::ConfigureTraffic);
    assert_eq!(MerchantMenu::item_for(1, info), MerchantMenuItem::StopTraffic);
    assert_eq!(MerchantMenu::item_for(2, info), MerchantMenuItem::ViewLogs);
    assert_eq!(MerchantMenu::item_for(3, info), MerchantMenuItem::ViewTransactions);
    assert_eq!(MerchantMenu::item_for(4, info), MerchantMenuItem::ViewStatistics);
    assert_eq!(MerchantMenu::item_for(5, info), MerchantMenuItem::ExportData);
    assert_eq!(MerchantMenu::item_for(6, info), MerchantMenuItem::ConfigureCallback);
    assert_eq!(MerchantMenu::item_for(7, info), MerchantMenuItem::TogglePaymentType);
    assert_eq!(MerchantMenu::item_for(8, info), MerchantMenuItem::SetLiquidity);
    assert_eq!(MerchantMenu::item_for(9, info), MerchantMenuItem::Back);
    assert_eq!(MerchantMenu::traffic_status(info), TrafficStatus::Running);
}

#[test]
fn merchant_menu_with_quiet_traffic() {
    let info = Some((true, true));
    assert_eq!(MerchantMenu::item_for(0, info), MerchantMenuItem::ConfigureTraffic);
    assert_eq!(MerchantMenu::item_for(1, info), MerchantMenuItem::StopTraffic);
    assert_eq!(MerchantMenu::item_for(2, info), MerchantMenuItem::ViewTransactions);
    assert_eq!(MerchantMenu::item_for(3, info), MerchantMenuItem::ViewStatistics);
    assert_eq!(MerchantMenu::item_for(7, info), MerchantMenuItem::SetLiquidity);
    assert_eq!(MerchantMenu::item_for(8, info), MerchantMenuItem::Back);
    assert_eq!(MerchantMenu::traffic_status(info), TrafficStatus::RunningQuiet);
}

#[test]
fn merchant_menu_without_traffic() {
    for info in [None, Some((false, false)), Some((false, true))] {
        assert_eq!(MerchantMenu::item_for(0, info), MerchantMenuItem::ConfigureTraffic);
        assert_eq!(MerchantMenu::item_for(1, info), MerchantMenuItem::StartTraffic);
        assert_eq!(MerchantMenu::item_for(2, info), MerchantMenuItem::StartTrafficQuiet);
        assert_eq!(MerchantMenu::item_for(3, info), MerchantMenuItem::ViewStatistics);
        assert_eq!(MerchantMenu::item_for(8, info), MerchantMenuItem::Back);
        assert_eq!(MerchantMenu::traffic_status(info), TrafficStatus::Stopped);
    }
}

#[test]
fn device_menu_lists_its_entries_in_order() {
    let items = DeviceMenuItem::all();
    assert_eq!(items.len(), 9);
    assert_eq!(items[0], DeviceMenuItem::CreateDevice);
    assert_eq!(items[8], DeviceMenuItem::Back);
    let labels: Vec<String> = items.iter().map(|item| item.label()).collect();
    assert_eq!(
        labels,
        vec![
            "Create New Device",
            "List All Devices",
            "Connect Device",
            "Connect All Devices",
            "Disconnect Device",
            "Send Test Notification",
            "Link Device to Trader",
            "Update Device Info",
            "Back to Main Menu",
        ]
    );
}

#[test]
fn cursor_moves_around_the_main_menu() {
    let mut app = App::new();
    assert_eq!(app.state, AppState::MainMenu);
    assert_eq!(app.selected, Some(0));
    assert_eq!(app.entry_count(), 2);
    app.next();
    assert_eq!(app.selected, Some(1));
    app.next();
    assert_eq!(app.selected, Some(0));
    app.previous();
    assert_eq!(app.selected, Some(1));
    app.previous();
    assert_eq!(app.selected, Some(0));
}

#[test]
fn cursor_starts_at_the_first_entry_when_nothing_is_selected() {
    let mut app = App::new();
    app.selected = None;
    app.next();
    assert_eq!(app.selected, Some(0));
    app.selected = None;
    app.previous();
    assert_eq!(app.selected, Some(0));
}

#[test]
fn device_list_has_one_entry_more_than_devices() {
    let mut app = App::new();
    app.state = AppState::DeviceList;
    assert_eq!(app.entry_count(), 1);
    app.next();
    assert_eq!(app.selected, Some(0));
    app.devices.push(merchant_emulator::device::Device::with_identity(
        "a".to_string(),
        1,
        "a".to_string(),
    ));
    app.devices.push(merchant_emulator::device::Device::with_identity(
        "b".to_string(),
        1,
        "b".to_string(),
    ));
    assert_eq!(app.entry_count(), 3);
    app.previous();
    assert_eq!(app.selected, Some(2));
    app.next();
    assert_eq!(app.selected, Some(0));
}

#[test]
fn lists_have_their_fixed_lengths() {
    let mut app = App::new();
    for (state, count) in [
        (AppState::MainMenu, 2),
        (AppState::ApiSettings, 3),
        (AppState::DeviceMenu(0), 3),
        (AppState::NotificationMenu(0), 2),
        (AppState::NotificationBankSelect(0), 6),
        (AppState::ApiSettingsCustomInput, 1),
        (AppState::DeviceCodeInput(0), 1),
        (AppState::DeviceConnecting(0), 1),
        (AppState::NotificationAmountInput(0), 1),
        (AppState::NotificationMessageInput(0), 1),
    ] {
        app.state = state;
        assert_eq!(app.entry_count(), count);
    }
}

#[test]
fn back_leads_to_the_screen_behind() {
    let mut app = App::new();
    for (from, to) in [
        (AppState::ApiSettings, AppState::MainMenu),
        (AppState::DeviceList, AppState::MainMenu),
        (AppState::DeviceMenu(3), AppState::DeviceList),
        (AppState::NotificationMenu(3), AppState::DeviceMenu(3)),
        (AppState::NotificationBankSelect(4), AppState::NotificationMenu(4)),
        (AppState::MainMenu, AppState::MainMenu),
        (AppState::DeviceConnecting(1), AppState::DeviceConnecting(1)),
    ] {
        app.state = from;
        app.selected = Some(2);
        app.handle_back();
        assert_eq!(app.state, to);
        assert_eq!(app.selected, Some(0));
    }
}

#[test]
fn escape_drops_the_text_and_returns_to_the_asking_screen() {
    let mut app = App::new();
    for (from, to) in [
        (AppState::ApiSettingsCustomInput, AppState::ApiSettings),
        (AppState::DeviceCodeInput(2), AppState::DeviceMenu(2)),
        (AppState::NotificationAmountInput(2), AppState::NotificationMenu(2)),
        (AppState::NotificationMessageInput(2), AppState::NotificationBankSelect(2)),
        (AppState::MainMenu, AppState::MainMenu),
    ] {
        app.state = from;
        app.input_buffer = "typed".to_string();
        app.selected = Some(1);
        app.handle_escape();
        assert_eq!(app.state, to);
        assert_eq!(app.input_buffer, "");
        assert_eq!(app.selected, Some(1));
    }
}
