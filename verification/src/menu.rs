//! What the operator's menus mean: which entry a selection stands for, where
//! the cursor of a list goes, and which screen follows which. Drawing the
//! menus and reading the keys are the caller's.

use crate::amount_range_map::{decimal_of, decimal_text, parse_number, parsed_number};
use crate::config::{base_url_of, ApiType, AppConfig};
use crate::device::Device;
use crate::merchant::TrafficConfig;
use crate::models::ConnectDeviceResponse;
use crate::sampler::{
    insert_outcome, standard_rows, AmountProbabilities, AmountRange, TableError, WeightedRange,
};
use crate::text::{joined, trim_text, trimmed};
use vstd::prelude::*;

verus! {

/// The entries of the merchant emulator's main menu, in display order.
#[derive(Debug, Clone, Copy, PartialEq, Eq, Structural)]
pub enum MenuItem {
    CreateMerchant,
    SelectMerchant,
    ViewStatistics,
    ExportData,
    DeviceEmulator,
    Settings,
    Exit,
}

/// The merchant emulator's main menu.
pub struct MainMenu;

impl MainMenu {
    /// The entry at a position of the menu; a position past the end stands
    /// for leaving.
    pub open spec fn entry(selection: usize) -> MenuItem {
        if selection == 0 {
            MenuItem::CreateMerchant
        } else if selection == 1 {
            MenuItem::SelectMerchant
        } else if selection == 2 {
            MenuItem::ViewStatistics
        } else if selection == 3 {
            MenuItem::ExportData
        } else if selection == 4 {
            MenuItem::DeviceEmulator
        } else if selection == 5 {
            MenuItem::Settings
        } else {
            MenuItem::Exit
        }
    }

    /// The entry at a position of the menu.
    pub fn item_for(selection: usize) -> (item: MenuItem)
        ensures
            item == Self::entry(selection),
    {
        match selection {
            0 => MenuItem::CreateMerchant,
            1 => MenuItem::SelectMerchant,
            2 => MenuItem::ViewStatistics,
            3 => MenuItem::ExportData,
            4 => MenuItem::DeviceEmulator,
            5 => MenuItem::Settings,
            _ => MenuItem::Exit,
        }
    }
}

/// The entries of a merchant's menu.
#[derive(Debug, Clone, Copy, PartialEq, Eq, Structural)]
pub enum MerchantMenuItem {
    ConfigureTraffic,
    StartTraffic,
    StartTrafficQuiet,
    StopTraffic,
    ViewTransactions,
    ViewStatistics,
    ExportData,
    ConfigureCallback,
    TogglePaymentType,
    SetLiquidity,
    ViewLogs,
    Back,
}

/// How a merchant's traffic shows in its menu.
#[derive(Debug, Clone, Copy, PartialEq, Eq, Structural)]
pub enum TrafficStatus {
    Stopped,
    Running,
    RunningQuiet,
}

/// The menu of one merchant.
pub struct MerchantMenu;

impl MerchantMenu {
    /// The entry at a position of the common tail of the menu.
    pub open spec fn tail_entry(offset: int) -> MerchantMenuItem {
        if offset == 0 {
            MerchantMenuItem::ViewTransactions
        } else if offset == 1 {
            MerchantMenuItem::ViewStatistics
        } else if offset == 2 {
            MerchantMenuItem::ExportData
        } else if offset == 3 {
            MerchantMenuItem::ConfigureCallback
        } else if offset == 4 {
            MerchantMenuItem::TogglePaymentType
        } else if offset == 5 {
            MerchantMenuItem::SetLiquidity
        } else {
            MerchantMenuItem::Back
        }
    }

    /// The entry that a selection stands for, given whether traffic runs and
    /// whether it runs quietly. The first entry configures the traffic; the
    /// second stops or starts it; the third shows the logs of traffic that
    /// runs with logs, or starts quiet traffic when none runs. Behind these
    /// the common tail begins: at the fourth position for traffic that runs
    /// with logs, at the third otherwise.
    pub open spec fn entry(selection: usize, running: bool, quiet: bool) -> MerchantMenuItem {
        if selection == 0 {
            MerchantMenuItem::ConfigureTraffic
        } else if selection == 1 {
            if running {
                MerchantMenuItem::StopTraffic
            } else {
                MerchantMenuItem::StartTraffic
            }
        } else if selection == 2 && running && !quiet {
            MerchantMenuItem::ViewLogs
        } else if selection == 2 && !running {
            MerchantMenuItem::StartTrafficQuiet
        } else if running && !quiet {
            Self::tail_entry(selection - 3)
        } else {
            Self::tail_entry(selection - 2)
        }
    }

    fn tail_item(offset: usize) -> (item: MerchantMenuItem)
        ensures
            item == Self::tail_entry(offset as int),
    {
        match offset {
            0 => MerchantMenuItem::ViewTransactions,
            1 => MerchantMenuItem::ViewStatistics,
            2 => MerchantMenuItem::ExportData,
            3 => MerchantMenuItem::ConfigureCallback,
            4 => MerchantMenuItem::TogglePaymentType,
            5 => MerchantMenuItem::SetLiquidity,
            _ => MerchantMenuItem::Back,
        }
    }

    /// The entry that a selection stands for. `traffic_info` is what the
    /// traffic registry answers for the merchant: nothing when no traffic
    /// runs, else whether it runs and whether it is quiet.
    pub fn item_for(selection: usize, traffic_info: Option<(bool, bool)>) -> (item:
        MerchantMenuItem)
        ensures
            item == match traffic_info {
                Some((running, quiet)) => Self::entry(selection, running, quiet),
                None => Self::entry(selection, false, false),
            },
    {
        let (running, quiet) = match traffic_info {
            Some(info) => info,
            None => (false, false),
        };
        if selection == 0 {
            MerchantMenuItem::ConfigureTraffic
        } else if selection == 1 {
            if running {
                MerchantMenuItem::StopTraffic
            } else {
                MerchantMenuItem::StartTraffic
            }
        } else if selection == 2 && running && !quiet {
            MerchantMenuItem::ViewLogs
        } else if selection == 2 && !running {
            MerchantMenuItem::StartTrafficQuiet
        } else if running && !quiet {
            Self::tail_item(selection - 3)
        } else {
            Self::tail_item(selection - 2)
        }
    }

    /// How the merchant's traffic shows in the menu's header.
    pub fn traffic_status(traffic_info: Option<(bool, bool)>) -> (status: TrafficStatus)
        ensures
            status == match traffic_info {
                Some((true, true)) => TrafficStatus::RunningQuiet,
                Some((true, false)) => TrafficStatus::Running,
                _ => TrafficStatus::Stopped,
            },
    {
        match traffic_info {
            Some((true, true)) => TrafficStatus::RunningQuiet,
            Some((true, false)) => TrafficStatus::Running,
            _ => TrafficStatus::Stopped,
        }
    }
}

/// The entries of the device menu, in display order.
#[derive(Debug, Clone, Copy, PartialEq, Eq, Structural)]
pub enum DeviceMenuItem {
    CreateDevice,
    ListDevices,
    ConnectDevice,
    ConnectAll,
    DisconnectDevice,
    SendNotification,
    LinkToTrader,
    UpdateDeviceInfo,
    Back,
}

impl DeviceMenuItem {
    /// The entry's text as a specification.
    pub open spec fn label_of(self) -> Seq<char> {
        match self {
            DeviceMenuItem::CreateDevice => "Create New Device"@,
            DeviceMenuItem::ListDevices => "List All Devices"@,
            DeviceMenuItem::ConnectDevice => "Connect Device"@,
            DeviceMenuItem::ConnectAll => "Connect All Devices"@,
            DeviceMenuItem::DisconnectDevice => "Disconnect Device"@,
            DeviceMenuItem::SendNotification => "Send Test Notification"@,
            DeviceMenuItem::LinkToTrader => "Link Device to Trader"@,
            DeviceMenuItem::UpdateDeviceInfo => "Update Device Info"@,
            DeviceMenuItem::Back => "Back to Main Menu"@,
        }
    }

    /// The entry's text in the menu.
    pub fn label(&self) -> (text: String)
        ensures
            text@ == self.label_of(),
    {
        match self {
            DeviceMenuItem::CreateDevice => "Create New Device".to_owned(),
            DeviceMenuItem::ListDevices => "List All Devices".to_owned(),
            DeviceMenuItem::ConnectDevice => "Connect Device".to_owned(),
            DeviceMenuItem::ConnectAll => "Connect All Devices".to_owned(),
            DeviceMenuItem::DisconnectDevice => "Disconnect Device".to_owned(),
            DeviceMenuItem::SendNotification => "Send Test Notification".to_owned(),
            DeviceMenuItem::LinkToTrader => "Link Device to Trader".to_owned(),
            DeviceMenuItem::UpdateDeviceInfo => "Update Device Info".to_owned(),
            DeviceMenuItem::Back => "Back to Main Menu".to_owned(),
        }
    }

    /// The entries in display order.
    pub fn all() -> (items: Vec<DeviceMenuItem>)
        ensures
            items@ == seq![
                DeviceMenuItem::CreateDevice,
                DeviceMenuItem::ListDevices,
                DeviceMenuItem::ConnectDevice,
                DeviceMenuItem::ConnectAll,
                DeviceMenuItem::DisconnectDevice,
                DeviceMenuItem::SendNotification,
                DeviceMenuItem::LinkToTrader,
                DeviceMenuItem::UpdateDeviceInfo,
                DeviceMenuItem::Back,
            ],
    {
        let mut items: Vec<DeviceMenuItem> = Vec::new();
        items.push(DeviceMenuItem::CreateDevice);
        items.push(DeviceMenuItem::ListDevices);
        items.push(DeviceMenuItem::ConnectDevice);
        items.push(DeviceMenuItem::ConnectAll);
        items.push(DeviceMenuItem::DisconnectDevice);
        items.push(DeviceMenuItem::SendNotification);
        items.push(DeviceMenuItem::LinkToTrader);
        items.push(DeviceMenuItem::UpdateDeviceInfo);
        items.push(DeviceMenuItem::Back);
        assert(items@ =~= seq![
            DeviceMenuItem::CreateDevice,
            DeviceMenuItem::ListDevices,
            DeviceMenuItem::ConnectDevice,
            DeviceMenuItem::ConnectAll,
            DeviceMenuItem::DisconnectDevice,
            DeviceMenuItem::SendNotification,
            DeviceMenuItem::LinkToTrader,
            DeviceMenuItem::UpdateDeviceInfo,
            DeviceMenuItem::Back,
        ]);
        items
    }
}

/// The screens of the device emulator. A screen about one device carries the
/// device's position in the list.
#[derive(Debug, Clone, Copy, PartialEq, Eq, Structural)]
pub enum AppState {
    MainMenu,
    ApiSettings,
    ApiSettingsCustomInput,
    DeviceList,
    DeviceMenu(usize),
    DeviceCodeInput(usize),
    DeviceConnecting(usize),
    NotificationMenu(usize),
    NotificationAmountInput(usize),
    NotificationBankSelect(usize),
    NotificationMessageInput(usize),
}

/// Number of entries of the list that a screen shows, for a list of
/// `devices` devices: the device list has one entry more than there are
/// devices, for creating one; a screen without a list counts as one entry.
pub open spec fn entries_of(state: AppState, devices: nat) -> nat {
    match state {
        AppState::MainMenu => 2,
        AppState::ApiSettings => 3,
        AppState::DeviceList => devices + 1,
        AppState::DeviceMenu(_) => 3,
        AppState::NotificationMenu(_) => 2,
        AppState::NotificationBankSelect(_) => 6,
        _ => 1,
    }
}

/// Where the cursor goes on a step down: to the next entry, from the last
/// entry back to the first, and to the first where nothing was selected.
pub open spec fn cursor_after_next(selected: Option<usize>, entries: nat) -> nat {
    match selected {
        Some(i) => if i >= entries - 1 {
            0
        } else {
            (i + 1) as nat
        },
        None => 0,
    }
}

/// Where the cursor goes on a step up: to the entry before, from the first
/// entry to the last, and to the first where nothing was selected.
pub open spec fn cursor_after_previous(selected: Option<usize>, entries: nat) -> nat {
    match selected {
        Some(i) => if i == 0 {
            (entries - 1) as nat
        } else {
            (i - 1) as nat
        },
        None => 0,
    }
}

/// The screen that the back key leads to; a screen that takes text stays.
pub open spec fn screen_behind(state: AppState) -> AppState {
    match state {
        AppState::ApiSettings => AppState::MainMenu,
        AppState::DeviceList => AppState::MainMenu,
        AppState::DeviceMenu(_) => AppState::DeviceList,
        AppState::NotificationMenu(idx) => AppState::DeviceMenu(idx),
        AppState::NotificationBankSelect(idx) => AppState::NotificationMenu(idx),
        other => other,
    }
}

/// The screen that escaping from a text input leads to.
pub open spec fn screen_after_escape(state: AppState) -> AppState {
    match state {
        AppState::ApiSettingsCustomInput => AppState::ApiSettings,
        AppState::DeviceCodeInput(idx) => AppState::DeviceMenu(idx),
        AppState::NotificationAmountInput(idx) => AppState::NotificationMenu(idx),
        AppState::NotificationMessageInput(idx) => AppState::NotificationBankSelect(idx),
        other => other,
    }
}

/// The device emulator's screen state.
#[derive(Debug)]
pub struct App {
    pub state: AppState,
    pub devices: Vec<Device>,
    /// The cursor of the current list.
    pub selected: Option<usize>,
    pub input_buffer: String,
    pub error_message: Option<String>,
    pub success_message: Option<String>,
    pub notification_amount: Option<u32>,
    pub selected_bank: Option<String>,
}

impl App {
    /// The state at start: the main menu with the cursor on its first entry.
    pub fn new() -> (app: App)
        ensures
            app.state == AppState::MainMenu,
            app.devices@ == Seq::<Device>::empty(),
            app.selected == Some(0usize),
            app.input_buffer@ == Seq::<char>::empty(),
            app.error_message is None,
            app.success_message is None,
            app.notification_amount is None,
            app.selected_bank is None,
    {
        App {
            state: AppState::MainMenu,
            devices: Vec::new(),
            selected: Some(0),
            input_buffer: String::new(),
            error_message: None,
            success_message: None,
            notification_amount: None,
            selected_bank: None,
        }
    }

    /// Number of entries of the current list.
    pub fn entry_count(&self) -> (count: usize)
        requires
            self.devices@.len() < usize::MAX,
        ensures
            count == entries_of(self.state, self.devices@.len()),
    {
        match self.state {
            AppState::MainMenu => 2,
            AppState::ApiSettings => 3,
            AppState::DeviceList => self.devices.len() + 1,
            AppState::DeviceMenu(_) => 3,
            AppState::NotificationMenu(_) => 2,
            AppState::NotificationBankSelect(_) => 6,
            _ => 1,
        }
    }

    /// Moves the cursor one entry down, around the end.
    pub fn next(&mut self)
        requires
            old(self).devices@.len() < usize::MAX,
        ensures
            final(self).selected == Some(
                cursor_after_next(
                    old(self).selected,
                    entries_of(old(self).state, old(self).devices@.len()),
                ) as usize,
            ),
            final(self).state == old(self).state,
            final(self).devices == old(self).devices,
            final(self).input_buffer == old(self).input_buffer,
            final(self).error_message == old(self).error_message,
            final(self).success_message == old(self).success_message,
            final(self).notification_amount == old(self).notification_amount,
            final(self).selected_bank == old(self).selected_bank,
    {
        let max = self.entry_count();
        let i = match self.selected {
            Some(i) => {
                if i >= max - 1 {
                    0
                } else {
                    i + 1
                }
            },
            None => 0,
        };
        self.selected = Some(i);
    }

    /// Moves the cursor one entry up, around the start.
    pub fn previous(&mut self)
        requires
            old(self).devices@.len() < usize::MAX,
        ensures
            final(self).selected == Some(
                cursor_after_previous(
                    old(self).selected,
                    entries_of(old(self).state, old(self).devices@.len()),
                ) as usize,
            ),
            final(self).state == old(self).state,
            final(self).devices == old(self).devices,
            final(self).input_buffer == old(self).input_buffer,
            final(self).error_message == old(self).error_message,
            final(self).success_message == old(self).success_message,
            final(self).notification_amount == old(self).notification_amount,
            final(self).selected_bank == old(self).selected_bank,
    {
        let max = self.entry_count();
        let i = match self.selected {
            Some(i) => {
                if i == 0 {
                    max - 1
                } else {
                    i - 1
                }
            },
            None => 0,
        };
        self.selected = Some(i);
    }

    /// Goes back one screen and puts the cursor on the first entry.
    pub fn handle_back(&mut self)
        ensures
            final(self).state == screen_behind(old(self).state),
            final(self).selected == Some(0usize),
            final(self).devices == old(self).devices,
            final(self).input_buffer == old(self).input_buffer,
            final(self).error_message == old(self).error_message,
            final(self).success_message == old(self).success_message,
            final(self).notification_amount == old(self).notification_amount,
            final(self).selected_bank == old(self).selected_bank,
    {
        match self.state {
            AppState::ApiSettings => {
                self.state = AppState::MainMenu;
            },
            AppState::DeviceList => {
                self.state = AppState::MainMenu;
            },
            AppState::DeviceMenu(_) => {
                self.state = AppState::DeviceList;
            },
            AppState::NotificationMenu(idx) => {
                self.state = AppState::DeviceMenu(idx);
            },
            AppState::NotificationBankSelect(idx) => {
                self.state = AppState::NotificationMenu(idx);
            },
            _ => {},
        }
        self.selected = Some(0);
    }

    /// Leaves a text input without taking its text: the text is dropped and
    /// the screen that asked for it comes back.
    pub fn handle_escape(&mut self)
        ensures
            final(self).state == screen_after_escape(old(self).state),
            final(self).input_buffer@ == Seq::<char>::empty(),
            final(self).selected == old(self).selected,
            final(self).devices == old(self).devices,
            final(self).error_message == old(self).error_message,
            final(self).success_message == old(self).success_message,
            final(self).notification_amount == old(self).notification_amount,
            final(self).selected_bank == old(self).selected_bank,
    {
        self.input_buffer = String::new();
        match self.state {
            AppState::ApiSettingsCustomInput => {
                self.state = AppState::ApiSettings;
            },
            AppState::DeviceCodeInput(idx) => {
                self.state = AppState::DeviceMenu(idx);
            },
            AppState::NotificationAmountInput(idx) => {
                self.state = AppState::NotificationMenu(idx);
            },
            AppState::NotificationMessageInput(idx) => {
                self.state = AppState::NotificationBankSelect(idx);
            },
            _ => {},
        }
    }
}

/// Number of banks offered for a bank notification.
pub const BANK_COUNT: usize = 6;

/// What the caller has to do after the enter key.
#[derive(Debug, Clone, Copy, PartialEq, Eq, Structural)]
pub enum EnterAction {
    /// Nothing: the key was handled within the screen state.
    Nothing,
    /// Send a batch of random notifications from the device at the position.
    SendRandomNotifications(usize),
}

/// What the caller has to do after a text was submitted.
#[derive(Debug)]
pub enum SubmitAction {
    /// Nothing: the text was handled within the screen state.
    Nothing,
    /// Open a session for the device at the position with the code.
    ConnectDevice { device: usize, code: String },
    /// Send a bank notification from the device at the position.
    SendBankNotification { device: usize, amount: u32, bank: String, message: Option<String> },
}

/// The cursor's position, the first entry where nothing is selected.
pub open spec fn cursor_of(selected: Option<usize>) -> usize {
    match selected {
        Some(i) => i,
        None => 0,
    }
}

/// The screen that the enter key leads to.
pub open spec fn screen_after_enter(state: AppState, selected: usize, devices: Seq<Device>)
    -> AppState {
    match state {
        AppState::MainMenu => if selected == 0 {
            AppState::ApiSettings
        } else if selected == 1 {
            AppState::DeviceList
        } else {
            AppState::MainMenu
        },
        AppState::ApiSettings => if selected == 2 {
            AppState::ApiSettingsCustomInput
        } else {
            AppState::MainMenu
        },
        AppState::DeviceList => if selected == devices.len() {
            AppState::DeviceList
        } else {
            AppState::DeviceMenu(selected)
        },
        AppState::DeviceMenu(idx) => if idx >= devices.len() {
            state
        } else if selected == 0 {
            if devices[idx as int].is_connected {
                AppState::NotificationMenu(idx)
            } else {
                AppState::DeviceCodeInput(idx)
            }
        } else if selected == 2 {
            AppState::DeviceList
        } else {
            state
        },
        AppState::NotificationMenu(idx) => if selected == 1 {
            AppState::NotificationAmountInput(idx)
        } else {
            state
        },
        AppState::NotificationBankSelect(idx) => if selected < BANK_COUNT {
            AppState::NotificationMessageInput(idx)
        } else {
            state
        },
        other => other,
    }
}

/// What the enter key asks of the caller.
pub open spec fn action_after_enter(state: AppState, selected: usize) -> EnterAction {
    match state {
        AppState::NotificationMenu(idx) => if selected == 0 {
            EnterAction::SendRandomNotifications(idx)
        } else {
            EnterAction::Nothing
        },
        _ => EnterAction::Nothing,
    }
}

/// The devices after the enter key: on the device list's last entry a new
/// device is appended, on a connected device's second menu entry that device
/// is disconnected, and nothing changes otherwise.
pub open spec fn devices_after_enter(
    state: AppState,
    selected: usize,
    before: Seq<Device>,
    after: Seq<Device>,
) -> bool {
    match state {
        AppState::DeviceList => if selected == before.len() {
            &&& after.len() == before.len() + 1
            &&& after.subrange(0, before.len() as int) == before
            &&& !after.last().is_connected
            &&& after.last().token is None
            &&& after.last().battery_level == crate::device::INITIAL_BATTERY
        } else {
            after == before
        },
        AppState::DeviceMenu(idx) => if idx < before.len() && selected == 1
            && before[idx as int].is_connected {
            after == before.update(idx as int, before[idx as int].disconnected())
        } else {
            after == before
        },
        _ => after == before,
    }
}

fn bank_name(position: usize) -> (name: String)
    requires
        position < BANK_COUNT,
    ensures
        name@ == bank_at(position),
{
    if position == 0 {
        "Сбербанк".to_owned()
    } else if position == 1 {
        "Тинькофф".to_owned()
    } else if position == 2 {
        "ВТБ".to_owned()
    } else if position == 3 {
        "Альфа-Банк".to_owned()
    } else if position == 4 {
        "Газпромбанк".to_owned()
    } else {
        "Другой".to_owned()
    }
}

/// The bank at a position of the bank list.
pub open spec fn bank_at(position: usize) -> Seq<char> {
    if position == 0 {
        "Сбербанк"@
    } else if position == 1 {
        "Тинькофф"@
    } else if position == 2 {
        "ВТБ"@
    } else if position == 3 {
        "Альфа-Банк"@
    } else if position == 4 {
        "Газпромбанк"@
    } else {
        "Другой"@
    }
}

/// The amount that a text stands for, if it stands for one.
pub open spec fn parsed_amount(text: Seq<char>) -> Option<u32> {
    match parsed_number(text) {
        Some(n) => if n <= u32::MAX {
            Some(n as u32)
        } else {
            None
        },
        None => None,
    }
}

impl App {
    /// Handles the enter key on a screen with a list. `config` is the
    /// emulator's configuration, which the API settings screen changes.
    pub fn handle_enter(&mut self, config: &mut AppConfig) -> (action: EnterAction)
        ensures
            final(self).state == screen_after_enter(
                old(self).state,
                cursor_of(old(self).selected),
                old(self).devices@,
            ),
            action == action_after_enter(old(self).state, cursor_of(old(self).selected)),
            devices_after_enter(
                old(self).state,
                cursor_of(old(self).selected),
                old(self).devices@,
                final(self).devices@,
            ),
            final(self).selected == old(self).selected,
            final(self).notification_amount == old(self).notification_amount,
            final(self).error_message == old(self).error_message,
            old(self).state == AppState::ApiSettings && cursor_of(old(self).selected) == 0
                ==> final(config).api_type == ApiType::Local && final(config).api_base_url@
                == base_url_of(ApiType::Local),
            old(self).state == AppState::ApiSettings && cursor_of(old(self).selected) == 1
                ==> final(config).api_type == ApiType::Production && final(config).api_base_url@
                == base_url_of(ApiType::Production),
            !(old(self).state == AppState::ApiSettings && cursor_of(old(self).selected) < 2)
                ==> *final(config) == *old(config),
            old(self).state == AppState::ApiSettings && cursor_of(old(self).selected) != 2
                ==> final(self).success_message is Some,
            (old(self).state is NotificationBankSelect) && cursor_of(old(self).selected)
                < BANK_COUNT ==> (final(self).selected_bank matches Some(bank) && bank@
                == bank_at(cursor_of(old(self).selected))),
    {
        let selected = match self.selected {
            Some(i) => i,
            None => 0,
        };
        match self.state {
            AppState::MainMenu => {
                if selected == 0 {
                    self.state = AppState::ApiSettings;
                } else if selected == 1 {
                    self.state = AppState::DeviceList;
                }
            },
            AppState::ApiSettings => {
                if selected == 2 {
                    self.state = AppState::ApiSettingsCustomInput;
                    self.input_buffer = String::new();
                    return EnterAction::Nothing;
                }
                if selected == 0 {
                    config.set_api_type(ApiType::Local);
                } else if selected == 1 {
                    config.set_api_type(ApiType::Production);
                }
                self.success_message = Some("API настроен".to_owned());
                self.state = AppState::MainMenu;
            },
            AppState::DeviceList => {
                let count = self.devices.len();
                if selected == count {
                    let ordinal: u64 = if count < usize::MAX {
                        (count + 1) as u64
                    } else {
                        count as u64
                    };
                    let number = decimal_text(ordinal);
                    let name = joined("Устройство ", number.as_str());
                    let ghost before = self.devices@;
                    self.devices.push(Device::new(name));
                    assert(self.devices@.subrange(0, before.len() as int) =~= before);
                    self.success_message = Some("Устройство создано".to_owned());
                } else {
                    self.state = AppState::DeviceMenu(selected);
                }
            },
            AppState::DeviceMenu(idx) => {
                if idx < self.devices.len() {
                    if selected == 0 {
                        if self.devices[idx].is_connected {
                            self.state = AppState::NotificationMenu(idx);
                        } else {
                            self.state = AppState::DeviceCodeInput(idx);
                            self.input_buffer = String::new();
                        }
                    } else if selected == 1 {
                        if self.devices[idx].is_connected {
                            let mut device = self.devices[idx].snapshot();
                            device.disconnect();
                            self.devices.set(idx, device);
                            self.success_message = Some("Устройство отключено".to_owned());
                        }
                    } else if selected == 2 {
                        self.state = AppState::DeviceList;
                    }
                }
            },
            AppState::NotificationMenu(idx) => {
                if selected == 0 {
                    return EnterAction::SendRandomNotifications(idx);
                } else if selected == 1 {
                    self.state = AppState::NotificationAmountInput(idx);
                    self.input_buffer = String::new();
                }
            },
            AppState::NotificationBankSelect(idx) => {
                if selected < BANK_COUNT {
                    self.selected_bank = Some(bank_name(selected));
                    self.state = AppState::NotificationMessageInput(idx);
                    self.input_buffer = String::new();
                }
            },
            _ => {},
        }
        EnterAction::Nothing
    }

    /// Handles the enter key on a screen that takes text. The text is read
    /// without the white space at its ends, and is dropped afterwards.
    pub fn handle_input_submit(&mut self, config: &mut AppConfig) -> (action: SubmitAction)
        ensures
            final(self).input_buffer@ == Seq::<char>::empty(),
            final(self).devices == old(self).devices,
            final(self).selected == old(self).selected,
            match old(self).state {
                AppState::ApiSettingsCustomInput => {
                    let url = trimmed(old(self).input_buffer@);
                    &&& action is Nothing
                    &&& if url.len() > 0 {
                        &&& final(self).state == AppState::MainMenu
                        &&& final(config).api_base_url@ == url
                        &&& (final(config).api_type matches ApiType::Custom(custom) && custom@
                            == url)
                        &&& final(self).success_message is Some
                    } else {
                        &&& final(self).state == old(self).state
                        &&& *final(config) == *old(config)
                    }
                },
                AppState::DeviceCodeInput(idx) => {
                    let code = trimmed(old(self).input_buffer@);
                    &&& *final(config) == *old(config)
                    &&& if code.len() > 0 {
                        &&& final(self).state == AppState::DeviceConnecting(idx)
                        &&& (action matches SubmitAction::ConnectDevice { device, code: sent }
                            && device == idx && sent@ == code)
                    } else {
                        &&& final(self).state == old(self).state
                        &&& action is Nothing
                    }
                },
                AppState::NotificationAmountInput(idx) => {
                    &&& action is Nothing
                    &&& *final(config) == *old(config)
                    &&& match parsed_amount(trimmed(old(self).input_buffer@)) {
                        Some(amount) => {
                            &&& final(self).notification_amount == Some(amount)
                            &&& final(self).state == AppState::NotificationBankSelect(idx)
                            &&& final(self).error_message == old(self).error_message
                        },
                        None => {
                            &&& final(self).notification_amount == old(self).notification_amount
                            &&& final(self).state == old(self).state
                            &&& final(self).error_message is Some
                        },
                    }
                },
                AppState::NotificationMessageInput(idx) => {
                    let text = trimmed(old(self).input_buffer@);
                    &&& *final(config) == *old(config)
                    &&& match (old(self).notification_amount, old(self).selected_bank) {
                        (Some(amount), Some(bank)) => {
                            &&& final(self).state == AppState::NotificationMenu(idx)
                            &&& final(self).notification_amount is None
                            &&& final(self).selected_bank is None
                            &&& (action matches SubmitAction::SendBankNotification {
                                device,
                                amount: sent,
                                bank: chosen,
                                message,
                            } && device == idx && sent == amount && chosen == bank && (match message {
                                Some(m) => text.len() > 0 && m@ == text,
                                None => text.len() == 0,
                            }))
                        },
                        _ => {
                            &&& final(self).state == old(self).state
                            &&& action is Nothing
                            &&& final(self).notification_amount == old(self).notification_amount
                            &&& final(self).selected_bank == old(self).selected_bank
                        },
                    }
                },
                _ => {
                    &&& action is Nothing
                    &&& final(self).state == old(self).state
                    &&& *final(config) == *old(config)
                },
            },
    {
        let text = trim_text(self.input_buffer.as_str());
        let filled = text.as_str().unicode_len() > 0;
        let mut action = SubmitAction::Nothing;
        match self.state {
            AppState::ApiSettingsCustomInput => {
                if filled {
                    config.set_api_type(ApiType::Custom(text));
                    self.success_message = Some("Пользовательский API настроен".to_owned());
                    self.state = AppState::MainMenu;
                }
            },
            AppState::DeviceCodeInput(idx) => {
                if filled {
                    self.state = AppState::DeviceConnecting(idx);
                    action = SubmitAction::ConnectDevice { device: idx, code: text };
                }
            },
            AppState::NotificationAmountInput(idx) => {
                let amount = match parse_number(text.as_str()) {
                    Some(n) => {
                        if n <= u32::MAX as u64 {
                            Some(n as u32)
                        } else {
                            None
                        }
                    },
                    None => None,
                };
                match amount {
                    Some(amount) => {
                        self.notification_amount = Some(amount);
                        self.state = AppState::NotificationBankSelect(idx);
                    },
                    None => {
                        self.error_message = Some("Неверная сумма".to_owned());
                    },
                }
            },
            AppState::NotificationMessageInput(idx) => {
                let message = if filled {
                    Some(text)
                } else {
                    None
                };
                let amount = self.notification_amount;
                let bank = self.selected_bank.take();
                match (amount, bank) {
                    (Some(amount), Some(bank)) => {
                        self.notification_amount = None;
                        self.state = AppState::NotificationMenu(idx);
                        action =
                        SubmitAction::SendBankNotification { device: idx, amount, bank, message };
                    },
                    (_, bank) => {
                        self.selected_bank = bank;
                    },
                }
            },
            _ => {},
        }
        self.input_buffer = String::new();
        action
    }

    /// Takes in the outcome of the attempt to open a session for the device
    /// at `idx` with `code`: the backend's answer, or the text of the error.
    /// With a token in the answer the device is connected and the answer is
    /// true: the caller starts the device's polling pipeline. In every case
    /// the device's menu comes back.
    pub fn connection_answered(
        &mut self,
        idx: usize,
        code: String,
        outcome: Result<ConnectDeviceResponse, String>,
    ) -> (connected: bool)
        requires
            idx < old(self).devices@.len(),
        ensures
            final(self).state == AppState::DeviceMenu(idx),
            final(self).selected == old(self).selected,
            final(self).devices@.len() == old(self).devices@.len(),
            forall|i: int|
                0 <= i < old(self).devices@.len() && i != idx ==> final(self).devices@[i] == old(self).devices@[i],
            connected == (outcome matches Ok(response) && response.token is Some),
            connected ==> {
                &&& final(self).devices@[idx as int].is_connected
                &&& final(self).devices@[idx as int].token == outcome->Ok_0.token
                &&& final(self).devices@[idx as int].device_code == Some(code)
                &&& final(self).devices@[idx as int].id == old(self).devices@[idx as int].id
                &&& final(self).success_message is Some
                &&& final(self).error_message == old(self).error_message
            },
            !connected ==> {
                &&& final(self).devices@[idx as int] == old(self).devices@[idx as int]
                &&& final(self).error_message is Some
                &&& final(self).success_message == old(self).success_message
            },
            match outcome {
                Ok(response) => response.token is None ==> final(self).error_message == Some(
                    response.message,
                ),
                Err(error) => (final(self).error_message matches Some(shown) && shown@
                    == "Ошибка подключения: "@ + error@),
            },
    {
        self.state = AppState::DeviceMenu(idx);
        match outcome {
            Ok(response) => {
                match response.token {
                    Some(token) => {
                        let mut device = self.devices[idx].snapshot();
                        device.connect(code, token);
                        self.devices.set(idx, device);
                        self.success_message = Some("Устройство подключено".to_owned());
                        true
                    },
                    None => {
                        self.error_message = Some(response.message);
                        false
                    },
                }
            },
            Err(error) => {
                self.error_message = Some(joined("Ошибка подключения: ", error.as_str()));
                false
            },
        }
    }

    /// Takes in the number of random notifications that went through.
    pub fn notifications_sent(&mut self, count: u64)
        ensures
            (final(self).success_message matches Some(shown) && shown@ == "Отправлено "@
                + decimal_of(count as nat) + " уведомлений"@),
            final(self).state == old(self).state,
            final(self).devices == old(self).devices,
            final(self).selected == old(self).selected,
            final(self).error_message == old(self).error_message,
    {
        let number = decimal_text(count);
        let head = joined("Отправлено ", number.as_str());
        self.success_message = Some(joined(head.as_str(), " уведомлений"));
    }

    /// Takes in the outcome of sending a bank notification: nothing on
    /// success, the text of the error otherwise.
    pub fn bank_notification_sent(&mut self, error: Option<String>)
        ensures
            final(self).state == old(self).state,
            final(self).devices == old(self).devices,
            final(self).selected == old(self).selected,
            match error {
                None => final(self).success_message is Some && final(self).error_message == old(self).error_message,
                Some(text) => (final(self).error_message matches Some(shown) && shown@
                    == "Ошибка: "@ + text@) && final(self).success_message == old(self).success_message,
            },
    {
        match error {
            None => {
                self.success_message = Some("Уведомление отправлено".to_owned());
            },
            Some(text) => {
                self.error_message = Some(joined("Ошибка: ", text.as_str()));
            },
        }
    }
}

/// A change to a traffic configuration that the operator asks for.
#[derive(Debug)]
pub enum TrafficSetting {
    /// A new base interval, in milliseconds.
    Interval(u64),
    /// A new jitter bound, in milliseconds.
    Variance(u64),
    /// A new transaction cap, or none.
    Limit(Option<u64>),
    /// A new amount-probability table.
    Probabilities(AmountProbabilities),
    /// Back to the defaults.
    Reset,
}

/// Whether a setting can be applied: an interval, a jitter bound and a cap
/// must be positive numbers.
pub open spec fn is_acceptable(setting: TrafficSetting) -> bool {
    match setting {
        TrafficSetting::Interval(ms) => ms > 0,
        TrafficSetting::Variance(ms) => ms > 0,
        TrafficSetting::Limit(Some(cap)) => cap > 0,
        _ => true,
    }
}

/// The probability value offered for the range that starts at `min`.
pub open spec fn offered_probability(min: u64) -> u64 {
    if min == 1000 {
        64
    } else if min == 3000 {
        69
    } else if min == 5000 {
        73
    } else if min == 10000 {
        82
    } else if min == 20000 {
        88
    } else if min == 50000 {
        92
    } else {
        50
    }
}

/// The menu that configures a merchant's traffic.
pub struct TrafficMenu;

impl TrafficMenu {
    /// The probability value offered for the range that starts at `min`.
    pub fn default_probability(min: u64) -> (probability: u64)
        ensures
            probability == offered_probability(min),
            probability <= 100,
    {
        if min == 1000 {
            64
        } else if min == 3000 {
            69
        } else if min == 5000 {
            73
        } else if min == 10000 {
            82
        } else if min == 20000 {
            88
        } else if min == 50000 {
            92
        } else {
            50
        }
    }

    /// The ranges whose probability values can be configured, in the order
    /// in which they are asked for.
    pub fn ranges() -> (ranges: Vec<AmountRange>)
        ensures
            ranges@.len() == standard_rows().len(),
            forall|i: int| 0 <= i < ranges@.len() ==> #[trigger] ranges@[i] == standard_rows()[i].range,
    {
        let rows = AmountProbabilities::standard().rows();
        let mut ranges: Vec<AmountRange> = Vec::new();
        let mut i: usize = 0;
        while i < rows.len()
            invariant
                i <= rows.len(),
                rows@ == standard_rows(),
                ranges@.len() == i,
                forall|k: int| 0 <= k < i ==> #[trigger] ranges@[k] == standard_rows()[k].range,
            decreases rows.len() - i,
        {
            ranges.push(rows[i].range);
            i += 1;
        }
        ranges
    }

    /// Builds the table from the probability values entered for the
    /// configurable ranges, in the ranges' order. More values than ranges, or
    /// a value above 100, give no table.
    pub fn configure_probabilities(values: &Vec<u64>) -> (outcome: Result<
        AmountProbabilities,
        TableError,
    >)
        ensures
            match outcome {
                Ok(table) => values@.len() <= standard_rows().len() && (forall|i: int|
                    0 <= i < values@.len() ==> #[trigger] values@[i] <= 100) && table@.len()
                    == values@.len() && (forall|i: int|
                    0 <= i < values@.len() ==> #[trigger] table@[i] == (WeightedRange {
                        range: standard_rows()[i].range,
                        probability: values@[i],
                    })),
                Err(error) => error == TableError::InvalidProbability && (values@.len()
                    > standard_rows().len() || exists|i: int|
                    0 <= i < values@.len() && #[trigger] values@[i] > 100),
            },
    {
        let ranges = Self::ranges();
        if values.len() > ranges.len() {
            return Err(TableError::InvalidProbability);
        }
        let mut table = AmountProbabilities::new();
        let mut i: usize = 0;
        while i < values.len()
            invariant
                i <= values.len() <= ranges@.len(),
                ranges@.len() == standard_rows().len(),
                forall|k: int|
                    0 <= k < ranges@.len() ==> #[trigger] ranges@[k] == standard_rows()[k].range,
                table.wf(),
                table@.len() == i,
                forall|k: int| 0 <= k < i ==> #[trigger] values@[k] <= 100,
                forall|k: int|
                    0 <= k < i ==> #[trigger] table@[k] == (WeightedRange {
                        range: standard_rows()[k].range,
                        probability: values@[k],
                    }),
            decreases values.len() - i,
        {
            if values[i] > 100 {
                return Err(TableError::InvalidProbability);
            }
            let range = ranges[i];
            let ghost before = table@;
            proof {
                assert(range == standard_rows()[i as int].range);
                assert(range.wf());
                assert forall|k: int| 0 <= k < before.len() implies (#[trigger] before[k]).range
                    != range && !before[k].range.overlaps(range) by {
                    assert(before[k].range == standard_rows()[k].range);
                }
                assert(insert_outcome(before, range, values@[i as int]) == Ok::<
                    Option<u64>,
                    TableError,
                >(None));
            }
            let _ = table.insert(range, values[i]);
            assert(table@ == before.push(WeightedRange { range, probability: values@[i as int] }));
            i += 1;
        }
        Ok(table)
    }

    /// Applies a setting to a configuration. A setting that cannot be
    /// applied leaves the configuration as it is; the answer says which it
    /// was.
    pub fn apply(config: &mut TrafficConfig, setting: TrafficSetting) -> (applied: bool)
        ensures
            applied == is_acceptable(setting),
            !applied ==> *final(config) == *old(config),
            applied ==> match setting {
                TrafficSetting::Interval(ms) => *final(config) == (TrafficConfig {
                    interval_ms: ms,
                    ..*old(config)
                }),
                TrafficSetting::Variance(ms) => *final(config) == (TrafficConfig {
                    interval_variance: ms,
                    ..*old(config)
                }),
                TrafficSetting::Limit(cap) => *final(config) == (TrafficConfig {
                    max_transactions: cap,
                    ..*old(config)
                }),
                TrafficSetting::Probabilities(table) => *final(config) == (TrafficConfig {
                    amount_probabilities: table,
                    ..*old(config)
                }),
                TrafficSetting::Reset => {
                    &&& !final(config).enabled
                    &&& final(config).interval_ms == 5000
                    &&& final(config).interval_variance == 2000
                    &&& final(config).max_transactions is None
                    &&& final(config).created_count == 0
                    &&& final(config).amount_probabilities@ == standard_rows()
                },
            },
    {
        match setting {
            TrafficSetting::Interval(ms) => {
                if ms > 0 {
                    config.interval_ms = ms;
                    true
                } else {
                    false
                }
            },
            TrafficSetting::Variance(ms) => {
                if ms > 0 {
                    config.interval_variance = ms;
                    true
                } else {
                    false
                }
            },
            TrafficSetting::Limit(cap) => {
                match cap {
                    Some(0) => false,
                    _ => {
                        config.max_transactions = cap;
                        true
                    },
                }
            },
            TrafficSetting::Probabilities(table) => {
                config.amount_probabilities = table;
                true
            },
            TrafficSetting::Reset => {
                *config = TrafficConfig::default();
                true
            },
        }
    }
}

/// Stepping down and then up again, or up and then down, brings the cursor
/// back to where it was, on any list that has the cursor on one of its
/// entries.
pub proof fn lemma_cursor_steps_cancel(selected: usize, entries: nat)
    requires
        selected < entries,
        entries <= usize::MAX,
    ensures
        cursor_after_previous(Some(cursor_after_next(Some(selected), entries) as usize), entries)
            == selected,
        cursor_after_next(Some(cursor_after_previous(Some(selected), entries) as usize), entries)
            == selected,
        cursor_after_next(Some(selected), entries) < entries,
        cursor_after_previous(Some(selected), entries) < entries,
{
}

} // verus!
