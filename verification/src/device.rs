//! A simulated mobile device as the backend sees it.

use crate::identity::{new_uuid, now_millis, uuid_hyphenated, uuid_text};
use crate::models::ConnectDeviceRequest;
use crate::text::copy_text;
use vstd::prelude::*;

verus! {

/// Battery level of a new device, in percent.
pub const INITIAL_BATTERY: u8 = 85;

/// Level below which the simulated battery does not drain.
pub const BATTERY_FLOOR: u8 = 10;

/// A device record. It is created on request and never destroyed: a
/// disconnect clears the live fields and keeps the record.
#[derive(Debug)]
pub struct Device {
    pub id: String,
    pub name: String,
    /// The code the device last connected with.
    pub device_code: Option<String>,
    /// The session token; present exactly while the device is connected.
    pub token: Option<String>,
    /// The trader the device is linked to, if any.
    pub trader_id: Option<String>,
    pub is_connected: bool,
    /// Battery level in percent.
    pub battery_level: u8,
    pub network_info: String,
    pub device_model: String,
    pub android_version: String,
    pub app_version: String,
    /// Milliseconds since the Unix epoch.
    pub created_at: i64,
    /// Milliseconds since the Unix epoch.
    pub last_active_at: Option<i64>,
}

/// The battery level after one info-update tick: one less while it is above
/// the floor, unchanged from the floor down.
pub open spec fn drained(level: u8) -> u8 {
    if level > BATTERY_FLOOR {
        (level - 1) as u8
    } else {
        level
    }
}

/// The battery level after `ticks` info-update ticks.
pub open spec fn drained_by(level: u8, ticks: nat) -> u8
    decreases ticks,
{
    if ticks == 0 {
        level
    } else {
        drained_by(drained(level), (ticks - 1) as nat)
    }
}

/// A battery at or below the floor never drains further, however many ticks
/// pass; one above the floor never falls below it.
pub proof fn lemma_battery_stops_at_floor(level: u8, ticks: nat)
    ensures
        level <= BATTERY_FLOOR ==> drained_by(level, ticks) == level,
        level > BATTERY_FLOOR ==> BATTERY_FLOOR <= drained_by(level, ticks) <= level,
        drained_by(level, ticks) <= level,
    decreases ticks,
{
    if ticks > 0 {
        lemma_battery_stops_at_floor(drained(level), (ticks - 1) as nat);
    }
}

impl Device {
    /// The record's invariant: a token is held exactly while the device is
    /// connected, and the battery level is a percentage.
    pub open spec fn wf(&self) -> bool {
        &&& self.token is Some <==> self.is_connected
        &&& self.battery_level <= 100
    }

    /// What a new device looks like, apart from its identity.
    pub open spec fn is_fresh(&self, name: String) -> bool {
        &&& self.name == name
        &&& self.device_code is None
        &&& self.token is None
        &&& self.trader_id is None
        &&& !self.is_connected
        &&& self.battery_level == INITIAL_BATTERY
        &&& self.network_info@ == "Wi-Fi"@
        &&& self.device_model@ == "Google Pixel 7"@
        &&& self.android_version@ == "13"@
        &&& self.app_version@ == "1.0.0"@
        &&& self.last_active_at is None
    }

    /// A new, disconnected device with a fresh random id, created now.
    pub fn new(name: String) -> (device: Device)
        ensures
            device.is_fresh(name),
            device.wf(),
            exists|id: u128| device.id@ == #[trigger] uuid_hyphenated(id),
    {
        let id = new_uuid();
        let text = uuid_text(id);
        assert(text@ == uuid_hyphenated(id));
        let now = now_millis();
        Device::with_identity(text, now, name)
    }

    /// A new, disconnected device with the given id and creation time.
    pub fn with_identity(id: String, created_at: i64, name: String) -> (device: Device)
        ensures
            device.id == id,
            device.created_at == created_at,
            device.is_fresh(name),
            device.wf(),
    {
        Device {
            id,
            name,
            device_code: None,
            token: None,
            trader_id: None,
            is_connected: false,
            battery_level: INITIAL_BATTERY,
            network_info: "Wi-Fi".to_owned(),
            device_model: "Google Pixel 7".to_owned(),
            android_version: "13".to_owned(),
            app_version: "1.0.0".to_owned(),
            created_at,
            last_active_at: None,
        }
    }

    /// A copy of the record.
    pub fn snapshot(&self) -> (copy: Device)
        ensures
            copy == *self,
    {
        Device {
            id: self.id.clone(),
            name: self.name.clone(),
            device_code: copy_text(&self.device_code),
            token: copy_text(&self.token),
            trader_id: copy_text(&self.trader_id),
            is_connected: self.is_connected,
            battery_level: self.battery_level,
            network_info: self.network_info.clone(),
            device_model: self.device_model.clone(),
            android_version: self.android_version.clone(),
            app_version: self.app_version.clone(),
            created_at: self.created_at,
            last_active_at: self.last_active_at,
        }
    }

    /// The record after connecting with `device_code` and `token` at `now`.
    pub open spec fn connected_at(self, device_code: String, token: String, now: i64) -> Device {
        Device {
            device_code: Some(device_code),
            token: Some(token),
            is_connected: true,
            last_active_at: Some(now),
            ..self
        }
    }

    /// The record after a disconnect.
    pub open spec fn disconnected(self) -> Device {
        Device { is_connected: false, token: None, ..self }
    }

    /// Marks the device connected at the time `now`.
    pub fn connect_at(&mut self, device_code: String, token: String, now: i64)
        ensures
            *final(self) == old(self).connected_at(device_code, token, now),
            old(self).battery_level <= 100 ==> final(self).wf(),
    {
        self.device_code = Some(device_code);
        self.token = Some(token);
        self.is_connected = true;
        self.last_active_at = Some(now);
    }

    /// Marks the device connected as of now.
    pub fn connect(&mut self, device_code: String, token: String)
        ensures
            exists|now: i64| *final(self) == #[trigger] old(self).connected_at(
                device_code,
                token,
                now,
            ),
            final(self).is_connected,
            final(self).token == Some(token),
            final(self).device_code == Some(device_code),
            old(self).battery_level <= 100 ==> final(self).wf(),
    {
        let now = now_millis();
        self.connect_at(device_code, token, now);
    }

    /// Marks the device disconnected and forgets its token.
    pub fn disconnect(&mut self)
        ensures
            *final(self) == old(self).disconnected(),
            old(self).battery_level <= 100 ==> final(self).wf(),
    {
        self.is_connected = false;
        self.token = None;
    }

    /// One tick of battery drain.
    pub fn drain_battery(&mut self)
        ensures
            *final(self) == (Device { battery_level: drained(old(self).battery_level), ..*old(self) }),
            old(self).wf() ==> final(self).wf(),
    {
        if self.battery_level > BATTERY_FLOOR {
            self.battery_level = self.battery_level - 1;
        }
    }

    /// Records a status report made at the time `now`.
    pub fn update_status(&mut self, battery_level: u8, network_info: String, now: i64)
        ensures
            *final(self) == (Device {
                battery_level,
                network_info,
                last_active_at: Some(now),
                ..*old(self)
            }),
    {
        self.battery_level = battery_level;
        self.network_info = network_info;
        self.last_active_at = Some(now);
    }

    /// The request that opens a session for the device with `device_code`.
    pub fn connection_request(&self, device_code: String) -> (request: ConnectDeviceRequest)
        ensures
            request == (ConnectDeviceRequest {
                device_code,
                battery_level: self.battery_level,
                network_info: self.network_info,
                device_model: self.device_model,
                android_version: self.android_version,
                app_version: self.app_version,
            }),
    {
        ConnectDeviceRequest {
            device_code,
            battery_level: self.battery_level,
            network_info: self.network_info.clone(),
            device_model: self.device_model.clone(),
            android_version: self.android_version.clone(),
            app_version: self.app_version.clone(),
        }
    }

    /// Whether the device is linked to the trader `trader_id`.
    pub open spec fn linked_to(&self, trader_id: Seq<char>) -> bool {
        self.trader_id matches Some(linked) && linked@ == trader_id
    }

    /// Exec form of `linked_to`.
    pub fn is_linked_to(&self, trader_id: &String) -> (linked: bool)
        ensures
            linked == self.linked_to(trader_id@),
    {
        match &self.trader_id {
            Some(linked) => *linked == *trader_id,
            None => false,
        }
    }
}

} // verus!
