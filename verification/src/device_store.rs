//! The store of device records, keyed by device id. A reader gets a copy of a
//! record; a writer changes one record in one step. The store itself is
//! sequential: whoever shares it between workers puts it behind a lock and
//! holds the lock for one call at a time, never across a network call.

use crate::device::Device;
use crate::identity::now_millis;
use crate::keyed::{after_insert, distinct_keys, has_key, value_of, values_of, Keyed};
use vstd::prelude::*;

verus! {

/// Why an operation on the store failed.
#[derive(Debug, Clone, Copy, PartialEq, Eq, Structural)]
pub enum DeviceError {
    /// The store holds no device with the given id.
    NotFound,
}

impl DeviceError {
    /// The message shown to the operator.
    pub fn message(&self) -> (text: String)
        ensures
            text@ == "Device not found"@,
    {
        "Device not found".to_owned()
    }
}

/// The entries of a store that was filled with `list`, one record after the
/// other, each under its own id.
pub open spec fn loaded(list: Seq<Device>) -> Seq<(Seq<char>, Device)>
    decreases list.len(),
{
    if list.len() == 0 {
        Seq::empty()
    } else {
        after_insert(loaded(list.drop_last()), list.last().id@, list.last())
    }
}

/// Whether a device counts as a connected device of the trader.
pub open spec fn serves_trader(device: Device, trader_id: Seq<char>) -> bool {
    device.linked_to(trader_id) && device.is_connected
}

/// The connected devices linked to a trader, in the store's order.
pub open spec fn devices_of_trader(devices: Seq<(Seq<char>, Device)>, trader_id: Seq<char>) -> Seq<
    Device,
> {
    values_of(devices).filter(|device: Device| serves_trader(device, trader_id))
}

/// The disconnected devices that still hold a code, in the store's order.
pub open spec fn reconnectable(devices: Seq<(Seq<char>, Device)>) -> Seq<Device> {
    values_of(devices).filter(|device: Device| can_reconnect(device))
}

/// Whether a device can be connected again without asking for a code.
pub open spec fn can_reconnect(device: Device) -> bool {
    !device.is_connected && device.device_code is Some
}

/// The device records of an emulator.
pub struct DeviceManager {
    devices: Keyed<String, Device>,
    data_dir: String,
}

impl DeviceManager {
    /// The records, by device id, in the order in which they were added.
    pub closed spec fn devices(&self) -> Seq<(Seq<char>, Device)> {
        self.devices@
    }

    /// The directory the records are persisted in.
    pub closed spec fn directory(&self) -> Seq<char> {
        self.data_dir@
    }

    /// No id occurs twice.
    pub open spec fn wf(&self) -> bool {
        distinct_keys(self.devices())
    }

    /// An empty store for the given directory.
    pub fn new(data_dir: String) -> (store: DeviceManager)
        ensures
            store.devices() == Seq::<(Seq<char>, Device)>::empty(),
            store.directory() == data_dir@,
            store.wf(),
    {
        DeviceManager { devices: Keyed::new(), data_dir }
    }

    /// The directory the records are persisted in.
    pub fn data_dir(&self) -> (dir: String)
        ensures
            dir@ == self.directory(),
    {
        self.data_dir.clone()
    }

    /// Number of records.
    pub fn len(&self) -> (n: usize)
        ensures
            n == self.devices().len(),
    {
        self.devices.len()
    }

    /// Replaces the store's content by the records of `list`, as read from
    /// the snapshot on disk.
    pub fn load_devices(&mut self, list: Vec<Device>)
        ensures
            final(self).devices() == loaded(list@),
            final(self).directory() == old(self).directory(),
            final(self).wf(),
    {
        let mut devices: Keyed<String, Device> = Keyed::new();
        let mut i: usize = 0;
        assert(list@.subrange(0, 0) =~= Seq::<Device>::empty());
        while i < list.len()
            invariant
                i <= list.len(),
                devices@ == loaded(list@.subrange(0, i as int)),
                distinct_keys(devices@),
            decreases list.len() - i,
        {
            let device = list[i].snapshot();
            let id = device.id.clone();
            proof {
                let upto = list@.subrange(0, i + 1);
                assert(upto.drop_last() =~= list@.subrange(0, i as int));
                assert(upto.last() == list@[i as int]);
            }
            devices.insert(id, device);
            i += 1;
        }
        assert(list@.subrange(0, list@.len() as int) =~= list@);
        self.devices = devices;
    }

    /// Adds a new device called `name` and returns a copy of its record.
    pub fn create_device(&mut self, name: String) -> (device: Device)
        ensures
            device.is_fresh(name),
            device.wf(),
            final(self).devices() == after_insert(old(self).devices(), device.id@, device),
            final(self).directory() == old(self).directory(),
            old(self).wf() ==> final(self).wf(),
    {
        let device = Device::new(name);
        let id = device.id.clone();
        let copy = device.snapshot();
        self.devices.insert(id, copy);
        device
    }

    /// A copy of the record with the given id.
    pub fn get_device(&self, id: &String) -> (device: Option<Device>)
        ensures
            device == value_of(self.devices(), id@),
    {
        match self.devices.get(id) {
            Some(device) => Some(device.snapshot()),
            None => None,
        }
    }

    /// Copies of all records.
    pub fn get_all_devices(&self) -> (all: Vec<Device>)
        ensures
            all@ == values_of(self.devices()),
    {
        let mut all: Vec<Device> = Vec::new();
        let mut i: usize = 0;
        while i < self.devices.len()
            invariant
                i <= self.devices().len(),
                all@ == values_of(self.devices()).subrange(0, i as int),
            decreases self.devices().len() - i,
        {
            all.push(self.devices.value_at(i).snapshot());
            assert(all@ =~= values_of(self.devices()).subrange(0, i + 1));
            i += 1;
        }
        assert(values_of(self.devices()).subrange(0, self.devices().len() as int) =~= values_of(
            self.devices(),
        ));
        all
    }

    /// Marks the device connected at the time `now`.
    pub fn connect_device_at(&mut self, id: &String, device_code: String, token: String, now: i64)
        -> (outcome: Result<(), DeviceError>)
        ensures
            final(self).directory() == old(self).directory(),
            old(self).wf() ==> final(self).wf(),
            match value_of(old(self).devices(), id@) {
                Some(device) => outcome is Ok && final(self).devices() == after_insert(
                    old(self).devices(),
                    id@,
                    device.connected_at(device_code, token, now),
                ),
                None => outcome == Err::<(), DeviceError>(DeviceError::NotFound) && final(self).devices() == old(self).devices(),
            },
    {
        match self.devices.get_mut(id) {
            Some(device) => {
                device.connect_at(device_code, token, now);
                Ok(())
            },
            None => Err(DeviceError::NotFound),
        }
    }

    /// Marks the device connected as of now.
    pub fn connect_device(&mut self, id: &String, device_code: String, token: String) -> (outcome:
        Result<(), DeviceError>)
        ensures
            final(self).directory() == old(self).directory(),
            old(self).wf() ==> final(self).wf(),
            match value_of(old(self).devices(), id@) {
                Some(device) => outcome is Ok && exists|now: i64|
                    final(self).devices() == after_insert(
                        old(self).devices(),
                        id@,
                        #[trigger] device.connected_at(device_code, token, now),
                    ),
                None => outcome == Err::<(), DeviceError>(DeviceError::NotFound) && final(self).devices() == old(self).devices(),
            },
    {
        let now = now_millis();
        self.connect_device_at(id, device_code, token, now)
    }

    /// Marks the device disconnected and forgets its token.
    pub fn disconnect_device(&mut self, id: &String) -> (outcome: Result<(), DeviceError>)
        ensures
            final(self).directory() == old(self).directory(),
            old(self).wf() ==> final(self).wf(),
            match value_of(old(self).devices(), id@) {
                Some(device) => outcome is Ok && final(self).devices() == after_insert(
                    old(self).devices(),
                    id@,
                    device.disconnected(),
                ),
                None => outcome == Err::<(), DeviceError>(DeviceError::NotFound) && final(self).devices() == old(self).devices(),
            },
    {
        match self.devices.get_mut(id) {
            Some(device) => {
                device.disconnect();
                Ok(())
            },
            None => Err(DeviceError::NotFound),
        }
    }

    /// Links the device to a trader.
    pub fn link_device_to_trader(&mut self, device_id: &String, trader_id: &String) -> (outcome:
        Result<(), DeviceError>)
        ensures
            final(self).directory() == old(self).directory(),
            old(self).wf() ==> final(self).wf(),
            match value_of(old(self).devices(), device_id@) {
                Some(device) => outcome is Ok && final(self).devices() == after_insert(
                    old(self).devices(),
                    device_id@,
                    Device { trader_id: Some(*trader_id), ..device },
                ),
                None => outcome == Err::<(), DeviceError>(DeviceError::NotFound) && final(self).devices() == old(self).devices(),
            },
    {
        match self.devices.get_mut(device_id) {
            Some(device) => {
                device.trader_id = Some(trader_id.clone());
                Ok(())
            },
            None => Err(DeviceError::NotFound),
        }
    }

    /// Records a status report made at the time `now`.
    pub fn update_device_status_at(
        &mut self,
        id: &String,
        battery_level: u8,
        network_info: String,
        now: i64,
    ) -> (outcome: Result<(), DeviceError>)
        ensures
            final(self).directory() == old(self).directory(),
            old(self).wf() ==> final(self).wf(),
            match value_of(old(self).devices(), id@) {
                Some(device) => outcome is Ok && final(self).devices() == after_insert(
                    old(self).devices(),
                    id@,
                    Device { battery_level, network_info, last_active_at: Some(now), ..device },
                ),
                None => outcome == Err::<(), DeviceError>(DeviceError::NotFound) && final(self).devices() == old(self).devices(),
            },
    {
        match self.devices.get_mut(id) {
            Some(device) => {
                device.update_status(battery_level, network_info, now);
                Ok(())
            },
            None => Err(DeviceError::NotFound),
        }
    }

    /// Records a status report made now.
    pub fn update_device_status(&mut self, id: &String, battery_level: u8, network_info: String)
        -> (outcome: Result<(), DeviceError>)
        ensures
            final(self).directory() == old(self).directory(),
            old(self).wf() ==> final(self).wf(),
            match value_of(old(self).devices(), id@) {
                Some(device) => outcome is Ok && exists|now: i64|
                    final(self).devices() == after_insert(
                        old(self).devices(),
                        id@,
                        #[trigger] stamped(device, battery_level, network_info, now),
                    ),
                None => outcome == Err::<(), DeviceError>(DeviceError::NotFound) && final(self).devices() == old(self).devices(),
            },
    {
        let now = now_millis();
        let ghost before = self.devices();
        let outcome = self.update_device_status_at(id, battery_level, network_info, now);
        proof {
            match value_of(before, id@) {
                Some(device) => {
                    assert(self.devices() == after_insert(
                        before,
                        id@,
                        stamped(device, battery_level, network_info, now),
                    ));
                },
                None => {},
            }
        }
        outcome
    }

    /// Copies of the records of the connected devices linked to the trader.
    pub fn get_connected_devices_for_trader(&self, trader_id: &String) -> (found: Vec<Device>)
        ensures
            found@ == devices_of_trader(self.devices(), trader_id@),
    {
        let ghost all = values_of(self.devices());
        let ghost wanted = |device: Device| serves_trader(device, trader_id@);
        let mut found: Vec<Device> = Vec::new();
        let mut i: usize = 0;
        assert(all.subrange(0, 0).filter(wanted) =~= Seq::<Device>::empty()) by {
            reveal(Seq::filter);
        }
        while i < self.devices.len()
            invariant
                i <= self.devices().len(),
                all == values_of(self.devices()),
                wanted == |device: Device| serves_trader(device, trader_id@),
                found@ == all.subrange(0, i as int).filter(wanted),
            decreases self.devices().len() - i,
        {
            let device = self.devices.value_at(i);
            let ghost upto = all.subrange(0, i + 1);
            proof {
                assert(upto.drop_last() =~= all.subrange(0, i as int));
                assert(upto.last() == *device);
                assert(wanted(*device) == serves_trader(*device, trader_id@));
                assert(upto =~= all.subrange(0, i as int).push(*device));
                all.subrange(0, i as int).lemma_filter_push(*device, wanted);
            }
            if device.is_linked_to(trader_id) && device.is_connected {
                found.push(device.snapshot());
            }
            i += 1;
        }
        assert(all.subrange(0, all.len() as int) =~= all);
        found
    }

    /// Copies of the records of the disconnected devices that still hold the
    /// code they last connected with.
    pub fn get_disconnected_devices_with_code(&self) -> (found: Vec<Device>)
        ensures
            found@ == reconnectable(self.devices()),
    {
        let ghost all = values_of(self.devices());
        let ghost wanted = |device: Device| can_reconnect(device);
        let mut found: Vec<Device> = Vec::new();
        let mut i: usize = 0;
        assert(all.subrange(0, 0).filter(wanted) =~= Seq::<Device>::empty()) by {
            reveal(Seq::filter);
        }
        while i < self.devices.len()
            invariant
                i <= self.devices().len(),
                all == values_of(self.devices()),
                wanted == |device: Device| can_reconnect(device),
                found@ == all.subrange(0, i as int).filter(wanted),
            decreases self.devices().len() - i,
        {
            let device = self.devices.value_at(i);
            let ghost upto = all.subrange(0, i + 1);
            proof {
                assert(upto.drop_last() =~= all.subrange(0, i as int));
                assert(upto.last() == *device);
                assert(wanted(*device) == can_reconnect(*device));
                assert(upto =~= all.subrange(0, i as int).push(*device));
                all.subrange(0, i as int).lemma_filter_push(*device, wanted);
            }
            if !device.is_connected && device.device_code.is_some() {
                found.push(device.snapshot());
            }
            i += 1;
        }
        assert(all.subrange(0, all.len() as int) =~= all);
        found
    }

    /// Whether the store holds a device with the given id.
    pub fn contains(&self, id: &String) -> (present: bool)
        ensures
            present == has_key(self.devices(), id@),
    {
        self.devices.contains_key(id)
    }
}

/// The record after a status report.
pub open spec fn stamped(device: Device, battery_level: u8, network_info: String, now: i64)
    -> Device {
    Device { battery_level, network_info, last_active_at: Some(now), ..device }
}

} // verus!
