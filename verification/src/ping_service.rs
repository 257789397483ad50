//! The per-device ping service: a registry of the background tasks that keep
//! connected devices alive, and the decisions such a task takes at each tick.
//! A task is stopped by aborting it, which takes effect at the task's next
//! suspension point and leaves it no chance to clean up.

use crate::device_store::DeviceManager;
use crate::keyed::{after_insert, after_remove, distinct_keys, has_key, value_of, Keyed};
use crate::polling::LoopControl;
use vstd::prelude::*;

verus! {

/// Period of a ping task, in milliseconds.
pub const PING_PERIOD_MS: u64 = 20;

/// tokio's handle to a spawned task. The registry stores such handles and
/// never looks inside.
#[verifier::external_type_specification]
#[verifier::external_body]
#[verifier::reject_recursive_types(T)]
pub struct ExJoinHandle<T>(tokio::task::JoinHandle<T>);

/// tokio's error of a task that did not run to its end. Nothing here holds
/// one; the verifier wants the type declared because the handle's `Future`
/// impl names it as part of its output.
#[verifier::external_type_specification]
#[verifier::external_body]
pub struct ExJoinError(tokio::task::JoinError);

/// Aborts a task through its handle with `tokio::task::JoinHandle::abort`.
///
/// Trusted. The call returns at once and nothing is claimed about the task.
#[verifier::external_body]
pub(crate) fn abort_task(task: &tokio::task::JoinHandle<()>) {
    task.abort()
}

/// Why a ping task cannot be started.
#[derive(Debug, Clone, Copy, PartialEq, Eq, Structural)]
pub enum PingError {
    /// The store holds no device with the given id.
    DeviceNotFound,
    /// The device is disconnected or has no token.
    NotConnected,
}

impl PingError {
    /// The message shown to the operator.
    pub fn message(&self) -> (text: String)
        ensures
            text@ == match self {
                PingError::DeviceNotFound => "Device not found"@,
                PingError::NotConnected => "Device is not connected"@,
            },
    {
        match self {
            PingError::DeviceNotFound => "Device not found".to_owned(),
            PingError::NotConnected => "Device is not connected".to_owned(),
        }
    }
}

/// What a ping task does at a tick.
#[derive(Debug)]
pub enum PingStep {
    /// The device is gone or disconnected: the task ends.
    Stop,
    /// Send a health check that reports the battery level.
    HealthCheck { battery_level: u8, network_info: String },
}

/// What a ping task does after its health check.
#[derive(Debug, Clone, Copy, PartialEq, Eq, Structural)]
pub enum PingFollowUp {
    /// The health check went through: wait for the next tick.
    Continue,
    /// The health check failed: try a plain ping.
    FallbackPing,
}

/// Whether a ping task may start for the device with the given id, and the
/// token it then works with.
pub open spec fn start_check(devices: Seq<(Seq<char>, crate::device::Device)>, id: Seq<char>)
    -> Result<String, PingError> {
    match value_of(devices, id) {
        None => Err(PingError::DeviceNotFound),
        Some(device) => if !device.is_connected {
            Err(PingError::NotConnected)
        } else {
            match device.token {
                Some(token) => Ok(token),
                None => Err(PingError::NotConnected),
            }
        },
    }
}

/// The registry of ping tasks, by device id.
pub struct DevicePingService {
    ping_tasks: Keyed<String, tokio::task::JoinHandle<()>>,
}

impl DevicePingService {
    /// The registered tasks, by device id.
    pub closed spec fn tasks(&self) -> Seq<(Seq<char>, tokio::task::JoinHandle<()>)> {
        self.ping_tasks@
    }

    /// No device has two tasks.
    pub open spec fn wf(&self) -> bool {
        distinct_keys(self.tasks())
    }

    /// A registry without tasks.
    pub fn new() -> (service: DevicePingService)
        ensures
            service.tasks() == Seq::<(Seq<char>, tokio::task::JoinHandle<()>)>::empty(),
            service.wf(),
    {
        DevicePingService { ping_tasks: Keyed::new() }
    }

    /// Prepares a ping task for the device: a task already registered for it
    /// is aborted and taken out, whatever follows; then the device must exist
    /// and be connected with a token. The answer is the token the new task
    /// works with. The caller spawns the task and reports it with
    /// `task_started`.
    pub fn start_ping_for_device(&mut self, devices: &DeviceManager, device_id: &String) -> (outcome:
        Result<String, PingError>)
        ensures
            outcome == start_check(devices.devices(), device_id@),
            final(self).tasks() == after_remove(old(self).tasks(), device_id@),
            old(self).wf() ==> final(self).wf() && !has_key(final(self).tasks(), device_id@),
    {
        let _ = self.stop_ping_for_device(device_id);
        match devices.get_device(device_id) {
            None => Err(PingError::DeviceNotFound),
            Some(device) => {
                if !device.is_connected {
                    Err(PingError::NotConnected)
                } else {
                    match device.token {
                        Some(token) => Ok(token),
                        None => Err(PingError::NotConnected),
                    }
                }
            },
        }
    }

    /// Registers the task that was spawned for the device.
    pub fn task_started(&mut self, device_id: String, task: tokio::task::JoinHandle<()>)
        ensures
            final(self).tasks() == after_insert(old(self).tasks(), device_id@, task),
            old(self).wf() ==> final(self).wf(),
    {
        let _ = self.ping_tasks.insert(device_id, task);
    }

    /// Aborts the device's task, if it has one, and takes it out of the
    /// registry. The answer says whether there was one.
    pub fn stop_ping_for_device(&mut self, device_id: &String) -> (stopped: bool)
        ensures
            stopped == has_key(old(self).tasks(), device_id@),
            final(self).tasks() == after_remove(old(self).tasks(), device_id@),
            old(self).wf() ==> final(self).wf() && !has_key(final(self).tasks(), device_id@),
    {
        proof {
            crate::keyed::lemma_first_index_none(self.tasks(), device_id@);
        }
        match self.ping_tasks.remove(device_id) {
            Some(task) => {
                abort_task(&task);
                true
            },
            None => false,
        }
    }

    /// Aborts every task and empties the registry. The answer is the number
    /// of tasks aborted.
    pub fn stop_all_pings(&mut self) -> (stopped: usize)
        ensures
            stopped == old(self).tasks().len(),
            final(self).tasks() == Seq::<(Seq<char>, tokio::task::JoinHandle<()>)>::empty(),
            final(self).wf(),
    {
        let tasks = self.ping_tasks.drain();
        let mut i: usize = 0;
        while i < tasks.len()
            invariant
                i <= tasks.len(),
            decreases tasks.len() - i,
        {
            abort_task(&tasks[i]);
            i += 1;
        }
        tasks.len()
    }

    /// Number of registered tasks.
    pub fn get_active_ping_count(&self) -> (count: usize)
        ensures
            count == self.tasks().len(),
    {
        self.ping_tasks.len()
    }

    /// What a ping task does at a tick for the device as the store has it.
    pub open spec fn step_for(devices: Seq<(Seq<char>, crate::device::Device)>, id: Seq<char>)
        -> PingStep {
        match value_of(devices, id) {
            Some(device) => if device.is_connected {
                PingStep::HealthCheck {
                    battery_level: device.battery_level,
                    network_info: device.network_info,
                }
            } else {
                PingStep::Stop
            },
            None => PingStep::Stop,
        }
    }

    /// A tick of the device's ping task: stop when the device is gone or
    /// disconnected, else send a health check.
    pub fn ping_tick(devices: &DeviceManager, device_id: &String) -> (step: PingStep)
        ensures
            step == Self::step_for(devices.devices(), device_id@),
    {
        match devices.get_device(device_id) {
            Some(device) => {
                if device.is_connected {
                    PingStep::HealthCheck {
                        battery_level: device.battery_level,
                        network_info: device.network_info,
                    }
                } else {
                    PingStep::Stop
                }
            },
            None => PingStep::Stop,
        }
    }

    /// Takes in the outcome of the health check that reported
    /// `battery_level` and `network_info`: after a success the device counts
    /// as active now; after a failure a plain ping is tried.
    pub fn health_check_done(
        devices: &mut DeviceManager,
        device_id: &String,
        succeeded: bool,
        battery_level: u8,
        network_info: String,
    ) -> (next: PingFollowUp)
        ensures
            next == if succeeded {
                PingFollowUp::Continue
            } else {
                PingFollowUp::FallbackPing
            },
            !succeeded ==> final(devices).devices() == old(devices).devices(),
            succeeded ==> match value_of(old(devices).devices(), device_id@) {
                Some(device) => exists|now: i64|
                    final(devices).devices() == after_insert(
                        old(devices).devices(),
                        device_id@,
                        #[trigger] crate::device_store::stamped(
                            device,
                            battery_level,
                            network_info,
                            now,
                        ),
                    ),
                None => final(devices).devices() == old(devices).devices(),
            },
            old(devices).wf() ==> final(devices).wf(),
    {
        if succeeded {
            let _ = devices.update_device_status(device_id, battery_level, network_info);
            PingFollowUp::Continue
        } else {
            PingFollowUp::FallbackPing
        }
    }

    /// Takes in the outcome of the fallback ping: after a failure the device
    /// is disconnected and the task ends.
    pub fn fallback_ping_done(devices: &mut DeviceManager, device_id: &String, succeeded: bool) -> (control:
        LoopControl)
        ensures
            control == if succeeded {
                LoopControl::Continue
            } else {
                LoopControl::Stop
            },
            succeeded ==> final(devices).devices() == old(devices).devices(),
            !succeeded ==> match value_of(old(devices).devices(), device_id@) {
                Some(device) => final(devices).devices() == after_insert(
                    old(devices).devices(),
                    device_id@,
                    device.disconnected(),
                ),
                None => final(devices).devices() == old(devices).devices(),
            },
            old(devices).wf() ==> final(devices).wf(),
    {
        if succeeded {
            LoopControl::Continue
        } else {
            let _ = devices.disconnect_device(device_id);
            LoopControl::Stop
        }
    }
}

} // verus!
