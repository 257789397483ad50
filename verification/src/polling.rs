//! The polling pipeline of one connected device: four loops (heartbeat,
//! health check, info update, long poll) that each read the device's
//! connectivity flag at the start of a tick and stop once it is down. There is
//! no signal between the loops; when one of them disconnects the device, the
//! others notice at their own next tick.
//!
//! Each loop is a pair of decisions: what to send at a tick, and what to do
//! with the answer. The caller keeps the timers and makes the calls.

use crate::device::{drained, Device};
use crate::models::optional_text;
use crate::text::same_text;
use vstd::prelude::*;

verus! {

/// Period of the heartbeat loop, in milliseconds.
pub const HEARTBEAT_PERIOD_MS: u64 = 20;

/// Period of the health-check loop, in milliseconds.
pub const HEALTH_CHECK_PERIOD_MS: u64 = 1000;

/// Period of the info-update loop, in milliseconds.
pub const INFO_UPDATE_PERIOD_MS: u64 = 5000;

/// Time allowed to a heartbeat call, in milliseconds.
pub const HEARTBEAT_TIMEOUT_MS: u64 = 500;

/// Time allowed to a long-poll call, in milliseconds.
pub const LONG_POLL_TIMEOUT_MS: u64 = 26000;

/// Pause after a failed long poll, in milliseconds.
pub const LONG_POLL_RETRY_DELAY_MS: u64 = 500;

/// Number of consecutive long-poll failures that disconnects the device.
pub const MAX_LONG_POLL_FAILURES: u32 = 3;

/// The network-speed figure reported for every device.
pub const NETWORK_SPEED: u32 = 100;

/// What the heartbeat loop does at a tick.
#[derive(Debug)]
pub enum HeartbeatAction {
    /// The device is disconnected: the loop ends.
    Stop,
    /// Send a liveness call, with the token if there is one.
    Ping { token: Option<String> },
}

/// What the health-check and info-update loops do at a tick.
#[derive(Debug)]
pub enum ReportAction {
    /// The device is disconnected or has no token: the loop ends.
    Stop,
    /// Report the battery level and the network speed under the token.
    Report { token: String, battery_level: u8, network_speed: u32 },
}

/// Whether a loop goes on after an answer.
#[derive(Debug, Clone, Copy, PartialEq, Eq, Structural)]
pub enum LoopControl {
    Continue,
    Stop,
}

/// The status field of a long-poll answer.
#[derive(Debug, Clone, Copy, PartialEq, Eq, Structural)]
pub enum PollStatus {
    /// The server had nothing to push within the time allowed: the expected
    /// outcome of a long poll, not an error.
    Timeout,
    /// The server considers the device offline.
    Offline,
    /// Another session has taken the device's place.
    Replaced,
    /// The answer carries a command.
    Command,
    /// Any other status, or none.
    Other,
}

/// How a long poll ended.
#[derive(Debug)]
pub enum PollOutcome {
    /// The call succeeded; `status` and `command` are the answer's fields of
    /// those names, where they hold text.
    Answered { status: Option<String>, command: Option<String> },
    /// The call failed.
    Failed,
}

/// What the long-poll loop does after an answer.
#[derive(Debug)]
pub enum PollNext {
    /// Poll again at once.
    Reconnect,
    /// Hand the command, if the answer carried one, to the command handler,
    /// then poll again at once.
    Dispatch { command: Option<String> },
    /// Poll again after the given pause, in milliseconds.
    RetryAfter { delay_ms: u64 },
    /// The device has been disconnected: the loop ends.
    Stop,
}

/// The status that a status text stands for.
pub open spec fn status_of(text: Option<Seq<char>>) -> PollStatus {
    match text {
        Some(t) => if t == "timeout"@ {
            PollStatus::Timeout
        } else if t == "offline"@ {
            PollStatus::Offline
        } else if t == "replaced"@ {
            PollStatus::Replaced
        } else if t == "command"@ {
            PollStatus::Command
        } else {
            PollStatus::Other
        },
        None => PollStatus::Other,
    }
}

/// The failure count after a long poll: zero after any answer, one more after
/// a failure. The count stops at the limit, where the loop has ended.
pub open spec fn failures_after(failures: u32, answered: bool) -> u32 {
    if answered {
        0
    } else if failures < MAX_LONG_POLL_FAILURES {
        (failures + 1) as u32
    } else {
        failures
    }
}

/// Whether a long poll's outcome disconnects the device: an answer does when
/// its status is offline or replaced, a failure when it is the third in a row.
pub open spec fn disconnects(failures: u32, outcome: PollOutcome) -> bool {
    match outcome {
        PollOutcome::Answered { status, .. } => status_of(optional_text(status)) == PollStatus::Offline
            || status_of(optional_text(status)) == PollStatus::Replaced,
        PollOutcome::Failed => failures_after(failures, false) >= MAX_LONG_POLL_FAILURES,
    }
}

/// The failure count after `extra` failures in a row and no answer between
/// them.
pub open spec fn failures_after_run(failures: u32, extra: nat) -> u32
    decreases extra,
{
    if extra == 0 {
        failures
    } else {
        failures_after(failures_after_run(failures, (extra - 1) as nat), false)
    }
}

/// The count is back at zero after any answer and goes up by one with each
/// failure in a row until it reaches the limit; counted from an answer, the
/// third failure in a row is the first that disconnects the device.
pub proof fn lemma_third_failure_disconnects(failures: u32, extra: nat)
    ensures
        failures_after(failures, true) == 0,
        failures < MAX_LONG_POLL_FAILURES ==> failures_after(failures, false) == failures + 1,
        failures + extra <= MAX_LONG_POLL_FAILURES ==> failures_after_run(failures, extra)
            == failures + extra,
        !disconnects(failures_after_run(0, 0), PollOutcome::Failed),
        !disconnects(failures_after_run(0, 1), PollOutcome::Failed),
        disconnects(failures_after_run(0, 2), PollOutcome::Failed),
    decreases extra,
{
    if extra > 0 {
        lemma_third_failure_disconnects(failures, (extra - 1) as nat);
    }
    reveal_with_fuel(failures_after_run, 3);
}

fn is_text(text: &String, literal: &str) -> (equal: bool)
    ensures
        equal == (text@ == literal@),
{
    same_text(text.as_str(), literal)
}

/// Reads the status field of a long-poll answer.
pub fn classify_status(status: &Option<String>) -> (kind: PollStatus)
    ensures
        kind == status_of(optional_text(*status)),
{
    match status {
        Some(text) => {
            if is_text(text, "timeout") {
                PollStatus::Timeout
            } else if is_text(text, "offline") {
                PollStatus::Offline
            } else if is_text(text, "replaced") {
                PollStatus::Replaced
            } else if is_text(text, "command") {
                PollStatus::Command
            } else {
                PollStatus::Other
            }
        },
        None => PollStatus::Other,
    }
}

/// The polling pipeline's state for one device: the device record that the
/// four loops share, and the long-poll loop's count of consecutive failures.
#[derive(Debug)]
pub struct DeviceManager {
    device: Device,
    retry_count: u32,
}

impl DeviceManager {
    /// The device record.
    pub closed spec fn device(&self) -> Device {
        self.device
    }

    /// Number of long-poll failures since the last answer.
    pub closed spec fn failures(&self) -> u32 {
        self.retry_count
    }

    /// The pipeline's invariant: the record is well formed and the failure
    /// count has not passed its limit.
    pub open spec fn wf(&self) -> bool {
        self.device().wf() && self.failures() <= MAX_LONG_POLL_FAILURES
    }

    /// The pipeline for `device`, with no failure counted.
    pub fn new(device: Device) -> (manager: DeviceManager)
        ensures
            manager.device() == device,
            manager.failures() == 0,
            device.wf() ==> manager.wf(),
    {
        DeviceManager { device, retry_count: 0 }
    }

    /// A copy of the device record as it is now.
    pub fn device_snapshot(&self) -> (copy: Device)
        ensures
            copy == self.device(),
    {
        self.device.snapshot()
    }

    /// Whether the device is connected.
    pub fn is_connected(&self) -> (connected: bool)
        ensures
            connected == self.device().is_connected,
    {
        self.device.is_connected
    }

    /// Number of long-poll failures since the last answer.
    pub fn retry_count(&self) -> (count: u32)
        ensures
            count == self.failures(),
    {
        self.retry_count
    }

    /// Marks the device connected, as of now.
    pub fn connect(&mut self, device_code: String, token: String)
        ensures
            final(self).device().is_connected,
            final(self).device().token == Some(token),
            final(self).device().device_code == Some(device_code),
            final(self).device().battery_level == old(self).device().battery_level,
            final(self).device().id == old(self).device().id,
            final(self).failures() == old(self).failures(),
            old(self).wf() ==> final(self).wf(),
    {
        self.device.connect(device_code, token);
    }

    /// Marks the device disconnected. Every loop ends at its next tick.
    pub fn disconnect(&mut self)
        ensures
            final(self).device() == old(self).device().disconnected(),
            final(self).failures() == old(self).failures(),
            old(self).wf() ==> final(self).wf(),
    {
        self.device.disconnect();
    }

    /// A heartbeat tick: stop when disconnected, else ping with the token if
    /// there is one.
    pub fn heartbeat_tick(&self) -> (action: HeartbeatAction)
        ensures
            action == if self.device().is_connected {
                HeartbeatAction::Ping { token: self.device().token }
            } else {
                HeartbeatAction::Stop
            },
    {
        if !self.device.is_connected {
            HeartbeatAction::Stop
        } else {
            let token = match &self.device.token {
                Some(t) => Some(t.clone()),
                None => None,
            };
            HeartbeatAction::Ping { token }
        }
    }

    /// After a failed heartbeat: the failure itself is swallowed, and the loop
    /// ends only if the device has been disconnected meanwhile.
    pub fn heartbeat_failed(&self) -> (control: LoopControl)
        ensures
            control == if self.device().is_connected {
                LoopControl::Continue
            } else {
                LoopControl::Stop
            },
    {
        if self.device.is_connected {
            LoopControl::Continue
        } else {
            LoopControl::Stop
        }
    }

    /// What a reporting loop sends for the device as it is.
    pub open spec fn report_of(device: Device) -> ReportAction {
        if !device.is_connected {
            ReportAction::Stop
        } else {
            match device.token {
                Some(token) => ReportAction::Report {
                    token,
                    battery_level: device.battery_level,
                    network_speed: NETWORK_SPEED,
                },
                None => ReportAction::Stop,
            }
        }
    }

    fn report(&self) -> (action: ReportAction)
        ensures
            action == Self::report_of(self.device()),
    {
        if !self.device.is_connected {
            ReportAction::Stop
        } else {
            match &self.device.token {
                Some(token) => ReportAction::Report {
                    token: token.clone(),
                    battery_level: self.device.battery_level,
                    network_speed: NETWORK_SPEED,
                },
                None => ReportAction::Stop,
            }
        }
    }

    /// A health-check tick: stop when disconnected or without a token, else
    /// report the battery level. A failed health check is logged by the caller
    /// and changes nothing: the loop goes on at the same period.
    pub fn health_check_tick(&self) -> (action: ReportAction)
        ensures
            action == Self::report_of(self.device()),
    {
        self.report()
    }

    /// An info-update tick: stop, with the record untouched, when disconnected
    /// or without a token; else report the battery level as it was at the tick
    /// and drain the battery by one tick's worth.
    pub fn info_update_tick(&mut self) -> (action: ReportAction)
        ensures
            action == Self::report_of(old(self).device()),
            final(self).failures() == old(self).failures(),
            final(self).device() == if action is Stop {
                old(self).device()
            } else {
                Device {
                    battery_level: drained(old(self).device().battery_level),
                    ..old(self).device()
                }
            },
            old(self).device().battery_level <= crate::device::BATTERY_FLOOR ==> final(self).device().battery_level == old(self).device().battery_level,
            old(self).wf() ==> final(self).wf(),
    {
        let action = self.report();
        match action {
            ReportAction::Stop => {},
            ReportAction::Report { .. } => {
                self.device.drain_battery();
            },
        }
        action
    }

    /// A long-poll tick: stop when disconnected or without a token, else poll
    /// with the battery level and the network speed.
    pub fn long_poll_tick(&self) -> (action: ReportAction)
        ensures
            action == Self::report_of(self.device()),
    {
        self.report()
    }

    /// What the long-poll loop does after `outcome`, given the failures
    /// counted before it.
    pub open spec fn next_after(failures: u32, outcome: PollOutcome) -> PollNext {
        match outcome {
            PollOutcome::Answered { status, command } => match status_of(optional_text(status)) {
                PollStatus::Timeout => PollNext::Reconnect,
                PollStatus::Offline => PollNext::Stop,
                PollStatus::Replaced => PollNext::Stop,
                PollStatus::Command => PollNext::Dispatch { command },
                PollStatus::Other => PollNext::Reconnect,
            },
            PollOutcome::Failed => if failures_after(failures, false) >= MAX_LONG_POLL_FAILURES {
                PollNext::Stop
            } else {
                PollNext::RetryAfter { delay_ms: LONG_POLL_RETRY_DELAY_MS }
            },
        }
    }

    /// Takes in the outcome of a long poll. Any answer resets the failure
    /// count; a timeout status means poll again at once; offline and replaced
    /// disconnect the device and end the loop; a command is handed on. A
    /// failure adds one to the count; the third in a row disconnects the
    /// device and ends the loop, an earlier one is retried after a pause.
    pub fn long_poll_result(&mut self, outcome: PollOutcome) -> (next: PollNext)
        ensures
            next == Self::next_after(old(self).failures(), outcome),
            final(self).device() == if disconnects(old(self).failures(), outcome) {
                old(self).device().disconnected()
            } else {
                old(self).device()
            },
            final(self).failures() == failures_after(old(self).failures(), outcome is Answered),
            next is Stop <==> disconnects(old(self).failures(), outcome),
            old(self).wf() ==> final(self).wf(),
    {
        match outcome {
            PollOutcome::Answered { status, command } => {
                self.retry_count = 0;
                match classify_status(&status) {
                    PollStatus::Timeout => PollNext::Reconnect,
                    PollStatus::Offline => {
                        self.device.disconnect();
                        PollNext::Stop
                    },
                    PollStatus::Replaced => {
                        self.device.disconnect();
                        PollNext::Stop
                    },
                    PollStatus::Command => PollNext::Dispatch { command },
                    PollStatus::Other => PollNext::Reconnect,
                }
            },
            PollOutcome::Failed => {
                if self.retry_count < MAX_LONG_POLL_FAILURES {
                    self.retry_count = self.retry_count + 1;
                }
                if self.retry_count >= MAX_LONG_POLL_FAILURES {
                    self.device.disconnect();
                    PollNext::Stop
                } else {
                    PollNext::RetryAfter { delay_ms: LONG_POLL_RETRY_DELAY_MS }
                }
            },
        }
    }
}

/// Once the connectivity flag is down, every loop stops at its next tick and
/// the tick changes nothing.
pub proof fn lemma_disconnected_device_stops_every_loop(device: Device)
    requires
        !device.is_connected,
    ensures
        DeviceManager::report_of(device) == ReportAction::Stop,
{
}

} // verus!
