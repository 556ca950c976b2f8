//! Sustained and boost power caps, in microwatts, of the hardware-monitor
//! device found under a fixed parent directory.
use vstd::prelude::*;
use crate::error::AccessError;
use crate::exchange::{join_path, joined, node_outcome, node_request, NodeAccess, Reply, Request, Step};

verus! {

/// The directory whose first entry is the hardware-monitor device.
pub const HWMON_PARENT: &'static str = "/sys/devices/pci0000:00/0000:00:08.1/0000:04:00.0/hwmon";

pub const SLOW_CAP_FILE: &'static str = "power1_cap";

pub const FAST_CAP_FILE: &'static str = "power2_cap";

/// Which power cap: the sustained ("slow") or the boost ("fast") one.
#[derive(Debug, Clone, Copy, PartialEq, Eq, Structural)]
pub enum DeviceType {
    Slow,
    Fast,
}

/// The name of the control file of a power cap.
pub open spec fn cap_file(t: DeviceType) -> Seq<char> {
    match t {
        DeviceType::Slow => SLOW_CAP_FILE@,
        DeviceType::Fast => FAST_CAP_FILE@,
    }
}

fn cap_file_name(t: DeviceType) -> (r: &'static str)
    ensures
        r@ == cap_file(t),
{
    match t {
        DeviceType::Slow => SLOW_CAP_FILE,
        DeviceType::Fast => FAST_CAP_FILE,
    }
}

/// Where an access to a power cap stands.
#[derive(Debug, Clone)]
pub enum Phase {
    /// Waiting to learn whether the parent directory is a directory.
    ParentCheck,
    /// Waiting for the first entry of the parent directory.
    ParentListing,
    /// Waiting to learn whether the control file at this path exists.
    NodePresence(String),
    /// Waiting for the read or the write of the control file.
    Transfer(NodeAccess),
    /// Finished.
    Over,
}

/// A read or a write of a power cap, in progress.
#[derive(Debug, Clone)]
pub struct PowerAccess {
    pub device: DeviceType,
    /// The value to write, or `None` to read.
    pub setting: Option<u32>,
    pub phase: Phase,
}

/// The state in which an access to the cap `t` begins.
pub open spec fn started(a: PowerAccess, t: DeviceType, setting: Option<u32>) -> bool {
    &&& a.device == t
    &&& a.setting == setting
    &&& a.phase matches Phase::ParentCheck
}

/// The first request of every access to a power cap.
pub open spec fn first_request(q: Request) -> bool {
    q matches Request::IsDir(p) && p@ == HWMON_PARENT@
}

/// The state and the step that follow `a` on `reply`.
pub open spec fn power_step(a: PowerAccess, reply: Reply, b: PowerAccess, s: Step<u32>) -> bool {
    &&& b.device == a.device
    &&& b.setting == a.setting
    &&& match (a.phase, reply) {
        (Phase::ParentCheck, Reply::Flag(true)) => {
            &&& b.phase matches Phase::ParentListing
            &&& s matches Step::Perform(Request::NextEntry(p)) && p@ == HWMON_PARENT@
        },
        (Phase::ParentCheck, Reply::Flag(false)) => {
            &&& b.phase matches Phase::Over
            &&& s matches Step::Finished(Err(AccessError::NotADirectory(p))) && p@ == HWMON_PARENT@
        },
        (Phase::ParentListing, Reply::Entry(None)) => {
            &&& b.phase matches Phase::Over
            &&& s matches Step::Finished(Err(AccessError::EmptyDirectory(p))) && p@ == HWMON_PARENT@
        },
        (Phase::ParentListing, Reply::Entry(Some(Err(e)))) => {
            &&& b.phase matches Phase::Over
            &&& s matches Step::Finished(Err(AccessError::Enumeration(p, f)))
                && p@ == HWMON_PARENT@ && f@ == e@
        },
        (Phase::ParentListing, Reply::Entry(Some(Ok(dir)))) => {
            &&& b.phase matches Phase::NodePresence(n) && n@ == joined(dir@, cap_file(a.device))
            &&& s matches Step::Perform(Request::Exists(p)) && p@ == joined(dir@, cap_file(a.device))
        },
        (Phase::NodePresence(n), Reply::Flag(false)) => {
            &&& b.phase matches Phase::Over
            &&& s matches Step::Finished(Err(AccessError::MissingNode(p))) && p@ == n@
        },
        (Phase::NodePresence(n), Reply::Flag(true)) => {
            &&& b.phase matches Phase::Transfer(t) && t.path@ == n@ && t.setting == a.setting
            &&& s matches Step::Perform(q) && node_request(
                NodeAccess { path: n, setting: a.setting },
                q,
            )
        },
        (Phase::Transfer(t), r) => {
            &&& b.phase matches Phase::Over
            &&& s matches Step::Finished(o) && node_outcome(t, r, o)
        },
        _ => {
            &&& b.phase matches Phase::Over
            &&& s matches Step::Finished(Err(AccessError::UnexpectedReply))
        },
    }
}

impl PowerAccess {
    /// Begins an access to the cap `device`: a read where `setting` is
    /// `None`, else a write of that value.
    pub fn start(device: DeviceType, setting: Option<u32>) -> (r: (PowerAccess, Request))
        ensures
            started(r.0, device, setting),
            first_request(r.1),
    {
        let parent = HWMON_PARENT.to_owned();
        (PowerAccess { device, setting, phase: Phase::ParentCheck }, Request::IsDir(parent))
    }

    /// Takes the reply to the last request, and says what to do next.
    pub fn resume(&mut self, reply: Reply) -> (s: Step<u32>)
        ensures
            power_step(*old(self), reply, *final(self), s),
    {
        let mut phase = Phase::Over;
        std::mem::swap(&mut phase, &mut self.phase);
        match (phase, reply) {
            (Phase::ParentCheck, Reply::Flag(true)) => {
                self.phase = Phase::ParentListing;
                Step::Perform(Request::NextEntry(HWMON_PARENT.to_owned()))
            },
            (Phase::ParentCheck, Reply::Flag(false)) => {
                Step::Finished(Err(AccessError::NotADirectory(HWMON_PARENT.to_owned())))
            },
            (Phase::ParentListing, Reply::Entry(None)) => {
                Step::Finished(Err(AccessError::EmptyDirectory(HWMON_PARENT.to_owned())))
            },
            (Phase::ParentListing, Reply::Entry(Some(Err(e)))) => {
                Step::Finished(Err(AccessError::Enumeration(HWMON_PARENT.to_owned(), e)))
            },
            (Phase::ParentListing, Reply::Entry(Some(Ok(dir)))) => {
                let node = join_path(dir.as_str(), cap_file_name(self.device));
                self.phase = Phase::NodePresence(node.clone());
                Step::Perform(Request::Exists(node))
            },
            (Phase::NodePresence(n), Reply::Flag(false)) => {
                Step::Finished(Err(AccessError::MissingNode(n)))
            },
            (Phase::NodePresence(n), Reply::Flag(true)) => {
                let t = NodeAccess { path: n, setting: self.setting };
                let q = t.request();
                self.phase = Phase::Transfer(t);
                Step::Perform(q)
            },
            (Phase::Transfer(t), r) => Step::Finished(t.finish(r)),
            _ => Step::Finished(Err(AccessError::UnexpectedReply)),
        }
    }
}

/// Begins a read of the sustained power cap.
pub fn get_slow_device_micro_watt() -> (r: (PowerAccess, Request))
    ensures
        started(r.0, DeviceType::Slow, None),
        first_request(r.1),
{
    PowerAccess::start(DeviceType::Slow, None)
}

/// Begins a read of the boost power cap.
pub fn get_fast_device_micro_watt() -> (r: (PowerAccess, Request))
    ensures
        started(r.0, DeviceType::Fast, None),
        first_request(r.1),
{
    PowerAccess::start(DeviceType::Fast, None)
}

/// Begins a write of `power_micro_watt` to the sustained power cap.
pub fn set_slow_device_micro_watt(power_micro_watt: u32) -> (r: (PowerAccess, Request))
    ensures
        started(r.0, DeviceType::Slow, Some(power_micro_watt)),
        first_request(r.1),
{
    PowerAccess::start(DeviceType::Slow, Some(power_micro_watt))
}

/// Begins a write of `power_micro_watt` to the boost power cap.
pub fn set_fast_device_micro_watt(power_micro_watt: u32) -> (r: (PowerAccess, Request))
    ensures
        started(r.0, DeviceType::Fast, Some(power_micro_watt)),
        first_request(r.1),
{
    PowerAccess::start(DeviceType::Fast, Some(power_micro_watt))
}

} // verus!
