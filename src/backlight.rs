//! The display backlight: locating its device by name, and reading and
//! writing its brightness within the device's maximum.
use vstd::prelude::*;
use crate::error::AccessError;
use crate::exchange::{join_path, joined, node_outcome, node_request, NodeAccess, Reply, Request, Step};

verus! {

/// The directory that lists the backlight devices.
pub const BACKLIGHT_DIR: &'static str = "/sys/class/backlight";

/// The paths of the backlight devices that are looked for.
pub const BACKLIGHT_PATTERN: &'static str = "^/sys/class/backlight/amdgpu_bl[0-9]+$";

pub const BRIGHTNESS_FILE: &'static str = "brightness";

pub const MAX_BRIGHTNESS_FILE: &'static str = "max_brightness";

#[verifier::external_type_specification]
#[verifier::external_body]
pub struct ExRegexError(regex::Error);

/// Whether the regular expression `pattern` matches somewhere in `haystack`.
pub uninterp spec fn regex_matches(pattern: Seq<char>, haystack: Seq<char>) -> bool;

/// Relies on `regex::Regex::is_match`, on the expression that
/// `regex::Regex::new` compiled from `pattern`; an `Err` is the reason
/// `Regex::new` gave for refusing `pattern`.
#[verifier::external_body]
fn regex_is_match(pattern: &str, haystack: &str) -> (r: Result<bool, regex::Error>)
    ensures
        r matches Ok(b) ==> b == regex_matches(pattern@, haystack@),
{
    match regex::Regex::new(pattern) {
        Ok(re) => Ok(re.is_match(haystack)),
        Err(e) => Err(e),
    }
}

/// The brightness file of a backlight device, and the largest value it takes.
#[derive(Debug, Clone)]
pub struct BacklightDevice {
    pub path: String,
    pub max_brightness: u32,
}

/// Where the search for the backlight device stands.
#[derive(Debug, Clone)]
pub enum ProbePhase {
    /// Waiting for the next entry of the backlight directory.
    Listing,
    /// Waiting to learn whether the brightness file of the device at this path exists.
    BrightnessNode(String),
    /// Waiting for the contents of the maximum-brightness file of the device
    /// at this path, read through the access given.
    MaxBrightness(String, NodeAccess),
    /// Finished.
    Over,
}

/// A search for the backlight device, in progress.
#[derive(Debug, Clone)]
pub struct BacklightProbe {
    pub phase: ProbePhase,
}

/// The first request of the search.
pub open spec fn probe_first_request(q: Request) -> bool {
    q matches Request::NextEntry(p) && p@ == BACKLIGHT_DIR@
}

/// The state and step that follow the listed entry `entry`, given whether
/// the entry's path fits the device pattern.
pub open spec fn entry_step(entry: Seq<char>, matched: bool, b: BacklightProbe, s: Step<BacklightDevice>) -> bool {
    if matched {
        &&& b.phase matches ProbePhase::BrightnessNode(d) && d@ == entry
        &&& s matches Step::Perform(Request::Exists(p)) && p@ == joined(entry, BRIGHTNESS_FILE@)
    } else {
        &&& b.phase matches ProbePhase::Listing
        &&& s matches Step::Perform(Request::NextEntry(p)) && p@ == BACKLIGHT_DIR@
    }
}

/// The state and the step that follow `a` on `reply`.
pub open spec fn probe_step(a: BacklightProbe, reply: Reply, b: BacklightProbe, s: Step<BacklightDevice>) -> bool {
    match (a.phase, reply) {
        (ProbePhase::Listing, Reply::Entry(None)) => {
            &&& b.phase matches ProbePhase::Over
            &&& s matches Step::Finished(Err(AccessError::BacklightNotFound))
        },
        (ProbePhase::Listing, Reply::Entry(Some(Err(e)))) => {
            &&& b.phase matches ProbePhase::Over
            &&& s matches Step::Finished(Err(AccessError::Enumeration(p, f)))
                && p@ == BACKLIGHT_DIR@ && f@ == e@
        },
        (ProbePhase::Listing, Reply::Entry(Some(Ok(entry)))) => {
            ||| (b.phase matches ProbePhase::Over && s matches Step::Finished(Err(AccessError::BadPattern)))
            ||| entry_step(entry@, regex_matches(BACKLIGHT_PATTERN@, entry@), b, s)
        },
        (ProbePhase::BrightnessNode(d), Reply::Flag(false)) => {
            &&& b.phase matches ProbePhase::Over
            &&& s matches Step::Finished(Err(AccessError::NoBrightnessNode(p))) && p@ == d@
        },
        (ProbePhase::BrightnessNode(d), Reply::Flag(true)) => {
            &&& b.phase matches ProbePhase::MaxBrightness(e, t)
                && e@ == d@ && t.path@ == joined(d@, MAX_BRIGHTNESS_FILE@) && t.setting is None
            &&& s matches Step::Perform(Request::Read(p)) && p@ == joined(d@, MAX_BRIGHTNESS_FILE@)
        },
        (ProbePhase::MaxBrightness(d, t), r) => {
            &&& b.phase matches ProbePhase::Over
            &&& s matches Step::Finished(o) && node_outcome(
                t,
                r,
                match o {
                    Ok(dev) => Ok(dev.max_brightness),
                    Err(e) => Err(e),
                },
            ) && (o matches Ok(dev) ==> dev.path@ == joined(d@, BRIGHTNESS_FILE@))
        },
        _ => {
            &&& b.phase matches ProbePhase::Over
            &&& s matches Step::Finished(Err(AccessError::UnexpectedReply))
        },
    }
}

impl BacklightProbe {
    /// Goes on from the listed entry `entry`, given whether its path fits the
    /// device pattern: a fitting one is checked for a brightness file, another
    /// is passed over for the next entry.
    pub fn take_entry(&mut self, entry: String, matched: bool) -> (s: Step<BacklightDevice>)
        ensures
            entry_step(entry@, matched, *final(self), s),
    {
        if matched {
            let node = join_path(entry.as_str(), BRIGHTNESS_FILE);
            self.phase = ProbePhase::BrightnessNode(entry);
            Step::Perform(Request::Exists(node))
        } else {
            self.phase = ProbePhase::Listing;
            Step::Perform(Request::NextEntry(BACKLIGHT_DIR.to_owned()))
        }
    }

    /// Takes the reply to the last request, and says what to do next.
    pub fn resume(&mut self, reply: Reply) -> (s: Step<BacklightDevice>)
        ensures
            probe_step(*old(self), reply, *final(self), s),
    {
        let mut phase = ProbePhase::Over;
        std::mem::swap(&mut phase, &mut self.phase);
        match (phase, reply) {
            (ProbePhase::Listing, Reply::Entry(None)) => {
                Step::Finished(Err(AccessError::BacklightNotFound))
            },
            (ProbePhase::Listing, Reply::Entry(Some(Err(e)))) => {
                Step::Finished(Err(AccessError::Enumeration(BACKLIGHT_DIR.to_owned(), e)))
            },
            (ProbePhase::Listing, Reply::Entry(Some(Ok(entry)))) => {
                match regex_is_match(BACKLIGHT_PATTERN, entry.as_str()) {
                    Ok(matched) => self.take_entry(entry, matched),
                    Err(_) => Step::Finished(Err(AccessError::BadPattern)),
                }
            },
            (ProbePhase::BrightnessNode(d), Reply::Flag(false)) => {
                Step::Finished(Err(AccessError::NoBrightnessNode(d)))
            },
            (ProbePhase::BrightnessNode(d), Reply::Flag(true)) => {
                let t = NodeAccess { path: join_path(d.as_str(), MAX_BRIGHTNESS_FILE), setting: None };
                let q = t.request();
                self.phase = ProbePhase::MaxBrightness(d, t);
                Step::Perform(q)
            },
            (ProbePhase::MaxBrightness(d, t), r) => {
                match t.finish(r) {
                    Ok(m) => Step::Finished(
                        Ok(BacklightDevice { path: join_path(d.as_str(), BRIGHTNESS_FILE), max_brightness: m }),
                    ),
                    Err(e) => Step::Finished(Err(e)),
                }
            },
            _ => Step::Finished(Err(AccessError::UnexpectedReply)),
        }
    }
}

/// Begins the search for the backlight device: the first listed entry whose
/// path fits the device pattern, with the maximum read from its files.
pub fn probe_backlight_device() -> (r: (BacklightProbe, Request))
    ensures
        r.0.phase matches ProbePhase::Listing,
        probe_first_request(r.1),
{
    (BacklightProbe { phase: ProbePhase::Listing }, Request::NextEntry(BACKLIGHT_DIR.to_owned()))
}

/// Reads the brightness of `device`.
pub fn get_brightness(device: &BacklightDevice) -> (r: NodeAccess)
    ensures
        r.path@ == device.path@,
        r.setting is None,
{
    NodeAccess { path: device.path.clone(), setting: None }
}

/// Sets the brightness of `device` to `brightness`, which may not exceed
/// the device's maximum; one above it is refused before anything is written.
pub fn set_brightness(device: &BacklightDevice, brightness: u32) -> (r: Result<NodeAccess, AccessError>)
    ensures
        brightness > device.max_brightness <==> r is Err,
        r matches Err(e) ==> e matches AccessError::AboveMaximum(b, m)
            && b == brightness && m == device.max_brightness,
        r matches Ok(a) ==> a.path@ == device.path@ && a.setting == Some(brightness),
{
    if brightness > device.max_brightness {
        return Err(AccessError::AboveMaximum(brightness, device.max_brightness));
    }
    Ok(NodeAccess { path: device.path.clone(), setting: Some(brightness) })
}

} // verus!
