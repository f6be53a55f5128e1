//! Device endpoints: the body of `POST /v1/devices` and the health
//! summaries of `GET /v1/devices/:id/health` and
//! `GET /v1/devices/health`. A device is online while its last
//! liveliness sighting is recent enough.

use vstd::prelude::*;

use crate::db::devices::Device;

verus! {

/// A device counts as online while the liveliness subscriber stamped
/// `last_seen_at` within this many seconds.
pub const ONLINE_STALE_SECS: i64 = 60;

/// Cap, in milliseconds, on one liveliness probe.
pub const PROBE_TIMEOUT_MS: u64 = 250;

/// Body of `POST /v1/devices`.
pub struct CreateDevice {
    pub zid: String,
    pub label: String,
}

/// Health of one device.
#[derive(Debug)]
pub struct DeviceHealth {
    pub online: bool,
    pub last_seen_at: Option<i64>,
    pub rtt_ms: Option<i64>,
}

/// Health of one device in the collection listing.
#[derive(Debug)]
pub struct DeviceHealthEntry {
    pub device_id: i64,
    pub online: bool,
    pub last_seen_at: Option<i64>,
    pub rtt_ms: Option<i64>,
}

/// Health of every device of an org.
#[derive(Debug)]
pub struct DeviceHealthList {
    pub items: Vec<DeviceHealthEntry>,
}

/// Online means seen, and seen at most `ONLINE_STALE_SECS` before
/// `now`; a sighting stamped after `now` (clock skew) counts as
/// online. The difference is taken on unbounded integers, which is
/// what a saturating `i64` subtraction compares against the window.
pub open spec fn is_online(last_seen_at: Option<i64>, now: i64) -> bool {
    match last_seen_at {
        Some(seen) => now - seen <= ONLINE_STALE_SECS,
        None => false,
    }
}

/// Whether a device last seen at `last_seen_at` is online at `now`
/// (both Unix seconds).
pub fn online_from_last_seen(last_seen_at: Option<i64>, now: i64) -> (r: bool)
    ensures
        r == is_online(last_seen_at, now),
{
    match last_seen_at {
        Some(seen) => {
            let gap: i128 = now as i128 - seen as i128;
            gap <= ONLINE_STALE_SECS as i128
        },
        None => false,
    }
}

/// The health answered for `device` at `now`, with the probe's
/// round-trip time `rtt_ms` (`None` when the probe failed).
pub fn device_health(device: &Device, now: i64, rtt_ms: Option<i64>) -> (r: DeviceHealth)
    ensures
        r.online == is_online(device.last_seen_at, now),
        r.last_seen_at == device.last_seen_at,
        r.rtt_ms == rtt_ms,
{
    DeviceHealth { online: online_from_last_seen(device.last_seen_at, now), last_seen_at: device.last_seen_at, rtt_ms }
}

/// The listing entry answered for `device` at `now`.
pub fn device_health_entry(device: &Device, now: i64, rtt_ms: Option<i64>) -> (r: DeviceHealthEntry)
    ensures
        r.device_id == device.id,
        r.online == is_online(device.last_seen_at, now),
        r.last_seen_at == device.last_seen_at,
        r.rtt_ms == rtt_ms,
{
    DeviceHealthEntry {
        device_id: device.id,
        online: online_from_last_seen(device.last_seen_at, now),
        last_seen_at: device.last_seen_at,
        rtt_ms,
    }
}

/// A sighting within the window counts as online; one older than the
/// window does not; a device never seen is offline.
pub proof fn law_online_window(seen: i64, now: i64)
    ensures
        is_online(Some(seen), now) <==> now - seen <= ONLINE_STALE_SECS,
        seen >= now ==> is_online(Some(seen), now),
        !is_online(None, now),
{
}

} // verus!
