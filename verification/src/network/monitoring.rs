//! Decisions of the network monitoring: the primary connection type and the removal
//! of devices. NetworkManager signals are received by the caller.
use vstd::prelude::*;

use crate::text::str_eq;

verus! {

/// Which interface carries the primary connection.
#[derive(Debug, Clone, Copy, PartialEq, Eq)]
pub enum ConnectionType {
    /// Not known, or neither tracked device.
    Unknown,
    /// The WiFi device.
    Wifi,
    /// The wired device.
    Wired,
}

/// What the monitoring reads of a tracked device: its D-Bus object path and the
/// object path of its active connection.
#[derive(Debug, Clone, PartialEq, Eq)]
pub struct DeviceSnapshot {
    pub object_path: String,
    pub active_connection: String,
}

/// The device is present and its active connection is `primary`.
pub open spec fn carries(device: Option<DeviceSnapshot>, primary: Seq<char>) -> bool {
    device matches Some(d) && d.active_connection@ == primary
}

/// The primary connection type for NetworkManager's primary connection path: unknown
/// for an empty path or `/`; else WiFi if the WiFi device's active connection is it,
/// else wired if the wired device's is, else unknown.
pub open spec fn primary_connection_spec(
    nm_primary: Seq<char>,
    wifi: Option<DeviceSnapshot>,
    wired: Option<DeviceSnapshot>,
) -> ConnectionType {
    if nm_primary.len() == 0 || nm_primary == "/"@ {
        ConnectionType::Unknown
    } else if carries(wifi, nm_primary) {
        ConnectionType::Wifi
    } else if carries(wired, nm_primary) {
        ConnectionType::Wired
    } else {
        ConnectionType::Unknown
    }
}

/// The new value of the primary connection property.
pub fn update_primary_connection(
    nm_primary: &str,
    wifi: &Option<DeviceSnapshot>,
    wired: &Option<DeviceSnapshot>,
) -> (res: ConnectionType)
    ensures
        res == primary_connection_spec(nm_primary@, *wifi, *wired),
{
    if nm_primary.unicode_len() == 0 || str_eq(nm_primary, "/") {
        return ConnectionType::Unknown;
    }
    if let Some(w) = wifi {
        if str_eq(w.active_connection.as_str(), nm_primary) {
            return ConnectionType::Wifi;
        }
    }
    if let Some(w) = wired {
        if str_eq(w.active_connection.as_str(), nm_primary) {
            return ConnectionType::Wired;
        }
    }
    ConnectionType::Unknown
}

/// Which device carries the primary connection, device by device. A primary path that is
/// empty or `/` is unknown. Otherwise the WiFi device wins when its active connection is
/// the primary one; failing that (no WiFi device, or another active connection), the
/// wired device does when its active connection is the primary one, whether or not a
/// WiFi device exists; else it is unknown. Conversely, WiFi and wired are only answered
/// for a device whose active connection is the primary path.
pub proof fn lemma_primary_connection_by_device(
    nm_primary: Seq<char>,
    wifi: Option<DeviceSnapshot>,
    wired: Option<DeviceSnapshot>,
)
    ensures
        nm_primary.len() == 0 || nm_primary == "/"@ ==> primary_connection_spec(nm_primary, wifi, wired)
            == ConnectionType::Unknown,
        nm_primary.len() > 0 && nm_primary != "/"@ && (wifi matches Some(w) && w.active_connection@
            == nm_primary) ==> primary_connection_spec(nm_primary, wifi, wired) == ConnectionType::Wifi,
        nm_primary.len() > 0 && nm_primary != "/"@ && !(wifi matches Some(w) && w.active_connection@
            == nm_primary) && (wired matches Some(d) && d.active_connection@ == nm_primary)
            ==> primary_connection_spec(nm_primary, wifi, wired) == ConnectionType::Wired,
        primary_connection_spec(nm_primary, wifi, wired) == ConnectionType::Wifi ==> (wifi matches Some(w)
            && w.active_connection@ == nm_primary),
        primary_connection_spec(nm_primary, wifi, wired) == ConnectionType::Wired ==> (wired matches Some(d)
            && d.active_connection@ == nm_primary) && !(wifi matches Some(w) && w.active_connection@
            == nm_primary),
        primary_connection_spec(nm_primary, wifi, wired) != ConnectionType::Unknown ==> nm_primary.len() > 0
            && nm_primary != "/"@,
{
}

/// The tracked device after `device_path` was removed: cleared if it is that device.
pub open spec fn after_removal(device: Option<DeviceSnapshot>, device_path: Seq<char>) -> Option<DeviceSnapshot> {
    match device {
        Some(d) => if d.object_path@ == device_path {
            None
        } else {
            Some(d)
        },
        None => None,
    }
}

/// Forgets the WiFi device if it is the one removed.
pub fn handle_wifi_removed(device_path: &str, wifi: &mut Option<DeviceSnapshot>)
    ensures
        *final(wifi) == after_removal(*old(wifi), device_path@),
{
    forget_if_removed(device_path, wifi)
}

/// Forgets the wired device if it is the one removed.
pub fn handle_wired_removed(device_path: &str, wired: &mut Option<DeviceSnapshot>)
    ensures
        *final(wired) == after_removal(*old(wired), device_path@),
{
    forget_if_removed(device_path, wired)
}

fn forget_if_removed(device_path: &str, device: &mut Option<DeviceSnapshot>)
    ensures
        *final(device) == after_removal(*old(device), device_path@),
{
    let matches = match device {
        Some(d) => str_eq(d.object_path.as_str(), device_path),
        None => false,
    };
    if matches {
        *device = None;
    }
}

} // verus!
