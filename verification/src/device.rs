//! The data model of a tether: the key of a device's attachment point, the
//! transient lookup result of a hardware enumeration, the two per-monitor
//! flags, the monitor record a registry entry holds, and the per-device
//! watcher's own view of one tether.

use vstd::prelude::*;

use crate::num::{dec3_of, hex4_of, append_dec3, append_hex4};

verus! {

/// A physical device's current attachment point: the registry's key.
#[derive(Clone, Copy, PartialEq, Eq, Structural, Debug)]
pub struct DeviceKey {
    pub bus: u8,
    pub address: u8,
}

impl DeviceKey {
    pub fn new(bus: u8, address: u8) -> (k: DeviceKey)
        ensures
            k == (DeviceKey { bus, address }),
    {
        DeviceKey { bus, address }
    }
}

/// Transient result of a hardware lookup at tether time.
pub struct DeviceInfo {
    pub vendor_id: u16,
    pub product_id: u16,
    pub product_name: Option<String>,
}

/// Mathematical view of a lookup result.
pub ghost struct DeviceInfoV {
    pub vendor_id: u16,
    pub product_id: u16,
    pub product_name: Option<Seq<char>>,
}

impl View for DeviceInfo {
    type V = DeviceInfoV;

    open spec fn view(&self) -> DeviceInfoV {
        DeviceInfoV {
            vendor_id: self.vendor_id,
            product_id: self.product_id,
            product_name: match self.product_name {
                Some(n) => Some(n@),
                None => None,
            },
        }
    }
}

impl DeviceInfo {
    /// A copy with the same view; the name is duplicated character for
    /// character.
    pub fn duplicate(&self) -> (r: DeviceInfo)
        ensures
            r@ == self@,
    {
        DeviceInfo {
            vendor_id: self.vendor_id,
            product_id: self.product_id,
            product_name: match &self.product_name {
                Some(n) => Some(n.clone()),
                None => None,
            },
        }
    }
}

/// The two flags shared between a monitor's watcher, the dispatcher and the
/// severe operation.  They need no ordering stronger than visibility on the
/// watcher's next poll.
#[derive(Clone, Copy, PartialEq, Eq, Structural, Debug)]
pub struct MonitorFlags {
    pub removed: bool,
    pub lock_on_remove: bool,
}

/// The flags a fresh tether starts with: present, and armed to lock.
pub open spec fn fresh_flags() -> MonitorFlags {
    MonitorFlags { removed: false, lock_on_remove: true }
}

/// The flags after the severe operation has disarmed a monitor.
pub open spec fn severed_flags() -> MonitorFlags {
    MonitorFlags { removed: true, lock_on_remove: false }
}

/// Whether a watcher that observed its flags must lock the sessions.
pub open spec fn should_lock_spec(f: MonitorFlags) -> bool {
    f.removed && f.lock_on_remove
}

impl MonitorFlags {
    pub fn new() -> (f: MonitorFlags)
        ensures
            f == fresh_flags(),
    {
        MonitorFlags { removed: false, lock_on_remove: true }
    }

    /// Disarms this monitor: the lock-on-remove flag falls first, so a watcher
    /// that wakes in between never locks.
    pub fn sever(&mut self)
        ensures
            *final(self) == severed_flags(),
    {
        self.lock_on_remove = false;
        self.removed = true;
    }

    /// The decision a watcher takes on loop exit: lock exactly when the device
    /// was removed and the operator has not disarmed the tether.
    pub fn should_lock_sessions(&self) -> (r: bool)
        ensures
            r == should_lock_spec(*self),
    {
        self.removed && self.lock_on_remove
    }
}

/// One registry entry: what the daemon knows of an active tether.
pub struct DeviceMonitor {
    pub vendor_id: u16,
    pub product_id: u16,
    pub product_name: Option<String>,
    pub flags: MonitorFlags,
}

/// Mathematical view of a registry entry.
pub ghost struct MonitorV {
    pub vendor_id: u16,
    pub product_id: u16,
    pub product_name: Option<Seq<char>>,
    pub flags: MonitorFlags,
}

impl View for DeviceMonitor {
    type V = MonitorV;

    open spec fn view(&self) -> MonitorV {
        MonitorV {
            vendor_id: self.vendor_id,
            product_id: self.product_id,
            product_name: match self.product_name {
                Some(n) => Some(n@),
                None => None,
            },
            flags: self.flags,
        }
    }
}

/// The monitor record a successful tether inserts for a lookup result.
pub open spec fn monitor_of(info: DeviceInfoV) -> MonitorV {
    MonitorV {
        vendor_id: info.vendor_id,
        product_id: info.product_id,
        product_name: info.product_name,
        flags: fresh_flags(),
    }
}

impl DeviceMonitor {
    pub fn from_info(info: &DeviceInfo) -> (m: DeviceMonitor)
        ensures
            m@ == monitor_of(info@),
    {
        DeviceMonitor {
            vendor_id: info.vendor_id,
            product_id: info.product_id,
            product_name: match &info.product_name {
                Some(n) => Some(n.clone()),
                None => None,
            },
            flags: MonitorFlags::new(),
        }
    }

    /// A copy with the same view.
    pub fn duplicate(&self) -> (m: DeviceMonitor)
        ensures
            m@ == self@,
    {
        DeviceMonitor {
            vendor_id: self.vendor_id,
            product_id: self.product_id,
            product_name: match &self.product_name {
                Some(n) => Some(n.clone()),
                None => None,
            },
            flags: self.flags,
        }
    }
}

/// One line describing a device: its attachment point, its vendor and product
/// identifiers in hexadecimal, and its product name when one was read.
pub open spec fn summary_of(
    key: DeviceKey,
    vendor_id: u16,
    product_id: u16,
    name: Option<Seq<char>>,
) -> Seq<char> {
    "bus "@ + dec3_of(key.bus) + " address "@ + dec3_of(key.address) + " "@ + hex4_of(vendor_id)
        + ":"@ + hex4_of(product_id) + (match name {
        Some(n) => " - "@ + n,
        None => Seq::empty(),
    })
}

/// Renders the one-line summary of a device.
pub fn format_device_summary(
    key: DeviceKey,
    vendor_id: u16,
    product_id: u16,
    product_name: Option<&str>,
) -> (r: String)
    ensures
        r@ == summary_of(
            key,
            vendor_id,
            product_id,
            match product_name {
                Some(n) => Some(n@),
                None => None,
            },
        ),
{
    let mut s = "bus ".to_owned();
    append_dec3(&mut s, key.bus);
    s.append(" address ");
    append_dec3(&mut s, key.address);
    s.append(" ");
    append_hex4(&mut s, vendor_id);
    s.append(":");
    append_hex4(&mut s, product_id);
    if let Some(name) = product_name {
        s.append(" - ");
        s.append(name);
    }
    proof {
        assert(s@ =~= summary_of(
            key,
            vendor_id,
            product_id,
            match product_name {
                Some(n) => Some(n@),
                None => None,
            },
        ));
    }
    s
}

/// One watcher's own view of its tether: the key it re-checks every hardware
/// event against, the identifiers its event subscription was filtered by, and
/// its shared flags.
pub struct SelectedDeviceWatcher {
    pub key: DeviceKey,
    pub vendor_id: u16,
    pub product_id: u16,
    pub product_name: Option<String>,
    pub flags: MonitorFlags,
}

impl SelectedDeviceWatcher {
    pub fn display_name(&self) -> (r: &str)
        ensures
            match self.product_name {
                Some(n) => r@ == n@,
                None => r@ == "selected device"@,
            },
    {
        match &self.product_name {
            Some(n) => n.as_str(),
            None => "selected device",
        }
    }

    /// Arrival event: a fast reattach clears the removed flag, but only when
    /// the event's bus and address match this watcher's key exactly — the
    /// subscription filters by vendor and product only, and several units may
    /// share those.
    pub fn device_arrived(&mut self, bus: u8, address: u8)
        ensures
            final(self).key == old(self).key,
            final(self).vendor_id == old(self).vendor_id,
            final(self).product_id == old(self).product_id,
            final(self).product_name == old(self).product_name,
            final(self).flags == (if bus == old(self).key.bus && address == old(self).key.address {
                MonitorFlags { removed: false, ..old(self).flags }
            } else {
                old(self).flags
            }),
    {
        if bus == self.key.bus && address == self.key.address {
            self.flags.removed = false;
        }
    }

    /// Departure event: sets the removed flag when and only when the event's
    /// bus and address match this watcher's key exactly.
    pub fn device_left(&mut self, bus: u8, address: u8)
        ensures
            final(self).key == old(self).key,
            final(self).vendor_id == old(self).vendor_id,
            final(self).product_id == old(self).product_id,
            final(self).product_name == old(self).product_name,
            final(self).flags == (if bus == old(self).key.bus && address == old(self).key.address {
                MonitorFlags { removed: true, ..old(self).flags }
            } else {
                old(self).flags
            }),
    {
        if bus == self.key.bus && address == self.key.address {
            self.flags.removed = true;
        }
    }

    /// Whether the watcher's poll loop keeps waiting for events.
    pub fn keeps_watching(&self) -> (r: bool)
        ensures
            r == !self.flags.removed,
    {
        !self.flags.removed
    }
}

} // verus!
