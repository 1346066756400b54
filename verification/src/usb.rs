//! Hardware enumeration behind trusted wrappers around the `rusb` crate.
//!
//! A tether re-enumerates the bus to resolve the vendor id, product id and
//! optional product name of the device at a given bus and address.  Only the
//! calls into `rusb` are trusted; the search over the enumerated devices and
//! every message built from the outcomes are verified.

use vstd::prelude::*;

use rusb::UsbContext;

use crate::device::DeviceInfo;
use crate::num::dec3_of;

verus! {

#[verifier::external_type_specification]
#[verifier::external_body]
pub struct ExContext(rusb::Context);

/// An enumerated device, held opaquely: Verus refuses the declaration of
/// `rusb::Device` itself because of its outside trait bound.
#[verifier::external_body]
pub struct UsbDevice {
    inner: rusb::Device<rusb::Context>,
}

/// An open device handle, held opaquely for the same reason.
#[verifier::external_body]
pub struct UsbHandle {
    inner: rusb::DeviceHandle<rusb::Context>,
}

#[verifier::external_type_specification]
#[verifier::external_body]
pub struct ExDeviceDescriptor(rusb::DeviceDescriptor);

#[verifier::external_type_specification]
#[verifier::external_body]
pub struct ExError(rusb::Error);

/// One enumerated device: its attachment point as plain values, and the
/// underlying handle for the descriptor and string reads that follow.
pub struct EnumeratedDevice {
    pub bus: u8,
    pub address: u8,
    pub device: UsbDevice,
}

/// Relies on rusb::has_hotplug: whether the platform's hotplug capability is
/// present.  Nothing is assumed of the answer.  Like the underlying call, it
/// panics where no USB context can be initialized at all.
#[verifier::external_body]
pub(crate) fn usb_has_hotplug() -> bool {
    rusb::has_hotplug()
}

/// Relies on rusb::Context::new: opens a fresh USB context.
#[verifier::external_body]
fn usb_context_new() -> Result<rusb::Context, rusb::Error> {
    rusb::Context::new()
}

/// Relies on rusb::UsbContext::devices and rusb::Device::{bus_number,
/// address}: enumerates the connected devices, handing each out with its bus
/// and address read into plain values.  Which devices are present depends on
/// the machine at the moment of the call, so nothing is assumed of the list.
#[verifier::external_body]
fn usb_enumerate(ctx: &rusb::Context) -> Result<Vec<EnumeratedDevice>, rusb::Error> {
    let list = ctx.devices()?;
    Ok(list.iter().map(
        |d| EnumeratedDevice { bus: d.bus_number(), address: d.address(), device: UsbDevice { inner: d } },
    ).collect())
}

/// Relies on rusb::Device::device_descriptor: reads the device descriptor.
#[verifier::external_body]
fn usb_device_descriptor(d: &UsbDevice) -> Result<rusb::DeviceDescriptor, rusb::Error> {
    d.inner.device_descriptor()
}

/// Relies on rusb::DeviceDescriptor::vendor_id.
#[verifier::external_body]
fn usb_vendor_id(d: &rusb::DeviceDescriptor) -> u16 {
    d.vendor_id()
}

/// Relies on rusb::DeviceDescriptor::product_id.
#[verifier::external_body]
fn usb_product_id(d: &rusb::DeviceDescriptor) -> u16 {
    d.product_id()
}

/// Relies on rusb::Device::open: opens the device for the string read.
#[verifier::external_body]
fn usb_open(d: &UsbDevice) -> Result<UsbHandle, rusb::Error> {
    Ok(UsbHandle { inner: d.inner.open()? })
}

/// Relies on rusb::DeviceHandle::read_product_string_ascii: reads the
/// human-readable product string.
#[verifier::external_body]
fn usb_read_product_string(h: &UsbHandle, d: &rusb::DeviceDescriptor) -> Result<String, rusb::Error> {
    h.inner.read_product_string_ascii(d)
}

/// Relies on rusb::Error's Display rendering: the short text of one error.
#[verifier::external_body]
fn usb_error_text(e: &rusb::Error) -> String {
    format!("{}", e)
}

/// The error reported when no device sits at the requested attachment point.
pub open spec fn not_found_msg(bus: u8, address: u8) -> Seq<char> {
    "no device found on bus "@ + dec3_of(bus) + " address "@ + dec3_of(address)
}

/// The first enumerated device at the requested bus and address, if any.
pub fn find_device(devices: &Vec<EnumeratedDevice>, bus: u8, address: u8) -> (r: Option<usize>)
    ensures
        match r {
            Some(i) => i < devices@.len() && devices@[i as int].bus == bus && devices@[
                i as int
            ].address == address && forall|j: int|
                0 <= j < i ==> !(devices@[j].bus == bus && devices@[j].address == address),
            None => forall|j: int|
                0 <= j < devices@.len() ==> !(devices@[j].bus == bus && devices@[j].address
                    == address),
        },
{
    let n = devices.len();
    let mut i: usize = 0;
    while i < n
        invariant
            n == devices@.len(),
            i <= n,
            forall|j: int| 0 <= j < i ==> !(devices@[j].bus == bus && devices@[j].address == address),
        decreases n - i,
    {
        if devices[i].bus == bus && devices[i].address == address {
            return Some(i);
        }
        i = i + 1;
    }
    None
}

/// Builds the failure message for one failed outside call: the fixed prefix
/// and the error's own text.
fn prefixed_error(prefix: &str, e: &rusb::Error) -> (r: String)
    ensures
        exists|t: Seq<char>| r@ == prefix@ + t,
{
    let mut m = prefix.to_owned();
    let text = usb_error_text(e);
    m.append(text.as_str());
    proof {
        assert(m@ == prefix@ + text@);
    }
    m
}

/// Resolves the device at the requested attachment point, reading its vendor
/// and product identifiers and, when the device can be opened, its product
/// name.  A failed name read degrades to no name and never fails the lookup.
/// The search over the enumerated list and the not-found report are exact;
/// what the hardware reads return is taken from the outside calls.
pub fn lookup_device(bus: u8, address: u8) -> (r: Result<DeviceInfo, String>)
    ensures
        r matches Err(m) ==> m@ == not_found_msg(bus, address) || (exists|t: Seq<char>|
            m@ == "failed to create USB context: "@ + t || m@ == "failed to list USB devices: "@
                + t || m@ == "failed to read device descriptor: "@ + t),
{
    let ctx = match usb_context_new() {
        Ok(c) => c,
        Err(e) => {
            return Err(prefixed_error("failed to create USB context: ", &e));
        },
    };
    let devices = match usb_enumerate(&ctx) {
        Ok(d) => d,
        Err(e) => {
            return Err(prefixed_error("failed to list USB devices: ", &e));
        },
    };
    let found = match find_device(&devices, bus, address) {
        Some(i) => i,
        None => {
            let mut m = "no device found on bus ".to_owned();
            crate::num::append_dec3(&mut m, bus);
            m.append(" address ");
            crate::num::append_dec3(&mut m, address);
            proof {
                assert(m@ =~= not_found_msg(bus, address));
            }
            return Err(m);
        },
    };
    let descriptor = match usb_device_descriptor(&devices[found].device) {
        Ok(d) => d,
        Err(e) => {
            return Err(prefixed_error("failed to read device descriptor: ", &e));
        },
    };
    let vendor_id = usb_vendor_id(&descriptor);
    let product_id = usb_product_id(&descriptor);
    let product_name = match usb_open(&devices[found].device) {
        Ok(handle) => match usb_read_product_string(&handle, &descriptor) {
            Ok(name) => Some(name),
            Err(_) => None,
        },
        Err(_) => None,
    };
    Ok(DeviceInfo { vendor_id, product_id, product_name })
}

/// Lists every connected device, one line each, as the command-line tool
/// prints when invoked without a command.  A device whose descriptor cannot
/// be read gets a report line; a failed open or name read only drops the
/// name.  Returns the fixed message when no device is present.
pub fn list_devices() -> (r: Result<String, String>)
    ensures
        r matches Err(m) ==> (exists|t: Seq<char>|
            m@ == "failed to create USB context: "@ + t || m@ == "failed to list USB devices: "@
                + t),
{
    let ctx = match usb_context_new() {
        Ok(c) => c,
        Err(e) => {
            return Err(prefixed_error("failed to create USB context: ", &e));
        },
    };
    let devices = match usb_enumerate(&ctx) {
        Ok(d) => d,
        Err(e) => {
            return Err(prefixed_error("failed to list USB devices: ", &e));
        },
    };
    if devices.len() == 0 {
        return Ok("no USB devices found".to_owned());
    }
    let mut out = String::new();
    let n = devices.len();
    let mut i: usize = 0;
    while i < n
        invariant
            n == devices@.len(),
            i <= n,
        decreases n - i,
    {
        if i > 0 {
            out.append("\n");
        }
        let d = &devices[i];
        match usb_device_descriptor(&d.device) {
            Ok(descriptor) => {
                let vendor_id = usb_vendor_id(&descriptor);
                let product_id = usb_product_id(&descriptor);
                let product_name = match usb_open(&d.device) {
                    Ok(handle) => match usb_read_product_string(&handle, &descriptor) {
                        Ok(name) => Some(name),
                        Err(_) => None,
                    },
                    Err(_) => None,
                };
                let name_ref: Option<&str> = match &product_name {
                    Some(s) => Some(s.as_str()),
                    None => None,
                };
                let line = crate::device::format_device_summary(
                    crate::device::DeviceKey { bus: d.bus, address: d.address },
                    vendor_id,
                    product_id,
                    name_ref,
                );
                out.append(line.as_str());
            },
            Err(e) => {
                let mut line = "bus ".to_owned();
                crate::num::append_dec3(&mut line, d.bus);
                line.append(" address ");
                crate::num::append_dec3(&mut line, d.address);
                line.append(": failed to read descriptor (");
                let text = usb_error_text(&e);
                line.append(text.as_str());
                line.append(")");
                out.append(line.as_str());
            },
        }
        i = i + 1;
    }
    Ok(out)
}

} // verus!
