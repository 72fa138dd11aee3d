//! Finding the displays to control among the HID devices that are attached.
//!
//! Enumerating the devices is the caller's part. What was found arrives here
//! as a list of descriptors, in the order of the enumeration, and leaves as
//! the sublist of those that are the supported display and, where a serial
//! number was asked for, carry it.

use vstd::prelude::*;
use vstd::string::StringExecFns;
use crate::constants::{SD_INTERFACE_NR, SD_PRODUCT_ID, SD_VENDOR_ID};
use crate::error::DisplayError;

verus! {

/// One HID interface as the enumeration reported it.
#[derive(Debug, Clone, PartialEq, Eq)]
pub struct DeviceDescriptor {
    /// USB vendor id.
    pub vendor_id: u16,
    /// USB product id.
    pub product_id: u16,
    /// Number of the HID interface on the device.
    pub interface_number: i32,
    /// Serial number of the unit, where it reports one.
    pub serial_number: Option<String>,
    /// What the transport opens a connection by. Nothing here reads it.
    pub path: Vec<u8>,
}

impl DeviceDescriptor {
    /// Whether this is the brightness interface of the supported display:
    /// vendor, product and interface number are all the expected ones.
    pub open spec fn spec_is_studio_display(&self) -> bool {
        &&& self.vendor_id == SD_VENDOR_ID
        &&& self.product_id == SD_PRODUCT_ID
        &&& self.interface_number == SD_INTERFACE_NR
    }

    /// Whether the unit reports a serial number, and it is `serial`.
    pub open spec fn spec_has_serial(&self, serial: Seq<char>) -> bool {
        match self.serial_number {
            Some(own) => own@ == serial,
            None => false,
        }
    }

    /// Whether this is the brightness interface of the supported display.
    pub fn is_studio_display(&self) -> (supported: bool)
        ensures
            supported == self.spec_is_studio_display(),
    {
        self.vendor_id == SD_VENDOR_ID && self.product_id == SD_PRODUCT_ID
            && self.interface_number == SD_INTERFACE_NR
    }

    /// Whether the unit reports a serial number, and it is `serial`. A unit
    /// that reports none has no serial number to match.
    pub fn has_serial(&self, serial: &str) -> (matches: bool)
        ensures
            matches == self.spec_has_serial(serial@),
    {
        match &self.serial_number {
            Some(own) => {
                let wanted = String::from_str(serial);
                *own == wanted
            },
            None => false,
        }
    }
}

/// The test that a device is the supported display.
pub open spec fn is_studio_display_pred() -> spec_fn(DeviceDescriptor) -> bool {
    |d: DeviceDescriptor| d.spec_is_studio_display()
}

/// The test that a device carries the serial number `serial`.
pub open spec fn has_serial_pred(serial: Seq<char>) -> spec_fn(DeviceDescriptor) -> bool {
    |d: DeviceDescriptor| d.spec_has_serial(serial)
}

/// The supported displays among `devices`, in their order.
pub open spec fn spec_find_matching_devices(devices: Seq<DeviceDescriptor>) -> Seq<
    DeviceDescriptor,
> {
    devices.filter(is_studio_display_pred())
}

/// The serial number that a filter asks for, as a sequence of characters.
pub open spec fn spec_serial_filter(serial: Option<&str>) -> Option<Seq<char>> {
    match serial {
        Some(wanted) => Some(wanted@),
        None => None,
    }
}

/// The devices among `devices` that are left by a serial number filter: all
/// of them where none is asked for, else those that carry it, in their order.
pub open spec fn spec_filter_by_serial(
    devices: Seq<DeviceDescriptor>,
    serial: Option<Seq<char>>,
) -> Seq<DeviceDescriptor> {
    match serial {
        Some(wanted) => devices.filter(has_serial_pred(wanted)),
        None => devices,
    }
}

/// Keeps the supported displays among the enumerated devices, in the order
/// of the enumeration. Where none is attached the result is empty.
pub fn find_matching_devices(devices: Vec<DeviceDescriptor>) -> (matching: Vec<DeviceDescriptor>)
    ensures
        matching@ == spec_find_matching_devices(devices@),
{
    let ghost all = devices@;
    let ghost pred = is_studio_display_pred();
    let mut matching: Vec<DeviceDescriptor> = Vec::new();
    proof {
        reveal(Seq::filter);
        assert(all.take(0).filter(pred) =~= Seq::<DeviceDescriptor>::empty());
    }
    for device in it: devices
        invariant
            it.seq() == all,
            pred == is_studio_display_pred(),
            matching@ == all.take(it.index()).filter(pred),
    {
        proof {
            let i = it.index();
            assert(all.take(i + 1) =~= all.take(i).push(all[i]));
            all.take(i).lemma_filter_push(all[i], pred);
        }
        if device.is_studio_display() {
            matching.push(device);
        }
    }
    proof {
        assert(all.take(all.len() as int) =~= all);
    }
    matching
}

/// Narrows `devices` to one serial number. With a serial number, keeps the
/// devices that carry it, in their order, and drops those that carry another
/// or none; where no device carries it the result is empty. Without one,
/// returns `devices` as they are.
pub fn filter_by_serial(devices: Vec<DeviceDescriptor>, serial: Option<&str>) -> (kept: Vec<
    DeviceDescriptor,
>)
    ensures
        kept@ == spec_filter_by_serial(devices@, spec_serial_filter(serial)),
        serial is None ==> kept@ == devices@,
{
    let wanted = match serial {
        Some(wanted) => wanted,
        None => {
            return devices;
        },
    };
    let ghost all = devices@;
    let ghost pred = has_serial_pred(wanted@);
    let mut kept: Vec<DeviceDescriptor> = Vec::new();
    proof {
        reveal(Seq::filter);
        assert(all.take(0).filter(pred) =~= Seq::<DeviceDescriptor>::empty());
    }
    for device in it: devices
        invariant
            it.seq() == all,
            pred == has_serial_pred(wanted@),
            kept@ == all.take(it.index()).filter(pred),
    {
        proof {
            let i = it.index();
            assert(all.take(i + 1) =~= all.take(i).push(all[i]));
            all.take(i).lemma_filter_push(all[i], pred);
        }
        if device.has_serial(wanted) {
            kept.push(device);
        }
    }
    proof {
        assert(all.take(all.len() as int) =~= all);
    }
    kept
}

/// The displays to control among all that were enumerated: the supported
/// ones, narrowed to one serial number where one is asked for.
pub open spec fn spec_select_devices(
    devices: Seq<DeviceDescriptor>,
    serial: Option<Seq<char>>,
) -> Seq<DeviceDescriptor> {
    spec_filter_by_serial(spec_find_matching_devices(devices), serial)
}

/// Selects the displays to control among the enumerated devices, and fails
/// with `NoDevice` where that leaves none: whether no supported display is
/// attached, or none with the serial number asked for.
pub fn select_devices(devices: Vec<DeviceDescriptor>, serial: Option<&str>) -> (selected: Result<
    Vec<DeviceDescriptor>,
    DisplayError,
>)
    ensures
        match selected {
            Ok(kept) => kept@.len() > 0 && kept@ == spec_select_devices(
                devices@,
                spec_serial_filter(serial),
            ),
            Err(error) => error == DisplayError::NoDevice && spec_select_devices(
                devices@,
                spec_serial_filter(serial),
            ).len() == 0,
        },
{
    let kept = filter_by_serial(find_matching_devices(devices), serial);
    if kept.len() == 0 {
        Err(DisplayError::NoDevice)
    } else {
        Ok(kept)
    }
}

/// A device is among the supported displays exactly if it was enumerated
/// and is one.
pub proof fn lemma_find_matching_devices_contains(
    devices: Seq<DeviceDescriptor>,
    device: DeviceDescriptor,
)
    ensures
        spec_find_matching_devices(devices).contains(device) <==> devices.contains(device)
            && device.spec_is_studio_display(),
{
    let pred = is_studio_display_pred();
    if devices.filter(pred).contains(device) {
        devices.lemma_filter_contains_rev(pred, device);
    }
    if devices.contains(device) && device.spec_is_studio_display() {
        let i = choose|i: int| 0 <= i < devices.len() && devices[i] == device;
        devices.lemma_filter_contains(pred, i);
    }
}

/// A device is left by a serial number filter exactly if it was among the
/// devices and carries the serial number.
pub proof fn lemma_filter_by_serial_contains(
    devices: Seq<DeviceDescriptor>,
    serial: Seq<char>,
    device: DeviceDescriptor,
)
    ensures
        spec_filter_by_serial(devices, Some(serial)).contains(device) <==> devices.contains(device)
            && device.spec_has_serial(serial),
{
    let pred = has_serial_pred(serial);
    if devices.filter(pred).contains(device) {
        devices.lemma_filter_contains_rev(pred, device);
    }
    if devices.contains(device) && device.spec_has_serial(serial) {
        let i = choose|i: int| 0 <= i < devices.len() && devices[i] == device;
        devices.lemma_filter_contains(pred, i);
    }
}

/// Filtering by a serial number that no device carries leaves nothing.
pub proof fn lemma_filter_by_absent_serial(devices: Seq<DeviceDescriptor>, serial: Seq<char>)
    requires
        forall|i: int| 0 <= i < devices.len() ==> !(#[trigger] devices[i]).spec_has_serial(serial),
    ensures
        spec_filter_by_serial(devices, Some(serial)) == Seq::<DeviceDescriptor>::empty(),
{
    let pred = has_serial_pred(serial);
    assert(devices.all(|d: DeviceDescriptor| !pred(d)));
    devices.lemma_all_neg_filter_empty(pred);
    assert(devices.filter(pred) =~= Seq::<DeviceDescriptor>::empty());
}

/// Where no enumerated device is the supported display, none is found.
pub proof fn lemma_find_matching_devices_none(devices: Seq<DeviceDescriptor>)
    requires
        forall|i: int| 0 <= i < devices.len() ==> !(#[trigger] devices[i]).spec_is_studio_display(),
    ensures
        spec_find_matching_devices(devices) == Seq::<DeviceDescriptor>::empty(),
{
    let pred = is_studio_display_pred();
    assert(devices.all(|d: DeviceDescriptor| !pred(d)));
    devices.lemma_all_neg_filter_empty(pred);
    assert(devices.filter(pred) =~= Seq::<DeviceDescriptor>::empty());
}

} // verus!
