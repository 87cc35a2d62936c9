//! The device locator: the rule that selects the keyboard among the USB
//! devices the host enumerates.
//!
//! Enumeration and descriptor reads are transport work done by an
//! unverified shell; it hands this module one entry per enumerated device,
//! in enumeration order: the vendor/product pair it read, or `None` where
//! the descriptor read failed. The first device whose pair equals the fixed
//! keyboard identifiers wins. A failed descriptor read encountered before a
//! match aborts the scan: the failure is surfaced, never skipped.

use vstd::prelude::*;

verus! {

/// The fixed USB vendor identifier of the keyboard.
pub const VENDOR_ID: u16 = 0x048d;

/// The fixed USB product identifier of the keyboard.
pub const PRODUCT_ID: u16 = 0xce00;

/// The two descriptor fields the selection rule reads from an enumerated
/// USB device.
#[derive(Clone, Copy, PartialEq, Eq, Structural, Debug)]
pub struct DeviceDescriptor {
    pub vendor_id: u16,
    pub product_id: u16,
}

/// The failures this driver can surface. None is recovered from
/// internally: a calling layer decides whether to abort or go on.
#[derive(Clone, Copy, PartialEq, Eq, Structural, Debug)]
pub enum LightError {
    /// No enumerated device carries the keyboard's vendor/product pair.
    DeviceNotFound,
    /// Reading a candidate device's descriptor failed during enumeration.
    DescriptorReadFailure,
    /// A control transfer failed (timeout, stall, disconnect, permission).
    TransferFailure,
}

/// Whether a descriptor carries the keyboard's vendor/product pair.
pub open spec fn is_keyboard(d: DeviceDescriptor) -> bool {
    d.vendor_id == VENDOR_ID && d.product_id == PRODUCT_ID
}

/// An enumeration entry whose descriptor was read and matches the
/// keyboard.
pub open spec fn entry_matches(e: Option<DeviceDescriptor>) -> bool {
    e matches Some(d) && is_keyboard(d)
}

/// An enumeration entry whose descriptor was read and is some other
/// device.
pub open spec fn entry_passed_over(e: Option<DeviceDescriptor>) -> bool {
    e matches Some(d) && !is_keyboard(d)
}

/// Scans the enumerated devices in order and returns the index of the
/// first keyboard. Each entry is the descriptor the shell read for one
/// device, or `None` where that read failed.
///
/// The scan stops at the first decisive entry: a match yields its index; a
/// failed descriptor read yields `DescriptorReadFailure` (the scan aborts
/// rather than skipping the device); a scan that exhausts the enumeration
/// without either yields `DeviceNotFound`.
pub fn get_keyboard(descriptors: &Vec<Option<DeviceDescriptor>>) -> (r: Result<
    usize,
    LightError,
>)
    ensures
        match r {
            Ok(i) => i < descriptors@.len() && entry_matches(descriptors@[i as int]) && (forall|
                j: int,
            | 0 <= j < i ==> entry_passed_over(descriptors@[j])),
            Err(e) => match e {
                LightError::DeviceNotFound => forall|j: int|
                    0 <= j < descriptors@.len() ==> entry_passed_over(descriptors@[j]),
                LightError::DescriptorReadFailure => exists|i: int|
                    0 <= i < descriptors@.len() && descriptors@[i] is None && (forall|j: int|
                        0 <= j < i ==> entry_passed_over(descriptors@[j])),
                LightError::TransferFailure => false,
            },
        },
{
    let mut i: usize = 0;
    while i < descriptors.len()
        invariant
            i <= descriptors@.len(),
            forall|j: int| 0 <= j < i ==> entry_passed_over(descriptors@[j]),
        decreases descriptors@.len() - i,
    {
        match descriptors[i] {
            Option::Some(d) => {
                if d.vendor_id == VENDOR_ID && d.product_id == PRODUCT_ID {
                    return Ok(i);
                }
            },
            Option::None => {
                return Err(LightError::DescriptorReadFailure);
            },
        }
        i = i + 1;
    }
    Err(LightError::DeviceNotFound)
}

} // verus!
