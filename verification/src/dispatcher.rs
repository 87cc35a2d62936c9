//! The transfer dispatcher's verified half: every packet goes to the
//! device in one control transfer with a fixed, bit-exact envelope —
//! request type host-to-device/class/interface, request SET_REPORT, value
//! selecting feature report 0, index selecting interface 1, and a one
//! second timeout.
//!
//! The transfer itself is transport work done by an unverified shell; this
//! module fixes what the shell must send. The dispatcher never retries: a
//! failed transfer is terminal for that call, and timeouts are not told
//! apart from other transport failures.

use vstd::prelude::*;

verus! {

/// bmRequestType: host-to-device, class request, interface recipient.
pub const REQUEST_TYPE: u8 = 0x21;

/// bRequest: SET_REPORT.
pub const REQUEST: u8 = 9;

/// wValue: report type Feature, report identifier 0.
pub const VALUE: u16 = 0x0300;

/// wIndex: interface 1.
pub const INTERFACE_INDEX: u16 = 1;

/// The bounded per-transfer timeout, in milliseconds.
pub const TIMEOUT_MS: u32 = 1000;

/// One fully-specified control transfer: the fixed envelope and the
/// encoded packet it carries.
pub struct ControlRequest {
    pub request_type: u8,
    pub request: u8,
    pub value: u16,
    pub index: u16,
    pub timeout_ms: u32,
    pub data: Vec<u8>,
}

/// Whether a request carries the device's fixed envelope.
pub open spec fn envelope_fixed(r: ControlRequest) -> bool {
    &&& r.request_type == REQUEST_TYPE
    &&& r.request == REQUEST
    &&& r.value == VALUE
    &&& r.index == INTERFACE_INDEX
    &&& r.timeout_ms == TIMEOUT_MS
}

/// Wraps one encoded packet in the fixed control-transfer envelope. The
/// shell performs exactly this request; on success it reports the number
/// of bytes transferred (informational only), on failure it surfaces the
/// transport's description and does not retry.
pub fn transfer_message(msg: Vec<u8>) -> (r: ControlRequest)
    ensures
        envelope_fixed(r),
        r.data@ == msg@,
{
    ControlRequest {
        request_type: REQUEST_TYPE,
        request: REQUEST,
        value: VALUE,
        index: INTERFACE_INDEX,
        timeout_ms: TIMEOUT_MS,
        data: msg,
    }
}

} // verus!
