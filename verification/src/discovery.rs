//! Endpoint selection and the fixed transport configuration.
//!
//! Enumerating the attached endpoints and opening the chosen one belong to
//! the transport provider; this module holds the decision logic between
//! them: which of the enumerated endpoints is the instrument, and with
//! what fixed parameters its port is to be opened.

use vstd::prelude::*;

verus! {

/// Vendor identifier of the target instrument class.
pub const TARGET_VENDOR_ID: u16 = 8137;

/// Product identifier of the target instrument class.
pub const TARGET_PRODUCT_ID: u16 = 131;

/// Fixed line rate of the instrument link.
pub const BAUD_RATE: u32 = 115200;

/// Fixed connection-open timeout.
pub const OPEN_TIMEOUT_MS: u64 = 10000;

/// Per-exchange frame deadline.
pub const EXCHANGE_TIMEOUT_MS: u64 = 500;

/// The vendor/product pair an endpoint must carry to be selected.
#[derive(Clone, Copy, Debug, PartialEq, Eq, Structural)]
pub struct DeviceFilter {
    pub vendor_id: u16,
    pub product_id: u16,
}

/// How a candidate endpoint is attached: over USB with its vendor and
/// product identifiers, or anything else.
#[derive(Clone, Copy, Debug, PartialEq, Eq, Structural)]
pub enum EndpointKind {
    Usb { vendor_id: u16, product_id: u16 },
    Other,
}

/// One candidate transport endpoint, as enumeration reports it.
#[derive(Debug)]
pub struct Endpoint {
    pub name: String,
    pub kind: EndpointKind,
}

/// Whether an endpoint is a USB device carrying the filter's vendor and
/// product identifiers.
pub open spec fn endpoint_matches(e: Endpoint, f: DeviceFilter) -> bool {
    match e.kind {
        EndpointKind::Usb { vendor_id, product_id } => vendor_id == f.vendor_id && product_id
            == f.product_id,
        EndpointKind::Other => false,
    }
}

pub fn matches_filter(e: &Endpoint, f: &DeviceFilter) -> (r: bool)
    ensures
        r == endpoint_matches(*e, *f),
{
    match e.kind {
        EndpointKind::Usb { vendor_id, product_id } => vendor_id == f.vendor_id && product_id
            == f.product_id,
        EndpointKind::Other => false,
    }
}

/// The index of the first enumerated endpoint that matches the filter, or
/// `None` when no endpoint matches.
pub fn select_first_match(endpoints: &Vec<Endpoint>, f: &DeviceFilter) -> (r: Option<usize>)
    ensures
        match r {
            Some(i) => i < endpoints@.len() && endpoint_matches(endpoints@[i as int], *f)
                && forall|j: int| 0 <= j < i ==> !endpoint_matches(endpoints@[j], *f),
            None => forall|j: int|
                0 <= j < endpoints@.len() ==> !endpoint_matches(endpoints@[j], *f),
        },
{
    let n: usize = endpoints.len();
    let mut i: usize = 0;
    while i < n
        invariant
            n == endpoints@.len(),
            i <= n,
            forall|j: int| 0 <= j < i ==> !endpoint_matches(endpoints@[j], *f),
        decreases n - i,
    {
        if matches_filter(&endpoints[i], f) {
            return Some(i);
        }
        i = i + 1;
    }
    None
}

/// Data bits per character on the serial line.
#[derive(Clone, Copy, Debug, PartialEq, Eq, Structural)]
pub enum DataBits {
    Five,
    Six,
    Seven,
    Eight,
}

/// Parity checking mode; `Off` sends no parity bit.
#[derive(Clone, Copy, Debug, PartialEq, Eq, Structural)]
pub enum Parity {
    Off,
    Odd,
    Even,
}

/// Flow control mode; `Off` applies none.
#[derive(Clone, Copy, Debug, PartialEq, Eq, Structural)]
pub enum FlowControl {
    Off,
    Software,
    Hardware,
}

/// Stop bits per character on the serial line.
#[derive(Clone, Copy, Debug, PartialEq, Eq, Structural)]
pub enum StopBits {
    One,
    Two,
}

/// Everything the transport provider needs to open the port.
#[derive(Clone, Copy, Debug, PartialEq, Eq, Structural)]
pub struct PortConfig {
    pub baud_rate: u32,
    pub data_bits: DataBits,
    pub parity: Parity,
    pub flow_control: FlowControl,
    pub stop_bits: StopBits,
    pub open_timeout_ms: u64,
}

/// The filter that selects the target instrument class.
pub fn target_filter() -> (f: DeviceFilter)
    ensures
        f == (DeviceFilter { vendor_id: TARGET_VENDOR_ID, product_id: TARGET_PRODUCT_ID }),
{
    DeviceFilter { vendor_id: TARGET_VENDOR_ID, product_id: TARGET_PRODUCT_ID }
}

/// The fixed configuration the instrument link is always opened with:
/// 115200 baud, 8 data bits, no parity, no flow control, 1 stop bit, and
/// a 10-second open timeout.
pub fn standard_config() -> (c: PortConfig)
    ensures
        c == (PortConfig {
            baud_rate: BAUD_RATE,
            data_bits: DataBits::Eight,
            parity: Parity::Off,
            flow_control: FlowControl::Off,
            stop_bits: StopBits::One,
            open_timeout_ms: OPEN_TIMEOUT_MS,
        }),
{
    PortConfig {
        baud_rate: BAUD_RATE,
        data_bits: DataBits::Eight,
        parity: Parity::Off,
        flow_control: FlowControl::Off,
        stop_bits: StopBits::One,
        open_timeout_ms: OPEN_TIMEOUT_MS,
    }
}

} // verus!
