//! Types of the HID device contract.
//!
//! The external USB transport frames reports over the wire; the library only
//! decides, per request, which report to hand out or accept. These types name
//! the pieces of that contract: the report type of a get/set request, the
//! boot-interface subclass and keyboard protocol the device enumerates with,
//! and the single protocol-level error.

use vstd::prelude::*;

verus! {

/// Which report a get/set request addresses.
#[derive(Clone, Copy, Debug, PartialEq, Eq, Structural)]
pub enum ReportType {
    /// Device-to-host: the encoded keyboard report.
    Input,
    /// Host-to-device: the LED indicator byte.
    Output,
    /// Neither direction's periodic report; unsupported here.
    Feature,
}

/// USB interface subclass the device enumerates with.
#[derive(Clone, Copy, Debug, PartialEq, Eq, Structural)]
pub enum Subclass {
    /// No subclass.
    NoSubclass,
    /// Boot interface: readable by BIOS/bootloader hosts without a HID
    /// parser.
    BootInterface,
}

/// HID interface protocol the device enumerates with.
#[derive(Clone, Copy, Debug, PartialEq, Eq, Structural)]
pub enum Protocol {
    /// No protocol.
    NoProtocol,
    /// Boot keyboard.
    Keyboard,
    /// Boot mouse.
    Mouse,
}

/// The protocol-level rejection of a get/set report request. It is surfaced
/// to the external transport and is never fatal to the firmware.
#[derive(Clone, Copy, Debug, PartialEq, Eq, Structural)]
pub enum HidError {
    /// The request's report type, id or length lies outside the single
    /// supported input/output report.
    UnsupportedReport,
}

} // verus!
