//! Input pipeline of a USB keyboard controller.
//!
//! The library turns the debounced electrical state of a switch matrix into a
//! boot-protocol HID input report and decodes HID output reports (the LED
//! indicators) back into device-visible state. Hardware access — driving the
//! matrix pins, the debounce filter, the USB transport — lives outside; the
//! library receives plain matrix samples and hands back plain report bytes,
//! and every step in between is specified and verified:
//!
//! - [`key_codes`]: the closed enumeration of key identities and their
//!   classification (empty, error sentinel, modifier, normal key);
//! - [`key_mapping`]: the two-layer key mapping and the per-cycle layer
//!   resolution;
//! - [`scan`]: the debounced matrix of one scan cycle and the power-on
//!   bootloader-entry check;
//! - [`report`]: the report encoder, including the six-slot rollover policy;
//! - [`hid`]: the HID device contract (descriptor, get/set report, LED
//!   decode);
//! - [`keyboard`]: the keyboard device holding the last committed report and
//!   LED state;
//! - [`poll`]: the decisions of the fixed-rate poll loop, among them the
//!   suppression of byte-identical reports;
//! - [`laws`]: proofs of the encoder's rollover and packing guarantees.

pub mod hid;
pub mod key_codes;
pub mod key_mapping;
pub mod keyboard;
pub mod laws;
pub mod poll;
pub mod report;
pub mod scan;
