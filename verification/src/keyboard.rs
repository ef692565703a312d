//! The keyboard HID device.
//!
//! A [`Keyboard`] bridges the poll loop and the USB transport: it holds the
//! single most recent committed input report and the most recent decoded LED
//! state. The poll loop commits a fresh report each cycle through
//! [`Keyboard::set_keyboard_report`]; the transport fetches it with
//! [`Keyboard::get_report`] and delivers host LED updates through
//! [`Keyboard::set_report`], the only path by which host-driven state
//! re-enters the firmware.

use vstd::prelude::*;

use crate::hid::HidError;
use crate::hid::Protocol;
use crate::hid::ReportType;
use crate::hid::Subclass;
use crate::report::KbHidReport;
use crate::report::empty_report_seq;

verus! {

/// A collaborator that owns the physical LED indicators, one setter per
/// indicator. For a board without LEDs, `()` implements it with setters that
/// do nothing.
pub trait Leds {
    /// Sets the num lock indicator.
    fn num_lock(&mut self, status: bool);

    /// Sets the caps lock indicator.
    fn caps_lock(&mut self, status: bool);

    /// Sets the scroll lock indicator.
    fn scroll_lock(&mut self, status: bool);

    /// Sets the compose indicator.
    fn compose(&mut self, status: bool);

    /// Sets the kana indicator.
    fn kana(&mut self, status: bool);
}

impl Leds for () {
    fn num_lock(&mut self, _status: bool) {
    }

    fn caps_lock(&mut self, _status: bool) {
    }

    fn scroll_lock(&mut self, _status: bool) {
    }

    fn compose(&mut self, _status: bool) {
    }

    fn kana(&mut self, _status: bool) {
    }
}

/// The five LED indicators of a boot keyboard.
#[derive(Clone, Copy, Debug, PartialEq, Eq, Structural)]
pub struct LedState {
    /// Num lock, bit 0 of the output report.
    pub num_lock: bool,
    /// Caps lock, bit 1.
    pub caps_lock: bool,
    /// Scroll lock, bit 2.
    pub scroll_lock: bool,
    /// Compose, bit 3.
    pub compose: bool,
    /// Kana, bit 4.
    pub kana: bool,
}

/// All indicators off: the state before any output report arrived.
pub open spec fn leds_all_off() -> LedState {
    LedState {
        num_lock: false,
        caps_lock: false,
        scroll_lock: false,
        compose: false,
        kana: false,
    }
}

/// The LED state carried by one output-report byte: bits 0–4 are num lock,
/// caps lock, scroll lock, compose and kana in that order; bits 5–7 are
/// ignored.
pub open spec fn led_state_of_byte(b: u8) -> LedState {
    LedState {
        num_lock: b & 0x01 != 0,
        caps_lock: b & 0x02 != 0,
        scroll_lock: b & 0x04 != 0,
        compose: b & 0x08 != 0,
        kana: b & 0x10 != 0,
    }
}

/// Decodes one output-report byte into the five indicators.
pub fn decode_led_byte(b: u8) -> (r: LedState)
    ensures
        r == led_state_of_byte(b),
{
    LedState {
        num_lock: b & 0x01 != 0,
        caps_lock: b & 0x02 != 0,
        scroll_lock: b & 0x04 != 0,
        compose: b & 0x08 != 0,
        kana: b & 0x10 != 0,
    }
}

/// A keyboard HID device: the most recent committed input report, the most
/// recent decoded LED state, and the LED collaborator the latter is forwarded
/// to.
pub struct Keyboard<L> {
    report: KbHidReport,
    led_state: LedState,
    leds: L,
}

impl<L: Leds> Keyboard<L> {
    /// The bytes of the most recent committed input report.
    pub closed spec fn report_view(self) -> Seq<u8> {
        self.report@
    }

    /// The most recent decoded LED state.
    pub closed spec fn led_view(self) -> LedState {
        self.led_state
    }

    /// The LED collaborator.
    pub closed spec fn leds_view(self) -> L {
        self.leds
    }

    /// Creates a new `Keyboard` around the given LED collaborator, holding
    /// the empty report and all indicators off.
    pub fn new(leds: L) -> (r: Keyboard<L>)
        ensures
            r.report_view() == empty_report_seq(),
            r.led_view() == leds_all_off(),
            r.leds_view() == leds,
    {
        Keyboard {
            report: KbHidReport::empty(),
            led_state: LedState {
                num_lock: false,
                caps_lock: false,
                scroll_lock: false,
                compose: false,
                kana: false,
            },
            leds,
        }
    }

    /// Commits the report of this cycle. Returns `true` exactly when the new
    /// report differs byte-wise from the one held — the caller pushes to the
    /// transport only then, which bounds bus traffic to state transitions.
    pub fn set_keyboard_report(&mut self, report: KbHidReport) -> (changed: bool)
        ensures
            changed == (old(self).report_view() != report@),
            final(self).report_view() == report@,
            final(self).led_view() == old(self).led_view(),
            final(self).leds_view() == old(self).leds_view(),
    {
        if report == self.report {
            false
        } else {
            self.report = report;
            true
        }
    }

    /// The most recent decoded LED state, as last set by an accepted output
    /// report; all indicators are off until one arrives.
    pub fn led_state(&self) -> (r: LedState)
        ensures
            r == self.led_view(),
    {
        self.led_state
    }

    /// The underlying LED collaborator, for the caller to drive directly.
    pub fn leds_mut(&mut self) -> (r: &mut L)
        ensures
            *r == old(self).leds_view(),
            final(self).leds_view() == *final(r),
            final(self).report_view() == old(self).report_view(),
            final(self).led_view() == old(self).led_view(),
    {
        &mut self.leds
    }

    /// The device enumerates as a boot-interface keyboard.
    pub fn subclass(&self) -> (r: Subclass)
        ensures
            r == Subclass::BootInterface,
    {
        Subclass::BootInterface
    }

    /// The device speaks the boot keyboard protocol.
    pub fn protocol(&self) -> (r: Protocol)
        ensures
            r == Protocol::Keyboard,
    {
        Protocol::Keyboard
    }

    /// The fixed maximum packet size: one 8-byte report.
    pub fn max_packet_size(&self) -> (r: u16)
        ensures
            r == 8,
    {
        8
    }

    /// Answers a get-report request: the Input type yields the bytes of the
    /// most recent committed report; any other type is rejected as
    /// unsupported.
    pub fn get_report(&self, report_type: ReportType, _report_id: u8) -> (r: Result<
        [u8; 8],
        HidError,
    >)
        ensures
            report_type is Input <==> r is Ok,
            r is Ok ==> r->Ok_0@ == self.report_view(),
            r is Err ==> r == Err::<[u8; 8], HidError>(HidError::UnsupportedReport),
    {
        match report_type {
            ReportType::Input => Ok(self.report.bytes()),
            _ => Err(HidError::UnsupportedReport),
        }
    }

    /// Accepts a set-report request: only the Output type, report id 0 and a
    /// payload of exactly one byte is supported. On success the byte's bits
    /// 0–4 become the new LED state and are forwarded, one setter each, to
    /// the LED collaborator; every other combination is rejected as
    /// unsupported and changes nothing.
    pub fn set_report(&mut self, report_type: ReportType, report_id: u8, data: &[u8]) -> (r: Result<
        (),
        HidError,
    >)
        ensures
            r is Ok <==> (report_type is Output && report_id == 0 && data@.len() == 1),
            r is Ok ==> final(self).led_view() == led_state_of_byte(data@[0]),
            r is Err ==> r == Err::<(), HidError>(HidError::UnsupportedReport),
            r is Err ==> final(self).led_view() == old(self).led_view() && final(self).leds_view()
                == old(self).leds_view(),
            final(self).report_view() == old(self).report_view(),
    {
        if matches!(report_type, ReportType::Output) && report_id == 0 && data.len() == 1 {
            let state = decode_led_byte(data[0]);
            self.led_state = state;
            self.leds.num_lock(state.num_lock);
            self.leds.caps_lock(state.caps_lock);
            self.leds.scroll_lock(state.scroll_lock);
            self.leds.compose(state.compose);
            self.leds.kana(state.kana);
            Ok(())
        } else {
            Err(HidError::UnsupportedReport)
        }
    }
}


/// The wire-exact bytes of the boot-keyboard report descriptor: an 8-bit
/// modifier bitfield, one constant reserved byte, six array-type 8-bit key
/// usages, five LED output bits and three constant padding bits. Host drivers
/// parse these bytes to learn the report layout, so they are
/// compatibility-critical.
pub open spec fn report_descriptor_spec() -> Seq<u8> {
    seq![
        0x05u8, 0x01u8, 0x09u8, 0x06u8, 0xA1u8, 0x01u8, 0x05u8, 0x07u8, 0x19u8, 0xE0u8,
        0x29u8, 0xE7u8, 0x15u8, 0x00u8, 0x25u8, 0x01u8, 0x95u8, 0x08u8, 0x75u8, 0x01u8,
        0x81u8, 0x02u8, 0x95u8, 0x01u8, 0x75u8, 0x08u8, 0x81u8, 0x03u8, 0x05u8, 0x07u8,
        0x19u8, 0x00u8, 0x29u8, 0xFFu8, 0x15u8, 0x00u8, 0x26u8, 0xFFu8, 0x00u8, 0x95u8,
        0x06u8, 0x75u8, 0x08u8, 0x81u8, 0x00u8, 0x05u8, 0x08u8, 0x19u8, 0x01u8, 0x29u8,
        0x05u8, 0x95u8, 0x05u8, 0x75u8, 0x01u8, 0x91u8, 0x02u8, 0x95u8, 0x01u8, 0x75u8,
        0x03u8, 0x91u8, 0x03u8, 0xC0u8,
    ]
}

/// A copy of the fixed report descriptor the device exposes.
pub fn report_descriptor() -> (r: [u8; 64])
    ensures
        r@ == report_descriptor_spec(),
{
    let descriptor: [u8; 64] = [
        0x05u8, 0x01u8, 0x09u8, 0x06u8, 0xA1u8, 0x01u8, 0x05u8, 0x07u8, 0x19u8, 0xE0u8,
        0x29u8, 0xE7u8, 0x15u8, 0x00u8, 0x25u8, 0x01u8, 0x95u8, 0x08u8, 0x75u8, 0x01u8,
        0x81u8, 0x02u8, 0x95u8, 0x01u8, 0x75u8, 0x08u8, 0x81u8, 0x03u8, 0x05u8, 0x07u8,
        0x19u8, 0x00u8, 0x29u8, 0xFFu8, 0x15u8, 0x00u8, 0x26u8, 0xFFu8, 0x00u8, 0x95u8,
        0x06u8, 0x75u8, 0x08u8, 0x81u8, 0x00u8, 0x05u8, 0x08u8, 0x19u8, 0x01u8, 0x29u8,
        0x05u8, 0x95u8, 0x05u8, 0x75u8, 0x01u8, 0x91u8, 0x02u8, 0x95u8, 0x01u8, 0x75u8,
        0x03u8, 0x91u8, 0x03u8, 0xC0u8,
    ];
    proof {
        assert(descriptor@ =~= report_descriptor_spec());
    }
    descriptor
}


} // verus!
