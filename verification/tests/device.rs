//! Scenario tests for the HID device contract, the poll-cycle decisions and
//! the power-on bootloader check.

use key_ripper::hid::{HidError, Protocol, ReportType, Subclass};
use key_ripper::key_mapping::{fn_layer_mapping, normal_layer_mapping};
use key_ripper::keyboard::{Keyboard, Leds};
use key_ripper::poll::{
    is_transient, on_scan_cycle, TransportError, FIRST_SCAN_PERIOD_MS, SCAN_PERIOD_MS,
};
use key_ripper::report::{report_from_matrix, KbHidReport};
use key_ripper::scan::{should_enter_bootloader, KeyScan, Matrix, NUM_COLS, NUM_ROWS};

fn empty_matrix() -> Matrix {
    [[false; NUM_ROWS]; NUM_COLS]
}

/// An LED collaborator that records what was forwarded to it.
struct RecordingLeds {
    num: bool,
    caps: bool,
    scroll: bool,
    comp: bool,
    kana: bool,
}

impl Leds for RecordingLeds {
    fn num_lock(&mut self, status: bool) {
        self.num = status;
    }

    fn caps_lock(&mut self, status: bool) {
        self.caps = status;
    }

    fn scroll_lock(&mut self, status: bool) {
        self.scroll = status;
    }

    fn compose(&mut self, status: bool) {
        self.comp = status;
    }

    fn kana(&mut self, status: bool) {
        self.kana = status;
    }
}

fn recording_leds() -> RecordingLeds {
    RecordingLeds { num: false, caps: false, scroll: false, comp: false, kana: false }
}

#[test]
fn set_report_decodes_num_lock_bit() {
    let mut kbd = Keyboard::new(recording_leds());
    let r = kbd.set_report(ReportType::Output, 0, &[0b0000_0001]);
    assert_eq!(r, Ok(()));
    let state = kbd.led_state();
    assert!(state.num_lock);
    assert!(!state.caps_lock);
    assert!(!state.scroll_lock);
    assert!(!state.compose);
    assert!(!state.kana);
    let leds = kbd.leds_mut();
    assert!(leds.num && !leds.caps && !leds.scroll && !leds.comp && !leds.kana);
}

#[test]
fn set_report_decodes_kana_bit() {
    let mut kbd = Keyboard::new(recording_leds());
    let r = kbd.set_report(ReportType::Output, 0, &[0b0001_0000]);
    assert_eq!(r, Ok(()));
    let state = kbd.led_state();
    assert!(state.kana);
    assert!(!state.num_lock && !state.caps_lock && !state.scroll_lock && !state.compose);
    let leds = kbd.leds_mut();
    assert!(leds.kana && !leds.num && !leds.caps && !leds.scroll && !leds.comp);
}

#[test]
fn set_report_rejects_everything_else() {
    let mut kbd = Keyboard::new(());
    assert_eq!(
        kbd.set_report(ReportType::Input, 0, &[1]),
        Err(HidError::UnsupportedReport)
    );
    assert_eq!(
        kbd.set_report(ReportType::Feature, 0, &[1]),
        Err(HidError::UnsupportedReport)
    );
    assert_eq!(
        kbd.set_report(ReportType::Output, 1, &[1]),
        Err(HidError::UnsupportedReport)
    );
    assert_eq!(
        kbd.set_report(ReportType::Output, 0, &[]),
        Err(HidError::UnsupportedReport)
    );
    assert_eq!(
        kbd.set_report(ReportType::Output, 0, &[1, 2]),
        Err(HidError::UnsupportedReport)
    );
    // A rejected request leaves the LED state alone.
    assert!(!kbd.led_state().num_lock);
}

#[test]
fn get_report_returns_last_committed_report() {
    let mut kbd = Keyboard::new(());
    let mut matrix = empty_matrix();
    matrix[2][2] = true;
    let report = report_from_matrix(&matrix, &normal_layer_mapping(), &fn_layer_mapping());
    kbd.set_keyboard_report(report);
    assert_eq!(kbd.get_report(ReportType::Input, 0), Ok(report.bytes()));
    assert_eq!(
        kbd.get_report(ReportType::Output, 0),
        Err(HidError::UnsupportedReport)
    );
    assert_eq!(
        kbd.get_report(ReportType::Feature, 0),
        Err(HidError::UnsupportedReport)
    );
}

#[test]
fn set_keyboard_report_reports_change() {
    let mut kbd = Keyboard::new(());
    let empty = KbHidReport::empty();
    assert!(!kbd.set_keyboard_report(empty));
    let mut report = KbHidReport::empty();
    report.pressed(key_ripper::key_codes::KeyCode::A);
    assert!(kbd.set_keyboard_report(report));
    assert!(!kbd.set_keyboard_report(report));
}

#[test]
fn identical_cycles_push_only_once() {
    let mut kbd = Keyboard::new(());
    let normal = normal_layer_mapping();
    let alternate = fn_layer_mapping();
    let mut matrix = empty_matrix();
    matrix[1][2] = true;
    let scan = KeyScan::from_debounced(matrix);

    let first = on_scan_cycle(&mut kbd, &scan, &normal, &alternate);
    assert!(first.is_some());
    let second = on_scan_cycle(&mut kbd, &scan, &normal, &alternate);
    assert!(second.is_none());

    matrix[1][3] = true;
    let scan = KeyScan::from_debounced(matrix);
    let third = on_scan_cycle(&mut kbd, &scan, &normal, &alternate);
    assert!(third.is_some());
}

#[test]
fn released_keys_push_the_empty_report_once() {
    let mut kbd = Keyboard::new(());
    let normal = normal_layer_mapping();
    let alternate = fn_layer_mapping();
    let mut matrix = empty_matrix();
    matrix[1][2] = true;
    let held = KeyScan::from_debounced(matrix);
    assert!(on_scan_cycle(&mut kbd, &held, &normal, &alternate).is_some());

    let released = KeyScan::from_debounced(empty_matrix());
    let push = on_scan_cycle(&mut kbd, &released, &normal, &alternate);
    assert_eq!(push.map(|r| r.bytes()), Some([0u8; 8]));
    assert!(on_scan_cycle(&mut kbd, &released, &normal, &alternate).is_none());
}

#[test]
fn bootloader_entry_on_escape_at_power_on() {
    let mut matrix = empty_matrix();
    matrix[0][0] = true;
    let scan = KeyScan::from_debounced(matrix);
    assert!(should_enter_bootloader(&scan));

    let idle = KeyScan::from_debounced(empty_matrix());
    assert!(!should_enter_bootloader(&idle));

    // Another held key does not trigger it.
    let mut other = empty_matrix();
    other[3][4] = true;
    let scan = KeyScan::from_debounced(other);
    assert!(!should_enter_bootloader(&scan));
}

#[test]
fn would_block_is_the_only_transient_failure() {
    assert!(is_transient(TransportError::WouldBlock));
    assert!(!is_transient(TransportError::ParseError));
    assert!(!is_transient(TransportError::BufferOverflow));
    assert!(!is_transient(TransportError::EndpointOverflow));
    assert!(!is_transient(TransportError::EndpointMemoryOverflow));
    assert!(!is_transient(TransportError::InvalidEndpoint));
    assert!(!is_transient(TransportError::Unsupported));
    assert!(!is_transient(TransportError::InvalidState));
}

#[test]
fn poll_periods_match_the_contract() {
    assert_eq!(SCAN_PERIOD_MS, 8);
    assert_eq!(FIRST_SCAN_PERIOD_MS, 500);
}

#[test]
fn device_enumerates_as_boot_keyboard() {
    let kbd = Keyboard::new(());
    assert_eq!(kbd.subclass(), Subclass::BootInterface);
    assert_eq!(kbd.protocol(), Protocol::Keyboard);
    assert_eq!(kbd.max_packet_size(), 8);
}

#[test]
fn report_descriptor_is_wire_exact() {
    let expected: [u8; 64] = [
        0x05, 0x01, 0x09, 0x06, 0xA1, 0x01, 0x05, 0x07, 0x19, 0xE0, 0x29, 0xE7, 0x15, 0x00,
        0x25, 0x01, 0x95, 0x08, 0x75, 0x01, 0x81, 0x02, 0x95, 0x01, 0x75, 0x08, 0x81, 0x03,
        0x05, 0x07, 0x19, 0x00, 0x29, 0xFF, 0x15, 0x00, 0x26, 0xFF, 0x00, 0x95, 0x06, 0x75,
        0x08, 0x81, 0x00, 0x05, 0x08, 0x19, 0x01, 0x29, 0x05, 0x95, 0x05, 0x75, 0x01, 0x91,
        0x02, 0x95, 0x01, 0x75, 0x03, 0x91, 0x03, 0xC0,
    ];
    assert_eq!(key_ripper::keyboard::report_descriptor(), expected);
}
