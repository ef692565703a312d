//! Scenario tests for the report encoder: packing, rollover, purity, layers.

use key_ripper::key_codes::KeyCode;
use key_ripper::key_mapping::{
    fn_layer_mapping, normal_layer_mapping, Layer, LayerMapping, LAYER_KEY_COL, LAYER_KEY_ROW,
};
use key_ripper::report::{encode_report, report_from_matrix, KbHidReport};
use key_ripper::scan::{KeyScan, Matrix, NUM_COLS, NUM_ROWS};

fn empty_matrix() -> Matrix {
    [[false; NUM_ROWS]; NUM_COLS]
}

fn empty_table() -> LayerMapping {
    [[KeyCode::Empty; NUM_ROWS]; NUM_COLS]
}

#[test]
fn empty_matrix_encodes_to_all_zero() {
    let report = encode_report(&empty_matrix(), &normal_layer_mapping());
    assert_eq!(report.bytes(), [0u8; 8]);
}

#[test]
fn single_key_lands_in_first_slot() {
    let mut table = empty_table();
    table[1][2] = KeyCode::A;
    let mut matrix = empty_matrix();
    matrix[1][2] = true;
    let report = encode_report(&matrix, &table);
    assert_eq!(report.bytes(), [0, 0, 0x04, 0, 0, 0, 0, 0]);
}

#[test]
fn keys_pack_left_in_column_major_scan_order() {
    let mut table = empty_table();
    // Column-major walk visits (0,1) before (2,0) before (5,5).
    table[0][1] = KeyCode::B;
    table[2][0] = KeyCode::C;
    table[5][5] = KeyCode::D;
    let mut matrix = empty_matrix();
    matrix[5][5] = true;
    matrix[2][0] = true;
    matrix[0][1] = true;
    let report = encode_report(&matrix, &table);
    assert_eq!(report.bytes(), [0, 0, 0x05, 0x06, 0x07, 0, 0, 0]);
}

#[test]
fn modifiers_or_into_modifier_byte_and_take_no_slot() {
    let mut table = empty_table();
    table[0][0] = KeyCode::LeftShift;
    table[1][0] = KeyCode::RightAlt;
    table[2][0] = KeyCode::A;
    let mut matrix = empty_matrix();
    matrix[0][0] = true;
    matrix[1][0] = true;
    matrix[2][0] = true;
    let report = encode_report(&matrix, &table);
    assert_eq!(report.bytes(), [0x02 | 0x40, 0, 0x04, 0, 0, 0, 0, 0]);
}

#[test]
fn six_keys_fill_all_slots() {
    let mut table = empty_table();
    let keys = [KeyCode::A, KeyCode::B, KeyCode::C, KeyCode::D, KeyCode::E, KeyCode::F];
    for (i, kc) in keys.iter().enumerate() {
        table[i][0] = *kc;
    }
    let mut matrix = empty_matrix();
    for i in 0..6 {
        matrix[i][0] = true;
    }
    let report = encode_report(&matrix, &table);
    assert_eq!(report.bytes(), [0, 0, 0x04, 0x05, 0x06, 0x07, 0x08, 0x09]);
}

#[test]
fn seven_keys_degrade_to_rollover() {
    let mut table = empty_table();
    let keys = [
        KeyCode::A,
        KeyCode::B,
        KeyCode::C,
        KeyCode::D,
        KeyCode::E,
        KeyCode::F,
        KeyCode::G,
    ];
    for (i, kc) in keys.iter().enumerate() {
        table[i][0] = *kc;
    }
    // A modifier is retained even while the slots report rollover.
    table[7][0] = KeyCode::LeftControl;
    let mut matrix = empty_matrix();
    for i in 0..8 {
        matrix[i][0] = true;
    }
    let report = encode_report(&matrix, &table);
    assert_eq!(report.bytes(), [0x01, 0, 0x01, 0x01, 0x01, 0x01, 0x01, 0x01]);
}

#[test]
fn encoding_is_pure() {
    let mut matrix = empty_matrix();
    matrix[3][3] = true;
    matrix[0][4] = true;
    let table = normal_layer_mapping();
    let first = encode_report(&matrix, &table);
    let second = encode_report(&matrix, &table);
    assert_eq!(first.bytes(), second.bytes());
    assert_eq!(first, second);
}

#[test]
fn sentinel_press_overwrites_slots_and_keeps_modifiers() {
    let mut report = KbHidReport::empty();
    report.pressed(KeyCode::LeftShift);
    report.pressed(KeyCode::A);
    report.pressed(KeyCode::PostFail);
    assert_eq!(report.bytes(), [0x02, 0, 0x02, 0x02, 0x02, 0x02, 0x02, 0x02]);
}

#[test]
fn seventh_press_on_full_report_sets_rollover() {
    let mut report = KbHidReport::empty();
    for kc in [KeyCode::A, KeyCode::B, KeyCode::C, KeyCode::D, KeyCode::E, KeyCode::F] {
        report.pressed(kc);
    }
    report.pressed(KeyCode::G);
    assert_eq!(report.bytes(), [0, 0, 0x01, 0x01, 0x01, 0x01, 0x01, 0x01]);
}

#[test]
fn default_report_is_empty() {
    assert_eq!(KbHidReport::default(), KbHidReport::empty());
    assert_eq!(KbHidReport::default().bytes(), [0u8; 8]);
}

#[test]
fn empty_identity_has_no_effect() {
    let mut report = KbHidReport::empty();
    report.pressed(KeyCode::A);
    report.pressed(KeyCode::Empty);
    assert_eq!(report.bytes(), [0, 0, 0x04, 0, 0, 0, 0, 0]);
}

#[test]
fn layer_select_picks_alternate_table_for_one_cycle() {
    let mut matrix = empty_matrix();
    // Arrow-cluster cell (10, 5): Left normally, Home on the alternate layer.
    matrix[10][5] = true;
    let normal = normal_layer_mapping();
    let alternate = fn_layer_mapping();

    let plain = report_from_matrix(&matrix, &normal, &alternate);
    assert_eq!(plain.bytes()[2], KeyCode::Left.code());

    matrix[LAYER_KEY_COL][LAYER_KEY_ROW] = true;
    let layered = report_from_matrix(&matrix, &normal, &alternate);
    assert_eq!(layered.bytes()[2], KeyCode::Home.code());

    // Releasing the layer-select key reverts the very next cycle, with the
    // other key still held.
    matrix[LAYER_KEY_COL][LAYER_KEY_ROW] = false;
    let reverted = report_from_matrix(&matrix, &normal, &alternate);
    assert_eq!(reverted.bytes()[2], KeyCode::Left.code());
}

#[test]
fn active_layer_follows_select_cell() {
    let mut matrix = empty_matrix();
    let scan = KeyScan::from_debounced(matrix);
    assert_eq!(key_ripper::key_mapping::active_layer(&scan), Layer::Normal);
    matrix[LAYER_KEY_COL][LAYER_KEY_ROW] = true;
    let scan = KeyScan::from_debounced(matrix);
    assert_eq!(key_ripper::key_mapping::active_layer(&scan), Layer::Alternate);
}

#[test]
fn layer_select_cell_maps_to_no_key() {
    let normal = normal_layer_mapping();
    let alternate = fn_layer_mapping();
    assert_eq!(normal[LAYER_KEY_COL][LAYER_KEY_ROW], KeyCode::Empty);
    assert_eq!(alternate[LAYER_KEY_COL][LAYER_KEY_ROW], KeyCode::Empty);
}

#[test]
fn key_codes_carry_hid_usage_values() {
    assert_eq!(KeyCode::Empty.code(), 0x00);
    assert_eq!(KeyCode::ErrorRollOver.code(), 0x01);
    assert_eq!(KeyCode::A.code(), 0x04);
    assert_eq!(KeyCode::Kb1.code(), 0x1E);
    assert_eq!(KeyCode::F12.code(), 0x45);
    assert_eq!(KeyCode::LeftControl.code(), 0xE0);
    assert_eq!(KeyCode::RightGui.code(), 0xE7);
}

#[test]
fn modifier_bitmasks_are_disjoint_single_bits() {
    assert_eq!(KeyCode::LeftControl.modifier_bitmask(), Some(0x01));
    assert_eq!(KeyCode::LeftShift.modifier_bitmask(), Some(0x02));
    assert_eq!(KeyCode::LeftAlt.modifier_bitmask(), Some(0x04));
    assert_eq!(KeyCode::LeftGui.modifier_bitmask(), Some(0x08));
    assert_eq!(KeyCode::RightControl.modifier_bitmask(), Some(0x10));
    assert_eq!(KeyCode::RightShift.modifier_bitmask(), Some(0x20));
    assert_eq!(KeyCode::RightAlt.modifier_bitmask(), Some(0x40));
    assert_eq!(KeyCode::RightGui.modifier_bitmask(), Some(0x80));
    assert_eq!(KeyCode::A.modifier_bitmask(), None);
    assert!(KeyCode::RightGui.is_modifier());
    assert!(!KeyCode::Escape.is_modifier());
}
