//! Layer mapping tables and per-cycle layer resolution.
//!
//! A layer mapping table assigns one key identity to every matrix position.
//! There are exactly two layers: the normal layer and the alternate ("FN")
//! layer. One fixed cell of the matrix is the layer-select switch: when it is
//! asserted the alternate table is used for this cycle, otherwise the normal
//! one. Selection is re-evaluated from scratch every cycle — there is no
//! latching, so releasing the layer-select key reverts every other held key
//! to its normal-layer identity on the very next cycle.

use vstd::prelude::*;

use crate::key_codes::KeyCode;
use crate::scan::KeyScan;
use crate::scan::Matrix;
use crate::scan::NUM_COLS;
use crate::scan::NUM_ROWS;

verus! {

/// A matrix-shaped table of key identities, indexed `[column][row]`.
pub type LayerMapping = [[KeyCode; NUM_ROWS]; NUM_COLS];

/// Column of the layer-select switch.
pub const LAYER_KEY_COL: usize = 0;

/// Row of the layer-select switch.
pub const LAYER_KEY_ROW: usize = 5;

/// Which of the two mapping tables a cycle uses.
#[derive(Clone, Copy, Debug, PartialEq, Eq, Structural)]
pub enum Layer {
    /// The normal mapping table.
    Normal,
    /// The alternate ("FN") mapping table.
    Alternate,
}

/// The layer of a cycle: a function of the layer-select cell of the cycle's
/// matrix and of nothing else.
pub open spec fn layer_spec(m: Matrix) -> Layer {
    if m[LAYER_KEY_COL as int][LAYER_KEY_ROW as int] {
        Layer::Alternate
    } else {
        Layer::Normal
    }
}

/// Resolves the layer for this cycle from the debounced matrix.
pub fn active_layer(scan: &KeyScan) -> (r: Layer)
    ensures
        r == layer_spec(scan.cells()),
{
    if scan.matrix()[LAYER_KEY_COL][LAYER_KEY_ROW] {
        Layer::Alternate
    } else {
        Layer::Normal
    }
}

/// Layer selection reads the layer-select cell alone: two matrices that agree
/// on that cell resolve to the same layer, whatever other keys are held. In
/// particular, a cycle in which the layer-select key was released maps every
/// still-held key through the normal table again.
pub proof fn lemma_layer_reads_select_cell_only(m1: Matrix, m2: Matrix)
    requires
        m1[LAYER_KEY_COL as int][LAYER_KEY_ROW as int] == m2[LAYER_KEY_COL as int][LAYER_KEY_ROW as int],
    ensures
        layer_spec(m1) == layer_spec(m2),
{
}

/// The built-in normal-layer table. The mapping tables are static
/// configuration: the encoder's contract is stated for any table, this is
/// merely the one compiled into the firmware. The layer-select position
/// itself maps to no key, and the bootloader-entry position carries the
/// escape key.
pub fn normal_layer_mapping() -> (t: LayerMapping)
    ensures
        t[LAYER_KEY_COL as int][LAYER_KEY_ROW as int] == KeyCode::Empty,
        t[0][0] == KeyCode::Escape,
{
    [
        [
            KeyCode::Escape,
            KeyCode::Grave,
            KeyCode::Tab,
            KeyCode::CapsLock,
            KeyCode::LeftShift,
            KeyCode::Empty,
        ],
        [
            KeyCode::F1,
            KeyCode::Kb1,
            KeyCode::Q,
            KeyCode::A,
            KeyCode::Z,
            KeyCode::LeftControl,
        ],
        [
            KeyCode::F2,
            KeyCode::Kb2,
            KeyCode::W,
            KeyCode::S,
            KeyCode::X,
            KeyCode::LeftGui,
        ],
        [
            KeyCode::F3,
            KeyCode::Kb3,
            KeyCode::E,
            KeyCode::D,
            KeyCode::C,
            KeyCode::LeftAlt,
        ],
        [
            KeyCode::F4,
            KeyCode::Kb4,
            KeyCode::R,
            KeyCode::F,
            KeyCode::V,
            KeyCode::Space,
        ],
        [
            KeyCode::F5,
            KeyCode::Kb5,
            KeyCode::T,
            KeyCode::G,
            KeyCode::B,
            KeyCode::Space,
        ],
        [
            KeyCode::F6,
            KeyCode::Kb6,
            KeyCode::Y,
            KeyCode::H,
            KeyCode::N,
            KeyCode::Space,
        ],
        [
            KeyCode::F7,
            KeyCode::Kb7,
            KeyCode::U,
            KeyCode::J,
            KeyCode::M,
            KeyCode::RightAlt,
        ],
        [
            KeyCode::F8,
            KeyCode::Kb8,
            KeyCode::I,
            KeyCode::K,
            KeyCode::Comma,
            KeyCode::Application,
        ],
        [
            KeyCode::F9,
            KeyCode::Kb9,
            KeyCode::O,
            KeyCode::L,
            KeyCode::Period,
            KeyCode::RightControl,
        ],
        [
            KeyCode::F10,
            KeyCode::Kb0,
            KeyCode::P,
            KeyCode::Semicolon,
            KeyCode::Slash,
            KeyCode::Left,
        ],
        [
            KeyCode::F11,
            KeyCode::Minus,
            KeyCode::LeftBracket,
            KeyCode::Apostrophe,
            KeyCode::RightShift,
            KeyCode::Down,
        ],
        [
            KeyCode::F12,
            KeyCode::Equal,
            KeyCode::RightBracket,
            KeyCode::Enter,
            KeyCode::Up,
            KeyCode::Right,
        ],
        [
            KeyCode::Delete,
            KeyCode::Backspace,
            KeyCode::Backslash,
            KeyCode::Empty,
            KeyCode::Empty,
            KeyCode::Empty,
        ],
    ]
}

/// The built-in alternate-layer table: the normal table with navigation
/// overlays on the arrow cluster and delete on backspace.
pub fn fn_layer_mapping() -> (t: LayerMapping)
    ensures
        t[LAYER_KEY_COL as int][LAYER_KEY_ROW as int] == KeyCode::Empty,
{
    let mut table = normal_layer_mapping();
    table[10][5] = KeyCode::Home;
    table[11][5] = KeyCode::PageDown;
    table[12][4] = KeyCode::PageUp;
    table[12][5] = KeyCode::End;
    table[13][1] = KeyCode::Delete;
    table[13][0] = KeyCode::Insert;
    table
}

} // verus!
