//! The debounced matrix of one scan cycle.
//!
//! The matrix is a fixed-size boolean grid, one cell per (column, row)
//! intersection, column-major. A cell is `true` when the switch there is
//! considered closed after debouncing. Driving the column lines, sampling the
//! row pins and the debounce filter itself are hardware concerns and live
//! outside the library; a [`KeyScan`] is built from the debounced grid they
//! hand back, once per cycle, and is the only matrix representation report
//! logic may act on.

use vstd::prelude::*;

verus! {

/// Number of matrix columns: fixed configuration, shared by the scan logic
/// and every layer mapping table.
pub const NUM_COLS: usize = 14;

/// Number of matrix rows: fixed configuration, shared by the scan logic and
/// every layer mapping table.
pub const NUM_ROWS: usize = 6;

/// One debounced sample of the whole switch grid, indexed `[column][row]`.
pub type Matrix = [[bool; NUM_ROWS]; NUM_COLS];

/// Column of the bootloader-entry key (the escape key position).
pub const BOOT_KEY_COL: usize = 0;

/// Row of the bootloader-entry key.
pub const BOOT_KEY_ROW: usize = 0;

/// The stabilized matrix of one scan cycle.
#[derive(Clone, Copy)]
pub struct KeyScan {
    matrix: Matrix,
}

impl KeyScan {
    /// The debounced grid this scan holds.
    pub closed spec fn cells(self) -> Matrix {
        self.matrix
    }

    /// Wraps the debounced grid of one cycle. The caller is the scan driver:
    /// it must hand in the debounce filter's output, never a raw sample.
    pub fn from_debounced(matrix: Matrix) -> (s: KeyScan)
        ensures
            s.cells() == matrix,
    {
        KeyScan { matrix }
    }

    /// The grid, for walking it cell by cell.
    pub fn matrix(&self) -> (m: &Matrix)
        ensures
            *m == self.cells(),
    {
        &self.matrix
    }
}

/// Whether the bootloader-entry key is held in this scan. When this holds in
/// the very first scan after power-on, control is handed irreversibly to the
/// bootloader and the main loop is never entered.
pub fn should_enter_bootloader(scan: &KeyScan) -> (r: bool)
    ensures
        r == scan.cells()[BOOT_KEY_COL as int][BOOT_KEY_ROW as int],
{
    scan.matrix[BOOT_KEY_COL][BOOT_KEY_ROW]
}

} // verus!
