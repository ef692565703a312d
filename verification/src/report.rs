//! The HID input report and the report encoder.
//!
//! A report is the fixed 8-byte structure a boot-protocol keyboard puts on
//! the wire: byte 0 is the modifier bitmask, byte 1 is reserved and always 0,
//! bytes 2–7 are up to six concurrently pressed normal keys, left-packed in
//! scan order and zero-filled when empty. When more than six normal keys are
//! asserted at once, all six slots are overwritten with the rollover error
//! sentinel so the host sees "too many keys" instead of a silently truncated
//! report.
//!
//! The encoder is a pure function of the debounced matrix and the selected
//! layer mapping: [`encode_report`] walks every cell in column-major scan
//! order and feeds each asserted cell's identity to [`KbHidReport::pressed`].
//! Its whole effect is pinned by the specification functions [`encode_spec`]
//! and [`apply_key`].

use vstd::prelude::*;

use crate::key_codes::KeyCode;
use crate::key_codes::ROLLOVER_CODE;
use crate::key_mapping::LAYER_KEY_COL;
use crate::key_mapping::LAYER_KEY_ROW;
use crate::key_mapping::Layer;
use crate::key_mapping::LayerMapping;
use crate::key_mapping::layer_spec;
use crate::scan::Matrix;
use crate::scan::NUM_COLS;
use crate::scan::NUM_ROWS;

verus! {

broadcast use vstd::array::group_array_axioms;

/// The bytes of a report before any key was applied: all zero.
pub open spec fn empty_report_seq() -> Seq<u8> {
    Seq::new(8, |i: int| 0u8)
}

/// Bytes 2–7 of `b` overwritten with `code`; bytes 0 and 1 kept.
pub open spec fn fill_slots(b: Seq<u8>, code: u8) -> Seq<u8> {
    Seq::new(8, |i: int| if i < 2 { b[i] } else { code })
}

/// The first index in `i..8` where `b` holds 0, or 8 when there is none.
pub open spec fn find_zero_from(b: Seq<u8>, i: int) -> int
    decreases 8 - i,
{
    if i < 2 || i >= 8 {
        8
    } else if b[i] == 0 {
        i
    } else {
        find_zero_from(b, i + 1)
    }
}

/// What one key identity does to the bytes of a report.
///
/// The empty identity does nothing; a sentinel overwrites all six key slots
/// with its own value (modifiers accumulated so far are retained); a modifier
/// ORs its bit into byte 0; a normal key takes the first free slot, and when
/// none is free the report degrades to all-rollover.
pub open spec fn apply_key(b: Seq<u8>, kc: KeyCode) -> Seq<u8> {
    if kc.is_empty_spec() {
        b
    } else if kc.is_sentinel_spec() {
        fill_slots(b, kc.code_spec())
    } else if kc.is_modifier_spec() {
        b.update(0, b[0] | kc.modifier_mask_spec())
    } else {
        let i = find_zero_from(b, 2);
        if i < 8 {
            b.update(i, kc.code_spec())
        } else {
            fill_slots(b, ROLLOVER_CODE)
        }
    }
}

/// The report bytes after applying a sequence of key identities in order,
/// starting from the empty report.
pub open spec fn encode_seq(s: Seq<KeyCode>) -> Seq<u8>
    decreases s.len(),
{
    if s.len() == 0 {
        empty_report_seq()
    } else {
        apply_key(encode_seq(s.drop_last()), s.last())
    }
}

/// The identity mapped to cell (c, r), as a sequence of zero or one keys:
/// empty when the cell is not asserted.
pub open spec fn key_if_pressed(m: Matrix, t: LayerMapping, c: int, r: int) -> Seq<KeyCode> {
    if m[c][r] {
        seq![t[c][r]]
    } else {
        Seq::empty()
    }
}

/// The identities of the asserted cells of column `c`, rows `0..r`, in row
/// order.
pub open spec fn keys_in_col_upto(m: Matrix, t: LayerMapping, c: int, r: int) -> Seq<KeyCode>
    decreases r,
{
    if r <= 0 {
        Seq::empty()
    } else {
        keys_in_col_upto(m, t, c, r - 1) + key_if_pressed(m, t, c, r - 1)
    }
}

/// The identities of the asserted cells of columns `0..c`, in column-major
/// scan order.
pub open spec fn keys_upto_col(m: Matrix, t: LayerMapping, c: int) -> Seq<KeyCode>
    decreases c,
{
    if c <= 0 {
        Seq::empty()
    } else {
        keys_upto_col(m, t, c - 1) + keys_in_col_upto(m, t, c - 1, NUM_ROWS as int)
    }
}

/// The identities of all asserted cells of the matrix under mapping `t`, in
/// column-major scan order.
pub open spec fn pressed_keys(m: Matrix, t: LayerMapping) -> Seq<KeyCode> {
    keys_upto_col(m, t, NUM_COLS as int)
}

/// The bytes of the report encoded from matrix `m` under mapping `t`.
pub open spec fn encode_spec(m: Matrix, t: LayerMapping) -> Seq<u8> {
    encode_seq(pressed_keys(m, t))
}

/// A standard keyboard USB HID report: modifier byte, reserved byte, six key
/// slots.
#[derive(Clone, Copy, Debug, Eq)]
pub struct KbHidReport {
    bytes: [u8; 8],
}

impl View for KbHidReport {
    type V = Seq<u8>;

    closed spec fn view(&self) -> Seq<u8> {
        self.bytes@
    }
}

impl PartialEq for KbHidReport {
    /// Reports compare byte-wise.
    fn eq(&self, other: &Self) -> (r: bool) {
        let mut i: usize = 0;
        while i < 8
            invariant
                i <= 8,
                forall|j: int| 0 <= j < i ==> self.bytes@[j] == other.bytes@[j],
            decreases 8 - i,
        {
            if self.bytes[i] != other.bytes[i] {
                return false;
            }
            i += 1;
        }
        proof {
            assert(self.bytes@ =~= other.bytes@);
        }
        true
    }
}

impl vstd::std_specs::cmp::PartialEqSpecImpl for KbHidReport {
    open spec fn obeys_eq_spec() -> bool {
        true
    }

    open spec fn eq_spec(&self, other: &Self) -> bool {
        self@ == other@
    }
}

impl Default for KbHidReport {
    /// The default report is the empty one.
    fn default() -> (r: Self)
        ensures
            r@ == empty_report_seq(),
    {
        KbHidReport::empty()
    }
}

impl KbHidReport {
    /// The report with no modifier and no key: all bytes zero.
    pub fn empty() -> (r: Self)
        ensures
            r@ == empty_report_seq(),
    {
        let r = KbHidReport { bytes: [0u8; 8] };
        proof {
            assert(r@ =~= empty_report_seq());
        }
        r
    }

    /// A copy of the 8 wire bytes of this report.
    pub fn bytes(&self) -> (r: [u8; 8])
        ensures
            r@ == self@,
    {
        self.bytes
    }

    /// Overwrites all six key slots with the wire value `code`.
    fn set_all(&mut self, code: u8)
        ensures
            final(self)@ == fill_slots(old(self)@, code),
    {
        let mut i: usize = 2;
        while i < 8
            invariant
                2 <= i <= 8,
                self.bytes@.len() == 8,
                forall|j: int| 0 <= j < 2 ==> self.bytes@[j] == old(self)@[j],
                forall|j: int| 2 <= j < i ==> self.bytes@[j] == code,
                forall|j: int| i <= j < 8 ==> self.bytes@[j] == old(self)@[j],
            decreases 8 - i,
        {
            self.bytes[i] = code;
            i += 1;
        }
        proof {
            assert(self@ =~= fill_slots(old(self)@, code));
        }
    }

    /// Adds the given key identity to the report: the identity's whole effect
    /// is [`apply_key`]. If no key slot is free for a normal key, the report
    /// is overwritten with the rollover sentinel.
    pub fn pressed(&mut self, kc: KeyCode)
        ensures
            final(self)@ == apply_key(old(self)@, kc),
    {
        let code = kc.code();
        if code == 0 {
            // The empty identity: no effect.
        } else if code <= 3 {
            // An error sentinel dominates the key slots.
            self.set_all(code);
        } else {
            match kc.modifier_bitmask() {
                Some(mask) => {
                    self.bytes[0] = self.bytes[0] | mask;
                    proof {
                        assert(self@ =~= old(self)@.update(0, old(self)@[0] | kc.modifier_mask_spec()));
                    }
                },
                None => {
                    // A normal key: take the first free slot.
                    let mut i: usize = 2;
                    while i < 8
                        invariant
                            2 <= i <= 8,
                            self == old(self),
                            kc.is_normal_spec(),
                            forall|j: int| 2 <= j < i ==> self.bytes@[j] != 0,
                        decreases 8 - i,
                    {
                        if self.bytes[i] == 0 {
                            proof {
                                lemma_find_zero_at(self.bytes@, 2, i as int);
                            }
                            self.bytes[i] = kc.code();
                            return;
                        }
                        i += 1;
                    }
                    proof {
                        lemma_find_zero_none(old(self)@, 2);
                    }
                    self.set_all(ROLLOVER_CODE);
                },
            }
        }
    }
}

/// `find_zero_from` finds `z` when everything before it in `i..z` is nonzero
/// and `b[z]` is zero.
pub(crate) proof fn lemma_find_zero_at(b: Seq<u8>, i: int, z: int)
    requires
        b.len() == 8,
        2 <= i <= z < 8,
        forall|j: int| i <= j < z ==> b[j] != 0,
        b[z] == 0,
    ensures
        find_zero_from(b, i) == z,
    decreases z - i,
{
    if i < z {
        lemma_find_zero_at(b, i + 1, z);
    }
}

/// `find_zero_from` finds nothing when every slot in `i..8` is nonzero.
pub(crate) proof fn lemma_find_zero_none(b: Seq<u8>, i: int)
    requires
        b.len() == 8,
        2 <= i <= 8,
        forall|j: int| i <= j < 8 ==> b[j] != 0,
    ensures
        find_zero_from(b, i) == 8,
    decreases 8 - i,
{
    if i < 8 {
        lemma_find_zero_none(b, i + 1);
    }
}

/// Appending one key to the key sequence applies it on top of the encoding
/// of the prefix.
proof fn lemma_encode_seq_push(s: Seq<KeyCode>, kc: KeyCode)
    ensures
        encode_seq(s + seq![kc]) == apply_key(encode_seq(s), kc),
{
    let s1 = s + seq![kc];
    assert(s1.drop_last() =~= s);
    assert(s1.last() == kc);
}

/// Encodes the debounced matrix `m` under the layer mapping `t` into one HID
/// input report. The result is exactly [`encode_spec`]`(m, t)`: a pure
/// function of its two arguments, so repeated calls on the same pair yield
/// byte-identical reports.
pub fn encode_report(matrix: &Matrix, table: &LayerMapping) -> (r: KbHidReport)
    ensures
        r@ == encode_spec(*matrix, *table),
{
    let mut report = KbHidReport::empty();
    let ghost m = *matrix;
    let ghost t = *table;
    let mut c: usize = 0;
    while c < NUM_COLS
        invariant
            c <= NUM_COLS,
            m == *matrix,
            t == *table,
            report@ == encode_seq(keys_upto_col(m, t, c as int)),
        decreases NUM_COLS - c,
    {
        let mut r: usize = 0;
        while r < NUM_ROWS
            invariant
                c < NUM_COLS,
                r <= NUM_ROWS,
                m == *matrix,
                t == *table,
                report@ == encode_seq(
                    keys_upto_col(m, t, c as int) + keys_in_col_upto(m, t, c as int, r as int),
                ),
            decreases NUM_ROWS - r,
        {
            let ghost prefix = keys_upto_col(m, t, c as int) + keys_in_col_upto(
                m,
                t,
                c as int,
                r as int,
            );
            if matrix[c][r] {
                report.pressed(table[c][r]);
                proof {
                    lemma_encode_seq_push(prefix, t[c as int][r as int]);
                    assert(keys_upto_col(m, t, c as int) + keys_in_col_upto(
                        m,
                        t,
                        c as int,
                        r as int + 1,
                    ) =~= prefix + seq![t[c as int][r as int]]);
                }
            } else {
                proof {
                    assert(keys_upto_col(m, t, c as int) + keys_in_col_upto(
                        m,
                        t,
                        c as int,
                        r as int + 1,
                    ) =~= prefix);
                }
            }
            r += 1;
        }
        proof {
            assert(keys_upto_col(m, t, c as int + 1) + keys_in_col_upto(
                m,
                t,
                c as int + 1,
                0,
            ) =~= keys_upto_col(m, t, c as int) + keys_in_col_upto(m, t, c as int, NUM_ROWS as int));
        }
        c += 1;
    }
    report
}

/// The bytes of the report a cycle with matrix `m` produces: the matrix
/// encoded under the table its own layer-select cell picks.
pub open spec fn report_for_matrix_spec(
    m: Matrix,
    normal: LayerMapping,
    alternate: LayerMapping,
) -> Seq<u8> {
    encode_spec(m, (if layer_spec(m) is Alternate { alternate } else { normal }))
}

/// Encodes one debounced matrix into this cycle's HID input report: the
/// layer-select cell of the matrix itself picks which of the two mapping
/// tables the cells are read through.
pub fn report_from_matrix(
    matrix: &Matrix,
    normal: &LayerMapping,
    alternate: &LayerMapping,
) -> (r: KbHidReport)
    ensures
        r@ == report_for_matrix_spec(*matrix, *normal, *alternate),
{
    let table = if matrix[LAYER_KEY_COL][LAYER_KEY_ROW] {
        alternate
    } else {
        normal
    };
    encode_report(matrix, table)
}

} // verus!
