//! The encoder's packing and rollover guarantees, proved once and for all
//! matrices and mapping tables.
//!
//! The statements are over the key identities of the asserted cells in scan
//! order ([`pressed_keys`]): when at most six of them are normal keys, the
//! encoded report carries exactly their wire codes, left-packed, with the
//! modifier byte equal to the OR of the asserted modifiers' masks; when seven
//! or more are normal keys, all six key slots degrade to the rollover
//! sentinel while the modifier byte is still preserved.

use vstd::prelude::*;

use crate::key_codes::KeyCode;
use crate::key_codes::ROLLOVER_CODE;
use crate::key_mapping::LayerMapping;
use crate::report::empty_report_seq;
use crate::report::encode_seq;
use crate::report::encode_spec;
use crate::report::fill_slots;
use crate::report::lemma_find_zero_at;
use crate::report::lemma_find_zero_none;
use crate::report::pressed_keys;
use crate::scan::Matrix;

verus! {

/// The OR of the modifier masks of the modifiers in `s`, in order.
pub open spec fn modifier_mask_of(s: Seq<KeyCode>) -> u8
    decreases s.len(),
{
    if s.len() == 0 {
        0u8
    } else {
        modifier_mask_of(s.drop_last()) | (if s.last().is_modifier_spec() {
            s.last().modifier_mask_spec()
        } else {
            0u8
        })
    }
}

/// The wire codes of the normal keys in `s`, in order.
pub open spec fn normal_codes_of(s: Seq<KeyCode>) -> Seq<u8>
    decreases s.len(),
{
    if s.len() == 0 {
        Seq::empty()
    } else {
        normal_codes_of(s.drop_last()) + (if s.last().is_normal_spec() {
            seq![s.last().code_spec()]
        } else {
            Seq::empty()
        })
    }
}

/// No error sentinel occurs in `s`. Mapping tables assign sentinels to no
/// position; a sentinel in a report only ever arises from the rollover
/// policy itself.
pub open spec fn no_sentinels(s: Seq<KeyCode>) -> bool {
    forall|i: int| 0 <= i < s.len() ==> !(#[trigger] s[i]).is_sentinel_spec()
}

proof fn lemma_u8_or_zero(x: u8)
    ensures
        x | 0u8 == x,
{
    assert(x | 0u8 == x) by (bit_vector);
}

/// The shape of the encoding of any sentinel-free key sequence: the modifier
/// byte accumulates the modifier masks, the reserved byte stays zero, and the
/// key slots hold the normal keys' codes left-packed until they overflow into
/// all-rollover.
proof fn lemma_encode_seq_shape(s: Seq<KeyCode>)
    requires
        no_sentinels(s),
    ensures
        encode_seq(s).len() == 8,
        encode_seq(s)[0] == modifier_mask_of(s),
        encode_seq(s)[1] == 0,
        forall|j: int|
            0 <= j < normal_codes_of(s).len() ==> #[trigger] normal_codes_of(s)[j] != 0,
        normal_codes_of(s).len() <= 6 ==> forall|j: int|
            2 <= j < 2 + normal_codes_of(s).len() ==> #[trigger] encode_seq(s)[j]
                == normal_codes_of(s)[j - 2],
        normal_codes_of(s).len() <= 6 ==> forall|j: int|
            2 + normal_codes_of(s).len() <= j < 8 ==> #[trigger] encode_seq(s)[j] == 0,
        normal_codes_of(s).len() > 6 ==> forall|j: int|
            2 <= j < 8 ==> #[trigger] encode_seq(s)[j] == ROLLOVER_CODE,
    decreases s.len(),
{
    if s.len() == 0 {
        assert(encode_seq(s) == empty_report_seq());
    } else {
        let p = s.drop_last();
        let kc = s.last();
        assert(no_sentinels(p)) by {
            assert(forall|i: int| 0 <= i < p.len() ==> p[i] == s[i]);
        }
        lemma_encode_seq_shape(p);
        let b = encode_seq(p);
        let k = normal_codes_of(p).len() as int;
        if kc.is_empty_spec() {
            lemma_u8_or_zero(modifier_mask_of(p));
            assert(normal_codes_of(s) =~= normal_codes_of(p));
        } else if kc.is_modifier_spec() {
            assert(normal_codes_of(s) =~= normal_codes_of(p));
        } else {
            // kc is a normal key: the sentinel case is excluded by the
            // hypothesis.
            assert(kc.is_normal_spec());
            lemma_u8_or_zero(modifier_mask_of(p));
            assert(normal_codes_of(s) =~= normal_codes_of(p) + seq![kc.code_spec()]);
            if k <= 5 {
                lemma_find_zero_at(b, 2, 2 + k);
                assert(encode_seq(s) == b.update(2 + k, kc.code_spec()));
            } else {
                // All six slots are nonzero (the packed codes, or rollover
                // already): the new key overflows into all-rollover.
                lemma_find_zero_none(b, 2);
                assert(encode_seq(s) == fill_slots(b, ROLLOVER_CODE));
            }
        }
    }
}

/// With at most six normal keys asserted (and no sentinel mapped to an
/// asserted cell), the encoded report's modifier byte is the OR of the
/// asserted modifiers' masks, and the key slots hold exactly the asserted
/// normal keys' codes in scan order, left-packed, zero-filled at the end.
pub proof fn lemma_encode_packs_normal_keys(m: Matrix, t: LayerMapping)
    requires
        no_sentinels(pressed_keys(m, t)),
        normal_codes_of(pressed_keys(m, t)).len() <= 6,
    ensures
        encode_spec(m, t).len() == 8,
        encode_spec(m, t)[0] == modifier_mask_of(pressed_keys(m, t)),
        encode_spec(m, t)[1] == 0,
        forall|j: int|
            2 <= j < 2 + normal_codes_of(pressed_keys(m, t)).len() ==> #[trigger] encode_spec(
                m,
                t,
            )[j] == normal_codes_of(pressed_keys(m, t))[j - 2],
        forall|j: int|
            2 + normal_codes_of(pressed_keys(m, t)).len() <= j < 8 ==> #[trigger] encode_spec(
                m,
                t,
            )[j] == 0,
{
    lemma_encode_seq_shape(pressed_keys(m, t));
}

/// With seven or more normal keys asserted (and no sentinel mapped to an
/// asserted cell), every one of the six key slots equals the rollover
/// sentinel, whatever the keys were; the modifier byte is still the OR of the
/// asserted modifiers' masks.
pub proof fn lemma_encode_rollover(m: Matrix, t: LayerMapping)
    requires
        no_sentinels(pressed_keys(m, t)),
        normal_codes_of(pressed_keys(m, t)).len() >= 7,
    ensures
        encode_spec(m, t).len() == 8,
        encode_spec(m, t)[0] == modifier_mask_of(pressed_keys(m, t)),
        encode_spec(m, t)[1] == 0,
        forall|j: int| 2 <= j < 8 ==> #[trigger] encode_spec(m, t)[j] == ROLLOVER_CODE,
{
    lemma_encode_seq_shape(pressed_keys(m, t));
}

/// Encoding is a pure function of the (matrix, mapping) pair: any two
/// reports whose bytes satisfy the encoder's contract for the same pair are
/// byte-identical.
pub proof fn lemma_encoding_deterministic(m: Matrix, t: LayerMapping, r1: Seq<u8>, r2: Seq<u8>)
    requires
        r1 == encode_spec(m, t),
        r2 == encode_spec(m, t),
    ensures
        r1 == r2,
{
}

} // verus!
