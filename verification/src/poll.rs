//! Decisions of the fixed-rate poll loop.
//!
//! The poll loop itself lives outside the library: it owns the timer, the
//! critical section around the shared USB objects, and the push to the
//! transport. The library makes every decision in it: what one elapsed scan
//! period does to the keyboard state ([`on_scan_cycle`]), whether the freshly
//! encoded report must be pushed at all ([`push_needed`] — byte-identical
//! reports are suppressed), and how a failed push is classified
//! ([`is_transient`]). The loop performs the push and hands the outcome back;
//! whatever the outcome, it re-arms the timer and retries no earlier than the
//! next period.

use vstd::prelude::*;

use crate::key_mapping::Layer;
use crate::key_mapping::LayerMapping;
use crate::key_mapping::active_layer;
use crate::keyboard::Keyboard;
use crate::keyboard::Leds;
use crate::report::KbHidReport;
use crate::report::encode_report;
use crate::report::report_for_matrix_spec;
use crate::scan::KeyScan;

verus! {

/// The scan period once the loop is running, in milliseconds.
pub const SCAN_PERIOD_MS: u32 = 8;

/// The one longer period before the very first scan, so the first push does
/// not block before the USB transport is ready.
pub const FIRST_SCAN_PERIOD_MS: u32 = 500;

/// How the transport reported a push that did not succeed.
#[derive(Clone, Copy, Debug, PartialEq, Eq, Structural)]
pub enum TransportError {
    /// The push could not complete immediately; retry next period.
    WouldBlock,
    /// The transport could not parse what it was handed.
    ParseError,
    /// A buffer overflowed.
    BufferOverflow,
    /// An endpoint overflowed.
    EndpointOverflow,
    /// Endpoint memory overflowed.
    EndpointMemoryOverflow,
    /// An invalid endpoint was addressed.
    InvalidEndpoint,
    /// The operation is unsupported.
    Unsupported,
    /// The transport was in an invalid state.
    InvalidState,
}

/// Whether a failed push is the transient would-block condition. A transient
/// failure is recovered locally by deferring to the next scan period; every
/// other kind indicates a transport-layer condition outside this core's
/// control and is only logged, the loop going on with the next cycle either
/// way.
pub fn is_transient(err: TransportError) -> (r: bool)
    ensures
        r == (err is WouldBlock),
{
    matches!(err, TransportError::WouldBlock)
}

/// Whether a freshly encoded report must be pushed: exactly when it differs
/// byte-wise from the last committed one.
pub open spec fn push_needed(prev: Seq<u8>, enc: Seq<u8>) -> bool {
    enc != prev
}

/// If two consecutive cycles encode byte-identical reports, the second cycle
/// pushes nothing: the transport observes one transmission per state
/// transition. (The first cycle commits its bytes, so the second compares
/// against them.)
pub proof fn lemma_identical_reports_suppressed(enc1: Seq<u8>, enc2: Seq<u8>)
    requires
        enc1 == enc2,
    ensures
        !push_needed(enc1, enc2),
{
}

/// The compute step of one elapsed scan period: resolves the layer, encodes
/// the debounced matrix, commits the result, and hands back the report to
/// push — or `None` when the encoding is byte-identical to the last committed
/// report and transmission is suppressed.
pub fn on_scan_cycle<L: Leds>(
    kbd: &mut Keyboard<L>,
    scan: &KeyScan,
    normal: &LayerMapping,
    alternate: &LayerMapping,
) -> (push: Option<KbHidReport>)
    ensures
        final(kbd).report_view() == report_for_matrix_spec(scan.cells(), *normal, *alternate),
        final(kbd).led_view() == old(kbd).led_view(),
        final(kbd).leds_view() == old(kbd).leds_view(),
        (push is Some) == push_needed(
            old(kbd).report_view(),
            report_for_matrix_spec(scan.cells(), *normal, *alternate),
        ),
        push is Some ==> push->Some_0@ == report_for_matrix_spec(
            scan.cells(),
            *normal,
            *alternate,
        ),
{
    let layer = active_layer(scan);
    let table = match layer {
        Layer::Normal => normal,
        Layer::Alternate => alternate,
    };
    let report = encode_report(scan.matrix(), table);
    let changed = kbd.set_keyboard_report(report);
    if changed {
        Some(report)
    } else {
        None
    }
}

} // verus!
