//! Time since boot from the performance counter, and a frame's render time
//! against it.

use vstd::prelude::*;
use core::time::Duration;
use crate::platform::{duration_from_nanos, duration_of_nanos};

verus! {

/// Nanoseconds since boot for a counter reading and the counter's frequency in
/// counts per second, wrapped to 64 bits.
pub open spec fn spec_uptime_nanos(qpc_now: i64, qpc_frequency: i64) -> int {
    ((qpc_now as int) * 1_000_000_000 / (qpc_frequency as int)) % 0x1_0000_0000_0000_0000
}

/// How far a frame's render time lies from the moment the counter was read, in
/// nanoseconds: the frame's time since boot, which the platform gives in
/// units of 100 nanoseconds, less the time since boot at the reading. It is
/// negative for a frame rendered before the reading.
pub open spec fn spec_render_offset(ticks: i64, qpc_now: i64, qpc_frequency: i64) -> int {
    (ticks as int) * 100 - spec_uptime_nanos(qpc_now, qpc_frequency)
}

/// Nanoseconds since boot for a counter reading and the counter's frequency.
pub fn uptime_nanos(qpc_now: i64, qpc_frequency: i64) -> (r: u64)
    requires
        qpc_now >= 0,
        qpc_frequency > 0,
    ensures
        r == spec_uptime_nanos(qpc_now, qpc_frequency),
{
    let now: u128 = qpc_now as u128;
    let frequency: u128 = qpc_frequency as u128;
    let nanos: u128 = now * 1_000_000_000 / frequency;
    (nanos % 0x1_0000_0000_0000_0000) as u64
}

/// The time since the system booted, for a reading of the performance counter
/// and the counter's frequency in counts per second.
pub fn elapsed_since_system_boot(qpc_now: i64, qpc_frequency: i64) -> (r: Duration)
    requires
        qpc_now >= 0,
        qpc_frequency > 0,
    ensures
        r == duration_of_nanos(spec_uptime_nanos(qpc_now, qpc_frequency) as u64),
{
    duration_from_nanos(uptime_nanos(qpc_now, qpc_frequency))
}

/// How far a frame's render time lies from the moment the counter was read,
/// in nanoseconds.
pub fn render_offset(ticks: i64, qpc_now: i64, qpc_frequency: i64) -> (r: i128)
    requires
        qpc_now >= 0,
        qpc_frequency > 0,
    ensures
        r == spec_render_offset(ticks, qpc_now, qpc_frequency),
{
    let rendered: i128 = (ticks as i128) * 100;
    let uptime: u64 = uptime_nanos(qpc_now, qpc_frequency);
    rendered - (uptime as i128)
}

/// Render times keep the order of the platform's timestamps: of two frames
/// measured against one reading of the counter, the one with the later
/// timestamp has the later render time.
pub proof fn lemma_render_time_is_monotonic(
    first_ticks: i64,
    second_ticks: i64,
    qpc_now: i64,
    qpc_frequency: i64,
)
    requires
        first_ticks <= second_ticks,
    ensures
        spec_render_offset(first_ticks, qpc_now, qpc_frequency) <= spec_render_offset(
            second_ticks,
            qpc_now,
            qpc_frequency,
        ),
{
}

/// The same holds of two readings, taken at instants `first_now` and
/// `second_now` of one clock, as long as that clock and the counter agree on
/// the time that passed between them.
pub proof fn lemma_render_instant_is_monotonic(
    first_ticks: i64,
    second_ticks: i64,
    first_now: int,
    second_now: int,
    first_qpc: i64,
    second_qpc: i64,
    qpc_frequency: i64,
)
    requires
        first_ticks <= second_ticks,
        second_now - first_now == spec_uptime_nanos(second_qpc, qpc_frequency) - spec_uptime_nanos(
            first_qpc,
            qpc_frequency,
        ),
    ensures
        first_now + spec_render_offset(first_ticks, first_qpc, qpc_frequency) <= second_now
            + spec_render_offset(second_ticks, second_qpc, qpc_frequency),
{
}

} // verus!
