//! The powerplant: the pulse-width modulation of the motor channels.

use vstd::prelude::*;

verus! {

/// The standard `50 Hz` channel frequency of servomotors.
pub const CHANNEL_FREQUENCY: u32 = 50;

/// The clock divider of the channels.
pub const CHANNEL_DIVIDER: u8 = 128;

/// The number of clock divisions per second of a channel: the frequency times the divider.
pub const CHANNEL_PERIOD_PARTS: u32 = 6400;

/// The counter top of a motor channel for a system clock of `clock_hz` Hz: one `50 Hz` period
/// of the divided clock, minus one.
///
/// The clock must tick at least [`CHANNEL_PERIOD_PARTS`] times per second, and the period
/// count is taken modulo `2^16` as the counter is 16 bits wide.
pub fn channel_period(clock_hz: u32) -> (target_period: u16)
    requires
        ((clock_hz / CHANNEL_PERIOD_PARTS) as u16) >= 1,
    ensures
        target_period == ((clock_hz / CHANNEL_PERIOD_PARTS) as u16) - 1,
{
    assert(CHANNEL_PERIOD_PARTS == CHANNEL_FREQUENCY * CHANNEL_DIVIDER as u32);
    let periods = (clock_hz / CHANNEL_PERIOD_PARTS) as u16;
    periods - 1
}

} // verus!
