//! Tracing over USB: the log buffer and its transfers.

use vstd::prelude::*;

verus! {

/// The size of the log buffers.
pub const LOG_BUFFER_SIZE: usize = 0x400;

/// The maximum size of a USB byte transfer.
pub const USB_TRANSFER_BUFFER_SIZE: u16 = 0x40;

/// Whether a transfer of `byte_count` log bytes is followed by a zero-length packet: when the
/// count, taken modulo `256` as a byte, equals the maximum packet size.
pub fn needs_zero_length_packet(byte_count: usize, max_packet_size: u8) -> (flag: bool)
    ensures
        flag == (byte_count % 256 == max_packet_size),
{
    ((byte_count % 256) as u8) == max_packet_size
}

} // verus!
