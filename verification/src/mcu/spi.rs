//! The byte-wise SPI peripheral.

use vstd::prelude::*;
use vstd::slice::{slice_subrange, slice_to_vec};

verus! {

/// Why a transfer failed.
#[allow(non_camel_case_types)]
#[derive(Clone, Copy, Debug, PartialEq, Eq, Structural)]
pub enum SpiError {
    HANDLER,
    RECEIVE,
    TRANSMIT,
}

/// One step of a transfer.
#[derive(Clone, Copy, Debug, PartialEq, Eq, Structural)]
pub enum SpiStep {
    /// Enable the peripheral.
    Enable,
    /// Load this byte into the transmit register.
    Transmit(u8),
    /// Wait for a byte to be received and take it out of the receive
    /// register.
    Receive,
    /// Disable the peripheral.
    Disable,
    /// Leave the clock line high.
    ClockHigh,
}

/// `count` bytes of `data` from the second on, each loaded and followed
/// by the reception of a byte.
pub open spec fn pipelined(data: Seq<u8>, count: nat) -> Seq<SpiStep>
    decreases count,
{
    if count == 0 {
        Seq::empty()
    } else {
        pipelined(data, (count - 1) as nat) + seq![
            SpiStep::Transmit(data[count as int]),
            SpiStep::Receive,
        ]
    }
}

/// The steps that send the bytes of `buf`. The transmit register is
/// double buffered: the second byte is loaded right after the first,
/// and from then on each byte follows the reception of the one two
/// before it. Before the last byte is loaded, everything sent before it
/// has been received.
pub open spec fn write_steps(buf: Seq<u8>) -> Seq<SpiStep> {
    seq![SpiStep::Enable] + (if buf.len() == 0 {
        Seq::empty()
    } else if buf.len() == 1 {
        seq![SpiStep::Transmit(buf[0]), SpiStep::Receive]
    } else {
        seq![SpiStep::Transmit(buf[0])] + pipelined(buf, (buf.len() - 2) as nat) + seq![
            SpiStep::Receive,
            SpiStep::Transmit(buf[buf.len() - 1]),
            SpiStep::Receive,
        ]
    }) + seq![SpiStep::Disable, SpiStep::ClockHigh]
}

/// The steps that send the bytes of `buf` in one transfer.
pub fn write(buf: &[u8]) -> (steps: Vec<SpiStep>)
    ensures
        steps@ == write_steps(buf@),
{
    let mut steps: Vec<SpiStep> = Vec::new();
    steps.push(SpiStep::Enable);
    let len: usize = buf.len();
    if len > 0 {
        // If there is a block to be written
        if len > 1 {
            // The first byte is not waited for, to use the double buffer
            steps.push(SpiStep::Transmit(buf[0]));
            let ghost first = steps@;
            let mut i: usize = 1;
            assert(steps@ =~= first + pipelined(buf@, 0));
            while i < len - 1
                invariant
                    1 <= i <= len - 1,
                    len == buf@.len(),
                    steps@ == first + pipelined(buf@, (i - 1) as nat),
                decreases len - 1 - i,
            {
                steps.push(SpiStep::Transmit(buf[i]));
                steps.push(SpiStep::Receive);
                i += 1;
                assert(steps@ =~= first + pipelined(buf@, (i - 1) as nat));
            }
            // Receive the last byte to clear out the double buffer
            steps.push(SpiStep::Receive);
        }
        // Send the last byte
        steps.push(SpiStep::Transmit(buf[len - 1]));
        steps.push(SpiStep::Receive);
    }
    steps.push(SpiStep::Disable);
    steps.push(SpiStep::ClockHigh);
    assert(steps@ =~= write_steps(buf@));
    steps
}

/// Whether a transfer is in flight. Transfers block, so none ever is.
pub fn get_busy() -> (busy: bool)
    ensures
        !busy,
{
    false
}

/// The low byte of a 16-bit value: the first of its two bytes in memory.
pub open spec fn low_byte(value: u16) -> u8 {
    (value % 256) as u8
}

/// The high byte of a 16-bit value: the second of its two bytes in
/// memory.
pub open spec fn high_byte(value: u16) -> u8 {
    (value / 256) as u8
}

/// `count` copies of a 16-bit value as bytes, low byte first.
pub open spec fn solid(value: u16, count: int) -> Seq<u8> {
    Seq::new(
        (2 * count) as nat,
        |j: int| if j % 2 == 0 {
            low_byte(value)
        } else {
            high_byte(value)
        },
    )
}

/// Copies of a 16-bit value sent in one transfer of [`write_u16`].
pub const U16_TRANSFER_LEN: u32 = 128;

/// `len` copies of `data` cut into transfers of [`U16_TRANSFER_LEN`]
/// copies; the last one holds what is left.
pub open spec fn u16_transfers(data: u16, len: u32) -> Seq<Seq<u8>> {
    Seq::new(
        ((len + 127) / 128) as nat,
        |i: int| solid(data, if (i + 1) * 128 <= len {
            128
        } else {
            len - i * 128
        }),
    )
}

/// The transfers that send `len` copies of `data`, two bytes each, in
/// blocks of at most 256 bytes. The caller sends them in order and stops
/// at the first that fails.
pub fn write_u16(data: u16, len: u32) -> (transfers: Vec<Vec<u8>>)
    requires
        len * 2 <= u32::MAX,
    ensures
        transfers.deep_view() == u16_transfers(data, len),
{
    // Build a single block once
    let low: u8 = (data % 256) as u8;
    let high: u8 = (data / 256) as u8;
    let mut block: Vec<u8> = Vec::new();
    while block.len() < 256
        invariant
            block@.len() <= 256,
            block@.len() % 2 == 0,
            low == low_byte(data),
            high == high_byte(data),
            block@ =~= solid(data, block@.len() as int / 2),
        decreases 256 - block@.len(),
    {
        block.push(low);
        block.push(high);
    }
    // Need to be sending 2B per pixel
    let mut num_bytes: u32 = len * 2;
    let mut transfers: Vec<Vec<u8>> = Vec::new();

    while num_bytes > 0
        invariant
            block@ =~= solid(data, 128),
            num_bytes <= len * 2,
            num_bytes % 2 == 0,
            len * 2 - num_bytes == 256 * transfers@.len() || (num_bytes == 0 && 256 * transfers@.len()
                > len * 2 > 256 * (transfers@.len() - 1)),
            transfers.deep_view() =~= u16_transfers(data, len).take(transfers@.len() as int),
            transfers@.len() <= u16_transfers(data, len).len(),
        decreases num_bytes,
    {
        let transfer_size: u32 = if num_bytes > 256 {
            256
        } else {
            num_bytes
        };
        num_bytes = num_bytes - transfer_size;

        let transfer = slice_to_vec(slice_subrange(block.as_slice(), 0, transfer_size as usize));
        assert(transfer@ =~= u16_transfers(data, len)[transfers@.len() as int]);
        assert(transfer.deep_view() =~= transfer@);
        let ghost sent = transfers.deep_view();
        transfers.push(transfer);
        assert(transfers.deep_view() =~= sent.push(transfer@));
    }
    assert(transfers.deep_view() =~= u16_transfers(data, len));
    transfers
}

} // verus!
