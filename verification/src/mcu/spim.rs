//! The SPI peripheral with DMA.

use vstd::prelude::*;
use crate::config;

verus! {

/// Why a transfer failed.
#[derive(Clone, Copy, Debug, PartialEq, Eq, Structural)]
pub enum SpimError {
    Handler,
    Receive,
    Transmit,
}

/// Which of the two transmit windows is handed out next.
#[derive(Clone, Copy, Debug, PartialEq, Eq, Structural)]
pub struct Spim {
    pub last_ptr: bool,
}

impl Spim {
    pub fn new() -> (spim: Spim)
        ensures
            spim.last_ptr,
    {
        Spim { last_ptr: true }
    }
}

/// The verdict on a finished transfer of `len` bytes, from the amounts
/// the peripheral reports as sent and received.
pub fn write(tx_amount: u32, rx_amount: u32, len: u32) -> (done: Result<(), SpimError>)
    ensures
        done == if tx_amount != len {
            Err::<(), SpimError>(SpimError::Transmit)
        } else if rx_amount != len {
            Err::<(), SpimError>(SpimError::Receive)
        } else {
            Ok::<(), SpimError>(())
        },
{
    if tx_amount != len {
        return Err(SpimError::Transmit);
    }
    if rx_amount != len {
        return Err(SpimError::Receive);
    }
    Ok(())
}

/// The transmit window for the next block: window A the first time, then
/// window B.
pub fn get_tx_ptr(spim: &mut Spim) -> (ptr: u32)
    ensures
        ptr == if old(spim).last_ptr {
            config::SPIM_DMA_TX_PTR_A
        } else {
            config::SPIM_DMA_TX_PTR_B
        },
        !final(spim).last_ptr,
{
    if spim.last_ptr {
        spim.last_ptr = false;
        config::SPIM_DMA_TX_PTR_A
    } else {
        spim.last_ptr = false;
        config::SPIM_DMA_TX_PTR_B
    }
}

/// Whether a block that starts at address `ptr` can be sent by DMA from
/// where it is.
pub open spec fn block_valid(ptr: u32) -> bool {
    config::SPIM_DMA_MIN <= ptr < config::SPIM_DMA_MAX - config::SPIM_DMA_SIZE
}

pub fn is_block_valid(ptr: u32) -> (valid: bool)
    ensures
        valid == block_valid(ptr),
{
    if (ptr >= config::SPIM_DMA_MIN) && (ptr < (config::SPIM_DMA_MAX - config::SPIM_DMA_SIZE)) {
        true
    } else {
        false
    }
}

/// Where a block of `len` bytes at address `ptr` is sent from: its own
/// address if DMA can reach it, else a transmit window into which the
/// caller copies it.
pub fn make_ram(spim: &mut Spim, ptr: u32, len: usize) -> (source: (u32, u32))
    requires
        len <= u32::MAX,
    ensures
        source.1 == len,
        block_valid(ptr) ==> source.0 == ptr && *final(spim) == *old(spim),
        !block_valid(ptr) ==> !final(spim).last_ptr && source.0 == if old(spim).last_ptr {
            config::SPIM_DMA_TX_PTR_A
        } else {
            config::SPIM_DMA_TX_PTR_B
        },
{
    if !is_block_valid(ptr) {
        let ptr = get_tx_ptr(spim);
        (ptr, len as u32)
    } else {
        (ptr, len as u32)
    }
}

} // verus!
