//! The I2C bus.
//!
//! A transaction is laid out as the steps that the bus master takes, in
//! order. The caller takes them one by one and ends the transaction at
//! the first step that fails.

use vstd::prelude::*;

verus! {

/// Why a bus transaction failed.
#[allow(non_camel_case_types)]
#[derive(Clone, Copy, Debug, PartialEq, Eq, Structural)]
pub enum I2cError {
    HANDLER,
    RECEIVE,
    STOP,
    TRANSMIT,
}

/// The outcome of waiting for one received byte: the byte `rxd`, unless
/// the error event fired.
pub fn rx_byte(error_event: bool, rxd: u8) -> (byte: Result<u8, I2cError>)
    ensures
        byte == if error_event {
            Err::<u8, I2cError>(I2cError::RECEIVE)
        } else {
            Ok::<u8, I2cError>(rxd)
        },
{
    // If error, bail out
    if error_event {
        return Err(I2cError::RECEIVE);
    }
    Ok(rxd)
}

/// The outcome of sending one byte: done, unless the error event fired.
pub fn tx_byte(error_event: bool) -> (sent: Result<(), I2cError>)
    ensures
        sent == if error_event {
            Err::<(), I2cError>(I2cError::TRANSMIT)
        } else {
            Ok::<(), I2cError>(())
        },
{
    // If error, bail out
    if error_event {
        return Err(I2cError::TRANSMIT);
    }
    Ok(())
}

/// The outcome of sending a stop condition: done, unless the error event
/// fired.
pub fn send_stop(error_event: bool) -> (stopped: Result<(), I2cError>)
    ensures
        stopped == if error_event {
            Err::<(), I2cError>(I2cError::STOP)
        } else {
            Ok::<(), I2cError>(())
        },
{
    // Bail out if we get an error instead.
    if error_event {
        return Err(I2cError::STOP);
    }
    Ok(())
}

/// One step of a transaction.
#[derive(Clone, Copy, Debug, PartialEq, Eq, Structural)]
pub enum I2cStep {
    /// Disable all shortcuts.
    ShortsOff,
    /// Select the device at this address.
    Address(u8),
    /// From now on suspend after each byte received: more are to come.
    ShortSuspend,
    /// From now on stop after the next byte received: it is the last.
    ShortStop,
    /// Clear the flag that shows a received byte.
    ClearReceived,
    /// Start receiving.
    StartRx,
    /// Resume after a suspension.
    Resume,
    /// Wait for a byte and store it in the next place of the buffer.
    Receive,
    /// Start transmitting.
    StartTx,
    /// Send this byte and wait until it is sent.
    Transmit(u8),
    /// Send a stop condition and wait until it is sent.
    Stop,
}

/// `count` bytes received with a suspension after each.
pub open spec fn resumed(count: nat) -> Seq<I2cStep>
    decreases count,
{
    if count == 0 {
        Seq::empty()
    } else {
        resumed((count - 1) as nat) + seq![I2cStep::Resume, I2cStep::Receive]
    }
}

/// The steps that receive `len` bytes: all but the last with a
/// suspension after each, the last with a stop after it. With nothing to
/// receive, a stop condition alone.
pub open spec fn receive_steps(len: nat) -> Seq<I2cStep> {
    if len == 0 {
        seq![I2cStep::Stop]
    } else {
        seq![
            if len > 1 {
                I2cStep::ShortSuspend
            } else {
                I2cStep::ShortStop
            },
            I2cStep::ClearReceived,
            I2cStep::StartRx,
        ] + resumed((len - 1) as nat) + seq![I2cStep::ShortStop, I2cStep::Resume, I2cStep::Receive]
    }
}

/// The steps that send `data`, byte by byte.
pub open spec fn transmit_steps(data: Seq<u8>) -> Seq<I2cStep> {
    seq![I2cStep::StartTx] + Seq::new(data.len(), |i: int| I2cStep::Transmit(data[i]))
}

/// The steps that select the device at `address`.
pub open spec fn start_steps(address: u8) -> Seq<I2cStep> {
    seq![I2cStep::ShortsOff, I2cStep::Address(address)]
}

fn receive(steps: &mut Vec<I2cStep>, len: usize)
    ensures
        final(steps)@ == old(steps)@ + receive_steps(len as nat),
{
    // Split the transaction into the bulk of the read and the last byte to be read
    if len > 0 {
        if len > 1 {
            steps.push(I2cStep::ShortSuspend);
        } else {
            steps.push(I2cStep::ShortStop);
        }
        steps.push(I2cStep::ClearReceived);
        steps.push(I2cStep::StartRx);
        let ghost started = steps@;
        let mut received: usize = 0;
        assert(steps@ =~= started + resumed(0));
        while received < len - 1
            invariant
                received <= len - 1,
                steps@ == started + resumed(received as nat),
            decreases len - 1 - received,
        {
            steps.push(I2cStep::Resume);
            steps.push(I2cStep::Receive);
            received += 1;
            assert(steps@ =~= started + resumed(received as nat));
        }
        steps.push(I2cStep::ShortStop);
        steps.push(I2cStep::Resume);
        steps.push(I2cStep::Receive);
    } else {
        steps.push(I2cStep::Stop);
    }
    assert(steps@ =~= old(steps)@ + receive_steps(len as nat));
}

fn transmit(steps: &mut Vec<I2cStep>, data: &[u8])
    ensures
        final(steps)@ == old(steps)@ + transmit_steps(data@),
{
    // Start the transaction
    steps.push(I2cStep::StartTx);
    let ghost started = steps@;
    let mut i: usize = 0;
    while i < data.len()
        invariant
            i <= data@.len(),
            steps@ =~= started + Seq::new(i as nat, |k: int| I2cStep::Transmit(data@[k])),
        decreases data@.len() - i,
    {
        steps.push(I2cStep::Transmit(data[i]));
        i += 1;
    }
    assert(steps@ =~= old(steps)@ + transmit_steps(data@));
}

/// The steps that read `len` bytes from the device at `address`.
pub fn read(address: u8, len: usize) -> (steps: Vec<I2cStep>)
    ensures
        steps@ == start_steps(address) + receive_steps(len as nat),
{
    let mut steps: Vec<I2cStep> = Vec::new();
    steps.push(I2cStep::ShortsOff);
    steps.push(I2cStep::Address(address));
    assert(steps@ =~= start_steps(address));
    receive(&mut steps, len);
    steps
}

/// The steps that write `data` to the device at `address`.
pub fn write(address: u8, data: &[u8]) -> (steps: Vec<I2cStep>)
    ensures
        steps@ == start_steps(address) + transmit_steps(data@) + seq![I2cStep::Stop],
{
    let mut steps: Vec<I2cStep> = Vec::new();
    steps.push(I2cStep::ShortsOff);
    steps.push(I2cStep::Address(address));
    assert(steps@ =~= start_steps(address));
    transmit(&mut steps, data);
    steps.push(I2cStep::Stop);
    steps
}

/// The steps that write `tx_buffer` to the device at `address` and then
/// read `rx_len` bytes from it, in one transaction.
pub fn write_then_read(address: u8, tx_buffer: &[u8], rx_len: usize) -> (steps: Vec<I2cStep>)
    ensures
        steps@ == start_steps(address) + transmit_steps(tx_buffer@) + receive_steps(rx_len as nat),
{
    let mut steps: Vec<I2cStep> = Vec::new();
    steps.push(I2cStep::ShortsOff);
    steps.push(I2cStep::Address(address));
    assert(steps@ =~= start_steps(address));
    // Send out all tx buffer contents
    transmit(&mut steps, tx_buffer);
    receive(&mut steps, rx_len);
    steps
}

} // verus!
