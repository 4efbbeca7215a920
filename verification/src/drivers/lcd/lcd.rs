//! Transport to the display: chip select, data/command line, SPI payloads.

use vstd::prelude::*;
use vstd::slice::{slice_subrange, slice_to_vec};
use crate::config;
use crate::drivers::lcd::st7789::Command;
use crate::drivers::lcd::staging;
use crate::mcu::gpio::{pin_setup, set_pin_state, PinDirection, PinPull, PinState};
use crate::mcu::spi::{high_byte, low_byte, solid};
use crate::mcu::timer::delay;
use crate::mcu::{record, Action, ActionView, Fault};

verus! {

/// The level of backlight line `line` (0 to 2) for brightness `backlight`.
/// The lines are active low: a set bit drives its line low.
pub open spec fn backlight_line(backlight: u8, line: u8) -> PinState {
    if backlight & (1u8 << line) == 0 {
        PinState::PinHigh
    } else {
        PinState::PinLow
    }
}

pub open spec fn set_backlight_actions(backlight: u8) -> Seq<ActionView> {
    seq![
        ActionView::SetPin { pin: config::LCD_BACKLIGHT_LOW, state: backlight_line(backlight, 0) },
        ActionView::SetPin { pin: config::LCD_BACKLIGHT_MID, state: backlight_line(backlight, 1) },
        ActionView::SetPin { pin: config::LCD_BACKLIGHT_HIGH, state: backlight_line(backlight, 2) },
    ]
}

fn line_state(backlight: u8, line: u8) -> (state: PinState)
    requires
        line < 8,
    ensures
        state == backlight_line(backlight, line),
{
    if backlight & (1u8 << line) == 0 {
        PinState::PinHigh
    } else {
        PinState::PinLow
    }
}

/// Sets the three backlight lines from the low three bits of `backlight`.
pub fn set_backlight(hw: &mut Vec<Action>, backlight: u8)
    ensures
        final(hw).deep_view() == old(hw).deep_view() + set_backlight_actions(backlight),
{
    set_pin_state(hw, config::LCD_BACKLIGHT_LOW, line_state(backlight, 0));
    set_pin_state(hw, config::LCD_BACKLIGHT_MID, line_state(backlight, 1));
    set_pin_state(hw, config::LCD_BACKLIGHT_HIGH, line_state(backlight, 2));
    assert(hw.deep_view() =~= old(hw).deep_view() + set_backlight_actions(backlight));
}

pub open spec fn write_command_actions(command: Command) -> Seq<ActionView> {
    seq![
        ActionView::SetPin { pin: config::LCD_CS_PIN, state: PinState::PinLow },
        ActionView::SetPin { pin: config::LCD_DCX_PIN, state: PinState::PinLow },
        ActionView::SpiWrite { bytes: seq![command.spec_code()], fault: Fault::SpiCommand },
        ActionView::SetPin { pin: config::LCD_DCX_PIN, state: PinState::PinHigh },
        ActionView::SetPin { pin: config::LCD_CS_PIN, state: PinState::PinHigh },
    ]
}

/// Sends one command byte: chip selected, data/command line low for the
/// byte, then both lines released.
pub fn write_command(hw: &mut Vec<Action>, command: Command)
    ensures
        final(hw).deep_view() == old(hw).deep_view() + write_command_actions(command),
{
    set_pin_state(hw, config::LCD_CS_PIN, PinState::PinLow);
    set_pin_state(hw, config::LCD_DCX_PIN, PinState::PinLow);
    let mut bytes: Vec<u8> = Vec::new();
    bytes.push(command.code());
    assert(bytes@ =~= seq![command.spec_code()]);
    record(hw, Action::SpiWrite { bytes, fault: Fault::SpiCommand });
    set_pin_state(hw, config::LCD_DCX_PIN, PinState::PinHigh);
    set_pin_state(hw, config::LCD_CS_PIN, PinState::PinHigh);
    assert(hw.deep_view() =~= old(hw).deep_view() + write_command_actions(command));
}

pub open spec fn write_data_actions(data: Seq<u8>) -> Seq<ActionView> {
    seq![
        ActionView::SetPin { pin: config::LCD_CS_PIN, state: PinState::PinLow },
        ActionView::SetPin { pin: config::LCD_DCX_PIN, state: PinState::PinHigh },
        ActionView::SpiWrite { bytes: data, fault: Fault::SpiData },
        ActionView::SetPin { pin: config::LCD_CS_PIN, state: PinState::PinHigh },
    ]
}

/// Sends parameter or pixel bytes: chip selected, data/command line high.
pub fn write_data(hw: &mut Vec<Action>, data: &[u8])
    ensures
        final(hw).deep_view() == old(hw).deep_view() + write_data_actions(data@),
{
    set_pin_state(hw, config::LCD_CS_PIN, PinState::PinLow);
    set_pin_state(hw, config::LCD_DCX_PIN, PinState::PinHigh);
    record(hw, Action::SpiWrite { bytes: slice_to_vec(data), fault: Fault::SpiData });
    set_pin_state(hw, config::LCD_CS_PIN, PinState::PinHigh);
    assert(hw.deep_view() =~= old(hw).deep_view() + write_data_actions(data@));
}

pub open spec fn reset_pin(state: PinState) -> Seq<ActionView> {
    seq![ActionView::SetPin { pin: config::LCD_RESET_PIN, state }]
}

pub open spec fn pause(milliseconds: u32) -> Seq<ActionView> {
    seq![ActionView::Delay { milliseconds }]
}

/// A command followed by its parameter bytes.
pub open spec fn setting(command: Command, parameters: Seq<u8>) -> Seq<ActionView> {
    write_command_actions(command) + write_data_actions(parameters)
}

fn write_setting(hw: &mut Vec<Action>, command: Command, parameters: &[u8])
    ensures
        final(hw).deep_view() == old(hw).deep_view() + setting(command, parameters@),
{
    write_command(hw, command);
    write_data(hw, parameters);
    assert(hw.deep_view() =~= old(hw).deep_view() + setting(command, parameters@));
}

/// Hardware reset pulse, software reset, sleep out, normal mode.
pub open spec fn wake_actions() -> Seq<ActionView> {
    reset_pin(PinState::PinHigh) + pause(5) + reset_pin(PinState::PinLow) + pause(20) + reset_pin(
        PinState::PinHigh,
    ) + pause(150) + write_command_actions(Command::SwReset) + pause(150) + write_command_actions(
        Command::SleepOut,
    ) + pause(150) + write_command_actions(Command::NormalMode)
}

fn wake(hw: &mut Vec<Action>)
    ensures
        final(hw).deep_view() == old(hw).deep_view() + wake_actions(),
{
    // Enter safe reset sequence
    set_pin_state(hw, config::LCD_RESET_PIN, PinState::PinHigh);
    delay(hw, 5);
    set_pin_state(hw, config::LCD_RESET_PIN, PinState::PinLow);
    delay(hw, 20);
    set_pin_state(hw, config::LCD_RESET_PIN, PinState::PinHigh);
    delay(hw, 150);
    // Also initiate a software reset
    write_command(hw, Command::SwReset);
    delay(hw, 150);
    // Exit sleep
    write_command(hw, Command::SleepOut);
    delay(hw, 150);
    write_command(hw, Command::NormalMode);
    assert(hw.deep_view() =~= old(hw).deep_view() + wake_actions());
}

/// Memory layout (RGB, left to right, top to bottom), 5-6-5 pixels, porch
/// and gate timing.
pub open spec fn format_actions() -> Seq<ActionView> {
    setting(Command::MemoryDataAccessControl, [0x08u8]@) + setting(
        Command::InterfacePixelFormat,
        [0x55u8]@,
    ) + pause(10) + setting(Command::PorchSetting, [0x0cu8, 0x0c, 0x00, 0x33, 0x33]@) + setting(
        Command::GateControl,
        [0x35u8]@,
    ) + setting(Command::GateOnTimingAdjustment, [0x28u8]@)
}

fn format(hw: &mut Vec<Action>)
    ensures
        final(hw).deep_view() == old(hw).deep_view() + format_actions(),
{
    write_setting(hw, Command::MemoryDataAccessControl, &[0x08]);
    write_setting(hw, Command::InterfacePixelFormat, &[0x55]);
    delay(hw, 10);
    write_setting(hw, Command::PorchSetting, &[0x0c, 0x0c, 0x00, 0x33, 0x33]);
    write_setting(hw, Command::GateControl, &[0x35]);
    write_setting(hw, Command::GateOnTimingAdjustment, &[0x28]);
    assert(hw.deep_view() =~= old(hw).deep_view() + format_actions());
}

/// Panel drive voltages and frame rate.
pub open spec fn power_actions() -> Seq<ActionView> {
    setting(Command::LcmControl, [0x0Cu8]@) + setting(
        Command::VdvVrhCmdEnable,
        [0x01u8, 0xFF]@,
    ) + setting(Command::VrhSet, [0x01u8]@) + setting(Command::VdvSet, [0x20u8]@) + setting(
        Command::FrameRateControl2,
        [0x0Fu8]@,
    ) + setting(Command::PowerControl1, [0xA4u8, 0xA1]@)
}

fn power(hw: &mut Vec<Action>)
    ensures
        final(hw).deep_view() == old(hw).deep_view() + power_actions(),
{
    write_setting(hw, Command::LcmControl, &[0x0C]);
    write_setting(hw, Command::VdvVrhCmdEnable, &[0x01, 0xFF]);
    write_setting(hw, Command::VrhSet, &[0x01]);
    write_setting(hw, Command::VdvSet, &[0x20]);
    write_setting(hw, Command::FrameRateControl2, &[0x0F]);
    write_setting(hw, Command::PowerControl1, &[0xA4, 0xA1]);
    assert(hw.deep_view() =~= old(hw).deep_view() + power_actions());
}

/// Gamma curves, inversion, brightness, then display on.
pub open spec fn tone_actions() -> Seq<ActionView> {
    setting(
        Command::PositiveVoltageGammaControl,
        [0xd0u8, 0x00, 0x02, 0x07, 0x0a, 0x28, 0x32, 0x44, 0x42, 0x06, 0x0e, 0x12, 0x14, 0x17]@,
    ) + setting(
        Command::NegativeVoltageGammaControl,
        [0xd0u8, 0x00, 0x02, 0x07, 0x0a, 0x28, 0x31, 0x54, 0x47, 0x0e, 0x1c, 0x17, 0x1b, 0x1e]@,
    ) + write_command_actions(Command::DisplayInversionOn) + setting(
        Command::DisplayBrightness,
        [0x7Fu8]@,
    ) + setting(Command::Gamma, [0x04u8]@) + seq![
        ActionView::SetPin { pin: config::LCD_CS_PIN, state: PinState::PinHigh },
    ] + pause(120) + write_command_actions(Command::DisplayOn) + pause(120)
}

fn tone(hw: &mut Vec<Action>)
    ensures
        final(hw).deep_view() == old(hw).deep_view() + tone_actions(),
{
    write_setting(
        hw,
        Command::PositiveVoltageGammaControl,
        &[0xd0, 0x00, 0x02, 0x07, 0x0a, 0x28, 0x32, 0x44, 0x42, 0x06, 0x0e, 0x12, 0x14, 0x17],
    );
    write_setting(
        hw,
        Command::NegativeVoltageGammaControl,
        &[0xd0, 0x00, 0x02, 0x07, 0x0a, 0x28, 0x31, 0x54, 0x47, 0x0e, 0x1c, 0x17, 0x1b, 0x1e],
    );
    write_command(hw, Command::DisplayInversionOn);
    // Initial 25% brightness
    write_setting(hw, Command::DisplayBrightness, &[0x7F]);
    write_setting(hw, Command::Gamma, &[0x04]);
    // Explicitly end this bulk write
    set_pin_state(hw, config::LCD_CS_PIN, PinState::PinHigh);
    delay(hw, 120);
    write_command(hw, Command::DisplayOn);
    delay(hw, 120);
    assert(hw.deep_view() =~= old(hw).deep_view() + tone_actions());
}

/// The controller's power-up sequence.
pub open spec fn configure_actions() -> Seq<ActionView> {
    wake_actions() + format_actions() + power_actions() + tone_actions()
}

fn configure(hw: &mut Vec<Action>)
    ensures
        final(hw).deep_view() == old(hw).deep_view() + configure_actions(),
{
    wake(hw);
    format(hw);
    power(hw);
    tone(hw);
    assert(hw.deep_view() =~= old(hw).deep_view() + configure_actions());
}

/// Appends one transfer to a list of transfers.
fn push_chunk(chunks: &mut Vec<Vec<u8>>, chunk: Vec<u8>)
    ensures
        final(chunks).deep_view() == old(chunks).deep_view().push(chunk@),
        final(chunks)@.len() == old(chunks)@.len() + 1,
{
    assert(chunk.deep_view() =~= chunk@);
    chunks.push(chunk);
    assert(chunks.deep_view() =~= old(chunks).deep_view().push(chunk@));
}

/// Bytes sent in one DMA transfer of [`write_block`].
pub const BLOCK_TRANSFER_SIZE: usize = 255;

/// Pixels sent in one DMA transfer of [`write_block_solid`].
pub const SOLID_TRANSFER_PIXELS: u32 = 127;

/// `data` cut into consecutive transfers of [`BLOCK_TRANSFER_SIZE`] bytes;
/// the last one holds what is left.
pub open spec fn blocks(data: Seq<u8>) -> Seq<Seq<u8>> {
    Seq::new(
        ((data.len() + 254) / 255) as nat,
        |i: int| data.subrange(i * 255, if (i + 1) * 255 <= data.len() {
            (i + 1) * 255
        } else {
            data.len() as int
        }),
    )
}

pub open spec fn write_block_actions(data: Seq<u8>) -> Seq<ActionView> {
    seq![
        ActionView::SetPin { pin: config::LCD_CS_PIN, state: PinState::PinLow },
        ActionView::SetPin { pin: config::LCD_DCX_PIN, state: PinState::PinHigh },
        ActionView::SpimBlock { chunks: blocks(data), stop_on_fault: true, fault: Fault::SpimBlock },
        ActionView::SetPin { pin: config::LCD_CS_PIN, state: PinState::PinHigh },
    ]
}

/// Sends `data` as pixel bytes by DMA, at most [`BLOCK_TRANSFER_SIZE`]
/// bytes per transfer, each staged in the fixed-capacity buffer first.
/// The transfers stop at the first one that fails.
pub fn write_block(hw: &mut Vec<Action>, data: &[u8])
    ensures
        final(hw).deep_view() == old(hw).deep_view() + write_block_actions(data@),
{
    set_pin_state(hw, config::LCD_CS_PIN, PinState::PinLow);
    set_pin_state(hw, config::LCD_DCX_PIN, PinState::PinHigh);

    let mut bytes_remaining: usize = data.len();
    let mut current_index: usize = 0;
    let mut v = staging::new_buffer();
    let mut chunks: Vec<Vec<u8>> = Vec::new();

    while bytes_remaining > 0
        invariant
            data@.len() <= usize::MAX,
            current_index + bytes_remaining == data@.len(),
            current_index == 255 * chunks@.len() || (bytes_remaining == 0 && 255 * chunks@.len()
                > current_index > 255 * (chunks@.len() - 1)),
            chunks.deep_view() =~= blocks(data@).take(chunks@.len() as int),
            chunks@.len() <= blocks(data@).len(),
        decreases bytes_remaining,
    {
        staging::clear(&mut v);
        let bytes_this_transfer: usize = if bytes_remaining > 0xFF {
            0xFF
        } else {
            bytes_remaining
        };
        let fit = staging::extend_from_slice(
            &mut v,
            slice_subrange(data, current_index, current_index + bytes_this_transfer),
        );
        assert(fit is Ok);
        let chunk = slice_to_vec(slice_subrange(staging::as_slice(&v), 0, bytes_this_transfer));
        assert(chunk@ =~= blocks(data@)[chunks@.len() as int]);
        push_chunk(&mut chunks, chunk);

        current_index += bytes_this_transfer;
        bytes_remaining -= bytes_this_transfer;
    }
    assert(chunks.deep_view() =~= blocks(data@));

    record(hw, Action::SpimBlock { chunks, stop_on_fault: true, fault: Fault::SpimBlock });
    set_pin_state(hw, config::LCD_CS_PIN, PinState::PinHigh);
    assert(hw.deep_view() =~= old(hw).deep_view() + write_block_actions(data@));
}

/// `len` pixels of one colour cut into transfers of
/// [`SOLID_TRANSFER_PIXELS`] pixels; the last one holds what is left.
pub open spec fn solid_blocks(color: u16, len: u32) -> Seq<Seq<u8>> {
    Seq::new(
        ((len + 126) / 127) as nat,
        |i: int| solid(color, if (i + 1) * 127 <= len {
            127
        } else {
            len - i * 127
        }),
    )
}

pub open spec fn write_block_solid_actions(color: u16, len: u32) -> Seq<ActionView> {
    seq![
        ActionView::SetPin { pin: config::LCD_CS_PIN, state: PinState::PinLow },
        ActionView::SetPin { pin: config::LCD_DCX_PIN, state: PinState::PinHigh },
        ActionView::SpimBlock {
            chunks: solid_blocks(color, len),
            stop_on_fault: false,
            fault: Fault::SpimSolid,
        },
        ActionView::SetPin { pin: config::LCD_CS_PIN, state: PinState::PinHigh },
    ]
}

/// Sends `len` pixels of `color` by DMA, at most
/// [`SOLID_TRANSFER_PIXELS`] pixels per transfer, all cut from one staged
/// block. A failed transfer does not stop the ones after it.
pub fn write_block_solid(hw: &mut Vec<Action>, color: u16, len: u32)
    ensures
        final(hw).deep_view() == old(hw).deep_view() + write_block_solid_actions(color, len),
{
    set_pin_state(hw, config::LCD_CS_PIN, PinState::PinLow);
    set_pin_state(hw, config::LCD_DCX_PIN, PinState::PinHigh);

    let low: u8 = (color % 256) as u8;
    let high: u8 = (color / 256) as u8;
    let mut block: Vec<u8> = Vec::new();
    while block.len() < 254
        invariant
            block@.len() <= 254,
            block@.len() % 2 == 0,
            low == low_byte(color),
            high == high_byte(color),
            block@ =~= solid(color, block@.len() as int / 2),
        decreases 254 - block@.len(),
    {
        block.push(low);
        block.push(high);
    }
    let mut v = staging::new_buffer();
    let fit = staging::extend_from_slice(&mut v, block.as_slice());
    assert(fit is Ok);
    assert(staged_block(v, color));

    let mut remaining: u32 = len;
    let mut chunks: Vec<Vec<u8>> = Vec::new();
    while remaining > 0
        invariant
            staged_block(v, color),
            remaining <= len,
            len - remaining == 127 * chunks@.len() || (remaining == 0 && 127 * chunks@.len() > len
                > 127 * (chunks@.len() - 1)),
            chunks.deep_view() =~= solid_blocks(color, len).take(chunks@.len() as int),
            chunks@.len() <= solid_blocks(color, len).len(),
        decreases remaining,
    {
        if remaining > 127 {
            let chunk = slice_to_vec(staging::as_slice(&v));
            assert(chunk@ =~= solid_blocks(color, len)[chunks@.len() as int]);
            push_chunk(&mut chunks, chunk);
            remaining -= 127;
        } else {
            let end: usize = (remaining * 2) as usize;
            let chunk = slice_to_vec(slice_subrange(staging::as_slice(&v), 0, end));
            assert(chunk@ =~= solid_blocks(color, len)[chunks@.len() as int]);
            push_chunk(&mut chunks, chunk);
            remaining = 0;
        }
    }
    assert(chunks.deep_view() =~= solid_blocks(color, len));

    record(hw, Action::SpimBlock { chunks, stop_on_fault: false, fault: Fault::SpimSolid });
    set_pin_state(hw, config::LCD_CS_PIN, PinState::PinHigh);
    assert(hw.deep_view() =~= old(hw).deep_view() + write_block_solid_actions(color, len));
}

/// The staging buffer holds one full transfer of `color`.
spec fn staged_block(buffer: heapless::Vec<u8, 255>, color: u16) -> bool {
    staging::staged(buffer) =~= solid(color, 127)
}

/// The setup of `pin` as an output that drives `state`.
pub open spec fn output_pin(pin: u8, state: PinState, pull: PinPull) -> ActionView {
    ActionView::PinSetup { pin, dir: PinDirection::Output, state, pull }
}

/// Chip select and data/command released, reset asserted.
pub open spec fn control_pins_actions() -> Seq<ActionView> {
    seq![
        output_pin(config::LCD_CS_PIN, PinState::PinHigh, PinPull::PullDisabled),
        output_pin(config::LCD_DCX_PIN, PinState::PinHigh, PinPull::PullDisabled),
        output_pin(config::LCD_RESET_PIN, PinState::PinLow, PinPull::PullUp),
    ]
}

fn control_pins(hw: &mut Vec<Action>)
    ensures
        final(hw).deep_view() == old(hw).deep_view() + control_pins_actions(),
{
    pin_setup(hw, config::LCD_CS_PIN, PinDirection::Output, PinState::PinHigh, PinPull::PullDisabled);
    pin_setup(hw, config::LCD_DCX_PIN, PinDirection::Output, PinState::PinHigh, PinPull::PullDisabled);
    pin_setup(hw, config::LCD_RESET_PIN, PinDirection::Output, PinState::PinLow, PinPull::PullUp);
    assert(hw.deep_view() =~= old(hw).deep_view() + control_pins_actions());
}

/// The three backlight lines as outputs, then brightness 0.
pub open spec fn backlight_pins_actions() -> Seq<ActionView> {
    seq![
        output_pin(config::LCD_BACKLIGHT_LOW, PinState::PinHigh, PinPull::PullDisabled),
        output_pin(config::LCD_BACKLIGHT_MID, PinState::PinHigh, PinPull::PullDisabled),
        output_pin(config::LCD_BACKLIGHT_HIGH, PinState::PinHigh, PinPull::PullDisabled),
    ] + set_backlight_actions(0)
}

fn backlight_pins(hw: &mut Vec<Action>)
    ensures
        final(hw).deep_view() == old(hw).deep_view() + backlight_pins_actions(),
{
    pin_setup(hw, config::LCD_BACKLIGHT_LOW, PinDirection::Output, PinState::PinHigh, PinPull::PullDisabled);
    pin_setup(hw, config::LCD_BACKLIGHT_MID, PinDirection::Output, PinState::PinHigh, PinPull::PullDisabled);
    pin_setup(hw, config::LCD_BACKLIGHT_HIGH, PinDirection::Output, PinState::PinHigh, PinPull::PullDisabled);
    set_backlight(hw, 0);
    assert(hw.deep_view() =~= old(hw).deep_view() + backlight_pins_actions());
}

pub open spec fn init_actions() -> Seq<ActionView> {
    control_pins_actions() + configure_actions() + backlight_pins_actions()
}

/// Sets up the control pins, runs the controller's power-up sequence and
/// leaves the backlight off.
pub fn init(hw: &mut Vec<Action>)
    ensures
        final(hw).deep_view() == old(hw).deep_view() + init_actions(),
{
    control_pins(hw);
    configure(hw);
    backlight_pins(hw);
    assert(hw.deep_view() =~= old(hw).deep_view() + init_actions());
}

/// Whether `actions` only drive pins and send bytes over the byte-wise
/// bus, as commands, parameters and single pixels do.
pub open spec fn only_draws(actions: Seq<ActionView>) -> bool {
    forall|i: int|
        0 <= i < actions.len() ==> (#[trigger] actions[i]) is SetPin || actions[i] is SpiWrite
}

/// What only draws and what only draws, one after the other, only draw.
pub proof fn lemma_only_draws_concat(first: Seq<ActionView>, second: Seq<ActionView>)
    requires
        only_draws(first),
        only_draws(second),
    ensures
        only_draws(first + second),
{
    assert forall|i: int| 0 <= i < (first + second).len() implies (#[trigger] (first + second)[i])
        is SetPin || (first + second)[i] is SpiWrite by {
        if i < first.len() {
            assert((first + second)[i] == first[i]);
        } else {
            assert((first + second)[i] == second[i - first.len()]);
        }
    }
}

/// A command and its parameters only draw.
pub proof fn lemma_transfers_only_draw(command: Command, data: Seq<u8>)
    ensures
        only_draws(write_command_actions(command)),
        only_draws(write_data_actions(data)),
{
}

} // verus!
