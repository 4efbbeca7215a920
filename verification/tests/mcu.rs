use watch_core::app::info::{DeviceInfo, DeviceInfoGuard};
use watch_core::drivers::log::Log;
use watch_core::mcu;
use watch_core::mcu::adc;
use watch_core::mcu::gpio::{
    get_pin_state, pin_disable, pin_setup, set_pin_state, PinDirection, PinPull, PinState,
};
use watch_core::mcu::i2c;
use watch_core::mcu::i2c::{I2cError, I2cStep};
use watch_core::mcu::input::{gpiote, init_pin, Callback, Input, PinConfig, Polarity};
use watch_core::mcu::rtc;
use watch_core::mcu::rtc::{Rtc, WakeInterval};
use watch_core::mcu::spi;
use watch_core::mcu::spi::SpiStep;
use watch_core::mcu::spim;
use watch_core::mcu::spim::{Spim, SpimError};
use watch_core::mcu::timer;
use watch_core::mcu::timer::Timer;
use watch_core::mcu::{record, Action, Fault, McuState};

#[test]
fn pin_state_reads_the_bit_of_the_pin() {
    assert_eq!(get_pin_state(0b1000, 3), PinState::PinHigh);
    assert_eq!(get_pin_state(0b1000, 2), PinState::PinLow);
    assert_eq!(get_pin_state(0x8000_0000, 31), PinState::PinHigh);
    assert_eq!(get_pin_state(0x7FFF_FFFF, 31), PinState::PinLow);
    assert_eq!(get_pin_state(1, 0), PinState::PinHigh);
    assert_eq!(get_pin_state(0, 0), PinState::PinLow);
}

#[test]
fn pin_operations_are_recorded_in_order() {
    let mut hw = Vec::new();
    pin_setup(&mut hw, 7, PinDirection::Input, PinState::PinHigh, PinPull::PullDown);
    set_pin_state(&mut hw, 25, PinState::PinLow);
    pin_disable(&mut hw, 3);
    record(&mut hw, Action::Restart);
    assert_eq!(
        hw,
        vec![
            Action::PinSetup {
                pin: 7,
                dir: PinDirection::Input,
                state: PinState::PinHigh,
                pull: PinPull::PullDown
            },
            Action::SetPin { pin: 25, state: PinState::PinLow },
            Action::PinDisable { pin: 3 },
            Action::Restart,
        ]
    );
}

#[test]
fn a_restart_is_a_request() {
    let mut hw = vec![Action::Delay { milliseconds: 1 }];
    mcu::restart(&mut hw);
    assert_eq!(hw, vec![Action::Delay { milliseconds: 1 }, Action::Restart]);
}

#[test]
fn only_a_running_timer_keeps_the_microcontroller_busy() {
    let mut timer = Timer::new();
    assert_eq!(mcu::get_busy(&timer), McuState::Idle);
    timer::start(&mut timer);
    assert_eq!(mcu::get_busy(&timer), McuState::TimerBusy);
    timer::stop(&mut timer);
    assert_eq!(mcu::get_busy(&timer), McuState::Idle);
    assert!(!adc::get_busy());
    assert!(!spi::get_busy());
}

#[test]
fn the_turn_of_the_microcontroller_drains_the_queue() {
    let mut input = Input::new();
    let mut hw = Vec::new();
    let config = PinConfig {
        pin: 12,
        polarity: Polarity::LoToHi,
        pull: PinPull::PullDown,
        callback: Callback::Connect,
        real_time_callback: false,
    };
    init_pin(&mut input, &mut hw, config).unwrap();
    let mut events_in = [9u32, 0, 0, 0, 0, 0, 0, 0];
    gpiote(&mut input, &mut events_in);
    let mut guard = DeviceInfoGuard::new();
    let d = DeviceInfo::take(&mut guard).unwrap();
    assert_eq!(mcu::task_handler(&mut input, &d), vec![Callback::Connect]);
    assert_eq!(mcu::task_handler(&mut input, &d), vec![]);
}

#[test]
fn wake_intervals_in_ticks() {
    assert_eq!(WakeInterval::Interval125MS.ticks(), 512);
    assert_eq!(WakeInterval::Interval250MS.ticks(), 1024);
    assert_eq!(WakeInterval::Interval500MS.ticks(), 2048);
    assert_eq!(WakeInterval::Interval1S.ticks(), 4096);
}

#[test]
fn the_counter_is_enabled_once() {
    let mut rtc = Rtc::new();
    assert_eq!(rtc, Rtc { initialized: false, wake_interval: 0, fraction: 0, seconds: 0 });
    let mut hw = Vec::new();
    rtc::init(&mut rtc, &mut hw, WakeInterval::Interval250MS);
    assert_eq!(rtc, Rtc { initialized: true, wake_interval: 1024, fraction: 0, seconds: 0 });
    assert_eq!(hw, vec![Action::RtcStart { wake_interval: 1024 }]);
    rtc.seconds = 5;
    rtc::init(&mut rtc, &mut hw, WakeInterval::Interval1S);
    assert_eq!(rtc, Rtc { initialized: true, wake_interval: 1024, fraction: 0, seconds: 5 });
    assert_eq!(hw.len(), 1);
}

#[test]
fn four_quarter_second_intervals_make_a_second() {
    let mut rtc = Rtc { initialized: true, wake_interval: 1024, fraction: 0, seconds: 0 };
    rtc::rtc0(&mut rtc, true);
    assert_eq!((rtc.seconds, rtc.fraction), (0, 1024));
    rtc::rtc0(&mut rtc, false);
    assert_eq!((rtc.seconds, rtc.fraction), (0, 1024));
    rtc::rtc0(&mut rtc, true);
    rtc::rtc0(&mut rtc, true);
    assert_eq!((rtc.seconds, rtc.fraction), (0, 3072));
    assert_eq!(rtc::get_timestamp_fraction(&rtc), 3072);
    rtc::rtc0(&mut rtc, true);
    assert_eq!((rtc.seconds, rtc.fraction), (1, 0));
    assert_eq!(rtc::get_timestamp(&rtc), 1);

    let mut rtc = Rtc { initialized: true, wake_interval: 4096, fraction: 0, seconds: 41 };
    rtc::rtc0(&mut rtc, true);
    assert_eq!((rtc.seconds, rtc.fraction), (42, 0));
}

#[test]
fn elapsed_time_is_never_negative() {
    let rtc = Rtc { initialized: true, wake_interval: 1024, fraction: 0, seconds: 100 };
    assert_eq!(rtc::get_timediff(&rtc, 0), 100);
    assert_eq!(rtc::get_timediff(&rtc, 99), 1);
    assert_eq!(rtc::get_timediff(&rtc, 100), 0);
    assert_eq!(rtc::get_timediff(&rtc, 101), 0);
}

#[test]
fn the_timer_counts_ten_milliseconds_an_event() {
    let mut timer = Timer::new();
    assert!(!timer::get_busy(&timer));
    let target = timer::delay_target(&timer, 25);
    assert_eq!(target, 25);
    timer::start(&mut timer);
    assert!(timer::get_busy(&timer));
    let mut events = 0;
    while timer::delay_pending(&timer, target) {
        timer::timer0(&mut timer, false);
        timer::timer0(&mut timer, true);
        events += 1;
    }
    assert_eq!(events, 3);
    assert_eq!(timer.count, 30);
    timer::stop(&mut timer);
    assert_eq!(timer, Timer { count: 0, running: false });
    let mut hw = Vec::new();
    timer::delay(&mut hw, 2000);
    assert_eq!(hw, vec![Action::Delay { milliseconds: 2000 }]);
}

#[test]
fn an_adc_reading_is_the_mean_of_its_samples() {
    assert_eq!(adc::read_adc(&[0; 8]), 0);
    assert_eq!(adc::read_adc(&[8, 0, 0, 0, 0, 0, 0, 0]), 1);
    assert_eq!(adc::read_adc(&[1, 2, 3, 4, 5, 6, 7, 7]), 4);
    assert_eq!(adc::read_adc(&[1, 2, 3, 4, 5, 6, 7, 8]), 4);
    assert_eq!(adc::read_adc(&[4095; 8]), 4095);
    assert_eq!(adc::read_adc(&[65535; 8]), 65535);
    assert_eq!(adc::read_adc(&[65535, 65535, 65535, 65535, 65535, 65535, 65535, 65534]), 65534);
}

#[test]
fn bus_errors_are_named_by_the_step_that_failed() {
    assert_eq!(i2c::rx_byte(false, 0x5A), Ok(0x5A));
    assert_eq!(i2c::rx_byte(true, 0x5A), Err(I2cError::RECEIVE));
    assert_eq!(i2c::tx_byte(false), Ok(()));
    assert_eq!(i2c::tx_byte(true), Err(I2cError::TRANSMIT));
    assert_eq!(i2c::send_stop(false), Ok(()));
    assert_eq!(i2c::send_stop(true), Err(I2cError::STOP));
}

#[test]
fn a_dma_transfer_is_judged_by_its_amounts() {
    assert_eq!(spim::write(254, 254, 254), Ok(()));
    assert_eq!(spim::write(253, 254, 254), Err(SpimError::Transmit));
    assert_eq!(spim::write(254, 0, 254), Err(SpimError::Receive));
    assert_eq!(spim::write(0, 0, 254), Err(SpimError::Transmit));
    assert_eq!(spim::write(0, 0, 0), Ok(()));
}

#[test]
fn dma_reaches_only_the_ram_below_the_transfer_windows() {
    assert!(!spim::is_block_valid(0x1FFF_FFFF));
    assert!(spim::is_block_valid(0x2000_0000));
    assert!(spim::is_block_valid(0x2000_FEFF));
    assert!(!spim::is_block_valid(0x2000_FF00));
    assert!(!spim::is_block_valid(0x2001_0000));
    assert!(!spim::is_block_valid(0x0000_1000));
}

#[test]
fn a_block_out_of_reach_is_sent_from_a_transmit_window() {
    let mut spim = Spim::new();
    assert_eq!(spim::make_ram(&mut spim, 0x2000_1000, 100), (0x2000_1000, 100));
    assert!(spim.last_ptr);
    assert_eq!(spim::make_ram(&mut spim, 0x0000_8000, 255), (0x2000_FD00, 255));
    assert!(!spim.last_ptr);
    assert_eq!(spim::make_ram(&mut spim, 0x0000_8000, 7), (0x2000_FC00, 7));
    assert_eq!(spim::get_tx_ptr(&mut spim), 0x2000_FC00);

    let mut spim = Spim::new();
    assert_eq!(spim::get_tx_ptr(&mut spim), 0x2000_FD00);
    assert_eq!(spim::get_tx_ptr(&mut spim), 0x2000_FC00);
}

#[test]
fn faults_have_their_messages() {
    assert_eq!(Fault::SpiCommand.message(), "Spi command failed");
    assert_eq!(Fault::SpiData.message(), "Spi write data failed");
    assert_eq!(Fault::SpimBlock.message(), "Spim write block failed");
    assert_eq!(Fault::SpimSolid.message(), "Spim write solid failed");
}

#[test]
fn a_run_of_one_value_is_cut_into_transfers_of_256_bytes() {
    assert_eq!(spi::write_u16(0xABCD, 0), Vec::<Vec<u8>>::new());
    assert_eq!(spi::write_u16(0xABCD, 1), vec![vec![0xCD, 0xAB]]);
    assert_eq!(spi::write_u16(0xABCD, 128), vec![[0xCD, 0xAB].repeat(128)]);
    assert_eq!(
        spi::write_u16(0x0102, 300),
        vec![[0x02, 0x01].repeat(128), [0x02, 0x01].repeat(128), [0x02, 0x01].repeat(44)]
    );
}

#[test]
fn each_new_second_is_logged_once() {
    let mut log = Log::new();
    let mut last_seconds = 0;
    let rtc = Rtc { initialized: true, wake_interval: 1024, fraction: 0, seconds: 0 };
    rtc::task_handler(&rtc, &mut last_seconds, &mut log);
    assert_eq!(log.lines_active, 0);
    let rtc = Rtc { initialized: true, wake_interval: 1024, fraction: 0, seconds: 7 };
    rtc::task_handler(&rtc, &mut last_seconds, &mut log);
    rtc::task_handler(&rtc, &mut last_seconds, &mut log);
    assert_eq!(last_seconds, 7);
    assert_eq!(log.lines_active, 1);
    assert_eq!(&log.lines[0].line[..14], b"Next second: \0");
}

#[test]
fn a_read_suspends_after_every_byte_but_the_last() {
    assert_eq!(i2c::read(0x15, 0), vec![I2cStep::ShortsOff, I2cStep::Address(0x15), I2cStep::Stop]);
    assert_eq!(
        i2c::read(0x15, 1),
        vec![I2cStep::ShortsOff, I2cStep::Address(0x15), I2cStep::ShortStop, I2cStep::ClearReceived, I2cStep::StartRx, I2cStep::ShortStop, I2cStep::Resume, I2cStep::Receive]
    );
    assert_eq!(
        i2c::read(0x15, 3),
        vec![
            I2cStep::ShortsOff,
            I2cStep::Address(0x15),
            I2cStep::ShortSuspend,
            I2cStep::ClearReceived,
            I2cStep::StartRx,
            I2cStep::Resume,
            I2cStep::Receive,
            I2cStep::Resume,
            I2cStep::Receive,
            I2cStep::ShortStop,
            I2cStep::Resume,
            I2cStep::Receive
        ]
    );
    let steps = i2c::read(0x44, 63);
    assert_eq!(steps.len(), 2 + 3 + 62 * 2 + 3);
    assert_eq!(steps.iter().filter(|s| **s == I2cStep::Receive).count(), 63);
}

#[test]
fn a_write_sends_its_bytes_and_stops() {
    assert_eq!(i2c::write(0x15, &[]), vec![I2cStep::ShortsOff, I2cStep::Address(0x15), I2cStep::StartTx, I2cStep::Stop]);
    assert_eq!(
        i2c::write(0x20, &[7, 8]),
        vec![I2cStep::ShortsOff, I2cStep::Address(0x20), I2cStep::StartTx, I2cStep::Transmit(7), I2cStep::Transmit(8), I2cStep::Stop]
    );
}

#[test]
fn a_write_then_read_is_one_transaction() {
    assert_eq!(
        i2c::write_then_read(0x15, &[0x00], 2),
        vec![
            I2cStep::ShortsOff,
            I2cStep::Address(0x15),
            I2cStep::StartTx,
            I2cStep::Transmit(0x00),
            I2cStep::ShortSuspend,
            I2cStep::ClearReceived,
            I2cStep::StartRx,
            I2cStep::Resume,
            I2cStep::Receive,
            I2cStep::ShortStop,
            I2cStep::Resume,
            I2cStep::Receive
        ]
    );
    assert_eq!(
        i2c::write_then_read(0x15, &[1, 2], 0),
        vec![I2cStep::ShortsOff, I2cStep::Address(0x15), I2cStep::StartTx, I2cStep::Transmit(1), I2cStep::Transmit(2), I2cStep::Stop]
    );
    let mut expected = i2c::write(0x15, &[9]);
    expected.pop();
    expected.extend(i2c::read(0x15, 5)[2..].iter());
    assert_eq!(i2c::write_then_read(0x15, &[9], 5), expected);
}

#[test]
fn an_spi_transfer_uses_the_double_buffer() {
    assert_eq!(spi::write(&[]), vec![SpiStep::Enable, SpiStep::Disable, SpiStep::ClockHigh]);
    assert_eq!(spi::write(&[0x2C]), vec![SpiStep::Enable, SpiStep::Transmit(0x2C), SpiStep::Receive, SpiStep::Disable, SpiStep::ClockHigh]);
    assert_eq!(
        spi::write(&[1, 2]),
        vec![SpiStep::Enable, SpiStep::Transmit(1), SpiStep::Receive, SpiStep::Transmit(2), SpiStep::Receive, SpiStep::Disable, SpiStep::ClockHigh]
    );
    assert_eq!(
        spi::write(&[1, 2, 3, 4]),
        vec![
            SpiStep::Enable,
            SpiStep::Transmit(1),
            SpiStep::Transmit(2),
            SpiStep::Receive,
            SpiStep::Transmit(3),
            SpiStep::Receive,
            SpiStep::Receive,
            SpiStep::Transmit(4),
            SpiStep::Receive,
            SpiStep::Disable,
            SpiStep::ClockHigh
        ]
    );
    // Every byte sent is received.
    let buf: Vec<u8> = (0..100).collect();
    let steps = spi::write(&buf);
    assert_eq!(steps.iter().filter(|s| **s == SpiStep::Receive).count(), 100);
    let sent: Vec<u8> = steps
        .iter()
        .filter_map(|s| match s {
            SpiStep::Transmit(byte) => Some(*byte),
            _ => None,
        })
        .collect();
    assert_eq!(sent, buf);
}
