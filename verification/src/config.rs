//! Board wiring: pin numbers, bus addresses and DMA windows.

use vstd::prelude::*;

verus! {

// Battery
pub const ADC_RAM_BUFFER_LEN: usize = 8;

pub const BATTERY_ADC_CHANNEL: u8 = 7;

pub const BATTERY_ADC_PIN: u8 = 31;

pub const CHARGER_CONNECTED_PIN: u8 = 12;

// I2C
pub const I2C_SCL_PIN: u8 = 7;

pub const I2C_SDA_PIN: u8 = 6;

// LCD
pub const LCD_BACKLIGHT_LOW: u8 = 14;

pub const LCD_BACKLIGHT_MID: u8 = 22;

pub const LCD_BACKLIGHT_HIGH: u8 = 23;

pub const LCD_CS_PIN: u8 = 25;

pub const LCD_DCX_PIN: u8 = 18;

pub const LCD_RESET_PIN: u8 = 26;

// Push button
pub const PUSH_BUTTON_IN_PIN: u8 = 13;

pub const PUSH_BUTTON_OUT_PIN: u8 = 15;

// SPI and SPIM
pub const SPI_MOSI_PIN: u8 = 3;

pub const SPI_MISO_PIN: u8 = 4;

pub const SPI_SCLK_PIN: u8 = 2;

pub const SPIM_DMA_MAX: u32 = 0x20010000;

pub const SPIM_DMA_MIN: u32 = 0x20000000;

pub const SPIM_DMA_RX_PTR: u32 = 0x2000FE00;

pub const SPIM_DMA_TX_PTR_A: u32 = 0x2000FD00;

pub const SPIM_DMA_TX_PTR_B: u32 = 0x2000FC00;

pub const SPIM_DMA_SIZE: u32 = 256;

// Touch sensor
pub const TOUCH_I2C_ADDRESS: u8 = 0x15;

pub const TOUCH_INT_PIN: u8 = 28;

pub const TOUCH_RESET_PIN: u8 = 10;

} // verus!
