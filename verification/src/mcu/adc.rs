//! The analog-to-digital converter.

use vstd::prelude::*;
use crate::config;

verus! {

/// Whether a conversion is in flight. Conversions block, so none ever is.
pub fn get_busy() -> (busy: bool)
    ensures
        !busy,
{
    // Will always be a blocking call. Return false
    false
}

/// The sum of the first `count` samples.
pub open spec fn sample_sum(samples: Seq<u16>, count: nat) -> int
    decreases count,
{
    if count == 0 {
        0
    } else {
        sample_sum(samples, (count - 1) as nat) + samples[count - 1]
    }
}

/// The reading of one conversion: the mean of the samples taken,
/// rounded down.
pub fn read_adc(samples: &[u16; 8]) -> (reading: u16)
    ensures
        reading == sample_sum(samples@, 8) / 8,
{
    let mut sample: u32 = 0;
    let mut s: usize = 0;
    while s < config::ADC_RAM_BUFFER_LEN
        invariant
            s <= 8,
            sample == sample_sum(samples@, s as nat),
            sample <= s * 0xFFFF,
        decreases 8 - s,
    {
        sample = sample + samples[s] as u32;
        s += 1;
    }
    (sample / config::ADC_RAM_BUFFER_LEN as u32) as u16
}

} // verus!
