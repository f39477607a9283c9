//! Dimmer modules: the PWM level of each of the four outputs.

use vstd::prelude::*;

use crate::config::DimmerConfig;
use crate::dmx::{read_channels, read_value, DmxMatrix};

verus! {

/// PWM level of output `i`: binary outputs switch fully on above DMX 127
/// and off otherwise; linear outputs follow the DMX value.
pub open spec fn dimmer_level(settings: DimmerConfig, m: DmxMatrix, i: int) -> u16 {
    let v = read_value(m, settings.universe as int, settings.start_channel as int, i);
    if settings.binary@[i] {
        if v > 127 {
            255
        } else {
            0
        }
    } else {
        v as u16
    }
}

/// Reads the port's 4 DMX bytes and applies each output's binary flag.
pub fn resolve_levels(settings: &DimmerConfig, matrix: &DmxMatrix) -> (lv: [u16; 4])
    ensures
        forall|i: int| 0 <= i < 4 ==> lv[i] == dimmer_level(*settings, *matrix, i),
{
    let ch: [u8; 4] = read_channels::<4>(matrix, settings.universe as usize, settings.start_channel as usize);
    let mut lv = [0u16; 4];
    let mut i: usize = 0;
    while i < 4
        invariant
            i <= 4,
            forall|k: int| 0 <= k < 4 ==> ch[k] == read_value(*matrix, settings.universe as int, settings.start_channel as int, k),
            forall|k: int| 0 <= k < i ==> lv[k] == dimmer_level(*settings, *matrix, k),
        decreases 4 - i,
    {
        lv[i] = if settings.binary[i] {
            if ch[i] > 127 {
                255
            } else {
                0
            }
        } else {
            ch[i] as u16
        };
        i = i + 1;
    }
    lv
}

} // verus!
