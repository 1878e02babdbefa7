use vstd::prelude::*;

use crate::alex::ALEX_ANTENNA_1;

verus! {

/// The settings of one analog to digital converter of the radio.
#[derive(Debug, Clone, Copy, PartialEq, Eq)]
pub struct Adc {
    pub rx_antenna: u32,
    pub random: bool,
    pub dither: bool,
    pub attenuation: i32,
}

impl Adc {
    /// An ADC on antenna 1, with random and dither off and no attenuation.
    pub fn new() -> (adc: Adc)
        ensures
            adc.rx_antenna == ALEX_ANTENNA_1,
            !adc.random,
            !adc.dither,
            adc.attenuation == 0,
    {
        let rx_antenna: u32 = ALEX_ANTENNA_1;
        let random: bool = false;
        let dither: bool = false;
        let attenuation: i32 = 0;
        Adc { rx_antenna, random, dither, attenuation }
    }
}

impl Default for Adc {
    fn default() -> (adc: Adc)
        ensures
            adc.rx_antenna == ALEX_ANTENNA_1,
            !adc.random,
            !adc.dither,
            adc.attenuation == 0,
    {
        Self::new()
    }
}

} // verus!
