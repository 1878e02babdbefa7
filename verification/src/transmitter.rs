use vstd::prelude::*;

use crate::alex::ALEX_ANTENNA_1;
use crate::modes::{mode_index, Modes};

verus! {

/// The settings and state of the transmitter that decide its rates, buffers, mode,
/// filter, display scale and antenna; edges are whole Hz and the display scale whole
/// dBm.
pub struct Transmitter {
    pub protocol: u8,
    pub channel: i32,
    pub sample_rate: i32,
    pub dsp_rate: i32,
    pub output_rate: i32,
    pub buffer_size: i32,
    pub output_samples: i32,
    pub p1_packet_size: i32,
    pub packet_counter: i32,
    pub is_transmitting: bool,
    pub local_microphone_buffer_size: usize,
    pub microphone_buffer_size: usize,
    pub microphone_samples: usize,
    pub iq_samples: usize,
    pub fft_size: i32,
    pub low_latency: bool,
    pub use_rx_filter: bool,
    pub mode: usize,
    pub filter_low: i64,
    pub filter_high: i64,
    pub spectrum_width: i32,
    pub spectrum_high: i32,
    pub spectrum_low: i32,
    pub tx_antenna: u32,
}

impl Transmitter {
    /// Whether this transmitter holds the settings a new transmitter on channel `chan`
    /// for protocol `proto` starts with: 48 kHz microphone input; protocol 2 runs its
    /// DSP at 96 kHz and outputs at 192 kHz (4096 output samples a buffer), protocol 1
    /// both at 48 kHz (1024); 1024 sample microphone buffers, a 2048 point FFT, USB with
    /// a 300 to 2700 Hz filter, a 1024 pixel display from -54 to 6 dBm, antenna 1.
    pub open spec fn is_new(&self, chan: u8, proto: u8) -> bool {
        &&& self.protocol == proto
        &&& self.channel == chan
        &&& self.sample_rate == 48000
        &&& self.dsp_rate == (if proto == 2 { 96000i32 } else { 48000i32 })
        &&& self.output_rate == (if proto == 2 { 192000i32 } else { 48000i32 })
        &&& self.buffer_size == 1024
        &&& self.output_samples == (if proto == 2 { 4096i32 } else { 1024i32 })
        &&& self.p1_packet_size == 126
        &&& self.packet_counter == 0
        &&& !self.is_transmitting
        &&& self.local_microphone_buffer_size == 1024
        &&& self.microphone_buffer_size == 1024
        &&& self.microphone_samples == 0
        &&& self.iq_samples == 0
        &&& self.fft_size == 2048
        &&& !self.low_latency
        &&& !self.use_rx_filter
        &&& self.mode == mode_index(Modes::USB)
        &&& self.filter_low == 300
        &&& self.filter_high == 2700
        &&& self.spectrum_width == 1024
        &&& self.spectrum_high == 6
        &&& self.spectrum_low == -54
        &&& self.tx_antenna == ALEX_ANTENNA_1
    }

    /// A new transmitter on channel `chan` for protocol `proto`.
    pub fn new(chan: u8, proto: u8) -> (tx: Transmitter)
        ensures
            tx.is_new(chan, proto),
    {
        let sample_rate: i32 = 48000;
        let mut dsp_rate: i32 = 48000;
        let mut output_rate: i32 = 48000;
        if proto == 2 {
            dsp_rate = 96000;
            output_rate = 192000;
        }
        let buffer_size: i32 = 1024;
        let mut output_samples: i32 = 1024;
        if proto == 2 {
            let ratio = output_rate / sample_rate;
            assert(ratio == 4);
            output_samples = 1024 * ratio;
        }
        Transmitter {
            protocol: proto,
            channel: chan as i32,
            sample_rate,
            dsp_rate,
            output_rate,
            buffer_size,
            output_samples,
            p1_packet_size: 126,
            packet_counter: 0,
            is_transmitting: false,
            local_microphone_buffer_size: 1024,
            microphone_buffer_size: 1024,
            microphone_samples: 0,
            iq_samples: 0,
            fft_size: 2048,
            low_latency: false,
            use_rx_filter: false,
            mode: Modes::USB.to_usize(),
            filter_low: 300,
            filter_high: 2700,
            spectrum_width: 1024,
            spectrum_high: 6,
            spectrum_low: -54,
            tx_antenna: ALEX_ANTENNA_1,
        }
    }

    /// How many analyzer pixels each display pixel of the transmit spectrum gets: 12
    /// for protocol 2, 3 for protocol 1.
    pub fn pixel_multiplier(&self) -> (m: i32)
        ensures
            m == (if self.protocol == 2 { 12i32 } else { 3i32 }),
    {
        if self.protocol == 2 {
            12
        } else {
            3
        }
    }

    /// The number of pixels the transmit analyzer produces: the display width times
    /// the multiplier.
    pub fn analyzer_pixels(&self) -> (pixels: i64)
        ensures
            pixels == self.spectrum_width * (if self.protocol == 2 { 12int } else { 3int }),
    {
        if self.protocol == 2 {
            self.spectrum_width as i64 * 12
        } else {
            self.spectrum_width as i64 * 3
        }
    }

    /// Counts one microphone sample into the microphone buffer: gives the slot it goes
    /// in and whether the buffer is now full, in which case counting starts again at
    /// slot 0.
    pub fn microphone_sample(&mut self) -> (slot: (usize, bool))
        requires
            old(self).microphone_samples < old(self).microphone_buffer_size,
        ensures
            slot.0 == old(self).microphone_samples,
            slot.1 == (old(self).microphone_samples + 1 >= old(self).microphone_buffer_size),
            final(self).microphone_samples == (if slot.1 {
                0
            } else {
                old(self).microphone_samples + 1
            }),
            final(self).microphone_samples < final(self).microphone_buffer_size,
            *final(self) == (Transmitter {
                microphone_samples: final(self).microphone_samples,
                ..*old(self)
            }),
    {
        let slot = self.microphone_samples;
        self.microphone_samples = self.microphone_samples + 1;
        if self.microphone_samples >= self.microphone_buffer_size {
            self.microphone_samples = 0;
            (slot, true)
        } else {
            (slot, false)
        }
    }
}

} // verus!
