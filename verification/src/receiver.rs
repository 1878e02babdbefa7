use vstd::prelude::*;

use crate::agc::AGC;
use crate::bands::{band_from_index, band_index, lemma_band_index_round_trip, BandInfo, Bands};
use crate::bytes::{be16, put_i16, write_bytes};
use crate::filters::{filter_edges, filter_index, get_filter_values, Filters};
use crate::modes::{cwl_index, cwu_index, mode_index, Modes};

verus! {

/// The receiver's sample rate when it is created, in Hz.
pub const DEFAULT_SAMPLE_RATE: i32 = 384000;
/// The first channel of the sub receivers.
pub const SUBRX_BASE_CHANNEL: i32 = 16;

/// Where a receiver's audio goes: both channels, the left only, the right only, or
/// nowhere; numbered 0 to 3 in this order.
#[derive(Debug, Clone, Copy, PartialEq, Eq, Structural)]
pub enum AudioOutput {
    Stereo,
    Left,
    Right,
    Mute,
}

/// The number of each audio output.
pub open spec fn audio_output_code(a: AudioOutput) -> u32 {
    match a {
        AudioOutput::Stereo => 0,
        AudioOutput::Left => 1,
        AudioOutput::Right => 2,
        AudioOutput::Mute => 3,
    }
}

/// The audio output numbered `value`; a number above 3 means stereo.
pub open spec fn audio_output_of(value: u32) -> AudioOutput {
    if value == 1 {
        AudioOutput::Left
    } else if value == 2 {
        AudioOutput::Right
    } else if value == 3 {
        AudioOutput::Mute
    } else {
        AudioOutput::Stereo
    }
}

impl AudioOutput {
    /// The audio output numbered `value`, stereo for a number above 3.
    pub fn from_u32(value: u32) -> (a: Self)
        ensures
            a == audio_output_of(value),
    {
        match value {
            0 => AudioOutput::Stereo,
            1 => AudioOutput::Left,
            2 => AudioOutput::Right,
            3 => AudioOutput::Mute,
            _ => AudioOutput::Stereo,
        }
    }

    /// The number of this audio output.
    pub fn to_u32(&self) -> (value: u32)
        ensures
            value == audio_output_code(*self),
    {
        match self {
            AudioOutput::Stereo => 0,
            AudioOutput::Left => 1,
            AudioOutput::Right => 2,
            AudioOutput::Mute => 3,
        }
    }
}

/// Numbering the audio outputs and reading the number back gives the same output, and
/// every number below 4 is the number of the output it reads as.
pub proof fn lemma_audio_output_round_trip(a: AudioOutput, value: u32)
    ensures
        audio_output_of(audio_output_code(a)) == a,
        value < 4 ==> audio_output_code(audio_output_of(value)) == value,
{
}

/// `x` clamped to the 64 bit signed range.
pub open spec fn clamp_i64(x: int) -> i64 {
    if x > i64::MAX {
        i64::MAX
    } else if x < i64::MIN {
        i64::MIN
    } else {
        x as i64
    }
}

fn sat_add(a: i64, b: i64) -> (c: i64)
    ensures
        c == clamp_i64(a + b),
{
    let s = a as i128 + b as i128;
    if s > i64::MAX as i128 {
        i64::MAX
    } else if s < i64::MIN as i128 {
        i64::MIN
    } else {
        s as i64
    }
}

fn sat_sub(a: i64, b: i64) -> (c: i64)
    ensures
        c == clamp_i64(a - b),
{
    let s = a as i128 - b as i128;
    if s > i64::MAX as i128 {
        i64::MAX
    } else if s < i64::MIN as i128 {
        i64::MIN
    } else {
        s as i64
    }
}

/// The receive passband for filter edges `low` and `high` in the mode numbered `mode`:
/// in CWL the edges mirrored about the pitch below the carrier, in CWU placed about
/// the pitch above it, in other modes the edges themselves.
pub open spec fn mode_passband(mode: usize, low: int, high: int, cw_pitch: int) -> (int, int) {
    if mode == cwl_index() {
        (-cw_pitch - low, -cw_pitch + high)
    } else if mode == cwu_index() {
        (cw_pitch - low, cw_pitch + high)
    } else {
        (low, high)
    }
}

/// The tuning steps the step menu offers, in Hz, by position; 1 kHz for any other.
pub open spec fn step_of(index: u32) -> i64 {
    if index == 0 {
        1
    } else if index == 1 {
        10
    } else if index == 2 {
        25
    } else if index == 3 {
        50
    } else if index == 4 {
        100
    } else if index == 5 {
        250
    } else if index == 6 {
        500
    } else if index == 7 {
        1000
    } else if index == 8 {
        5000
    } else if index == 9 {
        9000
    } else if index == 10 {
        10000
    } else if index == 11 {
        100000
    } else if index == 12 {
        250000
    } else if index == 13 {
        500000
    } else if index == 14 {
        1000000
    } else {
        1000
    }
}

/// The tuning step at position `index` of the step menu, in Hz.
pub fn step_size(index: u32) -> (step: i64)
    ensures
        step == step_of(index),
{
    match index {
        0 => 1,
        1 => 10,
        2 => 25,
        3 => 50,
        4 => 100,
        5 => 250,
        6 => 500,
        7 => 1000,
        8 => 5000,
        9 => 9000,
        10 => 10000,
        11 => 100000,
        12 => 250000,
        13 => 500000,
        14 => 1000000,
        _ => 1000,
    }
}

/// What pressing a button that cycles a noise function through off, its first
/// kind and its second kind asks of the button: a new label, if any, and whether the
/// button must be shown pressed again.
#[derive(Debug, Clone, Copy, PartialEq, Eq, Structural)]
pub struct NoiseToggle {
    pub first: bool,
    pub second: bool,
    pub relabel_second: bool,
    pub relabel_first: bool,
    pub keep_pressed: bool,
}

/// The noise button cycle. Pressed in: the first kind turns on. Released while the
/// first kind is on: the first turns off, the second on, the button reads as the
/// second kind and stays pressed. Released otherwise: the second turns off and the
/// button reads as the first kind.
pub open spec fn noise_toggle(first: bool, second: bool, pressed: bool) -> NoiseToggle {
    if pressed {
        NoiseToggle {
            first: true,
            second,
            relabel_second: false,
            relabel_first: false,
            keep_pressed: false,
        }
    } else if first {
        NoiseToggle {
            first: false,
            second: true,
            relabel_second: true,
            relabel_first: false,
            keep_pressed: true,
        }
    } else {
        NoiseToggle {
            first,
            second: false,
            relabel_second: false,
            relabel_first: true,
            keep_pressed: false,
        }
    }
}

fn toggle(first: bool, second: bool, pressed: bool) -> (t: NoiseToggle)
    ensures
        t == noise_toggle(first, second, pressed),
{
    if pressed {
        NoiseToggle {
            first: true,
            second,
            relabel_second: false,
            relabel_first: false,
            keep_pressed: false,
        }
    } else if first {
        NoiseToggle {
            first: false,
            second: true,
            relabel_second: true,
            relabel_first: false,
            keep_pressed: true,
        }
    } else {
        NoiseToggle {
            first,
            second: false,
            relabel_second: false,
            relabel_first: true,
            keep_pressed: false,
        }
    }
}

/// Starting with both kinds off, three presses of a noise button (in, out, and out
/// again, since the second press leaves it pressed) go through the first kind, the
/// second kind, and back to both off; the two kinds are never on together.
pub proof fn lemma_noise_cycle()
    ensures
        ({
            let t1 = noise_toggle(false, false, true);
            let t2 = noise_toggle(t1.first, t1.second, false);
            let t3 = noise_toggle(t2.first, t2.second, false);
            &&& t1.first && !t1.second
            &&& !t2.first && t2.second && t2.keep_pressed
            &&& !t3.first && !t3.second
        }),
        forall|first: bool, second: bool, pressed: bool|
            !(first && second) && !(pressed && second) ==> {
                let t = #[trigger] noise_toggle(first, second, pressed);
                !(t.first && t.second)
            },
{
}

/// Half a sample rate, the division rounded toward zero.
pub open spec fn half_rate(sample_rate: i32) -> int {
    if sample_rate >= 0 {
        sample_rate / 2
    } else {
        -((-sample_rate) / 2)
    }
}

/// The settings and state of one receiver that decide what it is tuned to and how it
/// listens: frequencies, steps and filter edges are whole Hz.
pub struct Receiver {
    pub protocol: u8,
    pub channel: i32,
    pub active: bool,
    pub adc: usize,
    pub buffer_size: usize,
    pub fft_size: i32,
    pub sample_rate: i32,
    pub sample_rate_changed: bool,
    pub dsp_rate: i32,
    pub output_rate: i32,
    pub output_samples: usize,
    pub band: Bands,
    pub filters_manual: bool,
    pub filters: u32,
    pub frequency: i64,
    pub step_index: usize,
    pub step: i64,
    pub ctun: bool,
    pub ctun_frequency: i64,
    pub nr: bool,
    pub nr_taps: i32,
    pub nr_delay: i32,
    pub nr2: bool,
    pub nb: bool,
    pub nb2: bool,
    pub anf: bool,
    pub anf_taps: i32,
    pub anf_delay: i32,
    pub snb: bool,
    pub agc_position: i32,
    pub spectrum_width: i32,
    pub waterfall_width: i32,
    pub zoom: i32,
    pub pan: i32,
    pub agc: AGC,
    pub agcslope: i32,
    pub agcchangethreshold: i32,
    pub filter_low: i64,
    pub filter_high: i64,
    pub cw_pitch: i32,
    pub mode: usize,
    pub filter: usize,
    pub samples: usize,
    pub local_output: bool,
    pub audio_output: AudioOutput,
    pub local_audio_buffer_size: usize,
    pub local_audio_buffer_offset: usize,
    pub remote_audio_buffer_size: usize,
    pub remote_audio_buffer_offset: usize,
    pub rxgain: i32,
    pub cw_decoder: bool,
    pub equalizer_enabled: bool,
    pub band_info: Vec<BandInfo>,
}

impl Receiver {
    /// Whether this receiver holds the settings a new receiver `chan` of protocol
    /// `proto` for a display `pixels` wide starts with: active only as receiver 0,
    /// 1024 sample buffers, a 2048 point FFT, 384 kHz in, 48 kHz out (so 128 output
    /// samples), on 14.175 MHz in the 20 m band in USB with the 2.4 kHz filter (300 to
    /// 2700 Hz), 1 kHz steps, fast AGC, all noise functions off, a 400 Hz CW pitch and
    /// the equalizer on.
    pub open spec fn is_new(&self, chan: u8, proto: u8, pixels: i32) -> bool {
        &&& self.protocol == proto
        &&& self.channel == chan
        &&& self.active == (chan == 0)
        &&& self.adc == 0
        &&& self.buffer_size == 1024
        &&& self.fft_size == 2048
        &&& self.sample_rate == DEFAULT_SAMPLE_RATE
        &&& !self.sample_rate_changed
        &&& self.dsp_rate == 48000
        &&& self.output_rate == 48000
        &&& self.output_samples == 128
        &&& self.band == Bands::Band20
        &&& !self.filters_manual
        &&& self.filters == 0x01100002
        &&& self.frequency == 14175000
        &&& self.step_index == 7
        &&& self.step == 1000
        &&& !self.ctun
        &&& self.ctun_frequency == 0
        &&& !self.nr && !self.nr2 && !self.nb && !self.nb2 && !self.anf && !self.snb
        &&& self.nr_taps == 64 && self.nr_delay == 16
        &&& self.anf_taps == 64 && self.anf_delay == 16
        &&& self.agc_position == 0
        &&& self.spectrum_width == pixels && self.waterfall_width == pixels
        &&& self.zoom == 1 && self.pan == 0
        &&& self.agc == AGC::FAST
        &&& self.agcslope == 35
        &&& self.agcchangethreshold == 0
        &&& self.filter_low == 300 && self.filter_high == 2700
        &&& self.cw_pitch == 400
        &&& self.mode == mode_index(Modes::USB)
        &&& self.filter == filter_index(Filters::F6)
        &&& self.samples == 0
        &&& !self.local_output
        &&& self.audio_output == AudioOutput::Stereo
        &&& self.local_audio_buffer_size == 2048
        &&& self.local_audio_buffer_offset == 0
        &&& self.remote_audio_buffer_size == 260
        &&& self.remote_audio_buffer_offset == 4
        &&& self.rxgain == 0
        &&& !self.cw_decoder
        &&& self.equalizer_enabled
        &&& self.band_info@.len() == 15
        &&& forall|i: int|
            0 <= i < 15 ==> #[trigger] self.band_info@[i].is_initial(
                band_from_index(i as usize).unwrap(),
            )
    }

    /// A new receiver `chan` of protocol `proto` for a display `pixels` wide.
    pub fn new(chan: u8, proto: u8, pixels: i32) -> (rx: Receiver)
        ensures
            rx.is_new(chan, proto, pixels),
    {
        let buffer_size: usize = 1024;
        let sample_rate: i32 = DEFAULT_SAMPLE_RATE;
        let ratio: i32 = sample_rate / 48000;
        let output_samples: usize = buffer_size / ratio as usize;
        assert(output_samples == 128) by (nonlinear_arith)
            requires
                ratio == 8,
                output_samples == 1024usize / (ratio as usize),
        ;
        Receiver {
            protocol: proto,
            channel: chan as i32,
            active: chan == 0,
            adc: 0,
            buffer_size,
            fft_size: 2048,
            sample_rate,
            sample_rate_changed: false,
            dsp_rate: 48000,
            output_rate: 48000,
            output_samples,
            band: Bands::Band20,
            filters_manual: false,
            filters: 0x01100002,
            frequency: 14175000,
            step_index: 7,
            step: 1000,
            ctun: false,
            ctun_frequency: 0,
            nr: false,
            nr_taps: 64,
            nr_delay: 16,
            nr2: false,
            nb: false,
            nb2: false,
            anf: false,
            anf_taps: 64,
            anf_delay: 16,
            snb: false,
            agc_position: 0,
            spectrum_width: pixels,
            waterfall_width: pixels,
            zoom: 1,
            pan: 0,
            agc: AGC::FAST,
            agcslope: 35,
            agcchangethreshold: 0,
            filter_low: 300,
            filter_high: 2700,
            cw_pitch: 400,
            mode: Modes::USB.to_usize(),
            filter: Filters::F6.to_usize(),
            samples: 0,
            local_output: false,
            audio_output: AudioOutput::Stereo,
            local_audio_buffer_size: 2048,
            local_audio_buffer_offset: 0,
            remote_audio_buffer_size: 260,
            remote_audio_buffer_offset: 4,
            rxgain: 0,
            cw_decoder: false,
            equalizer_enabled: true,
            band_info: BandInfo::new(),
        }
    }

    /// Takes a new sample rate: the number of output samples per buffer follows it
    /// (the buffer size over the rate in whole multiples of 48 kHz; none for a
    /// negative rate) and the change is no longer pending.
    pub fn sample_rate_changed(&mut self, rate: i32)
        requires
            rate >= 48000 || rate <= -48000,
        ensures
            final(self).sample_rate == rate,
            final(self).output_samples == (if rate >= 48000 {
                old(self).buffer_size / ((rate / 48000) as usize)
            } else {
                0
            }),
            !final(self).sample_rate_changed,
            *final(self) == (Receiver {
                sample_rate: final(self).sample_rate,
                output_samples: final(self).output_samples,
                sample_rate_changed: final(self).sample_rate_changed,
                ..*old(self)
            }),
    {
        self.sample_rate = rate;
        self.output_samples = if rate >= 48000 {
            self.buffer_size / (rate / 48000) as usize
        } else {
            0
        };
        self.sample_rate_changed = false;
    }

    /// The shift from the receiver's frequency to its CTUN frequency, corrected by the
    /// CW pitch in the CW modes (plus in CWL, minus in CWU).
    pub fn ctun_offset(&self) -> (offset: i64)
        ensures
            offset == clamp_i64(
                if self.mode == cwl_index() {
                    clamp_i64(self.ctun_frequency - self.frequency) + self.cw_pitch
                } else if self.mode == cwu_index() {
                    clamp_i64(self.ctun_frequency - self.frequency) - self.cw_pitch
                } else {
                    clamp_i64(self.ctun_frequency - self.frequency) as int
                },
            ),
    {
        let offset = sat_sub(self.ctun_frequency, self.frequency);
        if self.mode == Modes::CWL.to_usize() {
            sat_add(offset, self.cw_pitch as i64)
        } else if self.mode == Modes::CWU.to_usize() {
            sat_sub(offset, self.cw_pitch as i64)
        } else {
            offset
        }
    }

    /// The passband the receiver's channel is opened with: in CW the filter edges
    /// placed about the pitch, otherwise the edges as they are.
    pub fn passband(&self) -> (band: (i64, i64))
        ensures
            band == (if self.mode == cwl_index() || self.mode == cwu_index() {
                (clamp_i64(self.cw_pitch - self.filter_low), clamp_i64(
                    self.cw_pitch + self.filter_high,
                ))
            } else {
                (self.filter_low, self.filter_high)
            }),
    {
        if self.mode == Modes::CWL.to_usize() || self.mode == Modes::CWU.to_usize() {
            (sat_sub(self.cw_pitch as i64, self.filter_low), sat_add(self.cw_pitch as i64, self.filter_high))
        } else {
            (self.filter_low, self.filter_high)
        }
    }

    /// Sets the receiver's filter edges from edges `low` and `high` of a filter of its
    /// mode, placed about the CW pitch in the CW modes.
    fn set_edges(&mut self, low: i32, high: i32)
        ensures
            (final(self).filter_low as int, final(self).filter_high as int) == mode_passband(
                old(self).mode,
                low as int,
                high as int,
                old(self).cw_pitch as int,
            ),
            *final(self) == (Receiver {
                filter_low: final(self).filter_low,
                filter_high: final(self).filter_high,
                ..*old(self)
            }),
    {
        let pitch = self.cw_pitch as i64;
        let (lo, hi): (i64, i64) = if self.mode == Modes::CWL.to_usize() {
            (-pitch - low as i64, -pitch + high as i64)
        } else if self.mode == Modes::CWU.to_usize() {
            (pitch - low as i64, pitch + high as i64)
        } else {
            (low as i64, high as i64)
        };
        self.filter_low = lo;
        self.filter_high = hi;
    }
}

impl Receiver {
    /// Switches to the mode numbered `mode`, keeping the filter number: the filter
    /// edges become those of that filter in the new mode, placed about the pitch in
    /// CW. Gives the filter's own edges, which the transmitter takes.
    pub fn select_mode(&mut self, mode: usize) -> (edges: (i32, i32))
        requires
            old(self).filter < 12,
        ensures
            final(self).mode == mode,
            edges.0 == filter_edges(mode, old(self).filter).0,
            edges.1 == filter_edges(mode, old(self).filter).1,
            (final(self).filter_low as int, final(self).filter_high as int) == mode_passband(
                mode,
                edges.0 as int,
                edges.1 as int,
                old(self).cw_pitch as int,
            ),
            final(self).filter == old(self).filter,
            final(self).frequency == old(self).frequency,
            final(self).band == old(self).band,
            *final(self) == (Receiver {
                mode: final(self).mode,
                filter_low: final(self).filter_low,
                filter_high: final(self).filter_high,
                ..*old(self)
            }),
    {
        self.mode = mode;
        let (low, high) = get_filter_values(mode, self.filter);
        self.set_edges(low, high);
        (low, high)
    }

    /// Switches to filter `filter` of the current mode: the filter edges become its
    /// edges, placed about the pitch in CW. Gives the filter's own edges.
    pub fn select_filter(&mut self, filter: usize) -> (edges: (i32, i32))
        requires
            filter < 12,
        ensures
            final(self).filter == filter,
            edges.0 == filter_edges(old(self).mode, filter).0,
            edges.1 == filter_edges(old(self).mode, filter).1,
            (final(self).filter_low as int, final(self).filter_high as int) == mode_passband(
                old(self).mode,
                edges.0 as int,
                edges.1 as int,
                old(self).cw_pitch as int,
            ),
            final(self).mode == old(self).mode,
            final(self).frequency == old(self).frequency,
            final(self).band == old(self).band,
            *final(self) == (Receiver {
                filter: final(self).filter,
                filter_low: final(self).filter_low,
                filter_high: final(self).filter_high,
                ..*old(self)
            }),
    {
        self.filter = filter;
        let (low, high) = get_filter_values(self.mode, filter);
        self.set_edges(low, high);
        (low, high)
    }

    /// Changes to band `index` of the band table `band_info`. Choosing the band the
    /// receiver is on changes nothing and gives `None`. Otherwise the frequency the
    /// receiver was on is remembered as its old band's current frequency, the receiver
    /// moves to the new band's current frequency (the CTUN frequency with it when CTUN
    /// is on), takes the band's ALEX filters unless they are set by hand, and takes
    /// the band's mode with the edges of the band's filter, which it gives.
    #[verifier::spinoff_prover]
    #[verifier::rlimit(40)]
    pub fn select_band(&mut self, index: usize, band_info: &mut Vec<BandInfo>) -> (edges: Option<(i32, i32)>)
        requires
            index < 15,
            old(band_info)@.len() == 15,
        ensures
            band_selected(*old(self), old(band_info)@, index, *final(self), final(band_info)@, edges),
    {
        let b = self.band.to_usize();
        if b == index {
            return None;
        }
        let mut old_band = band_info.remove(b);
        old_band.current = self.frequency;
        band_info.insert(b, old_band);
        assert(band_info@.len() == 15);
        let band = Bands::from_usize(index).unwrap();
        let frequency = band_info[index].current;
        let ctun_frequency = if self.ctun {
            frequency
        } else {
            self.ctun_frequency
        };
        let filters = if self.filters_manual {
            self.filters
        } else {
            band_info[index].filters
        };
        let mode = band_info[index].mode.to_usize();
        self.band = band;
        self.frequency = frequency;
        self.ctun_frequency = ctun_frequency;
        self.filters = filters;
        self.mode = mode;
        let (low, high) = get_filter_values(self.mode, band_info[index].filter.to_usize());
        self.set_edges(low, high);
        proof {
            assert forall|j: int| 0 <= j < 15 && j != b implies band_info@[j] == old(band_info)@[j] by {
            }
        }
        Some((low, high))
    }

    /// Presses or releases the noise reduction button: NR, then NR2, then off.
    pub fn toggle_nr(&mut self, pressed: bool) -> (t: NoiseToggle)
        ensures
            t == noise_toggle(old(self).nr, old(self).nr2, pressed),
            final(self).nr == t.first,
            final(self).nr2 == t.second,
            final(self).nb == old(self).nb,
            final(self).nb2 == old(self).nb2,
            *final(self) == (Receiver { nr: final(self).nr, nr2: final(self).nr2, ..*old(self) }),
    {
        let t = toggle(self.nr, self.nr2, pressed);
        self.nr = t.first;
        self.nr2 = t.second;
        t
    }

    /// Presses or releases the noise blanker button: NB, then NB2, then off.
    pub fn toggle_nb(&mut self, pressed: bool) -> (t: NoiseToggle)
        ensures
            t == noise_toggle(old(self).nb, old(self).nb2, pressed),
            final(self).nb == t.first,
            final(self).nb2 == t.second,
            final(self).nr == old(self).nr,
            final(self).nr2 == old(self).nr2,
            *final(self) == (Receiver { nb: final(self).nb, nb2: final(self).nb2, ..*old(self) }),
    {
        let t = toggle(self.nb, self.nb2, pressed);
        self.nb = t.first;
        self.nb2 = t.second;
        t
    }

    /// Turns click tuning on, starting at the receiver's frequency, or off, clearing
    /// the CTUN frequency.
    pub fn set_ctun(&mut self, state: bool)
        ensures
            final(self).ctun == state,
            final(self).ctun_frequency == (if state { old(self).frequency } else { 0 }),
            final(self).frequency == old(self).frequency,
            *final(self) == (Receiver {
                ctun: final(self).ctun,
                ctun_frequency: final(self).ctun_frequency,
                ..*old(self)
            }),
    {
        self.ctun = state;
        if state {
            self.ctun_frequency = self.frequency;
        } else {
            self.ctun_frequency = 0;
        }
    }

    /// The frequency the VFO shows: the CTUN frequency while click tuning, else the
    /// receiver's frequency.
    pub fn display_frequency(&self) -> (f: i64)
        ensures
            f == shown_frequency(*self),
    {
        if self.ctun {
            self.ctun_frequency
        } else {
            self.frequency
        }
    }

    /// Where the spectrum draws the tuning cursor: the frequency the VFO shows, moved
    /// up by the CW pitch in CWL and down by it in CWU.
    pub fn cursor_frequency(&self) -> (f: i64)
        ensures
            ({
                let shown = shown_frequency(*self);
                f == (if self.mode == cwl_index() {
                    clamp_i64(shown + self.cw_pitch)
                } else if self.mode == cwu_index() {
                    clamp_i64(shown - self.cw_pitch)
                } else {
                    shown
                })
            }),
    {
        let shown = self.display_frequency();
        if self.mode == Modes::CWL.to_usize() {
            sat_add(shown, self.cw_pitch as i64)
        } else if self.mode == Modes::CWU.to_usize() {
            sat_sub(shown, self.cw_pitch as i64)
        } else {
            shown
        }
    }

    /// Tunes down by `delta` Hz (a scroll of the wheel gives the step times the
    /// scroll). While click tuning the CTUN frequency moves and is held within the
    /// displayed span, half the sample rate either side of the receiver's frequency;
    /// otherwise the receiver's frequency moves.
    pub fn tune_by(&mut self, delta: i64)
        ensures
            ({
                let half = half_rate(old(self).sample_rate);
                let low = clamp_i64(old(self).frequency - half);
                let high = clamp_i64(old(self).frequency + half);
                let moved = clamp_i64(old(self).ctun_frequency - delta);
                if old(self).ctun {
                    &&& final(self).ctun_frequency == (if moved < low {
                        low
                    } else if moved > high {
                        high
                    } else {
                        moved
                    })
                    &&& final(self).frequency == old(self).frequency
                } else {
                    &&& final(self).frequency == clamp_i64(old(self).frequency - delta)
                    &&& final(self).ctun_frequency == old(self).ctun_frequency
                }
            }),
            final(self).ctun == old(self).ctun,
            *final(self) == (Receiver {
                frequency: final(self).frequency,
                ctun_frequency: final(self).ctun_frequency,
                ..*old(self)
            }),
    {
        let sr = self.sample_rate as i64;
        let half: i64 = if sr >= 0 {
            sr / 2
        } else {
            -((-sr) / 2)
        };
        let low = sat_sub(self.frequency, half);
        let high = sat_add(self.frequency, half);
        if self.ctun {
            let moved = sat_sub(self.ctun_frequency, delta);
            if moved < low {
                self.ctun_frequency = low;
            } else if moved > high {
                self.ctun_frequency = high;
            } else {
                self.ctun_frequency = moved;
            }
        } else {
            self.frequency = sat_sub(self.frequency, delta);
        }
    }

    /// Tunes to the frequency `f` Hz that a click on the display points at, rounded
    /// down to a whole number of steps (a frequency below 0 counts as 0, and a
    /// frequency or a step above the unsigned 32 bit range as its top): the CTUN
    /// frequency while click tuning, else the receiver's frequency.
    pub fn click_tune(&mut self, f: i64)
        requires
            old(self).step > 0,
        ensures
            ({
                let fu = if f < 0 { 0 } else if f > u32::MAX { u32::MAX as int } else { f as int };
                let step = if old(self).step > u32::MAX { u32::MAX as int } else { old(self).step as int };
                let tuned = (fu / step) * step;
                if old(self).ctun {
                    final(self).ctun_frequency == tuned && final(self).frequency == old(
                        self,
                    ).frequency
                } else {
                    final(self).frequency == tuned && final(self).ctun_frequency == old(
                        self,
                    ).ctun_frequency
                }
            }),
            final(self).ctun == old(self).ctun,
            final(self).step == old(self).step,
            *final(self) == (Receiver {
                frequency: final(self).frequency,
                ctun_frequency: final(self).ctun_frequency,
                ..*old(self)
            }),
    {
        let fu: u32 = if f < 0 {
            0
        } else if f > u32::MAX as i64 {
            u32::MAX
        } else {
            f as u32
        };
        let step: u32 = if self.step > u32::MAX as i64 {
            u32::MAX
        } else {
            self.step as u32
        };
        let q = fu / step;
        proof {
            vstd::arithmetic::div_mod::lemma_fundamental_div_mod(fu as int, step as int);
            assert((q as int) * (step as int) <= fu as int) by (nonlinear_arith)
                requires
                    fu as int == (step as int) * (q as int) + (fu as int) % (step as int),
                    (fu as int) % (step as int) >= 0,
            ;
        }
        let tuned = (q as i64) * (step as i64);
        if self.ctun {
            self.ctun_frequency = tuned;
        } else {
            self.frequency = tuned;
        }
    }

    /// Makes the receiver the active one, or not.
    pub(crate) fn set_active(&mut self, on: bool)
        ensures
            *final(self) == (Receiver { active: on, ..*old(self) }),
    {
        self.active = on;
    }

    /// Sets the pan of the display: only a zoomed display pans; an unzoomed one stays
    /// at 0. Gives the pan now set.
    pub fn set_pan(&mut self, value: i32) -> (pan: i32)
        ensures
            pan == final(self).pan,
            pan == (if old(self).zoom > 1 { value } else { 0 }),
            final(self).zoom == old(self).zoom,
            *final(self) == (Receiver { pan: final(self).pan, ..*old(self) }),
    {
        if self.zoom > 1 {
            self.pan = value;
        } else {
            self.pan = 0;
        }
        self.pan
    }

    /// Takes step number `index` of the step menu.
    pub fn set_step(&mut self, index: u32)
        ensures
            final(self).step_index == index as usize,
            final(self).step == step_of(index),
            final(self).frequency == old(self).frequency,
            *final(self) == (Receiver {
                step_index: final(self).step_index,
                step: final(self).step,
                ..*old(self)
            }),
    {
        self.step_index = index as usize;
        self.step = step_size(index);
    }
}

/// The index of the receiver the controls act on: the second when it is active, else
/// the first.
pub fn active_receiver(second_active: bool) -> (rx: usize)
    ensures
        rx == (if second_active { 1usize } else { 0usize }),
{
    if second_active {
        1
    } else {
        0
    }
}

/// Copies VFO A to VFO B: B takes A's frequency (its CTUN frequency while A click
/// tunes) and A's band.
pub fn a_to_b(a: &Receiver, b: &mut Receiver)
    ensures
        final(b).frequency == shown_frequency(*a),
        final(b).band == a.band,
        final(b).ctun == old(b).ctun,
        final(b).ctun_frequency == old(b).ctun_frequency,
        final(b).mode == old(b).mode,
        *final(b) == (Receiver { frequency: final(b).frequency, band: final(b).band, ..*old(b) }),
{
    if a.ctun {
        b.frequency = a.ctun_frequency;
    } else {
        b.frequency = a.frequency;
    }
    b.band = a.band;
}

/// Copies VFO B to VFO A: when B click tunes A's CTUN frequency takes B's frequency,
/// otherwise A's frequency does; A takes B's band.
pub fn b_to_a(b: &Receiver, a: &mut Receiver)
    ensures
        b.ctun ==> final(a).ctun_frequency == b.frequency && final(a).frequency == old(
            a,
        ).frequency,
        !b.ctun ==> final(a).frequency == b.frequency && final(a).ctun_frequency == old(
            a,
        ).ctun_frequency,
        final(a).band == b.band,
        final(a).ctun == old(a).ctun,
        final(a).mode == old(a).mode,
        *final(a) == (Receiver {
            frequency: final(a).frequency,
            ctun_frequency: final(a).ctun_frequency,
            band: final(a).band,
            ..*old(a)
        }),
{
    if b.ctun {
        a.ctun_frequency = b.frequency;
    } else {
        a.frequency = b.frequency;
    }
    a.band = b.band;
}

/// Whether receiver `r1` with band table `infos1` is what choosing band `index` makes
/// of receiver `r0` with band table `infos0`, the filter edges set being `edges`.
/// Choosing the band it is on changes nothing. Choosing another stores the frequency
/// in the band left, tunes to the frequency stored for the new band and takes its mode
/// (and, unless chosen by hand, its filter word) with the edges of the filter stored
/// for the band; the receiver's own filter number stays as it was.
pub open spec fn band_selected(
    r0: Receiver,
    infos0: Seq<BandInfo>,
    index: usize,
    r1: Receiver,
    infos1: Seq<BandInfo>,
    edges: Option<(i32, i32)>,
) -> bool {
    &&& infos1.len() == 15
    &&& band_index(r0.band) == index ==> {
        &&& edges is None
        &&& r1.band == r0.band
        &&& r1.frequency == r0.frequency
        &&& r1.mode == r0.mode
        &&& infos1 == infos0
        &&& r1 == r0
    }
    &&& band_index(r0.band) != index ==> {
        let b = band_index(r0.band) as int;
        let info = infos0[index as int];
        let mode = mode_index(info.mode);
        let e = filter_edges(mode, filter_index(info.filter));
        &&& edges matches Some(ed) && ed.0 == e.0 && ed.1 == e.1
        &&& infos1[b].current == r0.frequency
        &&& infos1[b].band == infos0[b].band
        &&& infos1[b].mode == infos0[b].mode
        &&& infos1[b].filter == infos0[b].filter
        &&& infos1[b].filters == infos0[b].filters
        &&& forall|j: int| 0 <= j < 15 && j != b ==> infos1[j] == infos0[j]
        &&& band_index(r1.band) == index
        &&& r1.frequency == info.current
        &&& r1.ctun_frequency == (if r0.ctun {
            info.current
        } else {
            r0.ctun_frequency
        })
        &&& r1.ctun == r0.ctun
        &&& r1.filters == (if r0.filters_manual {
            r0.filters
        } else {
            info.filters
        })
        &&& r1.filters_manual == r0.filters_manual
        &&& r1.mode == mode
        &&& r1.filter == r0.filter
        &&& (r1.filter_low as int, r1.filter_high as int) == mode_passband(
            mode,
            e.0,
            e.1,
            r0.cw_pitch as int,
        )
        &&& r1.cw_pitch == r0.cw_pitch
        &&& r1.adc == r0.adc
        &&& r1.active == r0.active
        &&& r1.channel == r0.channel
        &&& r1 == (Receiver {
            band: r1.band,
            frequency: r1.frequency,
            ctun_frequency: r1.ctun_frequency,
            filters: r1.filters,
            mode: r1.mode,
            filter_low: r1.filter_low,
            filter_high: r1.filter_high,
            ..r0
        })
        &&& infos1[b] == (BandInfo { current: r0.frequency, ..infos0[b] })
    }
}

/// Choosing another band and then the band left again comes back to the frequency
/// the receiver was on, in the mode that band was stored with; the band visited keeps
/// the frequency stored for it, and the band left now holds the frequency it was on.
pub proof fn lemma_band_memory(
    r0: Receiver,
    infos0: Seq<BandInfo>,
    index: usize,
    r1: Receiver,
    infos1: Seq<BandInfo>,
    e1: Option<(i32, i32)>,
    r2: Receiver,
    infos2: Seq<BandInfo>,
    e2: Option<(i32, i32)>,
)
    requires
        infos0.len() == 15,
        index < 15,
        band_index(r0.band) != index,
        band_selected(r0, infos0, index, r1, infos1, e1),
        band_selected(r1, infos1, band_index(r0.band), r2, infos2, e2),
    ensures
        r2.frequency == r0.frequency,
        r2.band == r0.band,
        r2.mode == mode_index(infos0[band_index(r0.band) as int].mode),
        infos2[index as int].current == infos0[index as int].current,
        infos2[band_index(r0.band) as int].current == r0.frequency,
{
    lemma_band_index_round_trip(r0.band, band_index(r0.band));
    lemma_band_index_round_trip(r2.band, band_index(r2.band));
}

/// The frequency a VFO shows: its CTUN frequency while click tuning, else its
/// frequency.
pub open spec fn shown_frequency(r: Receiver) -> i64 {
    if r.ctun {
        r.ctun_frequency
    } else {
        r.frequency
    }
}

/// Whether VFOs `a1` and `b1` are what exchanging `a0` and `b0` gives: B takes the
/// frequency A shows and A takes B's frequency in the place it shows from; the bands
/// are exchanged and nothing else changes.
pub open spec fn vfos_swapped(a0: Receiver, b0: Receiver, a1: Receiver, b1: Receiver) -> bool {
    &&& b1.frequency == shown_frequency(a0)
    &&& a0.ctun ==> a1.ctun_frequency == b0.frequency && a1.frequency == a0.frequency
    &&& !a0.ctun ==> a1.frequency == b0.frequency && a1.ctun_frequency == a0.ctun_frequency
    &&& a1.band == b0.band
    &&& b1.band == a0.band
    &&& a1.ctun == a0.ctun
    &&& b1.ctun == b0.ctun
    &&& b1.ctun_frequency == b0.ctun_frequency
    &&& a1 == (Receiver {
        frequency: a1.frequency,
        ctun_frequency: a1.ctun_frequency,
        band: a1.band,
        ..a0
    })
    &&& b1 == (Receiver { frequency: b1.frequency, band: b1.band, ..b0 })
}

/// Exchanges VFO A and VFO B.
#[verifier::spinoff_prover]
pub fn swap_ab(a: &mut Receiver, b: &mut Receiver)
    ensures
        vfos_swapped(*old(a), *old(b), *final(a), *final(b)),
{
    let b_frequency = b.frequency;
    let b_band = b.band;
    let a_band = a.band;
    let a_shown = a.display_frequency();
    let (a_frequency, a_ctun_frequency) = if a.ctun {
        (a.frequency, b_frequency)
    } else {
        (b_frequency, a.ctun_frequency)
    };
    let b_ctun_frequency = b.ctun_frequency;
    set_vfo(a, a_frequency, a_ctun_frequency, b_band);
    set_vfo(b, a_shown, b_ctun_frequency, a_band);
}

/// Sets a VFO's frequency, CTUN frequency and band.
fn set_vfo(r: &mut Receiver, frequency: i64, ctun_frequency: i64, band: Bands)
    ensures
        *final(r) == (Receiver {
            frequency: frequency,
            ctun_frequency: ctun_frequency,
            band: band,
            ..*old(r)
        }),
{
    r.frequency = frequency;
    r.ctun_frequency = ctun_frequency;
    r.band = band;
}

/// Exchanging VFO A and B twice gives back both VFOs' frequencies and bands.
pub proof fn lemma_swap_twice(
    a0: Receiver,
    b0: Receiver,
    a1: Receiver,
    b1: Receiver,
    a2: Receiver,
    b2: Receiver,
)
    requires
        vfos_swapped(a0, b0, a1, b1),
        vfos_swapped(a1, b1, a2, b2),
    ensures
        a2.frequency == a0.frequency,
        a2.ctun_frequency == a0.ctun_frequency,
        b2.frequency == b0.frequency,
        a2.band == a0.band,
        b2.band == b0.band,
        shown_frequency(a2) == shown_frequency(a0),
{
}

/// One receiver's audio added into the left and right sums of the protocol 1 audio
/// stream: the left sum takes the receiver's left sample when it plays stereo or
/// left; the right sum takes its right sample when it plays stereo or right, and
/// otherwise becomes a copy of the left sum. Sums wrap round as 32 bit values do.
pub open spec fn mix_sample(left: i32, right: i32, sample_left: i32, sample_right: i32, output: AudioOutput) -> (
    i32,
    i32,
) {
    let new_left = if output == AudioOutput::Stereo || output == AudioOutput::Left {
        (left + sample_left) as i32
    } else {
        left
    };
    let new_right = if output == AudioOutput::Stereo || output == AudioOutput::Right {
        (right + sample_right) as i32
    } else {
        new_left
    };
    (new_left, new_right)
}

/// One receiver's audio added into the left and right sums.
pub fn mix_audio(left: i32, right: i32, sample_left: i32, sample_right: i32, output: AudioOutput) -> (sums:
    (i32, i32))
    ensures
        sums == mix_sample(left, right, sample_left, sample_right, output),
{
    let new_left: i32 = match output {
        AudioOutput::Stereo | AudioOutput::Left => (left as i64 + sample_left as i64) as i32,
        AudioOutput::Right | AudioOutput::Mute => left,
    };
    let new_right: i32 = match output {
        AudioOutput::Stereo | AudioOutput::Right => (right as i64 + sample_right as i64) as i32,
        AudioOutput::Left | AudioOutput::Mute => new_left,
    };
    (new_left, new_right)
}

/// The pair of 16 bit samples a receiver plays locally: both channels in stereo, the
/// left with the right silent, the right with the left silent, or silence.
pub open spec fn local_pair(output: AudioOutput, left: i32, right: i32) -> (i16, i16) {
    match output {
        AudioOutput::Stereo => (left as i16, right as i16),
        AudioOutput::Left => (left as i16, 0i16),
        AudioOutput::Right => (0i16, right as i16),
        AudioOutput::Mute => (0i16, 0i16),
    }
}

/// The pair of 16 bit samples a receiver plays locally.
pub fn local_audio(output: AudioOutput, left: i32, right: i32) -> (pair: (i16, i16))
    ensures
        pair == local_pair(output, left, right),
{
    match output {
        AudioOutput::Stereo => (left as i16, right as i16),
        AudioOutput::Left => (left as i16, 0),
        AudioOutput::Right => (0, right as i16),
        AudioOutput::Mute => (0, 0),
    }
}

/// The audio packet a receiver fills for the radio's own output: four bytes left for
/// the sequence number, then left and right 16 bit samples.
pub struct RemoteAudioBuffer {
    buffer: Vec<u8>,
    offset: usize,
}

impl RemoteAudioBuffer {
    /// The buffer's consistency: samples go on four byte boundaries after the header,
    /// and a whole pair always fits where the next one goes.
    pub closed spec fn wf(&self) -> bool {
        &&& self.buffer@.len() >= 8
        &&& self.buffer@.len() % 4 == 0
        &&& 4 <= self.offset
        &&& self.offset + 4 <= self.buffer.len()
        &&& self.offset % 4 == 0
    }

    /// The bytes of the packet.
    pub closed spec fn bytes(&self) -> Seq<u8> {
        self.buffer@
    }

    /// Where the next pair goes.
    pub closed spec fn next(&self) -> int {
        self.offset as int
    }

    /// An empty packet of `size` bytes; the first pair goes at 4.
    pub fn new(size: usize) -> (b: RemoteAudioBuffer)
        requires
            size >= 8,
            size % 4 == 0,
        ensures
            b.wf(),
            b.bytes() == Seq::new(size as nat, |i: int| 0u8),
            b.next() == 4,
    {
        let b = RemoteAudioBuffer { buffer: vec![0u8; size], offset: 4 };
        assert(b.buffer@ =~= Seq::new(size as nat, |i: int| 0u8));
        b
    }

    /// Adds one pair: the two samples' low 16 bits, most significant byte first, when
    /// the radio plays this receiver, else four zero bytes. Says whether the packet is
    /// now full, in which case the next pair goes at 4 again.
    pub fn push(&mut self, left: i32, right: i32, enabled: bool) -> (full: bool)
        requires
            old(self).wf(),
        ensures
            final(self).wf(),
            final(self).bytes() == write_bytes(
                old(self).bytes(),
                old(self).next(),
                if enabled { be16(left) + be16(right) } else { seq![0u8, 0u8, 0u8, 0u8] },
            ),
            full == (old(self).next() + 4 >= old(self).bytes().len()),
            final(self).next() == (if full { 4 } else { old(self).next() + 4 }),
    {
        let o = self.offset;
        let ghost before = self.buffer@;
        if enabled {
            put_i16(&mut self.buffer, o, left);
            put_i16(&mut self.buffer, o + 2, right);
            assert(self.buffer@ =~= write_bytes(before, o as int, be16(left) + be16(right)));
        } else {
            self.buffer.set(o, 0);
            self.buffer.set(o + 1, 0);
            self.buffer.set(o + 2, 0);
            self.buffer.set(o + 3, 0);
            assert(self.buffer@ =~= write_bytes(before, o as int, seq![0u8, 0u8, 0u8, 0u8]));
        }
        if o + 4 >= self.buffer.len() {
            self.offset = 4;
            true
        } else {
            self.offset = o + 4;
            false
        }
    }

    /// The packet's bytes.
    pub fn contents(&self) -> (v: &Vec<u8>)
        ensures
            v@ == self.bytes(),
    {
        &self.buffer
    }
}

/// The step menu runs from the finest step to the coarsest: every step is positive and
/// a later entry is strictly larger than an earlier one.
pub proof fn lemma_steps_increase(i: u32, j: u32)
    requires
        i < j < 15,
    ensures
        0 < step_of(i) < step_of(j),
{
}

/// In CWU a filter `w` Hz either side is centred on the CW pitch above the carrier; in
/// CWL the same filter is its mirror image, centred on the pitch below; in every other
/// mode the filter edges are used as they are.
pub proof fn lemma_cw_passband(w: int, pitch: int, mode: usize, low: int, high: int)
    ensures
        mode_passband(cwu_index(), w, w, pitch) == (pitch - w, pitch + w),
        mode_passband(cwl_index(), w, w, pitch) == (
            -mode_passband(cwu_index(), w, w, pitch).1,
            -mode_passband(cwu_index(), w, w, pitch).0,
        ),
        mode != cwl_index() && mode != cwu_index() ==> mode_passband(mode, low, high, pitch) == (
            low,
            high,
        ),
{
}

} // verus!
