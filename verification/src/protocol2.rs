use vstd::prelude::*;

use crate::adc::Adc;
use crate::alex::{
    ALEX_ANTENNA_1, ALEX_ANTENNA_2, ALEX_ANTENNA_3, ALEX_RX_ANTENNA_EXT1, ALEX_RX_ANTENNA_EXT2,
    ALEX_RX_ANTENNA_XVTR,
};
use crate::bytes::{
    be16, be24, be32, i16_of_be, i24_of_be, i16_from_be, i24_from_be, next_seq, next_sequence,
    put_i16, put_i24, put_u32, u16_from_be, u16_of_be, u32_to_be, i16_to_be, write_bytes,
};
use crate::discovery::Device;
use crate::modes::{cwl_index, cwu_index, Modes};
use crate::radio::Keyer;
use crate::single::{single, single_of, single_quotient, single_quotient_of};

verus! {

/// Bytes before the samples of a receiver IQ packet.
pub const HEADER_SIZE: usize = 16;
/// Bytes in one 24 bit sample.
pub const SAMPLE_SIZE: usize = 3;
/// Samples per IQ pair.
pub const INTERLEAVE_FACTOR: usize = 2;
/// Bytes before the samples of a microphone packet: just a sequence number.
pub const MIC_HEADER_SIZE: usize = 4;
/// Bytes in one 16 bit microphone sample.
pub const MIC_SAMPLE_SIZE: usize = 2;
/// Microphone samples in a packet.
pub const MIC_SAMPLES: usize = 64;
/// IQ pairs in a transmit IQ packet.
pub const IQ_BUFFER_SIZE: usize = 240;

/// Length of the general and transmit specific packets.
pub const SHORT_PACKET_LEN: usize = 60;
/// Length of the high priority, receive specific and transmit IQ packets.
pub const LONG_PACKET_LEN: usize = 1444;

/// How many times each receive specific packet is sent.
pub const RECEIVE_SPECIFIC_COPIES: usize = 2;

/// The clock, in Hz, that the radio's phase words divide.
pub const CLOCK_HZ: u64 = 122880000;

pub const HPF_13MHZ: u32 = 0x00000002;
pub const HPF_20MHZ: u32 = 0x00000004;
pub const PREAMP_6M: u32 = 0x00000008;
pub const HPF_9_5MHZ: u32 = 0x00000010;
pub const HPF_6_5MHZ: u32 = 0x00000020;
pub const HPF_1_5MHZ: u32 = 0x00000040;
pub const BYPASS: u32 = 0x00001000;
pub const TX_ENABLE: u32 = 0x08000000;
pub const LPF_30_20: u32 = 0x00100000;
pub const LPF_60_40: u32 = 0x00200000;
pub const LPF_80: u32 = 0x00400000;
pub const LPF_160: u32 = 0x00800000;
pub const LPF_6: u32 = 0x20000000;
pub const LPF_12_10: u32 = 0x40000000;
pub const LPF_17_15: u32 = 0x80000000;

/// Where a receiver is tuned: its frequency in Hz, its mode's number and its CW pitch
/// in Hz.
#[derive(Debug, Clone, Copy, PartialEq, Eq, Structural)]
pub struct ReceiverTuning {
    pub frequency: i32,
    pub mode: usize,
    pub cw_pitch: i32,
}

/// The frequency a receiver listens on: in CWL the pitch above its frequency, in CWU
/// the pitch below, in every other mode its frequency.
pub open spec fn tuned(t: ReceiverTuning) -> int {
    if t.mode == cwl_index() {
        t.frequency + t.cw_pitch
    } else if t.mode == cwu_index() {
        t.frequency - t.cw_pitch
    } else {
        t.frequency as int
    }
}

/// The frequency a receiver listens on.
pub fn tuned_frequency(t: &ReceiverTuning) -> (f: i64)
    ensures
        f == tuned(*t),
{
    if t.mode == Modes::CWL.to_usize() {
        t.frequency as i64 + t.cw_pitch as i64
    } else if t.mode == Modes::CWU.to_usize() {
        t.frequency as i64 - t.cw_pitch as i64
    } else {
        t.frequency as i64
    }
}

/// The frequency a receiver listens on as the phase word is worked out from it: its
/// frequency and its CW pitch each held in single precision, and in CWL their sum, in
/// CWU their difference, held in single precision again.
pub open spec fn tuned_single(t: ReceiverTuning) -> int {
    let f = single(t.frequency as int);
    let p = single(t.cw_pitch as int);
    if t.mode == cwl_index() {
        single(f + p)
    } else if t.mode == cwu_index() {
        single(f - p)
    } else {
        f
    }
}

/// The frequency a receiver listens on, held in single precision.
pub fn tuned_single_frequency(t: &ReceiverTuning) -> (f: i64)
    ensures
        f == tuned_single(*t),
{
    let f = single_of(t.frequency as i64);
    let p = single_of(t.cw_pitch as i64);
    if t.mode == Modes::CWL.to_usize() {
        single_of(f + p)
    } else if t.mode == Modes::CWU.to_usize() {
        single_of(f - p)
    } else {
        f
    }
}

/// The phase word that tunes the radio to `f` Hz: `f` as a fraction of the 122.88 MHz
/// clock in units of 2^-32, that is f 2^16 / 1875, divided in single precision (the
/// quotient rounded to 24 significant bits, ties to even) and cut to its whole part;
/// 0 for a frequency at or below 0, the largest word for one at or above the clock or
/// whose rounded quotient reaches 2^32.
pub open spec fn phase_of(f: int) -> u32 {
    if f <= 0 {
        0
    } else if f >= CLOCK_HZ {
        u32::MAX
    } else {
        let w = single_quotient((f * 65536) as nat, 1875);
        if w > u32::MAX {
            u32::MAX
        } else {
            w as u32
        }
    }
}

/// The phase word that tunes the radio to `f` Hz.
pub fn phase_word(f: i64) -> (phase: u32)
    ensures
        phase == phase_of(f as int),
{
    if f <= 0 {
        0
    } else if f >= CLOCK_HZ as i64 {
        u32::MAX
    } else {
        let w = single_quotient_of((f as u64) * 65536, 1875);
        if w > u32::MAX as u128 {
            u32::MAX
        } else {
            w as u32
        }
    }
}

/// The ALEX word of each antenna number: 0 to 2 the three antennas, 3 and 4 the two
/// external inputs, 5 the transverter input, any other number antenna 1.
pub open spec fn antenna_bits(antenna: u32) -> u32 {
    if antenna == 0 {
        ALEX_ANTENNA_1
    } else if antenna == 1 {
        ALEX_ANTENNA_2
    } else if antenna == 2 {
        ALEX_ANTENNA_3
    } else if antenna == 3 {
        ALEX_RX_ANTENNA_EXT1
    } else if antenna == 4 {
        ALEX_RX_ANTENNA_EXT2
    } else if antenna == 5 {
        ALEX_RX_ANTENNA_XVTR
    } else {
        ALEX_ANTENNA_1
    }
}

/// The band pass (high pass) filter for a receiver on `f` Hz.
pub open spec fn bpf_bits(f: int) -> u32 {
    if f < 1500000 {
        BYPASS
    } else if f < 2100000 {
        HPF_1_5MHZ
    } else if f < 5500000 {
        HPF_6_5MHZ
    } else if f < 11000000 {
        HPF_9_5MHZ
    } else if f < 22000000 {
        HPF_13MHZ
    } else if f < 35000000 {
        HPF_20MHZ
    } else {
        PREAMP_6M
    }
}

/// The low pass filter for `f` Hz: an Orion 2 (board 5) has its own set; other boards
/// take the low filter bits.
pub open spec fn lpf_bits(device: u8, f: int) -> u32 {
    if device == 5 {
        if f > 32000000 {
            LPF_6
        } else if f > 22000000 {
            LPF_12_10
        } else if f > 15000000 {
            LPF_17_15
        } else if f > 8000000 {
            LPF_30_20
        } else if f > 4500000 {
            LPF_60_40
        } else if f > 2400000 {
            LPF_80
        } else {
            LPF_160
        }
    } else if f > 35600000 {
        0x08
    } else if f > 24000000 {
        0x04
    } else if f > 16500000 {
        0x02
    } else if f > 8000000 {
        0x10
    } else if f > 5000000 {
        0x20
    } else {
        0x40
    }
}

/// The antenna number that the ALEX word selects: the transmit antenna while
/// transmitting, else the receive antenna.
pub open spec fn selected_antenna(transmitting: bool, tx_antenna: u32, rx_antenna: u32) -> u32 {
    if transmitting {
        tx_antenna
    } else {
        rx_antenna
    }
}

fn antenna_word(antenna: u32) -> (w: u32)
    ensures
        w == antenna_bits(antenna),
{
    match antenna {
        0 => ALEX_ANTENNA_1,
        1 => ALEX_ANTENNA_2,
        2 => ALEX_ANTENNA_3,
        3 => ALEX_RX_ANTENNA_EXT1,
        4 => ALEX_RX_ANTENNA_EXT2,
        5 => ALEX_RX_ANTENNA_XVTR,
        _ => ALEX_ANTENNA_1,
    }
}

/// The band pass filter for a receiver on `f` Hz.
pub fn bpf_word(f: i32) -> (w: u32)
    ensures
        w == bpf_bits(f as int),
{
    if f < 1500000 {
        BYPASS
    } else if f < 2100000 {
        HPF_1_5MHZ
    } else if f < 5500000 {
        HPF_6_5MHZ
    } else if f < 11000000 {
        HPF_9_5MHZ
    } else if f < 22000000 {
        HPF_13MHZ
    } else if f < 35000000 {
        HPF_20MHZ
    } else {
        PREAMP_6M
    }
}

/// The low pass filter for `f` Hz on board `device`.
pub fn lpf_word(device: u8, f: i32) -> (w: u32)
    ensures
        w == lpf_bits(device, f as int),
{
    if device == 5 {
        if f > 32000000 {
            LPF_6
        } else if f > 22000000 {
            LPF_12_10
        } else if f > 15000000 {
            LPF_17_15
        } else if f > 8000000 {
            LPF_30_20
        } else if f > 4500000 {
            LPF_60_40
        } else if f > 2400000 {
            LPF_80
        } else {
            LPF_160
        }
    } else if f > 35600000 {
        0x08
    } else if f > 24000000 {
        0x04
    } else if f > 16500000 {
        0x02
    } else if f > 8000000 {
        0x10
    } else if f > 5000000 {
        0x20
    } else {
        0x40
    }
}

/// What the high priority packet tells the radio: whether it transmits, where each
/// receiver in use is tuned, where the first two receivers are tuned (the first
/// chooses the ALEX filters, the second its own band pass filter and, when split, the
/// transmit frequency), the drive level byte, the antennas and the two receivers'
/// attenuation.
pub struct HighPriority {
    pub transmitting: bool,
    pub receivers: Vec<ReceiverTuning>,
    pub rx1: ReceiverTuning,
    pub rx2: ReceiverTuning,
    pub split: bool,
    pub drive_level: u8,
    pub tx_antenna: u32,
    pub rx_antenna: u32,
    pub rx1_attenuation: i32,
    pub rx2_attenuation: i32,
}

/// Whether a high priority state can be sent: the receivers in use are counted in a
/// byte.
pub open spec fn high_priority_ok(hp: &HighPriority) -> bool {
    hp.receivers@.len() <= 255
}

/// The phase word sent for transmit: the second receiver's when split, else that of
/// the last receiver in use (0 when none is).
pub open spec fn tx_phase_of(hp: &HighPriority) -> u32 {
    let rx = hp.receivers@;
    if hp.split {
        phase_of(tuned_single(hp.rx2))
    } else if rx.len() == 0 {
        0
    } else {
        phase_of(tuned_single(rx[rx.len() - 1]))
    }
}

/// The ALEX word for the first receiver: transmit enable while transmitting, the
/// selected antenna, and the band and low pass filters for its frequency.
pub open spec fn alex_word(device: u8, hp: &HighPriority) -> u32 {
    let f = hp.rx1.frequency as int;
    (if hp.transmitting { TX_ENABLE } else { 0 }) | antenna_bits(
        selected_antenna(hp.transmitting, hp.tx_antenna, hp.rx_antenna),
    ) | bpf_bits(f) | lpf_bits(device, f)
}

/// The ALEX word for the second receiver: its band pass filter.
pub open spec fn alex1_word(hp: &HighPriority) -> u32 {
    bpf_bits(hp.rx2.frequency as int)
}

/// `s` with the phase word of each of the first `k` receivers written at 9 + 4 i.
pub open spec fn with_receiver_phases(s: Seq<u8>, rx: Seq<ReceiverTuning>, k: int) -> Seq<u8>
    decreases k,
{
    if k <= 0 {
        s
    } else {
        write_bytes(
            with_receiver_phases(s, rx, k - 1),
            9 + 4 * (k - 1),
            be32(phase_of(tuned_single(rx[k - 1]))),
        )
    }
}

/// `n` zero bytes.
pub open spec fn zeros(n: nat) -> Seq<u8> {
    Seq::new(n, |i: int| 0u8)
}

/// The high priority packet numbered `seq` for board `device`: 1444 bytes, zero but
/// for the sequence number at 0, the run and transmit bits at 4, each receiver's
/// phase word from 9, the transmit phase word at 329, the drive level at 345 (0 when
/// receiving), the second receiver's filter word's low two bytes at 1430, the ALEX
/// word at 1432, and the attenuation of receivers 2 and 1 at 1442 and 1443 (0 when
/// transmitting).
pub open spec fn high_priority_packet(seq: u32, device: u8, hp: &HighPriority) -> Seq<u8> {
    let head = write_bytes(zeros(1444), 0, be32(seq)).update(
        4,
        if hp.transmitting { 0x03u8 } else { 0x01u8 },
    );
    let phases = with_receiver_phases(head, hp.receivers@, hp.receivers@.len() as int);
    let f1 = be32(alex1_word(hp));
    let body = write_bytes(phases, 329, be32(tx_phase_of(hp))).update(
        345,
        if hp.transmitting { hp.drive_level } else { 0u8 },
    ).update(1430, f1[2]).update(1431, f1[3]);
    write_bytes(body, 1432, be32(alex_word(device, hp))).update(
        1442,
        if hp.transmitting { 0u8 } else { hp.rx2_attenuation as u8 },
    ).update(1443, if hp.transmitting { 0u8 } else { hp.rx1_attenuation as u8 })
}

/// The general packet numbered `seq` for board `device`: 60 bytes, zero but for the
/// sequence number at 0, 8 at 37 (frequencies are sent as phase words), 1 at 38
/// (hardware timer), 1 at 58 (PA enabled) and at 59 the ALEX boards in use: both on
/// an Orion 2 (board 5), the first on any other.
pub open spec fn general_packet(seq: u32, device: u8) -> Seq<u8> {
    write_bytes(zeros(60), 0, be32(seq)).update(37, 0x08u8).update(38, 0x01u8).update(
        58,
        0x01u8,
    ).update(59, if device == 5 { 0x03u8 } else { 0x01u8 })
}

/// The sum over the first `k` converters of 2^i for those whose flag is set, the
/// flag being dither when `dither`, random otherwise.
pub open spec fn adc_mask(adcs: Seq<Adc>, k: int, dither: bool) -> int
    decreases k,
{
    if k <= 0 {
        0
    } else {
        adc_mask(adcs, k - 1, dither) + (if (if dither {
            adcs[k - 1].dither
        } else {
            adcs[k - 1].random
        }) {
            vstd::arithmetic::power2::pow2((k - 1) as nat) as int
        } else {
            0
        })
    }
}

/// The sample rate of a receiver's DDC and the converter it reads.
#[derive(Debug, Clone, Copy, PartialEq, Eq, Structural)]
pub struct DdcSetting {
    pub adc: usize,
    pub sample_rate: i32,
}

/// A sample rate in kHz, the division rounded toward zero.
pub open spec fn khz(sample_rate: i32) -> i32 {
    if sample_rate >= 0 {
        (sample_rate / 1000) as i32
    } else {
        (-((-sample_rate) / 1000)) as i32
    }
}

/// A sample rate in kHz, the division rounded toward zero.
fn sample_rate_khz(sample_rate: i32) -> (k: i32)
    ensures
        k == khz(sample_rate),
{
    let r = sample_rate as i64;
    if r >= 0 {
        (r / 1000) as i32
    } else {
        (-((-r) / 1000)) as i32
    }
}

/// `s` with each of the first `k` receivers' settings written from 17 + 6 i: its
/// converter, its sample rate in kHz in two bytes, and 24 bits per sample at 22 + 6 i.
pub open spec fn with_ddc_settings(s: Seq<u8>, ddcs: Seq<DdcSetting>, k: int) -> Seq<u8>
    decreases k,
{
    if k <= 0 {
        s
    } else {
        let at = 17 + 6 * (k - 1);
        let d = ddcs[k - 1];
        let rate = be16(khz(d.sample_rate));
        with_ddc_settings(s, ddcs, k - 1).update(at, d.adc as u8).update(at + 1, rate[0]).update(
            at + 2,
            rate[1],
        ).update(at + 5, 24u8)
    }
}

/// The receive specific packet numbered `seq`: 1444 bytes, zero but for the sequence
/// number, the number of converters at 4, their dither and random masks at 5 and 6,
/// 3 at 7 (DDC 0 and 1 enabled), and each receiver's settings from 17.
pub open spec fn receive_specific_packet(seq: u32, adcs: Seq<Adc>, ddcs: Seq<DdcSetting>) -> Seq<
    u8,
> {
    let head = write_bytes(zeros(1444), 0, be32(seq)).update(4, adcs.len() as u8).update(
        5,
        adc_mask(adcs, adcs.len() as int, true) as u8,
    ).update(6, adc_mask(adcs, adcs.len() as int, false) as u8).update(7, 0x03u8);
    with_ddc_settings(head, ddcs, ddcs.len() as int)
}

/// What the transmit specific packet tells the radio of the keyer and the microphone.
#[derive(Debug, Clone, Copy, PartialEq, Eq, Structural)]
pub struct TransmitSpecific {
    pub mode: usize,
    pub cw_keys_reversed: bool,
    pub cw_keyer_mode: Keyer,
    pub cw_keyer_sidetone_volume: i32,
    pub cw_keyer_spacing: i32,
    pub cw_breakin: bool,
    pub cw_keyer_sidetone_frequency: i32,
    pub cw_keyer_speed: i32,
    pub cw_keyer_weight: i32,
    pub cw_keyer_hang_time: i32,
    pub line_in: bool,
    pub mic_boost: bool,
    pub mic_ptt: bool,
    pub mic_bias_ring: bool,
    pub mic_bias_enable: bool,
    pub mic_saturn_xlr: bool,
}

/// The keyer mode byte: CW mode 0x02, keys reversed 0x04, mode A 0x08, mode B 0x28,
/// a sidetone 0x10, letter spacing 0x40, break-in 0x80.
pub open spec fn keyer_byte(t: TransmitSpecific) -> u8 {
    (if t.mode == cwl_index() || t.mode == cwu_index() { 0x02u8 } else { 0u8 }) | (if t.cw_keys_reversed {
        0x04u8
    } else {
        0u8
    }) | (if t.cw_keyer_mode == Keyer::ModeA { 0x08u8 } else { 0u8 }) | (if t.cw_keyer_mode
        == Keyer::ModeB {
        0x28u8
    } else {
        0u8
    }) | (if t.cw_keyer_sidetone_volume != 0 { 0x10u8 } else { 0u8 }) | (if t.cw_keyer_spacing
        != 0 {
        0x40u8
    } else {
        0u8
    }) | (if t.cw_breakin { 0x80u8 } else { 0u8 })
}

/// The microphone byte: line in 0x01, boost 0x02, PTT disabled 0x04, bias on the ring
/// 0x08, bias enabled 0x10, Saturn XLR input 0x20.
pub open spec fn mic_byte(t: TransmitSpecific) -> u8 {
    (if t.line_in { 0x01u8 } else { 0u8 }) | (if t.mic_boost { 0x02u8 } else { 0u8 }) | (if !t.mic_ptt {
        0x04u8
    } else {
        0u8
    }) | (if t.mic_bias_ring { 0x08u8 } else { 0u8 }) | (if t.mic_bias_enable {
        0x10u8
    } else {
        0u8
    }) | (if t.mic_saturn_xlr { 0x20u8 } else { 0u8 })
}

/// The transmit specific packet numbered `seq`: 60 bytes, zero but for the sequence
/// number, 1 DAC at 4, the keyer byte at 5, the sidetone volume at 6, the sidetone
/// frequency in two bytes at 7, the keyer speed and weight at 9 and 10, the hang time
/// in two bytes at 11 and the microphone byte at 50.
pub open spec fn transmit_specific_packet(seq: u32, t: TransmitSpecific) -> Seq<u8> {
    let tone = be16(t.cw_keyer_sidetone_frequency);
    let hang = be16(t.cw_keyer_hang_time);
    write_bytes(zeros(60), 0, be32(seq)).update(4, 1u8).update(5, keyer_byte(t)).update(
        6,
        t.cw_keyer_sidetone_volume as u8,
    ).update(7, tone[0]).update(8, tone[1]).update(9, t.cw_keyer_speed as u8).update(
        10,
        t.cw_keyer_weight as u8,
    ).update(11, hang[0]).update(12, hang[1]).update(50, mic_byte(t))
}

/// `s` with the first `k` IQ pairs written as 24 bit samples from byte 4, six bytes a
/// pair, I first.
pub open spec fn with_iq_samples(s: Seq<u8>, samples: Seq<i32>, k: int) -> Seq<u8>
    decreases k,
{
    if k <= 0 {
        s
    } else {
        let at = 4 + 6 * (k - 1);
        write_bytes(
            write_bytes(with_iq_samples(s, samples, k - 1), at, be24(samples[2 * (k - 1)])),
            at + 3,
            be24(samples[2 * (k - 1) + 1]),
        )
    }
}

/// The transmit IQ packet numbered `seq`: 1444 bytes, the sequence number then 240 IQ
/// pairs of 24 bit samples.
pub open spec fn iq_packet(seq: u32, samples: Seq<i32>) -> Seq<u8> {
    with_iq_samples(write_bytes(zeros(1444), 0, be32(seq)), samples, 240)
}

/// The numbers that the next packet of each kind will carry.
pub ghost struct Sequences {
    pub general: u32,
    pub high_priority: u32,
    pub receive_specific: u32,
    pub transmit_specific: u32,
    pub audio: u32,
    pub tx_iq: u32,
}

impl Sequences {
    /// The numbers after one packet of kind `kind` is sent (0 general, 1 high
    /// priority, 2 receive specific, 3 transmit specific, 4 audio, 5 transmit IQ):
    /// that kind's number moves on, the others stay.
    pub open spec fn advance(self, kind: int) -> Sequences {
        Sequences {
            general: if kind == 0 { next_seq(self.general) } else { self.general },
            high_priority: if kind == 1 { next_seq(self.high_priority) } else { self.high_priority },
            receive_specific: if kind == 2 {
                next_seq(self.receive_specific)
            } else {
                self.receive_specific
            },
            transmit_specific: if kind == 3 {
                next_seq(self.transmit_specific)
            } else {
                self.transmit_specific
            },
            audio: if kind == 4 { next_seq(self.audio) } else { self.audio },
            tx_iq: if kind == 5 { next_seq(self.tx_iq) } else { self.tx_iq },
        }
    }
}

/// The sequence numbered state of the protocol 2 link to one radio: one numbering for
/// each kind of packet the host sends.
pub struct Protocol2 {
    device: Device,
    general_sequence: u32,
    high_priority_sequence: u32,
    receive_specific_sequence: u32,
    transmit_specific_sequence: u32,
    audio_sequence: u32,
    tx_iq_sequence: u32,
}

impl Protocol2 {
    /// The radio this link talks to.
    pub closed spec fn dev(&self) -> Device {
        self.device
    }

    /// The radio this link talks to.
    pub fn device(&self) -> (d: Device)
        ensures
            d == self.dev(),
    {
        self.device
    }

    /// The numbers the next packet of each kind will carry.
    pub closed spec fn seqs(&self) -> Sequences {
        Sequences {
            general: self.general_sequence,
            high_priority: self.high_priority_sequence,
            receive_specific: self.receive_specific_sequence,
            transmit_specific: self.transmit_specific_sequence,
            audio: self.audio_sequence,
            tx_iq: self.tx_iq_sequence,
        }
    }

    /// A link to `device` with every numbering at 0.
    pub fn new(device: Device) -> (p: Protocol2)
        ensures
            p.dev() == device,
            p.seqs() == (Sequences {
                general: 0,
                high_priority: 0,
                receive_specific: 0,
                transmit_specific: 0,
                audio: 0,
                tx_iq: 0,
            }),
    {
        Protocol2 {
            device,
            general_sequence: 0,
            high_priority_sequence: 0,
            receive_specific_sequence: 0,
            transmit_specific_sequence: 0,
            audio_sequence: 0,
            tx_iq_sequence: 0,
        }
    }

    /// The next general packet, for port 1024; advances its numbering.
    pub fn send_general(&mut self) -> (buf: Vec<u8>)
        ensures
            buf@ == general_packet(old(self).seqs().general, old(self).dev().device),
            final(self).dev() == old(self).dev(),
            final(self).seqs() == old(self).seqs().advance(0),
    {
        let mut buf: Vec<u8> = vec![0u8; 60];
        assert(buf@ =~= zeros(60));
        put_u32(&mut buf, 0, self.general_sequence);
        buf.set(23, 0x00);
        buf.set(37, 0x08);
        buf.set(38, 0x01);
        buf.set(58, 0x01);
        if self.device.device == 5 {
            buf.set(59, 0x03);
        } else {
            buf.set(59, 0x01);
        }
        assert(buf@ =~= general_packet(self.general_sequence, self.device.device));
        self.general_sequence = next_sequence(self.general_sequence);
        buf
    }
    /// The next high priority packet, for port 1027, describing `hp`; advances its
    /// numbering.
    pub fn send_high_priority(&mut self, hp: &HighPriority) -> (buf: Vec<u8>)
        requires
            high_priority_ok(hp),
        ensures
            buf@ == high_priority_packet(old(self).seqs().high_priority, old(self).dev().device, hp),
            final(self).dev() == old(self).dev(),
            final(self).seqs() == old(self).seqs().advance(1),
    {
        let mut buf: Vec<u8> = vec![0u8; 1444];
        assert(buf@ =~= zeros(1444));
        put_u32(&mut buf, 0, self.high_priority_sequence);
        if hp.transmitting {
            buf.set(4, 0x03);
        } else {
            buf.set(4, 0x01);
        }
        let ghost head = buf@;
        let n = hp.receivers.len();
        let mut phase: u32 = 0;
        let mut i: usize = 0;
        while i < n
            invariant
                n == hp.receivers@.len(),
                n <= 255,
                i <= n,
                buf@ == with_receiver_phases(head, hp.receivers@, i as int),
                buf@.len() == 1444,
                i == 0 ==> phase == 0,
                i > 0 ==> phase == phase_of(tuned_single(hp.receivers@[i - 1])),
            decreases n - i,
        {
            phase = phase_word(tuned_single_frequency(&hp.receivers[i]));
            put_u32(&mut buf, 9 + 4 * i, phase);
            i = i + 1;
        }
        if hp.split {
            phase = phase_word(tuned_single_frequency(&hp.rx2));
        }
        assert(phase == tx_phase_of(hp));
        put_u32(&mut buf, 329, phase);
        if hp.transmitting {
            buf.set(345, hp.drive_level);
        } else {
            buf.set(345, 0);
        }
        let f = hp.rx1.frequency;
        let antenna = if hp.transmitting {
            hp.tx_antenna
        } else {
            hp.rx_antenna
        };
        let tx_bit: u32 = if hp.transmitting {
            TX_ENABLE
        } else {
            0
        };
        let filter: u32 = tx_bit | antenna_word(antenna) | bpf_word(f) | lpf_word(
            self.device.device,
            f,
        );
        let filter1: u32 = bpf_word(hp.rx2.frequency);
        let f1 = u32_to_be(filter1);
        buf.set(1430, f1[2]);
        buf.set(1431, f1[3]);
        put_u32(&mut buf, 1432, filter);
        if hp.transmitting {
            buf.set(1443, 0);
            buf.set(1442, 0);
        } else {
            buf.set(1443, hp.rx1_attenuation as u8);
            buf.set(1442, hp.rx2_attenuation as u8);
        }
        assert(buf@ =~= high_priority_packet(self.high_priority_sequence, self.device.device, hp));
        self.high_priority_sequence = next_sequence(self.high_priority_sequence);
        buf
    }

    /// The next receive specific packet, for port 1025, describing the converters
    /// `adcs` and the receivers' settings `ddcs`; advances its numbering.
    pub fn send_receive_specific(&mut self, adcs: &Vec<Adc>, ddcs: &Vec<DdcSetting>) -> (buf: Vec<
        u8,
    >)
        requires
            adcs@.len() <= 8,
            ddcs@.len() <= 237,
        ensures
            buf@ == receive_specific_packet(old(self).seqs().receive_specific, adcs@, ddcs@),
            final(self).dev() == old(self).dev(),
            final(self).seqs() == old(self).seqs().advance(2),
    {
        let mut buf: Vec<u8> = vec![0u8; 1444];
        assert(buf@ =~= zeros(1444));
        put_u32(&mut buf, 0, self.receive_specific_sequence);
        buf.set(4, adcs.len() as u8);
        let mut dither: u8 = 0;
        let mut random: u8 = 0;
        let mut bit: u16 = 1;
        let mut i: usize = 0;
        proof {
            vstd::arithmetic::power2::lemma2_to64();
        }
        while i < adcs.len()
            invariant
                adcs@.len() <= 8,
                i <= adcs@.len(),
                bit == vstd::arithmetic::power2::pow2(i as nat),
                dither == adc_mask(adcs@, i as int, true),
                random == adc_mask(adcs@, i as int, false),
                adc_mask(adcs@, i as int, true) < bit,
                adc_mask(adcs@, i as int, false) < bit,
            decreases adcs@.len() - i,
        {
            proof {
                vstd::arithmetic::power2::lemma_pow2_unfold((i + 1) as nat);
                vstd::arithmetic::power2::lemma2_to64();
            }
            if adcs[i].dither {
                dither = dither + bit as u8;
            }
            if adcs[i].random {
                random = random + bit as u8;
            }
            bit = bit * 2;
            i = i + 1;
        }
        buf.set(5, dither);
        buf.set(6, random);
        buf.set(7, 0x03);
        let ghost head = buf@;
        let mut k: usize = 0;
        while k < ddcs.len()
            invariant
                ddcs@.len() <= 237,
                k <= ddcs@.len(),
                buf@ == with_ddc_settings(head, ddcs@, k as int),
                buf@.len() == 1444,
            decreases ddcs@.len() - k,
        {
            let d = ddcs[k];
            let at = 17 + 6 * k;
            let ghost before = buf@;
            buf.set(at, d.adc as u8);
            let rate = i16_to_be(sample_rate_khz(d.sample_rate));
            buf.set(at + 1, rate[0]);
            buf.set(at + 2, rate[1]);
            buf.set(at + 5, 24);
            k = k + 1;
        }
        assert(buf@ =~= receive_specific_packet(self.receive_specific_sequence, adcs@, ddcs@));
        self.receive_specific_sequence = next_sequence(self.receive_specific_sequence);
        buf
    }

    /// The datagrams that carry the next receive specific packet to port 1025: the same
    /// packet, sent twice in a row; advances its numbering once.
    pub fn receive_specific_datagrams(&mut self, adcs: &Vec<Adc>, ddcs: &Vec<DdcSetting>) -> (out:
        Vec<Vec<u8>>)
        requires
            adcs@.len() <= 8,
            ddcs@.len() <= 237,
        ensures
            out@.len() == RECEIVE_SPECIFIC_COPIES,
            forall|i: int|
                0 <= i < out@.len() ==> #[trigger] out@[i]@ == receive_specific_packet(
                    old(self).seqs().receive_specific,
                    adcs@,
                    ddcs@,
                ),
            final(self).dev() == old(self).dev(),
            final(self).seqs() == old(self).seqs().advance(2),
    {
        let first = self.send_receive_specific(adcs, ddcs);
        let mut second: Vec<u8> = Vec::new();
        let mut i: usize = 0;
        while i < first.len()
            invariant
                i <= first@.len(),
                second@ == first@.subrange(0, i as int),
            decreases first@.len() - i,
        {
            second.push(first[i]);
            i = i + 1;
            assert(second@ =~= first@.subrange(0, i as int));
        }
        assert(second@ =~= first@);
        let mut out: Vec<Vec<u8>> = Vec::new();
        out.push(first);
        out.push(second);
        out
    }

    /// The next transmit specific packet, for port 1026, describing `t`; advances its
    /// numbering.
    pub fn send_transmit_specific(&mut self, t: &TransmitSpecific) -> (buf: Vec<u8>)
        ensures
            buf@ == transmit_specific_packet(old(self).seqs().transmit_specific, *t),
            final(self).dev() == old(self).dev(),
            final(self).seqs() == old(self).seqs().advance(3),
    {
        let mut buf: Vec<u8> = vec![0u8; 60];
        assert(buf@ =~= zeros(60));
        put_u32(&mut buf, 0, self.transmit_specific_sequence);
        buf.set(4, 1);
        let keyer: u8 = (if t.mode == Modes::CWL.to_usize() || t.mode == Modes::CWU.to_usize() {
            0x02u8
        } else {
            0u8
        }) | (if t.cw_keys_reversed {
            0x04u8
        } else {
            0u8
        }) | (if t.cw_keyer_mode == Keyer::ModeA {
            0x08u8
        } else {
            0u8
        }) | (if t.cw_keyer_mode == Keyer::ModeB {
            0x28u8
        } else {
            0u8
        }) | (if t.cw_keyer_sidetone_volume != 0 {
            0x10u8
        } else {
            0u8
        }) | (if t.cw_keyer_spacing != 0 {
            0x40u8
        } else {
            0u8
        }) | (if t.cw_breakin {
            0x80u8
        } else {
            0u8
        });
        buf.set(5, keyer);
        buf.set(6, t.cw_keyer_sidetone_volume as u8);
        let tone = i16_to_be(t.cw_keyer_sidetone_frequency);
        buf.set(7, tone[0]);
        buf.set(8, tone[1]);
        buf.set(9, t.cw_keyer_speed as u8);
        buf.set(10, t.cw_keyer_weight as u8);
        let hang = i16_to_be(t.cw_keyer_hang_time);
        buf.set(11, hang[0]);
        buf.set(12, hang[1]);
        let mic: u8 = (if t.line_in {
            0x01u8
        } else {
            0u8
        }) | (if t.mic_boost {
            0x02u8
        } else {
            0u8
        }) | (if !t.mic_ptt {
            0x04u8
        } else {
            0u8
        }) | (if t.mic_bias_ring {
            0x08u8
        } else {
            0u8
        }) | (if t.mic_bias_enable {
            0x10u8
        } else {
            0u8
        }) | (if t.mic_saturn_xlr {
            0x20u8
        } else {
            0u8
        });
        buf.set(50, mic);
        assert(buf@ =~= transmit_specific_packet(self.transmit_specific_sequence, *t));
        self.transmit_specific_sequence = next_sequence(self.transmit_specific_sequence);
        buf
    }

    /// The audio packet for port 1028 made of `audio` with the next audio number in its
    /// first four bytes; advances the numbering.
    pub fn send_audio(&mut self, audio: &Vec<u8>) -> (buf: Vec<u8>)
        requires
            audio@.len() >= 4,
        ensures
            buf@ == write_bytes(audio@, 0, be32(old(self).seqs().audio)),
            final(self).dev() == old(self).dev(),
            final(self).seqs() == old(self).seqs().advance(4),
    {
        let mut buf = audio.clone();
        assert(buf@ == audio@);
        put_u32(&mut buf, 0, self.audio_sequence);
        self.audio_sequence = next_sequence(self.audio_sequence);
        buf
    }

    /// The next transmit IQ packet, for port 1029, carrying the first 240 IQ pairs of
    /// `samples` (I then Q, 24 bit samples); advances its numbering.
    pub fn send_iq_buffer(&mut self, samples: &Vec<i32>) -> (buf: Vec<u8>)
        requires
            samples@.len() >= 2 * IQ_BUFFER_SIZE,
        ensures
            buf@ == iq_packet(old(self).seqs().tx_iq, samples@),
            final(self).dev() == old(self).dev(),
            final(self).seqs() == old(self).seqs().advance(5),
    {
        let mut buf: Vec<u8> = vec![0u8; 1444];
        assert(buf@ =~= zeros(1444));
        put_u32(&mut buf, 0, self.tx_iq_sequence);
        let ghost head = buf@;
        let mut i: usize = 0;
        while i < IQ_BUFFER_SIZE
            invariant
                samples@.len() >= 480,
                i <= 240,
                buf@ == with_iq_samples(head, samples@, i as int),
                buf@.len() == 1444,
            decreases 240 - i,
        {
            let b = 4 + 6 * i;
            put_i24(&mut buf, b, samples[2 * i]);
            put_i24(&mut buf, b + 3, samples[2 * i + 1]);
            i = i + 1;
        }
        self.tx_iq_sequence = next_sequence(self.tx_iq_sequence);
        buf
    }
}

/// What the radio reports in its high priority status packet.
#[derive(Debug, Clone, Copy, PartialEq, Eq, Structural)]
pub struct HighPriorityStatus {
    pub ptt: bool,
    pub dot: bool,
    pub dash: bool,
    pub pll_locked: bool,
    pub alex_forward_power: i32,
    pub alex_reverse_power: i32,
    pub supply_volts: i32,
}

/// Whether bit `k` of `b` is set.
pub open spec fn bit_of(b: u8, k: u8) -> bool {
    (b >> k) & 1 == 1
}

/// Whether bit `k` of `b` is set.
fn bit(b: u8, k: u8) -> (set: bool)
    requires
        k < 8,
    ensures
        set == bit_of(b, k),
{
    (b >> k) & 1 == 1
}

/// The status that a high priority status packet holds: PTT, dot and dash in bits 0, 1
/// and 2 of byte 4, PLL lock in bit 2 of byte 5, and the forward power, reverse power
/// and supply voltage as two byte numbers at 14, 22 and 49.
pub open spec fn high_priority_status(b: Seq<u8>) -> HighPriorityStatus {
    HighPriorityStatus {
        ptt: bit_of(b[4], 0),
        dot: bit_of(b[4], 1),
        dash: bit_of(b[4], 2),
        pll_locked: bit_of(b[5], 2),
        alex_forward_power: u16_of_be(b[14], b[15]) as i32,
        alex_reverse_power: u16_of_be(b[22], b[23]) as i32,
        supply_volts: u16_of_be(b[49], b[50]) as i32,
    }
}

/// The status in a high priority status packet received into `buffer`.
pub fn parse_high_priority_status(buffer: &[u8]) -> (status: HighPriorityStatus)
    requires
        buffer@.len() >= 51,
    ensures
        status == high_priority_status(buffer@),
{
    HighPriorityStatus {
        ptt: bit(buffer[4], 0),
        dot: bit(buffer[4], 1),
        dash: bit(buffer[4], 2),
        pll_locked: bit(buffer[5], 2),
        alex_forward_power: u16_from_be(buffer[14], buffer[15]) as i32,
        alex_reverse_power: u16_from_be(buffer[22], buffer[23]) as i32,
        supply_volts: u16_from_be(buffer[49], buffer[50]) as i32,
    }
}

/// Whether a microphone packet of `size` bytes holds its 64 samples.
pub open spec fn mic_packet_complete(size: int) -> bool {
    size >= MIC_HEADER_SIZE + MIC_SAMPLES * MIC_SAMPLE_SIZE
}

/// The 64 microphone samples of a packet of `size` bytes received into `buffer`: 16 bit
/// samples from byte 4. A packet too short to hold them gives none.
pub fn decode_mic_samples(buffer: &[u8], size: usize) -> (samples: Option<Vec<i32>>)
    requires
        size <= buffer@.len(),
    ensures
        samples is Some <==> mic_packet_complete(size as int),
        samples matches Some(v) ==> v@.len() == MIC_SAMPLES && forall|i: int|
            0 <= i < MIC_SAMPLES ==> #[trigger] v@[i] == i16_of_be(
                buffer@[4 + 2 * i],
                buffer@[5 + 2 * i],
            ),
{
    if size < MIC_HEADER_SIZE + MIC_SAMPLES * MIC_SAMPLE_SIZE {
        return None;
    }
    let mut samples: Vec<i32> = Vec::new();
    let mut b: usize = MIC_HEADER_SIZE;
    let mut i: usize = 0;
    while i < MIC_SAMPLES
        invariant
            size <= buffer@.len(),
            mic_packet_complete(size as int),
            i <= MIC_SAMPLES,
            b == 4 + 2 * i,
            samples@.len() == i,
            forall|j: int|
                0 <= j < i ==> #[trigger] samples@[j] == i16_of_be(
                    buffer@[4 + 2 * j],
                    buffer@[5 + 2 * j],
                ),
        decreases MIC_SAMPLES - i,
    {
        samples.push(i16_from_be(buffer[b], buffer[b + 1]));
        b = b + 2;
        i = i + 1;
    }
    Some(samples)
}

/// The number of IQ pairs a receiver IQ packet announces, in bytes 14 and 15.
pub open spec fn iq_sample_count(b: Seq<u8>) -> int {
    u16_of_be(b[14], b[15])
}

/// Whether a receiver IQ packet of `size` bytes holds all the pairs it announces.
pub open spec fn iq_packet_complete(b: Seq<u8>, size: int) -> bool {
    size >= HEADER_SIZE + iq_sample_count(b) * SAMPLE_SIZE * INTERLEAVE_FACTOR
}

/// The IQ pairs of a receiver IQ packet of `size` bytes received into `buffer`: the
/// count at 14, then from 16 each pair as two 24 bit samples, I first. A packet too
/// short to hold what it announces gives none.
pub fn decode_iq_samples(buffer: &[u8], size: usize) -> (pairs: Option<Vec<(i32, i32)>>)
    requires
        HEADER_SIZE <= buffer@.len(),
        size <= buffer@.len(),
    ensures
        pairs is Some <==> iq_packet_complete(buffer@, size as int),
        pairs matches Some(v) ==> v@.len() == iq_sample_count(buffer@) && forall|i: int|
            0 <= i < v@.len() ==> #[trigger] v@[i] == (
                i24_of_be(buffer@[16 + 6 * i], buffer@[17 + 6 * i], buffer@[18 + 6 * i]) as i32,
                i24_of_be(buffer@[19 + 6 * i], buffer@[20 + 6 * i], buffer@[21 + 6 * i]) as i32,
            ),
{
    let count = u16_from_be(buffer[14], buffer[15]) as usize;
    if size < HEADER_SIZE + count * SAMPLE_SIZE * INTERLEAVE_FACTOR {
        return None;
    }
    let mut pairs: Vec<(i32, i32)> = Vec::new();
    let mut b: usize = HEADER_SIZE;
    let mut i: usize = 0;
    while i < count
        invariant
            count == iq_sample_count(buffer@),
            size <= buffer@.len(),
            HEADER_SIZE + count * 6 <= size,
            i <= count,
            b == 16 + 6 * i,
            pairs@.len() == i,
            forall|j: int|
                0 <= j < i ==> #[trigger] pairs@[j] == (
                    i24_of_be(buffer@[16 + 6 * j], buffer@[17 + 6 * j], buffer@[18 + 6 * j]) as i32,
                    i24_of_be(buffer@[19 + 6 * j], buffer@[20 + 6 * j], buffer@[21 + 6 * j]) as i32,
                ),
        decreases count - i,
    {
        let i_sample = i24_from_be(buffer[b], buffer[b + 1], buffer[b + 2]);
        let q_sample = i24_from_be(buffer[b + 3], buffer[b + 4], buffer[b + 5]);
        pairs.push((i_sample, q_sample));
        b = b + 6;
        i = i + 1;
    }
    Some(pairs)
}

/// What a packet from the radio carries, by the port it comes from.
#[derive(Debug, Clone, Copy, PartialEq, Eq, Structural)]
pub enum Protocol2Packet {
    /// Port 1024.
    CommandResponse,
    /// Port 1025.
    HighPriorityStatus,
    /// Port 1026.
    Microphone,
    /// Port 1027.
    WideBand,
    /// Ports 1035 to 1042: the IQ samples of DDC 0 to 7.
    ReceiverIq(usize),
    /// Any other port.
    Unknown,
}

/// What a packet from `port` carries.
pub open spec fn packet_kind(port: u16) -> Protocol2Packet {
    if port == 1024 {
        Protocol2Packet::CommandResponse
    } else if port == 1025 {
        Protocol2Packet::HighPriorityStatus
    } else if port == 1026 {
        Protocol2Packet::Microphone
    } else if port == 1027 {
        Protocol2Packet::WideBand
    } else if 1035 <= port <= 1042 {
        Protocol2Packet::ReceiverIq((port - 1035) as usize)
    } else {
        Protocol2Packet::Unknown
    }
}

/// What a packet from `port` carries.
pub fn classify_port(port: u16) -> (kind: Protocol2Packet)
    ensures
        kind == packet_kind(port),
{
    if port == 1024 {
        Protocol2Packet::CommandResponse
    } else if port == 1025 {
        Protocol2Packet::HighPriorityStatus
    } else if port == 1026 {
        Protocol2Packet::Microphone
    } else if port == 1027 {
        Protocol2Packet::WideBand
    } else if 1035 <= port && port <= 1042 {
        Protocol2Packet::ReceiverIq((port - 1035) as usize)
    } else {
        Protocol2Packet::Unknown
    }
}

/// Whether the samples of DDC `ddc` are used: always those of the first, those of the
/// second only while the second receiver is enabled, never those of another.
pub fn ddc_in_use(ddc: usize, rx2_enabled: bool) -> (used: bool)
    ensures
        used <==> (ddc == 0 || (ddc == 1 && rx2_enabled)),
{
    ddc == 0 || (ddc == 1 && rx2_enabled)
}

/// The pair of samples that DDC `ddc` plays on the local sound device: the first
/// plays its left channel, and its right one too unless the second receiver is
/// enabled, which then plays its right channel alone; any other DDC plays nothing.
pub fn local_channels(ddc: usize, rx2_enabled: bool, left: i16, right: i16) -> (pair: (i16, i16))
    ensures
        pair == (if ddc == 0 {
            (left, if rx2_enabled { 0i16 } else { right })
        } else if ddc == 1 {
            (0i16, right)
        } else {
            (0i16, 0i16)
        }),
{
    if ddc == 0 {
        (left, if rx2_enabled { 0 } else { right })
    } else if ddc == 1 {
        (0, right)
    } else {
        (0, 0)
    }
}

/// Every transmit IQ packet carries 240 pairs that read back as the samples given, for
/// samples that fit in 24 bits: the I sample of pair `i` at 4 + 6 i and its Q sample
/// three bytes on.
pub proof fn lemma_iq_packet_round_trip(seq: u32, samples: Seq<i32>, i: int)
    requires
        samples.len() >= 480,
        0 <= i < 240,
        -0x800000 <= samples[2 * i] < 0x800000,
        -0x800000 <= samples[2 * i + 1] < 0x800000,
    ensures
        iq_packet(seq, samples).len() == 1444,
        i24_of_be(
            iq_packet(seq, samples)[4 + 6 * i],
            iq_packet(seq, samples)[5 + 6 * i],
            iq_packet(seq, samples)[6 + 6 * i],
        ) == samples[2 * i],
        i24_of_be(
            iq_packet(seq, samples)[7 + 6 * i],
            iq_packet(seq, samples)[8 + 6 * i],
            iq_packet(seq, samples)[9 + 6 * i],
        ) == samples[2 * i + 1],
{
    lemma_iq_samples_stay(write_bytes(zeros(1444), 0, be32(seq)), samples, 240, i);
    crate::bytes::lemma_i24_round_trip(samples[2 * i]);
    crate::bytes::lemma_i24_round_trip(samples[2 * i + 1]);
}

proof fn lemma_iq_samples_stay(s: Seq<u8>, samples: Seq<i32>, k: int, i: int)
    requires
        s.len() == 1444,
        samples.len() >= 480,
        0 <= i < k <= 240,
    ensures
        with_iq_samples(s, samples, k).len() == 1444,
        with_iq_samples(s, samples, k).subrange(4 + 6 * i, 7 + 6 * i) == be24(samples[2 * i]),
        with_iq_samples(s, samples, k).subrange(7 + 6 * i, 10 + 6 * i) == be24(samples[2 * i + 1]),
    decreases k,
{
    lemma_iq_len(s, samples, k - 1);
    if i < k - 1 {
        lemma_iq_samples_stay(s, samples, k - 1, i);
        let prev = with_iq_samples(s, samples, k - 1);
        assert(with_iq_samples(s, samples, k).subrange(4 + 6 * i, 7 + 6 * i) =~= prev.subrange(
            4 + 6 * i,
            7 + 6 * i,
        ));
        assert(with_iq_samples(s, samples, k).subrange(7 + 6 * i, 10 + 6 * i) =~= prev.subrange(
            7 + 6 * i,
            10 + 6 * i,
        ));
    } else {
        assert(with_iq_samples(s, samples, k).subrange(4 + 6 * i, 7 + 6 * i) =~= be24(
            samples[2 * i],
        ));
        assert(with_iq_samples(s, samples, k).subrange(7 + 6 * i, 10 + 6 * i) =~= be24(
            samples[2 * i + 1],
        ));
    }
}

proof fn lemma_iq_len(s: Seq<u8>, samples: Seq<i32>, k: int)
    requires
        s.len() == 1444,
        k <= 240,
    ensures
        with_iq_samples(s, samples, k).len() == 1444,
    decreases k,
{
    if k > 0 {
        lemma_iq_len(s, samples, k - 1);
    }
}

proof fn lemma_phases_keep_head(s: Seq<u8>, rx: Seq<ReceiverTuning>, k: int)
    requires
        s.len() == 1444,
        k <= 255,
    ensures
        with_receiver_phases(s, rx, k).len() == 1444,
        with_receiver_phases(s, rx, k).subrange(0, 4) == s.subrange(0, 4),
    decreases k,
{
    if k > 0 {
        lemma_phases_keep_head(s, rx, k - 1);
        let prev = with_receiver_phases(s, rx, k - 1);
        assert(with_receiver_phases(s, rx, k).subrange(0, 4) =~= prev.subrange(0, 4));
    }
}

proof fn lemma_ddcs_keep_head(s: Seq<u8>, ddcs: Seq<DdcSetting>, k: int)
    requires
        s.len() == 1444,
        k <= 237,
    ensures
        with_ddc_settings(s, ddcs, k).len() == 1444,
        with_ddc_settings(s, ddcs, k).subrange(0, 4) == s.subrange(0, 4),
    decreases k,
{
    if k > 0 {
        lemma_ddcs_keep_head(s, ddcs, k - 1);
        let prev = with_ddc_settings(s, ddcs, k - 1);
        assert(with_ddc_settings(s, ddcs, k).subrange(0, 4) =~= prev.subrange(0, 4));
    }
}

proof fn lemma_iq_keep_head(s: Seq<u8>, samples: Seq<i32>, k: int)
    requires
        s.len() == 1444,
        k <= 240,
    ensures
        with_iq_samples(s, samples, k).subrange(0, 4) == s.subrange(0, 4),
    decreases k,
{
    if k > 0 {
        lemma_iq_keep_head(s, samples, k - 1);
        lemma_iq_len(s, samples, k - 1);
        let prev = with_iq_samples(s, samples, k - 1);
        assert(with_iq_samples(s, samples, k).subrange(0, 4) =~= prev.subrange(0, 4));
    }
}

/// Every packet the host sends starts with its sequence number: the first four bytes
/// of the general, high priority, receive specific, transmit specific and transmit IQ
/// packets numbered `seq` are the number, most significant byte first, and read back
/// as the number.
pub proof fn lemma_packet_sequence(
    seq: u32,
    device: u8,
    hp: &HighPriority,
    adcs: Seq<Adc>,
    ddcs: Seq<DdcSetting>,
    t: TransmitSpecific,
    samples: Seq<i32>,
)
    requires
        high_priority_ok(hp),
        adcs.len() <= 8,
        ddcs.len() <= 237,
    ensures
        general_packet(seq, device).subrange(0, 4) == be32(seq),
        high_priority_packet(seq, device, hp).subrange(0, 4) == be32(seq),
        receive_specific_packet(seq, adcs, ddcs).subrange(0, 4) == be32(seq),
        transmit_specific_packet(seq, t).subrange(0, 4) == be32(seq),
        iq_packet(seq, samples).subrange(0, 4) == be32(seq),
        crate::bytes::u32_of_be(be32(seq)[0], be32(seq)[1], be32(seq)[2], be32(seq)[3]) == seq,
{
    crate::bytes::lemma_u32_round_trip(seq);
    let base1444 = write_bytes(zeros(1444), 0, be32(seq));
    let base60 = write_bytes(zeros(60), 0, be32(seq));
    assert(base1444.subrange(0, 4) =~= be32(seq));
    assert(base60.subrange(0, 4) =~= be32(seq));
    assert(general_packet(seq, device).subrange(0, 4) =~= be32(seq));
    assert(transmit_specific_packet(seq, t).subrange(0, 4) =~= be32(seq));

    let head = base1444.update(4, if hp.transmitting { 0x03u8 } else { 0x01u8 });
    assert(head.subrange(0, 4) =~= be32(seq));
    lemma_phases_keep_head(head, hp.receivers@, hp.receivers@.len() as int);
    assert(high_priority_packet(seq, device, hp).subrange(0, 4) =~= with_receiver_phases(
        head,
        hp.receivers@,
        hp.receivers@.len() as int,
    ).subrange(0, 4));

    let rhead = base1444.update(4, adcs.len() as u8).update(
        5,
        adc_mask(adcs, adcs.len() as int, true) as u8,
    ).update(6, adc_mask(adcs, adcs.len() as int, false) as u8).update(7, 0x03u8);
    assert(rhead.subrange(0, 4) =~= be32(seq));
    lemma_ddcs_keep_head(rhead, ddcs, ddcs.len() as int);

    lemma_iq_keep_head(base1444, samples, 240);
}

/// The band pass word picks one high pass filter for each stretch of the spectrum:
/// bypass below 1.5 MHz, the 1.5 MHz filter to 2.1 MHz, the 6.5 MHz filter to
/// 5.5 MHz, the 9.5 MHz filter to 11 MHz, the 13 MHz filter to 22 MHz, the 20 MHz
/// filter to 35 MHz and the 6 m preamplifier above; the stretches meet end to end, and
/// each filter serves exactly one of them.
pub proof fn lemma_band_pass_ranges(f: int)
    ensures
        f < 1500000 <==> bpf_bits(f) == BYPASS,
        1500000 <= f < 2100000 <==> bpf_bits(f) == HPF_1_5MHZ,
        2100000 <= f < 5500000 <==> bpf_bits(f) == HPF_6_5MHZ,
        5500000 <= f < 11000000 <==> bpf_bits(f) == HPF_9_5MHZ,
        11000000 <= f < 22000000 <==> bpf_bits(f) == HPF_13MHZ,
        22000000 <= f < 35000000 <==> bpf_bits(f) == HPF_20MHZ,
        35000000 <= f <==> bpf_bits(f) == PREAMP_6M,
{
}

/// On an Orion MkII (board 5) the low pass word picks one filter for each stretch of
/// the spectrum: 160 m to 2.4 MHz, 80 m to 4.5 MHz, 60/40 m to 8 MHz, 30/20 m to
/// 15 MHz, 17/15 m to 22 MHz, 12/10 m to 32 MHz and 6 m above, each stretch including
/// its top.
pub proof fn lemma_low_pass_ranges(f: int)
    ensures
        f <= 2400000 <==> lpf_bits(5, f) == LPF_160,
        2400000 < f <= 4500000 <==> lpf_bits(5, f) == LPF_80,
        4500000 < f <= 8000000 <==> lpf_bits(5, f) == LPF_60_40,
        8000000 < f <= 15000000 <==> lpf_bits(5, f) == LPF_30_20,
        15000000 < f <= 22000000 <==> lpf_bits(5, f) == LPF_17_15,
        22000000 < f <= 32000000 <==> lpf_bits(5, f) == LPF_12_10,
        32000000 < f <==> lpf_bits(5, f) == LPF_6,
{
}

/// The band pass bits of the whole ALEX word (bypass, the high pass filters and the
/// 6 m preamplifier).
pub const BPF_MASK: u32 = 0x0000107E;

/// Each amateur band's stored ALEX word selects the same band pass filter that the
/// high priority packet chooses for the frequency the band starts on.
pub proof fn lemma_band_filters_agree(b: crate::bands::Bands)
    requires
        crate::bands::is_amateur(b),
    ensures
        crate::bands::band_filters(b) & BPF_MASK == bpf_bits(crate::bands::band_initial(b) as int),
{
    assert(0x00001000u32 & 0x107Eu32 == 0x00001000u32) by (bit_vector);
    assert(0x01800040u32 & 0x107Eu32 == 0x00000040u32) by (bit_vector);
    assert(0x01400020u32 & 0x107Eu32 == 0x00000020u32) by (bit_vector);
    assert(0x01200020u32 & 0x107Eu32 == 0x00000020u32) by (bit_vector);
    assert(0x01200010u32 & 0x107Eu32 == 0x00000010u32) by (bit_vector);
    assert(0x01100002u32 & 0x107Eu32 == 0x00000002u32) by (bit_vector);
    assert(0x81000002u32 & 0x107Eu32 == 0x00000002u32) by (bit_vector);
    assert(0x41000004u32 & 0x107Eu32 == 0x00000004u32) by (bit_vector);
    assert(0x21000008u32 & 0x107Eu32 == 0x00000008u32) by (bit_vector);
}

} // verus!
