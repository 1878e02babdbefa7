use vstd::prelude::*;

use crate::bytes::{
    be16, be32, i16_from_be, i16_of_be, i24_from_be, i24_of_be, next_seq, next_sequence, put_i16,
    put_u32, u32_from_be, u32_of_be, u32_to_be, write_bytes,
};
use crate::discovery::Device;
use crate::protocol2::{tuned, tuned_frequency, ReceiverTuning};

verus! {

/// Bytes in one frame to or from the radio's Ozy interface.
pub const OZY_BUFFER_SIZE: usize = 512;
/// Bytes in one Metis datagram: an 8 byte header and two Ozy frames.
pub const METIS_BUFFER_SIZE: usize = 1032;
/// The byte that starts each Ozy frame, three times.
pub const SYNC: u8 = 0x7F;

/// What the control bytes of a frame to the radio are made from.
#[derive(Debug, Clone, Copy, PartialEq, Eq, Structural)]
pub struct ControlState {
    /// The first receiver's sample rate in Hz.
    pub sample_rate: i32,
    /// The antenna of the first receiver's converter.
    pub rx_antenna: u32,
    /// Where the first receiver is tuned.
    pub rx1: ReceiverTuning,
    /// The frequency in Hz of the second receiver.
    pub rx2_frequency: i32,
    pub split: bool,
    pub mic_boost: bool,
    pub mic_ptt: bool,
    pub mic_bias_enable: bool,
    pub mic_bias_ring: bool,
    /// The first receiver's attenuation.
    pub attenuation: i32,
    /// The first receiver's gain, which a Hermes Lite uses in place of attenuation.
    pub rxgain: i32,
    /// The board number of the radio.
    pub dev: u8,
    pub transmitting: bool,
}

/// `x` clamped to the 32 bit signed range.
pub open spec fn clamp_i32(x: int) -> i32 {
    if x > i32::MAX {
        i32::MAX
    } else if x < i32::MIN {
        i32::MIN
    } else {
        x as i32
    }
}

/// `x` clamped to the 32 bit signed range.
pub(crate) fn clamp_to_i32(x: i64) -> (y: i32)
    ensures
        y == clamp_i32(x as int),
{
    if x > i32::MAX as i64 {
        i32::MAX
    } else if x < i32::MIN as i64 {
        i32::MIN
    } else {
        x as i32
    }
}

/// The transmit frequency: the second receiver's when split, the first's otherwise,
/// each moved by the first receiver's CW pitch when it is in a CW mode.
pub open spec fn tx_frequency(c: ControlState) -> i32 {
    if c.split {
        clamp_i32(tuned(ReceiverTuning { frequency: c.rx2_frequency, ..c.rx1 }))
    } else {
        clamp_i32(tuned(c.rx1))
    }
}

/// The code of a sample rate in the configuration frame: 48, 96, 192 and 384 kHz are
/// 0 to 3; any other rate is 0.
pub open spec fn sample_rate_code(rate: i32) -> u8 {
    if rate == 96000 {
        1
    } else if rate == 192000 {
        2
    } else if rate == 384000 {
        3
    } else {
        0
    }
}

/// The antenna code of the configuration frame: antennas 0 to 2 by number, any other
/// number 0.
pub open spec fn antenna_code(antenna: u32) -> u8 {
    if antenna == 1 {
        1
    } else if antenna == 2 {
        2
    } else {
        0
    }
}

/// The attenuation byte of command 4. A Hermes Lite 2 (board 6 with firmware above 42)
/// takes its gain plus 12 in six bits with bit 6 set; a Hermes Lite 1 takes nothing;
/// other boards take the attenuation in five bits with bit 5 set.
pub open spec fn attenuation_byte(c: ControlState, device: u8, version: u8) -> u8 {
    let attenuation = if c.dev == 6 { c.rxgain } else { c.attenuation };
    if device == 6 {
        if version > 42 {
            (0x40 + ((attenuation + 12) % 64)) as u8
        } else {
            0
        }
    } else {
        (0x20 + (attenuation % 32)) as u8
    }
}

/// The five control bytes C0 to C4 of command `command`, before the MOX bit: 1 the
/// transmit frequency, 2 the frequency of receiver `rx` (its register 4 + 2 rx), 3 the
/// microphone boost, 4 the microphone PTT and bias and the attenuation, 5 to 11 fixed
/// settings.
pub open spec fn command_bytes(
    c: ControlState,
    command: u8,
    rx: u8,
    device: u8,
    version: u8,
) -> Seq<u8> {
    if command == 1 {
        seq![0x02u8] + be32(tx_frequency(c) as u32)
    } else if command == 2 {
        let f = if rx == 0 { c.rx1.frequency } else { c.rx2_frequency };
        seq![(0x04 + 2 * rx) as u8] + be32(f as u32)
    } else if command == 3 {
        seq![0x12u8, 0x00u8, if c.mic_boost { 0x01u8 } else { 0x00u8 }, 0x00u8, 0x00u8]
    } else if command == 4 {
        seq![
            0x14u8,
            (if c.mic_ptt { 0x40u8 } else { 0u8 }) | (if c.mic_bias_enable { 0x20u8 } else { 0u8 })
                | (if c.mic_bias_ring { 0x10u8 } else { 0u8 }),
            0x00u8,
            0x00u8,
            attenuation_byte(c, device, version),
        ]
    } else if command == 5 {
        seq![0x16u8, 0x00u8, 0x00u8, 0x0Cu8, 0x1Eu8]
    } else if command == 6 {
        seq![0x1Cu8, 0x00u8, 0x00u8, 0x00u8, 0x00u8]
    } else if command == 7 {
        seq![0x1Eu8, 0x00u8, 0x14u8, 0x14u8, 0x00u8]
    } else if command == 8 {
        seq![0x20u8, 0x00u8, 0x00u8, 0x28u8, 0x0Au8]
    } else if command == 9 {
        seq![0x22u8, 0x19u8, 0x00u8, 0xC8u8, 0x00u8]
    } else if command == 10 {
        seq![0x24u8, 0x00u8, 0x00u8, 0x00u8, 0x00u8]
    } else {
        seq![0x2Eu8, 0x00u8, 0x00u8, 0x04u8, 0x15u8]
    }
}

/// The five control bytes of the configuration frame that opens each datagram: the
/// sample rate code in C1, the antenna in C3, and the antenna and the number of
/// receivers less one (in bits 3 and up) in C4.
pub open spec fn config_bytes(c: ControlState, receivers: u8) -> Seq<u8> {
    seq![
        0x00u8,
        sample_rate_code(c.sample_rate),
        0x00u8,
        antenna_code(c.rx_antenna),
        antenna_code(c.rx_antenna) | (((receivers - 1) as u8) << 3u8),
    ]
}

/// The control bytes with the MOX bit set in C0 while transmitting.
pub open spec fn with_mox(bytes: Seq<u8>, transmitting: bool) -> Seq<u8> {
    if transmitting {
        bytes.update(0, bytes[0] | 0x01u8)
    } else {
        bytes
    }
}

/// The header of a Metis datagram carrying Ozy frames: EF FE 01 02 and the sequence
/// number.
pub open spec fn metis_header(seq: u32) -> Seq<u8> {
    seq![0xEFu8, 0xFEu8, 0x01u8, 0x02u8] + be32(seq)
}

/// Whether `d` is a datagram numbered `seq` as the link sends them: 1032 bytes, the
/// header with the number, then two frames of 512 bytes that each begin with three
/// sync bytes.
pub open spec fn framed_datagram(d: Seq<u8>, seq: u32) -> bool {
    &&& d.len() == METIS_BUFFER_SIZE
    &&& d.subrange(0, 8) == metis_header(seq)
    &&& frame_synced(d, 8)
    &&& frame_synced(d, 8 + OZY_BUFFER_SIZE as int)
}

/// The host side of a protocol 1 link: the frame being filled, the datagram being
/// assembled from two frames, and the cycle of commands the control bytes go through.
pub struct Protocol1 {
    device: Device,
    send_sequence: u32,
    receivers: u8,
    current_receiver: u8,
    iq_samples: i32,
    ozy_buffer: Vec<u8>,
    ozy_buffer_offset: usize,
    ozy_command: u8,
    metis_buffer: Vec<u8>,
    metis_buffer_offset: usize,
}

impl Protocol1 {
    /// The link's internal consistency: both buffers at their sizes, the datagram
    /// half or not yet begun, the frame offset on an 8 byte boundary within the frame,
    /// the command in 1 to 11, and the receiver count and round consistent.
    pub closed spec fn wf(&self) -> bool {
        &&& self.ozy_buffer@.len() == OZY_BUFFER_SIZE
        &&& self.metis_buffer@.len() == METIS_BUFFER_SIZE
        &&& self.metis_buffer_offset == 8 || self.metis_buffer_offset == 520
        &&& 8 <= self.ozy_buffer_offset < OZY_BUFFER_SIZE
        &&& self.ozy_buffer_offset % 8 == 0
        &&& 1 <= self.ozy_command <= 11
        &&& 1 <= self.receivers <= 8
        &&& self.current_receiver < self.receivers
        &&& self.iq_samples == (512 - 8) / (self.receivers * 6 + 2)
        &&& self.metis_buffer_offset == 520 ==> frame_synced(self.metis_buffer@, 8)
    }

    /// The radio this link talks to.
    pub closed spec fn dev(&self) -> Device {
        self.device
    }

    /// The number the next datagram will carry.
    pub closed spec fn send_seq(&self) -> u32 {
        self.send_sequence
    }

    /// The command that the next frame after a configuration frame carries.
    pub closed spec fn command(&self) -> u8 {
        self.ozy_command
    }

    /// The receiver whose frequency command 2 sends next.
    pub closed spec fn current_rx(&self) -> u8 {
        self.current_receiver
    }

    /// The number of receivers whose samples each frame carries.
    pub closed spec fn rx_count(&self) -> u8 {
        self.receivers
    }

    /// The number of sample slots in a frame from the radio.
    pub closed spec fn samples_per_frame(&self) -> i32 {
        self.iq_samples
    }

    /// The frame being filled.
    pub closed spec fn frame(&self) -> Seq<u8> {
        self.ozy_buffer@
    }

    /// Where the next samples go in the frame being filled.
    pub closed spec fn frame_offset(&self) -> int {
        self.ozy_buffer_offset as int
    }

    /// Whether the first frame of the next datagram has been placed, so the next frame
    /// completes it.
    pub closed spec fn half_full(&self) -> bool {
        self.metis_buffer_offset == 520
    }

    /// The first frame of the datagram being assembled.
    pub closed spec fn first_frame(&self) -> Seq<u8> {
        self.metis_buffer@.subrange(8, 520)
    }

    /// What a consistent link always holds: a 512 byte frame being filled and a 512 byte
    /// first frame, a command from 1 to 11, from 1 to 8 receivers and a current receiver
    /// among them.
    pub proof fn lemma_wf(&self)
        requires
            self.wf(),
        ensures
            self.frame().len() == OZY_BUFFER_SIZE,
            self.first_frame().len() == OZY_BUFFER_SIZE,
            1 <= self.command() <= 11,
            1 <= self.rx_count() <= 8,
            self.current_rx() < self.rx_count(),
    {
    }

    /// A link to `device` for two receivers: 36 sample slots a frame, command 1 next,
    /// the first frame's samples from offset 8, no datagram begun, numbering at 0.
    pub fn new(device: Device) -> (p: Protocol1)
        ensures
            p.wf(),
            p.dev() == device,
            p.send_seq() == 0,
            p.command() == 1,
            p.current_rx() == 0,
            p.rx_count() == 2,
            p.samples_per_frame() == 36,
            p.frame_offset() == 8,
            !p.half_full(),
    {
        let receivers: u8 = 2;
        let slot: i32 = (receivers as i32 * 6) + 2;
        let iq_samples: i32 = (512 - 8) / slot;
        assert(iq_samples == 36) by (nonlinear_arith)
            requires
                slot == 14,
                iq_samples == 504int / (slot as int),
        ;
        Protocol1 {
            device,
            send_sequence: 0,
            receivers,
            current_receiver: 0,
            iq_samples,
            ozy_buffer: vec![0u8; OZY_BUFFER_SIZE],
            ozy_buffer_offset: 8,
            ozy_command: 1,
            metis_buffer: vec![0u8; METIS_BUFFER_SIZE],
            metis_buffer_offset: 8,
        }
    }

    /// The radio this link talks to.
    pub fn device(&self) -> (d: Device)
        ensures
            d == self.dev(),
    {
        self.device
    }

    /// The command that the next frame after a configuration frame carries.
    pub fn ozy_command(&self) -> (c: u8)
        requires
            self.wf(),
        ensures
            c == self.command(),
            1 <= c <= 11,
    {
        self.ozy_command
    }

    /// The number of sample slots in a frame from the radio.
    pub fn iq_samples(&self) -> (n: i32)
        ensures
            n == self.samples_per_frame(),
    {
        self.iq_samples
    }

    /// The number of receivers whose samples each frame carries.
    pub fn receivers(&self) -> (n: u8)
        requires
            self.wf(),
        ensures
            n == self.rx_count(),
            1 <= n <= 8,
    {
        self.receivers
    }

    /// Closes the frame being filled with the three sync bytes and its control bytes
    /// (a configuration frame when it is the first of a datagram, else the current
    /// command), and places it in the datagram. The first frame of a datagram gives
    /// nothing to send; the second gives the datagram: the header with the next
    /// number, the first frame, then this one.
    pub fn send_ozy_buffer(&mut self, c: &ControlState) -> (datagram: Option<Vec<u8>>)
        requires
            old(self).wf(),
        ensures
            final(self).wf(),
            ({
                let ctl = with_mox(
                    if !old(self).half_full() {
                        config_bytes(*c, old(self).rx_count())
                    } else {
                        command_bytes(
                            *c,
                            old(self).command(),
                            old(self).current_rx(),
                            old(self).dev().device,
                            old(self).dev().version,
                        )
                    },
                    c.transmitting,
                );
                let frame = write_bytes(old(self).frame(), 0, seq![SYNC, SYNC, SYNC] + ctl);
                &&& final(self).frame() == frame
                &&& if old(self).half_full() {
                    &&& datagram matches Some(d) && d@ == metis_header(old(self).send_seq())
                        + old(self).first_frame() + frame
                    &&& final(self).send_seq() == next_seq(old(self).send_seq())
                    &&& !final(self).half_full()
                } else {
                    &&& datagram is None
                    &&& final(self).send_seq() == old(self).send_seq()
                    &&& final(self).half_full()
                    &&& final(self).first_frame() == frame
                }
            }),
            final(self).command() == (if !old(self).half_full() {
                old(self).command()
            } else {
                next_command(old(self).command(), old(self).current_rx(), old(self).rx_count())
            }),
            final(self).current_rx() == (if old(self).half_full() && old(self).command() == 2 {
                next_receiver(old(self).current_rx(), old(self).rx_count())
            } else {
                old(self).current_rx()
            }),
            final(self).dev() == old(self).dev(),
            final(self).rx_count() == old(self).rx_count(),
            final(self).samples_per_frame() == old(self).samples_per_frame(),
            final(self).frame_offset() == old(self).frame_offset(),
            datagram matches Some(d) ==> framed_datagram(d@, old(self).send_seq()),
    {
        let ctl = self.control(c);
        let ghost frame = write_bytes(self.ozy_buffer@, 0, seq![SYNC, SYNC, SYNC] + ctl@);
        self.ozy_buffer.set(0, SYNC);
        self.ozy_buffer.set(1, SYNC);
        self.ozy_buffer.set(2, SYNC);
        self.ozy_buffer.set(3, ctl[0]);
        self.ozy_buffer.set(4, ctl[1]);
        self.ozy_buffer.set(5, ctl[2]);
        self.ozy_buffer.set(6, ctl[3]);
        self.ozy_buffer.set(7, ctl[4]);
        assert(self.ozy_buffer@ =~= frame);
        let ghost first = self.metis_buffer@.subrange(8, 520);
        let ghost seq = self.send_sequence;
        let datagram = self.metis_write();
        proof {
            if datagram is Some {
                let d = datagram->0;
                assert(d@.subrange(0, 8) =~= metis_header(seq));
                assert(d@[8] == first[0] && d@[9] == first[1] && d@[10] == first[2]);
                assert(d@[520] == frame[0] && d@[521] == frame[1] && d@[522] == frame[2]);
            }
        }
        datagram
    }

    /// Copies the frame into the datagram; sends the datagram when it holds two.
    fn metis_write(&mut self) -> (datagram: Option<Vec<u8>>)
        requires
            old(self).wf(),
            frame_synced(old(self).frame(), 0),
        ensures
            final(self).wf(),
            final(self).frame() == old(self).frame(),
            if old(self).half_full() {
                &&& datagram matches Some(d) && d@ == metis_header(old(self).send_seq())
                    + old(self).first_frame() + old(self).frame()
                &&& final(self).send_seq() == next_seq(old(self).send_seq())
                &&& !final(self).half_full()
            } else {
                &&& datagram is None
                &&& final(self).send_seq() == old(self).send_seq()
                &&& final(self).half_full()
                &&& final(self).first_frame() == old(self).frame()
            },
            final(self).command() == old(self).command(),
            final(self).current_rx() == old(self).current_rx(),
            final(self).dev() == old(self).dev(),
            final(self).rx_count() == old(self).rx_count(),
            final(self).samples_per_frame() == old(self).samples_per_frame(),
            final(self).frame_offset() == old(self).frame_offset(),
    {
        let offset = self.metis_buffer_offset;
        let mut i: usize = 0;
        while i < OZY_BUFFER_SIZE
            invariant
                offset == 8 || offset == 520,
                self.metis_buffer@.len() == METIS_BUFFER_SIZE,
                self.ozy_buffer@.len() == OZY_BUFFER_SIZE,
                i <= OZY_BUFFER_SIZE,
                forall|j: int| 0 <= j < i ==> self.metis_buffer@[offset + j] == self.ozy_buffer@[j],
                forall|j: int|
                    0 <= j < METIS_BUFFER_SIZE && !(offset <= j < offset + i)
                        ==> self.metis_buffer@[j] == old(self).metis_buffer@[j],
                self.ozy_buffer@ == old(self).ozy_buffer@,
                self.metis_buffer_offset == offset,
                self.send_sequence == old(self).send_sequence,
                self.ozy_command == old(self).ozy_command,
                self.current_receiver == old(self).current_receiver,
                self.device == old(self).device,
                self.receivers == old(self).receivers,
                self.iq_samples == old(self).iq_samples,
                self.ozy_buffer_offset == old(self).ozy_buffer_offset,
            decreases OZY_BUFFER_SIZE - i,
        {
            let b = self.ozy_buffer[i];
            self.metis_buffer.set(i + offset, b);
            i = i + 1;
        }
        if offset == 8 {
            self.metis_buffer_offset = 520;
            assert(self.metis_buffer@.subrange(8, 520) =~= old(self).ozy_buffer@);
            None
        } else {
            self.metis_buffer.set(0, 0xEF);
            self.metis_buffer.set(1, 0xFE);
            self.metis_buffer.set(2, 0x01);
            self.metis_buffer.set(3, 0x02);
            let sb = u32_to_be(self.send_sequence);
            self.metis_buffer.set(4, sb[0]);
            self.metis_buffer.set(5, sb[1]);
            self.metis_buffer.set(6, sb[2]);
            self.metis_buffer.set(7, sb[3]);
            let datagram = self.metis_buffer.clone();
            assert(datagram@ =~= metis_header(old(self).send_sequence) + old(
                self,
            ).metis_buffer@.subrange(8, 520) + old(self).ozy_buffer@);
            self.send_sequence = next_sequence(self.send_sequence);
            self.metis_buffer_offset = 8;
            Some(datagram)
        }
    }

    /// Puts one sample slot into the frame being filled: the left and right audio
    /// samples, then the transmit I and Q samples, each as its low 16 bits. When that
    /// fills the frame, closes and places it as [`Protocol1::send_ozy_buffer`] does,
    /// giving the datagram if one is complete, and starts the next frame's samples
    /// at offset 8.
    pub fn push_samples(&mut self, left: i32, right: i32, tx_i: i32, tx_q: i32, c: &ControlState) -> (datagram:
        Option<Vec<u8>>)
        requires
            old(self).wf(),
        ensures
            final(self).wf(),
            ({
                let o = old(self).frame_offset();
                let filled = write_bytes(
                    old(self).frame(),
                    o,
                    be16(left) + be16(right) + be16(tx_i) + be16(tx_q),
                );
                if o + 8 < OZY_BUFFER_SIZE {
                    &&& datagram is None
                    &&& final(self).frame() == filled
                    &&& final(self).frame_offset() == o + 8
                    &&& final(self).send_seq() == old(self).send_seq()
                    &&& final(self).half_full() == old(self).half_full()
                    &&& final(self).first_frame() == old(self).first_frame()
                    &&& final(self).command() == old(self).command()
                    &&& final(self).current_rx() == old(self).current_rx()
                } else {
                    let ctl = with_mox(
                        if !old(self).half_full() {
                            config_bytes(*c, old(self).rx_count())
                        } else {
                            command_bytes(
                                *c,
                                old(self).command(),
                                old(self).current_rx(),
                                old(self).dev().device,
                                old(self).dev().version,
                            )
                        },
                        c.transmitting,
                    );
                    let frame = write_bytes(filled, 0, seq![SYNC, SYNC, SYNC] + ctl);
                    &&& final(self).frame() == frame
                    &&& final(self).frame_offset() == 8
                    &&& if old(self).half_full() {
                        &&& datagram matches Some(d) && d@ == metis_header(old(self).send_seq())
                            + old(self).first_frame() + frame
                        &&& final(self).send_seq() == next_seq(old(self).send_seq())
                        &&& !final(self).half_full()
                    } else {
                        &&& datagram is None
                        &&& final(self).send_seq() == old(self).send_seq()
                        &&& final(self).half_full()
                        &&& final(self).first_frame() == frame
                    }
                }
            }),
            final(self).dev() == old(self).dev(),
            final(self).rx_count() == old(self).rx_count(),
            datagram matches Some(d) ==> framed_datagram(d@, old(self).send_seq()),
            final(self).samples_per_frame() == old(self).samples_per_frame(),
    {
        let o = self.ozy_buffer_offset;
        assert(o + 8 <= OZY_BUFFER_SIZE);
        let ghost before = self.ozy_buffer@;
        put_i16(&mut self.ozy_buffer, o, left);
        put_i16(&mut self.ozy_buffer, o + 2, right);
        put_i16(&mut self.ozy_buffer, o + 4, tx_i);
        put_i16(&mut self.ozy_buffer, o + 6, tx_q);
        assert(self.ozy_buffer@ =~= write_bytes(
            before,
            o as int,
            be16(left) + be16(right) + be16(tx_i) + be16(tx_q),
        ));
        if o + 8 == OZY_BUFFER_SIZE {
            self.ozy_buffer_offset = 8;
            self.send_ozy_buffer(c)
        } else {
            self.ozy_buffer_offset = o + 8;
            None
        }
    }

    /// The control bytes of the next frame, and the command state after it.
    fn control(&mut self, c: &ControlState) -> (bytes: [u8; 5])
        requires
            old(self).wf(),
        ensures
            final(self).wf(),
            bytes@ == with_mox(
                if !old(self).half_full() {
                    config_bytes(*c, old(self).rx_count())
                } else {
                    command_bytes(
                        *c,
                        old(self).command(),
                        old(self).current_rx(),
                        old(self).dev().device,
                        old(self).dev().version,
                    )
                },
                c.transmitting,
            ),
            final(self).command() == (if !old(self).half_full() {
                old(self).command()
            } else {
                next_command(old(self).command(), old(self).current_rx(), old(self).rx_count())
            }),
            final(self).current_rx() == (if old(self).half_full() && old(self).command() == 2 {
                next_receiver(old(self).current_rx(), old(self).rx_count())
            } else {
                old(self).current_rx()
            }),
            final(self).dev() == old(self).dev(),
            final(self).send_seq() == old(self).send_seq(),
            final(self).rx_count() == old(self).rx_count(),
            final(self).samples_per_frame() == old(self).samples_per_frame(),
            final(self).frame() == old(self).frame(),
            final(self).frame_offset() == old(self).frame_offset(),
            final(self).half_full() == old(self).half_full(),
            final(self).first_frame() == old(self).first_frame(),
    {
        let mut c0: u8 = 0x00;
        let mut c1: u8 = 0x00;
        let mut c2: u8 = 0x00;
        let mut c3: u8 = 0x00;
        let mut c4: u8 = 0x00;
        if self.metis_buffer_offset == 8 {
            c1 = match c.sample_rate {
                96000 => 0x01,
                192000 => 0x02,
                384000 => 0x03,
                _ => 0x00,
            };
            c3 = match c.rx_antenna {
                1 => 0x01,
                2 => 0x02,
                _ => 0x00,
            };
            c4 = c3 | ((self.receivers - 1) << 3);
        } else {
            let command = self.ozy_command;
            let rx = self.current_receiver;
            if command == 1 {
                c0 = 0x02;
                let f: i32 = if c.split {
                    clamp_to_i32(
                        tuned_frequency(
                            &ReceiverTuning {
                                frequency: c.rx2_frequency,
                                mode: c.rx1.mode,
                                cw_pitch: c.rx1.cw_pitch,
                            },
                        ),
                    )
                } else {
                    clamp_to_i32(tuned_frequency(&c.rx1))
                };
                let b = u32_to_be(f as u32);
                c1 = b[0];
                c2 = b[1];
                c3 = b[2];
                c4 = b[3];
            } else if command == 2 {
                c0 = 0x04 + (rx * 2);
                let f: i32 = if rx == 0 {
                    c.rx1.frequency
                } else {
                    c.rx2_frequency
                };
                let b = u32_to_be(f as u32);
                c1 = b[0];
                c2 = b[1];
                c3 = b[2];
                c4 = b[3];
                self.current_receiver = next_rx(rx, self.receivers);
            } else if command == 3 {
                c0 = 0x12;
                if c.mic_boost {
                    c2 = 0x01;
                }
            } else if command == 4 {
                c0 = 0x14;
                c1 = (if c.mic_ptt {
                    0x40u8
                } else {
                    0u8
                }) | (if c.mic_bias_enable {
                    0x20u8
                } else {
                    0u8
                }) | (if c.mic_bias_ring {
                    0x10u8
                } else {
                    0u8
                });
                c4 = attenuation(c, self.device.device, self.device.version);
            } else if command == 5 {
                c0 = 0x16;
                c3 = 0x0C;
                c4 = 0x1E;
            } else if command == 6 {
                c0 = 0x1C;
            } else if command == 7 {
                c0 = 0x1E;
                c2 = 0x14;
                c3 = 0x14;
            } else if command == 8 {
                c0 = 0x20;
                c3 = 0x28;
                c4 = 0x0A;
            } else if command == 9 {
                c0 = 0x22;
                c1 = 0x19;
                c3 = 0xC8;
            } else if command == 10 {
                c0 = 0x24;
            } else {
                c0 = 0x2E;
                c3 = 0x04;
                c4 = 0x15;
            }
            if self.current_receiver == 0 {
                self.ozy_command = if self.ozy_command >= 11 {
                    1
                } else {
                    self.ozy_command + 1
                };
            }
        }
        if c.transmitting {
            c0 = c0 | 0x01;
        }
        let bytes = [c0, c1, c2, c3, c4];
        assert(bytes@ =~= with_mox(
            if !old(self).half_full() {
                config_bytes(*c, old(self).rx_count())
            } else {
                command_bytes(
                    *c,
                    old(self).command(),
                    old(self).current_rx(),
                    old(self).dev().device,
                    old(self).dev().version,
                )
            },
            c.transmitting,
        ));
        bytes
    }
}

/// The receiver after `rx` in the round of command 2 frames.
pub open spec fn next_receiver(rx: u8, receivers: u8) -> u8 {
    if rx + 1 >= receivers {
        0
    } else {
        (rx + 1) as u8
    }
}

/// The command after `command`: commands go 1 to 11 and round again, but command 2
/// repeats until it has sent each receiver's frequency.
pub open spec fn next_command(command: u8, rx: u8, receivers: u8) -> u8 {
    let rx_after = if command == 2 { next_receiver(rx, receivers) } else { rx };
    if rx_after == 0 {
        if command >= 11 {
            1
        } else {
            (command + 1) as u8
        }
    } else {
        command
    }
}

fn next_rx(rx: u8, receivers: u8) -> (next: u8)
    requires
        rx < receivers,
    ensures
        next == next_receiver(rx, receivers),
{
    if rx + 1 >= receivers {
        0
    } else {
        rx + 1
    }
}

#[verifier::spinoff_prover]
#[verifier::rlimit(30)]
fn attenuation(c: &ControlState, device: u8, version: u8) -> (b: u8)
    ensures
        b == attenuation_byte(*c, device, version),
{
    let attenuation: i64 = if c.dev == 6 {
        c.rxgain as i64
    } else {
        c.attenuation as i64
    };
    if device == 6 {
        if version > 42 {
            let low = (attenuation + 12) % 64;
            let low = if low < 0 {
                low + 64
            } else {
                low
            };
            (0x40 + low) as u8
        } else {
            0
        }
    } else {
        let low = attenuation % 32;
        let low = if low < 0 {
            low + 32
        } else {
            low
        };
        (0x20 + low) as u8
    }
}

/// The first byte of a frame slot: where receiver `r`'s IQ pair of slot `s` starts in
/// a frame at `offset`, for `n` receivers.
pub open spec fn sample_pos(offset: int, n: int, s: int, r: int) -> int {
    offset + 8 + s * (6 * n + 2) + 6 * r
}

/// Where the microphone sample of slot `s` starts in a frame at `offset`, for `n`
/// receivers: after the slot's IQ pairs.
pub open spec fn mic_pos(offset: int, n: int, s: int) -> int {
    offset + 8 + s * (6 * n + 2) + 6 * n
}

/// Whether bit `k` of `b` is set.
pub open spec fn flag(b: u8, k: u8) -> bool {
    (b >> k) & 1 == 1
}

fn flag_of(b: u8, k: u8) -> (set: bool)
    requires
        k < 8,
    ensures
        set == flag(b, k),
{
    (b >> k) & 1 == 1
}

/// What one frame from the radio holds: its five control bytes, the PTT, dot and dash
/// inputs they report, each receiver's IQ pairs in slot order, and the microphone
/// samples.
pub struct OzyFrame {
    pub control: [u8; 5],
    pub ptt: bool,
    pub dot: bool,
    pub dash: bool,
    /// `iq[r][s]` is receiver `r`'s pair in slot `s`.
    pub iq: Vec<Vec<(i32, i32)>>,
    pub mic: Vec<i32>,
}

/// The IQ pair that starts at byte `p` of `b`: two 24 bit samples, I first.
pub open spec fn pair_at(b: Seq<u8>, p: int) -> (i32, i32) {
    (i24_of_be(b[p], b[p + 1], b[p + 2]) as i32, i24_of_be(b[p + 3], b[p + 4], b[p + 5]) as i32)
}

/// Whether the frame at `offset` in `b` starts with three sync bytes.
pub open spec fn frame_synced(b: Seq<u8>, offset: int) -> bool {
    b[offset] == SYNC && b[offset + 1] == SYNC && b[offset + 2] == SYNC
}

/// Whether `f` is what the frame at `offset` in `b` holds, for `n` receivers and
/// `slots` slots.
pub open spec fn is_frame(f: &OzyFrame, b: Seq<u8>, offset: int, n: int, slots: int) -> bool {
    &&& f.control@ == b.subrange(offset + 3, offset + 8)
    &&& f.ptt == flag(b[offset + 3], 0)
    &&& f.dot == flag(b[offset + 3], 1)
    &&& f.dash == flag(b[offset + 3], 2)
    &&& f.iq@.len() == n
    &&& forall|r: int|
        0 <= r < n ==> (#[trigger] f.iq@[r])@.len() == slots && forall|s: int|
            0 <= s < slots ==> #[trigger] f.iq@[r]@[s] == pair_at(b, sample_pos(offset, n, s, r))
    &&& f.mic@.len() == slots
    &&& forall|s: int|
        0 <= s < slots ==> #[trigger] f.mic@[s] == i16_of_be(
            b[mic_pos(offset, n, s)],
            b[mic_pos(offset, n, s) + 1],
        )
}

proof fn lemma_slot_bound(n: int, slots: int, s: int)
    requires
        1 <= n <= 8,
        slots == 504int / (6 * n + 2),
        0 <= s < slots,
    ensures
        s * (6 * n + 2) + 6 * n + 2 <= 504,
{
    assert(slots * (6 * n + 2) <= 504) by (nonlinear_arith)
        requires
            slots == 504int / (6 * n + 2),
            6 * n + 2 > 0,
    ;
    assert(s * (6 * n + 2) + 6 * n + 2 <= slots * (6 * n + 2)) by (nonlinear_arith)
        requires
            0 <= s < slots,
            6 * n + 2 > 0,
    ;
}

impl Protocol1 {
    /// What the frame at `offset` in a datagram received into `buffer` holds, or
    /// `None` when it does not start with three sync bytes.
    pub fn parse_ozy_frame(&self, buffer: &[u8], offset: usize) -> (frame: Option<OzyFrame>)
        requires
            self.wf(),
            offset + OZY_BUFFER_SIZE <= buffer.len(),
        ensures
            frame is Some <==> frame_synced(buffer@, offset as int),
            frame matches Some(f) ==> is_frame(
                &f,
                buffer@,
                offset as int,
                self.rx_count() as int,
                self.samples_per_frame() as int,
            ),
    {
        if !(buffer[offset] == SYNC && buffer[offset + 1] == SYNC && buffer[offset + 2] == SYNC) {
            return None;
        }
        let c0 = buffer[offset + 3];
        let control: [u8; 5] = [c0, buffer[offset + 4], buffer[offset + 5], buffer[offset + 6], buffer[offset + 7]];
        assert(control@ =~= buffer@.subrange(offset + 3, offset + 8));
        let n = self.receivers as usize;
        let slots = self.iq_samples as usize;
        let slot_len = 6 * n + 2;
        let mut iq: Vec<Vec<(i32, i32)>> = Vec::new();
        let mut r: usize = 0;
        while r < n
            invariant
                self.wf(),
                n == self.receivers,
                slots == self.iq_samples,
                slot_len == 6 * n + 2,
                offset + 512 <= buffer.len(),
                r <= n,
                iq@.len() == r,
                forall|q: int|
                    0 <= q < r ==> (#[trigger] iq@[q])@.len() == slots && forall|s: int|
                        0 <= s < slots ==> #[trigger] iq@[q]@[s] == pair_at(
                            buffer@,
                            sample_pos(offset as int, n as int, s, q),
                        ),
            decreases n - r,
        {
            let mut pairs: Vec<(i32, i32)> = Vec::new();
            let mut s: usize = 0;
            while s < slots
                invariant
                    self.wf(),
                    n == self.receivers,
                    slots == self.iq_samples,
                    slot_len == 6 * n + 2,
                    offset + 512 <= buffer.len(),
                    r < n,
                    s <= slots,
                    pairs@.len() == s,
                    forall|t: int|
                        0 <= t < s ==> #[trigger] pairs@[t] == pair_at(
                            buffer@,
                            sample_pos(offset as int, n as int, t, r as int),
                        ),
                decreases slots - s,
            {
                proof {
                    lemma_slot_bound(n as int, slots as int, s as int);
                    assert(s * slot_len <= 504) by (nonlinear_arith)
                        requires
                            s * (6 * n + 2) + 6 * n + 2 <= 504,
                            slot_len == 6 * n + 2,
                    ;
                }
                let p = offset + 8 + s * slot_len + 6 * r;
                let i_sample = i24_from_be(buffer[p], buffer[p + 1], buffer[p + 2]);
                let q_sample = i24_from_be(buffer[p + 3], buffer[p + 4], buffer[p + 5]);
                pairs.push((i_sample, q_sample));
                s = s + 1;
            }
            iq.push(pairs);
            r = r + 1;
        }
        let mut mic: Vec<i32> = Vec::new();
        let mut s: usize = 0;
        while s < slots
            invariant
                self.wf(),
                n == self.receivers,
                slots == self.iq_samples,
                slot_len == 6 * n + 2,
                offset + 512 <= buffer.len(),
                s <= slots,
                mic@.len() == s,
                forall|t: int|
                    0 <= t < s ==> #[trigger] mic@[t] == i16_of_be(
                        buffer@[mic_pos(offset as int, n as int, t)],
                        buffer@[mic_pos(offset as int, n as int, t) + 1],
                    ),
            decreases slots - s,
        {
            proof {
                lemma_slot_bound(n as int, slots as int, s as int);
                assert(s * slot_len <= 504) by (nonlinear_arith)
                    requires
                        s * (6 * n + 2) + 6 * n + 2 <= 504,
                        slot_len == 6 * n + 2,
                ;
            }
            let p = offset + 8 + s * slot_len + 6 * n;
            mic.push(i16_from_be(buffer[p], buffer[p + 1]));
            s = s + 1;
        }
        Some(
            OzyFrame {
                control,
                ptt: flag_of(c0, 0),
                dot: flag_of(c0, 1),
                dash: flag_of(c0, 2),
                iq,
                mic,
            },
        )
    }
}

/// What a datagram from the radio is, by its header.
#[derive(Debug, Clone, Copy, PartialEq, Eq, Structural)]
pub enum MetisPacket {
    /// EF FE 01 06: two frames of IQ samples, with the radio's sequence number.
    IqSamples(u32),
    /// EF FE 01 04: wideband samples.
    Wideband,
    /// EF FE 01 and another endpoint.
    UnexpectedEndpoint(u8),
    /// EF FE and another packet type.
    UnexpectedType(u8),
    /// Any other start.
    BadHeader,
}

/// What the datagram `b` is, by its first eight bytes.
pub open spec fn metis_packet(b: Seq<u8>) -> MetisPacket {
    if b[0] == 0xEF && b[1] == 0xFE {
        if b[2] == 1 {
            if b[3] == 6 {
                MetisPacket::IqSamples(u32_of_be(b[4], b[5], b[6], b[7]) as u32)
            } else if b[3] == 4 {
                MetisPacket::Wideband
            } else {
                MetisPacket::UnexpectedEndpoint(b[3])
            }
        } else {
            MetisPacket::UnexpectedType(b[2])
        }
    } else {
        MetisPacket::BadHeader
    }
}

/// What a datagram received into `buffer` is.
pub fn parse_metis_packet(buffer: &[u8]) -> (kind: MetisPacket)
    requires
        buffer@.len() >= 8,
    ensures
        kind == metis_packet(buffer@),
{
    if buffer[0] == 0xEF && buffer[1] == 0xFE {
        if buffer[2] == 1 {
            if buffer[3] == 6 {
                MetisPacket::IqSamples(u32_from_be(buffer[4], buffer[5], buffer[6], buffer[7]))
            } else if buffer[3] == 4 {
                MetisPacket::Wideband
            } else {
                MetisPacket::UnexpectedEndpoint(buffer[3])
            }
        } else {
            MetisPacket::UnexpectedType(buffer[2])
        }
    } else {
        MetisPacket::BadHeader
    }
}

/// The 64 byte datagram that starts the radio streaming: EF FE 04 03 and zeros.
pub fn metis_start() -> (buf: Vec<u8>)
    ensures
        buf@ == seq![0xEFu8, 0xFEu8, 0x04u8, 0x03u8] + Seq::new(60, |i: int| 0u8),
{
    let mut buf: Vec<u8> = vec![0u8; 64];
    buf.set(0, 0xEF);
    buf.set(1, 0xFE);
    buf.set(2, 0x04);
    buf.set(3, 0x03);
    assert(buf@ =~= seq![0xEFu8, 0xFEu8, 0x04u8, 0x03u8] + Seq::new(60, |i: int| 0u8));
    buf
}

/// The 64 byte datagram that stops the radio streaming: EF FE 04 00 and zeros.
pub fn metis_stop() -> (buf: Vec<u8>)
    ensures
        buf@ == seq![0xEFu8, 0xFEu8, 0x04u8, 0x00u8] + Seq::new(60, |i: int| 0u8),
{
    let mut buf: Vec<u8> = vec![0u8; 64];
    buf.set(0, 0xEF);
    buf.set(1, 0xFE);
    buf.set(2, 0x04);
    buf.set(3, 0x00);
    assert(buf@ =~= seq![0xEFu8, 0xFEu8, 0x04u8, 0x00u8] + Seq::new(60, |i: int| 0u8));
    buf
}

/// The first control byte of every frame to the radio has its low (MOX) bit set
/// exactly when the radio is transmitting, whichever frame it is.
pub proof fn lemma_mox_bit(c: ControlState, half: bool, command: u8, rx: u8, receivers: u8, device: u8, version: u8)
    requires
        1 <= command <= 11,
        rx < receivers <= 8,
    ensures
        ({
            let base = if !half {
                config_bytes(c, receivers)
            } else {
                command_bytes(c, command, rx, device, version)
            };
            (with_mox(base, c.transmitting)[0] & 1u8 == 1u8) <==> c.transmitting
        }),
{
    let base = if !half {
        config_bytes(c, receivers)
    } else {
        command_bytes(c, command, rx, device, version)
    };
    let c0 = base[0];
    if half && command == 2 {
        assert(((0x04 + 2 * rx) as u8) & 1u8 == 0u8) by (bit_vector)
            requires
                rx < 8,
        ;
    }
    assert(c0 & 1u8 == 0u8) by {
        if half && command == 1 {
            assert(0x02u8 & 1u8 == 0u8) by (bit_vector);
        } else if half && command == 2 {
        } else {
            assert(0x00u8 & 1u8 == 0u8 && 0x12u8 & 1u8 == 0u8 && 0x14u8 & 1u8 == 0u8 && 0x16u8
                & 1u8 == 0u8 && 0x1Cu8 & 1u8 == 0u8 && 0x1Eu8 & 1u8 == 0u8 && 0x20u8 & 1u8 == 0u8
                && 0x22u8 & 1u8 == 0u8 && 0x24u8 & 1u8 == 0u8 && 0x2Eu8 & 1u8 == 0u8)
                by (bit_vector);
        }
    }
    assert((c0 | 1u8) & 1u8 == 1u8) by (bit_vector);
}

/// The command and receiver after one frame that carries a command.
pub open spec fn command_step(state: (u8, u8), receivers: u8) -> (u8, u8) {
    let (command, rx) = state;
    (
        next_command(command, rx, receivers),
        if command == 2 {
            next_receiver(rx, receivers)
        } else {
            rx
        },
    )
}

/// The command and receiver after `k` frames that carry commands.
pub open spec fn command_steps(state: (u8, u8), receivers: u8, k: nat) -> (u8, u8)
    decreases k,
{
    if k == 0 {
        state
    } else {
        command_steps(command_step(state, receivers), receivers, (k - 1) as nat)
    }
}

/// From command 1 the commands run through 1, then 2 once for each receiver, then 3 to
/// 11, and are back at command 1 and the first receiver after 10 + n frames, for
/// every count n of receivers that a link allows.
pub proof fn lemma_command_cycle(receivers: u8)
    requires
        1 <= receivers <= 8,
    ensures
        command_steps((1u8, 0u8), receivers, (10 + receivers) as nat) == (1u8, 0u8),
{
    reveal_with_fuel(command_steps, 19);
    if receivers == 1 {
        assert(command_steps((1u8, 0u8), receivers, 11) == (1u8, 0u8));
    } else if receivers == 2 {
        assert(command_steps((1u8, 0u8), receivers, 12) == (1u8, 0u8));
    } else if receivers == 3 {
        assert(command_steps((1u8, 0u8), receivers, 13) == (1u8, 0u8));
    } else if receivers == 4 {
        assert(command_steps((1u8, 0u8), receivers, 14) == (1u8, 0u8));
    } else if receivers == 5 {
        assert(command_steps((1u8, 0u8), receivers, 15) == (1u8, 0u8));
    } else if receivers == 6 {
        assert(command_steps((1u8, 0u8), receivers, 16) == (1u8, 0u8));
    } else if receivers == 7 {
        assert(command_steps((1u8, 0u8), receivers, 17) == (1u8, 0u8));
    } else {
        assert(command_steps((1u8, 0u8), receivers, 18) == (1u8, 0u8));
    }
}

/// The configuration frame tells the radio the host's sample rate: for each rate the
/// radio supports (48, 96, 192 and 384 kHz) its C1 byte is the number of doublings of
/// 48 kHz that give the rate, whether or not the radio is transmitting, so distinct
/// rates get distinct codes.
pub proof fn lemma_config_sample_rate(c: ControlState, receivers: u8)
    requires
        c.sample_rate == 48000 || c.sample_rate == 96000 || c.sample_rate == 192000
            || c.sample_rate == 384000,
    ensures
        ({
            let code = with_mox(config_bytes(c, receivers), c.transmitting)[1];
            &&& code < 4
            &&& 48000 * vstd::arithmetic::power2::pow2(code as nat) == c.sample_rate
        }),
{
    vstd::arithmetic::power2::lemma2_to64();
}

/// The configuration frame's C3 byte is the receive antenna (0 to 2, any other
/// antenna as 0), and its C4 byte carries the same antenna in its low three bits and
/// the number of receivers less one above them, so the radio reads both back.
pub proof fn lemma_config_antenna_and_receivers(c: ControlState, receivers: u8)
    requires
        1 <= receivers <= 8,
    ensures
        ({
            let b = config_bytes(c, receivers);
            &&& b[3] == (if c.rx_antenna <= 2 { c.rx_antenna as u8 } else { 0u8 })
            &&& b[4] & 7 == b[3]
            &&& (b[4] >> 3u8) + 1 == receivers
        }),
{
    let a = antenna_code(c.rx_antenna);
    let m = (receivers - 1) as u8;
    assert(a < 3);
    assert(m < 8);
    assert((a | (m << 3u8)) & 7 == a && (a | (m << 3u8)) >> 3u8 == m) by (bit_vector)
        requires
            a < 3,
            m < 8,
    ;
}

/// The frequency commands carry their frequencies whole: command 1 writes register 2
/// with the transmit frequency, command 2 writes receiver `rx`'s register, 4 + 2 rx,
/// with that receiver's frequency, each as four bytes that read back as the frequency.
pub proof fn lemma_frequency_commands(c: ControlState, rx: u8, device: u8, version: u8)
    requires
        rx < 8,
    ensures
        ({
            let t = command_bytes(c, 1, rx, device, version);
            let r = command_bytes(c, 2, rx, device, version);
            let f = if rx == 0 { c.rx1.frequency } else { c.rx2_frequency };
            &&& t.len() == 5 && r.len() == 5
            &&& t[0] == 0x02
            &&& u32_of_be(t[1], t[2], t[3], t[4]) == tx_frequency(c) as u32
            &&& r[0] == 4 + 2 * rx
            &&& u32_of_be(r[1], r[2], r[3], r[4]) == f as u32
        }),
{
    let f = if rx == 0 { c.rx1.frequency } else { c.rx2_frequency };
    crate::bytes::lemma_u32_round_trip(tx_frequency(c) as u32);
    crate::bytes::lemma_u32_round_trip(f as u32);
    assert(command_bytes(c, 1, rx, device, version) =~= seq![0x02u8] + be32(tx_frequency(c) as u32));
    assert(command_bytes(c, 2, rx, device, version) =~= seq![(0x04 + 2 * rx) as u8] + be32(f as u32));
}

/// The C0 byte of each command frame names the register it writes, and different
/// commands write different registers: the eleven commands (command 2 for any of the
/// first seven receivers) never address the same register.
pub proof fn lemma_command_registers(
    c: ControlState,
    k1: u8,
    k2: u8,
    rx1: u8,
    rx2: u8,
    device: u8,
    version: u8,
)
    requires
        1 <= k1 <= 11,
        1 <= k2 <= 11,
        rx1 < 7,
        rx2 < 7,
        k1 != k2 || (k1 == 2 && rx1 != rx2),
    ensures
        command_bytes(c, k1, rx1, device, version)[0] != command_bytes(c, k2, rx2, device, version)[0],
{
}

} // verus!
