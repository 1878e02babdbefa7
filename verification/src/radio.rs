use vstd::prelude::*;
use vstd::string::StringExecFns;

use crate::adc::Adc;
use crate::alex::ALEX_ANTENNA_1;
use crate::bands::{band_from_index, BandInfo};
use crate::discovery::Device;
use crate::protocol1::{clamp_i32, clamp_to_i32, ControlState};
use crate::protocol2::{DdcSetting, HighPriority, HighPriorityStatus, ReceiverTuning, TransmitSpecific};
use crate::filters::filter_edges;
use crate::receiver::{band_selected, mode_passband, Receiver};
use crate::transmitter::Transmitter;

verus! {

/// The CW keyer modes, numbered 0 to 2 in this order.
#[derive(Debug, Clone, Copy, PartialEq, Eq, Structural)]
pub enum Keyer {
    Straight,
    ModeA,
    ModeB,
}

/// The number of each keyer mode.
pub open spec fn keyer_code(k: Keyer) -> u32 {
    match k {
        Keyer::Straight => 0,
        Keyer::ModeA => 1,
        Keyer::ModeB => 2,
    }
}

/// The keyer mode numbered `value`, if any.
pub open spec fn keyer_from_code(value: u32) -> Option<Keyer> {
    if value == 0 {
        Some(Keyer::Straight)
    } else if value == 1 {
        Some(Keyer::ModeA)
    } else if value == 2 {
        Some(Keyer::ModeB)
    } else {
        None
    }
}

impl Keyer {
    /// The keyer mode numbered `value`, or `None` when no mode has that number.
    pub fn from_u32(value: u32) -> (k: Option<Self>)
        ensures
            k == keyer_from_code(value),
    {
        match value {
            0 => Some(Keyer::Straight),
            1 => Some(Keyer::ModeA),
            2 => Some(Keyer::ModeB),
            _ => None,
        }
    }

    /// The number of this keyer mode.
    pub fn to_u32(&self) -> (value: u32)
        ensures
            value == keyer_code(*self),
    {
        match self {
            Keyer::Straight => 0,
            Keyer::ModeA => 1,
            Keyer::ModeB => 2,
        }
    }
}

/// Numbering is a bijection between the keyer modes and 0..3: a mode's number gives
/// the mode back, and a number gives a mode exactly when it is below 3, that mode
/// having the number.
pub proof fn lemma_keyer_code_round_trip(k: Keyer, value: u32)
    ensures
        keyer_from_code(keyer_code(k)) == Some(k),
        keyer_from_code(value) is Some <==> value < 3,
        keyer_from_code(value) matches Some(m) ==> keyer_code(m) == value,
{
}

/// The filter boards a radio can have.
#[derive(Debug, Clone, Copy, PartialEq, Eq, Structural)]
pub enum FilterBoards {
    NONE,
    ALEX,
    APOLLO,
    N2ADR,
}

/// A change of a channel's state that the DSP is to make: the channel, the state
/// (1 running, 0 stopped) and whether to wait for the channel to drain first.
#[derive(Debug, Clone, Copy, PartialEq, Eq, Structural)]
pub struct ChannelState {
    pub channel: i32,
    pub state: i32,
    pub dmp: i32,
}

/// Which display a spectrum read feeds.
#[derive(Debug, Clone, Copy, PartialEq, Eq, Structural)]
pub enum Display {
    Spectrum,
    Spectrum2,
    Waterfall,
    Waterfall2,
}

/// Where a display's pixels are read: the DSP channel, the display number within it
/// (0 spectrum, 1 waterfall), and how many pixels to read.
#[derive(Debug, Clone, Copy, PartialEq, Eq, Structural)]
pub struct PixelRequest {
    pub channel: i32,
    pub display: i32,
    pub pixels: i64,
}

/// The settings and state of the radio that decide what it is told and how it
/// switches between receiving and transmitting.
pub struct Radio {
    pub name: String,
    pub dev: u8,
    pub protocol: u8,
    pub supported_receivers: u8,
    pub active_receiver: usize,
    pub receivers: u8,
    pub rx2_enabled: bool,
    pub split: bool,
    pub receiver: Vec<Receiver>,
    pub band_info: Vec<BandInfo>,
    pub ptt: bool,
    pub mox: bool,
    pub vox: bool,
    pub tune: bool,
    pub dot: bool,
    pub dash: bool,
    pub transmitter: Transmitter,
    pub filter_board: FilterBoards,
    pub cw_keyer_mode: Keyer,
    pub cw_keyer_internal: bool,
    pub cw_keys_reversed: bool,
    pub cw_keyer_speed: i32,
    pub cw_keyer_weight: i32,
    pub cw_keyer_spacing: i32,
    pub cw_keyer_ptt_delay: i32,
    pub cw_keyer_hang_time: i32,
    pub cw_breakin: bool,
    pub cw_keyer_sidetone_volume: i32,
    pub cw_keyer_sidetone_frequency: i32,
    pub local_microphone: bool,
    pub local_microphone_name: String,
    pub adc: Vec<Adc>,
    pub alex: u32,
    pub updated: bool,
    pub keepalive: bool,
    pub received: bool,
    pub pll_locked: bool,
    pub adc_overload: bool,
    pub exciter_power: i32,
    pub alex_forward_power: i32,
    pub alex_reverse_power: i32,
    pub supply_volts: i32,
    pub line_in: bool,
    pub mic_boost: bool,
    pub mic_ptt: bool,
    pub mic_bias_ring: bool,
    pub mic_bias_enable: bool,
    pub mic_saturn_xlr: bool,
    pub waterfall_auto: bool,
}

/// Whether the radio transmits: under MOX, PTT, VOX or tune.
pub open spec fn transmitting(mox: bool, ptt: bool, vox: bool, tune: bool) -> bool {
    mox || ptt || vox || tune
}

impl Radio {
    /// Whether the radio transmits.
    pub open spec fn spec_transmitting(&self) -> bool {
        transmitting(self.mox, self.ptt, self.vox, self.tune)
    }

    /// Whether the radio's receiver list has the two receivers it is built with, and
    /// its indices into them and into its converters are in range.
    pub open spec fn wf(&self) -> bool {
        &&& self.receiver@.len() == 2
        &&& self.active_receiver < 2
        &&& self.receiver@[0].adc < self.adc@.len()
        &&& self.receiver@[1].adc < self.adc@.len()
    }

    /// Whether this radio holds the settings a new radio for `device` with displays
    /// `spectrum_width` pixels wide starts with.
    pub open spec fn is_new(&self, device: Device, spectrum_width: i32) -> bool {
        &&& self.name@ == "HPSDR"@
        &&& self.dev == device.device
        &&& self.protocol == device.protocol
        &&& self.supported_receivers == device.supported_receivers
        &&& self.active_receiver == 0
        &&& self.receivers == 2
        &&& self.rx2_enabled
        &&& !self.split
        &&& self.receiver@.len() == 2
        &&& self.receiver@[0].is_new(0, device.protocol, spectrum_width)
        &&& self.receiver@[1].is_new(1, device.protocol, spectrum_width)
        &&& self.band_info@.len() == 15
        &&& forall|i: int|
            0 <= i < 15 ==> #[trigger] self.band_info@[i].is_initial(
                band_from_index(i as usize).unwrap(),
            )
        &&& !self.ptt && !self.mox && !self.vox && !self.tune && !self.dot && !self.dash
        &&& self.transmitter.is_new(8, device.protocol)
        &&& self.filter_board == FilterBoards::ALEX
        &&& self.cw_keyer_mode == Keyer::Straight
        &&& self.cw_keyer_internal
        &&& !self.cw_keys_reversed
        &&& self.cw_keyer_speed == 12
        &&& self.cw_keyer_weight == 30
        &&& self.cw_keyer_spacing == 0
        &&& self.cw_keyer_ptt_delay == 20
        &&& self.cw_keyer_hang_time == 300
        &&& !self.cw_breakin
        &&& self.cw_keyer_sidetone_volume == 20
        &&& self.cw_keyer_sidetone_frequency == 650
        &&& !self.local_microphone
        &&& self.local_microphone_name@ == Seq::<char>::empty()
        &&& self.adc@.len() == device.adcs
        &&& forall|i: int|
            0 <= i < self.adc@.len() ==> #[trigger] self.adc@[i] == (Adc {
                rx_antenna: ALEX_ANTENNA_1,
                random: false,
                dither: false,
                attenuation: 0,
            })
        &&& self.alex == ALEX_ANTENNA_1
        &&& !self.updated && !self.keepalive && !self.received
        &&& !self.pll_locked && !self.adc_overload
        &&& self.exciter_power == 0 && self.alex_forward_power == 0
        &&& self.alex_reverse_power == 0 && self.supply_volts == 0
        &&& !self.line_in
        &&& self.mic_boost
        &&& self.mic_ptt
        &&& !self.mic_bias_ring
        &&& self.mic_bias_enable
        &&& !self.mic_saturn_xlr
        &&& self.waterfall_auto
    }

    /// A new radio for `device`, with two receivers and displays `spectrum_width`
    /// pixels wide.
    pub fn new(device: Device, spectrum_width: i32) -> (r: Radio)
        ensures
            r.is_new(device, spectrum_width),
    {
        let mut receiver: Vec<Receiver> = Vec::new();
        receiver.push(Receiver::new(0, device.protocol, spectrum_width));
        receiver.push(Receiver::new(1, device.protocol, spectrum_width));
        let mut adc: Vec<Adc> = Vec::new();
        let mut i: u8 = 0;
        while i < device.adcs
            invariant
                i <= device.adcs,
                adc@.len() == i,
                forall|j: int|
                    0 <= j < i ==> #[trigger] adc@[j] == (Adc {
                        rx_antenna: ALEX_ANTENNA_1,
                        random: false,
                        dither: false,
                        attenuation: 0,
                    }),
            decreases device.adcs - i,
        {
            adc.push(Adc::new());
            i = i + 1;
        }
        proof {
            reveal_strlit("HPSDR");
        }
        Radio {
            name: String::from_str("HPSDR"),
            dev: device.device,
            protocol: device.protocol,
            supported_receivers: device.supported_receivers,
            active_receiver: 0,
            receivers: 2,
            rx2_enabled: true,
            split: false,
            receiver,
            band_info: BandInfo::new(),
            ptt: false,
            mox: false,
            vox: false,
            tune: false,
            dot: false,
            dash: false,
            transmitter: Transmitter::new(8, device.protocol),
            filter_board: FilterBoards::ALEX,
            cw_keyer_mode: Keyer::Straight,
            cw_keyer_internal: true,
            cw_keys_reversed: false,
            cw_keyer_speed: 12,
            cw_keyer_weight: 30,
            cw_keyer_spacing: 0,
            cw_keyer_ptt_delay: 20,
            cw_keyer_hang_time: 300,
            cw_breakin: false,
            cw_keyer_sidetone_volume: 20,
            cw_keyer_sidetone_frequency: 650,
            local_microphone: false,
            local_microphone_name: String::new(),
            adc,
            alex: ALEX_ANTENNA_1,
            updated: false,
            keepalive: false,
            received: false,
            pll_locked: false,
            adc_overload: false,
            exciter_power: 0,
            alex_forward_power: 0,
            alex_reverse_power: 0,
            supply_volts: 0,
            line_in: false,
            mic_boost: true,
            mic_ptt: true,
            mic_bias_ring: false,
            mic_bias_enable: true,
            mic_saturn_xlr: false,
            waterfall_auto: true,
        }
    }

    /// Clears the live state a radio loaded from its saved settings must not start
    /// with: not keyed, not transmitting, nothing reported by the hardware yet.
    pub fn init(&mut self)
        ensures
            !final(self).ptt && !final(self).mox && !final(self).vox && !final(self).tune,
            !final(self).dot && !final(self).dash,
            !final(self).updated,
            !final(self).pll_locked && !final(self).adc_overload,
            final(self).exciter_power == 0 && final(self).alex_forward_power == 0,
            final(self).alex_reverse_power == 0 && final(self).supply_volts == 0,
            final(self).receiver@ == old(self).receiver@,
            final(self).adc@ == old(self).adc@,
            final(self).active_receiver == old(self).active_receiver,
            final(self).band_info@ == old(self).band_info@,
            final(self).dev == old(self).dev,
            final(self).protocol == old(self).protocol,
            *final(self) == (Radio {
                ptt: false,
                mox: false,
                vox: false,
                tune: false,
                dot: false,
                dash: false,
                updated: false,
                pll_locked: false,
                adc_overload: false,
                exciter_power: 0,
                alex_forward_power: 0,
                alex_reverse_power: 0,
                supply_volts: 0,
                ..*old(self)
            }),
    {
        self.ptt = false;
        self.mox = false;
        self.vox = false;
        self.tune = false;
        self.dot = false;
        self.dash = false;
        self.updated = false;
        self.pll_locked = false;
        self.adc_overload = false;
        self.exciter_power = 0;
        self.alex_forward_power = 0;
        self.alex_reverse_power = 0;
        self.supply_volts = 0;
    }

    /// The radio to start with for `device`: the one read back from its saved
    /// settings, with its live state cleared, or, where none could be read, a new one.
    pub fn load(saved: Option<Radio>, device: Device, spectrum_width: i32) -> (r: Radio)
        ensures
            saved is None ==> r.is_new(device, spectrum_width),
            saved matches Some(s) ==> {
                &&& !r.spec_transmitting()
                &&& !r.dot && !r.dash && !r.updated
                &&& r.receiver@ == s.receiver@
                &&& r.adc@ == s.adc@
                &&& r.active_receiver == s.active_receiver
                &&& r.band_info@ == s.band_info@
                &&& r.dev == s.dev
                &&& r.protocol == s.protocol
                &&& r == (Radio {
                    ptt: false,
                    mox: false,
                    vox: false,
                    tune: false,
                    dot: false,
                    dash: false,
                    updated: false,
                    pll_locked: false,
                    adc_overload: false,
                    exciter_power: 0,
                    alex_forward_power: 0,
                    alex_reverse_power: 0,
                    supply_volts: 0,
                    ..s
                })
            },
    {
        match saved {
            Some(mut radio) => {
                radio.init();
                radio
            },
            None => Radio::new(device, spectrum_width),
        }
    }

    /// Whether the radio transmits: under MOX, PTT, VOX or tune.
    pub fn is_transmitting(&self) -> (t: bool)
        ensures
            t == self.spec_transmitting(),
    {
        self.mox || self.ptt || self.vox || self.tune
    }

    /// The channel state changes that put the DSP in step with the radio: while
    /// transmitting, the active receiver's channel stops (after draining) and the
    /// transmitter's runs; while receiving, the transmitter's stops and the active
    /// receiver's runs.
    pub fn set_state(&self) -> (changes: [ChannelState; 2])
        requires
            self.wf(),
        ensures
            ({
                let rx = self.receiver@[self.active_receiver as int].channel;
                let tx = self.transmitter.channel;
                if self.spec_transmitting() {
                    changes@ == seq![
                        ChannelState { channel: rx, state: 0, dmp: 1 },
                        ChannelState { channel: tx, state: 1, dmp: 0 },
                    ]
                } else {
                    changes@ == seq![
                        ChannelState { channel: tx, state: 0, dmp: 0 },
                        ChannelState { channel: rx, state: 1, dmp: 0 },
                    ]
                }
            }),
    {
        let rx = self.receiver[self.active_receiver].channel;
        let tx = self.transmitter.channel;
        let changes = if self.is_transmitting() {
            [
                ChannelState { channel: rx, state: 0, dmp: 1 },
                ChannelState { channel: tx, state: 1, dmp: 0 },
            ]
        } else {
            [
                ChannelState { channel: tx, state: 0, dmp: 0 },
                ChannelState { channel: rx, state: 1, dmp: 0 },
            ]
        };
        assert(changes@ =~= (if self.spec_transmitting() {
            seq![
                ChannelState { channel: rx, state: 0, dmp: 1 },
                ChannelState { channel: tx, state: 1, dmp: 0 },
            ]
        } else {
            seq![
                ChannelState { channel: tx, state: 0, dmp: 0 },
                ChannelState { channel: rx, state: 1, dmp: 0 },
            ]
        }));
        changes
    }

    /// Where display `display`, `width` pixels wide, reads its pixels. The first
    /// spectrum reads receiver 1, the first waterfall the active receiver, the second
    /// spectrum and waterfall receiver 2, each zoomed by its receiver's zoom; while
    /// transmitting, all but the second spectrum read the transmitter, unzoomed, with
    /// twelve analyzer pixels to a display pixel.
    pub fn pixel_request(&self, display: Display, width: i32) -> (req: PixelRequest)
        requires
            self.wf(),
        ensures
            ({
                let rx = match display {
                    Display::Spectrum => 0,
                    Display::Spectrum2 => 1,
                    Display::Waterfall => self.active_receiver as int,
                    Display::Waterfall2 => 1,
                };
                let from_tx = self.spec_transmitting() && display != Display::Spectrum2;
                &&& req.channel == (if from_tx {
                    self.transmitter.channel
                } else {
                    self.receiver@[rx].channel
                })
                &&& req.display == (if display == Display::Spectrum || display
                    == Display::Spectrum2 {
                    0i32
                } else {
                    1i32
                })
                &&& req.pixels == (if from_tx {
                    width * 12
                } else {
                    width * self.receiver@[rx].zoom
                })
            }),
    {
        let rx: usize = match display {
            Display::Spectrum => 0,
            Display::Spectrum2 => 1,
            Display::Waterfall => self.active_receiver,
            Display::Waterfall2 => 1,
        };
        let from_tx = self.is_transmitting() && display != Display::Spectrum2;
        let d: i32 = match display {
            Display::Spectrum | Display::Spectrum2 => 0,
            Display::Waterfall | Display::Waterfall2 => 1,
        };
        if from_tx {
            PixelRequest { channel: self.transmitter.channel, display: d, pixels: width as i64 * 12 }
        } else {
            let zoom = self.receiver[rx].zoom;
            assert(-0x4000000000000000 <= (width as int) * (zoom as int) <= 0x4000000000000000)
                by (nonlinear_arith)
                requires
                    -0x80000000 <= width < 0x80000000,
                    -0x80000000 <= zoom < 0x80000000,
            ;
            let pixels = width as i64 * zoom as i64;
            assert(pixels == width * zoom);
            PixelRequest { channel: self.receiver[rx].channel, display: d, pixels }
        }
    }
}

impl Radio {
    /// Takes the status the radio reported in a protocol 2 high priority status
    /// packet, notes that the radio was heard from, and says whether the PTT, dot or
    /// dash input changed, in which case the DSP must follow.
    pub fn apply_status(&mut self, status: &HighPriorityStatus) -> (changed: bool)
        ensures
            final(self).ptt == status.ptt,
            final(self).dot == status.dot,
            final(self).dash == status.dash,
            final(self).pll_locked == status.pll_locked,
            final(self).alex_forward_power == status.alex_forward_power,
            final(self).alex_reverse_power == status.alex_reverse_power,
            final(self).supply_volts == status.supply_volts,
            final(self).received,
            changed == (old(self).ptt != status.ptt || old(self).dot != status.dot || old(self).dash != status.dash),
            *final(self) == (Radio {
                ptt: status.ptt,
                dot: status.dot,
                dash: status.dash,
                pll_locked: status.pll_locked,
                alex_forward_power: status.alex_forward_power,
                alex_reverse_power: status.alex_reverse_power,
                supply_volts: status.supply_volts,
                received: true,
                ..*old(self)
            }),
    {
        let changed = self.ptt != status.ptt || self.dot != status.dot || self.dash != status.dash;
        self.take_status(status);
        changed
    }

    /// Takes the PTT, dot and dash inputs that a protocol 1 frame reported and says
    /// whether any changed, in which case the DSP must follow.
    pub fn apply_keys(&mut self, ptt: bool, dot: bool, dash: bool) -> (changed: bool)
        ensures
            final(self).ptt == ptt,
            final(self).dot == dot,
            final(self).dash == dash,
            changed == (old(self).ptt != ptt || old(self).dot != dot || old(self).dash != dash),
            *final(self) == (Radio {
                ptt: final(self).ptt,
                dot: final(self).dot,
                dash: final(self).dash,
                ..*old(self)
            }),
    {
        let changed = self.ptt != ptt || self.dot != dot || self.dash != dash;
        self.set_keys(ptt, dot, dash);
        changed
    }

    /// Takes the hardware's report from a status packet and notes it was heard from.
    fn take_status(&mut self, status: &HighPriorityStatus)
        ensures
            *final(self) == (Radio {
                ptt: status.ptt,
                dot: status.dot,
                dash: status.dash,
                pll_locked: status.pll_locked,
                alex_forward_power: status.alex_forward_power,
                alex_reverse_power: status.alex_reverse_power,
                supply_volts: status.supply_volts,
                received: true,
                ..*old(self)
            }),
    {
        self.ptt = status.ptt;
        self.dot = status.dot;
        self.dash = status.dash;
        self.pll_locked = status.pll_locked;
        self.alex_forward_power = status.alex_forward_power;
        self.alex_reverse_power = status.alex_reverse_power;
        self.supply_volts = status.supply_volts;
        self.received = true;
    }

    /// Sets the PTT, dot and dash inputs.
    fn set_keys(&mut self, ptt: bool, dot: bool, dash: bool)
        ensures
            *final(self) == (Radio { ptt: ptt, dot: dot, dash: dash, ..*old(self) }),
    {
        self.ptt = ptt;
        self.dot = dot;
        self.dash = dash;
    }

    /// Sets MOX and TUNE and asks for the radio to be told.
    fn set_mox_tune(&mut self, mox: bool, tune: bool)
        ensures
            *final(self) == (Radio { mox: mox, tune: tune, updated: true, ..*old(self) }),
    {
        self.mox = mox;
        self.tune = tune;
        self.updated = true;
    }

    /// Whether the radio is to be sent all its settings again: they changed, or a
    /// keepalive is due. Clears both requests.
    pub fn take_resend(&mut self) -> (resend: bool)
        ensures
            resend == (old(self).updated || old(self).keepalive),
            !final(self).updated,
            !final(self).keepalive,
            final(self).mox == old(self).mox,
            final(self).ptt == old(self).ptt,
            final(self).vox == old(self).vox,
            final(self).tune == old(self).tune,
            final(self).receiver@ == old(self).receiver@,
            final(self).adc@ == old(self).adc@,
            final(self).active_receiver == old(self).active_receiver,
            *final(self) == (Radio {
                updated: final(self).updated,
                keepalive: final(self).keepalive,
                ..*old(self)
            }),
    {
        let resend = self.updated || self.keepalive;
        self.updated = false;
        self.keepalive = false;
        resend
    }

    /// Presses or releases MOX. Pressing it while tuning stops the tuning; says
    /// whether it did. Either way the radio is to be told.
    pub fn press_mox(&mut self, pressed: bool) -> (tune_stopped: bool)
        ensures
            final(self).mox == pressed,
            tune_stopped == (pressed && old(self).tune),
            final(self).tune == (old(self).tune && !pressed),
            !(final(self).mox && final(self).tune),
            final(self).updated,
            *final(self) == (Radio {
                mox: final(self).mox,
                tune: final(self).tune,
                updated: true,
                ..*old(self)
            }),
    {
        let tune_stopped = pressed && self.tune;
        let tune = self.tune && !pressed;
        self.set_mox_tune(pressed, tune);
        tune_stopped
    }

    /// Presses or releases TUNE. Pressing it under MOX releases MOX; says whether it
    /// did. Either way the radio is to be told.
    pub fn press_tune(&mut self, pressed: bool) -> (mox_released: bool)
        ensures
            final(self).tune == pressed,
            mox_released == (pressed && old(self).mox),
            final(self).mox == (old(self).mox && !pressed),
            !(final(self).mox && final(self).tune),
            final(self).updated,
            *final(self) == (Radio {
                mox: final(self).mox,
                tune: final(self).tune,
                updated: true,
                ..*old(self)
            }),
    {
        let mox_released = pressed && self.mox;
        let mox = self.mox && !pressed;
        self.set_mox_tune(mox, pressed);
        mox_released
    }

    /// What the control bytes of protocol 1 frames are made from. The attenuation is
    /// that of the first receiver's converter.
    pub fn control_state(&self) -> (c: ControlState)
        requires
            self.wf(),
        ensures
            ({
                let rx1 = self.receiver@[0];
                &&& c.sample_rate == rx1.sample_rate
                &&& c.rx_antenna == self.adc@[rx1.adc as int].rx_antenna
                &&& c.rx1 == tuning_of(rx1)
                &&& c.rx2_frequency == clamp_i32(self.receiver@[1].frequency as int)
                &&& c.split == self.split
                &&& c.mic_boost == self.mic_boost
                &&& c.mic_ptt == self.mic_ptt
                &&& c.mic_bias_enable == self.mic_bias_enable
                &&& c.mic_bias_ring == self.mic_bias_ring
                &&& c.attenuation == self.adc@[rx1.adc as int].attenuation
                &&& c.rxgain == rx1.rxgain
                &&& c.dev == self.dev
                &&& c.transmitting == self.spec_transmitting()
            }),
    {
        let rx1 = &self.receiver[0];
        let adc = &self.adc[rx1.adc];
        ControlState {
            sample_rate: rx1.sample_rate,
            rx_antenna: adc.rx_antenna,
            rx1: receiver_tuning(rx1),
            rx2_frequency: clamp_to_i32(self.receiver[1].frequency),
            split: self.split,
            mic_boost: self.mic_boost,
            mic_ptt: self.mic_ptt,
            mic_bias_enable: self.mic_bias_enable,
            mic_bias_ring: self.mic_bias_ring,
            attenuation: adc.attenuation,
            rxgain: rx1.rxgain,
            dev: self.dev,
            transmitting: self.is_transmitting(),
        }
    }

    /// What the protocol 2 high priority packet tells the radio, the drive level byte
    /// being `drive_level`: the tuning of each of the receivers in use, and of the
    /// first two. Each receiver's attenuation is that of its converter.
    pub fn high_priority(&self, drive_level: u8) -> (hp: HighPriority)
        requires
            self.wf(),
            self.receivers <= 2,
        ensures
            hp.transmitting == self.spec_transmitting(),
            hp.receivers@.len() == self.receivers,
            forall|i: int|
                0 <= i < self.receivers ==> #[trigger] hp.receivers@[i] == tuning_of(
                    self.receiver@[i],
                ),
            hp.rx1 == tuning_of(self.receiver@[0]),
            hp.rx2 == tuning_of(self.receiver@[1]),
            hp.split == self.split,
            hp.drive_level == drive_level,
            hp.tx_antenna == self.transmitter.tx_antenna,
            hp.rx_antenna == self.adc@[self.receiver@[0].adc as int].rx_antenna,
            hp.rx1_attenuation == self.adc@[self.receiver@[0].adc as int].attenuation,
            hp.rx2_attenuation == self.adc@[self.receiver@[1].adc as int].attenuation,
    {
        let mut receivers: Vec<ReceiverTuning> = Vec::new();
        let n = self.receivers as usize;
        let mut i: usize = 0;
        while i < n
            invariant
                self.wf(),
                n == self.receivers,
                n <= 2,
                i <= n,
                receivers@.len() == i,
                forall|j: int| 0 <= j < i ==> #[trigger] receivers@[j] == tuning_of(self.receiver@[j]),
            decreases n - i,
        {
            receivers.push(receiver_tuning(&self.receiver[i]));
            i = i + 1;
        }
        HighPriority {
            transmitting: self.is_transmitting(),
            receivers,
            rx1: receiver_tuning(&self.receiver[0]),
            rx2: receiver_tuning(&self.receiver[1]),
            split: self.split,
            drive_level,
            tx_antenna: self.transmitter.tx_antenna,
            rx_antenna: self.adc[self.receiver[0].adc].rx_antenna,
            rx1_attenuation: self.adc[self.receiver[0].adc].attenuation,
            rx2_attenuation: self.adc[self.receiver[1].adc].attenuation,
        }
    }

    /// What the protocol 2 transmit specific packet tells the radio.
    pub fn transmit_specific(&self) -> (t: TransmitSpecific)
        ensures
            t == (TransmitSpecific {
                mode: self.transmitter.mode,
                cw_keys_reversed: self.cw_keys_reversed,
                cw_keyer_mode: self.cw_keyer_mode,
                cw_keyer_sidetone_volume: self.cw_keyer_sidetone_volume,
                cw_keyer_spacing: self.cw_keyer_spacing,
                cw_breakin: self.cw_breakin,
                cw_keyer_sidetone_frequency: self.cw_keyer_sidetone_frequency,
                cw_keyer_speed: self.cw_keyer_speed,
                cw_keyer_weight: self.cw_keyer_weight,
                cw_keyer_hang_time: self.cw_keyer_hang_time,
                line_in: self.line_in,
                mic_boost: self.mic_boost,
                mic_ptt: self.mic_ptt,
                mic_bias_ring: self.mic_bias_ring,
                mic_bias_enable: self.mic_bias_enable,
                mic_saturn_xlr: self.mic_saturn_xlr,
            }),
    {
        TransmitSpecific {
            mode: self.transmitter.mode,
            cw_keys_reversed: self.cw_keys_reversed,
            cw_keyer_mode: self.cw_keyer_mode,
            cw_keyer_sidetone_volume: self.cw_keyer_sidetone_volume,
            cw_keyer_spacing: self.cw_keyer_spacing,
            cw_breakin: self.cw_breakin,
            cw_keyer_sidetone_frequency: self.cw_keyer_sidetone_frequency,
            cw_keyer_speed: self.cw_keyer_speed,
            cw_keyer_weight: self.cw_keyer_weight,
            cw_keyer_hang_time: self.cw_keyer_hang_time,
            line_in: self.line_in,
            mic_boost: self.mic_boost,
            mic_ptt: self.mic_ptt,
            mic_bias_ring: self.mic_bias_ring,
            mic_bias_enable: self.mic_bias_enable,
            mic_saturn_xlr: self.mic_saturn_xlr,
        }
    }

    /// The converter and sample rate of each receiver, for the protocol 2 receive
    /// specific packet.
    pub fn ddc_settings(&self) -> (ddcs: Vec<DdcSetting>)
        ensures
            ddcs@.len() == self.receiver@.len(),
            forall|i: int|
                0 <= i < ddcs@.len() ==> #[trigger] ddcs@[i] == (DdcSetting {
                    adc: self.receiver@[i].adc,
                    sample_rate: self.receiver@[i].sample_rate,
                }),
    {
        let mut ddcs: Vec<DdcSetting> = Vec::new();
        let mut i: usize = 0;
        while i < self.receiver.len()
            invariant
                i <= self.receiver@.len(),
                ddcs@.len() == i,
                forall|j: int|
                    0 <= j < i ==> #[trigger] ddcs@[j] == (DdcSetting {
                        adc: self.receiver@[j].adc,
                        sample_rate: self.receiver@[j].sample_rate,
                    }),
            decreases self.receiver@.len() - i,
        {
            ddcs.push(
                DdcSetting { adc: self.receiver[i].adc, sample_rate: self.receiver[i].sample_rate },
            );
            i = i + 1;
        }
        ddcs
    }

    /// A click on the display of receiver `rx`: when that receiver is not the active
    /// one it becomes active, the other inactive, and the click does nothing more
    /// (gives `false`); otherwise the click is for tuning (gives `true`).
    #[verifier::spinoff_prover]
    pub fn activate_receiver(&mut self, rx: usize) -> (tune: bool)
        requires
            old(self).wf(),
            rx < 2,
        ensures
            final(self).wf(),
            tune == old(self).receiver@[rx as int].active,
            tune ==> final(self).receiver@ == old(self).receiver@,
            !tune ==> final(self).receiver@[0] == made_active(old(self).receiver@[0], rx == 0),
            !tune ==> final(self).receiver@[1] == made_active(old(self).receiver@[1], rx == 1),
            *final(self) == (Radio { receiver: final(self).receiver, ..*old(self) }),
    {
        let mut pair: Vec<Receiver> = Vec::new();
        std::mem::swap(&mut pair, &mut self.receiver);
        let tune = activate_in(&mut pair, rx);
        self.receiver = pair;
        tune
    }
}

/// Receiver `r` with its active flag set to `on`, all else kept.
#[verifier::opaque]
pub open spec fn made_active(r: Receiver, on: bool) -> Receiver {
    Receiver { active: on, ..r }
}

/// Makes receiver `rx` of the pair the active one and the other inactive, unless it
/// is active already; says whether it was.
#[verifier::spinoff_prover]
fn activate_in(receivers: &mut Vec<Receiver>, rx: usize) -> (was_active: bool)
    requires
        old(receivers)@.len() == 2,
        rx < 2,
    ensures
        was_active == old(receivers)@[rx as int].active,
        was_active ==> final(receivers)@ == old(receivers)@,
        final(receivers)@.len() == 2,
        !was_active ==> final(receivers)@[0] == made_active(old(receivers)@[0], rx == 0),
        !was_active ==> final(receivers)@[1] == made_active(old(receivers)@[1], rx == 1),
        final(receivers)@[0].adc == old(receivers)@[0].adc,
        final(receivers)@[1].adc == old(receivers)@[1].adc,
{
    reveal(made_active);
    let was_active = receivers[rx].active;
    let mut a = receivers.remove(0);
    let mut b = receivers.remove(0);
    if !was_active {
        a.set_active(rx == 0);
        b.set_active(rx == 1);
    }
    receivers.push(a);
    receivers.push(b);
    assert(was_active ==> receivers@ =~= old(receivers)@);
    was_active
}

impl Radio {
    /// The receiver the controls act on: the second when it is active, else the first.
    pub open spec fn controlled(&self) -> int {
        if self.receiver@[1].active {
            1
        } else {
            0
        }
    }

    /// The receiver the controls act on.
    pub fn controlled_receiver(&self) -> (rx: usize)
        requires
            self.wf(),
        ensures
            rx == self.controlled(),
    {
        if self.receiver[1].active {
            1
        } else {
            0
        }
    }

    /// A band button: the receiver the controls act on changes to band `index` of the
    /// radio's band table; when the band changes, the transmitter takes the new mode
    /// and the edges of the band's filter. Gives those edges, or `None` when the band
    /// stays.
    #[verifier::spinoff_prover]
    #[verifier::rlimit(100)]
    pub fn choose_band(&mut self, index: usize) -> (edges: Option<(i32, i32)>)
        requires
            old(self).wf(),
            index < 15,
            old(self).band_info@.len() == 15,
        ensures
            final(self).wf(),
            final(self).band_info@.len() == 15,
            ({
                let rx = old(self).controlled();
                &&& band_selected(
                    old(self).receiver@[rx],
                    old(self).band_info@,
                    index,
                    final(self).receiver@[rx],
                    final(self).band_info@,
                    edges,
                )
                &&& final(self).receiver@[1 - rx] == old(self).receiver@[1 - rx]
                &&& final(self).controlled() == rx
                &&& match edges {
                    Some(e) => final(self).transmitter == (Transmitter {
                        mode: final(self).receiver@[rx].mode,
                        filter_low: e.0 as i64,
                        filter_high: e.1 as i64,
                        ..old(self).transmitter
                    }),
                    None => final(self).transmitter == old(self).transmitter,
                }
            }),
            final(self).adc@ == old(self).adc@,
            final(self).active_receiver == old(self).active_receiver,
            final(self).spec_transmitting() == old(self).spec_transmitting(),
            *final(self) == (Radio {
                receiver: final(self).receiver,
                band_info: final(self).band_info,
                transmitter: final(self).transmitter,
                ..*old(self)
            }),
    {
        proof {
            lemma_same_filter(self.transmitter);
        }
        let rx = self.controlled_receiver();
        let mut receivers: Vec<Receiver> = Vec::new();
        std::mem::swap(&mut receivers, &mut self.receiver);
        let mut bands: Vec<BandInfo> = Vec::new();
        std::mem::swap(&mut bands, &mut self.band_info);
        let mut r = receivers.remove(rx);
        let edges = r.select_band(index, &mut bands);
        let (mode, low, high) = transmit_filter(
            edges,
            r.mode,
            self.transmitter.mode,
            self.transmitter.filter_low,
            self.transmitter.filter_high,
        );
        receivers.insert(rx, r);
        self.receiver = receivers;
        self.band_info = bands;
        self.transmitter.mode = mode;
        self.transmitter.filter_low = low;
        self.transmitter.filter_high = high;
        edges
    }

    /// A mode button: the receiver the controls act on takes mode `mode`, keeping its
    /// filter number, and the transmitter takes the mode and the filter's edges, which
    /// it gives.
    pub fn choose_mode(&mut self, mode: usize) -> (edges: (i32, i32))
        requires
            old(self).wf(),
            old(self).receiver@[old(self).controlled()].filter < 12,
        ensures
            final(self).wf(),
            ({
                let rx = old(self).controlled();
                let r0 = old(self).receiver@[rx];
                let r1 = final(self).receiver@[rx];
                &&& edges.0 == filter_edges(mode, r0.filter).0
                &&& edges.1 == filter_edges(mode, r0.filter).1
                &&& r1.mode == mode
                &&& (r1.filter_low as int, r1.filter_high as int) == mode_passband(
                    mode,
                    edges.0 as int,
                    edges.1 as int,
                    r0.cw_pitch as int,
                )
                &&& r1 == (Receiver {
                    mode: r1.mode,
                    filter_low: r1.filter_low,
                    filter_high: r1.filter_high,
                    ..r0
                })
                &&& final(self).receiver@[1 - rx] == old(self).receiver@[1 - rx]
                &&& final(self).transmitter == (Transmitter {
                    mode: mode,
                    filter_low: edges.0 as i64,
                    filter_high: edges.1 as i64,
                    ..old(self).transmitter
                })
            }),
            final(self).band_info@ == old(self).band_info@,
            final(self).adc@ == old(self).adc@,
            final(self).active_receiver == old(self).active_receiver,
            *final(self) == (Radio {
                receiver: final(self).receiver,
                transmitter: final(self).transmitter,
                ..*old(self)
            }),
    {
        let rx = self.controlled_receiver();
        let mut receivers: Vec<Receiver> = Vec::new();
        std::mem::swap(&mut receivers, &mut self.receiver);
        let mut r = receivers.remove(rx);
        let edges = r.select_mode(mode);
        receivers.insert(rx, r);
        self.receiver = receivers;
        self.transmitter.mode = mode;
        self.transmitter.filter_low = edges.0 as i64;
        self.transmitter.filter_high = edges.1 as i64;
        edges
    }

    /// A filter button: the receiver the controls act on takes filter `filter` of its
    /// mode, and the transmitter takes the filter's edges, which it gives.
    pub fn choose_filter(&mut self, filter: usize) -> (edges: (i32, i32))
        requires
            old(self).wf(),
            filter < 12,
        ensures
            final(self).wf(),
            ({
                let rx = old(self).controlled();
                let r0 = old(self).receiver@[rx];
                let r1 = final(self).receiver@[rx];
                &&& edges.0 == filter_edges(r0.mode, filter).0
                &&& edges.1 == filter_edges(r0.mode, filter).1
                &&& r1.filter == filter
                &&& (r1.filter_low as int, r1.filter_high as int) == mode_passband(
                    r0.mode,
                    edges.0 as int,
                    edges.1 as int,
                    r0.cw_pitch as int,
                )
                &&& r1 == (Receiver {
                    filter: r1.filter,
                    filter_low: r1.filter_low,
                    filter_high: r1.filter_high,
                    ..r0
                })
                &&& final(self).receiver@[1 - rx] == old(self).receiver@[1 - rx]
                &&& final(self).transmitter == (Transmitter {
                    filter_low: edges.0 as i64,
                    filter_high: edges.1 as i64,
                    ..old(self).transmitter
                })
            }),
            final(self).band_info@ == old(self).band_info@,
            final(self).adc@ == old(self).adc@,
            final(self).active_receiver == old(self).active_receiver,
            *final(self) == (Radio {
                receiver: final(self).receiver,
                transmitter: final(self).transmitter,
                ..*old(self)
            }),
    {
        let rx = self.controlled_receiver();
        let mut r = self.receiver.remove(rx);
        let edges = r.select_filter(filter);
        self.receiver.insert(rx, r);
        self.transmitter.filter_low = edges.0 as i64;
        self.transmitter.filter_high = edges.1 as i64;
        edges
    }
}

/// Where a receiver is tuned, as the radio is told: its frequency held within the 32
/// bit range, its mode and its CW pitch.
pub open spec fn tuning_of(r: Receiver) -> ReceiverTuning {
    ReceiverTuning { frequency: clamp_i32(r.frequency as int), mode: r.mode, cw_pitch: r.cw_pitch }
}

fn receiver_tuning(r: &Receiver) -> (t: ReceiverTuning)
    ensures
        t == tuning_of(*r),
{
    ReceiverTuning { frequency: clamp_to_i32(r.frequency), mode: r.mode, cw_pitch: r.cw_pitch }
}

/// Where on the height of the spectrum a scroll at its left edge falls: the top
/// quarter moves the top of the scale, the bottom quarter its bottom, the rest both.
#[derive(Clone, Copy, Debug, PartialEq, Eq, Structural)]
pub enum LimitZone {
    Top,
    Middle,
    Bottom,
}

/// The rows of a spectrum `height` pixels high above which a scroll is in the top
/// zone and below which it is in the bottom zone: a quarter of the height (rounded
/// toward zero) from each edge.
pub fn limit_zone_bounds(height: i32) -> (bounds: (i32, i32))
    ensures
        bounds.0 == (if height >= 0 { height / 4 } else { -((-height) / 4) }),
        bounds.1 == height - bounds.0,
{
    let h: i64 = height as i64;
    let top: i64 = if h >= 0 {
        h / 4
    } else {
        -((-h) / 4)
    };
    (top as i32, (h - top) as i32)
}

/// The display scale limit `v` dBm moved one dBm up or down, held within range.
pub open spec fn moved_limit(v: i32, up: bool) -> i32 {
    clamp_i32(if up { v + 1 } else { v - 1 })
}

/// The scale after a scroll in `zone`: the top, the bottom or both moved.
pub open spec fn scrolled_limits(low: i32, high: i32, zone: LimitZone, up: bool) -> (i32, i32) {
    match zone {
        LimitZone::Top => (low, moved_limit(high, up)),
        LimitZone::Bottom => (moved_limit(low, up), high),
        LimitZone::Middle => (moved_limit(low, up), moved_limit(high, up)),
    }
}

/// A transmitter rebuilt from its own mode and filter edges is the same transmitter.
proof fn lemma_same_filter(t: Transmitter)
    ensures
        t == (Transmitter { mode: t.mode, filter_low: t.filter_low, filter_high: t.filter_high, ..t }),
{
}

/// The transmitter's mode and filter edges after a band change: those of the band's
/// filter in the receiver's mode when the band changed (`edges`), else those it had.
fn transmit_filter(
    edges: Option<(i32, i32)>,
    mode: usize,
    tx_mode: usize,
    tx_low: i64,
    tx_high: i64,
) -> (after: (usize, i64, i64))
    ensures
        after == (match edges {
            Some(e) => (mode, e.0 as i64, e.1 as i64),
            None => (tx_mode, tx_low, tx_high),
        }),
{
    match edges {
        Some((low, high)) => (mode, low as i64, high as i64),
        None => (tx_mode, tx_low, tx_high),
    }
}

fn scroll_limits(low: i32, high: i32, zone: LimitZone, up: bool) -> (limits: (i32, i32))
    ensures
        limits == scrolled_limits(low, high, zone, up),
{
    let step: i64 = if up {
        1
    } else {
        -1
    };
    match zone {
        LimitZone::Top => (low, clamp_to_i32(high as i64 + step)),
        LimitZone::Bottom => (clamp_to_i32(low as i64 + step), high),
        LimitZone::Middle => (clamp_to_i32(low as i64 + step), clamp_to_i32(high as i64 + step)),
    }
}

impl Radio {
    /// A scroll at the left edge of the spectrum of receiver `rx` (up or down) in
    /// `zone`: moves the scale of the transmit spectrum while transmitting, else the
    /// scale the radio keeps for that receiver's band.
    #[verifier::spinoff_prover]
    #[verifier::rlimit(100)]
    pub fn scroll_display_limits(&mut self, rx: usize, zone: LimitZone, up: bool)
        requires
            old(self).wf(),
            rx < 2,
            crate::bands::band_index(old(self).receiver@[rx as int].band) < old(self).band_info@.len(),
        ensures
            final(self).wf(),
            final(self).receiver@ == old(self).receiver@,
            final(self).band_info@.len() == old(self).band_info@.len(),
            ({
                let b = crate::bands::band_index(old(self).receiver@[rx as int].band) as int;
                if old(self).spec_transmitting() {
                    &&& (final(self).transmitter.spectrum_low, final(self).transmitter.spectrum_high)
                        == scrolled_limits(
                        old(self).transmitter.spectrum_low,
                        old(self).transmitter.spectrum_high,
                        zone,
                        up,
                    )
                    &&& final(self).band_info@ == old(self).band_info@
                } else {
                    &&& (final(self).band_info@[b].spectrum_low, final(self).band_info@[b].spectrum_high)
                        == scrolled_limits(
                        old(self).band_info@[b].spectrum_low,
                        old(self).band_info@[b].spectrum_high,
                        zone,
                        up,
                    )
                    &&& final(self).band_info@[b] == (BandInfo {
                        spectrum_low: final(self).band_info@[b].spectrum_low,
                        spectrum_high: final(self).band_info@[b].spectrum_high,
                        ..old(self).band_info@[b]
                    })
                    &&& forall|i: int|
                        0 <= i < old(self).band_info@.len() && i != b
                            ==> #[trigger] final(self).band_info@[i] == old(self).band_info@[i]
                    &&& final(self).transmitter == old(self).transmitter
                }
            }),
    {
        if self.is_transmitting() {
            self.scroll_transmitter_limits(zone, up);
        } else {
            let b = self.receiver[rx].band.to_usize();
            self.scroll_band_limits(b, zone, up);
        }
    }

    /// Moves the transmitter's display limits.
    fn scroll_transmitter_limits(&mut self, zone: LimitZone, up: bool)
        ensures
            (final(self).transmitter.spectrum_low, final(self).transmitter.spectrum_high)
                == scrolled_limits(
                old(self).transmitter.spectrum_low,
                old(self).transmitter.spectrum_high,
                zone,
                up,
            ),
            *final(self) == (Radio {
                transmitter: Transmitter {
                    spectrum_low: final(self).transmitter.spectrum_low,
                    spectrum_high: final(self).transmitter.spectrum_high,
                    ..old(self).transmitter
                },
                ..*old(self)
            }),
    {
        let (low, high) = scroll_limits(
            self.transmitter.spectrum_low,
            self.transmitter.spectrum_high,
            zone,
            up,
        );
        self.transmitter.spectrum_low = low;
        self.transmitter.spectrum_high = high;
    }

    /// Moves the display limits of band `b` of the band table.
    fn scroll_band_limits(&mut self, b: usize, zone: LimitZone, up: bool)
        requires
            b < old(self).band_info@.len(),
        ensures
            final(self).band_info@.len() == old(self).band_info@.len(),
            (final(self).band_info@[b as int].spectrum_low, final(self).band_info@[b as int].spectrum_high)
                == scrolled_limits(
                old(self).band_info@[b as int].spectrum_low,
                old(self).band_info@[b as int].spectrum_high,
                zone,
                up,
            ),
            final(self).band_info@[b as int] == (BandInfo {
                spectrum_low: final(self).band_info@[b as int].spectrum_low,
                spectrum_high: final(self).band_info@[b as int].spectrum_high,
                ..old(self).band_info@[b as int]
            }),
            forall|i: int|
                0 <= i < old(self).band_info@.len() && i != b ==> #[trigger] final(self).band_info@[i]
                    == old(self).band_info@[i],
            *final(self) == (Radio { band_info: final(self).band_info, ..*old(self) }),
    {
        let mut bands: Vec<BandInfo> = Vec::new();
        std::mem::swap(&mut bands, &mut self.band_info);
        let mut info = bands.remove(b);
        let (low, high) = scroll_limits(info.spectrum_low, info.spectrum_high, zone, up);
        info.spectrum_low = low;
        info.spectrum_high = high;
        bands.insert(b, info);
        self.band_info = bands;
    }
}

/// The hexadecimal digit of `d`, upper case.
pub open spec fn hex_digit(d: nat) -> char {
    if d < 10 {
        crate::util::digit_char(d)
    } else if d == 10 {
        'A'
    } else if d == 11 {
        'B'
    } else if d == 12 {
        'C'
    } else if d == 13 {
        'D'
    } else if d == 14 {
        'E'
    } else {
        'F'
    }
}

/// A byte in two upper case hexadecimal digits.
pub open spec fn hex_byte(b: u8) -> Seq<char> {
    seq![hex_digit((b / 16) as nat), hex_digit((b % 16) as nat)]
}

fn hex_str(d: u8) -> (s: &'static str)
    requires
        d < 16,
    ensures
        s@ == seq![hex_digit(d as nat)],
{
    proof {
        reveal_strlit("0");
        reveal_strlit("1");
        reveal_strlit("2");
        reveal_strlit("3");
        reveal_strlit("4");
        reveal_strlit("5");
        reveal_strlit("6");
        reveal_strlit("7");
        reveal_strlit("8");
        reveal_strlit("9");
        reveal_strlit("A");
        reveal_strlit("B");
        reveal_strlit("C");
        reveal_strlit("D");
        reveal_strlit("E");
        reveal_strlit("F");
    }
    match d {
        0 => "0",
        1 => "1",
        2 => "2",
        3 => "3",
        4 => "4",
        5 => "5",
        6 => "6",
        7 => "7",
        8 => "8",
        9 => "9",
        10 => "A",
        11 => "B",
        12 => "C",
        13 => "D",
        14 => "E",
        _ => "F",
    }
}

/// The name of the folder that holds a radio's saved settings: its MAC address as six
/// upper case hexadecimal bytes joined by '-'.
pub open spec fn mac_folder_name(mac: Seq<u8>) -> Seq<char> {
    hex_byte(mac[0]) + seq!['-'] + hex_byte(mac[1]) + seq!['-'] + hex_byte(mac[2]) + seq!['-']
        + hex_byte(mac[3]) + seq!['-'] + hex_byte(mac[4]) + seq!['-'] + hex_byte(mac[5])
}

/// The name of the folder that holds the saved settings of the radio with MAC address
/// `mac`.
pub fn config_folder_name(mac: [u8; 6]) -> (name: String)
    ensures
        name@ == mac_folder_name(mac@),
{
    let mut name = String::new();
    let mut i: usize = 0;
    while i < 6
        invariant
            i <= 6,
            i == 0 ==> name@ == Seq::<char>::empty(),
            i > 0 ==> name@ == mac_prefix(mac@, i as int),
        decreases 6 - i,
    {
        let ghost prev = name@;
        if i > 0 {
            name.append("-");
        }
        let ghost sep = name@;
        let hi = hex_str(mac[i] / 16);
        let lo = hex_str(mac[i] % 16);
        name.append(hi);
        name.append(lo);
        proof {
            assert(name@ =~= sep + hex_byte(mac@[i as int]));
            if i > 0 {
                reveal_strlit("-");
                assert(sep =~= prev + seq!['-']);
            } else {
                assert(sep =~= Seq::<char>::empty());
            }
        }
        i = i + 1;
    }
    proof {
        reveal_with_fuel(mac_prefix, 6);
    }
    assert(name@ =~= mac_folder_name(mac@));
    name
}

/// The first `k` bytes of a MAC address in hexadecimal joined by '-'.
pub open spec fn mac_prefix(mac: Seq<u8>, k: int) -> Seq<char>
    decreases k,
{
    if k <= 1 {
        hex_byte(mac[0])
    } else {
        mac_prefix(mac, k - 1) + seq!['-'] + hex_byte(mac[k - 1])
    }
}

} // verus!
