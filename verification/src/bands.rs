use vstd::prelude::*;
use vstd::string::StringExecFns;

use crate::filters::Filters;
use crate::modes::Modes;

verus! {

/// The amateur bands, general coverage and WWV, numbered 0 to 14 in this order.
#[derive(Debug, Clone, Copy, PartialEq, Eq, Structural)]
pub enum Bands {
    Band2200,
    Band630,
    Band160,
    Band80,
    Band60,
    Band40,
    Band30,
    Band20,
    Band17,
    Band15,
    Band12,
    Band10,
    Band6,
    BandGEN,
    BandWWV,
}

/// The number of each variant, in declaration order from 0.
pub open spec fn band_index(v: Bands) -> usize {
    match v {
        Bands::Band2200 => 0,
        Bands::Band630 => 1,
        Bands::Band160 => 2,
        Bands::Band80 => 3,
        Bands::Band60 => 4,
        Bands::Band40 => 5,
        Bands::Band30 => 6,
        Bands::Band20 => 7,
        Bands::Band17 => 8,
        Bands::Band15 => 9,
        Bands::Band12 => 10,
        Bands::Band10 => 11,
        Bands::Band6 => 12,
        Bands::BandGEN => 13,
        Bands::BandWWV => 14,
    }
}

/// The variant numbered `value`, if any.
pub open spec fn band_from_index(value: usize) -> Option<Bands> {
    if value == 0 {
        Some(Bands::Band2200)
    } else if value == 1 {
        Some(Bands::Band630)
    } else if value == 2 {
        Some(Bands::Band160)
    } else if value == 3 {
        Some(Bands::Band80)
    } else if value == 4 {
        Some(Bands::Band60)
    } else if value == 5 {
        Some(Bands::Band40)
    } else if value == 6 {
        Some(Bands::Band30)
    } else if value == 7 {
        Some(Bands::Band20)
    } else if value == 8 {
        Some(Bands::Band17)
    } else if value == 9 {
        Some(Bands::Band15)
    } else if value == 10 {
        Some(Bands::Band12)
    } else if value == 11 {
        Some(Bands::Band10)
    } else if value == 12 {
        Some(Bands::Band6)
    } else if value == 13 {
        Some(Bands::BandGEN)
    } else if value == 14 {
        Some(Bands::BandWWV)
    } else {
        None
    }
}

impl Bands {
    /// The variant numbered `value`, or `None` when no variant has that number.
    pub fn from_usize(value: usize) -> (r: Option<Self>)
        ensures
            r == band_from_index(value),
    {
        match value {
            0 => Some(Bands::Band2200),
            1 => Some(Bands::Band630),
            2 => Some(Bands::Band160),
            3 => Some(Bands::Band80),
            4 => Some(Bands::Band60),
            5 => Some(Bands::Band40),
            6 => Some(Bands::Band30),
            7 => Some(Bands::Band20),
            8 => Some(Bands::Band17),
            9 => Some(Bands::Band15),
            10 => Some(Bands::Band12),
            11 => Some(Bands::Band10),
            12 => Some(Bands::Band6),
            13 => Some(Bands::BandGEN),
            14 => Some(Bands::BandWWV),
            _ => None,
        }
    }

    /// The number of this variant.
    pub fn to_usize(&self) -> (r: usize)
        ensures
            r == band_index(*self),
    {
        match self {
            Bands::Band2200 => 0,
            Bands::Band630 => 1,
            Bands::Band160 => 2,
            Bands::Band80 => 3,
            Bands::Band60 => 4,
            Bands::Band40 => 5,
            Bands::Band30 => 6,
            Bands::Band20 => 7,
            Bands::Band17 => 8,
            Bands::Band15 => 9,
            Bands::Band12 => 10,
            Bands::Band10 => 11,
            Bands::Band6 => 12,
            Bands::BandGEN => 13,
            Bands::BandWWV => 14,
        }
    }
}

/// Numbering is a bijection between the bands and 0..15: a band's number gives the
/// band back, and a number gives a band exactly when it is below 15, that band having
/// the number.
pub proof fn lemma_band_index_round_trip(v: Bands, value: usize)
    ensures
        band_from_index(band_index(v)) == Some(v),
        band_from_index(value) is Some <==> value < 15,
        band_from_index(value) matches Some(w) ==> band_index(w) == value,
{
}

/// The label of each band's button.
pub open spec fn band_label(b: Bands) -> Seq<char> {
    match b {
        Bands::Band2200 => "2200"@,
        Bands::Band630 => "630"@,
        Bands::Band160 => "160"@,
        Bands::Band80 => "80"@,
        Bands::Band60 => "60"@,
        Bands::Band40 => "40"@,
        Bands::Band30 => "30"@,
        Bands::Band20 => "20"@,
        Bands::Band17 => "17"@,
        Bands::Band15 => "15"@,
        Bands::Band12 => "12"@,
        Bands::Band10 => "10"@,
        Bands::Band6 => "6"@,
        Bands::BandGEN => "GEN"@,
        Bands::BandWWV => "WWV"@,
    }
}
/// The lowest frequency of each band, in Hz.
pub open spec fn band_low(b: Bands) -> i64 {
    match b {
        Bands::Band2200 => 135700,
        Bands::Band630 => 472000,
        Bands::Band160 => 1800000,
        Bands::Band80 => 3500000,
        Bands::Band60 => 5330500,
        Bands::Band40 => 7000000,
        Bands::Band30 => 10100000,
        Bands::Band20 => 14000000,
        Bands::Band17 => 18068000,
        Bands::Band15 => 21000000,
        Bands::Band12 => 24890000,
        Bands::Band10 => 28000000,
        Bands::Band6 => 50000000,
        Bands::BandGEN => 100000,
        Bands::BandWWV => 10000000,
    }
}
/// The highest frequency of each band, in Hz.
pub open spec fn band_high(b: Bands) -> i64 {
    match b {
        Bands::Band2200 => 137800,
        Bands::Band630 => 479000,
        Bands::Band160 => 2000000,
        Bands::Band80 => 3800000,
        Bands::Band60 => 5403500,
        Bands::Band40 => 7300000,
        Bands::Band30 => 10150000,
        Bands::Band20 => 14350000,
        Bands::Band17 => 18168000,
        Bands::Band15 => 21450000,
        Bands::Band12 => 24990000,
        Bands::Band10 => 29700000,
        Bands::Band6 => 54000000,
        Bands::BandGEN => 62000000,
        Bands::BandWWV => 10000000,
    }
}
/// The frequency, in Hz, that a band starts on.
pub open spec fn band_initial(b: Bands) -> i64 {
    match b {
        Bands::Band2200 => 135750,
        Bands::Band630 => 472500,
        Bands::Band160 => 1900000,
        Bands::Band80 => 3750000,
        Bands::Band60 => 5365500,
        Bands::Band40 => 7150000,
        Bands::Band30 => 10125000,
        Bands::Band20 => 14175000,
        Bands::Band17 => 18118000,
        Bands::Band15 => 21215000,
        Bands::Band12 => 24940000,
        Bands::Band10 => 28300000,
        Bands::Band6 => 52000000,
        Bands::BandGEN => 11700000,
        Bands::BandWWV => 10000000,
    }
}
/// The ALEX filter word of each band.
pub open spec fn band_filters(b: Bands) -> u32 {
    match b {
        Bands::Band2200 => 0x00001000,
        Bands::Band630 => 0x00001000,
        Bands::Band160 => 0x01800040,
        Bands::Band80 => 0x01400020,
        Bands::Band60 => 0x01200020,
        Bands::Band40 => 0x01200010,
        Bands::Band30 => 0x01200010,
        Bands::Band20 => 0x01100002,
        Bands::Band17 => 0x81000002,
        Bands::Band15 => 0x81000002,
        Bands::Band12 => 0x41000004,
        Bands::Band10 => 0x41000004,
        Bands::Band6 => 0x21000008,
        Bands::BandGEN => 0x20001000,
        Bands::BandWWV => 0x20001000,
    }
}
/// The bottom of each band's spectrum display, in dBm.
pub open spec fn band_spectrum_low(b: Bands) -> int {
    match b {
        Bands::Band2200 => -120,
        Bands::Band630 => -120,
        Bands::Band160 => -120,
        Bands::Band80 => -100,
        Bands::Band60 => -110,
        Bands::Band40 => -110,
        Bands::Band30 => -110,
        Bands::Band20 => -120,
        Bands::Band17 => -120,
        Bands::Band15 => -130,
        Bands::Band12 => -130,
        Bands::Band10 => -130,
        Bands::Band6 => -120,
        Bands::BandGEN => -120,
        Bands::BandWWV => -120,
    }
}
/// The top of each band's spectrum display, in dBm.
pub open spec fn band_spectrum_high(b: Bands) -> int {
    match b {
        Bands::Band2200 => -60,
        Bands::Band630 => -60,
        Bands::Band160 => -60,
        Bands::Band80 => -60,
        Bands::Band60 => -60,
        Bands::Band40 => -60,
        Bands::Band30 => -60,
        Bands::Band20 => -60,
        Bands::Band17 => -60,
        Bands::Band15 => -60,
        Bands::Band12 => -60,
        Bands::Band10 => -60,
        Bands::Band6 => -60,
        Bands::BandGEN => -60,
        Bands::BandWWV => -60,
    }
}
/// The bottom of each band's waterfall scale, in dBm.
pub open spec fn band_waterfall_low(b: Bands) -> int {
    match b {
        Bands::Band2200 => -130,
        Bands::Band630 => -130,
        Bands::Band160 => -130,
        Bands::Band80 => -130,
        Bands::Band60 => -130,
        Bands::Band40 => -130,
        Bands::Band30 => -130,
        Bands::Band20 => -130,
        Bands::Band17 => -130,
        Bands::Band15 => -130,
        Bands::Band12 => -130,
        Bands::Band10 => -130,
        Bands::Band6 => -130,
        Bands::BandGEN => -130,
        Bands::BandWWV => -130,
    }
}
/// The top of each band's waterfall scale, in dBm.
pub open spec fn band_waterfall_high(b: Bands) -> int {
    match b {
        Bands::Band2200 => -80,
        Bands::Band630 => -80,
        Bands::Band160 => -80,
        Bands::Band80 => -80,
        Bands::Band60 => -80,
        Bands::Band40 => -80,
        Bands::Band30 => -80,
        Bands::Band20 => -80,
        Bands::Band17 => -80,
        Bands::Band15 => -80,
        Bands::Band12 => -80,
        Bands::Band10 => -80,
        Bands::Band6 => -80,
        Bands::BandGEN => -80,
        Bands::BandWWV => -80,
    }
}
/// The mode a band starts in.
pub open spec fn band_mode(b: Bands) -> Modes {
    match b {
        Bands::Band2200 => Modes::LSB,
        Bands::Band630 => Modes::LSB,
        Bands::Band160 => Modes::LSB,
        Bands::Band80 => Modes::LSB,
        Bands::Band60 => Modes::LSB,
        Bands::Band40 => Modes::LSB,
        Bands::Band30 => Modes::USB,
        Bands::Band20 => Modes::USB,
        Bands::Band17 => Modes::USB,
        Bands::Band15 => Modes::USB,
        Bands::Band12 => Modes::USB,
        Bands::Band10 => Modes::USB,
        Bands::Band6 => Modes::USB,
        Bands::BandGEN => Modes::AM,
        Bands::BandWWV => Modes::SAM,
    }
}
/// The filter a band starts with.
pub open spec fn band_filter(b: Bands) -> Filters {
    match b {
        Bands::Band2200 => Filters::F5,
        Bands::Band630 => Filters::F5,
        Bands::Band160 => Filters::F5,
        Bands::Band80 => Filters::F5,
        Bands::Band60 => Filters::F5,
        Bands::Band40 => Filters::F5,
        Bands::Band30 => Filters::F5,
        Bands::Band20 => Filters::F5,
        Bands::Band17 => Filters::F5,
        Bands::Band15 => Filters::F5,
        Bands::Band12 => Filters::F5,
        Bands::Band10 => Filters::F5,
        Bands::Band6 => Filters::F5,
        Bands::BandGEN => Filters::F3,
        Bands::BandWWV => Filters::F3,
    }
}
/// The settings of one band: its limits, the frequency it is tuned to, the ALEX filter
/// word, the display scales and the mode and filter it uses.
#[derive(Debug, Clone)]
pub struct BandInfo {
    pub band: Bands,
    pub label: String,
    pub low: i64,
    pub high: i64,
    pub current: i64,
    pub filters: u32,
    pub spectrum_low: i32,
    pub spectrum_high: i32,
    pub waterfall_low: i32,
    pub waterfall_high: i32,
    pub mode: Modes,
    pub filter: Filters,
}

impl BandInfo {
    /// Whether this entry holds the initial settings of band `b`.
    pub open spec fn is_initial(&self, b: Bands) -> bool {
        &&& self.band == b
        &&& self.label@ == band_label(b)
        &&& self.low == band_low(b)
        &&& self.high == band_high(b)
        &&& self.current == band_initial(b)
        &&& self.filters == band_filters(b)
        &&& self.spectrum_low == band_spectrum_low(b)
        &&& self.spectrum_high == band_spectrum_high(b)
        &&& self.waterfall_low == band_waterfall_low(b)
        &&& self.waterfall_high == band_waterfall_high(b)
        &&& self.mode == band_mode(b)
        &&& self.filter == band_filter(b)
    }

    fn initial(b: Bands) -> (info: BandInfo)
        ensures
            info.is_initial(b),
    {
        let (label, low, high, current, filters, spectrum_low, mode, filter): (
            &str,
            i64,
            i64,
            i64,
            u32,
            i32,
            Modes,
            Filters,
        ) = match b {
            Bands::Band2200 => ("2200", 135700, 137800, 135750, 0x00001000, -120, Modes::LSB, Filters::F5),
            Bands::Band630 => ("630", 472000, 479000, 472500, 0x00001000, -120, Modes::LSB, Filters::F5),
            Bands::Band160 => ("160", 1800000, 2000000, 1900000, 0x01800040, -120, Modes::LSB, Filters::F5),
            Bands::Band80 => ("80", 3500000, 3800000, 3750000, 0x01400020, -100, Modes::LSB, Filters::F5),
            Bands::Band60 => ("60", 5330500, 5403500, 5365500, 0x01200020, -110, Modes::LSB, Filters::F5),
            Bands::Band40 => ("40", 7000000, 7300000, 7150000, 0x01200010, -110, Modes::LSB, Filters::F5),
            Bands::Band30 => ("30", 10100000, 10150000, 10125000, 0x01200010, -110, Modes::USB, Filters::F5),
            Bands::Band20 => ("20", 14000000, 14350000, 14175000, 0x01100002, -120, Modes::USB, Filters::F5),
            Bands::Band17 => ("17", 18068000, 18168000, 18118000, 0x81000002, -120, Modes::USB, Filters::F5),
            Bands::Band15 => ("15", 21000000, 21450000, 21215000, 0x81000002, -130, Modes::USB, Filters::F5),
            Bands::Band12 => ("12", 24890000, 24990000, 24940000, 0x41000004, -130, Modes::USB, Filters::F5),
            Bands::Band10 => ("10", 28000000, 29700000, 28300000, 0x41000004, -130, Modes::USB, Filters::F5),
            Bands::Band6 => ("6", 50000000, 54000000, 52000000, 0x21000008, -120, Modes::USB, Filters::F5),
            Bands::BandGEN => ("GEN", 100000, 62000000, 11700000, 0x20001000, -120, Modes::AM, Filters::F3),
            Bands::BandWWV => ("WWV", 10000000, 10000000, 10000000, 0x20001000, -120, Modes::SAM, Filters::F3),
        };
        BandInfo {
            band: b,
            label: String::from_str(label),
            low,
            high,
            current,
            filters,
            spectrum_low,
            spectrum_high: -60,
            waterfall_low: -130,
            waterfall_high: -80,
            mode,
            filter,
        }
    }

    /// The initial settings of all fifteen bands, entry `i` for the band numbered `i`.
    pub fn new() -> (table: Vec<BandInfo>)
        ensures
            table.len() == 15,
            forall|i: int|
                0 <= i < 15 ==> #[trigger] table[i].is_initial(
                    band_from_index(i as usize).unwrap(),
                ),
    {
        let mut table: Vec<BandInfo> = Vec::new();
        let mut i: usize = 0;
        while i < 15
            invariant
                i <= 15,
                table.len() == i,
                forall|j: int|
                    0 <= j < i ==> #[trigger] table[j].is_initial(
                        band_from_index(j as usize).unwrap(),
                    ),
            decreases 15 - i,
        {
            let b = Bands::from_usize(i).unwrap();
            table.push(BandInfo::initial(b));
            i = i + 1;
        }
        table
    }
}

/// Every band's initial frequency lies within the band.
pub proof fn lemma_band_initial_within(b: Bands)
    ensures
        band_low(b) <= band_initial(b) <= band_high(b),
{
}

/// Every amateur band (all but general coverage and WWV) starts in the sideband its
/// frequency calls for: lower sideband when the band lies below 10 MHz, upper sideband
/// from 10 MHz up.
pub proof fn lemma_band_sideband(info: BandInfo, b: Bands)
    requires
        info.is_initial(b),
        b != Bands::BandGEN,
        b != Bands::BandWWV,
    ensures
        (info.mode == Modes::LSB) <==> info.high < 10000000,
        (info.mode == Modes::USB) <==> info.high >= 10000000,
{
}

/// Whether a band is an amateur band rather than general coverage or WWV.
pub open spec fn is_amateur(b: Bands) -> bool {
    b != Bands::BandGEN && b != Bands::BandWWV
}

/// The amateur bands are numbered in order of frequency and do not overlap: each has
/// its low edge below its high edge, and a lower numbered band lies wholly below a
/// higher numbered one.
pub proof fn lemma_bands_ordered(b1: Bands, b2: Bands)
    requires
        is_amateur(b1),
        is_amateur(b2),
    ensures
        band_low(b1) < band_high(b1),
        band_index(b1) < band_index(b2) ==> band_high(b1) < band_low(b2),
{
}

} // verus!
