use vstd::prelude::*;

verus! {

/// The demodulation modes, numbered 0 to 11 in this order.
#[derive(Debug, Clone, Copy, PartialEq, Eq, Structural)]
pub enum Modes {
    LSB,
    USB,
    DSB,
    CWL,
    CWU,
    FMN,
    AM,
    DIGU,
    SPEC,
    DIGL,
    SAM,
    DRM,
}

/// The number of each variant, in declaration order from 0.
pub open spec fn mode_index(v: Modes) -> usize {
    match v {
        Modes::LSB => 0,
        Modes::USB => 1,
        Modes::DSB => 2,
        Modes::CWL => 3,
        Modes::CWU => 4,
        Modes::FMN => 5,
        Modes::AM => 6,
        Modes::DIGU => 7,
        Modes::SPEC => 8,
        Modes::DIGL => 9,
        Modes::SAM => 10,
        Modes::DRM => 11,
    }
}

/// The variant numbered `value`, if any.
pub open spec fn mode_from_index(value: usize) -> Option<Modes> {
    if value == 0 {
        Some(Modes::LSB)
    } else if value == 1 {
        Some(Modes::USB)
    } else if value == 2 {
        Some(Modes::DSB)
    } else if value == 3 {
        Some(Modes::CWL)
    } else if value == 4 {
        Some(Modes::CWU)
    } else if value == 5 {
        Some(Modes::FMN)
    } else if value == 6 {
        Some(Modes::AM)
    } else if value == 7 {
        Some(Modes::DIGU)
    } else if value == 8 {
        Some(Modes::SPEC)
    } else if value == 9 {
        Some(Modes::DIGL)
    } else if value == 10 {
        Some(Modes::SAM)
    } else if value == 11 {
        Some(Modes::DRM)
    } else {
        None
    }
}

impl Modes {
    /// The variant numbered `value`, or `None` when no variant has that number.
    pub fn from_usize(value: usize) -> (r: Option<Self>)
        ensures
            r == mode_from_index(value),
    {
        match value {
            0 => Some(Modes::LSB),
            1 => Some(Modes::USB),
            2 => Some(Modes::DSB),
            3 => Some(Modes::CWL),
            4 => Some(Modes::CWU),
            5 => Some(Modes::FMN),
            6 => Some(Modes::AM),
            7 => Some(Modes::DIGU),
            8 => Some(Modes::SPEC),
            9 => Some(Modes::DIGL),
            10 => Some(Modes::SAM),
            11 => Some(Modes::DRM),
            _ => None,
        }
    }

    /// The number of this variant.
    pub fn to_usize(&self) -> (r: usize)
        ensures
            r == mode_index(*self),
    {
        match self {
            Modes::LSB => 0,
            Modes::USB => 1,
            Modes::DSB => 2,
            Modes::CWL => 3,
            Modes::CWU => 4,
            Modes::FMN => 5,
            Modes::AM => 6,
            Modes::DIGU => 7,
            Modes::SPEC => 8,
            Modes::DIGL => 9,
            Modes::SAM => 10,
            Modes::DRM => 11,
        }
    }
}

/// Numbering is a bijection between the modes and 0..12: a mode's number gives the mode back, and a number gives a mode exactly when it is below 12, that mode having the number.
pub proof fn lemma_mode_index_round_trip(v: Modes, value: usize)
    ensures
        mode_from_index(mode_index(v)) == Some(v),
        mode_from_index(value) is Some <==> value < 12,
        mode_from_index(value) matches Some(w) ==> mode_index(w) == value,
{
}

/// The number of the CWL mode.
pub open spec fn cwl_index() -> usize {
    mode_index(Modes::CWL)
}

/// The number of the CWU mode.
pub open spec fn cwu_index() -> usize {
    mode_index(Modes::CWU)
}

} // verus!
