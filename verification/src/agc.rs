use vstd::prelude::*;

verus! {

/// The automatic gain control modes of a receiver, numbered 0 to 4 in this order.
#[derive(Debug, Clone, Copy, PartialEq, Eq, Structural)]
pub enum AGC {
    OFF,
    LONG,
    SLOW,
    MEDIUM,
    FAST,
}

/// The number of an AGC mode.
pub open spec fn agc_code(agc: AGC) -> i32 {
    match agc {
        AGC::OFF => 0,
        AGC::LONG => 1,
        AGC::SLOW => 2,
        AGC::MEDIUM => 3,
        AGC::FAST => 4,
    }
}

/// The attack, hang and decay times (in ms) and the hang threshold that a mode
/// other than OFF programs into the receiver's AGC.
#[derive(Debug, Clone, Copy, PartialEq, Eq, Structural)]
pub struct AgcTiming {
    pub attack: i32,
    pub hang: i32,
    pub decay: i32,
    pub hang_threshold: i32,
}

impl AGC {
    /// The mode numbered `value`, or `None` when no mode has that number.
    pub fn from_i32(value: i32) -> (agc: Option<Self>)
        ensures
            agc == agc_from_code(value),
    {
        match value {
            0 => Some(AGC::OFF),
            1 => Some(AGC::LONG),
            2 => Some(AGC::SLOW),
            3 => Some(AGC::MEDIUM),
            4 => Some(AGC::FAST),
            _ => None,
        }
    }

    /// The number of this mode.
    pub fn to_i32(&self) -> (value: i32)
        ensures
            value == agc_code(*self),
    {
        match self {
            AGC::OFF => 0,
            AGC::LONG => 1,
            AGC::SLOW => 2,
            AGC::MEDIUM => 3,
            AGC::FAST => 4,
        }
    }

    /// The timing that this mode sets, given the receiver's configured hang threshold:
    /// nothing for OFF; attack 2 ms for every other mode; LONG hangs and decays 2000 ms,
    /// SLOW hangs 1000 ms and decays 500 ms, both with the configured threshold;
    /// MEDIUM and FAST do not hang, decay in 250 ms and 50 ms, with threshold 100.
    pub fn timing(&self, hang_threshold: i32) -> (t: Option<AgcTiming>)
        ensures
            t == agc_timing(*self, hang_threshold),
    {
        match self {
            AGC::OFF => None,
            AGC::LONG => Some(AgcTiming { attack: 2, hang: 2000, decay: 2000, hang_threshold }),
            AGC::SLOW => Some(AgcTiming { attack: 2, hang: 1000, decay: 500, hang_threshold }),
            AGC::MEDIUM => Some(AgcTiming { attack: 2, hang: 0, decay: 250, hang_threshold: 100 }),
            AGC::FAST => Some(AgcTiming { attack: 2, hang: 0, decay: 50, hang_threshold: 100 }),
        }
    }
}

/// The timing of each AGC mode.
pub open spec fn agc_timing(agc: AGC, hang_threshold: i32) -> Option<AgcTiming> {
    match agc {
        AGC::OFF => None,
        AGC::LONG => Some(AgcTiming { attack: 2, hang: 2000, decay: 2000, hang_threshold }),
        AGC::SLOW => Some(AgcTiming { attack: 2, hang: 1000, decay: 500, hang_threshold }),
        AGC::MEDIUM => Some(AgcTiming { attack: 2, hang: 0, decay: 250, hang_threshold: 100 }),
        AGC::FAST => Some(AgcTiming { attack: 2, hang: 0, decay: 50, hang_threshold: 100 }),
    }
}

/// The mode numbered `value`, if any.
pub open spec fn agc_from_code(value: i32) -> Option<AGC> {
    if value == 0 {
        Some(AGC::OFF)
    } else if value == 1 {
        Some(AGC::LONG)
    } else if value == 2 {
        Some(AGC::SLOW)
    } else if value == 3 {
        Some(AGC::MEDIUM)
    } else if value == 4 {
        Some(AGC::FAST)
    } else {
        None
    }
}

/// Numbering is a bijection between the modes and 0..5: a mode's number gives the
/// mode back, and a number gives a mode exactly when it is in 0..5, that mode
/// having the number.
pub proof fn lemma_agc_code_round_trip(agc: AGC, value: i32)
    ensures
        agc_from_code(agc_code(agc)) == Some(agc),
        agc_from_code(value) is Some <==> 0 <= value < 5,
        agc_from_code(value) matches Some(a) ==> agc_code(a) == value,
{
}

} // verus!
