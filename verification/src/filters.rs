use vstd::prelude::*;

use crate::modes::{Modes, mode_index, mode_from_index};

verus! {

/// The receive filters of a mode: ten fixed widths and two variable ones, numbered 0 to 11 in this order.
#[derive(Debug, Clone, Copy, PartialEq, Eq, Structural)]
pub enum Filters {
    F0,
    F1,
    F2,
    F3,
    F4,
    F5,
    F6,
    F7,
    F8,
    F9,
    FVar1,
    FVar2,
}

/// The number of each variant, in declaration order from 0.
pub open spec fn filter_index(v: Filters) -> usize {
    match v {
        Filters::F0 => 0,
        Filters::F1 => 1,
        Filters::F2 => 2,
        Filters::F3 => 3,
        Filters::F4 => 4,
        Filters::F5 => 5,
        Filters::F6 => 6,
        Filters::F7 => 7,
        Filters::F8 => 8,
        Filters::F9 => 9,
        Filters::FVar1 => 10,
        Filters::FVar2 => 11,
    }
}

/// The variant numbered `value`, if any.
pub open spec fn filter_from_index(value: usize) -> Option<Filters> {
    if value == 0 {
        Some(Filters::F0)
    } else if value == 1 {
        Some(Filters::F1)
    } else if value == 2 {
        Some(Filters::F2)
    } else if value == 3 {
        Some(Filters::F3)
    } else if value == 4 {
        Some(Filters::F4)
    } else if value == 5 {
        Some(Filters::F5)
    } else if value == 6 {
        Some(Filters::F6)
    } else if value == 7 {
        Some(Filters::F7)
    } else if value == 8 {
        Some(Filters::F8)
    } else if value == 9 {
        Some(Filters::F9)
    } else if value == 10 {
        Some(Filters::FVar1)
    } else if value == 11 {
        Some(Filters::FVar2)
    } else {
        None
    }
}

impl Filters {
    /// The variant numbered `value`, or `None` when no variant has that number.
    pub fn from_usize(value: usize) -> (r: Option<Self>)
        ensures
            r == filter_from_index(value),
    {
        match value {
            0 => Some(Filters::F0),
            1 => Some(Filters::F1),
            2 => Some(Filters::F2),
            3 => Some(Filters::F3),
            4 => Some(Filters::F4),
            5 => Some(Filters::F5),
            6 => Some(Filters::F6),
            7 => Some(Filters::F7),
            8 => Some(Filters::F8),
            9 => Some(Filters::F9),
            10 => Some(Filters::FVar1),
            11 => Some(Filters::FVar2),
            _ => None,
        }
    }

    /// The number of this variant.
    pub fn to_usize(&self) -> (r: usize)
        ensures
            r == filter_index(*self),
    {
        match self {
            Filters::F0 => 0,
            Filters::F1 => 1,
            Filters::F2 => 2,
            Filters::F3 => 3,
            Filters::F4 => 4,
            Filters::F5 => 5,
            Filters::F6 => 6,
            Filters::F7 => 7,
            Filters::F8 => 8,
            Filters::F9 => 9,
            Filters::FVar1 => 10,
            Filters::FVar2 => 11,
        }
    }
}

/// Numbering is a bijection between the filters and 0..12: a filter's number gives the filter back, and a number gives a filter exactly when it is below 12, that filter having the number.
pub proof fn lemma_filter_index_round_trip(v: Filters, value: usize)
    ensures
        filter_from_index(filter_index(v)) == Some(v),
        filter_from_index(value) is Some <==> value < 12,
        filter_from_index(value) matches Some(w) ==> filter_index(w) == value,
{
}

/// The outer edge, in Hz from the carrier, of each fixed sideband filter (the inner edge is at 150 Hz).
pub open spec fn ssb_edge(f: usize) -> int {
    if f == 0 {
        5150
    } else if f == 1 {
        4550
    } else if f == 2 {
        3950
    } else if f == 3 {
        3450
    } else if f == 4 {
        3050
    } else if f == 5 {
        2850
    } else if f == 6 {
        2550
    } else if f == 7 {
        2250
    } else if f == 8 {
        1950
    } else if f == 9 {
        1150
    } else {
        2850
    }
}
/// Half the width, in Hz, of each CW filter.
pub open spec fn cw_half_width(f: usize) -> int {
    if f == 0 {
        500
    } else if f == 1 {
        400
    } else if f == 2 {
        375
    } else if f == 3 {
        300
    } else if f == 4 {
        250
    } else if f == 5 {
        200
    } else if f == 6 {
        125
    } else if f == 7 {
        50
    } else if f == 8 {
        25
    } else if f == 9 {
        13
    } else {
        250
    }
}
/// Half the width, in Hz, of each filter of the double sideband modes (AM, SAM, DSB, FMN, SPEC, DRM).
pub open spec fn am_half_width(f: usize) -> int {
    if f == 0 {
        8000
    } else if f == 1 {
        6000
    } else if f == 2 {
        5000
    } else if f == 3 {
        4000
    } else if f == 4 {
        3300
    } else if f == 5 {
        2600
    } else if f == 6 {
        2000
    } else if f == 7 {
        1550
    } else if f == 8 {
        1450
    } else if f == 9 {
        1200
    } else {
        3300
    }
}
/// The button label of each sideband filter (LSB, USB, DIGL, DIGU).
pub open spec fn sideband_label(f: usize) -> Seq<char> {
    if f == 0 {
        "5.0k"@
    } else if f == 1 {
        "4.4k"@
    } else if f == 2 {
        "3.8k"@
    } else if f == 3 {
        "3.3k"@
    } else if f == 4 {
        "2.9k"@
    } else if f == 5 {
        "2.7k"@
    } else if f == 6 {
        "2.4k"@
    } else if f == 7 {
        "2.1k"@
    } else if f == 8 {
        "1.8k"@
    } else if f == 9 {
        "1.0k"@
    } else if f == 10 {
        "Var1"@
    } else {
        "Var2"@
    }
}
/// The button label of each CW filter.
pub open spec fn cw_label(f: usize) -> Seq<char> {
    if f == 0 {
        "1.0k"@
    } else if f == 1 {
        "800"@
    } else if f == 2 {
        "750"@
    } else if f == 3 {
        "600"@
    } else if f == 4 {
        "500"@
    } else if f == 5 {
        "400"@
    } else if f == 6 {
        "250"@
    } else if f == 7 {
        "100"@
    } else if f == 8 {
        "50"@
    } else if f == 9 {
        "25"@
    } else if f == 10 {
        "Var1"@
    } else {
        "Var2"@
    }
}
/// The button label of each filter of AM, SAM, DSB, SPEC and DRM.
pub open spec fn am_label(f: usize) -> Seq<char> {
    if f == 0 {
        "16k"@
    } else if f == 1 {
        "12k"@
    } else if f == 2 {
        "10k"@
    } else if f == 3 {
        "8k"@
    } else if f == 4 {
        "6.6k"@
    } else if f == 5 {
        "5.2k"@
    } else if f == 6 {
        "4.0k"@
    } else if f == 7 {
        "3.1k"@
    } else if f == 8 {
        "2.9k"@
    } else if f == 9 {
        "2.4k"@
    } else if f == 10 {
        "Var1"@
    } else {
        "Var2"@
    }
}
/// The button label of each FM filter.
pub open spec fn fm_label(f: usize) -> Seq<char> {
    if f == 0 {
        "8k"@
    } else if f == 1 {
        "16k"@
    } else if f == 2 {
        "10k"@
    } else if f == 3 {
        "8k"@
    } else if f == 4 {
        "6.6k"@
    } else if f == 5 {
        "5.2k"@
    } else if f == 6 {
        "4.0k"@
    } else if f == 7 {
        "3.1k"@
    } else if f == 8 {
        "2.9k"@
    } else if f == 9 {
        "2.4k"@
    } else if f == 10 {
        "Var1"@
    } else {
        "Var2"@
    }
}
/// The low and high edges, in Hz relative to the carrier, of filter `filter` in the
/// mode numbered `mode`. A number that names no mode uses the USB filters.
pub open spec fn filter_edges(mode: usize, filter: usize) -> (int, int) {
    if mode == mode_index(Modes::LSB) {
        if filter < 10 { (-ssb_edge(filter), -150) } else { (-2850, -150) }
    } else if mode == mode_index(Modes::DIGL) {
        if filter < 10 {
            (-ssb_edge(filter), -150)
        } else if filter == 10 {
            (-4000, 0)
        } else {
            (-2850, -150)
        }
    } else if mode == mode_index(Modes::DIGU) {
        if filter < 10 {
            (150, ssb_edge(filter))
        } else if filter == 10 {
            (0, 4000)
        } else {
            (150, 2850)
        }
    } else if mode == mode_index(Modes::CWL) || mode == mode_index(Modes::CWU) {
        (cw_half_width(filter), cw_half_width(filter))
    } else if mode == mode_index(Modes::DSB) || mode == mode_index(Modes::FMN) || mode
        == mode_index(Modes::AM) || mode == mode_index(Modes::SPEC) || mode == mode_index(
        Modes::SAM,
    ) || mode == mode_index(Modes::DRM) {
        (-am_half_width(filter), am_half_width(filter))
    } else {
        if filter < 10 { (150, ssb_edge(filter)) } else { (150, 2850) }
    }
}

/// The button label of filter `filter` in the mode numbered `mode`. A number that
/// names no mode uses the USB labels.
pub open spec fn filter_label_spec(mode: usize, filter: usize) -> Seq<char> {
    if mode == mode_index(Modes::CWL) || mode == mode_index(Modes::CWU) {
        cw_label(filter)
    } else if mode == mode_index(Modes::FMN) {
        fm_label(filter)
    } else if mode == mode_index(Modes::DSB) || mode == mode_index(Modes::AM) || mode
        == mode_index(Modes::SPEC) || mode == mode_index(Modes::SAM) || mode == mode_index(
        Modes::DRM,
    ) {
        am_label(filter)
    } else {
        sideband_label(filter)
    }
}

fn ssb_edge_exec(f: usize) -> (w: i32)
    ensures
        w == ssb_edge(f),
{
    match f {
        0 => 5150,
        1 => 4550,
        2 => 3950,
        3 => 3450,
        4 => 3050,
        5 => 2850,
        6 => 2550,
        7 => 2250,
        8 => 1950,
        9 => 1150,
        _ => 2850,
    }
}
fn cw_half_width_exec(f: usize) -> (w: i32)
    ensures
        w == cw_half_width(f),
{
    match f {
        0 => 500,
        1 => 400,
        2 => 375,
        3 => 300,
        4 => 250,
        5 => 200,
        6 => 125,
        7 => 50,
        8 => 25,
        9 => 13,
        _ => 250,
    }
}
fn am_half_width_exec(f: usize) -> (w: i32)
    ensures
        w == am_half_width(f),
{
    match f {
        0 => 8000,
        1 => 6000,
        2 => 5000,
        3 => 4000,
        4 => 3300,
        5 => 2600,
        6 => 2000,
        7 => 1550,
        8 => 1450,
        9 => 1200,
        _ => 3300,
    }
}
fn sideband_label_exec(f: usize) -> (s: &'static str)
    ensures
        s@ == sideband_label(f),
{
    match f {
        0 => "5.0k",
        1 => "4.4k",
        2 => "3.8k",
        3 => "3.3k",
        4 => "2.9k",
        5 => "2.7k",
        6 => "2.4k",
        7 => "2.1k",
        8 => "1.8k",
        9 => "1.0k",
        10 => "Var1",
        _ => "Var2",
    }
}
fn cw_label_exec(f: usize) -> (s: &'static str)
    ensures
        s@ == cw_label(f),
{
    match f {
        0 => "1.0k",
        1 => "800",
        2 => "750",
        3 => "600",
        4 => "500",
        5 => "400",
        6 => "250",
        7 => "100",
        8 => "50",
        9 => "25",
        10 => "Var1",
        _ => "Var2",
    }
}
fn am_label_exec(f: usize) -> (s: &'static str)
    ensures
        s@ == am_label(f),
{
    match f {
        0 => "16k",
        1 => "12k",
        2 => "10k",
        3 => "8k",
        4 => "6.6k",
        5 => "5.2k",
        6 => "4.0k",
        7 => "3.1k",
        8 => "2.9k",
        9 => "2.4k",
        10 => "Var1",
        _ => "Var2",
    }
}
fn fm_label_exec(f: usize) -> (s: &'static str)
    ensures
        s@ == fm_label(f),
{
    match f {
        0 => "8k",
        1 => "16k",
        2 => "10k",
        3 => "8k",
        4 => "6.6k",
        5 => "5.2k",
        6 => "4.0k",
        7 => "3.1k",
        8 => "2.9k",
        9 => "2.4k",
        10 => "Var1",
        _ => "Var2",
    }
}
/// The low and high edges, in Hz relative to the carrier, of filter `filter` of the
/// mode numbered `mode` (the USB filters when `mode` names no mode).
pub fn get_filter_values(mode: usize, filter: usize) -> (edges: (i32, i32))
    requires
        filter < 12,
    ensures
        edges.0 == filter_edges(mode, filter).0,
        edges.1 == filter_edges(mode, filter).1,
{
    match Modes::from_usize(mode) {
        Some(Modes::LSB) => {
            if filter < 10 {
                (-ssb_edge_exec(filter), -150)
            } else {
                (-2850, -150)
            }
        },
        Some(Modes::DIGL) => {
            if filter < 10 {
                (-ssb_edge_exec(filter), -150)
            } else if filter == 10 {
                (-4000, 0)
            } else {
                (-2850, -150)
            }
        },
        Some(Modes::DIGU) => {
            if filter < 10 {
                (150, ssb_edge_exec(filter))
            } else if filter == 10 {
                (0, 4000)
            } else {
                (150, 2850)
            }
        },
        Some(Modes::CWL) | Some(Modes::CWU) => {
            let w = cw_half_width_exec(filter);
            (w, w)
        },
        Some(Modes::DSB) | Some(Modes::FMN) | Some(Modes::AM) | Some(Modes::SPEC) | Some(
            Modes::SAM,
        ) | Some(Modes::DRM) => {
            let w = am_half_width_exec(filter);
            (-w, w)
        },
        _ => {
            if filter < 10 {
                (150, ssb_edge_exec(filter))
            } else {
                (150, 2850)
            }
        },
    }
}

/// The button label of filter `filter` of the mode numbered `mode` (the USB labels
/// when `mode` names no mode).
pub fn filter_label(mode: usize, filter: usize) -> (label: &'static str)
    requires
        filter < 12,
    ensures
        label@ == filter_label_spec(mode, filter),
{
    match Modes::from_usize(mode) {
        Some(Modes::CWL) | Some(Modes::CWU) => cw_label_exec(filter),
        Some(Modes::FMN) => fm_label_exec(filter),
        Some(Modes::DSB) | Some(Modes::AM) | Some(Modes::SPEC) | Some(Modes::SAM) | Some(
            Modes::DRM,
        ) => am_label_exec(filter),
        _ => sideband_label_exec(filter),
    }
}

/// Whether filter `index` is one of the two whose edges the user sets (Var1, Var2).
pub fn is_variable_filter(index: usize) -> (variable: bool)
    ensures
        variable <==> (index == filter_index(Filters::FVar1) || index == filter_index(
            Filters::FVar2,
        )),
{
    index == 10 || index == 11
}

/// In every mode, each fixed filter's low edge lies at or below its high edge.
pub proof fn lemma_filter_edges_ordered(mode: usize, filter: usize)
    requires
        filter < 10,
    ensures
        filter_edges(mode, filter).0 <= filter_edges(mode, filter).1,
{
}

/// The lower sideband filters are the upper sideband ones mirrored about the carrier:
/// in LSB each filter passes the negatives of the frequencies the USB filter of the
/// same number passes, in DIGL those of DIGU (and, for the ten fixed filters, those of
/// USB). So every lower sideband filter lies at or below the carrier, every upper
/// sideband one at or above it, and each fixed one is a band of positive width.
pub proof fn lemma_sidebands_mirror(filter: usize)
    ensures
        ({
            let lsb = filter_edges(mode_index(Modes::LSB), filter);
            let usb = filter_edges(mode_index(Modes::USB), filter);
            let digl = filter_edges(mode_index(Modes::DIGL), filter);
            let digu = filter_edges(mode_index(Modes::DIGU), filter);
            &&& lsb.0 == -usb.1 && lsb.1 == -usb.0
            &&& digl.0 == -digu.1 && digl.1 == -digu.0
            &&& filter < 10 ==> digl.0 == -usb.1 && digl.1 == -usb.0
            &&& usb.0 >= 0 && digu.0 >= 0
            &&& lsb.1 <= 0 && digl.1 <= 0
            &&& filter < 10 ==> usb.0 < usb.1 && lsb.0 < lsb.1 && digl.0 < digl.1 && digu.0 < digu.1
        }),
{
}

/// The fixed filters are numbered from the widest to the narrowest: in the sideband,
/// CW and AM style modes a lower numbered fixed filter is strictly wider than a higher
/// numbered one.
pub proof fn lemma_filters_narrow(f1: usize, f2: usize)
    requires
        f1 < f2 < 10,
    ensures
        ({
            let u1 = filter_edges(mode_index(Modes::USB), f1);
            let u2 = filter_edges(mode_index(Modes::USB), f2);
            let l1 = filter_edges(mode_index(Modes::LSB), f1);
            let l2 = filter_edges(mode_index(Modes::LSB), f2);
            let c1 = filter_edges(mode_index(Modes::CWU), f1);
            let c2 = filter_edges(mode_index(Modes::CWU), f2);
            let a1 = filter_edges(mode_index(Modes::AM), f1);
            let a2 = filter_edges(mode_index(Modes::AM), f2);
            &&& u1.1 - u1.0 > u2.1 - u2.0
            &&& l1.1 - l1.0 > l2.1 - l2.0
            &&& c1.0 > c2.0
            &&& a1.1 - a1.0 > a2.1 - a2.0
        }),
{
}

} // verus!
