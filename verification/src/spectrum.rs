use vstd::prelude::*;

verus! {

/// Spacing in Hz of the frequency markers along the spectrum, by sample rate and, at
/// 384 kHz, by zoom.
pub open spec fn marker_step_of(sample_rate: i32, zoom: i32) -> i32 {
    if sample_rate == 48000 {
        50000
    } else if sample_rate == 96000 {
        10000
    } else if sample_rate == 192000 {
        20000
    } else if sample_rate == 384000 {
        if 1 <= zoom <= 2 {
            25000
        } else if 3 <= zoom <= 5 {
            10000
        } else if 6 <= zoom <= 10 {
            5000
        } else if 11 <= zoom <= 16 {
            2000
        } else {
            25000
        }
    } else if sample_rate == 768000 {
        50000
    } else if sample_rate == 1536000 {
        100000
    } else {
        25000
    }
}

/// The spacing of the frequency markers for a receiver at `sample_rate` with the
/// display zoomed by `zoom`.
pub fn marker_step(sample_rate: i32, zoom: i32) -> (step: i32)
    ensures
        step == marker_step_of(sample_rate, zoom),
        step > 0,
{
    match sample_rate {
        48000 => 50000,
        96000 => 10000,
        192000 => 20000,
        384000 => {
            if 1 <= zoom && zoom <= 2 {
                25000
            } else if 3 <= zoom && zoom <= 5 {
                10000
            } else if 6 <= zoom && zoom <= 10 {
                5000
            } else if 11 <= zoom && zoom <= 16 {
                2000
            } else {
                25000
            }
        },
        768000 => 50000,
        1536000 => 100000,
        _ => 25000,
    }
}

/// `a / b` rounded toward zero, as integer division does in the code.
pub open spec fn trunc_div(a: int, b: int) -> int {
    if a >= 0 {
        a / b
    } else {
        -((-a) / b)
    }
}

/// The first frequency marker for a display whose low edge is `low` Hz: the low edge
/// moved up by one step, divided by the step rounding toward zero, times the step.
/// For a low edge at or above zero that is the first multiple of the step above it.
pub open spec fn first_marker_of(low: int, step: int) -> int {
    trunc_div(low + step, step) * step
}

proof fn lemma_trunc_div_bounds(a: int, step: int)
    requires
        step > 0,
    ensures
        a >= 0 ==> a - step < trunc_div(a, step) * step <= a,
        a < 0 ==> a <= trunc_div(a, step) * step < a + step,
{
    if a >= 0 {
        vstd::arithmetic::div_mod::lemma_fundamental_div_mod(a, step);
        assert(step * (a / step) == (a / step) * step) by (nonlinear_arith);
    } else {
        let n = -a;
        vstd::arithmetic::div_mod::lemma_fundamental_div_mod(n, step);
        assert(step * (n / step) == (n / step) * step) by (nonlinear_arith);
        assert(-(n / step) * step == -((n / step) * step)) by (nonlinear_arith);
    }
}

/// The first frequency marker for a display whose low edge is `low` Hz.
pub fn first_marker(low: i32, step: i32) -> (first: i64)
    requires
        step > 0,
    ensures
        first == first_marker_of(low as int, step as int),
        low < first < low + 2 * step,
{
    proof {
        lemma_trunc_div_bounds(low + step, step as int);
    }
    let a: i64 = low as i64 + step as i64;
    let s: i64 = step as i64;
    if a >= 0 {
        let q: i64 = a / s;
        proof {
            assert(q * s == trunc_div(a as int, s as int) * s);
        }
        q * s
    } else {
        let q: i64 = (-a) / s;
        proof {
            assert(-(q * s) == -q * s) by (nonlinear_arith);
            assert(-q * s == trunc_div(a as int, s as int) * s);
        }
        -(q * s)
    }
}

/// For a display whose low edge is at or above 0 Hz, the first marker is the
/// smallest multiple of the step above the low edge; the markers that follow, one
/// step apart, are then the multiples of the step above the low edge in order.
pub proof fn lemma_first_marker_least_multiple(low: int, step: int, m: int)
    requires
        low >= 0,
        step > 0,
    ensures
        first_marker_of(low, step) % step == 0,
        low < first_marker_of(low, step),
        low < m && m % step == 0 ==> first_marker_of(low, step) <= m,
{
    let a = low + step;
    let q = a / step;
    vstd::arithmetic::div_mod::lemma_fundamental_div_mod(a, step);
    assert(step * q == q * step) by (nonlinear_arith);
    vstd::arithmetic::div_mod::lemma_mod_multiples_basic(q, step);
    lemma_trunc_div_bounds(a, step);
    if low < m && m % step == 0 {
        vstd::arithmetic::div_mod::lemma_fundamental_div_mod(m, step);
        let k = m / step;
        assert(m == k * step) by (nonlinear_arith)
            requires
                m == step * k + m % step,
                m % step == 0,
        ;
        assert(k >= q) by (nonlinear_arith)
            requires
                k * step > low,
                a == low + step,
                q * step <= a,
                step > 0,
        {
            if k < q {
                assert(k * step <= (q - 1) * step) by (nonlinear_arith)
                    requires
                        k <= q - 1,
                        step > 0,
                ;
                assert((q - 1) * step == q * step - step) by (nonlinear_arith);
            }
        }
        assert(q * step <= k * step) by (nonlinear_arith)
            requires
                q <= k,
                step > 0,
        ;
    }
}

/// The frequencies at which the spectrum draws a marker when it shows `low` to `high`
/// Hz: from the first marker up, one step apart, while below `high`.
pub fn frequency_markers(low: i32, high: i64, step: i32) -> (markers: Vec<i64>)
    requires
        step > 0,
        high <= i64::MAX - step,
    ensures
        forall|i: int|
            0 <= i < markers@.len() ==> #[trigger] markers@[i] == first_marker_of(
                low as int,
                step as int,
            ) + i * step,
        forall|i: int| 0 <= i < markers@.len() ==> #[trigger] markers@[i] < high,
        first_marker_of(low as int, step as int) + markers@.len() * step >= high,
{
    let first = first_marker(low, step);
    let s: i64 = step as i64;
    let mut markers: Vec<i64> = Vec::new();
    let mut f: i64 = first;
    assert(markers@.len() * step == 0) by (nonlinear_arith)
        requires
            markers@.len() == 0,
    ;
    while f < high
        invariant
            s == step,
            step > 0,
            high <= i64::MAX - step,
            first == first_marker_of(low as int, step as int),
            f == first + markers@.len() * step,
            forall|i: int| 0 <= i < markers@.len() ==> #[trigger] markers@[i] == first + i * step,
            forall|i: int| 0 <= i < markers@.len() ==> #[trigger] markers@[i] < high,
        decreases high + step - f,
    {
        let ghost n = markers@.len();
        markers.push(f);
        assert(s > 0);
        f = f + s;
        assert(first + n * step + step == first + (n + 1) * step) by (nonlinear_arith);
    }
    markers
}

/// The signal levels, in dBm, at which the spectrum draws a level line when it shows
/// `low` up to (not including) `high` dBm: each that is a whole number of steps.
pub fn level_lines(low: i32, high: i32, step: i32) -> (levels: Vec<i32>)
    requires
        step != 0,
    ensures
        forall|i: int| 0 <= i < levels@.len() ==> low <= #[trigger] levels@[i] < high,
        forall|i: int| 0 <= i < levels@.len() ==> (#[trigger] levels@[i] as int) % step_size_of(step) == 0,
        forall|i: int, j: int| 0 <= i < j < levels@.len() ==> levels@[i] < levels@[j],
        forall|x: i32| low <= x < high && (x as int) % step_size_of(step) == 0 ==> #[trigger] levels@.contains(x),
{
    let mut levels: Vec<i32> = Vec::new();
    let m: i64 = if step < 0 {
        -(step as i64)
    } else {
        step as i64
    };
    let mut v: i32 = low;
    while v < high
        invariant
            low <= v <= high || (v == low && low >= high),
            m == step_size_of(step),
            m > 0,
            step != 0,
            forall|i: int| 0 <= i < levels@.len() ==> low <= #[trigger] levels@[i] < v,
            forall|i: int| 0 <= i < levels@.len() ==> (#[trigger] levels@[i] as int) % step_size_of(step) == 0,
            forall|i: int, j: int| 0 <= i < j < levels@.len() ==> levels@[i] < levels@[j],
            forall|x: i32| low <= x < v && (x as int) % step_size_of(step) == 0 ==> #[trigger] levels@.contains(x),
        decreases high - v,
    {
        let w: i64 = v as i64;
        let r: i64 = if w >= 0 {
            w % m
        } else {
            (-w) % m
        };
        proof {
            if w < 0 {
                lemma_negated_divides(w as int, m as int);
            }
        }
        if r == 0 {
            let ghost before = levels@;
            levels.push(v);
            proof {
                assert forall|x: i32| low <= x < v + 1 && (x as int) % step_size_of(step) == 0 implies #[trigger] levels@.contains(x) by {
                    if x == v {
                        assert(levels@[levels@.len() - 1] == v);
                    } else {
                        assert(before.contains(x));
                        let k = choose|k: int| 0 <= k < before.len() && before[k] == x;
                        assert(levels@[k] == x);
                    }
                }
            }
        }
        v = v + 1;
    }
    levels
}

proof fn lemma_negated_divides(w: int, m: int)
    requires
        m > 0,
    ensures
        ((-w) % m == 0) == (w % m == 0),
{
    vstd::arithmetic::div_mod::lemma_fundamental_div_mod(w, m);
    vstd::arithmetic::div_mod::lemma_fundamental_div_mod(-w, m);
    if w % m == 0 {
        let q = w / m;
        assert(-w == (-q) * m) by (nonlinear_arith)
            requires
                w == m * q,
        ;
        vstd::arithmetic::div_mod::lemma_mod_multiples_basic(-q, m);
    }
    if (-w) % m == 0 {
        let q = (-w) / m;
        assert(w == (-q) * m) by (nonlinear_arith)
            requires
                -w == m * q,
        ;
        vstd::arithmetic::div_mod::lemma_mod_multiples_basic(-q, m);
    }
}

/// The size of a step of `step` dBm, whichever its sign.
pub open spec fn step_size_of(step: i32) -> int {
    if step < 0 {
        -step
    } else {
        step as int
    }
}

} // verus!
