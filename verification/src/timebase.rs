//! Time-base arithmetic.
//!
//! Every stream, decoder and encoder expresses timestamps in its own rational
//! unit (a fraction of a second).  Moving a timestamp between two of these
//! domains is a pure rational rescale: multiply by the source unit, divide by
//! the destination unit, and round to the nearest integer with ties going
//! away from zero.  A sentinel value marks an absent timestamp and passes
//! through a rescale unchanged.

use vstd::prelude::*;
use vstd::arithmetic::div_mod::{lemma_fundamental_div_mod, lemma_fundamental_div_mod_converse};

verus! {

/// Sentinel for "no timestamp" on a packet; rescaling leaves it untouched.
pub const NO_TIMESTAMP: i64 = i64::MIN;

/// A rational time unit: `num / den` seconds per tick.
#[derive(Debug, Clone, Copy, PartialEq, Eq, Structural)]
pub struct TimeBase {
    pub num: i32,
    pub den: i32,
}

impl TimeBase {
    /// A usable time base is a strictly positive rational.
    pub open spec fn valid(self) -> bool {
        1 <= self.num && 1 <= self.den
    }

    pub fn new(num: i32, den: i32) -> (r: TimeBase)
        requires
            1 <= num,
            1 <= den,
        ensures
            r.num == num,
            r.den == den,
            r.valid(),
    {
        TimeBase { num, den }
    }

    /// The unit used by the mono encoders and their output streams:
    /// one tick per sample, `1 / rate` seconds.
    pub fn per_sample(rate: i32) -> (r: TimeBase)
        requires
            1 <= rate,
        ensures
            r.num == 1,
            r.den == rate,
            r.valid(),
    {
        TimeBase { num: 1, den: rate }
    }
}

/// Nearest integer to `a / b` with ties rounded away from zero, for `b > 0`.
/// (`/` and `%` are Euclidean here, so `a / b` is the floor.)
pub open spec fn rounded_div(a: int, b: int) -> int
    recommends
        b > 0,
{
    let q = a / b;
    let r = a % b;
    if 2 * r > b {
        q + 1
    } else if 2 * r == b {
        if a >= 0 {
            q + 1
        } else {
            q
        }
    } else {
        q
    }
}

/// The value of timestamp `ts`, expressed in `from` units, once rescaled
/// into `to` units.
pub open spec fn rescale_spec(ts: int, from: TimeBase, to: TimeBase) -> int
    recommends
        from.valid(),
        to.valid(),
{
    rounded_div(ts * from.num * to.den, from.den * to.num)
}

/// For non-negative `a`, adding half the divisor before a floor division
/// rounds to nearest with ties upward (away from zero).
proof fn lemma_round_nonneg(a: int, b: int)
    requires
        a >= 0,
        b >= 1,
    ensures
        (a + b / 2) / b == rounded_div(a, b),
{
    let q = a / b;
    let r = a % b;
    let h = b / 2;
    lemma_fundamental_div_mod(a, b);
    lemma_fundamental_div_mod(b, 2);
    assert(a == b * q + r);
    assert(b == 2 * h + b % 2);
    if r + h < b {
        assert(a + h == q * b + (r + h)) by (nonlinear_arith)
            requires
                a == b * q + r,
        ;
        lemma_fundamental_div_mod_converse(a + h, b, q, r + h);
        assert((a + h) / b == q);
    } else {
        assert(a + h == (q + 1) * b + (r + h - b)) by (nonlinear_arith)
            requires
                a == b * q + r,
        ;
        lemma_fundamental_div_mod_converse(a + h, b, q + 1, r + h - b);
        assert((a + h) / b == q + 1);
    }
}

/// Ties-away-from-zero rounding is symmetric under negation.
proof fn lemma_round_neg(a: int, b: int)
    requires
        a >= 0,
        b >= 1,
    ensures
        rounded_div(-a, b) == -rounded_div(a, b),
{
    let q = a / b;
    let r = a % b;
    lemma_fundamental_div_mod(a, b);
    assert(a == b * q + r);
    if r == 0 {
        assert(-a == (-q) * b + 0) by (nonlinear_arith)
            requires
                a == b * q + r,
                r == 0,
        ;
        lemma_fundamental_div_mod_converse(-a, b, -q, 0);
    } else {
        assert(-a == (-q - 1) * b + (b - r)) by (nonlinear_arith)
            requires
                a == b * q + r,
        ;
        lemma_fundamental_div_mod_converse(-a, b, -q - 1, b - r);
    }
}

/// Sign and magnitude of the rescaled timestamp, computed exactly in wide
/// integers: the rescaled value is `-(q)` when the flag is set and `q`
/// otherwise.
fn rescale_core(ts: i64, from: TimeBase, to: TimeBase) -> (r: (bool, u128))
    requires
        from.valid(),
        to.valid(),
    ensures
        rescale_spec(ts as int, from, to) == if r.0 {
            -(r.1 as int)
        } else {
            r.1 as int
        },
{
    let neg: bool = ts < 0;
    let ts_mag: u128 = if ts >= 0 {
        ts as u128
    } else {
        (-(ts as i128)) as u128
    };
    assert(ts_mag <= 0x8000_0000_0000_0000u128);
    let fnum: u128 = from.num as u128;
    let tden: u128 = to.den as u128;
    let fden: u128 = from.den as u128;
    let tnum: u128 = to.num as u128;
    assert(ts_mag * fnum < 0x4000_0000_0000_0000_0000_0000u128
        && ts_mag * fnum * tden < 0x4000_0000_0000_0000_0000_0000_0000_0000u128
        && 1 <= fden * tnum < 0x4000_0000_0000_0000_0000_0000u128) by (nonlinear_arith)
        requires
            ts_mag <= 0x8000_0000_0000_0000u128,
            fnum < 0x8000_0000u128,
            tden < 0x8000_0000u128,
            fden < 0x8000_0000u128,
            tnum < 0x8000_0000u128,
            1 <= fnum,
            1 <= tden,
            1 <= fden,
            1 <= tnum,
    ;
    let a: u128 = ts_mag * fnum * tden;
    let b: u128 = fden * tnum;
    let q: u128 = (a + b / 2) / b;
    proof {
        lemma_round_nonneg(a as int, b as int);
        let m = ts as int * from.num * to.den;
        if neg {
            assert(a as int == -m) by (nonlinear_arith)
                requires
                    ts < 0,
                    a == ts_mag * fnum * tden,
                    ts_mag == -(ts as int),
                    fnum == from.num as int,
                    tden == to.den as int,
                    m == ts as int * from.num * to.den,
            ;
            lemma_round_neg(a as int, b as int);
            assert(rescale_spec(ts as int, from, to) == -(q as int));
        } else {
            assert(a as int == m) by (nonlinear_arith)
                requires
                    ts >= 0,
                    a == ts_mag * fnum * tden,
                    ts_mag == ts as int,
                    fnum == from.num as int,
                    tden == to.den as int,
                    m == ts as int * from.num * to.den,
            ;
            assert(rescale_spec(ts as int, from, to) == q as int);
        }
    }
    (neg, q)
}

/// Rescales `ts` from time base `from` into time base `to`, rounding to the
/// nearest tick with ties away from zero.
pub fn rescale(ts: i64, from: TimeBase, to: TimeBase) -> (r: i64)
    requires
        from.valid(),
        to.valid(),
        i64::MIN <= rescale_spec(ts as int, from, to) <= i64::MAX,
    ensures
        r == rescale_spec(ts as int, from, to),
{
    let (neg, q) = rescale_core(ts, from, to);
    if neg {
        (-(q as i128)) as i64
    } else {
        q as i64
    }
}

/// Rescales `ts` from time base `from` into time base `to` when the result
/// fits a timestamp, and reports the overflow otherwise.
pub fn try_rescale(ts: i64, from: TimeBase, to: TimeBase) -> (r: Option<i64>)
    requires
        from.valid(),
        to.valid(),
    ensures
        match r {
            Some(v) => v == rescale_spec(ts as int, from, to) && i64::MIN <= rescale_spec(
                ts as int,
                from,
                to,
            ) <= i64::MAX,
            None => rescale_spec(ts as int, from, to) < i64::MIN || rescale_spec(ts as int, from,
                to) > i64::MAX,
        },
{
    let (neg, q) = rescale_core(ts, from, to);
    if neg {
        if q > 0x8000_0000_0000_0000u128 {
            None
        } else {
            Some((-(q as i128)) as i64)
        }
    } else {
        if q > 0x7fff_ffff_ffff_ffffu128 {
            None
        } else {
            Some(q as i64)
        }
    }
}

/// The two boundary timestamps a packet rescale passes through unchanged:
/// the "no timestamp" sentinel and the saturated maximum.
pub open spec fn is_boundary_ts(ts: i64) -> bool {
    ts == NO_TIMESTAMP || ts == i64::MAX
}

/// Rescales a packet timestamp between two time bases.  The two boundary
/// values — the "no timestamp" sentinel and the saturated maximum — pass
/// through untouched.
pub fn rescale_ts(ts: i64, from: TimeBase, to: TimeBase) -> (r: i64)
    requires
        from.valid(),
        to.valid(),
        !is_boundary_ts(ts) ==> i64::MIN <= rescale_spec(ts as int, from, to) <= i64::MAX,
    ensures
        is_boundary_ts(ts) ==> r == ts,
        !is_boundary_ts(ts) ==> r == rescale_spec(ts as int, from, to),
{
    if ts == NO_TIMESTAMP || ts == i64::MAX {
        ts
    } else {
        rescale(ts, from, to)
    }
}

/// Rescales a packet timestamp between two time bases: boundary values
/// pass through untouched, and a result that does not fit a timestamp is
/// reported as an overflow.
pub fn try_rescale_ts(ts: i64, from: TimeBase, to: TimeBase) -> (r: Option<i64>)
    requires
        from.valid(),
        to.valid(),
    ensures
        is_boundary_ts(ts) ==> r == Some(ts),
        !is_boundary_ts(ts) ==> match r {
            Some(v) => v == rescale_spec(ts as int, from, to) && i64::MIN <= rescale_spec(
                ts as int,
                from,
                to,
            ) <= i64::MAX,
            None => rescale_spec(ts as int, from, to) < i64::MIN || rescale_spec(ts as int, from,
                to) > i64::MAX,
        },
{
    if ts == NO_TIMESTAMP || ts == i64::MAX {
        Some(ts)
    } else {
        try_rescale(ts, from, to)
    }
}

} // verus!
