//! Playback rates and position fractions as plain integer values.
//!
//! The seek logic only ever tests the sign of the playback rate and scales a
//! known duration by a fraction, so both are held exactly: the rate in parts
//! per million, the fraction as a numerator/denominator pair.

use vstd::prelude::*;

verus! {

/// Parts per million in one unit of playback rate.
pub const RATE_UNIT_PPM: i64 = 1_000_000;

/// A playback-rate multiplier in parts per million of unit speed.
/// Negative means reverse playback; zero means paused.
#[derive(Clone, Copy, Debug, PartialEq, Eq, Structural)]
pub struct Rate {
    pub ppm: i64,
}

impl Rate {
    /// The default rate: forward playback at unit speed.
    pub fn unit() -> (r: Rate)
        ensures
            r.ppm == RATE_UNIT_PPM,
    {
        Rate { ppm: RATE_UNIT_PPM }
    }

    /// Forward playback: a strictly positive rate.
    pub fn is_forward(&self) -> (r: bool)
        ensures
            r == (self.ppm > 0),
    {
        self.ppm > 0
    }

    /// A rate of exactly zero, which pauses instead of seeking.
    pub fn is_zero(&self) -> (r: bool)
        ensures
            r == (self.ppm == 0),
    {
        self.ppm == 0
    }
}

/// A plain fraction `num / den`, used both for a requested position as a
/// share of the duration and for a reported position over the duration.
#[derive(Clone, Copy, Debug, PartialEq, Eq, Structural)]
pub struct Fraction {
    pub num: i64,
    pub den: i64,
}

/// `(dur * num) / den` as a mathematical integer, truncated toward zero.
pub open spec fn scaled_trunc(dur: int, num: int, den: int) -> int
    recommends
        den > 0,
{
    let p = dur * num;
    if p >= 0 {
        p / den
    } else {
        -((-p) / den)
    }
}

/// Clamp a mathematical integer to the nanosecond (`i64`) range.
pub open spec fn sat_to_i64(x: int) -> i64 {
    if x > i64::MAX as int {
        i64::MAX
    } else if x < i64::MIN as int {
        i64::MIN
    } else {
        x as i64
    }
}

/// The nanosecond position that the fraction `pct` of a known duration names.
pub open spec fn pct_position_ns(duration_ns: i64, pct: Fraction) -> i64
    recommends
        pct.den > 0,
{
    sat_to_i64(scaled_trunc(duration_ns as int, pct.num as int, pct.den as int))
}

/// The position a fractional seek must target: a position when the duration
/// is known, nothing when it is not.
pub open spec fn spec_pct_target(pct: Fraction, duration_ns: Option<i64>) -> Option<i64> {
    match duration_ns {
        Some(d) => Some(pct_position_ns(d, pct)),
        None => None,
    }
}

/// The position that the fraction `pct` of the duration names, when the
/// duration is known: the product `duration_ns * pct.num / pct.den`,
/// truncated toward zero and clamped to the nanosecond range.  Nothing when
/// the duration is unknown, in which case the caller must fail without
/// seeking.
pub fn pct_target_ns(pct: Fraction, duration_ns: Option<i64>) -> (r: Option<i64>)
    requires
        pct.den > 0,
    ensures
        r == spec_pct_target(pct, duration_ns),
{
    match duration_ns {
        None => None,
        Some(d) => {
            let neg: bool = (d < 0) != (pct.num < 0);
            let dm: u128 = if d >= 0 {
                d as u128
            } else {
                (-(d as i128)) as u128
            };
            let nm: u128 = if pct.num >= 0 {
                pct.num as u128
            } else {
                (-(pct.num as i128)) as u128
            };
            proof {
                assert((dm as int) * (nm as int) <= 0x8000000000000000 * 0x8000000000000000)
                    by (nonlinear_arith)
                    requires
                        dm as int <= 0x8000000000000000,
                        nm as int <= 0x8000000000000000,
                ;
            }
            let prod: u128 = dm * nm;
            let mag: u128 = prod / (pct.den as u128);
            proof {
                let p: int = (d as int) * (pct.num as int);
                assert(prod as int == (if p >= 0 { p } else { -p })) by (nonlinear_arith)
                    requires
                        dm as int == (if (d as int) >= 0 { d as int } else { -(d as int) }),
                        nm as int == (if (pct.num as int) >= 0 { pct.num as int } else { -(pct.num as int) }),
                        prod as int == (dm as int) * (nm as int),
                        p == (d as int) * (pct.num as int),
                ;
                assert((!neg ==> p >= 0) && (neg ==> p <= 0)) by (nonlinear_arith)
                    requires
                        neg == (((d as int) < 0) != ((pct.num as int) < 0)),
                        p == (d as int) * (pct.num as int),
                ;
                assert(0int / (pct.den as int) == 0) by (nonlinear_arith)
                    requires
                        pct.den as int > 0,
                ;
            }
            let out: i64 = if neg {
                if mag > i64::MAX as u128 {
                    i64::MIN
                } else {
                    -(mag as i64)
                }
            } else {
                if mag > i64::MAX as u128 {
                    i64::MAX
                } else {
                    mag as i64
                }
            };
            Some(out)
        },
    }
}

} // verus!
