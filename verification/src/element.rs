//! The client-side core of an element handle.
//!
//! A handle owns one native element reference and, beside it, two cached
//! values: the playback rate last applied and the last position set.  The
//! native reference and every call into the runtime live outside this
//! library; the core holds the cached values and makes every decision the
//! handle makes.  A runtime answer — a position or duration query result, a
//! seek outcome, a state-change result — enters as an argument; a request to
//! the runtime leaves as a [`SeekRequest`] or a [`SpeedPlan`] value.

use vstd::prelude::*;

use crate::seek::async_position_seek_flags;
use crate::seek::bounded_seek;
use crate::seek::build_bounded_seek;
use crate::seek::position_seek_flags;
use crate::seek::rate_change_seek_flags;
use crate::seek::SeekFlags;
use crate::seek::SeekRequest;
use crate::state::StateChangeReturn;
use crate::units::pct_position_ns;
use crate::units::pct_target_ns;
use crate::units::spec_pct_target;
use crate::units::Fraction;
use crate::units::Rate;
use crate::units::RATE_UNIT_PPM;

verus! {

/// How long a worker thread waits for an element to settle into a stable
/// state before it issues a seek on the element's behalf: one second, in
/// nanoseconds.
pub const ASYNC_SEEK_SETTLE_NS: u64 = 1_000_000_000;

/// The cached client-side state of an element handle: the playback rate
/// last applied and the last position set, in nanoseconds.  The position is
/// a best-effort fallback for when a live query is unanswerable; it is
/// updated only by position-setting operations, never by a worker thread.
#[derive(Clone, Copy, Debug, PartialEq, Eq, Structural)]
pub struct ElementCore {
    /// The playback-rate multiplier applied on every seek.
    pub speed: Rate,
    /// The last position set, used when a live position query fails.
    pub last_pos_ns: i64,
}

/// The first step of a speed change: a rate of exactly zero pauses the
/// element without seeking; any other rate needs the current position
/// before a seek can be phrased.
#[derive(Clone, Copy, Debug, PartialEq, Eq, Structural)]
pub enum SpeedPlan {
    /// Request a transition to the paused state; no position is consulted.
    Pause,
    /// Query the current position, then phrase a rate-changing seek.
    QueryPosition,
}

/// The cached state of a freshly constructed handle: unit forward rate,
/// position zero.
pub open spec fn initial_core() -> ElementCore {
    ElementCore { speed: Rate { ppm: RATE_UNIT_PPM }, last_pos_ns: 0 }
}

/// The position a handle reports: the live query result when there is one,
/// the cached fallback otherwise.
pub open spec fn spec_position_ns(core: ElementCore, live: Option<i64>) -> i64 {
    match live {
        Some(t) => t,
        None => core.last_pos_ns,
    }
}

/// The cached state after a position seek to `ns` came back: the position
/// cache follows a successful seek and nothing else changes.
pub open spec fn spec_committed_position(core: ElementCore, ns: i64, seek_ok: bool) -> ElementCore {
    if seek_ok {
        ElementCore { speed: core.speed, last_pos_ns: ns }
    } else {
        core
    }
}

/// The cached state after a rate-changing seek came back: the rate follows
/// a successful seek and nothing else changes.
pub open spec fn spec_committed_speed(core: ElementCore, rate: Rate, seek_ok: bool) -> ElementCore {
    if seek_ok {
        ElementCore { speed: rate, last_pos_ns: core.last_pos_ns }
    } else {
        core
    }
}

/// The first step a speed change takes for `rate`.
pub open spec fn spec_speed_plan(rate: Rate) -> SpeedPlan {
    if rate.ppm == 0 {
        SpeedPlan::Pause
    } else {
        SpeedPlan::QueryPosition
    }
}

/// The rate-changing seek request for `rate` once the position query
/// answered: a request at the reported position, or nothing when the query
/// failed — the speed change must then fail with the cache untouched.
pub open spec fn spec_rate_change_request(rate: Rate, pos_ns: Option<i64>) -> Option<SeekRequest> {
    match pos_ns {
        Some(p) => Some(bounded_seek(rate, rate_change_seek_flags(), p)),
        None => None,
    }
}

impl ElementCore {
    /// The cached state of a freshly constructed handle: unit forward rate,
    /// position zero.
    pub fn new() -> (r: ElementCore)
        ensures
            r == initial_core(),
            r.speed.ppm == RATE_UNIT_PPM,
            r.last_pos_ns == 0,
    {
        ElementCore { speed: Rate::unit(), last_pos_ns: 0 }
    }

    /// The cached playback rate.  It is never queried back from the
    /// runtime; it is whatever the last successful (or, for worker-thread
    /// changes, the last attempted) speed change applied.
    pub fn speed(&self) -> (r: Rate)
        ensures
            r == self.speed,
    {
        self.speed
    }

    /// The cached fallback position.
    pub fn last_position_ns(&self) -> (r: i64)
        ensures
            r == self.last_pos_ns,
    {
        self.last_pos_ns
    }

    /// The position the handle reports for the live query result `live`:
    /// the live value when the query answered, the cached fallback when it
    /// did not.  This never fails.
    pub fn position_ns(&self, live: Option<i64>) -> (r: i64)
        ensures
            r == spec_position_ns(*self, live),
    {
        match live {
            Some(t) => t,
            None => self.last_pos_ns,
        }
    }

    /// The reported position as a share of the duration: the fraction
    /// `position / duration`, or nothing when the duration is unknown.  The
    /// value is not clamped and can name a share outside `0 .. 1` while a
    /// seek is settling.
    pub fn position_pct(&self, live: Option<i64>, duration_ns: Option<i64>) -> (r: Option<
        Fraction,
    >)
        ensures
            r is Some <==> duration_ns is Some,
            duration_ns matches Some(d) ==> r == Some(
                Fraction { num: spec_position_ns(*self, live), den: d },
            ),
    {
        let pos: i64 = self.position_ns(live);
        match duration_ns {
            Some(d) => Some(Fraction { num: pos, den: d }),
            None => None,
        }
    }

    /// The seek request that moves the stream to `ns` while keeping the
    /// cached rate: a flushing seek bounded by the direction of that rate.
    pub fn position_seek_request(&self, ns: i64) -> (r: SeekRequest)
        ensures
            r == bounded_seek(self.speed, position_seek_flags(), ns),
    {
        build_bounded_seek(self.speed, SeekFlags::position(), ns)
    }

    /// Record the outcome of the position seek to `ns` and report it: on
    /// success the fallback position becomes `ns`; on failure nothing
    /// changes.
    pub fn finish_set_position_ns(&mut self, ns: i64, seek_ok: bool) -> (r: bool)
        ensures
            r == seek_ok,
            *final(self) == spec_committed_position(*old(self), ns, seek_ok),
    {
        if seek_ok {
            self.last_pos_ns = ns;
        }
        seek_ok
    }

    /// The target of a fractional position seek: the fraction of the known
    /// duration, in nanoseconds, or nothing when the duration is unknown —
    /// the operation must then fail with nothing mutated.
    pub fn set_position_pct_target(&self, pct: Fraction, duration_ns: Option<i64>) -> (r: Option<
        i64,
    >)
        requires
            pct.den > 0,
        ensures
            r == spec_pct_target(pct, duration_ns),
    {
        pct_target_ns(pct, duration_ns)
    }

    /// The first step of a speed change to `rate`: pause when the rate is
    /// exactly zero, otherwise query the current position.  Nothing is
    /// cached yet.
    pub fn begin_set_speed(&self, rate: Rate) -> (r: SpeedPlan)
        ensures
            r == spec_speed_plan(rate),
    {
        if rate.is_zero() {
            SpeedPlan::Pause
        } else {
            SpeedPlan::QueryPosition
        }
    }

    /// Finish the pausing path of a speed change: the cached rate becomes
    /// `rate` whatever the transition returned — the element was asked to
    /// pause either way — and the change counts as successful exactly when
    /// the transition did not fail.
    pub fn finish_pause_set_speed(&mut self, rate: Rate, ret: StateChangeReturn) -> (r: bool)
        requires
            rate.ppm == 0,
        ensures
            r == (ret !is Failure),
            final(self).speed == rate,
            final(self).last_pos_ns == old(self).last_pos_ns,
    {
        self.speed = rate;
        crate::state::state_change_succeeded(ret)
    }

    /// The rate-changing seek for `rate` once the position query answered
    /// with `pos_ns`: a skipping, accurate, flushing seek at the reported
    /// position, bounded by the direction of the new rate; nothing when the
    /// query failed, in which case the change must fail with the cache
    /// untouched.
    pub fn rate_seek_request(&self, rate: Rate, pos_ns: Option<i64>) -> (r: Option<SeekRequest>)
        requires
            rate.ppm != 0,
        ensures
            r == spec_rate_change_request(rate, pos_ns),
    {
        match pos_ns {
            Some(p) => Some(build_bounded_seek(rate, SeekFlags::rate_change(), p)),
            None => None,
        }
    }

    /// Record the outcome of the rate-changing seek for `rate` and report
    /// it: on success the cached rate becomes `rate`; on failure nothing
    /// changes.
    pub fn finish_set_speed(&mut self, rate: Rate, seek_ok: bool) -> (r: bool)
        ensures
            r == seek_ok,
            *final(self) == spec_committed_speed(*old(self), rate, seek_ok),
    {
        if seek_ok {
            self.speed = rate;
        }
        seek_ok
    }

    /// The request a worker thread must issue for a position seek to `ns`:
    /// an accurate flushing seek keeping the cached rate.  The fallback
    /// position becomes `ns` at once — the worker's eventual outcome is
    /// never observed.
    pub fn begin_set_position_ns_async(&mut self, ns: i64) -> (r: SeekRequest)
        ensures
            r == bounded_seek(old(self).speed, async_position_seek_flags(), ns),
            final(self).speed == old(self).speed,
            final(self).last_pos_ns == ns,
    {
        let req: SeekRequest = build_bounded_seek(self.speed, SeekFlags::async_position(), ns);
        self.last_pos_ns = ns;
        req
    }

    /// The worker-thread request for a fractional position seek: as
    /// [`Self::begin_set_position_ns_async`] at the fraction of the known
    /// duration, or nothing when the duration is unknown — then nothing is
    /// mutated and no worker may be spawned, the one synchronous failure of
    /// the worker-thread family.
    pub fn begin_set_position_pct_async(&mut self, pct: Fraction, duration_ns: Option<i64>) -> (r:
        Option<SeekRequest>)
        requires
            pct.den > 0,
        ensures
            r is Some <==> duration_ns is Some,
            duration_ns is None ==> *final(self) == *old(self),
            duration_ns matches Some(d) ==> {
                &&& r == Some(
                    bounded_seek(old(self).speed, async_position_seek_flags(), pct_position_ns(d, pct)),
                )
                &&& final(self).speed == old(self).speed
                &&& final(self).last_pos_ns == pct_position_ns(d, pct)
            },
    {
        match pct_target_ns(pct, duration_ns) {
            Some(ns) => Some(self.begin_set_position_ns_async(ns)),
            None => None,
        }
    }

    /// The first step of a worker-thread speed change to `rate`: the cached
    /// rate becomes `rate` at once — the worker's eventual outcome is never
    /// observed — and the plan is the same as for a synchronous change.
    pub fn begin_set_speed_async(&mut self, rate: Rate) -> (r: SpeedPlan)
        ensures
            r == spec_speed_plan(rate),
            final(self).speed == rate,
            final(self).last_pos_ns == old(self).last_pos_ns,
    {
        self.speed = rate;
        if rate.is_zero() {
            SpeedPlan::Pause
        } else {
            SpeedPlan::QueryPosition
        }
    }
}

/// Reporting a position never fails: a live answer is passed through and a
/// missing one falls back to the cached position, which a fresh handle
/// holds as zero.
pub proof fn lemma_position_ns_total(core: ElementCore, live: Option<i64>)
    ensures
        live matches Some(t) ==> spec_position_ns(core, live) == t,
        live is None ==> spec_position_ns(core, live) == core.last_pos_ns,
        spec_position_ns(initial_core(), Option::None) == 0,
{
}

/// A fractional position seek composes the duration lookup with a plain
/// position seek: with a known duration `d` it targets exactly the
/// truncated, clamped product `d * num / den` — for a non-negative product
/// the floor of `d * num / den` — and with no duration it yields no target,
/// so nothing is seeked.  A position seek that does not succeed, whatever
/// its target, leaves the cache exactly as it was.
pub proof fn lemma_set_position_pct_composes(
    core: ElementCore,
    pct: Fraction,
    duration_ns: Option<i64>,
    target_ns: i64,
)
    requires
        pct.den > 0,
    ensures
        spec_pct_target(pct, duration_ns) is Some <==> duration_ns is Some,
        duration_ns matches Some(d) ==> {
            let exact = ((d as int) * (pct.num as int)) / (pct.den as int);
            (d as int) * (pct.num as int) >= 0 && i64::MIN <= exact <= i64::MAX
                ==> spec_pct_target(pct, duration_ns) == Some(exact as i64)
        },
        spec_committed_position(core, target_ns, false) == core,
{
}

/// A speed change to rate zero never consults the position and always plans
/// a pause; a change to any other rate consults the position first, and
/// when that query fails it produces no seek and leaves the cache as it
/// was.
pub proof fn lemma_set_speed_guards(core: ElementCore, rate: Rate)
    ensures
        spec_speed_plan(rate) is Pause <==> rate.ppm == 0,
        spec_rate_change_request(rate, Option::None) is None,
        spec_committed_speed(core, rate, false) == core,
{
}

} // verus!
