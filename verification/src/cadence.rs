//! Source and delivery cadence of the video stream, over one log window, and the stamps that pace
//! the log itself.

use vstd::prelude::*;

verus! {

/// A stamp that fires once per interval and re-arms itself.
#[derive(Clone, Copy, Debug, PartialEq, Eq, Structural)]
pub struct Tick {
    pub interval_ns: u64,
    pub last_ns: u64,
}

impl Tick {
    /// Whether the stamp fires at a clock reading.
    pub open spec fn due_at(self, now_ns: u64) -> bool {
        crate::ndl::since(now_ns, self.last_ns) >= self.interval_ns
    }

    pub fn new(interval_ns: u64, now_ns: u64) -> (t: Tick)
        ensures
            t == (Tick { interval_ns, last_ns: now_ns }),
    {
        Tick { interval_ns, last_ns: now_ns }
    }

    /// Whether the stamp fires now; if so, it is armed again from now.
    pub fn due(&mut self, now_ns: u64) -> (ready: bool)
        ensures
            ready == old(self).due_at(now_ns),
            *final(self) == (Tick {
                last_ns: if ready {
                    now_ns
                } else {
                    old(self).last_ns
                },
                ..*old(self)
            }),
    {
        let ready = now_ns.saturating_sub(self.last_ns) >= self.interval_ns;
        if ready {
            self.last_ns = now_ns;
        }
        ready
    }
}

/// The client's realtime in nanoseconds, from a reading of the wall clock since the epoch; nothing
/// where the wall clock stands before the epoch or the number does not fit.
pub fn realtime_ns(since_epoch_ns: Option<u128>) -> (r: Option<i128>)
    ensures
        r is Some <==> since_epoch_ns is Some && since_epoch_ns->0 <= i128::MAX,
        r matches Some(ns) ==> ns == since_epoch_ns->0,
{
    match since_epoch_ns {
        Some(ns) => if ns <= 0x7fff_ffff_ffff_ffff_ffff_ffff_ffff_ffff {
            Some(ns as i128)
        } else {
            None
        },
        None => None,
    }
}

/// One log window's source and delivery cadence, measured on the first piece of each access unit
/// only.
#[derive(Clone, Copy, Debug, PartialEq, Eq, Structural)]
pub struct CadenceWindow {
    pub last_host_pts_ns: Option<u64>,
    pub last_arrival_ns: Option<u64>,
    pub aus: u64,
    pub source_intervals: u64,
    pub source_ns: u64,
    pub arrival_intervals: u64,
    pub arrival_ns: u64,
    pub delivery_delta_samples: u64,
    pub delivery_delta_abs_ns: u64,
    pub delivery_delta_max_ns: u64,
    pub max_arrival_gap_ns: u64,
    pub repeated_pts: u64,
    pub backwards_pts: u64,
    pub pre_ndl_age_samples: u64,
    pub pre_ndl_age_sum_ns: i128,
    pub pre_ndl_age_min_ns: Option<i64>,
    pub pre_ndl_age_max_ns: Option<i64>,
}

/// The counters of a window that was closed.
#[derive(Clone, Copy, Debug, Default, PartialEq, Eq, Structural)]
pub struct CadenceSnapshot {
    pub aus: u64,
    pub source_intervals: u64,
    pub source_ns: u64,
    pub arrival_intervals: u64,
    pub arrival_ns: u64,
    pub delivery_delta_samples: u64,
    pub delivery_delta_abs_ns: u64,
    pub delivery_delta_max_ns: u64,
    pub max_arrival_gap_ns: u64,
    pub repeated_pts: u64,
    pub backwards_pts: u64,
    pub pre_ndl_age_samples: u64,
    pub pre_ndl_age_sum_ns: i128,
    pub pre_ndl_age_min_ns: Option<i64>,
    pub pre_ndl_age_max_ns: Option<i64>,
}

/// `a + b`, or the largest `u64` where that does not fit.
pub open spec fn sat_add(a: u64, b: int) -> u64 {
    if a + b <= u64::MAX {
        (a + b) as u64
    } else {
        u64::MAX
    }
}

/// `a + b`, or the nearest `i128` where that does not fit.
pub open spec fn sat_add_signed(a: i128, b: int) -> i128 {
    if a + b > i128::MAX {
        i128::MAX
    } else if a + b < i128::MIN {
        i128::MIN
    } else {
        (a + b) as i128
    }
}

pub open spec fn count(b: bool) -> int {
    if b {
        1
    } else {
        0
    }
}

pub open spec fn or_zero(v: Option<u64>) -> int {
    match v {
        Some(n) => n as int,
        None => 0,
    }
}

pub open spec fn abs_diff(a: u64, b: u64) -> u64 {
    if a >= b {
        (a - b) as u64
    } else {
        (b - a) as u64
    }
}

pub open spec fn max_u64(a: u64, b: int) -> u64 {
    if b > a {
        b as u64
    } else {
        a
    }
}

/// The smaller of what was seen before and a new sample, if there is one.
pub open spec fn min_seen(old: Option<i64>, new: Option<i64>) -> Option<i64> {
    match (old, new) {
        (Some(a), Some(b)) => Some(
            if b < a {
                b
            } else {
                a
            },
        ),
        (None, Some(b)) => Some(b),
        (_, None) => old,
    }
}

/// The larger of what was seen before and a new sample, if there is one.
pub open spec fn max_seen(old: Option<i64>, new: Option<i64>) -> Option<i64> {
    match (old, new) {
        (Some(a), Some(b)) => Some(
            if b > a {
                b
            } else {
                a
            },
        ),
        (None, Some(b)) => Some(b),
        (_, None) => old,
    }
}

/// How old a frame is on the host's clock when it arrives: unknown while the clock offset is
/// unset, which zero stands for, and where the age does not fit.
pub open spec fn pre_ndl_age(pts_ns: u64, realtime_ns: Option<i128>, clock_offset_ns: i64) -> Option<
    i64,
> {
    match realtime_ns {
        Some(client_ns) => {
            let age = client_ns + clock_offset_ns - pts_ns;
            if clock_offset_ns != 0 && i64::MIN <= age <= i64::MAX {
                Some(age as i64)
            } else {
                None
            }
        },
        None => None,
    }
}

impl CadenceWindow {
    /// The time since the last arrival.
    pub open spec fn arrival_delta(self, now_ns: u64) -> Option<u64> {
        match self.last_arrival_ns {
            Some(previous) => Some(crate::ndl::since(now_ns, previous)),
            None => None,
        }
    }

    /// The time by which the source moved on, where it did.
    pub open spec fn source_delta(self, pts_ns: u64) -> Option<u64> {
        match self.last_host_pts_ns {
            Some(previous) if pts_ns > previous => Some((pts_ns - previous) as u64),
            _ => None,
        }
    }

    /// By how much the delivery interval differs from the source interval, where both are known.
    pub open spec fn distortion(self, pts_ns: u64, now_ns: u64) -> Option<u64> {
        match (self.arrival_delta(now_ns), self.source_delta(pts_ns)) {
            (Some(arrival), Some(source)) => Some(abs_diff(arrival, source)),
            _ => None,
        }
    }

    /// The window with one more access unit, stamped `pts_ns` and arrived at `now_ns`.
    pub open spec fn with_au(
        self,
        pts_ns: u64,
        now_ns: u64,
        realtime_ns: Option<i128>,
        clock_offset_ns: i64,
    ) -> CadenceWindow {
        let arrival = self.arrival_delta(now_ns);
        let source = self.source_delta(pts_ns);
        let distortion = self.distortion(pts_ns, now_ns);
        let age = pre_ndl_age(pts_ns, realtime_ns, clock_offset_ns);
        CadenceWindow {
            last_host_pts_ns: Some(pts_ns),
            last_arrival_ns: Some(now_ns),
            aus: sat_add(self.aus, 1),
            source_intervals: sat_add(self.source_intervals, count(source is Some)),
            source_ns: sat_add(self.source_ns, or_zero(source)),
            arrival_intervals: sat_add(self.arrival_intervals, count(arrival is Some)),
            arrival_ns: sat_add(self.arrival_ns, or_zero(arrival)),
            delivery_delta_samples: sat_add(
                self.delivery_delta_samples,
                count(distortion is Some),
            ),
            delivery_delta_abs_ns: sat_add(self.delivery_delta_abs_ns, or_zero(distortion)),
            delivery_delta_max_ns: max_u64(self.delivery_delta_max_ns, or_zero(distortion)),
            max_arrival_gap_ns: max_u64(self.max_arrival_gap_ns, or_zero(arrival)),
            repeated_pts: sat_add(
                self.repeated_pts,
                count(self.last_host_pts_ns == Some(pts_ns)),
            ),
            backwards_pts: sat_add(
                self.backwards_pts,
                count(self.last_host_pts_ns matches Some(previous) && pts_ns < previous),
            ),
            pre_ndl_age_samples: sat_add(self.pre_ndl_age_samples, count(age is Some)),
            pre_ndl_age_sum_ns: match age {
                Some(ns) => sat_add_signed(self.pre_ndl_age_sum_ns, ns as int),
                None => self.pre_ndl_age_sum_ns,
            },
            pre_ndl_age_min_ns: min_seen(self.pre_ndl_age_min_ns, age),
            pre_ndl_age_max_ns: max_seen(self.pre_ndl_age_max_ns, age),
        }
    }

    /// The window with its counters at zero; the two previous stamps stay.
    pub open spec fn cleared(self) -> CadenceWindow {
        CadenceWindow {
            last_host_pts_ns: self.last_host_pts_ns,
            last_arrival_ns: self.last_arrival_ns,
            ..empty_window()
        }
    }

    /// The counters of the window.
    pub open spec fn snapshot(self) -> CadenceSnapshot {
        CadenceSnapshot {
            aus: self.aus,
            source_intervals: self.source_intervals,
            source_ns: self.source_ns,
            arrival_intervals: self.arrival_intervals,
            arrival_ns: self.arrival_ns,
            delivery_delta_samples: self.delivery_delta_samples,
            delivery_delta_abs_ns: self.delivery_delta_abs_ns,
            delivery_delta_max_ns: self.delivery_delta_max_ns,
            max_arrival_gap_ns: self.max_arrival_gap_ns,
            repeated_pts: self.repeated_pts,
            backwards_pts: self.backwards_pts,
            pre_ndl_age_samples: self.pre_ndl_age_samples,
            pre_ndl_age_sum_ns: self.pre_ndl_age_sum_ns,
            pre_ndl_age_min_ns: self.pre_ndl_age_min_ns,
            pre_ndl_age_max_ns: self.pre_ndl_age_max_ns,
        }
    }

    /// Takes one piece of an access unit. Only the first piece (`au_first`) counts: the others
    /// repeat its stamp.
    pub fn observe(
        &mut self,
        au_first: bool,
        pts_ns: u64,
        now_ns: u64,
        realtime_ns: Option<i128>,
        clock_offset_ns: i64,
    )
        ensures
            !au_first ==> *final(self) == *old(self),
            au_first ==> *final(self) == old(self).with_au(
                pts_ns,
                now_ns,
                realtime_ns,
                clock_offset_ns,
            ),
    {
        if !au_first {
            return;
        }
        self.aus = self.aus.saturating_add(1);

        let mut arrival_delta: Option<u64> = None;
        if let Some(previous) = self.last_arrival_ns {
            let ns: u64 = now_ns.saturating_sub(previous);
            self.arrival_intervals = self.arrival_intervals.saturating_add(1);
            self.arrival_ns = self.arrival_ns.saturating_add(ns);
            if ns > self.max_arrival_gap_ns {
                self.max_arrival_gap_ns = ns;
            }
            arrival_delta = Some(ns);
        }
        self.last_arrival_ns = Some(now_ns);

        let mut source_delta: Option<u64> = None;
        if let Some(previous) = self.last_host_pts_ns {
            if pts_ns > previous {
                let ns: u64 = pts_ns - previous;
                self.source_intervals = self.source_intervals.saturating_add(1);
                self.source_ns = self.source_ns.saturating_add(ns);
                source_delta = Some(ns);
            } else if pts_ns == previous {
                self.repeated_pts = self.repeated_pts.saturating_add(1);
            } else {
                self.backwards_pts = self.backwards_pts.saturating_add(1);
            }
        }
        self.last_host_pts_ns = Some(pts_ns);

        if let (Some(arrival_ns), Some(source_ns)) = (arrival_delta, source_delta) {
            let distortion: u64 = if arrival_ns >= source_ns {
                arrival_ns - source_ns
            } else {
                source_ns - arrival_ns
            };
            self.delivery_delta_samples = self.delivery_delta_samples.saturating_add(1);
            self.delivery_delta_abs_ns = self.delivery_delta_abs_ns.saturating_add(distortion);
            if distortion > self.delivery_delta_max_ns {
                self.delivery_delta_max_ns = distortion;
            }
        }
        if let Some(age_ns) = frame_age(pts_ns, realtime_ns, clock_offset_ns) {
            self.add_age(age_ns);
        }
    }

    /// Counts one frame age.
    fn add_age(&mut self, age_ns: i64)
        ensures
            *final(self) == (CadenceWindow {
                pre_ndl_age_samples: sat_add(old(self).pre_ndl_age_samples, 1),
                pre_ndl_age_sum_ns: sat_add_signed(old(self).pre_ndl_age_sum_ns, age_ns as int),
                pre_ndl_age_min_ns: min_seen(old(self).pre_ndl_age_min_ns, Some(age_ns)),
                pre_ndl_age_max_ns: max_seen(old(self).pre_ndl_age_max_ns, Some(age_ns)),
                ..*old(self)
            }),
    {
        self.pre_ndl_age_samples = self.pre_ndl_age_samples.saturating_add(1);
        self.pre_ndl_age_sum_ns =
        match self.pre_ndl_age_sum_ns.checked_add(age_ns as i128) {
            Some(sum) => sum,
            None => if age_ns > 0 {
                i128::MAX
            } else {
                i128::MIN
            },
        };
        self.pre_ndl_age_min_ns = Some(
            match self.pre_ndl_age_min_ns {
                Some(old) if old <= age_ns => old,
                _ => age_ns,
            },
        );
        self.pre_ndl_age_max_ns = Some(
            match self.pre_ndl_age_max_ns {
                Some(old) if old >= age_ns => old,
                _ => age_ns,
            },
        );
    }

    /// Closes the window. The two previous stamps stay, so that the first access unit after a log
    /// still contributes an interval.
    pub fn take(&mut self) -> (out: CadenceSnapshot)
        ensures
            out == old(self).snapshot(),
            *final(self) == old(self).cleared(),
    {
        let out = CadenceSnapshot {
            aus: self.aus,
            source_intervals: self.source_intervals,
            source_ns: self.source_ns,
            arrival_intervals: self.arrival_intervals,
            arrival_ns: self.arrival_ns,
            delivery_delta_samples: self.delivery_delta_samples,
            delivery_delta_abs_ns: self.delivery_delta_abs_ns,
            delivery_delta_max_ns: self.delivery_delta_max_ns,
            max_arrival_gap_ns: self.max_arrival_gap_ns,
            repeated_pts: self.repeated_pts,
            backwards_pts: self.backwards_pts,
            pre_ndl_age_samples: self.pre_ndl_age_samples,
            pre_ndl_age_sum_ns: self.pre_ndl_age_sum_ns,
            pre_ndl_age_min_ns: self.pre_ndl_age_min_ns,
            pre_ndl_age_max_ns: self.pre_ndl_age_max_ns,
        };
        self.aus = 0;
        self.source_intervals = 0;
        self.source_ns = 0;
        self.arrival_intervals = 0;
        self.arrival_ns = 0;
        self.delivery_delta_samples = 0;
        self.delivery_delta_abs_ns = 0;
        self.delivery_delta_max_ns = 0;
        self.max_arrival_gap_ns = 0;
        self.repeated_pts = 0;
        self.backwards_pts = 0;
        self.pre_ndl_age_samples = 0;
        self.pre_ndl_age_sum_ns = 0;
        self.pre_ndl_age_min_ns = None;
        self.pre_ndl_age_max_ns = None;
        out
    }
}

/// A window in which nothing has been seen.
pub open spec fn empty_window() -> CadenceWindow {
    CadenceWindow {
        last_host_pts_ns: None,
        last_arrival_ns: None,
        aus: 0,
        source_intervals: 0,
        source_ns: 0,
        arrival_intervals: 0,
        arrival_ns: 0,
        delivery_delta_samples: 0,
        delivery_delta_abs_ns: 0,
        delivery_delta_max_ns: 0,
        max_arrival_gap_ns: 0,
        repeated_pts: 0,
        backwards_pts: 0,
        pre_ndl_age_samples: 0,
        pre_ndl_age_sum_ns: 0,
        pre_ndl_age_min_ns: None,
        pre_ndl_age_max_ns: None,
    }
}

impl Default for CadenceWindow {
    fn default() -> (w: Self)
        ensures
            w == empty_window(),
    {
        CadenceWindow {
            last_host_pts_ns: None,
            last_arrival_ns: None,
            aus: 0,
            source_intervals: 0,
            source_ns: 0,
            arrival_intervals: 0,
            arrival_ns: 0,
            delivery_delta_samples: 0,
            delivery_delta_abs_ns: 0,
            delivery_delta_max_ns: 0,
            max_arrival_gap_ns: 0,
            repeated_pts: 0,
            backwards_pts: 0,
            pre_ndl_age_samples: 0,
            pre_ndl_age_sum_ns: 0,
            pre_ndl_age_min_ns: None,
            pre_ndl_age_max_ns: None,
        }
    }
}

/// How old a frame is on the host's clock when it arrives.
pub fn frame_age(pts_ns: u64, realtime_ns: Option<i128>, clock_offset_ns: i64) -> (age: Option<i64>)
    ensures
        age == pre_ndl_age(pts_ns, realtime_ns, clock_offset_ns),
{
    if clock_offset_ns == 0 {
        return None;
    }
    let client_ns: i128 = match realtime_ns {
        Some(ns) => ns,
        None => {
            return None;
        },
    };
    let host_now_ns: i128 = match client_ns.checked_add(clock_offset_ns as i128) {
        Some(ns) => ns,
        None => {
            return None;
        },
    };
    let age_ns: i128 = match host_now_ns.checked_sub(pts_ns as i128) {
        Some(ns) => ns,
        None => {
            return None;
        },
    };
    if age_ns < -0x8000_0000_0000_0000 || age_ns > 0x7fff_ffff_ffff_ffff {
        None
    } else {
        Some(age_ns as i64)
    }
}

impl Tick {
    /// A stamp that fires does not fire again before its interval is over.
    pub proof fn law_spacing(self, now_ns: u64, later_ns: u64)
        requires
            self.due_at(now_ns),
            later_ns >= now_ns,
        ensures
            (Tick { last_ns: now_ns, ..self }).due_at(later_ns) <==> later_ns - now_ns
                >= self.interval_ns,
    {
    }
}

/// What is known of an access unit when it arrives.
#[derive(Clone, Copy, Debug, PartialEq, Eq, Structural)]
pub struct Arrival {
    pub pts_ns: u64,
    pub now_ns: u64,
    pub realtime_ns: Option<i128>,
    pub clock_offset_ns: i64,
}

/// A sum that saturates stays at most its number of samples, which saturates too, times their
/// maximum.
proof fn lemma_sum_bound(sum: u64, samples: u64, max: u64, new: u64)
    requires
        sum <= samples * max,
    ensures
        sat_add(sum, new as int) <= sat_add(samples, 1) * max_u64(max, new as int),
{
    let top: int = max_u64(max, new as int) as int;
    assert(samples * max <= samples * top) by (nonlinear_arith)
        requires
            max <= top,
            0 <= samples,
    ;
    assert((samples + 1) * top == samples * top + top) by (nonlinear_arith);
    if samples == u64::MAX && top > 0 {
        assert(samples * top >= samples) by (nonlinear_arith)
            requires
                top >= 1,
                0 <= samples,
        ;
    } else if samples == u64::MAX {
        assert(samples * top == 0) by (nonlinear_arith)
            requires
                top == 0,
        ;
    }
}

/// Ages that are summed stay between their number times the smallest and times the largest, and the
/// sum does not saturate.
proof fn lemma_age_bound(sum: i128, samples: u64, least: i64, most: i64, new: i64)
    requires
        samples < u64::MAX,
        samples * least <= sum <= samples * most,
    ensures
        i128::MIN <= sum + new <= i128::MAX,
        ({
            let low = if new < least { new } else { least };
            let high = if new > most { new } else { most };
            (samples + 1) * low <= sum + new <= (samples + 1) * high
        }),
{
    let low: int = if new < least { new as int } else { least as int };
    let high: int = if new > most { new as int } else { most as int };
    assert(samples * low <= samples * least) by (nonlinear_arith)
        requires
            low <= least,
            0 <= samples,
    ;
    assert(samples * most <= samples * high) by (nonlinear_arith)
        requires
            most <= high,
            0 <= samples,
    ;
    assert((samples + 1) * low == samples * low + low) by (nonlinear_arith);
    assert((samples + 1) * high == samples * high + high) by (nonlinear_arith);
    assert((samples + 1) * low >= -0x7fff_ffff_ffff_ffff_ffff_ffff_ffff_ffff) by (nonlinear_arith)
        requires
            samples + 1 <= u64::MAX,
            i64::MIN <= low,
            0 <= samples,
    ;
    assert((samples + 1) * high <= 0x7fff_ffff_ffff_ffff_ffff_ffff_ffff_ffff) by (nonlinear_arith)
        requires
            samples + 1 <= u64::MAX,
            high <= i64::MAX,
            0 <= samples,
    ;
}

impl CadenceWindow {
    /// The counters agree with one another.
    pub open spec fn consistent(self) -> bool {
        &&& self.last_host_pts_ns is Some <==> self.last_arrival_ns is Some
        &&& self.arrival_intervals <= self.aus
        &&& self.source_intervals <= self.arrival_intervals
        &&& self.repeated_pts <= self.arrival_intervals
        &&& self.backwards_pts <= self.arrival_intervals
        &&& self.arrival_intervals < u64::MAX ==> self.source_intervals + self.repeated_pts
            + self.backwards_pts == self.arrival_intervals
        &&& self.delivery_delta_samples == self.source_intervals
        &&& self.delivery_delta_max_ns <= self.delivery_delta_abs_ns <= self.delivery_delta_samples
            * self.delivery_delta_max_ns
        &&& self.max_arrival_gap_ns <= self.arrival_ns <= self.arrival_intervals
            * self.max_arrival_gap_ns
        &&& self.pre_ndl_age_samples <= self.aus
        &&& self.pre_ndl_age_samples == 0 <==> self.pre_ndl_age_min_ns is None
        &&& self.pre_ndl_age_samples == 0 <==> self.pre_ndl_age_max_ns is None
        &&& self.pre_ndl_age_samples == 0 ==> self.pre_ndl_age_sum_ns == 0
        &&& self.pre_ndl_age_samples > 0 ==> self.pre_ndl_age_min_ns->0 <= self.pre_ndl_age_max_ns->0
        &&& 0 < self.pre_ndl_age_samples < u64::MAX ==> self.pre_ndl_age_samples
            * self.pre_ndl_age_min_ns->0 <= self.pre_ndl_age_sum_ns <= self.pre_ndl_age_samples
            * self.pre_ndl_age_max_ns->0
    }

    /// The counters agree from the start, and every access unit and every closing keeps them so:
    /// each interval of the source has a delivery interval beside it, no sum exceeds its samples
    /// times their maximum, and ages sum up to between their number times the extremes.
    pub proof fn law_consistent(self, au: Arrival)
        ensures
            empty_window().consistent(),
            self.consistent() ==> self.cleared().consistent(),
            self.consistent() ==> self.with_arrival(au).consistent(),
    {
        if self.consistent() {
            if let Some(arrival) = self.arrival_delta(au.now_ns) {
                lemma_sum_bound(
                    self.arrival_ns,
                    self.arrival_intervals,
                    self.max_arrival_gap_ns,
                    arrival,
                );
            }
            if let Some(distortion) = self.distortion(au.pts_ns, au.now_ns) {
                lemma_sum_bound(
                    self.delivery_delta_abs_ns,
                    self.delivery_delta_samples,
                    self.delivery_delta_max_ns,
                    distortion,
                );
            }
            self.lemma_age_sum(au);
        }
    }

    /// The window with one more access unit.
    pub open spec fn with_arrival(self, au: Arrival) -> CadenceWindow {
        self.with_au(au.pts_ns, au.now_ns, au.realtime_ns, au.clock_offset_ns)
    }

    /// An age adds to the sum as it is, as long as the number of samples has room.
    proof fn lemma_age_sum(self, au: Arrival)
        requires
            self.consistent(),
        ensures
            ({
                let after = self.with_arrival(au);
                let age = pre_ndl_age(au.pts_ns, au.realtime_ns, au.clock_offset_ns);
                after.pre_ndl_age_samples < u64::MAX ==> {
                    &&& age matches Some(ns) ==> after.pre_ndl_age_sum_ns
                        == self.pre_ndl_age_sum_ns + ns
                    &&& after.pre_ndl_age_samples > 0 ==> after.pre_ndl_age_samples
                        * after.pre_ndl_age_min_ns->0 <= after.pre_ndl_age_sum_ns
                        <= after.pre_ndl_age_samples * after.pre_ndl_age_max_ns->0
                }
            }),
    {
        if let Some(age) = pre_ndl_age(au.pts_ns, au.realtime_ns, au.clock_offset_ns) {
            if self.with_arrival(au).pre_ndl_age_samples < u64::MAX {
                if self.pre_ndl_age_samples > 0 {
                    lemma_age_bound(
                        self.pre_ndl_age_sum_ns,
                        self.pre_ndl_age_samples,
                        self.pre_ndl_age_min_ns->0,
                        self.pre_ndl_age_max_ns->0,
                        age,
                    );
                    assert(self.with_arrival(au).pre_ndl_age_samples == self.pre_ndl_age_samples
                        + 1);
                } else {
                    let after = self.with_arrival(au);
                    assert(after.pre_ndl_age_samples == 1);
                    assert(after.pre_ndl_age_samples * after.pre_ndl_age_min_ns->0 == age);
                    assert(after.pre_ndl_age_samples * after.pre_ndl_age_max_ns->0 == age);
                }
            }
        }
    }

    /// The window once these access units have arrived one after the other.
    pub open spec fn observed(self, aus: Seq<Arrival>) -> CadenceWindow
        decreases aus.len(),
    {
        if aus.len() == 0 {
            self
        } else {
            self.observed(aus.drop_last()).with_arrival(aus.last())
        }
    }

    /// The counters agree however many access units have arrived.
    pub proof fn law_consistent_run(self, aus: Seq<Arrival>)
        requires
            self.consistent(),
        ensures
            self.observed(aus).consistent(),
        decreases aus.len(),
    {
        if aus.len() > 0 {
            self.law_consistent_run(aus.drop_last());
            self.observed(aus.drop_last()).law_consistent(aus.last());
        }
    }

    /// Irregular cadence of the source itself cancels out: an access unit that is delivered after
    /// the same interval as the source left between it and the one before adds no distortion.
    pub proof fn law_source_cadence_cancels(
        self,
        pts_ns: u64,
        now_ns: u64,
        realtime_ns: Option<i128>,
        clock_offset_ns: i64,
    )
        requires
            self.arrival_delta(now_ns) is Some,
            self.arrival_delta(now_ns) == self.source_delta(pts_ns),
        ensures
            ({
                let after = self.with_au(pts_ns, now_ns, realtime_ns, clock_offset_ns);
                &&& after.delivery_delta_samples == sat_add(self.delivery_delta_samples, 1)
                &&& after.delivery_delta_abs_ns == self.delivery_delta_abs_ns
                &&& after.delivery_delta_max_ns == self.delivery_delta_max_ns
            }),
    {
    }

    /// Closing a window leaves no blind spot: whatever arrives afterwards is counted in the new
    /// window just as it would have been in the old one. Every counter and sum of a window that was
    /// not closed is that of the two windows together, as long as it has room, and every extreme is
    /// the extreme of both. Where an arrival went before, every access unit has its interval.
    pub proof fn law_no_blind_spot(self, aus: Seq<Arrival>)
        requires
            self.consistent(),
        ensures
            self.observed(aus).joins(self, self.cleared().observed(aus)),
            self.last_arrival_ns is Some ==> self.cleared().observed(aus).arrival_intervals
                == self.cleared().observed(aus).aus,
        decreases aus.len(),
    {
        self.lemma_cleared_consistent();
        self.cleared().lemma_intervals_count(aus);
        if aus.len() > 0 {
            let before = aus.drop_last();
            self.law_no_blind_spot(before);
            self.law_consistent_run(before);
            self.cleared().law_consistent_run(before);
            self.observed(before).lemma_age_adds(aus.last());
            self.cleared().observed(before).lemma_age_adds(aus.last());
            lemma_join_step(
                self.observed(before),
                self,
                self.cleared().observed(before),
                aus.last(),
            );
        }
    }

    proof fn lemma_cleared_consistent(self)
        requires
            self.consistent(),
        ensures
            self.cleared().consistent(),
    {
    }

    proof fn lemma_age_adds(self, au: Arrival)
        requires
            self.consistent(),
        ensures
            age_adds(self, au),
    {
        self.lemma_age_sum(au);
    }

    /// Where an arrival went before, every access unit has an interval.
    proof fn lemma_intervals_count(self, aus: Seq<Arrival>)
        requires
            self.arrival_intervals == self.aus,
        ensures
            self.last_arrival_ns is Some ==> {
                &&& self.observed(aus).last_arrival_ns is Some
                &&& self.observed(aus).arrival_intervals == self.observed(aus).aus
            },
        decreases aus.len(),
    {
        if aus.len() > 0 {
            self.lemma_intervals_count(aus.drop_last());
        }
    }

    /// This window counts what the windows `a` and then `b` count together.
    pub open spec fn joins(self, a: CadenceWindow, b: CadenceWindow) -> bool {
        &&& self.last_host_pts_ns == b.last_host_pts_ns
        &&& self.last_arrival_ns == b.last_arrival_ns
        &&& self.aus == sat_add(a.aus, b.aus as int)
        &&& self.source_intervals == sat_add(a.source_intervals, b.source_intervals as int)
        &&& self.source_ns == sat_add(a.source_ns, b.source_ns as int)
        &&& self.arrival_intervals == sat_add(a.arrival_intervals, b.arrival_intervals as int)
        &&& self.arrival_ns == sat_add(a.arrival_ns, b.arrival_ns as int)
        &&& self.delivery_delta_samples == sat_add(
            a.delivery_delta_samples,
            b.delivery_delta_samples as int,
        )
        &&& self.delivery_delta_abs_ns == sat_add(
            a.delivery_delta_abs_ns,
            b.delivery_delta_abs_ns as int,
        )
        &&& self.delivery_delta_max_ns == max_u64(
            a.delivery_delta_max_ns,
            b.delivery_delta_max_ns as int,
        )
        &&& self.max_arrival_gap_ns == max_u64(a.max_arrival_gap_ns, b.max_arrival_gap_ns as int)
        &&& self.repeated_pts == sat_add(a.repeated_pts, b.repeated_pts as int)
        &&& self.backwards_pts == sat_add(a.backwards_pts, b.backwards_pts as int)
        &&& self.pre_ndl_age_samples == sat_add(a.pre_ndl_age_samples, b.pre_ndl_age_samples as int)
        &&& self.pre_ndl_age_samples < u64::MAX ==> self.pre_ndl_age_sum_ns == a.pre_ndl_age_sum_ns
            + b.pre_ndl_age_sum_ns
        &&& self.pre_ndl_age_min_ns == min_seen(a.pre_ndl_age_min_ns, b.pre_ndl_age_min_ns)
        &&& self.pre_ndl_age_max_ns == max_seen(a.pre_ndl_age_max_ns, b.pre_ndl_age_max_ns)
    }
}

/// Whether the age of an access unit adds to a window's sum as it is.
spec fn age_adds(w: CadenceWindow, au: Arrival) -> bool {
    w.with_arrival(au).pre_ndl_age_samples < u64::MAX ==> (pre_ndl_age(
        au.pts_ns,
        au.realtime_ns,
        au.clock_offset_ns,
    ) matches Some(ns) ==> w.with_arrival(au).pre_ndl_age_sum_ns == w.pre_ndl_age_sum_ns + ns)
}

proof fn lemma_join_step(whole: CadenceWindow, a: CadenceWindow, b: CadenceWindow, au: Arrival)
    requires
        whole.joins(a, b),
        age_adds(whole, au),
        age_adds(b, au),
    ensures
        whole.with_arrival(au).joins(a, b.with_arrival(au)),
{
}

impl Tick {
    /// A stamp fires exactly once its interval has gone by since it last did.
    pub proof fn law_due(self, now_ns: u64)
        ensures
            self.interval_ns > 0 ==> (self.due_at(now_ns) <==> now_ns >= self.last_ns
                + self.interval_ns),
            self.interval_ns == 0 ==> self.due_at(now_ns),
    {
    }
}

/// An age is what lies between a frame's stamp and the host's clock, which is the wall clock moved
/// by the offset; it is known exactly where both are and it fits.
pub proof fn law_age(pts_ns: u64, realtime_ns: Option<i128>, clock_offset_ns: i64)
    ensures
        ({
            let age = pre_ndl_age(pts_ns, realtime_ns, clock_offset_ns);
            &&& age matches Some(ns) ==> clock_offset_ns != 0 && (realtime_ns matches Some(wall_ns)
                && pts_ns + ns == wall_ns + clock_offset_ns)
            &&& age is None ==> clock_offset_ns == 0 || realtime_ns is None || realtime_ns->0
                + clock_offset_ns - pts_ns > i64::MAX || realtime_ns->0 + clock_offset_ns - pts_ns
                < i64::MIN
        }),
{
}

impl CadenceWindow {
    /// An access unit that arrives `arrived_ns` after the one before, at no distance where the clock
    /// went back, and that the source stamped `stamped_ns` after it, adds one interval of each length, and one delivery delta of exactly
    /// the difference between the two, whichever is longer. The maxima rise to what was added where
    /// they were below it, and to nothing else.
    pub proof fn law_intervals(
        self,
        last_pts_ns: u64,
        last_now_ns: u64,
        au: Arrival,
        arrived_ns: u64,
        stamped_ns: u64,
    )
        requires
            self.last_host_pts_ns == Some(last_pts_ns),
            self.last_arrival_ns == Some(last_now_ns),
            au.now_ns >= last_now_ns ==> au.now_ns == last_now_ns + arrived_ns,
            au.now_ns < last_now_ns ==> arrived_ns == 0,
            au.pts_ns == last_pts_ns + stamped_ns,
            stamped_ns > 0,
        ensures
            ({
                let before = self;
                let after = self.with_arrival(au);
                let delta = if arrived_ns > stamped_ns {
                    arrived_ns - stamped_ns
                } else {
                    stamped_ns - arrived_ns
                };
                &&& before.arrival_intervals < u64::MAX ==> after.arrival_intervals
                    == before.arrival_intervals + 1
                &&& before.arrival_ns + arrived_ns <= u64::MAX ==> after.arrival_ns
                    == before.arrival_ns + arrived_ns
                &&& before.source_intervals < u64::MAX ==> after.source_intervals
                    == before.source_intervals + 1
                &&& before.source_ns + stamped_ns <= u64::MAX ==> after.source_ns
                    == before.source_ns + stamped_ns
                &&& before.delivery_delta_samples < u64::MAX ==> after.delivery_delta_samples
                    == before.delivery_delta_samples + 1
                &&& before.delivery_delta_abs_ns + delta <= u64::MAX ==> after.delivery_delta_abs_ns
                    == before.delivery_delta_abs_ns + delta
                &&& before.arrival_ns + arrived_ns > u64::MAX ==> after.arrival_ns == u64::MAX
                &&& before.source_ns + stamped_ns > u64::MAX ==> after.source_ns == u64::MAX
                &&& before.delivery_delta_abs_ns + delta > u64::MAX ==> after.delivery_delta_abs_ns
                    == u64::MAX
                &&& after.delivery_delta_max_ns >= delta
                &&& after.delivery_delta_max_ns >= before.delivery_delta_max_ns
                &&& after.delivery_delta_max_ns == delta || after.delivery_delta_max_ns
                    == before.delivery_delta_max_ns
                &&& after.max_arrival_gap_ns >= arrived_ns
                &&& after.max_arrival_gap_ns >= before.max_arrival_gap_ns
                &&& after.max_arrival_gap_ns == arrived_ns || after.max_arrival_gap_ns
                    == before.max_arrival_gap_ns
                &&& after.repeated_pts == before.repeated_pts
                &&& after.backwards_pts == before.backwards_pts
            }),
    {
    }

    /// A stamp that repeats the one before, or lies behind it, is counted as such and adds no
    /// source interval and no delivery delta; its arrival counts like any other.
    pub proof fn law_bad_stamps(
        self,
        last_pts_ns: u64,
        last_now_ns: u64,
        au: Arrival,
        arrived_ns: u64,
    )
        requires
            self.last_host_pts_ns == Some(last_pts_ns),
            self.last_arrival_ns == Some(last_now_ns),
            au.now_ns >= last_now_ns ==> au.now_ns == last_now_ns + arrived_ns,
            au.now_ns < last_now_ns ==> arrived_ns == 0,
            au.pts_ns <= last_pts_ns,
        ensures
            ({
                let before = self;
                let after = self.with_arrival(au);
                let repeats = au.pts_ns == last_pts_ns;
                &&& repeats && before.repeated_pts < u64::MAX ==> after.repeated_pts
                    == before.repeated_pts + 1
                &&& !repeats && before.backwards_pts < u64::MAX ==> after.backwards_pts
                    == before.backwards_pts + 1
                &&& repeats ==> after.backwards_pts == before.backwards_pts
                &&& !repeats ==> after.repeated_pts == before.repeated_pts
                &&& after.source_intervals == before.source_intervals
                &&& after.source_ns == before.source_ns
                &&& after.delivery_delta_samples == before.delivery_delta_samples
                &&& after.delivery_delta_abs_ns == before.delivery_delta_abs_ns
                &&& after.delivery_delta_max_ns == before.delivery_delta_max_ns
                &&& before.arrival_intervals < u64::MAX ==> after.arrival_intervals
                    == before.arrival_intervals + 1
                &&& before.arrival_ns + arrived_ns <= u64::MAX ==> after.arrival_ns
                    == before.arrival_ns + arrived_ns
                &&& after.max_arrival_gap_ns >= arrived_ns
                &&& after.max_arrival_gap_ns == arrived_ns || after.max_arrival_gap_ns
                    == before.max_arrival_gap_ns
            }),
    {
    }

    /// The very first access unit has no interval of either kind; all it adds is itself and, where
    /// it is known, its age.
    pub proof fn law_first_arrival(self, au: Arrival)
        requires
            self.last_arrival_ns is None,
            self.last_host_pts_ns is None,
        ensures
            ({
                let after = self.with_arrival(au);
                self == (CadenceWindow {
                    last_host_pts_ns: None,
                    last_arrival_ns: None,
                    aus: self.aus,
                    pre_ndl_age_samples: self.pre_ndl_age_samples,
                    pre_ndl_age_sum_ns: self.pre_ndl_age_sum_ns,
                    pre_ndl_age_min_ns: self.pre_ndl_age_min_ns,
                    pre_ndl_age_max_ns: self.pre_ndl_age_max_ns,
                    ..after
                })
            }),
    {
    }

    /// Every access unit counts once and is remembered as the last. Its age, where it is known, is
    /// added to the sum and kept between the extremes, which move no further than to it; where it
    /// is not, the ages stay as they were.
    pub proof fn law_arrival(self, au: Arrival)
        ensures
            ({
                let after = self.with_arrival(au);
                let age = pre_ndl_age(au.pts_ns, au.realtime_ns, au.clock_offset_ns);
                &&& self.aus < u64::MAX ==> after.aus == self.aus + 1
                &&& self.aus == u64::MAX ==> after.aus == u64::MAX
                &&& after.last_host_pts_ns == Some(au.pts_ns)
                &&& after.last_arrival_ns == Some(au.now_ns)
                &&& age is None ==> after.pre_ndl_age_samples == self.pre_ndl_age_samples
                    && after.pre_ndl_age_sum_ns == self.pre_ndl_age_sum_ns
                    && after.pre_ndl_age_min_ns == self.pre_ndl_age_min_ns
                    && after.pre_ndl_age_max_ns == self.pre_ndl_age_max_ns
                &&& age matches Some(ns) ==> {
                    &&& self.pre_ndl_age_samples < u64::MAX ==> after.pre_ndl_age_samples
                        == self.pre_ndl_age_samples + 1
                    &&& i128::MIN <= self.pre_ndl_age_sum_ns + ns <= i128::MAX
                        ==> after.pre_ndl_age_sum_ns == self.pre_ndl_age_sum_ns + ns
                    &&& self.pre_ndl_age_sum_ns + ns > i128::MAX ==> after.pre_ndl_age_sum_ns
                        == i128::MAX
                    &&& self.pre_ndl_age_sum_ns + ns < i128::MIN ==> after.pre_ndl_age_sum_ns
                        == i128::MIN
                    &&& after.pre_ndl_age_min_ns matches Some(least) && least <= ns
                    &&& after.pre_ndl_age_max_ns matches Some(most) && most >= ns
                    &&& after.pre_ndl_age_min_ns == Some(ns) || after.pre_ndl_age_min_ns
                        == self.pre_ndl_age_min_ns
                    &&& after.pre_ndl_age_max_ns == Some(ns) || after.pre_ndl_age_max_ns
                        == self.pre_ndl_age_max_ns
                    &&& self.pre_ndl_age_min_ns matches Some(least)
                        ==> after.pre_ndl_age_min_ns->0 <= least
                    &&& self.pre_ndl_age_max_ns matches Some(most)
                        ==> after.pre_ndl_age_max_ns->0 >= most
                }
            }),
    {
    }

    /// No counter and no sum of a window ever falls, and one without room stays at the largest.
    pub proof fn law_counters_rise(self, au: Arrival)
        ensures
            ({
                let after = self.with_arrival(au);
                &&& after.aus >= self.aus
                &&& after.source_intervals >= self.source_intervals
                &&& after.source_ns >= self.source_ns
                &&& after.arrival_intervals >= self.arrival_intervals
                &&& after.arrival_ns >= self.arrival_ns
                &&& after.delivery_delta_samples >= self.delivery_delta_samples
                &&& after.delivery_delta_abs_ns >= self.delivery_delta_abs_ns
                &&& after.delivery_delta_max_ns >= self.delivery_delta_max_ns
                &&& after.max_arrival_gap_ns >= self.max_arrival_gap_ns
                &&& after.repeated_pts >= self.repeated_pts
                &&& after.backwards_pts >= self.backwards_pts
                &&& after.pre_ndl_age_samples >= self.pre_ndl_age_samples
            }),
    {
    }

    /// Closing a window hands out every counter as it is and leaves a window that keeps the two
    /// last stamps and nothing else: putting the counters back gives the old window again.
    pub proof fn law_take(self)
        ensures
            ({
                let out = self.snapshot();
                let left = self.cleared();
                &&& self == (CadenceWindow {
                    aus: out.aus,
                    source_intervals: out.source_intervals,
                    source_ns: out.source_ns,
                    arrival_intervals: out.arrival_intervals,
                    arrival_ns: out.arrival_ns,
                    delivery_delta_samples: out.delivery_delta_samples,
                    delivery_delta_abs_ns: out.delivery_delta_abs_ns,
                    delivery_delta_max_ns: out.delivery_delta_max_ns,
                    max_arrival_gap_ns: out.max_arrival_gap_ns,
                    repeated_pts: out.repeated_pts,
                    backwards_pts: out.backwards_pts,
                    pre_ndl_age_samples: out.pre_ndl_age_samples,
                    pre_ndl_age_sum_ns: out.pre_ndl_age_sum_ns,
                    pre_ndl_age_min_ns: out.pre_ndl_age_min_ns,
                    pre_ndl_age_max_ns: out.pre_ndl_age_max_ns,
                    ..left
                })
                &&& left.snapshot() == empty_window().snapshot()
                &&& left.aus == 0 && left.source_intervals == 0 && left.source_ns == 0
                &&& left.arrival_intervals == 0 && left.arrival_ns == 0
                &&& left.delivery_delta_samples == 0 && left.delivery_delta_abs_ns == 0
                &&& left.delivery_delta_max_ns == 0 && left.max_arrival_gap_ns == 0
                &&& left.repeated_pts == 0 && left.backwards_pts == 0
                &&& left.pre_ndl_age_samples == 0 && left.pre_ndl_age_sum_ns == 0
                &&& left.pre_ndl_age_min_ns is None && left.pre_ndl_age_max_ns is None
                &&& empty_window().last_arrival_ns is None
                &&& empty_window().last_host_pts_ns is None
            }),
    {
    }
}

} // verus!
