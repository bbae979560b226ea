//! The search for an integration time, and the test of a reading's spread.
//!
//! A filter pass takes samples until it holds three of them at one
//! integration time. Where no time is known for the star and filter yet, the
//! pass first looks for one that brings the count near [`TARGET`].

use vstd::prelude::*;

verus! {

/// The count that the search aims at.
pub const TARGET: u16 = 5000;

/// The integration time that follows a count which did not rise.
pub const FALLBACK_TIME: u16 = 3000;

/// Added to the starting guess after the first sample fell short.
pub const FIRST_STEP: u16 = 500;

/// The integration time that a search starts from, in milliseconds.
pub open spec fn starting_guess_of(filter: u8) -> u16 {
    if filter < 2 {
        2000
    } else {
        1000
    }
}

pub fn starting_guess(filter: u8) -> (time: u16)
    ensures
        time == starting_guess_of(filter),
{
    if filter < 2 {
        2000
    } else {
        1000
    }
}

/// The number of 100 ms steps by which the guess should grow, judged from
/// the reference count and a later, larger count: five times the distance of
/// the reference from the target, divided by the rise, rounded down.
pub open spec fn delta(reference: int, counts: int) -> int
    recommends
        reference < counts,
{
    5 * (TARGET - reference) / (counts - reference)
}

/// A time in milliseconds as the instrument's requests carry it: values that
/// 16 bits cannot hold become the largest that they can.
pub open spec fn clamp_time(time: int) -> u16 {
    if time > u16::MAX {
        u16::MAX
    } else if time < 0 {
        0
    } else {
        time as u16
    }
}

/// The samples and the integration time of one pass through one filter.
#[derive(Clone, Copy, Debug, PartialEq, Eq, Structural)]
pub struct Pass {
    /// The time that the pass began with: the one known for the star and
    /// filter, or the starting guess.
    pub seed: u16,
    /// The time of the request that is under way.
    pub time: u16,
    /// Whether the pass is still looking for its time.
    pub calibrating: bool,
    /// Whether the pass had to look for its time.
    pub calibrated: bool,
    /// The first count of the search, which later counts are held against.
    pub reference: Option<u16>,
    /// How many of the three samples are kept.
    pub taken: u8,
    pub count1: u16,
    pub count2: u16,
    pub count3: u16,
}

impl Pass {
    /// A pass before its first request.
    pub open spec fn begin_spec(known: Option<u16>, filter: u8) -> Pass {
        match known {
            Some(time) => Pass {
                seed: time,
                time,
                calibrating: false,
                calibrated: false,
                reference: None,
                taken: 0,
                count1: 0,
                count2: 0,
                count3: 0,
            },
            None => Pass {
                seed: starting_guess_of(filter),
                time: starting_guess_of(filter),
                calibrating: true,
                calibrated: true,
                reference: None,
                taken: 0,
                count1: 0,
                count2: 0,
                count3: 0,
            },
        }
    }

    /// The pass once more, after its reading was dropped: at the time that
    /// it stands at, without a search and with no sample kept. Whether the
    /// time had to be looked for stays on record.
    pub open spec fn retake_spec(self) -> Pass {
        Pass {
            seed: self.time,
            calibrating: false,
            reference: None,
            taken: 0,
            count1: 0,
            count2: 0,
            count3: 0,
            ..self
        }
    }

    pub open spec fn wf(self) -> bool {
        &&& self.taken <= 3
        &&& self.calibrating ==> self.taken == 0 && self.calibrated
        &&& self.calibrating && self.reference is Some ==> self.reference->0 <= TARGET
    }

    /// Three samples are kept.
    pub open spec fn complete(self) -> bool {
        !self.calibrating && self.taken == 3
    }

    /// The search ends with `counts` as the first of the three samples.
    pub open spec fn settle(self, counts: u16) -> Pass {
        Pass { calibrating: false, taken: 1, count1: counts, ..self }
    }

    /// `counts` becomes the next of the three samples.
    pub open spec fn keep(self, counts: u16) -> Pass {
        if self.taken == 0 {
            Pass { taken: 1, count1: counts, ..self }
        } else if self.taken == 1 {
            Pass { taken: 2, count2: counts, ..self }
        } else {
            Pass { taken: 3, count3: counts, ..self }
        }
    }

    /// The pass after the instrument answered the request under way with
    /// `counts`.
    ///
    /// While the pass looks for its time: a first count above the target
    /// ends the search; any other first count becomes the reference, and
    /// the guess grows by [`FIRST_STEP`]. A later count that does not exceed
    /// the reference sends the guess to [`FALLBACK_TIME`]. One that does is
    /// judged by [`delta`]: where that is positive the guess becomes the
    /// seed plus 100 ms for each step, and where it is not the search ends.
    /// A count that ends the search is the first sample. After the search
    /// every count is the next sample, taken at the time the search ended on.
    pub open spec fn sample_spec(self, counts: u16) -> Pass {
        if self.calibrating {
            match self.reference {
                None => if counts > TARGET {
                    self.settle(counts)
                } else {
                    Pass {
                        reference: Some(counts),
                        time: clamp_time(self.seed + FIRST_STEP),
                        ..self
                    }
                },
                Some(reference) => if counts <= reference {
                    Pass { time: FALLBACK_TIME, ..self }
                } else if delta(reference as int, counts as int) > 0 {
                    Pass {
                        time: clamp_time(
                            self.seed + 100 * delta(reference as int, counts as int),
                        ),
                        ..self
                    }
                } else {
                    self.settle(counts)
                },
            }
        } else {
            self.keep(counts)
        }
    }

    /// Whether the three samples lie within one percent of their mean.
    pub open spec fn steady(self) -> bool {
        stable(self.count1 as int, self.count2 as int, self.count3 as int)
    }

    pub fn begin(known: Option<u16>, filter: u8) -> (pass: Pass)
        ensures
            pass == Pass::begin_spec(known, filter),
            pass.wf(),
    {
        match known {
            Some(time) => Pass {
                seed: time,
                time,
                calibrating: false,
                calibrated: false,
                reference: None,
                taken: 0,
                count1: 0,
                count2: 0,
                count3: 0,
            },
            None => {
                let guess: u16 = starting_guess(filter);
                Pass {
                    seed: guess,
                    time: guess,
                    calibrating: true,
                    calibrated: true,
                    reference: None,
                    taken: 0,
                    count1: 0,
                    count2: 0,
                    count3: 0,
                }
            },
        }
    }

    pub fn retake(&self) -> (pass: Pass)
        ensures
            pass == self.retake_spec(),
            pass.wf(),
    {
        Pass {
            seed: self.time,
            time: self.time,
            calibrating: false,
            calibrated: self.calibrated,
            reference: None,
            taken: 0,
            count1: 0,
            count2: 0,
            count3: 0,
        }
    }

    pub fn is_complete(&self) -> (done: bool)
        ensures
            done == self.complete(),
    {
        !self.calibrating && self.taken == 3
    }

    pub fn sample(&self, counts: u16) -> (next: Pass)
        requires
            self.wf(),
        ensures
            next == self.sample_spec(counts),
            next.wf(),
    {
        let mut next: Pass = *self;
        if self.calibrating {
            match self.reference {
                None => {
                    if counts > TARGET {
                        next.calibrating = false;
                        next.taken = 1;
                        next.count1 = counts;
                    } else {
                        next.reference = Some(counts);
                        next.time = add_time(self.seed, FIRST_STEP as u32);
                    }
                },
                Some(reference) => {
                    if counts <= reference {
                        next.time = FALLBACK_TIME;
                    } else {
                        let steps: u32 = 5 * (TARGET - reference) as u32 / (counts - reference) as u32;
                        if steps > 0 {
                            assert(100 * steps <= 2_500_000) by (nonlinear_arith)
                                requires
                                    steps <= 25_000,
                            ;
                            next.time = add_time(self.seed, 100 * steps);
                        } else {
                            next.calibrating = false;
                            next.taken = 1;
                            next.count1 = counts;
                        }
                    }
                },
            }
        } else if self.taken == 0 {
            next.taken = 1;
            next.count1 = counts;
        } else if self.taken == 1 {
            next.taken = 2;
            next.count2 = counts;
        } else {
            next.taken = 3;
            next.count3 = counts;
        }
        next
    }

    pub fn is_steady(&self) -> (steady: bool)
        ensures
            steady == self.steady(),
    {
        is_stable(self.count1, self.count2, self.count3)
    }
}

fn add_time(seed: u16, grow: u32) -> (time: u16)
    requires
        grow <= 2_500_000,
    ensures
        time == clamp_time(seed + grow),
{
    let sum: u32 = seed as u32 + grow;
    if sum > 65535 {
        u16::MAX
    } else {
        sum as u16
    }
}

pub open spec fn min3(a: int, b: int, c: int) -> int {
    if a <= b && a <= c {
        a
    } else if b <= c {
        b
    } else {
        c
    }
}

pub open spec fn max3(a: int, b: int, c: int) -> int {
    if a >= b && a >= c {
        a
    } else if b >= c {
        b
    } else {
        c
    }
}

/// Whether neither the smallest of three counts lies below 99 % of their
/// mean nor the largest above 101 % of it. With the mean a third of the sum,
/// both sides are multiplied by 300 to stay within the integers.
pub open spec fn stable(a: int, b: int, c: int) -> bool {
    &&& 300 * min3(a, b, c) >= 99 * (a + b + c)
    &&& 300 * max3(a, b, c) <= 101 * (a + b + c)
}

pub fn is_stable(a: u16, b: u16, c: u16) -> (steady: bool)
    ensures
        steady == stable(a as int, b as int, c as int),
{
    let low: u16 = if a <= b && a <= c {
        a
    } else if b <= c {
        b
    } else {
        c
    };
    let high: u16 = if a >= b && a >= c {
        a
    } else if b >= c {
        b
    } else {
        c
    };
    let sum: u32 = a as u32 + b as u32 + c as u32;
    300 * (low as u32) >= 99 * sum && 300 * (high as u32) <= 101 * sum
}

/// The instant halfway between two instants, rounded down.
pub open spec fn midpoint_of(start: int, end: int) -> int {
    start + (end - start) / 2
}

pub fn midpoint(start: i64, end: i64) -> (middle: i64)
    ensures
        middle == midpoint_of(start as int, end as int),
{
    let span: i128 = end as i128 - start as i128;
    let half: i128 = if span >= 0 {
        span / 2
    } else {
        -((1 - span) / 2)
    };
    (start as i128 + half) as i64
}

/// A search moves its guess by steps only while [`delta`] is positive. A
/// count for which it is not ends the search: the time stays as it was for
/// that count, and the count is the first of the three samples.
pub proof fn law_search_follows_delta(pass: Pass, counts: u16)
    requires
        pass.wf(),
        pass.calibrating,
        pass.reference is Some,
        counts > pass.reference->0,
    ensures
        ({
            let next = pass.sample_spec(counts);
            let steps = delta(pass.reference->0 as int, counts as int);
            &&& steps >= 0
            &&& steps > 0 ==> next.calibrating && next.taken == 0 && next.time == clamp_time(
                pass.seed + 100 * steps,
            )
            &&& steps <= 0 ==> !next.calibrating && next.time == pass.time && next.taken == 1
                && next.count1 == counts
        }),
{
    let reference = pass.reference->0 as int;
    assert(5 * (TARGET - reference) / (counts - reference) >= 0) by (nonlinear_arith)
        requires
            reference <= TARGET,
            counts > reference,
    ;
}

/// A search ends on its first count if that is above the target, and on a
/// later count if that is above the reference and [`delta`] is not
/// positive; on no other count. The count that ends it is kept, and the
/// time is not changed by it.
pub proof fn law_search_ends(pass: Pass, counts: u16)
    requires
        pass.wf(),
        pass.calibrating,
    ensures
        ({
            let next = pass.sample_spec(counts);
            &&& !next.calibrating <==> (match pass.reference {
                None => counts > TARGET,
                Some(reference) => counts > reference && delta(reference as int, counts as int)
                    <= 0,
            })
            &&& !next.calibrating ==> next.time == pass.time && next.taken == 1 && next.count1
                == counts
            &&& next.seed == pass.seed
            &&& next.calibrated
        }),
{
}

/// After the search, a count never changes the time, and never starts a
/// search again: it is the next sample.
pub proof fn law_no_search_after_the_end(pass: Pass, counts: u16)
    requires
        pass.wf(),
        !pass.calibrating,
        pass.taken < 3,
    ensures
        ({
            let next = pass.sample_spec(counts);
            &&& !next.calibrating
            &&& next.time == pass.time
            &&& next.taken == pass.taken + 1
        }),
{
}

/// A pass with a known time takes its three samples at that time and
/// looks for no other.
pub proof fn law_known_time_is_used(time: u16, filter: u8)
    ensures
        !Pass::begin_spec(Some(time), filter).calibrating,
        !Pass::begin_spec(Some(time), filter).calibrated,
        Pass::begin_spec(Some(time), filter).time == time,
{
}

/// Three counts are stable exactly if each of them lies within one
/// percent of their mean, in whatever order they come. Three equal counts
/// are stable.
pub proof fn law_stable_means_each_within_one_percent(a: int, b: int, c: int)
    ensures
        stable(a, b, c) <==> {
            &&& 99 * (a + b + c) <= 300 * a <= 101 * (a + b + c)
            &&& 99 * (a + b + c) <= 300 * b <= 101 * (a + b + c)
            &&& 99 * (a + b + c) <= 300 * c <= 101 * (a + b + c)
        },
        stable(a, b, c) == stable(b, a, c),
        stable(a, b, c) == stable(a, c, b),
        a >= 0 ==> stable(a, a, a),
{
}

} // verus!
