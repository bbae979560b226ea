//! What holds of whole runs, whatever the instrument and the operator do.
//!
//! A run is driven by a sequence of signals, each with the time at which
//! it came. The statements here are proved of [`Progress::step`], which
//! [`crate::measurement::State::step_at`] is proved to follow.

use vstd::prelude::*;
use crate::calibration::stable;
use crate::common::Plan;
use crate::measurement::{Effect, Progress, Reply, Signal, SspRequest, Stage};

verus! {

impl Progress {
    /// The run after these signals, and what it asked for, in order. A
    /// signal that the run does not wait for is passed over.
    pub open spec fn run(self, signals: Seq<(Signal, int)>) -> (Progress, Seq<Effect>)
        decreases signals.len(),
    {
        if signals.len() == 0 {
            (self, Seq::empty())
        } else {
            let (before, effects) = self.run(signals.drop_last());
            let (signal, now) = signals.last();
            if before.accepts(signal) {
                (before.step(signal, now).0, effects.push(before.step(signal, now).1))
            } else {
                (before, effects)
            }
        }
    }

    /// The number of readings that the run has handed to the log, told
    /// from where it stands: each visit before this one gave one reading
    /// for every filter, and this visit one for every filter before the
    /// one under way, and for that one too once its reading is out.
    pub open spec fn readings_due(self) -> int {
        let visits = 2 * self.star_index + if self.sky {
            1int
        } else {
            0int
        };
        visits * self.plan.filters.len() + self.filter_index + if self.stage == Stage::Recording {
            1int
        } else {
            0int
        }
    }
}

/// How many of the effects are readings for the log.
pub open spec fn records(effects: Seq<Effect>) -> int
    decreases effects.len(),
{
    if effects.len() == 0 {
        0
    } else {
        records(effects.drop_last()) + if effects.last() is Record {
            1int
        } else {
            0int
        }
    }
}

proof fn lemma_next_visit(visits: int, filters: int)
    ensures
        visits * filters + filters == (visits + 1) * filters,
{
    assert(visits * filters + filters == (visits + 1) * filters) by (nonlinear_arith);
}

/// A step keeps a run well formed, and hands out a reading exactly
/// where the count of [`Progress::readings_due`] goes up by one. Only a
/// run that ends early may lose count.
pub proof fn law_step_counts_readings(before: Progress, signal: Signal, now: int)
    requires
        before.wf(),
        before.accepts(signal),
    ensures
        before.step(signal, now).0.wf(),
        before.step(signal, now).0.plan == before.plan,
        before.step(signal, now).0.stage != Stage::Aborted ==> before.step(
            signal,
            now,
        ).0.readings_due() == before.readings_due() + if before.step(signal, now).1 is Record {
            1int
        } else {
            0int
        },
{
    let filters = before.plan.filters.len() as int;
    let visits = 2 * before.star_index + if before.sky {
        1int
    } else {
        0int
    };
    lemma_next_visit(visits, filters);
}

/// A run that waits for nothing more stays as it is.
pub proof fn law_ended_run_stays(before: Progress, signals: Seq<(Signal, int)>)
    requires
        before.stage == Stage::Aborted || before.stage == Stage::Finished,
    ensures
        before.run(signals) == (before, Seq::<Effect>::empty()),
    decreases signals.len(),
{
    if signals.len() > 0 {
        law_ended_run_stays(before, signals.drop_last());
    }
}

/// However a run goes on, it stays well formed, and as long as it has
/// not ended early, the readings it handed out are those that its place
/// in the plan accounts for.
pub proof fn law_run_counts_readings(before: Progress, signals: Seq<(Signal, int)>)
    requires
        before.wf(),
    ensures
        before.run(signals).0.wf(),
        before.run(signals).0.plan == before.plan,
        before.run(signals).0.stage != Stage::Aborted ==> records(before.run(signals).1)
            == before.run(signals).0.readings_due() - before.readings_due(),
    decreases signals.len(),
{
    if signals.len() > 0 {
        let (middle, effects) = before.run(signals.drop_last());
        let (signal, now) = signals.last();
        law_run_counts_readings(before, signals.drop_last());
        if middle.accepts(signal) {
            law_step_counts_readings(middle, signal, now);
            assert(effects.push(middle.step(signal, now).1).drop_last() =~= effects);
        }
    }
}

/// A run that came to its regular end has handed to the log one reading
/// for each star, each filter, and each of the two visits (the star and
/// its sky): twice the stars times the filters.
pub proof fn law_finished_run_records_all(plan: Plan, signals: Seq<(Signal, int)>)
    requires
        plan.valid(),
        Progress::initial(plan).run(signals).0.stage == Stage::Finished,
    ensures
        records(Progress::initial(plan).run(signals).1) == 2 * plan.items.len()
            * plan.filters.len(),
{
    let start = Progress::initial(plan);
    assert(start.wf());
    assert(start.readings_due() == 0) by (nonlinear_arith)
        requires
            start.readings_due() == (2 * 0 + 0) * start.plan.filters.len() + 0 + 0,
    ;
    law_run_counts_readings(start, signals);
    let end = start.run(signals).0;
    assert(end.readings_due() == 2 * plan.items.len() * plan.filters.len()) by (nonlinear_arith)
        requires
            end.readings_due() == (2 * end.star_index + 0) * end.plan.filters.len() + 0 + 0,
            end.star_index == plan.items.len(),
            end.plan.filters.len() == plan.filters.len(),
    ;
}

/// A reading goes to the log only from a pass that holds its three
/// samples, and, where the star itself was measured, only if they lie
/// within one percent of their mean. It carries the star and filter under
/// way and the integration time of its samples.
pub proof fn law_only_steady_readings(before: Progress, signal: Signal, now: int)
    requires
        before.wf(),
        before.accepts(signal),
        before.step(signal, now).1 is Record,
    ensures
        ({
            let reading = before.step(signal, now).1->Record_0;
            let after = before.step(signal, now).0;
            &&& before.stage == Stage::Stabilizing
            &&& signal matches Signal::Response(Reply::Counts(counts))
            &&& after.pass.complete()
            &&& reading == after.reading(now)
            &&& reading.count3 == counts
            &&& reading.is_star ==> stable(
                reading.count1 as int,
                reading.count2 as int,
                reading.count3 as int,
            )
        }),
{
}

/// The place in the plan never goes back: the star under way only
/// moves on, and so does the count of readings of a run that goes on.
pub proof fn law_no_step_back(before: Progress, signal: Signal, now: int)
    requires
        before.wf(),
        before.accepts(signal),
    ensures
        before.step(signal, now).0.star_index >= before.star_index,
        before.step(signal, now).0.stage != Stage::Aborted ==> before.step(
            signal,
            now,
        ).0.readings_due() >= before.readings_due(),
{
    law_step_counts_readings(before, signal, now);
}

/// Every count is asked for through one of the six filters, by the
/// number that the instrument knows it under, and at the time of the pass
/// under way. A run asks for something to be set up or measured only
/// while it goes on: a run that has ended asks for nothing.
pub proof fn law_requests_name_a_filter(before: Progress, signal: Signal, now: int)
    requires
        before.wf(),
        before.accepts(signal),
        before.step(signal, now).1 is Request,
    ensures
        ({
            let after = before.step(signal, now).0;
            match before.step(signal, now).1->Request_0 {
                SspRequest::Init => before.stage == Stage::Ready && after.stage
                    == Stage::Initializing,
                SspRequest::Measure(filter, time) => {
                    &&& after.stage == Stage::Calibrating || after.stage == Stage::Stabilizing
                    &&& 1 <= filter <= 6
                    &&& filter == after.filter() + 1
                    &&& time == after.pass.time
                },
                SspRequest::Finish => false,
            }
        }),
{
    let after = before.step(signal, now).0;
    if after.filter_index < after.plan.filters.len() {
        assert(after.plan.filters[after.filter_index as int] <= 5);
    }
}

/// Once a pass has its integration time, every further count of the pass
/// is asked for at that time, and is kept as the next sample: a pass
/// never looks for its time again.
pub proof fn law_settled_time_is_kept(before: Progress, counts: u16, now: int)
    requires
        before.wf(),
        before.stage == Stage::Stabilizing,
    ensures
        ({
            let (after, effect) = before.step(
                Signal::Response(Reply::Counts(counts)),
                now,
            );
            &&& after.pass.time == before.pass.time
            &&& after.pass.taken == before.pass.taken + 1
            &&& !after.pass.calibrating
            &&& after.stage != Stage::Calibrating
            &&& effect is Request ==> effect == Effect::Request(
                SspRequest::Measure((before.filter() + 1) as u8, before.pass.time),
            ) && after.pass.taken < 3
        }),
{
}

impl Progress {
    /// The run is over, one way or the other.
    pub open spec fn ended(self) -> bool {
        self.stage == Stage::Finished || self.stage == Stage::Aborted
    }
}

/// How many of the effects say that the run is over.
pub open spec fn endings(effects: Seq<Effect>) -> int
    decreases effects.len(),
{
    if effects.len() == 0 {
        0
    } else {
        endings(effects.drop_last()) + if effects.last() is Complete || effects.last() is Abort {
            1int
        } else {
            0int
        }
    }
}

/// A step ends the run exactly where it says so. A run that ends for a
/// fault tells the worker to finish unless the channel to it is closed; a
/// run that ends without a fault has measured every star, or was
/// cancelled by the operator.
pub proof fn law_step_ends_with_a_word(before: Progress, signal: Signal, now: int)
    requires
        before.wf(),
        before.accepts(signal),
    ensures
        !before.ended(),
        before.step(signal, now).0.ended() <==> before.step(signal, now).1 is Complete
            || before.step(signal, now).1 is Abort,
        before.step(signal, now).1 matches Effect::Abort { finish, .. } ==> finish == !(
        signal is ChannelClosed),
        before.step(signal, now).1 is Complete ==> before.step(signal, now).0.stage
            == Stage::Finished || signal == (Signal::Operator { proceed: false }),
{
}

/// However a run goes on, it says once that it is over, when it is, and
/// not before.
pub proof fn law_run_ends_once(before: Progress, signals: Seq<(Signal, int)>)
    requires
        before.wf(),
        !before.ended(),
    ensures
        endings(before.run(signals).1) == if before.run(signals).0.ended() {
            1int
        } else {
            0int
        },
    decreases signals.len(),
{
    if signals.len() > 0 {
        let (middle, effects) = before.run(signals.drop_last());
        let (signal, now) = signals.last();
        law_run_ends_once(before, signals.drop_last());
        law_run_counts_readings(before, signals.drop_last());
        if middle.accepts(signal) {
            law_step_ends_with_a_word(middle, signal, now);
            assert(effects.push(middle.step(signal, now).1).drop_last() =~= effects);
        }
    }
}

/// An integration time, once kept for a star and a filter, stays for
/// the run: no step takes it away or changes it. A step keeps a time only
/// with a reading for the log, from a pass that had to look for its time:
/// for the star and filter of that reading, and at the time of its
/// samples. A step that hands out no reading leaves the times as they are;
/// so does the step that drops a reading.
pub proof fn law_found_times_stay(before: Progress, signal: Signal, now: int)
    requires
        before.wf(),
        before.accepts(signal),
    ensures
        ({
            let (after, effect) = before.step(signal, now);
            &&& forall|key: (Seq<char>, u8)| #[trigger]
                before.cache.contains_key(key) ==> after.cache.contains_key(key)
                    && after.cache[key] == before.cache[key]
            &&& forall|key: (Seq<char>, u8)|
                #[trigger] after.cache.contains_key(key) && !before.cache.contains_key(key) ==> {
                    &&& effect is Record
                    &&& key == (effect->Record_0.star_id, before.filter())
                    &&& after.cache[key] == effect->Record_0.integration_time
                    &&& after.pass.calibrated
                }
            &&& !(effect is Record) ==> after.cache == before.cache
            &&& effect is Record ==> after.cache == if after.pass.calibrated {
                before.cache.insert((before.star_name(), before.filter()), after.pass.time)
            } else {
                before.cache
            }
        }),
{
}

/// A reading of a star whose samples spread beyond one percent of their
/// mean is dropped: the operator is asked to center the star again,
/// nothing goes to the log, the times kept, the star, the filter and the
/// visit stay as they are, and the run goes on. Once the operator has
/// centered the star, the same filter is passed once more at the time of
/// the dropped reading, without a search; the reading that is logged at
/// last keeps that time, if the pass had to look for it.
pub proof fn law_dropped_reading_keeps_nothing(before: Progress, counts: u16, now: int, later: int)
    requires
        before.wf(),
        before.stage == Stage::Stabilizing,
        before.pass.taken == 2,
        !before.sky,
        !stable(before.pass.count1 as int, before.pass.count2 as int, counts as int),
    ensures
        ({
            let (dropped, effect) = before.step(Signal::Response(Reply::Counts(counts)), now);
            let (again, request) = dropped.step(Signal::Operator { proceed: true }, later);
            &&& effect == Effect::Confirm(crate::measurement::recenter_prompt())
            &&& dropped.stage == Stage::AwaitingRecenter
            &&& dropped.cache == before.cache
            &&& dropped.star_index == before.star_index
            &&& dropped.filter_index == before.filter_index
            &&& dropped.sky == before.sky
            &&& dropped.readings_due() == before.readings_due()
            &&& dropped.pass.time == before.pass.time
            &&& again.stage == Stage::Stabilizing
            &&& again.cache == before.cache
            &&& again.pass.time == before.pass.time
            &&& again.pass.calibrated == before.pass.calibrated
            &&& again.pass.taken == 0
            &&& again.started == later
            &&& request == Effect::Request(
                SspRequest::Measure((before.filter() + 1) as u8, before.pass.time),
            )
            &&& dropped.step(Signal::Operator { proceed: false }, later) == (
                Progress { stage: Stage::Aborted, ..dropped },
                Effect::Complete,
            )
        }),
{
}

/// A pass looks for an integration time exactly where none is known for
/// its star and filter; stars of one name share what is known, whatever
/// their kind. A pass for which a time is known takes its samples at it.
pub proof fn law_pass_uses_known_time(before: Progress, now: int)
    requires
        before.wf(),
        before.filter_index < before.plan.filters.len(),
    ensures
        ({
            let after = before.enter_filter(now).0;
            let key = (before.star_name(), before.filter());
            &&& after.pass.calibrating <==> !before.cache.contains_key(key)
            &&& before.cache.contains_key(key) ==> after.pass.time == before.cache[key]
                && after.stage == Stage::Stabilizing
            &&& !before.cache.contains_key(key) ==> after.pass.time
                == crate::calibration::starting_guess_of(before.filter()) && after.stage
                == Stage::Calibrating
            &&& before.enter_filter(now).1 == Effect::Request(
                SspRequest::Measure((before.filter() + 1) as u8, after.pass.time),
            )
        }),
{
}

} // verus!
