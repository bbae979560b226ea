//! The sequencing of a run: stars, filters, sky readings and the operator.
//!
//! A run visits each star of its plan twice, first for the light of the
//! star and next for the sky beside it, and on each visit takes one reading
//! through each filter. [`State`] holds where the run stands. It is moved
//! on by [`State::step`], which takes what happened last (an answer of the
//! instrument's worker, of the operator or of the log) and gives what is to
//! be done next. What the steps do is laid down once, on plain values, by
//! [`Progress::step`].

use vstd::prelude::*;
use vstd::string::StringExecFns;
use crate::calibration::{midpoint, midpoint_of, Pass};
use crate::common::{filter_label, filter_label_of, PepRun, Plan};
use crate::ssp3::{fault_text, Error, Fault};

verus! {

/// What the run asks of the instrument's worker.
#[derive(Clone, Copy, Debug, PartialEq, Eq, Structural)]
pub enum SspRequest {
    Init,
    /// A count through the filter of this number (1 to 6) over this many
    /// milliseconds.
    Measure(u8, u16),
    Finish,
}

/// What the worker answers.
#[derive(Debug, PartialEq, Eq)]
pub enum SspResponse {
    /// The instrument did what was asked.
    Done,
    Error(Error),
    Counts(u16),
}

/// The model of an answer: what contracts say of an [`SspResponse`].
pub enum Reply {
    Done,
    Error(Fault),
    Counts(u16),
}

impl View for SspResponse {
    type V = Reply;

    open spec fn view(&self) -> Reply {
        match self {
            SspResponse::Done => Reply::Done,
            SspResponse::Error(error) => Reply::Error(error@),
            SspResponse::Counts(counts) => Reply::Counts(*counts),
        }
    }
}

/// One accepted reading: three counts of one star or its sky through one
/// filter.
#[derive(Debug, Clone, PartialEq, Eq)]
pub struct Measurement {
    /// The middle of the exposure, in microseconds since 1970 (UTC).
    pub timestamp: i64,
    /// The place of the star in the plan, from 0.
    pub index: usize,
    pub star_id: String,
    pub star_type: String,
    /// Whether the telescope pointed at the star and not at the sky.
    pub is_star: bool,
    pub filter: char,
    pub integration_time: u16,
    pub count1: u16,
    pub count2: u16,
    pub count3: u16,
}

/// The model of a reading: what contracts say of a [`Measurement`].
pub struct Reading {
    pub timestamp: int,
    pub index: nat,
    pub star_id: Seq<char>,
    pub star_type: Seq<char>,
    pub is_star: bool,
    pub filter: char,
    pub integration_time: u16,
    pub count1: u16,
    pub count2: u16,
    pub count3: u16,
}

impl View for Measurement {
    type V = Reading;

    open spec fn view(&self) -> Reading {
        Reading {
            timestamp: self.timestamp as int,
            index: self.index as nat,
            star_id: self.star_id@,
            star_type: self.star_type@,
            is_star: self.is_star,
            filter: self.filter,
            integration_time: self.integration_time,
            count1: self.count1,
            count2: self.count2,
            count3: self.count3,
        }
    }
}

/// What happened since the last step.
#[derive(Debug, PartialEq, Eq)]
pub enum Event {
    /// The run is to begin.
    Start,
    /// The worker answered the request.
    Response(SspResponse),
    /// The request could not be sent (`sending`), or no answer came.
    ChannelClosed { sending: bool },
    /// The operator answered the question.
    Operator { proceed: bool },
    /// The reading is in the log.
    Recorded,
    /// The log did not take the reading.
    SinkFailed(String),
}

/// The model of an event: what contracts say of an [`Event`].
pub enum Signal {
    Start,
    Response(Reply),
    ChannelClosed { sending: bool },
    Operator { proceed: bool },
    Recorded,
    SinkFailed(Seq<char>),
}

impl View for Event {
    type V = Signal;

    open spec fn view(&self) -> Signal {
        match self {
            Event::Start => Signal::Start,
            Event::Response(response) => Signal::Response(response@),
            Event::ChannelClosed { sending } => Signal::ChannelClosed { sending: *sending },
            Event::Operator { proceed } => Signal::Operator { proceed: *proceed },
            Event::Recorded => Signal::Recorded,
            Event::SinkFailed(text) => Signal::SinkFailed(text@),
        }
    }
}

/// What is to be done next.
#[derive(Debug, PartialEq, Eq)]
pub enum Action {
    /// Send the request to the worker and wait for its one answer.
    Request(SspRequest),
    /// Ask the operator to go on or to cancel, with these words.
    Confirm(String),
    /// Put the reading into the log.
    Record(Measurement),
    /// The run is over: send [`SspRequest::Finish`] to the worker and
    /// signal the end.
    Complete,
    /// The run failed: send [`SspRequest::Finish`] to the worker if
    /// `finish` is set, show the error, and signal the end once the
    /// operator has seen it.
    Abort { finish: bool, title: String, message: String },
}

/// The model of an action: what contracts say of an [`Action`].
pub enum Effect {
    Request(SspRequest),
    Confirm(Seq<char>),
    Record(Reading),
    Complete,
    Abort { finish: bool, title: Seq<char>, message: Seq<char> },
}

impl View for Action {
    type V = Effect;

    open spec fn view(&self) -> Effect {
        match self {
            Action::Request(request) => Effect::Request(*request),
            Action::Confirm(prompt) => Effect::Confirm(prompt@),
            Action::Record(measurement) => Effect::Record(measurement@),
            Action::Complete => Effect::Complete,
            Action::Abort { finish, title, message } => Effect::Abort {
                finish: *finish,
                title: title@,
                message: message@,
            },
        }
    }
}

/// Where a run stands.
#[derive(Clone, Copy, Debug, PartialEq, Eq, Structural)]
pub enum Stage {
    /// Not begun.
    Ready,
    /// Waiting for the worker to have set up the instrument.
    Initializing,
    /// Waiting for the operator to have pointed the telescope.
    AwaitingGoAhead,
    /// Waiting for the operator to have centered the star again, after a
    /// reading of it was dropped.
    AwaitingRecenter,
    /// Waiting for a count, while looking for the integration time.
    Calibrating,
    /// Waiting for a count, one of the three of the reading.
    Stabilizing,
    /// Waiting for the log to have taken the reading.
    Recording,
    /// Every star was measured.
    Finished,
    /// The run ended early: the operator cancelled, or something failed.
    Aborted,
}

/// The question before the light of a star is measured.
pub open spec fn star_prompt(name: Seq<char>) -> Seq<char> {
    "Go to "@ + name
}

/// The question before the sky beside a star is measured.
pub open spec fn sky_prompt() -> Seq<char> {
    "Go to sky"@
}

/// The question after a reading of a star that spread too far.
pub open spec fn recenter_prompt() -> Seq<char> {
    "Deviation > 1%. Please re-center."@
}

/// The model of a run, of which contracts say what they say of a
/// [`State`]: the plan, the integration times
/// kept so far, by star name and filter code, and the place in the plan.
#[verifier::ext_equal]
pub struct Progress {
    pub plan: Plan,
    pub cache: Map<(Seq<char>, u8), u16>,
    /// The star under way, from 0; the number of stars once all are done.
    pub star_index: nat,
    /// The filter under way, counted along the plan's list from 0.
    pub filter_index: nat,
    /// Whether the sky beside the star is under way, and not the star.
    pub sky: bool,
    pub stage: Stage,
    /// The samples of the filter under way.
    pub pass: Pass,
    /// When the pass through the filter under way began.
    pub started: int,
}

impl Progress {
    /// A run before its start.
    pub open spec fn initial(plan: Plan) -> Progress {
        Progress {
            plan,
            cache: Map::empty(),
            star_index: 0,
            filter_index: 0,
            sky: false,
            stage: Stage::Ready,
            pass: Pass::begin_spec(Some(0), 0),
            started: 0,
        }
    }

    pub open spec fn wf(self) -> bool {
        let stars = self.plan.items.len();
        let filters = self.plan.filters.len();
        &&& self.plan.valid()
        &&& self.star_index <= stars
        &&& self.filter_index <= filters
        &&& self.pass.wf()
        &&& match self.stage {
            Stage::Ready | Stage::Initializing => self.star_index == 0 && self.filter_index == 0
                && !self.sky,
            Stage::AwaitingGoAhead => self.star_index < stars,
            Stage::AwaitingRecenter => self.star_index < stars && self.filter_index < filters
                && !self.sky && self.pass.complete() && !self.pass.steady() && (
            self.pass.calibrated ==> self.known_time() is None),
            Stage::Calibrating => self.star_index < stars && self.filter_index < filters
                && self.pass.calibrating && self.known_time() is None,
            Stage::Stabilizing => self.star_index < stars && self.filter_index < filters
                && !self.pass.calibrating && self.pass.taken < 3 && (self.pass.calibrated
                ==> self.known_time() is None),
            Stage::Recording => self.star_index < stars && self.filter_index < filters
                && self.pass.complete() && (self.sky || self.pass.steady()),
            Stage::Finished => self.star_index == stars && self.filter_index == 0 && !self.sky,
            Stage::Aborted => true,
        }
    }

    /// Whether the run waits for this signal.
    pub open spec fn accepts(self, signal: Signal) -> bool {
        match self.stage {
            Stage::Ready => signal is Start,
            Stage::Initializing | Stage::Calibrating | Stage::Stabilizing => signal is Response
                || signal is ChannelClosed,
            Stage::AwaitingGoAhead | Stage::AwaitingRecenter => signal is Operator,
            Stage::Recording => signal is Recorded || signal is SinkFailed,
            Stage::Finished | Stage::Aborted => false,
        }
    }

    /// The code of the filter under way.
    pub open spec fn filter(self) -> u8
        recommends
            self.filter_index < self.plan.filters.len(),
    {
        self.plan.filters[self.filter_index as int]
    }

    /// The name of the star under way.
    pub open spec fn star_name(self) -> Seq<char>
        recommends
            self.star_index < self.plan.items.len(),
    {
        self.plan.items[self.star_index as int].name
    }

    /// The integration time known for the star and filter under way.
    pub open spec fn known_time(self) -> Option<u16> {
        if self.cache.contains_key((self.star_name(), self.filter())) {
            Some(self.cache[(self.star_name(), self.filter())])
        } else {
            None
        }
    }

    /// The request for the next count of the pass under way. The
    /// instrument numbers its filters from 1.
    pub open spec fn request(self) -> Effect {
        Effect::Request(SspRequest::Measure((self.filter() + 1) as u8, self.pass.time))
    }

    /// The stage of a run that waits for a count.
    pub open spec fn measuring(pass: Pass) -> Stage {
        if pass.calibrating {
            Stage::Calibrating
        } else {
            Stage::Stabilizing
        }
    }

    /// The reading of the pass under way, once its three samples are kept.
    pub open spec fn reading(self, now: int) -> Reading {
        Reading {
            timestamp: midpoint_of(self.started, now),
            index: self.star_index,
            star_id: self.star_name(),
            star_type: self.plan.items[self.star_index as int].star_type,
            is_star: !self.sky,
            filter: filter_label_of(self.filter()),
            integration_time: self.pass.time,
            count1: self.pass.count1,
            count2: self.pass.count2,
            count3: self.pass.count3,
        }
    }

    /// The run ends early with an error to show.
    pub open spec fn abort(self, finish: bool, title: Seq<char>, message: Seq<char>) -> (
        Progress,
        Effect,
    ) {
        (Progress { stage: Stage::Aborted, ..self }, Effect::Abort { finish, title, message })
    }

    /// The instrument is set up: the first star is asked for, or, in a plan
    /// without stars, the run is over.
    pub open spec fn first_prompt(self) -> (Progress, Effect) {
        if self.plan.items.len() == 0 {
            (Progress { stage: Stage::Finished, ..self }, Effect::Complete)
        } else {
            (
                Progress { stage: Stage::AwaitingGoAhead, ..self },
                Effect::Confirm(star_prompt(self.plan.items[0].name)),
            )
        }
    }

    /// The pass through the filter at `filter_index` begins; past the last
    /// filter, the visit is over. A pass takes the time known for its star
    /// and filter, and looks for one where none is known.
    pub open spec fn enter_filter(self, now: int) -> (Progress, Effect) {
        if self.filter_index < self.plan.filters.len() {
            let pass = Pass::begin_spec(self.known_time(), self.filter());
            let next = Progress { stage: Self::measuring(pass), pass, started: now, ..self };
            (next, next.request())
        } else {
            self.leave_visit()
        }
    }

    /// After the star its sky, after the sky the next star, after the last
    /// sky the end of the run.
    pub open spec fn leave_visit(self) -> (Progress, Effect) {
        if !self.sky {
            (
                Progress { sky: true, filter_index: 0, stage: Stage::AwaitingGoAhead, ..self },
                Effect::Confirm(sky_prompt()),
            )
        } else if self.star_index + 1 < self.plan.items.len() {
            (
                Progress {
                    sky: false,
                    star_index: self.star_index + 1,
                    filter_index: 0,
                    stage: Stage::AwaitingGoAhead,
                    ..self
                },
                Effect::Confirm(star_prompt(self.plan.items[self.star_index as int + 1].name)),
            )
        } else {
            (
                Progress {
                    sky: false,
                    star_index: self.star_index + 1,
                    filter_index: 0,
                    stage: Stage::Finished,
                    ..self
                },
                Effect::Complete,
            )
        }
    }

    /// A count arrived. While samples are missing, the next count is asked
    /// for. With the third sample the pass is over. A reading of a star
    /// whose samples spread too far is dropped: nothing is kept of it but,
    /// with the pass, the time that it was taken at, and the operator is
    /// asked to center the star again. Any other reading goes to the log,
    /// and with it a time that the pass had to look for is kept for the
    /// star and filter.
    pub open spec fn on_counts(self, counts: u16, now: int) -> (Progress, Effect) {
        let pass = self.pass.sample_spec(counts);
        if !pass.complete() {
            let next = Progress { stage: Self::measuring(pass), pass, ..self };
            (next, next.request())
        } else if !self.sky && !pass.steady() {
            (
                Progress { stage: Stage::AwaitingRecenter, pass, ..self },
                Effect::Confirm(recenter_prompt()),
            )
        } else {
            let cache = if pass.calibrated {
                self.cache.insert((self.star_name(), self.filter()), pass.time)
            } else {
                self.cache
            };
            let next = Progress { stage: Stage::Recording, pass, cache, ..self };
            (next, Effect::Record(next.reading(now)))
        }
    }

    /// The star is centered again: the same filter is passed once more,
    /// at the time of the reading that was dropped, without a search.
    pub open spec fn retake(self, now: int) -> (Progress, Effect) {
        let next = Progress {
            stage: Stage::Stabilizing,
            pass: self.pass.retake_spec(),
            started: now,
            ..self
        };
        (next, next.request())
    }

    /// The run after a signal that it waits for, and what is to be done
    /// next; `now` is the time, in microseconds since 1970.
    ///
    /// Whatever fails ends the run: an error or an answer of the wrong kind
    /// from the worker, a channel that is closed, a log that does not take
    /// a reading. So does an operator who cancels. The worker is told to
    /// finish wherever the channel to it still stands.
    pub open spec fn step(self, signal: Signal, now: int) -> (Progress, Effect) {
        match self.stage {
            Stage::Ready => (
                Progress { stage: Stage::Initializing, ..self },
                Effect::Request(SspRequest::Init),
            ),
            Stage::Initializing => match signal {
                Signal::Response(Reply::Done) => self.first_prompt(),
                Signal::Response(Reply::Error(fault)) => self.abort(
                    true,
                    "Error Initializing SSP3"@,
                    fault_text(fault),
                ),
                Signal::Response(Reply::Counts(_)) => self.abort(
                    true,
                    "Unexpected SSP3 Response"@,
                    "Received counts response on initialization."@,
                ),
                _ => self.abort(false, "Channel Closed"@, "Channel to SSP3 is closed"@),
            },
            Stage::AwaitingGoAhead => match signal {
                Signal::Operator { proceed: true } => self.enter_filter(now),
                _ => (Progress { stage: Stage::Aborted, ..self }, Effect::Complete),
            },
            Stage::AwaitingRecenter => match signal {
                Signal::Operator { proceed: true } => self.retake(now),
                _ => (Progress { stage: Stage::Aborted, ..self }, Effect::Complete),
            },
            Stage::Calibrating | Stage::Stabilizing => match signal {
                Signal::Response(Reply::Counts(counts)) => self.on_counts(counts, now),
                Signal::Response(Reply::Error(fault)) => self.abort(
                    true,
                    "Error"@,
                    fault_text(fault),
                ),
                Signal::Response(Reply::Done) => self.abort(
                    true,
                    "Error"@,
                    "Unexpected SSP response"@,
                ),
                Signal::ChannelClosed { sending: true } => self.abort(
                    false,
                    "Error"@,
                    "Error sending to SSP"@,
                ),
                _ => self.abort(false, "Error"@, "Error receiving from SSP"@),
            },
            Stage::Recording => match signal {
                Signal::SinkFailed(text) => self.abort(true, "Error"@, text),
                _ => (Progress { filter_index: self.filter_index + 1, ..self }).enter_filter(now),
            },
            Stage::Finished | Stage::Aborted => (self, Effect::Complete),
        }
    }
}

/// An integration time that a pass found, under the star and filter that
/// it was found for.
#[derive(Debug, Clone, PartialEq, Eq)]
pub struct CachedTime {
    pub name: String,
    pub filter: u8,
    pub time: u16,
}

/// The times as a map; of two entries for one star and filter the later
/// one counts.
pub open spec fn cache_of(entries: Seq<CachedTime>) -> Map<(Seq<char>, u8), u16>
    decreases entries.len(),
{
    if entries.len() == 0 {
        Map::empty()
    } else {
        cache_of(entries.drop_last()).insert(
            (entries.last().name@, entries.last().filter),
            entries.last().time,
        )
    }
}

/// No star and filter has two entries.
pub open spec fn distinct(entries: Seq<CachedTime>) -> bool {
    forall|i: int, j: int|
        #![trigger entries[i], entries[j]]
        0 <= i < j < entries.len() ==> !(entries[i].name@ == entries[j].name@ && entries[i].filter
            == entries[j].filter)
}

/// The map knows a star and filter exactly where an entry is held for
/// them.
pub proof fn lemma_cache_keys(entries: Seq<CachedTime>, key: (Seq<char>, u8))
    ensures
        cache_of(entries).contains_key(key) <==> exists|i: int|
            0 <= i < entries.len() && (#[trigger] entries[i].name@, entries[i].filter) == key,
    decreases entries.len(),
{
    if entries.len() > 0 {
        let front = entries.drop_last();
        lemma_cache_keys(front, key);
        if cache_of(entries).contains_key(key) {
            if (entries.last().name@, entries.last().filter) == key {
                assert((entries[entries.len() - 1].name@, entries[entries.len() - 1].filter)
                    == key);
            } else {
                let i = choose|i: int|
                    0 <= i < front.len() && (#[trigger] front[i].name@, front[i].filter) == key;
                assert((entries[i].name@, entries[i].filter) == key);
            }
        }
        if exists|i: int|
            0 <= i < entries.len() && (#[trigger] entries[i].name@, entries[i].filter) == key {
            let i = choose|i: int|
                0 <= i < entries.len() && (#[trigger] entries[i].name@, entries[i].filter) == key;
            if i < front.len() {
                assert((front[i].name@, front[i].filter) == key);
            }
        }
    }
}

/// The state of one run. The integration times kept are held as a list
/// in which no star and filter occurs twice.
#[derive(Debug)]
pub struct State {
    pub run: PepRun,
    pub i_time_by_star: Vec<CachedTime>,
    pub star_index: usize,
    pub filter_index: usize,
    pub sky: bool,
    pub stage: Stage,
    pub pass: Pass,
    pub started: i64,
}

impl View for State {
    type V = Progress;

    open spec fn view(&self) -> Progress {
        Progress {
            plan: self.run@,
            cache: cache_of(self.i_time_by_star@),
            star_index: self.star_index as nat,
            filter_index: self.filter_index as nat,
            sky: self.sky,
            stage: self.stage,
            pass: self.pass,
            started: self.started as int,
        }
    }
}

fn words(text: &str) -> (owned: String)
    ensures
        owned@ == text@,
{
    String::from_str(text)
}

impl State {
    pub open spec fn wf(&self) -> bool {
        &&& self@.wf()
        &&& distinct(self.i_time_by_star@)
    }

    /// The state of a run of `run` that has not begun.
    pub fn new(run: PepRun) -> (state: State)
        requires
            run@.valid(),
        ensures
            state@ == Progress::initial(run@),
            state.wf(),
    {
        State {
            run,
            i_time_by_star: Vec::new(),
            star_index: 0,
            filter_index: 0,
            sky: false,
            stage: Stage::Ready,
            pass: Pass::begin(Some(0), 0),
            started: 0,
        }
    }

    /// Whether the run waits for `event`.
    pub fn accepts(&self, event: &Event) -> (awaited: bool)
        ensures
            awaited == self@.accepts(event@),
    {
        match self.stage {
            Stage::Ready => matches!(event, Event::Start),
            Stage::Initializing | Stage::Calibrating | Stage::Stabilizing => matches!(
                event,
                Event::Response(_) | Event::ChannelClosed { .. }
            ),
            Stage::AwaitingGoAhead | Stage::AwaitingRecenter => matches!(
                event,
                Event::Operator { .. }
            ),
            Stage::Recording => matches!(event, Event::Recorded | Event::SinkFailed(_)),
            Stage::Finished | Stage::Aborted => false,
        }
    }

    fn known_time(&self, name: &String, filter: u8) -> (known: Option<u16>)
        ensures
            known == (if self@.cache.contains_key((name@, filter)) {
                Some(self@.cache[(name@, filter)])
            } else {
                None
            }),
    {
        let ghost key = (name@, filter);
        let ghost entries = self.i_time_by_star@;
        let mut i: usize = self.i_time_by_star.len();
        assert(entries.take(i as int) =~= entries);
        while i > 0
            invariant
                i <= self.i_time_by_star.len(),
                entries == self.i_time_by_star@,
                key == (name@, filter),
                cache_of(entries).contains_key(key) == cache_of(
                    entries.take(i as int),
                ).contains_key(key),
                cache_of(entries).contains_key(key) ==> cache_of(entries)[key] == cache_of(
                    entries.take(i as int),
                )[key],
            decreases i,
        {
            i = i - 1;
            proof {
                let longer = entries.take(i + 1);
                assert(longer.drop_last() =~= entries.take(i as int));
                assert(longer.last() == entries[i as int]);
            }
            if self.i_time_by_star[i].filter == filter && self.i_time_by_star[i].name == *name {
                return Some(self.i_time_by_star[i].time);
            }
        }
        None
    }

    fn abort(&mut self, finish: bool, title: &str, message: String) -> (action: Action)
        ensures
            final(self)@ == old(self)@.abort(finish, title@, message@).0,
            action@ == old(self)@.abort(finish, title@, message@).1,
            old(self).wf() ==> final(self).wf(),
    {
        self.stage = Stage::Aborted;
        Action::Abort { finish, title: words(title), message }
    }

    fn star_question(&self, index: usize) -> (action: Action)
        requires
            index < self.run.items.len(),
        ensures
            action@ == Effect::Confirm(star_prompt(self@.plan.items[index as int].name)),
    {
        let mut prompt: String = words("Go to ");
        prompt.append(self.run.items[index].name.as_str());
        Action::Confirm(prompt)
    }

    fn request(&self) -> (action: Action)
        requires
            self@.plan.valid(),
            self.filter_index < self.run.filters.len(),
        ensures
            action@ == self@.request(),
    {
        let filter: u8 = self.run.filters[self.filter_index];
        Action::Request(SspRequest::Measure(filter + 1, self.pass.time))
    }

    fn leave_visit(&mut self) -> (action: Action)
        requires
            old(self)@.plan.valid(),
            old(self).pass.wf(),
            old(self).star_index < old(self).run.items.len(),
            distinct(old(self).i_time_by_star@),
        ensures
            final(self)@ == old(self)@.leave_visit().0,
            action@ == old(self)@.leave_visit().1,
            final(self).wf(),
    {
        self.filter_index = 0;
        if !self.sky {
            self.sky = true;
            self.stage = Stage::AwaitingGoAhead;
            Action::Confirm(words("Go to sky"))
        } else {
            self.sky = false;
            self.star_index = self.star_index + 1;
            if self.star_index < self.run.items.len() {
                self.stage = Stage::AwaitingGoAhead;
                self.star_question(self.star_index)
            } else {
                self.stage = Stage::Finished;
                Action::Complete
            }
        }
    }

    fn enter_filter(&mut self, now: i64) -> (action: Action)
        requires
            old(self)@.plan.valid(),
            old(self).pass.wf(),
            old(self).star_index < old(self).run.items.len(),
            old(self).filter_index <= old(self).run.filters.len(),
            distinct(old(self).i_time_by_star@),
        ensures
            final(self)@ == old(self)@.enter_filter(now as int).0,
            action@ == old(self)@.enter_filter(now as int).1,
            final(self).wf(),
    {
        if self.filter_index < self.run.filters.len() {
            let filter: u8 = self.run.filters[self.filter_index];
            let known: Option<u16> = self.known_time(
                &self.run.items[self.star_index].name,
                filter,
            );
            self.pass = Pass::begin(known, filter);
            self.stage = if self.pass.calibrating {
                Stage::Calibrating
            } else {
                Stage::Stabilizing
            };
            self.started = now;
            self.request()
        } else {
            self.leave_visit()
        }
    }

    fn reading(&self, now: i64) -> (measurement: Measurement)
        requires
            self@.plan.valid(),
            self.star_index < self.run.items.len(),
            self.filter_index < self.run.filters.len(),
        ensures
            measurement@ == self@.reading(now as int),
    {
        assert(self@.plan.filters[self.filter_index as int] <= 5);
        Measurement {
            timestamp: midpoint(self.started, now),
            index: self.star_index,
            star_id: self.run.items[self.star_index].name.clone(),
            star_type: self.run.items[self.star_index].star_type.clone(),
            is_star: !self.sky,
            filter: filter_label(self.run.filters[self.filter_index]),
            integration_time: self.pass.time,
            count1: self.pass.count1,
            count2: self.pass.count2,
            count3: self.pass.count3,
        }
    }

    fn on_counts(&mut self, counts: u16, now: i64) -> (action: Action)
        requires
            old(self).wf(),
            old(self).stage == Stage::Calibrating || old(self).stage == Stage::Stabilizing,
        ensures
            final(self)@ == old(self)@.on_counts(counts, now as int).0,
            action@ == old(self)@.on_counts(counts, now as int).1,
            final(self).wf(),
    {
        self.pass = self.pass.sample(counts);
        if !self.pass.is_complete() {
            self.stage = if self.pass.calibrating {
                Stage::Calibrating
            } else {
                Stage::Stabilizing
            };
            self.request()
        } else if !self.sky && !self.pass.is_steady() {
            self.stage = Stage::AwaitingRecenter;
            Action::Confirm(words("Deviation > 1%. Please re-center."))
        } else {
            if self.pass.calibrated {
                let entry = CachedTime {
                    name: self.run.items[self.star_index].name.clone(),
                    filter: self.run.filters[self.filter_index],
                    time: self.pass.time,
                };
                let ghost before = self.i_time_by_star@;
                proof {
                    lemma_cache_keys(before, (entry.name@, entry.filter));
                }
                self.i_time_by_star.push(entry);
                assert(self.i_time_by_star@.drop_last() =~= before);
            }
            self.stage = Stage::Recording;
            Action::Record(self.reading(now))
        }
    }

    /// Moves the run on by one event, at the time `now` (microseconds
    /// since 1970), and says what is to be done next. An event that the
    /// run does not wait for changes nothing and gives no action.
    pub fn step_at(&mut self, event: Event, now: i64) -> (action: Option<Action>)
        requires
            old(self).wf(),
        ensures
            final(self).wf(),
            !old(self)@.accepts(event@) ==> action is None && final(self)@ == old(self)@,
            old(self)@.accepts(event@) ==> action is Some && final(self)@ == old(self)@.step(
                event@,
                now as int,
            ).0 && action->0@ == old(self)@.step(event@, now as int).1,
    {
        if !self.accepts(&event) {
            return None;
        }
        let action: Action = match self.stage {
            Stage::Ready => {
                self.stage = Stage::Initializing;
                Action::Request(SspRequest::Init)
            },
            Stage::Initializing => match event {
                Event::Response(SspResponse::Done) => {
                    if self.run.items.len() == 0 {
                        self.stage = Stage::Finished;
                        Action::Complete
                    } else {
                        self.stage = Stage::AwaitingGoAhead;
                        self.star_question(0)
                    }
                },
                Event::Response(SspResponse::Error(error)) => self.abort(
                    true,
                    "Error Initializing SSP3",
                    error.message(),
                ),
                Event::Response(SspResponse::Counts(_)) => self.abort(
                    true,
                    "Unexpected SSP3 Response",
                    words("Received counts response on initialization."),
                ),
                _ => self.abort(false, "Channel Closed", words("Channel to SSP3 is closed")),
            },
            Stage::AwaitingGoAhead => match event {
                Event::Operator { proceed: true } => self.enter_filter(now),
                _ => {
                    self.stage = Stage::Aborted;
                    Action::Complete
                },
            },
            Stage::AwaitingRecenter => match event {
                Event::Operator { proceed: true } => {
                    self.pass = self.pass.retake();
                    self.stage = Stage::Stabilizing;
                    self.started = now;
                    self.request()
                },
                _ => {
                    self.stage = Stage::Aborted;
                    Action::Complete
                },
            },
            Stage::Calibrating | Stage::Stabilizing => match event {
                Event::Response(SspResponse::Counts(counts)) => self.on_counts(counts, now),
                Event::Response(SspResponse::Error(error)) => self.abort(
                    true,
                    "Error",
                    error.message(),
                ),
                Event::Response(SspResponse::Done) => self.abort(
                    true,
                    "Error",
                    words("Unexpected SSP response"),
                ),
                Event::ChannelClosed { sending: true } => self.abort(
                    false,
                    "Error",
                    words("Error sending to SSP"),
                ),
                _ => self.abort(false, "Error", words("Error receiving from SSP")),
            },
            Stage::Recording => match event {
                Event::SinkFailed(text) => self.abort(true, "Error", text),
                _ => {
                    assert(self.filter_index < self.run.filters.len());
                    self.filter_index = self.filter_index + 1;
                    self.enter_filter(now)
                },
            },
            Stage::Finished | Stage::Aborted => Action::Complete,
        };
        Some(action)
    }

    /// Moves the run on by one event, at the time that the clock shows,
    /// and says what is to be done next: what [`State::step_at`] does at
    /// that time.
    pub fn step(&mut self, event: Event) -> (action: Option<Action>)
        requires
            old(self).wf(),
        ensures
            final(self).wf(),
            !old(self)@.accepts(event@) ==> action is None && final(self)@ == old(self)@,
            old(self)@.accepts(event@) ==> action is Some && exists|now: i64|
                {
                    &&& final(self)@ == (#[trigger] old(self)@.step(event@, now as int)).0
                    &&& action->0@ == old(self)@.step(event@, now as int).1
                },
    {
        let now: i64 = utc_now_micros();
        self.step_at(event, now)
    }
}

/// The time of the system's clock, which `std::time::SystemTime::now`
/// reads, taken as a `chrono::DateTime<Utc>` (chrono's `From<SystemTime>`)
/// and counted by `chrono::DateTime::timestamp_micros`: in microseconds
/// since the first instant of 1970 (UTC), below zero for an instant before
/// it. Nothing is claimed of the value: a clock may be set, and may run
/// backwards.
#[verifier::external_body]
fn utc_now_micros() -> (now: i64) {
    chrono::DateTime::<chrono::Utc>::from(std::time::SystemTime::now()).timestamp_micros()
}

} // verus!
