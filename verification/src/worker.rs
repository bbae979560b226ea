//! The worker that serves the run's requests with the instrument.
//!
//! The worker takes one request at a time, leads the driver through the
//! commands that the request needs, and gives exactly one answer before
//! it takes the next request. A request to finish, a channel that is
//! closed and an answer that cannot be delivered end it; on its way out
//! it shuts the instrument down once.

use vstd::prelude::*;
use crate::measurement::{Reply, SspRequest, SspResponse};
use crate::ssp3::{Command, Error, Fault, Outcome, Session, Ssp3, Step};

verus! {

/// Where the worker stands.
#[derive(Clone, Copy, Debug, PartialEq, Eq, Structural)]
pub enum WorkerStage {
    /// Waiting for a request.
    Waiting,
    /// Waiting for the instrument's answer to a command of the request.
    Serving,
    /// Waiting for the answer to the request to be delivered.
    Responding,
    /// Waiting for the answer to a request to finish to be delivered.
    Leaving,
    /// Waiting for the instrument's answer to the shutdown.
    Closing,
    /// Waiting for the word that there is no instrument to be delivered.
    Quitting,
    /// Over.
    Stopped,
}

/// What happened since the worker's last step.
#[derive(Debug, PartialEq, Eq)]
pub enum WorkerEvent {
    /// A request arrived.
    Request(SspRequest),
    /// No request will arrive any more.
    Closed,
    /// The instrument's answer was read.
    Reply(Vec<u8>),
    /// The serial line failed, as the words say.
    Fault(String),
    /// The answer to the request was delivered.
    Delivered,
    /// The answer to the request could not be delivered.
    Undelivered,
}

/// The model of a worker's event: what contracts say of a [`WorkerEvent`].
pub enum WorkerSignal {
    Request(SspRequest),
    Closed,
    Reply(Seq<u8>),
    Fault(Seq<char>),
    Delivered,
    Undelivered,
}

impl View for WorkerEvent {
    type V = WorkerSignal;

    open spec fn view(&self) -> WorkerSignal {
        match self {
            WorkerEvent::Request(request) => WorkerSignal::Request(*request),
            WorkerEvent::Closed => WorkerSignal::Closed,
            WorkerEvent::Reply(bytes) => WorkerSignal::Reply(bytes@),
            WorkerEvent::Fault(text) => WorkerSignal::Fault(text@),
            WorkerEvent::Delivered => WorkerSignal::Delivered,
            WorkerEvent::Undelivered => WorkerSignal::Undelivered,
        }
    }
}

/// What the worker is to do next.
#[derive(Debug, PartialEq, Eq)]
pub enum WorkerAction {
    /// Wait for the next request.
    Receive,
    /// Write the command to the serial line and read its answer.
    Exchange(Command),
    /// Deliver the answer to the request.
    Respond(SspResponse),
    /// Leave. A shutdown that failed is handed out to be noted; nobody
    /// waits for an answer any more.
    Exit(Option<Error>),
}

/// The model of a worker's action: what contracts say of a
/// [`WorkerAction`].
pub enum WorkerEffect {
    Receive,
    Exchange(Command),
    Respond(Reply),
    Exit(Option<Fault>),
}

impl View for WorkerAction {
    type V = WorkerEffect;

    open spec fn view(&self) -> WorkerEffect {
        match self {
            WorkerAction::Receive => WorkerEffect::Receive,
            WorkerAction::Exchange(command) => WorkerEffect::Exchange(*command),
            WorkerAction::Respond(response) => WorkerEffect::Respond(response@),
            WorkerAction::Exit(error) => WorkerEffect::Exit(
                match error {
                    Some(error) => Some(error@),
                    None => None,
                },
            ),
        }
    }
}

/// The model of the worker: what contracts say of a [`Worker`].
#[verifier::ext_equal]
pub struct Service {
    pub session: Session,
    pub stage: WorkerStage,
}

impl Service {
    /// A worker with a new driver, waiting for its first request.
    pub open spec fn fresh() -> Service {
        Service { session: Session::fresh(), stage: WorkerStage::Waiting }
    }

    pub open spec fn wf(self) -> bool {
        &&& self.session.wf()
        &&& match self.stage {
            WorkerStage::Serving => !self.session.idle(),
            WorkerStage::Closing => self.session.pending == seq![Command::End],
            _ => self.session.idle(),
        }
    }

    /// Whether the worker waits for this signal.
    pub open spec fn accepts(self, signal: WorkerSignal) -> bool {
        match self.stage {
            WorkerStage::Waiting => signal is Request || signal is Closed,
            WorkerStage::Serving | WorkerStage::Closing => signal is Reply || signal is Fault,
            WorkerStage::Responding | WorkerStage::Leaving | WorkerStage::Quitting => signal
                is Delivered || signal is Undelivered,
            WorkerStage::Stopped => false,
        }
    }

    /// A worker whose serial line could not be opened, as the words say,
    /// and what it does first: it gives the fault as its one answer, and
    /// leaves once that is delivered or cannot be.
    pub open spec fn unavailable(text: Seq<char>) -> (Service, WorkerEffect) {
        (
            Service { session: Session::fresh(), stage: WorkerStage::Quitting },
            WorkerEffect::Respond(Reply::Error(Fault::Serial(text))),
        )
    }

    /// The driver has taken a step of the request: its next command goes
    /// to the instrument, and its result is the answer to the request.
    pub open spec fn serve(step: (Session, Outcome)) -> (Service, WorkerEffect) {
        match step.1 {
            Outcome::Exchange(command) => (
                Service { session: step.0, stage: WorkerStage::Serving },
                WorkerEffect::Exchange(command),
            ),
            Outcome::Done => (
                Service { session: step.0, stage: WorkerStage::Responding },
                WorkerEffect::Respond(Reply::Done),
            ),
            Outcome::Counts(counts) => (
                Service { session: step.0, stage: WorkerStage::Responding },
                WorkerEffect::Respond(Reply::Counts(counts)),
            ),
            Outcome::Failed(fault) => (
                Service { session: step.0, stage: WorkerStage::Responding },
                WorkerEffect::Respond(Reply::Error(fault)),
            ),
        }
    }

    /// The driver has taken a step of the shutdown.
    pub open spec fn leave(step: (Session, Outcome)) -> (Service, WorkerEffect) {
        match step.1 {
            Outcome::Exchange(command) => (
                Service { session: step.0, stage: WorkerStage::Closing },
                WorkerEffect::Exchange(command),
            ),
            Outcome::Failed(fault) => (
                Service { session: step.0, stage: WorkerStage::Stopped },
                WorkerEffect::Exit(Some(fault)),
            ),
            _ => (
                Service { session: step.0, stage: WorkerStage::Stopped },
                WorkerEffect::Exit(None),
            ),
        }
    }

    /// The worker after a signal that it waits for, and what it is to do
    /// next. A request to finish is answered at once, before the
    /// instrument is shut down, and whatever comes of the shutdown.
    pub open spec fn step(self, signal: WorkerSignal) -> (Service, WorkerEffect) {
        match self.stage {
            WorkerStage::Waiting => match signal {
                WorkerSignal::Request(SspRequest::Init) => Self::serve(self.session.init()),
                WorkerSignal::Request(SspRequest::Measure(filter, time)) => Self::serve(
                    self.session.measure(filter, time),
                ),
                WorkerSignal::Request(SspRequest::Finish) => (
                    Service { stage: WorkerStage::Leaving, ..self },
                    WorkerEffect::Respond(Reply::Done),
                ),
                _ => Self::leave(self.session.finish()),
            },
            WorkerStage::Serving => match signal {
                WorkerSignal::Fault(text) => Self::serve(self.session.on_fault(text)),
                WorkerSignal::Reply(bytes) => Self::serve(self.session.on_reply(bytes)),
                _ => (self, WorkerEffect::Receive),
            },
            WorkerStage::Responding => match signal {
                WorkerSignal::Delivered => (
                    Service { stage: WorkerStage::Waiting, ..self },
                    WorkerEffect::Receive,
                ),
                _ => Self::leave(self.session.finish()),
            },
            WorkerStage::Leaving => Self::leave(self.session.finish()),
            WorkerStage::Quitting => (
                Service { stage: WorkerStage::Stopped, ..self },
                WorkerEffect::Exit(None),
            ),
            WorkerStage::Closing => match signal {
                WorkerSignal::Fault(text) => Self::leave(self.session.on_fault(text)),
                WorkerSignal::Reply(bytes) => Self::leave(self.session.on_reply(bytes)),
                _ => (self, WorkerEffect::Receive),
            },
            WorkerStage::Stopped => (self, WorkerEffect::Exit(None)),
        }
    }
}

/// The worker of one instrument.
#[derive(Debug)]
pub struct Worker {
    device: Ssp3,
    stage: WorkerStage,
}

impl View for Worker {
    type V = Service;

    closed spec fn view(&self) -> Service {
        Service { session: self.device@, stage: self.stage }
    }
}

impl Worker {
    pub closed spec fn wf(&self) -> bool {
        &&& self.device.wf()
        &&& self@.wf()
    }

    /// A worker with a new driver. It waits for its first request.
    pub fn new() -> (worker: Worker)
        ensures
            worker.wf(),
            worker@ == Service::fresh(),
    {
        Worker { device: Ssp3::new(), stage: WorkerStage::Waiting }
    }

    /// A worker for an instrument whose serial line could not be opened,
    /// as `description` says, and what it is to do first.
    pub fn unavailable(description: String) -> (start: (Worker, WorkerAction))
        ensures
            start.0.wf(),
            start.0@ == Service::unavailable(description@).0,
            start.1@ == Service::unavailable(description@).1,
    {
        (
            Worker { device: Ssp3::new(), stage: WorkerStage::Quitting },
            WorkerAction::Respond(SspResponse::Error(Error::serial(description))),
        )
    }

    /// Where the worker stands.
    pub fn stage(&self) -> (stage: WorkerStage)
        ensures
            stage == self@.stage,
    {
        self.stage
    }

    /// The driver of the worker's instrument.
    pub fn device(&self) -> (device: &Ssp3)
        ensures
            device@ == self@.session,
    {
        &self.device
    }

    /// Whether the worker waits for `event`.
    pub fn accepts(&self, event: &WorkerEvent) -> (awaited: bool)
        ensures
            awaited == self@.accepts(event@),
    {
        match self.stage {
            WorkerStage::Waiting => matches!(event, WorkerEvent::Request(_) | WorkerEvent::Closed),
            WorkerStage::Serving | WorkerStage::Closing => matches!(
                event,
                WorkerEvent::Reply(_) | WorkerEvent::Fault(_)
            ),
            WorkerStage::Responding | WorkerStage::Leaving | WorkerStage::Quitting => matches!(
                event,
                WorkerEvent::Delivered | WorkerEvent::Undelivered
            ),
            WorkerStage::Stopped => false,
        }
    }

    fn serve(&mut self, step: Step) -> (action: WorkerAction)
        requires
            old(self).device.wf(),
            step@ is Exchange <==> !old(self).device@.idle(),
        ensures
            final(self).wf(),
            final(self)@ == Service::serve((old(self).device@, step@)).0,
            action@ == Service::serve((old(self).device@, step@)).1,
    {
        proof {
            self.device.lemma_session_wf();
        }
        match step {
            Step::Exchange(command) => {
                self.stage = WorkerStage::Serving;
                WorkerAction::Exchange(command)
            },
            Step::Done => {
                self.stage = WorkerStage::Responding;
                WorkerAction::Respond(SspResponse::Done)
            },
            Step::Counts(counts) => {
                self.stage = WorkerStage::Responding;
                WorkerAction::Respond(SspResponse::Counts(counts))
            },
            Step::Failed(error) => {
                self.stage = WorkerStage::Responding;
                WorkerAction::Respond(SspResponse::Error(error))
            },
        }
    }

    fn leave(&mut self, step: Step) -> (action: WorkerAction)
        requires
            old(self).device.wf(),
            step@ is Exchange ==> old(self).device@.pending == seq![Command::End],
            !(step@ is Exchange) ==> old(self).device@.idle(),
        ensures
            final(self).wf(),
            final(self)@ == Service::leave((old(self).device@, step@)).0,
            action@ == Service::leave((old(self).device@, step@)).1,
    {
        proof {
            self.device.lemma_session_wf();
        }
        match step {
            Step::Exchange(command) => {
                self.stage = WorkerStage::Closing;
                WorkerAction::Exchange(command)
            },
            Step::Failed(error) => {
                self.stage = WorkerStage::Stopped;
                WorkerAction::Exit(Some(error))
            },
            _ => {
                self.stage = WorkerStage::Stopped;
                WorkerAction::Exit(None)
            },
        }
    }

    fn shut_down(&mut self) -> (action: WorkerAction)
        requires
            old(self).wf(),
            old(self)@.session.idle(),
        ensures
            final(self).wf(),
            final(self)@ == Service::leave(old(self)@.session.finish()).0,
            action@ == Service::leave(old(self)@.session.finish()).1,
    {
        let step: Step = self.device.finish();
        self.leave(step)
    }

    /// Moves the worker on by one event and says what it is to do next.
    /// An event that the worker does not wait for changes nothing and
    /// gives no action.
    pub fn step(&mut self, event: WorkerEvent) -> (action: Option<WorkerAction>)
        requires
            old(self).wf(),
        ensures
            final(self).wf(),
            !old(self)@.accepts(event@) ==> action is None && final(self)@ == old(self)@,
            old(self)@.accepts(event@) ==> action is Some && final(self)@ == old(self)@.step(
                event@,
            ).0 && action->0@ == old(self)@.step(event@).1,
    {
        if !self.accepts(&event) {
            return None;
        }
        let action: WorkerAction = match self.stage {
            WorkerStage::Waiting => match event {
                WorkerEvent::Request(SspRequest::Init) => {
                    let step: Step = self.device.init();
                    self.serve(step)
                },
                WorkerEvent::Request(SspRequest::Measure(filter, time)) => {
                    let step: Step = self.device.measure(filter, time);
                    self.serve(step)
                },
                WorkerEvent::Request(SspRequest::Finish) => {
                    self.stage = WorkerStage::Leaving;
                    WorkerAction::Respond(SspResponse::Done)
                },
                _ => self.shut_down(),
            },
            WorkerStage::Serving => match event {
                WorkerEvent::Fault(text) => {
                    let step: Step = self.device.failed(text);
                    self.serve(step)
                },
                WorkerEvent::Reply(bytes) => {
                    proof {
                        crate::ssp3::law_commands_are_valid(self.device@, bytes@);
                    }
                    let step: Step = self.device.received(&bytes);
                    self.serve(step)
                },
                _ => WorkerAction::Receive,
            },
            WorkerStage::Responding => match event {
                WorkerEvent::Delivered => {
                    self.stage = WorkerStage::Waiting;
                    WorkerAction::Receive
                },
                _ => self.shut_down(),
            },
            WorkerStage::Leaving => self.shut_down(),
            WorkerStage::Quitting => {
                self.stage = WorkerStage::Stopped;
                WorkerAction::Exit(None)
            },
            WorkerStage::Closing => match event {
                WorkerEvent::Fault(text) => {
                    let step: Step = self.device.failed(text);
                    self.leave(step)
                },
                WorkerEvent::Reply(bytes) => {
                    proof {
                        crate::ssp3::law_commands_are_valid(self.device@, bytes@);
                    }
                    let step: Step = self.device.received(&bytes);
                    self.leave(step)
                },
                _ => WorkerAction::Receive,
            },
            WorkerStage::Stopped => WorkerAction::Exit(None),
        };
        Some(action)
    }
}

impl Service {
    /// The worker after these signals, what it did, in order, and how
    /// many requests it took. A signal that the worker does not wait for
    /// is passed over.
    pub open spec fn run(self, signals: Seq<WorkerSignal>) -> (Service, Seq<WorkerEffect>, int)
        decreases signals.len(),
    {
        if signals.len() == 0 {
            (self, Seq::empty(), 0)
        } else {
            let (before, effects, taken) = self.run(signals.drop_last());
            let signal = signals.last();
            if before.accepts(signal) {
                (
                    before.step(signal).0,
                    effects.push(before.step(signal).1),
                    taken + if signal is Request {
                        1int
                    } else {
                        0int
                    },
                )
            } else {
                (before, effects, taken)
            }
        }
    }

    /// The number of requests that the worker has taken and not answered
    /// yet.
    pub open spec fn owed(self) -> int {
        if self.stage == WorkerStage::Serving {
            1
        } else {
            0
        }
    }
}

/// How many of the effects are answers to requests.
pub open spec fn answers(effects: Seq<WorkerEffect>) -> int
    decreases effects.len(),
{
    if effects.len() == 0 {
        0
    } else {
        answers(effects.drop_last()) + if effects.last() is Respond {
            1int
        } else {
            0int
        }
    }
}

/// A step keeps the worker well formed. It takes a request only while it
/// owes no answer, and it waits for the next request only once the
/// answer to the last one was delivered.
pub proof fn law_worker_step(before: Service, signal: WorkerSignal)
    requires
        before.wf(),
        before.accepts(signal),
    ensures
        before.step(signal).0.wf(),
        signal is Request ==> before.owed() == 0 && before.stage == WorkerStage::Waiting,
        before.owed() + if signal is Request {
            1int
        } else {
            0int
        } == before.step(signal).0.owed() + if before.step(signal).1 is Respond {
            1int
        } else {
            0int
        },
        before.step(signal).1 is Receive ==> before.stage == WorkerStage::Responding
            && signal is Delivered,
        before.step(signal).0.stage == WorkerStage::Waiting ==> before.step(signal).1 is Receive,
{
    if before.stage == WorkerStage::Serving || before.stage == WorkerStage::Closing {
        if let WorkerSignal::Reply(bytes) = signal {
            crate::ssp3::law_commands_are_valid(before.session, bytes);
        }
    }
}

/// In lockstep: whatever happens, the worker has given exactly one
/// answer for each request that it took, but for the one that it is still
/// serving.
pub proof fn law_one_answer_per_request(signals: Seq<WorkerSignal>)
    ensures
        Service::fresh().run(signals).0.wf(),
        Service::fresh().run(signals).2 == answers(Service::fresh().run(signals).1)
            + Service::fresh().run(signals).0.owed(),
    decreases signals.len(),
{
    if signals.len() > 0 {
        let (before, effects, taken) = Service::fresh().run(signals.drop_last());
        law_one_answer_per_request(signals.drop_last());
        if before.accepts(signals.last()) {
            law_worker_step(before, signals.last());
            assert(effects.push(before.step(signals.last()).1).drop_last() =~= effects);
        }
    }
}

} // verus!
