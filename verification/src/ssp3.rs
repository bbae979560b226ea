//! The wire protocol of the SSP3 photometer.
//!
//! The instrument takes fixed commands of six characters and answers each
//! with three acknowledging bytes, or, for a count, with nine bytes that
//! hold five digits. [`Ssp3`] keeps what the instrument was last told and
//! leads one operation at a time through its commands. It never touches the
//! serial line: it hands out the command to send and takes back what was
//! read.

use vstd::prelude::*;
use vstd::string::StringExecFns;
use crate::text::{append_byte_list, append_decimal, byte_list, decimal, digit_char, digit_text};

verus! {

/// The model of an error: which of the two kinds of fault it is, and the
/// words that describe it.
pub enum Fault {
    /// The serial line could not be opened, written or read in time.
    Serial(Seq<char>),
    /// The instrument answered out of line, or was asked for what it cannot do.
    Protocol(Seq<char>),
}

#[derive(Debug, PartialEq, Eq)]
pub enum ErrorKind {
    Serial(String),
    Protocol(String),
}

impl View for ErrorKind {
    type V = Fault;

    open spec fn view(&self) -> Fault {
        match self {
            ErrorKind::Serial(text) => Fault::Serial(text@),
            ErrorKind::Protocol(text) => Fault::Protocol(text@),
        }
    }
}

#[derive(Debug, PartialEq, Eq)]
pub struct Error {
    pub kind: ErrorKind,
}

impl View for Error {
    type V = Fault;

    open spec fn view(&self) -> Fault {
        self.kind@
    }
}

/// The line that a fault is shown to the operator as.
pub open spec fn fault_text(fault: Fault) -> Seq<char> {
    match fault {
        Fault::Serial(text) => "SSP3: serial error: "@ + text,
        Fault::Protocol(text) => "SSP3: protocol error: "@ + text,
    }
}

impl Error {
    /// A fault of the serial line, described by `text`.
    pub fn serial(text: String) -> (error: Error)
        ensures
            error@ == Fault::Serial(text@),
    {
        Error { kind: ErrorKind::Serial(text) }
    }

    /// A fault of the protocol, described by `text`.
    pub fn protocol(text: String) -> (error: Error)
        ensures
            error@ == Fault::Protocol(text@),
    {
        Error { kind: ErrorKind::Protocol(text) }
    }

    /// The line to show for this error.
    pub fn message(&self) -> (text: String)
        ensures
            text@ == fault_text(self@),
    {
        match &self.kind {
            ErrorKind::Serial(detail) => {
                let mut text: String = String::from_str("SSP3: serial error: ");
                text.append(detail.as_str());
                text
            },
            ErrorKind::Protocol(detail) => {
                let mut text: String = String::from_str("SSP3: protocol error: ");
                text.append(detail.as_str());
                text
            },
        }
    }
}

/// The speed of the instrument's serial line, in bits per second. The
/// line carries eight bits to the character, no parity and one stop bit.
pub const BAUD_RATE: u32 = 19200;

/// One command of the instrument.
#[derive(Clone, Copy, Debug, PartialEq, Eq, Structural)]
pub enum Command {
    /// `SSMODE`: take commands from the serial line.
    Mode,
    /// `SHOME.`: move the filter slider to its first place.
    Home,
    /// `SGAIN2`: set the gain.
    Gain,
    /// `SFILT` and one digit: move to the filter of this number, 1 to 6.
    Filter(u8),
    /// `SI` and four digits: integrate over this many milliseconds.
    Time(u16),
    /// `SCOUNT`: take one count. The integration time that was set, in
    /// milliseconds, decides how long the answer may take.
    Count(u16),
    /// `SEND..`: give up the serial line.
    End,
}

/// The three bytes with which the instrument acknowledges a command.
pub open spec fn acknowledgement() -> Seq<u8> {
    seq![0x21u8, 0x0Au8, 0x0Du8]
}

impl Command {
    /// Whether the instrument can take the command: the filter is one of
    /// its six, the time is below six seconds.
    pub open spec fn valid(self) -> bool {
        match self {
            Command::Filter(filter) => 1 <= filter <= 6,
            Command::Time(time) => time < 6000,
            Command::Count(time) => time < 6000,
            _ => true,
        }
    }

    /// The six characters of the command. A time is written with four
    /// digits, with zeros in front where it has fewer.
    pub open spec fn text(self) -> Seq<char> {
        match self {
            Command::Mode => seq!['S', 'S', 'M', 'O', 'D', 'E'],
            Command::Home => seq!['S', 'H', 'O', 'M', 'E', '.'],
            Command::Gain => seq!['S', 'G', 'A', 'I', 'N', '2'],
            Command::Filter(filter) => seq!['S', 'F', 'I', 'L', 'T', digit_char(filter as nat)],
            Command::Time(time) => seq![
                'S',
                'I',
                digit_char((time / 1000) as nat),
                digit_char((time / 100 % 10) as nat),
                digit_char((time / 10 % 10) as nat),
                digit_char((time % 10) as nat),
            ],
            Command::Count(_) => seq!['S', 'C', 'O', 'U', 'N', 'T'],
            Command::End => seq!['S', 'E', 'N', 'D', '.', '.'],
        }
    }

    /// The bytes to write: the characters of the command in ASCII.
    pub open spec fn wire(self) -> Seq<u8> {
        self.text().map_values(|c: char| c as u8)
    }

    /// How many seconds the answer may take.
    pub open spec fn timeout(self) -> nat {
        match self {
            Command::Mode | Command::Gain | Command::Time(_) => 2,
            Command::Home => 10,
            Command::Filter(_) | Command::End => 5,
            Command::Count(time) => (time / 100 + 2) as nat,
        }
    }

    /// How many bytes the answer has.
    pub open spec fn reply_len(self) -> nat {
        match self {
            Command::Count(_) => 9,
            _ => 3,
        }
    }

    pub fn is_valid(&self) -> (valid: bool)
        ensures
            valid == self.valid(),
    {
        match self {
            Command::Filter(filter) => 1 <= *filter && *filter <= 6,
            Command::Time(time) => *time < 6000,
            Command::Count(time) => *time < 6000,
            _ => true,
        }
    }

    /// The bytes to write to the serial line.
    pub fn encode(&self) -> (bytes: Vec<u8>)
        requires
            self.valid(),
        ensures
            bytes@ == self.wire(),
    {
        let mut bytes: Vec<u8> = Vec::new();
        bytes.push(0x53);
        match self {
            Command::Mode => {
                bytes.push(0x53);
                bytes.push(0x4D);
                bytes.push(0x4F);
                bytes.push(0x44);
                bytes.push(0x45);
            },
            Command::Home => {
                bytes.push(0x48);
                bytes.push(0x4F);
                bytes.push(0x4D);
                bytes.push(0x45);
                bytes.push(0x2E);
            },
            Command::Gain => {
                bytes.push(0x47);
                bytes.push(0x41);
                bytes.push(0x49);
                bytes.push(0x4E);
                bytes.push(0x32);
            },
            Command::Filter(filter) => {
                bytes.push(0x46);
                bytes.push(0x49);
                bytes.push(0x4C);
                bytes.push(0x54);
                bytes.push(0x30 + *filter);
            },
            Command::Time(time) => {
                bytes.push(0x49);
                bytes.push(0x30 + (*time / 1000) as u8);
                bytes.push(0x30 + (*time / 100 % 10) as u8);
                bytes.push(0x30 + (*time / 10 % 10) as u8);
                bytes.push(0x30 + (*time % 10) as u8);
            },
            Command::Count(_) => {
                bytes.push(0x43);
                bytes.push(0x4F);
                bytes.push(0x55);
                bytes.push(0x4E);
                bytes.push(0x54);
            },
            Command::End => {
                bytes.push(0x45);
                bytes.push(0x4E);
                bytes.push(0x44);
                bytes.push(0x2E);
                bytes.push(0x2E);
            },
        }
        assert(bytes@ =~= self.wire());
        bytes
    }

    /// The command as it reads.
    pub fn name(&self) -> (text: String)
        requires
            self.valid(),
        ensures
            text@ == self.text(),
    {
        proof {
            reveal_strlit("SSMODE");
            reveal_strlit("SHOME.");
            reveal_strlit("SGAIN2");
            reveal_strlit("SFILT");
            reveal_strlit("SI");
            reveal_strlit("SCOUNT");
            reveal_strlit("SEND..");
        }
        let text: String = match self {
            Command::Mode => String::from_str("SSMODE"),
            Command::Home => String::from_str("SHOME."),
            Command::Gain => String::from_str("SGAIN2"),
            Command::Filter(filter) => {
                let mut text: String = String::from_str("SFILT");
                text.append(digit_text(*filter as u64));
                text
            },
            Command::Time(time) => {
                let mut text: String = String::from_str("SI");
                text.append(digit_text((*time / 1000) as u64));
                text.append(digit_text((*time / 100 % 10) as u64));
                text.append(digit_text((*time / 10 % 10) as u64));
                text.append(digit_text((*time % 10) as u64));
                text
            },
            Command::Count(_) => String::from_str("SCOUNT"),
            Command::End => String::from_str("SEND.."),
        };
        assert(text@ =~= self.text());
        text
    }

    /// How many seconds to wait for the answer.
    pub fn timeout_secs(&self) -> (seconds: u64)
        ensures
            seconds == self.timeout(),
    {
        match self {
            Command::Mode | Command::Gain | Command::Time(_) => 2,
            Command::Home => 10,
            Command::Filter(_) | Command::End => 5,
            Command::Count(time) => (*time / 100 + 2) as u64,
        }
    }

    /// How many bytes to read as the answer.
    pub fn answer_len(&self) -> (len: usize)
        ensures
            len == self.reply_len(),
    {
        match self {
            Command::Count(_) => 9,
            _ => 3,
        }
    }
}

/// The bytes of one command on their way to the serial line, which may
/// take them in several pieces.
#[derive(Debug)]
pub struct Transfer {
    bytes: Vec<u8>,
    written: usize,
}

impl Transfer {
    #[verifier::type_invariant]
    spec fn inv(self) -> bool {
        self.written <= self.bytes.len()
    }

    /// All bytes of the transfer.
    pub closed spec fn bytes(&self) -> Seq<u8> {
        self.bytes@
    }

    /// How many of them the line has taken.
    pub closed spec fn written(&self) -> nat {
        self.written as nat
    }

    /// The bytes that the line has still to take.
    pub open spec fn rest_of(&self) -> Seq<u8> {
        self.bytes().skip(self.written() as int)
    }

    /// A transfer of `bytes`, of which nothing is written yet.
    pub fn new(bytes: Vec<u8>) -> (transfer: Transfer)
        ensures
            transfer.bytes() == bytes@,
            transfer.written() == 0,
    {
        Transfer { bytes, written: 0 }
    }

    /// Whether every byte is written.
    pub fn is_done(&self) -> (done: bool)
        ensures
            done == (self.rest_of().len() == 0),
            done == (self.written() == self.bytes().len()),
            self.written() <= self.bytes().len(),
    {
        proof {
            use_type_invariant(self);
        }
        self.written == self.bytes.len()
    }

    /// The bytes to hand to the line next.
    pub fn rest(&self) -> (rest: &[u8])
        ensures
            rest@ == self.rest_of(),
    {
        proof {
            use_type_invariant(self);
        }
        vstd::slice::slice_subrange(self.bytes.as_slice(), self.written, self.bytes.len())
    }

    /// Notes that the line took the first `count` of the remaining bytes.
    /// A count beyond what remained is taken for all that remained.
    pub fn advance(&mut self, count: usize)
        ensures
            final(self).bytes() == old(self).bytes(),
            final(self).written() == if count <= old(self).rest_of().len() {
                old(self).written() + count
            } else {
                old(self).bytes().len() as int
            },
            old(self).rest_of() == old(self).rest_of().take(
                final(self).written() - old(self).written(),
            ) + final(self).rest_of(),
    {
        proof {
            use_type_invariant(&*self);
        }
        if count <= self.bytes.len() - self.written {
            self.written = self.written + count;
        } else {
            self.written = self.bytes.len();
        }
        assert(old(self).rest_of() =~= old(self).rest_of().take(
            self.written() - old(self).written(),
        ) + self.rest_of());
    }
}

/// Whether the byte is an ASCII digit.
pub open spec fn is_digit(byte: u8) -> bool {
    0x30 <= byte <= 0x39
}

/// The count that an answer to `SCOUNT` holds: nine bytes that begin with
/// `C=` and five digits, which read as a number that 16 bits can hold.
/// Any other answer holds none. The last two bytes are not looked at.
pub open spec fn count_of(reply: Seq<u8>) -> Option<u16> {
    if reply.len() == 9 && reply[0] == 0x43 && reply[1] == 0x3D && is_digit(reply[2]) && is_digit(
        reply[3],
    ) && is_digit(reply[4]) && is_digit(reply[5]) && is_digit(reply[6]) {
        let value = 10000 * (reply[2] - 0x30) + 1000 * (reply[3] - 0x30) + 100 * (reply[4] - 0x30)
            + 10 * (reply[5] - 0x30) + (reply[6] - 0x30);
        if value <= u16::MAX {
            Some(value as u16)
        } else {
            None
        }
    } else {
        None
    }
}

/// Reads the count out of an answer to `SCOUNT`.
pub fn parse_count(reply: &Vec<u8>) -> (count: Option<u16>)
    ensures
        count == count_of(reply@),
{
    if reply.len() != 9 || reply[0] != 0x43 || reply[1] != 0x3D {
        return None;
    }
    let mut value: u32 = 0;
    let mut i: usize = 2;
    while i < 7
        invariant
            2 <= i <= 7,
            reply.len() == 9,
            forall|j: int| 2 <= j < i ==> is_digit(#[trigger] reply@[j]),
            i == 2 ==> value == 0,
            i == 3 ==> value == reply@[2] - 0x30,
            i == 4 ==> value == 10 * (reply@[2] - 0x30) + (reply@[3] - 0x30),
            i == 5 ==> value == 100 * (reply@[2] - 0x30) + 10 * (reply@[3] - 0x30) + (reply@[4]
                - 0x30),
            i == 6 ==> value == 1000 * (reply@[2] - 0x30) + 100 * (reply@[3] - 0x30) + 10 * (
            reply@[4] - 0x30) + (reply@[5] - 0x30),
            i == 7 ==> value == 10000 * (reply@[2] - 0x30) + 1000 * (reply@[3] - 0x30) + 100 * (
            reply@[4] - 0x30) + 10 * (reply@[5] - 0x30) + (reply@[6] - 0x30),
        decreases 7 - i,
    {
        let byte: u8 = reply[i];
        if byte < 0x30 || byte > 0x39 {
            return None;
        }
        value = value * 10 + (byte - 0x30) as u32;
        i = i + 1;
    }
    if value <= 65535 {
        Some(value as u16)
    } else {
        None
    }
}

/// The words for a request to measure that the instrument cannot take, if
/// it is one: filter 0 stands for an instrument that was not set up, a
/// filter above 6 does not exist, and a time of six seconds or more is
/// beyond the instrument.
pub open spec fn refusal(filter: u8, time: u16) -> Option<Seq<char>> {
    if filter == 0 {
        Some("SSP3 not initialized"@)
    } else if filter > 6 {
        Some("invalid filter "@ + decimal(filter as nat))
    } else if time >= 6000 {
        Some("invalid time "@ + decimal(time as nat))
    } else {
        None
    }
}

/// The words for an answer that does not acknowledge the command.
pub open spec fn bad_ack_text(reply: Seq<u8>, command: Command) -> Seq<char> {
    "Received "@ + byte_list(reply) + " in response to "@ + command.text()
}

/// The words for an answer to `SCOUNT` that holds no count.
pub open spec fn bad_count_text(reply: Seq<u8>) -> Seq<char> {
    "invalid response "@ + byte_list(reply)
}

/// The commands that set the instrument up.
pub open spec fn init_plan() -> Seq<Command> {
    seq![Command::Mode, Command::Home, Command::Gain]
}

/// The commands of one count through `filter` over `time` milliseconds,
/// for an instrument that stands at `set_filter` and `set_time`: the
/// filter and the time are sent only where they differ from what is set.
pub open spec fn measure_plan(set_filter: u8, set_time: u16, filter: u8, time: u16) -> Seq<
    Command,
> {
    let move_filter = if set_filter != filter {
        seq![Command::Filter(filter)]
    } else {
        Seq::empty()
    };
    let load_time = if set_time != time {
        seq![Command::Time(time)]
    } else {
        Seq::empty()
    };
    move_filter + load_time + seq![Command::Count(time)]
}

/// The commands that shut the instrument down: none where it is shut down
/// already.
pub open spec fn finish_plan(set_filter: u8) -> Seq<Command> {
    if set_filter > 6 {
        Seq::empty()
    } else {
        seq![Command::End]
    }
}

/// What the driver does at present.
#[derive(Clone, Copy, Debug, PartialEq, Eq, Structural)]
pub enum Operation {
    Idle,
    Init,
    Measure,
    Finish,
}

/// What the driver says after each step.
#[derive(Debug, PartialEq, Eq)]
pub enum Step {
    /// Write this command to the serial line, read its answer, and hand the
    /// answer back.
    Exchange(Command),
    /// The operation is through.
    Done,
    /// The count is through, with this result.
    Counts(u16),
    /// The operation failed, and was given up.
    Failed(Error),
}

/// The model of a step: what contracts say of a [`Step`].
pub enum Outcome {
    Exchange(Command),
    Done,
    Counts(u16),
    Failed(Fault),
}

impl View for Step {
    type V = Outcome;

    open spec fn view(&self) -> Outcome {
        match self {
            Step::Exchange(command) => Outcome::Exchange(*command),
            Step::Done => Outcome::Done,
            Step::Counts(counts) => Outcome::Counts(*counts),
            Step::Failed(error) => Outcome::Failed(error@),
        }
    }
}

/// The model of the driver: what contracts say of an [`Ssp3`].
#[verifier::ext_equal]
pub struct Session {
    /// The filter that the instrument stands at: 1 to 6, 0 before it was
    /// set up, 7 once it was shut down.
    pub filter: u8,
    /// The integration time that the instrument holds, in milliseconds.
    pub time: u16,
    pub operation: Operation,
    /// The commands of the operation that are not acknowledged yet; the
    /// first of them is under way.
    pub pending: Seq<Command>,
}

impl Session {
    /// A driver that has sent nothing yet.
    pub open spec fn fresh() -> Session {
        Session { filter: 0, time: 0, operation: Operation::Idle, pending: Seq::empty() }
    }

    pub open spec fn wf(self) -> bool {
        &&& self.operation == Operation::Idle <==> self.pending.len() == 0
        &&& forall|i: int| 0 <= i < self.pending.len() ==> (#[trigger] self.pending[i]).valid()
        &&& forall|i: int|
            0 <= i < self.pending.len() ==> ((#[trigger] self.pending[i]) is Count <==> (
            self.operation == Operation::Measure && i == self.pending.len() - 1))
    }

    pub open spec fn idle(self) -> bool {
        self.operation == Operation::Idle
    }

    /// An operation begins: its first command is to be sent. One without
    /// commands is through at once.
    pub open spec fn begin(self, operation: Operation, plan: Seq<Command>) -> (Session, Outcome) {
        if plan.len() == 0 {
            (self, Outcome::Done)
        } else {
            (Session { operation, pending: plan, ..self }, Outcome::Exchange(plan[0]))
        }
    }

    pub open spec fn init(self) -> (Session, Outcome) {
        self.begin(Operation::Init, init_plan())
    }

    /// A request that the instrument cannot take fails before anything is
    /// sent, and leaves the driver as it was.
    pub open spec fn measure(self, filter: u8, time: u16) -> (Session, Outcome) {
        match refusal(filter, time) {
            Some(text) => (self, Outcome::Failed(Fault::Protocol(text))),
            None => self.begin(
                Operation::Measure,
                measure_plan(self.filter, self.time, filter, time),
            ),
        }
    }

    pub open spec fn finish(self) -> (Session, Outcome) {
        self.begin(Operation::Finish, finish_plan(self.filter))
    }

    /// What an acknowledged command has changed in the instrument.
    pub open spec fn noted(self, command: Command) -> Session {
        match command {
            Command::Filter(filter) => Session { filter, ..self },
            Command::Time(time) => Session { time, ..self },
            Command::End => Session { filter: 7, ..self },
            _ => self,
        }
    }

    /// Nothing is under way any more.
    pub open spec fn at_rest(self) -> Session {
        Session { operation: Operation::Idle, pending: Seq::empty(), ..self }
    }

    /// The operation is given up. A shutdown that failed still counts as
    /// one, so that it is not tried again.
    pub open spec fn give_up(self) -> Session {
        Session {
            filter: if self.operation == Operation::Finish {
                7
            } else {
                self.filter
            },
            ..self.at_rest()
        }
    }

    /// The answer to the command under way was read. An acknowledgement
    /// brings the next command, or the end of the operation; after the
    /// last command of a setup the instrument stands at filter 1. The
    /// answer to `SCOUNT` brings the count. Any other answer is a fault of
    /// the protocol, on which the operation is given up.
    pub open spec fn on_reply(self, reply: Seq<u8>) -> (Session, Outcome)
        recommends
            self.pending.len() > 0,
    {
        let command = self.pending[0];
        if command is Count {
            match count_of(reply) {
                Some(counts) => (self.at_rest(), Outcome::Counts(counts)),
                None => (
                    self.give_up(),
                    Outcome::Failed(Fault::Protocol(bad_count_text(reply))),
                ),
            }
        } else if reply == acknowledgement() {
            let next = Session { pending: self.pending.drop_first(), ..self.noted(command) };
            if next.pending.len() > 0 {
                (next, Outcome::Exchange(next.pending[0]))
            } else if self.operation == Operation::Init {
                (Session { filter: 1, ..next.at_rest() }, Outcome::Done)
            } else {
                (next.at_rest(), Outcome::Done)
            }
        } else {
            (self.give_up(), Outcome::Failed(Fault::Protocol(bad_ack_text(reply, command))))
        }
    }

    /// The serial line failed while the command under way was sent or its
    /// answer read: the operation is given up.
    pub open spec fn on_fault(self, text: Seq<char>) -> (Session, Outcome) {
        (self.give_up(), Outcome::Failed(Fault::Serial(text)))
    }
}

/// The driver of one instrument: what the instrument was last told, and
/// the operation under way.
#[derive(Debug)]
pub struct Ssp3 {
    filter: u8,
    time: u16,
    operation: Operation,
    plan: Vec<Command>,
    sent: usize,
}

impl View for Ssp3 {
    type V = Session;

    closed spec fn view(&self) -> Session {
        Session {
            filter: self.filter,
            time: self.time,
            operation: self.operation,
            pending: self.plan@.skip(self.sent as int),
        }
    }
}

impl Ssp3 {
    pub closed spec fn wf(&self) -> bool {
        &&& self.sent <= self.plan.len()
        &&& self@.wf()
    }

    /// The model of a well-formed driver is well formed.
    pub proof fn lemma_session_wf(&self)
        requires
            self.wf(),
        ensures
            self@.wf(),
    {
    }

    /// A driver for an instrument that nothing was sent to yet.
    pub fn new() -> (device: Ssp3)
        ensures
            device.wf(),
            device@ == Session::fresh(),
    {
        Ssp3 { filter: 0, time: 0, operation: Operation::Idle, plan: Vec::new(), sent: 0 }
    }

    /// The filter that the instrument stands at.
    pub fn filter(&self) -> (filter: u8)
        ensures
            filter == self@.filter,
    {
        self.filter
    }

    /// The integration time that the instrument holds.
    pub fn time(&self) -> (time: u16)
        ensures
            time == self@.time,
    {
        self.time
    }

    /// Whether no operation is under way.
    pub fn is_idle(&self) -> (idle: bool)
        ensures
            idle == self@.idle(),
    {
        self.operation == Operation::Idle
    }

    fn begin(&mut self, operation: Operation, plan: Vec<Command>) -> (step: Step)
        requires
            old(self).wf(),
            old(self)@.idle(),
            operation != Operation::Idle,
            (Session { operation, pending: plan@, ..old(self)@ }).wf() || plan@.len() == 0,
        ensures
            final(self).wf(),
            final(self)@ == old(self)@.begin(operation, plan@).0,
            step@ == old(self)@.begin(operation, plan@).1,
    {
        if plan.len() == 0 {
            assert(self@.pending =~= Seq::<Command>::empty());
            Step::Done
        } else {
            let first: Command = plan[0];
            self.operation = operation;
            self.plan = plan;
            self.sent = 0;
            assert(self.plan@.skip(0) =~= self.plan@);
            Step::Exchange(first)
        }
    }

    /// Begins the setup of the instrument.
    pub fn init(&mut self) -> (step: Step)
        requires
            old(self).wf(),
            old(self)@.idle(),
        ensures
            final(self).wf(),
            final(self)@ == old(self)@.init().0,
            step@ == old(self)@.init().1,
    {
        let mut plan: Vec<Command> = Vec::new();
        plan.push(Command::Mode);
        plan.push(Command::Home);
        plan.push(Command::Gain);
        assert(plan@ =~= init_plan());
        self.begin(Operation::Init, plan)
    }

    /// Begins one count through `filter` (1 to 6) over `time`
    /// milliseconds (below 6000).
    pub fn measure(&mut self, filter: u8, time: u16) -> (step: Step)
        requires
            old(self).wf(),
            old(self)@.idle(),
        ensures
            final(self).wf(),
            final(self)@ == old(self)@.measure(filter, time).0,
            step@ == old(self)@.measure(filter, time).1,
    {
        if filter == 0 {
            return Step::Failed(Error::protocol(String::from_str("SSP3 not initialized")));
        }
        if filter > 6 {
            let mut text: String = String::from_str("invalid filter ");
            append_decimal(&mut text, filter as u64);
            return Step::Failed(Error::protocol(text));
        }
        if time >= 6000 {
            let mut text: String = String::from_str("invalid time ");
            append_decimal(&mut text, time as u64);
            return Step::Failed(Error::protocol(text));
        }
        let mut plan: Vec<Command> = Vec::new();
        if self.filter != filter {
            plan.push(Command::Filter(filter));
        }
        if self.time != time {
            plan.push(Command::Time(time));
        }
        plan.push(Command::Count(time));
        assert(plan@ =~= measure_plan(self@.filter, self@.time, filter, time));
        self.begin(Operation::Measure, plan)
    }

    /// Begins the shutdown of the instrument. One that is shut down
    /// already needs none.
    pub fn finish(&mut self) -> (step: Step)
        requires
            old(self).wf(),
            old(self)@.idle(),
        ensures
            final(self).wf(),
            final(self)@ == old(self)@.finish().0,
            step@ == old(self)@.finish().1,
    {
        let mut plan: Vec<Command> = Vec::new();
        if self.filter <= 6 {
            plan.push(Command::End);
        }
        assert(plan@ =~= finish_plan(self@.filter));
        self.begin(Operation::Finish, plan)
    }

    fn give_up(&mut self)
        requires
            old(self).wf(),
        ensures
            final(self).wf(),
            final(self)@ == old(self)@.give_up(),
    {
        if self.operation == Operation::Finish {
            self.filter = 7;
        }
        self.operation = Operation::Idle;
        self.sent = self.plan.len();
        assert(self@.pending =~= Seq::<Command>::empty());
    }

    /// Takes the answer that was read to the command under way.
    pub fn received(&mut self, reply: &Vec<u8>) -> (step: Step)
        requires
            old(self).wf(),
            !old(self)@.idle(),
        ensures
            final(self).wf(),
            final(self)@ == old(self)@.on_reply(reply@).0,
            step@ == old(self)@.on_reply(reply@).1,
    {
        let command: Command = self.plan[self.sent];
        assert(command == self@.pending[0]);
        assert(command.valid());
        match command {
            Command::Count(_) => {
                let count: Option<u16> = parse_count(reply);
                self.give_up();
                match count {
                    Some(counts) => Step::Counts(counts),
                    None => {
                        let mut text: String = String::from_str("invalid response ");
                        append_byte_list(&mut text, reply);
                        Step::Failed(Error::protocol(text))
                    },
                }
            },
            _ => {
                if is_acknowledgement(reply) {
                    let ghost before = self@;
                    match command {
                        Command::Filter(filter) => {
                            self.filter = filter;
                        },
                        Command::Time(time) => {
                            self.time = time;
                        },
                        Command::End => {
                            self.filter = 7;
                        },
                        _ => {},
                    }
                    self.sent = self.sent + 1;
                    assert(self@.pending =~= before.pending.drop_first());
                    if self.sent < self.plan.len() {
                        let next: Command = self.plan[self.sent];
                        assert(next == self@.pending[0]);
                        Step::Exchange(next)
                    } else {
                        if self.operation == Operation::Init {
                            self.filter = 1;
                        }
                        self.operation = Operation::Idle;
                        Step::Done
                    }
                } else {
                    let mut text: String = String::from_str("Received ");
                    append_byte_list(&mut text, reply);
                    text.append(" in response to ");
                    text.append(command.name().as_str());
                    self.give_up();
                    Step::Failed(Error::protocol(text))
                }
            },
        }
    }

    /// Takes the word that the serial line failed on the command under way.
    pub fn failed(&mut self, description: String) -> (step: Step)
        requires
            old(self).wf(),
            !old(self)@.idle(),
        ensures
            final(self).wf(),
            final(self)@ == old(self)@.on_fault(description@).0,
            step@ == old(self)@.on_fault(description@).1,
    {
        self.give_up();
        Step::Failed(Error::serial(description))
    }
}

/// Whether the answer is the three bytes of an acknowledgement.
pub fn is_acknowledgement(reply: &Vec<u8>) -> (ack: bool)
    ensures
        ack == (reply@ == acknowledgement()),
{
    let ack: bool = reply.len() == 3 && reply[0] == 0x21 && reply[1] == 0x0A && reply[2] == 0x0D;
    assert(ack ==> reply@ =~= acknowledgement());
    ack
}

/// A request for filter 0, for a filter above 6 or for a time of six
/// seconds or more fails with a fault of the protocol. The driver stays as
/// it was, with nothing under way: no command goes to the instrument.
pub proof fn law_refused_request_sends_nothing(before: Session, filter: u8, time: u16)
    requires
        before.wf(),
        before.idle(),
        filter == 0 || filter > 6 || time >= 6000,
    ensures
        before.measure(filter, time).0 == before,
        before.measure(filter, time).0.pending.len() == 0,
        before.measure(filter, time).1 is Failed,
        before.measure(filter, time).1->Failed_0 is Protocol,
{
}

/// A request that the instrument can take sends first the filter, if the
/// instrument stands at another, next the time, if it holds another, and
/// last `SCOUNT`; it sends nothing else.
pub proof fn law_request_sends_what_differs(before: Session, filter: u8, time: u16)
    requires
        before.wf(),
        before.idle(),
        1 <= filter <= 6,
        time < 6000,
    ensures
        before.measure(filter, time).0.pending == measure_plan(
            before.filter,
            before.time,
            filter,
            time,
        ),
        before.measure(filter, time).1 == Outcome::Exchange(
            before.measure(filter, time).0.pending[0],
        ),
        before.measure(filter, time).0.wf(),
        measure_plan(before.filter, before.time, filter, time).contains(Command::Filter(filter))
            <==> before.filter != filter,
        measure_plan(before.filter, before.time, filter, time).contains(Command::Time(time))
            <==> before.time != time,
        measure_plan(before.filter, before.time, filter, time).last() == Command::Count(time),
{
    let plan = measure_plan(before.filter, before.time, filter, time);
    if before.filter != filter {
        assert(plan[0] == Command::Filter(filter));
    }
    if before.time != time {
        if before.filter != filter {
            assert(plan[1] == Command::Time(time));
        } else {
            assert(plan[0] == Command::Time(time));
        }
    }
}

/// On an instrument that stands at the filter and holds the time asked
/// for, a request sends `SCOUNT` alone.
pub proof fn law_same_settings_send_count_alone(filter: u8, time: u16)
    ensures
        measure_plan(filter, time, filter, time) == seq![Command::Count(time)],
{
}

/// The first request to a new driver sends the filter, the time and
/// `SCOUNT`, whatever filter it asks for; the time is left out only where
/// it is 0, which a new driver takes to be set.
pub proof fn law_first_request_sends_both(filter: u8, time: u16)
    requires
        1 <= filter <= 6,
        0 < time < 6000,
    ensures
        Session::fresh().measure(filter, time).0.pending == seq![
            Command::Filter(filter),
            Command::Time(time),
            Command::Count(time),
        ],
        Session::fresh().measure(filter, time).1 == Outcome::Exchange(Command::Filter(filter)),
{
}

/// Every command that the driver hands out is one that the instrument
/// can take: a filter from 1 to 6, a time below six seconds.
pub proof fn law_commands_are_valid(before: Session, reply: Seq<u8>)
    requires
        before.wf(),
        !before.idle(),
    ensures
        before.on_reply(reply).0.wf(),
        before.on_reply(reply).1 matches Outcome::Exchange(command) ==> command.valid()
            && before.on_reply(reply).0.pending.len() > 0 && command == before.on_reply(
            reply,
        ).0.pending[0],
        before.on_reply(reply).1 !is Exchange ==> before.on_reply(reply).0.idle(),
{
    let (after, outcome) = before.on_reply(reply);
    let command = before.pending[0];
    if !(command is Count) && reply == acknowledgement() {
        assert forall|i: int| 0 <= i < after.pending.len() implies (#[trigger] after.pending[i])
            == before.pending[i + 1] by {}
    }
}

/// A shutdown leaves the instrument marked as shut down however it ends,
/// and a second shutdown sends nothing.
pub proof fn law_shutdown_is_final(before: Session, reply: Seq<u8>, text: Seq<char>)
    requires
        before.wf(),
        before.idle(),
        before.filter <= 6,
    ensures
        before.finish().1 == Outcome::Exchange(Command::End),
        before.finish().0.on_reply(reply).0.filter == 7,
        before.finish().0.on_fault(text).0.filter == 7,
        before.finish().0.on_reply(reply).0.finish() == (
            before.finish().0.on_reply(reply).0,
            Outcome::Done,
        ),
        before.finish().0.on_fault(text).0.finish() == (
            before.finish().0.on_fault(text).0,
            Outcome::Done,
        ),
{
}

} // verus!
