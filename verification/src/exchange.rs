//! The course of one operation on the sensor, free of I/O.
//!
//! An operation is a strict sequence: send a command, then read the
//! acknowledgement byte by byte and compare it; or read a measurement frame
//! byte by byte and decode it. An `Exchange` holds where that sequence
//! stands. It names the next thing for the transport to do, and takes in what
//! the transport reports. The caller owns the transport and runs the loop.

use vstd::prelude::*;
use crate::checksum::checksum_valid;
use crate::command::CMD_FRAME_SIZE;
use crate::error::Error;
use crate::frame::{decode_frame, OutputFrame, OUTPUT_FRAME_SIZE};
use crate::read_fsm::{lemma_frame_read, received, ReadState, ReadStateMachine, ReadStatus};
use crate::response::{
    lemma_responses_valid, Response, ACTIVE_MODE_RESPONSE, PASSIVE_MODE_RESPONSE,
    RESPONSE_FRAME_SIZE, SLEEP_RESPONSE,
};

verus! {

/// What an operation that succeeded hands back.
#[derive(Clone, Copy, Debug, PartialEq, Eq, Structural)]
pub enum Reply {
    /// The command was sent and, where one is due, acknowledged.
    Completed,
    /// The measurement that was read.
    Measurement(OutputFrame),
}

/// What the transport reports of the action it was asked for.
#[derive(Clone, Copy, Debug, PartialEq, Eq, Structural)]
pub enum Event {
    /// The write went through.
    Sent,
    /// The write failed.
    SendFailed,
    /// A read into a buffer of one byte came back with `count` bytes; `byte`
    /// is what the buffer holds.
    Received { count: usize, byte: u8 },
    /// The read failed.
    ReceiveFailed,
}

/// What the transport is to do next.
#[derive(Clone, Copy, Debug, PartialEq, Eq)]
pub enum Action {
    /// Write this command frame.
    Send([u8; CMD_FRAME_SIZE]),
    /// Read one byte.
    Receive,
    /// Nothing: the operation has ended with this result.
    Done(Result<Reply, Error>),
}

/// An `Action` as a mathematical value.
pub ghost enum Request {
    Send(Seq<u8>),
    Receive,
    Done(Result<Reply, Error>),
}

impl View for Action {
    type V = Request;

    open spec fn view(&self) -> Request {
        match *self {
            Action::Send(command) => Request::Send(command@),
            Action::Receive => Request::Receive,
            Action::Done(result) => Request::Done(result),
        }
    }
}

/// A buffer of `len` zero bytes, as every read starts with.
pub open spec fn zeros(len: nat) -> Seq<u8> {
    Seq::new(len, |i: int| 0u8)
}

/// The bytes of an acknowledgement that may be due.
pub open spec fn expected_view(expected: Option<Response>) -> Option<Seq<u8>> {
    match expected {
        Some(response) => Some(response@),
        None => None,
    }
}

/// A run of reads that each brought one byte, one for each byte of `bytes`.
pub open spec fn deliveries(bytes: Seq<u8>) -> Seq<Event> {
    Seq::new(bytes.len(), |i: int| Event::Received { count: 1, byte: bytes[i] })
}

/// How a read of an acknowledgement ends once the eight bytes `frame` have
/// come: a frame with a bad checksum is a failed read, an intact frame other
/// than `expected` is an incorrect response.
pub open spec fn response_outcome(frame: Seq<u8>, expected: Seq<u8>) -> Result<Reply, Error> {
    if !checksum_valid(frame) {
        Err(Error::ReadFailed)
    } else if frame == expected {
        Ok(Reply::Completed)
    } else {
        Err(Error::IncorrectResponse)
    }
}

/// How a read of a measurement ends once the thirty-two bytes `frame` have
/// come.
pub open spec fn measurement_outcome(frame: Seq<u8>) -> Result<Reply, Error> {
    if checksum_valid(frame) {
        Ok(Reply::Measurement(decode_frame(frame)))
    } else {
        Err(Error::ReadFailed)
    }
}

/// An exchange as a mathematical value.
#[allow(inconsistent_fields)]
pub ghost enum ExchangeState {
    /// The command is to be written; `expected` is the acknowledgement to
    /// read after it, if one is due.
    Sending { command: Seq<u8>, expected: Option<Seq<u8>> },
    /// A measurement frame is being read.
    ReceivingFrame { read: ReadState },
    /// An acknowledgement is being read.
    ReceivingResponse { read: ReadState, expected: Seq<u8> },
    /// The operation has ended.
    Done { result: Result<Reply, Error> },
}

impl ExchangeState {
    /// The start of the read of a measurement.
    pub open spec fn measurement() -> ExchangeState {
        ExchangeState::ReceivingFrame {
            read: ReadState::start(zeros(OUTPUT_FRAME_SIZE as nat), 0),
        }
    }

    /// The start of an operation that sends `command` and then, if `expected`
    /// is there, reads that acknowledgement.
    pub open spec fn command(command: Seq<u8>, expected: Option<Seq<u8>>) -> ExchangeState {
        ExchangeState::Sending { command, expected }
    }

    /// The start of the read of the acknowledgement `expected`.
    pub open spec fn awaiting(expected: Seq<u8>) -> ExchangeState {
        ExchangeState::ReceivingResponse {
            read: ReadState::start(zeros(RESPONSE_FRAME_SIZE as nat), 0),
            expected,
        }
    }

    /// Frames have their fixed lengths, and a read that is held is in
    /// progress.
    pub open spec fn wf(self) -> bool {
        match self {
            ExchangeState::Sending { command, expected } => {
                &&& command.len() == CMD_FRAME_SIZE
                &&& expected matches Some(response) ==> response.len() == RESPONSE_FRAME_SIZE
            },
            ExchangeState::ReceivingFrame { read } => {
                &&& read.wf()
                &&& read.bytes.len() == OUTPUT_FRAME_SIZE
                &&& read.status == ReadStatus::InProgress
            },
            ExchangeState::ReceivingResponse { read, expected } => {
                &&& read.wf()
                &&& read.bytes.len() == RESPONSE_FRAME_SIZE
                &&& read.status == ReadStatus::InProgress
                &&& expected.len() == RESPONSE_FRAME_SIZE
            },
            ExchangeState::Done { result } => true,
        }
    }

    /// What the transport is to do in this state.
    pub open spec fn action(self) -> Request {
        match self {
            ExchangeState::Sending { command, expected } => Request::Send(command),
            ExchangeState::ReceivingFrame { read } => Request::Receive,
            ExchangeState::ReceivingResponse { read, expected } => Request::Receive,
            ExchangeState::Done { result } => Request::Done(result),
        }
    }

    /// The state after the transport has reported `event`.
    ///
    /// A report that does not answer the action asked for changes nothing,
    /// and neither does a read that brought no byte. An operation that has
    /// ended stays as it is.
    pub open spec fn next(self, event: Event) -> ExchangeState {
        match self {
            ExchangeState::Sending { command, expected } => match event {
                Event::Sent => match expected {
                    Some(response) => ExchangeState::awaiting(response),
                    None => ExchangeState::Done { result: Ok(Reply::Completed) },
                },
                Event::SendFailed => ExchangeState::Done { result: Err(Error::SendFailed) },
                _ => self,
            },
            ExchangeState::ReceivingFrame { read } => match event {
                Event::Received { count, byte } => if count == 1 {
                    let read = read.next(Some(byte));
                    match read.status {
                        ReadStatus::InProgress => ExchangeState::ReceivingFrame { read },
                        ReadStatus::Finished => ExchangeState::Done {
                            result: Ok(Reply::Measurement(decode_frame(read.bytes))),
                        },
                        ReadStatus::Failed => ExchangeState::Done {
                            result: Err(Error::ReadFailed),
                        },
                    }
                } else {
                    self
                },
                Event::ReceiveFailed => ExchangeState::Done { result: Err(Error::ReadFailed) },
                _ => self,
            },
            ExchangeState::ReceivingResponse { read, expected } => match event {
                Event::Received { count, byte } => if count == 1 {
                    let read = read.next(Some(byte));
                    match read.status {
                        ReadStatus::InProgress => ExchangeState::ReceivingResponse {
                            read,
                            expected,
                        },
                        ReadStatus::Finished => ExchangeState::Done {
                            result: if read.bytes == expected {
                                Ok(Reply::Completed)
                            } else {
                                Err(Error::IncorrectResponse)
                            },
                        },
                        ReadStatus::Failed => ExchangeState::Done {
                            result: Err(Error::ReadFailed),
                        },
                    }
                } else {
                    self
                },
                Event::ReceiveFailed => ExchangeState::Done { result: Err(Error::ReadFailed) },
                _ => self,
            },
            ExchangeState::Done { result } => self,
        }
    }

    /// The state after a sequence of reports, first to last.
    pub open spec fn run(self, events: Seq<Event>) -> ExchangeState
        decreases events.len(),
    {
        if events.len() == 0 {
            self
        } else {
            self.run(events.drop_last()).next(events.last())
        }
    }
}

/// Well-formedness survives every report.
pub proof fn lemma_exchange_next_wf(state: ExchangeState, event: Event)
    requires
        state.wf(),
    ensures
        state.next(event).wf(),
{
}

/// An operation that has ended takes no notice of later reports.
pub proof fn lemma_done_is_final(result: Result<Reply, Error>, events: Seq<Event>)
    ensures
        (ExchangeState::Done { result }).run(events) == (ExchangeState::Done { result }),
    decreases events.len(),
{
    if events.len() > 0 {
        lemma_done_is_final(result, events.drop_last());
    }
}

/// A failure of the transport ends the operation at once, and for good: a
/// failed write as `SendFailed`, a failed read as `ReadFailed`.
pub proof fn lemma_transport_failure(state: ExchangeState, later: Seq<Event>)
    ensures
        state is Sending ==> state.next(Event::SendFailed).run(later) == (ExchangeState::Done {
            result: Err(Error::SendFailed),
        }),
        state is ReceivingFrame || state is ReceivingResponse ==> state.next(
            Event::ReceiveFailed,
        ).run(later) == (ExchangeState::Done { result: Err(Error::ReadFailed) }),
{
    lemma_done_is_final(Err(Error::SendFailed), later);
    lemma_done_is_final(Err(Error::ReadFailed), later);
}

/// While fewer bytes than a measurement frame have come, the exchange holds
/// the assembler that has taken them in.
proof fn lemma_partial_measurement(frame: Seq<u8>, count: int)
    requires
        frame.len() == OUTPUT_FRAME_SIZE,
        0 <= count < frame.len(),
    ensures
        ExchangeState::measurement().run(deliveries(frame.take(count)))
            == (ExchangeState::ReceivingFrame {
            read: ReadState::start(zeros(OUTPUT_FRAME_SIZE as nat), 0).run(
                received(frame.take(count)),
            ),
        }),
    decreases count,
{
    if count > 0 {
        lemma_partial_measurement(frame, count - 1);
        lemma_frame_read(zeros(OUTPUT_FRAME_SIZE as nat), 0, frame);
        assert(deliveries(frame.take(count)).drop_last() =~= deliveries(frame.take(count - 1)));
        assert(received(frame.take(count)).drop_last() =~= received(frame.take(count - 1)));
    }
}

/// What comes of reading a measurement: once thirty-two bytes have come, one
/// to a read, the operation has ended, with the decoded measurement if the
/// bytes carry a valid checksum and with `ReadFailed` if not.
pub proof fn lemma_measurement_exchange(frame: Seq<u8>)
    requires
        frame.len() == OUTPUT_FRAME_SIZE,
    ensures
        ExchangeState::measurement().run(deliveries(frame)) == (ExchangeState::Done {
            result: measurement_outcome(frame),
        }),
{
    let n = frame.len() as int;
    lemma_partial_measurement(frame, n - 1);
    lemma_frame_read(zeros(OUTPUT_FRAME_SIZE as nat), 0, frame);
    assert(deliveries(frame).drop_last() =~= deliveries(frame.take(n - 1)));
    assert(received(frame).drop_last() =~= received(frame.take(n - 1)));
}

/// While fewer bytes than an acknowledgement have come, the exchange holds
/// the assembler that has taken them in.
proof fn lemma_partial_response(expected: Seq<u8>, frame: Seq<u8>, count: int)
    requires
        frame.len() == RESPONSE_FRAME_SIZE,
        0 <= count < frame.len(),
    ensures
        ExchangeState::awaiting(expected).run(deliveries(frame.take(count)))
            == (ExchangeState::ReceivingResponse {
            read: ReadState::start(zeros(RESPONSE_FRAME_SIZE as nat), 0).run(
                received(frame.take(count)),
            ),
            expected,
        }),
    decreases count,
{
    if count > 0 {
        lemma_partial_response(expected, frame, count - 1);
        lemma_frame_read(zeros(RESPONSE_FRAME_SIZE as nat), 0, frame);
        assert(deliveries(frame.take(count)).drop_last() =~= deliveries(frame.take(count - 1)));
        assert(received(frame.take(count)).drop_last() =~= received(frame.take(count - 1)));
    }
}

/// What comes of reading an acknowledgement: once eight bytes have come, one
/// to a read, the operation has ended, with success if they are the
/// acknowledgement that was due, with `IncorrectResponse` if they are
/// another intact frame, and with `ReadFailed` if their checksum is bad.
pub proof fn lemma_response_exchange(expected: Seq<u8>, frame: Seq<u8>)
    requires
        frame.len() == RESPONSE_FRAME_SIZE,
    ensures
        ExchangeState::awaiting(expected).run(deliveries(frame)) == (ExchangeState::Done {
            result: response_outcome(frame, expected),
        }),
{
    let n = frame.len() as int;
    lemma_partial_response(expected, frame, n - 1);
    lemma_frame_read(zeros(RESPONSE_FRAME_SIZE as nat), 0, frame);
    assert(deliveries(frame).drop_last() =~= deliveries(frame.take(n - 1)));
    assert(received(frame).drop_last() =~= received(frame.take(n - 1)));
}

/// What comes of a command once it has been written: an operation without
/// acknowledgement has ended with success; one with an acknowledgement goes
/// on to read it.
pub proof fn lemma_command_sent(command: Seq<u8>, expected: Option<Seq<u8>>)
    ensures
        expected is None ==> ExchangeState::command(command, expected).next(Event::Sent) == (
        ExchangeState::Done { result: Ok(Reply::Completed) }),
        expected matches Some(response) ==> ExchangeState::command(command, expected).next(
            Event::Sent,
        ) == ExchangeState::awaiting(response),
{
}

/// Reports taken in one run after another come to the same as all of them
/// taken in one run.
pub proof fn lemma_run_concat(state: ExchangeState, first: Seq<Event>, second: Seq<Event>)
    ensures
        state.run(first + second) == state.run(first).run(second),
    decreases second.len(),
{
    if second.len() == 0 {
        assert(first + second =~= first);
    } else {
        lemma_run_concat(state, first, second.drop_last());
        assert((first + second).drop_last() =~= first + second.drop_last());
    }
}

/// What comes of an operation that awaits an acknowledgement, from its
/// start: the command is written, eight bytes come, one to a read, and the
/// operation has ended as `response_outcome` says.
pub proof fn lemma_acknowledged_command(command: Seq<u8>, expected: Seq<u8>, frame: Seq<u8>)
    requires
        frame.len() == RESPONSE_FRAME_SIZE,
    ensures
        ExchangeState::command(command, Some(expected)).run(seq![Event::Sent] + deliveries(frame))
            == (ExchangeState::Done { result: response_outcome(frame, expected) }),
{
    let start = ExchangeState::command(command, Some(expected));
    let sent = seq![Event::Sent];
    assert(sent.drop_last() =~= Seq::<Event>::empty());
    assert(start.run(sent.drop_last()) == start);
    assert(start.run(sent) == ExchangeState::awaiting(expected));
    lemma_run_concat(start, sent, deliveries(frame));
    lemma_response_exchange(expected, frame);
}

/// Each acknowledgement is accepted by the operation that awaits it: the
/// three frames carry a valid checksum and equal themselves.
pub proof fn lemma_acknowledgement_accepted(command: Seq<u8>)
    ensures
        ExchangeState::command(command, Some(SLEEP_RESPONSE@)).run(
            seq![Event::Sent] + deliveries(SLEEP_RESPONSE@),
        ) == (ExchangeState::Done { result: Ok(Reply::Completed) }),
        ExchangeState::command(command, Some(PASSIVE_MODE_RESPONSE@)).run(
            seq![Event::Sent] + deliveries(PASSIVE_MODE_RESPONSE@),
        ) == (ExchangeState::Done { result: Ok(Reply::Completed) }),
        ExchangeState::command(command, Some(ACTIVE_MODE_RESPONSE@)).run(
            seq![Event::Sent] + deliveries(ACTIVE_MODE_RESPONSE@),
        ) == (ExchangeState::Done { result: Ok(Reply::Completed) }),
{
    lemma_responses_valid();
    lemma_acknowledged_command(command, SLEEP_RESPONSE@, SLEEP_RESPONSE@);
    lemma_acknowledged_command(command, PASSIVE_MODE_RESPONSE@, PASSIVE_MODE_RESPONSE@);
    lemma_acknowledged_command(command, ACTIVE_MODE_RESPONSE@, ACTIVE_MODE_RESPONSE@);
}

#[allow(inconsistent_fields)]
enum Phase {
    Sending { command: [u8; CMD_FRAME_SIZE], expected: Option<Response> },
    ReceivingFrame { fsm: ReadStateMachine<OUTPUT_FRAME_SIZE> },
    ReceivingResponse { fsm: ReadStateMachine<RESPONSE_FRAME_SIZE>, expected: Response },
    Done { result: Result<Reply, Error> },
}

impl Phase {
    spec fn view(&self) -> ExchangeState {
        match *self {
            Phase::Sending { command, expected } => ExchangeState::Sending {
                command: command@,
                expected: expected_view(expected),
            },
            Phase::ReceivingFrame { fsm } => ExchangeState::ReceivingFrame { read: fsm@ },
            Phase::ReceivingResponse { fsm, expected } => ExchangeState::ReceivingResponse {
                read: fsm@,
                expected: expected@,
            },
            Phase::Done { result } => ExchangeState::Done { result },
        }
    }

    fn action(&self) -> (action: Action)
        ensures
            action@ == self@.action(),
    {
        match self {
            Phase::Sending { command, expected } => Action::Send(*command),
            Phase::ReceivingFrame { fsm } => Action::Receive,
            Phase::ReceivingResponse { fsm, expected } => Action::Receive,
            Phase::Done { result } => Action::Done(*result),
        }
    }

    fn step(&mut self, event: Event)
        ensures
            final(self)@ == old(self)@.next(event),
    {
        match self {
            Phase::Sending { command, expected } => match event {
                Event::Sent => match *expected {
                    Some(response) => {
                        let buffer: [u8; RESPONSE_FRAME_SIZE] = [0u8; RESPONSE_FRAME_SIZE];
                        assert(buffer@ =~= zeros(RESPONSE_FRAME_SIZE as nat));
                        *self = Phase::ReceivingResponse {
                            fsm: ReadStateMachine::new(buffer, 0),
                            expected: response,
                        };
                    },
                    None => {
                        *self = Phase::Done { result: Ok(Reply::Completed) };
                    },
                },
                Event::SendFailed => {
                    *self = Phase::Done { result: Err(Error::SendFailed) };
                },
                _ => {},
            },
            Phase::ReceivingFrame { fsm } => match event {
                Event::Received { count, byte } => {
                    if count == 1 {
                        let ch: Result<u8, Error> = Ok(byte);
                        match fsm.update(ch) {
                            ReadStatus::InProgress => {},
                            ReadStatus::Finished => {
                                let result = match OutputFrame::from_buffer(fsm.buffer()) {
                                    Ok(frame) => Ok(Reply::Measurement(frame)),
                                    Err(e) => Err(e),
                                };
                                *self = Phase::Done { result };
                            },
                            ReadStatus::Failed => {
                                *self = Phase::Done { result: Err(Error::ReadFailed) };
                            },
                        }
                    }
                },
                Event::ReceiveFailed => {
                    *self = Phase::Done { result: Err(Error::ReadFailed) };
                },
                _ => {},
            },
            Phase::ReceivingResponse { fsm, expected } => match event {
                Event::Received { count, byte } => {
                    if count == 1 {
                        let ch: Result<u8, Error> = Ok(byte);
                        match fsm.update(ch) {
                            ReadStatus::InProgress => {},
                            ReadStatus::Finished => {
                                let result = if crate::response::matches(
                                    fsm.buffer().as_slice(),
                                    expected.as_slice(),
                                ) {
                                    Ok(Reply::Completed)
                                } else {
                                    Err(Error::IncorrectResponse)
                                };
                                *self = Phase::Done { result };
                            },
                            ReadStatus::Failed => {
                                *self = Phase::Done { result: Err(Error::ReadFailed) };
                            },
                        }
                    }
                },
                Event::ReceiveFailed => {
                    *self = Phase::Done { result: Err(Error::ReadFailed) };
                },
                _ => {},
            },
            Phase::Done { result } => {},
        }
    }
}

/// One operation on the sensor, from its first action to its result.
pub struct Exchange {
    phase: Phase,
}

impl Exchange {
    /// The exchange as a mathematical value.
    pub closed spec fn view(&self) -> ExchangeState {
        self.phase@
    }

    /// Starts the read of a measurement frame.
    pub fn measurement() -> (exchange: Exchange)
        ensures
            exchange@ == ExchangeState::measurement(),
            exchange@.wf(),
    {
        let buffer: [u8; OUTPUT_FRAME_SIZE] = [0u8; OUTPUT_FRAME_SIZE];
        assert(buffer@ =~= zeros(OUTPUT_FRAME_SIZE as nat));
        Exchange { phase: Phase::ReceivingFrame { fsm: ReadStateMachine::new(buffer, 0) } }
    }

    /// Starts an operation that sends `command` and then, if `expected` is
    /// there, reads that acknowledgement.
    pub fn command(command: [u8; CMD_FRAME_SIZE], expected: Option<Response>) -> (exchange:
        Exchange)
        ensures
            exchange@ == ExchangeState::command(command@, expected_view(expected)),
            exchange@.wf(),
    {
        Exchange { phase: Phase::Sending { command, expected } }
    }

    /// What the transport is to do now.
    pub fn action(&self) -> (action: Action)
        ensures
            action@ == self@.action(),
    {
        self.phase.action()
    }

    /// Takes in what the transport reports and tells what it is to do next.
    ///
    /// A report that does not answer the action asked for is passed over, and
    /// so is a read that brought no byte: the same action is due again.
    pub fn step(&mut self, event: Event) -> (action: Action)
        ensures
            final(self)@ == old(self)@.next(event),
            old(self)@.wf() ==> final(self)@.wf(),
            action@ == final(self)@.action(),
    {
        self.phase.step(event);
        self.phase.action()
    }
}

} // verus!
