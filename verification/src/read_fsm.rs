//! The frame assembler: a state machine that takes the outcome of one byte
//! read at a time and tells when a whole frame has arrived intact.
//!
//! Every byte goes to the next free place of a buffer of fixed size. When the
//! buffer is full its checksum decides between `Finished` and `Failed`. A read
//! that fails ends the attempt at once. The machine does not hunt for the
//! magic numbers in the stream: a frame that starts at the wrong byte is
//! caught by its checksum, and the caller starts afresh.

use vstd::prelude::*;
use crate::checksum::{be16, byte_sum, checksum_valid, lemma_checksum_of_short, verify_checksum};
use crate::command::{MN1, MN2};

verus! {

/// Where a read stands once an outcome has been taken in.
#[derive(Clone, Copy, Debug, PartialEq, Eq, Structural)]
pub enum ReadStatus {
    /// More bytes are needed.
    InProgress,
    /// The buffer is full and its checksum is valid.
    Finished,
    /// A read failed, or the full buffer did not pass its checksum.
    Failed,
}

/// What the outcome of a byte read holds for the assembler: the byte, or
/// nothing when the read failed, whatever the error.
pub open spec fn byte_of<E>(read_result: Result<u8, E>) -> Option<u8> {
    match read_result {
        Ok(byte) => Some(byte),
        Err(_) => None,
    }
}

/// A run of successful reads, one for each byte of `bytes`.
pub open spec fn received(bytes: Seq<u8>) -> Seq<Option<u8>> {
    Seq::new(bytes.len(), |i: int| Some(bytes[i]))
}

/// The assembler as a mathematical value.
pub ghost struct ReadState {
    /// The buffer: what has been received so far, then what it held before.
    pub bytes: Seq<u8>,
    /// Number of bytes received: the place where the next one goes.
    pub cursor: nat,
    /// Number of leading places at which a magic number is looked for.
    pub header_len: nat,
    /// Where the read stands.
    pub status: ReadStatus,
}

impl ReadState {
    /// The state in which a read into `buffer` starts.
    pub open spec fn start(buffer: Seq<u8>, header_len: nat) -> ReadState {
        ReadState { bytes: buffer, cursor: 0, header_len, status: ReadStatus::InProgress }
    }

    /// The cursor stays within the buffer, and a finished read has filled the
    /// buffer with a valid frame.
    pub open spec fn wf(self) -> bool {
        &&& self.cursor <= self.bytes.len()
        &&& self.status == ReadStatus::Finished ==> self.cursor == self.bytes.len()
            && checksum_valid(self.bytes)
    }

    /// The state after one more outcome: `Some` byte, or `None` for a read
    /// that failed. A read that has ended, either way, stays as it is.
    pub open spec fn next(self, input: Option<u8>) -> ReadState {
        if self.status != ReadStatus::InProgress {
            self
        } else {
            match input {
                None => ReadState { status: ReadStatus::Failed, ..self },
                Some(byte) => if self.cursor >= self.bytes.len() {
                    ReadState { status: ReadStatus::Failed, ..self }
                } else {
                    let bytes = self.bytes.update(self.cursor as int, byte);
                    let cursor = self.cursor + 1;
                    let status = if cursor < bytes.len() {
                        ReadStatus::InProgress
                    } else if checksum_valid(bytes) {
                        ReadStatus::Finished
                    } else {
                        ReadStatus::Failed
                    };
                    ReadState { bytes, cursor: cursor as nat, status, ..self }
                },
            }
        }
    }

    /// The state after a sequence of outcomes, first to last.
    pub open spec fn run(self, inputs: Seq<Option<u8>>) -> ReadState
        decreases inputs.len(),
    {
        if inputs.len() == 0 {
            self
        } else {
            self.run(inputs.drop_last()).next(inputs.last())
        }
    }

    /// How many magic numbers stand at the head of what has been received,
    /// looking no further than `header_len` places: 0, 1 or 2.
    pub open spec fn header_matched(self) -> nat {
        let seen = if self.cursor < self.header_len {
            self.cursor
        } else {
            self.header_len
        };
        if seen >= 1 && self.bytes[0] == MN1 {
            if seen >= 2 && self.bytes[1] == MN2 {
                2
            } else {
                1
            }
        } else {
            0
        }
    }
}

/// Well-formedness survives every outcome.
pub proof fn lemma_next_wf(state: ReadState, input: Option<u8>)
    requires
        state.wf(),
    ensures
        state.next(input).wf(),
{
}

/// A read that has ended takes no notice of later outcomes.
pub proof fn lemma_ended_is_final(state: ReadState, inputs: Seq<Option<u8>>)
    requires
        state.status != ReadStatus::InProgress,
    ensures
        state.run(inputs) == state,
    decreases inputs.len(),
{
    if inputs.len() > 0 {
        lemma_ended_is_final(state, inputs.drop_last());
    }
}

/// A failed byte read, at whatever place before the buffer is full, makes
/// the read `Failed` at once, and nothing that follows makes it `InProgress`
/// or `Finished` again.
pub proof fn lemma_read_failure_is_final(state: ReadState, later: Seq<Option<u8>>)
    requires
        state.status == ReadStatus::InProgress,
    ensures
        state.next(None).status == ReadStatus::Failed,
        state.next(None).run(later).status == ReadStatus::Failed,
{
    lemma_ended_is_final(state.next(None), later);
}

/// While fewer bytes have come than the buffer holds, the read is in
/// progress; the buffer starts with what has come and goes on as it was.
pub proof fn lemma_partial_read(buffer: Seq<u8>, header_len: nat, frame: Seq<u8>, count: int)
    requires
        frame.len() == buffer.len(),
        0 <= count < frame.len(),
    ensures
        ReadState::start(buffer, header_len).run(received(frame.take(count))) == (ReadState {
            bytes: frame.take(count) + buffer.skip(count),
            cursor: count as nat,
            header_len,
            status: ReadStatus::InProgress,
        }),
    decreases count,
{
    let inputs = received(frame.take(count));
    if count == 0 {
        assert(frame.take(0) + buffer.skip(0) =~= buffer);
    } else {
        lemma_partial_read(buffer, header_len, frame, count - 1);
        assert(inputs.drop_last() =~= received(frame.take(count - 1)));
        assert(inputs.last() == Some(frame[count - 1]));
        assert((frame.take(count - 1) + buffer.skip(count - 1)).update(count - 1, frame[count - 1])
            =~= frame.take(count) + buffer.skip(count));
    }
}

/// What comes of reading a whole frame. Fed as many bytes as the buffer
/// holds, the assembler is in progress up to the last one; then the buffer
/// holds exactly those bytes, and the read is `Finished` if they carry a
/// valid checksum and `Failed` if not.
pub proof fn lemma_frame_read(buffer: Seq<u8>, header_len: nat, frame: Seq<u8>)
    requires
        frame.len() == buffer.len(),
        frame.len() > 0,
    ensures
        forall|count: int|
            0 <= count < frame.len() ==> (#[trigger] ReadState::start(buffer, header_len).run(
                received(frame.take(count)),
            )).status == ReadStatus::InProgress,
        ReadState::start(buffer, header_len).run(received(frame)) == (ReadState {
            bytes: frame,
            cursor: frame.len(),
            header_len,
            status: if checksum_valid(frame) {
                ReadStatus::Finished
            } else {
                ReadStatus::Failed
            },
        }),
{
    let n = frame.len() as int;
    assert forall|count: int| 0 <= count < frame.len() implies (#[trigger] ReadState::start(
        buffer,
        header_len,
    ).run(received(frame.take(count)))).status == ReadStatus::InProgress by {
        lemma_partial_read(buffer, header_len, frame, count);
    }
    lemma_partial_read(buffer, header_len, frame, n - 1);
    let inputs = received(frame);
    assert(inputs.drop_last() =~= received(frame.take(n - 1)));
    assert(inputs.last() == Some(frame[n - 1]));
    assert((frame.take(n - 1) + buffer.skip(n - 1)).update(n - 1, frame[n - 1]) =~= frame);
}

/// A measurement frame whose last two bytes are not the sum of the thirty
/// before them is never accepted: the read is in progress until the last
/// byte and `Failed` after it.
pub proof fn lemma_bad_checksum_fails(buffer: Seq<u8>, header_len: nat, frame: Seq<u8>)
    requires
        buffer.len() == 32,
        frame.len() == 32,
        be16(frame[30], frame[31]) != byte_sum(frame.take(30)),
    ensures
        forall|count: int|
            0 <= count < 32 ==> (#[trigger] ReadState::start(buffer, header_len).run(
                received(frame.take(count)),
            )).status == ReadStatus::InProgress,
        ReadState::start(buffer, header_len).run(received(frame)).status == ReadStatus::Failed,
{
    lemma_checksum_of_short(frame.take(30));
    lemma_frame_read(buffer, header_len, frame);
}

/// Assembles one frame of `N` bytes from the outcomes of single byte reads.
///
/// Made for one read and dropped when that read has ended.
pub struct ReadStateMachine<const N: usize> {
    buffer: [u8; N],
    index: usize,
    header_len: usize,
    status: ReadStatus,
}

impl<const N: usize> ReadStateMachine<N> {
    #[verifier::type_invariant]
    spec fn inv(self) -> bool {
        self@.wf()
    }

    /// The assembler as a mathematical value.
    pub closed spec fn view(&self) -> ReadState {
        ReadState {
            bytes: self.buffer@,
            cursor: self.index as nat,
            header_len: self.header_len as nat,
            status: self.status,
        }
    }

    /// Starts a read into `buffer`, at its first place. `header_len` says at
    /// how many leading places `header_matched` looks for a magic number.
    pub fn new(buffer: [u8; N], header_len: usize) -> (fsm: Self)
        ensures
            fsm@ == ReadState::start(buffer@, header_len as nat),
            fsm@.wf(),
    {
        ReadStateMachine { buffer, index: 0, header_len, status: ReadStatus::InProgress }
    }

    /// Takes in the outcome of one byte read and tells where the read stands.
    ///
    /// A byte goes to the next place of the buffer; the byte that fills the
    /// buffer has the checksum decide. An error of any kind fails the read.
    /// Once the read has ended, either way, nothing changes any more.
    pub fn update<E>(&mut self, read_result: Result<u8, E>) -> (status: ReadStatus)
        ensures
            final(self)@ == old(self)@.next(byte_of(read_result)),
            final(self)@.wf(),
            status == final(self)@.status,
            status == ReadStatus::Finished ==> checksum_valid(final(self)@.bytes),
            old(self)@.status == ReadStatus::InProgress && read_result is Err ==> status
                == ReadStatus::Failed,
            old(self)@.status != ReadStatus::InProgress ==> status == old(self)@.status,
    {
        proof {
            use_type_invariant(&*self);
        }
        match self.status {
            ReadStatus::InProgress => {},
            _ => {
                return self.status;
            },
        }
        match read_result {
            Ok(byte) => {
                if self.index >= N {
                    self.status = ReadStatus::Failed;
                } else {
                    self.buffer[self.index] = byte;
                    self.index += 1;
                    if self.index == N {
                        if verify_checksum(&self.buffer) {
                            self.status = ReadStatus::Finished;
                        } else {
                            self.status = ReadStatus::Failed;
                        }
                    }
                }
            },
            Err(_) => {
                self.status = ReadStatus::Failed;
            },
        }
        self.status
    }

    /// Where the read stands.
    pub fn status(&self) -> (status: ReadStatus)
        ensures
            status == self@.status,
    {
        self.status
    }

    /// The buffer: the bytes received so far, then what it held before. After
    /// `Finished` it is a frame with a valid checksum.
    pub fn buffer(&self) -> (buffer: &[u8; N])
        ensures
            buffer@ == self@.bytes,
            self@.wf(),
    {
        proof {
            use_type_invariant(self);
        }
        &self.buffer
    }

    /// How many magic numbers stand at the head of what has been received,
    /// looking no further than the first `header_len` places. A caller whose
    /// read failed can tell from it whether the stream was out of step.
    pub fn header_matched(&self) -> (count: usize)
        ensures
            count == self@.header_matched(),
    {
        proof {
            use_type_invariant(self);
        }
        let seen: usize = if self.index < self.header_len {
            self.index
        } else {
            self.header_len
        };
        if seen >= 1 && self.buffer[0] == MN1 {
            if seen >= 2 && self.buffer[1] == MN2 {
                2
            } else {
                1
            }
        } else {
            0
        }
    }
}

} // verus!
