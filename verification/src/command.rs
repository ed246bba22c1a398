//! Command frames sent to the sensor.
//!
//! A command is seven bytes: the two magic numbers, an opcode, a 16-bit
//! argument whose high byte is always zero, and the checksum of those five.

use vstd::prelude::*;
use crate::checksum::{byte_sum, checksum_valid, compute_checksum, lemma_checksum_of_short, CHECKSUM_SIZE};

verus! {

/// First magic number, which opens every frame.
pub const MN1: u8 = 0x42;

/// Second magic number.
pub const MN2: u8 = 0x4D;

/// Length of a command frame.
pub const CMD_FRAME_SIZE: usize = 7;

/// The checksum of the command with this opcode and argument: the sum of the
/// two magic numbers, the opcode and the argument.
pub open spec fn command_checksum(opcode: u8, argument: u8) -> int {
    MN1 as int + MN2 as int + opcode as int + argument as int
}

/// The command frame for `opcode` and `argument`, byte by byte.
pub open spec fn command_frame(opcode: u8, argument: u8) -> Seq<u8> {
    let sum = command_checksum(opcode, argument);
    seq![MN1, MN2, opcode, 0u8, argument, (sum / 256) as u8, (sum % 256) as u8]
}

/// The five bytes that a command's checksum covers add up to
/// `command_checksum`.
proof fn lemma_command_body_sum(frame: Seq<u8>, opcode: u8, argument: u8)
    requires
        frame.len() == 7,
        frame[0] == MN1,
        frame[1] == MN2,
        frame[2] == opcode,
        frame[3] == 0,
        frame[4] == argument,
    ensures
        byte_sum(frame.take(5)) == command_checksum(opcode, argument),
{
    let b5 = frame.take(5);
    let b4 = frame.take(4);
    let b3 = frame.take(3);
    let b2 = frame.take(2);
    let b1 = frame.take(1);
    assert(b5.drop_last() =~= b4);
    assert(b4.drop_last() =~= b3);
    assert(b3.drop_last() =~= b2);
    assert(b2.drop_last() =~= b1);
    assert(b1.drop_last() =~= Seq::<u8>::empty());
    assert(byte_sum(Seq::<u8>::empty()) == 0);
    assert(byte_sum(b1) == MN1 as int);
    assert(byte_sum(b2) == MN1 as int + MN2 as int);
    assert(byte_sum(b3) == MN1 as int + MN2 as int + opcode as int);
    assert(byte_sum(b4) == MN1 as int + MN2 as int + opcode as int);
}

/// Round trip: every command frame passes the checksum test that the sensor's
/// own frames are held to.
pub proof fn lemma_command_frame_valid(opcode: u8, argument: u8)
    ensures
        command_frame(opcode, argument).len() == CMD_FRAME_SIZE,
        checksum_valid(command_frame(opcode, argument)),
{
    let frame = command_frame(opcode, argument);
    lemma_command_body_sum(frame, opcode, argument);
    lemma_checksum_of_short(frame.take(5));
}

/// Builds the command frame for opcode `cmd` with argument `data`.
pub fn create_command(cmd: u8, data: u8) -> (frame: [u8; CMD_FRAME_SIZE])
    ensures
        frame@ == command_frame(cmd, data),
        checksum_valid(frame@),
{
    let mut buffer: [u8; CMD_FRAME_SIZE] = [MN1, MN2, cmd, 0, data, 0, 0];
    let sum: u16 = compute_checksum(&buffer, CMD_FRAME_SIZE - CHECKSUM_SIZE);
    proof {
        lemma_command_body_sum(buffer@, cmd, data);
        lemma_checksum_of_short(buffer@.take(5));
    }
    buffer[5] = (sum / 256) as u8;
    buffer[6] = (sum % 256) as u8;
    proof {
        assert(buffer@ =~= command_frame(cmd, data));
        lemma_command_frame_valid(cmd, data);
    }
    buffer
}

} // verus!
