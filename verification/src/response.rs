//! Acknowledgement frames with which the sensor answers a change of mode.

use vstd::prelude::*;
use crate::checksum::{byte_sum, checksum_valid, lemma_checksum_of_short};
use crate::command::{MN1, MN2};

verus! {

/// Length of an acknowledgement frame.
pub const RESPONSE_FRAME_SIZE: usize = 8;

/// An acknowledgement frame.
pub type Response = [u8; RESPONSE_FRAME_SIZE];

/// The sensor's answer to the switch to passive mode.
pub const PASSIVE_MODE_RESPONSE: Response = [MN1, MN2, 0x00, 0x04, 0xE1, 0x00, 0x01, 0x74];

/// The sensor's answer to the switch to active mode.
pub const ACTIVE_MODE_RESPONSE: Response = [MN1, MN2, 0x00, 0x04, 0xE1, 0x01, 0x01, 0x75];

/// The sensor's answer to the order to sleep.
pub const SLEEP_RESPONSE: Response = [MN1, MN2, 0x00, 0x04, 0xE4, 0x00, 0x01, 0x77];

/// Tells whether `buffer` is exactly `expected`: the same length and the same
/// byte at every place.
pub fn matches(buffer: &[u8], expected: &[u8]) -> (same: bool)
    ensures
        same == (buffer@ == expected@),
{
    if buffer.len() != expected.len() {
        return false;
    }
    let mut i: usize = 0;
    while i < buffer.len()
        invariant
            i <= buffer@.len(),
            buffer@.len() == expected@.len(),
            buffer@.take(i as int) == expected@.take(i as int),
        decreases buffer@.len() - i,
    {
        if buffer[i] != expected[i] {
            return false;
        }
        assert(buffer@.take(i as int + 1) =~= buffer@.take(i as int).push(buffer@[i as int]));
        assert(expected@.take(i as int + 1) =~= expected@.take(i as int).push(expected@[i as int]));
        i += 1;
    }
    assert(buffer@.take(i as int) =~= buffer@);
    assert(expected@.take(i as int) =~= expected@);
    true
}

/// The sum of six bytes.
proof fn lemma_sum_of_six(bytes: Seq<u8>)
    requires
        bytes.len() == 6,
    ensures
        byte_sum(bytes) == bytes[0] + bytes[1] + bytes[2] + bytes[3] + bytes[4] + bytes[5],
{
    let b5 = bytes.take(5);
    let b4 = bytes.take(4);
    let b3 = bytes.take(3);
    let b2 = bytes.take(2);
    let b1 = bytes.take(1);
    assert(bytes.drop_last() =~= b5);
    assert(b5.drop_last() =~= b4);
    assert(b4.drop_last() =~= b3);
    assert(b3.drop_last() =~= b2);
    assert(b2.drop_last() =~= b1);
    assert(b1.drop_last() =~= Seq::<u8>::empty());
    assert(byte_sum(Seq::<u8>::empty()) == 0);
    assert(byte_sum(b1) == bytes[0] as int);
    assert(byte_sum(b2) == bytes[0] + bytes[1]);
    assert(byte_sum(b3) == bytes[0] + bytes[1] + bytes[2]);
    assert(byte_sum(b4) == bytes[0] + bytes[1] + bytes[2] + bytes[3]);
    assert(byte_sum(b5) == bytes[0] + bytes[1] + bytes[2] + bytes[3] + bytes[4]);
}

/// Each of the three acknowledgements carries a valid checksum, so the frame
/// assembler lets it through.
pub proof fn lemma_responses_valid()
    ensures
        checksum_valid(PASSIVE_MODE_RESPONSE@),
        checksum_valid(ACTIVE_MODE_RESPONSE@),
        checksum_valid(SLEEP_RESPONSE@),
{
    lemma_sum_of_six(PASSIVE_MODE_RESPONSE@.take(6));
    lemma_checksum_of_short(PASSIVE_MODE_RESPONSE@.take(6));
    lemma_sum_of_six(ACTIVE_MODE_RESPONSE@.take(6));
    lemma_checksum_of_short(ACTIVE_MODE_RESPONSE@.take(6));
    lemma_sum_of_six(SLEEP_RESPONSE@.take(6));
    lemma_checksum_of_short(SLEEP_RESPONSE@.take(6));
}

} // verus!
