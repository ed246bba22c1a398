//! The additive checksum that closes every frame.
//!
//! A frame ends in two bytes that hold, in big-endian order, the sum of all
//! bytes before them, reduced modulo 2^16.

use vstd::prelude::*;
use vstd::arithmetic::div_mod::{lemma_add_mod_noop, lemma_mod_equivalence, lemma_small_mod};

verus! {

/// Number of trailing bytes of a frame that hold its checksum.
pub const CHECKSUM_SIZE: usize = 2;

/// Sum of all bytes of `bytes`, as a mathematical integer.
pub open spec fn byte_sum(bytes: Seq<u8>) -> int
    decreases bytes.len(),
{
    if bytes.len() == 0 {
        0
    } else {
        byte_sum(bytes.drop_last()) + bytes.last() as int
    }
}

/// The checksum of `bytes`: their sum modulo 2^16.
pub open spec fn checksum(bytes: Seq<u8>) -> int {
    byte_sum(bytes) % 0x1_0000
}

/// The 16-bit value that the byte pair `hi`, `lo` holds in big-endian order.
pub open spec fn be16(hi: u8, lo: u8) -> u16 {
    (hi as int * 256 + lo as int) as u16
}

/// A frame is valid when it has room for a checksum and its last two bytes
/// hold, in big-endian order, the checksum of all bytes before them.
pub open spec fn checksum_valid(frame: Seq<u8>) -> bool {
    &&& frame.len() >= 2
    &&& checksum(frame.take(frame.len() - 2)) == be16(
        frame[frame.len() - 2],
        frame[frame.len() - 1],
    )
}

/// The sum of `n` bytes lies between 0 and `255 * n`.
pub proof fn lemma_byte_sum_bounds(bytes: Seq<u8>)
    ensures
        0 <= byte_sum(bytes) <= 255 * bytes.len(),
    decreases bytes.len(),
{
    if bytes.len() > 0 {
        lemma_byte_sum_bounds(bytes.drop_last());
    }
}

/// Up to 257 bytes cannot reach 2^16, so their checksum is their plain sum.
pub proof fn lemma_checksum_of_short(bytes: Seq<u8>)
    requires
        bytes.len() <= 257,
    ensures
        checksum(bytes) == byte_sum(bytes),
{
    lemma_byte_sum_bounds(bytes);
    lemma_small_mod(byte_sum(bytes) as nat, 0x1_0000);
}

/// Replacing one byte moves the sum by the difference of the two values.
pub proof fn lemma_byte_sum_update(bytes: Seq<u8>, i: int, value: u8)
    requires
        0 <= i < bytes.len(),
    ensures
        byte_sum(bytes.update(i, value)) == byte_sum(bytes) - bytes[i] + value,
    decreases bytes.len(),
{
    let changed = bytes.update(i, value);
    if i == bytes.len() - 1 {
        assert(changed.drop_last() =~= bytes.drop_last());
    } else {
        assert(changed.drop_last() =~= bytes.drop_last().update(i, value));
        lemma_byte_sum_update(bytes.drop_last(), i, value);
    }
}

/// The checksum catches every change of a single byte: a valid frame of any
/// length stops being valid when one of its bytes, payload or checksum, takes
/// another value.
pub proof fn lemma_single_byte_change_detected(frame: Seq<u8>, i: int, value: u8)
    requires
        checksum_valid(frame),
        0 <= i < frame.len(),
        value != frame[i],
    ensures
        !checksum_valid(frame.update(i, value)),
{
    let n = frame.len() as int;
    let changed = frame.update(i, value);
    if i < n - 2 {
        let body = frame.take(n - 2);
        assert(changed.take(n - 2) =~= body.update(i, value));
        lemma_byte_sum_update(body, i, value);
        let before = byte_sum(body);
        let after = byte_sum(body.update(i, value));
        if after % 0x1_0000 == before % 0x1_0000 {
            if after > before {
                lemma_mod_equivalence(after, before, 0x1_0000);
                lemma_small_mod((after - before) as nat, 0x1_0000);
            } else {
                lemma_mod_equivalence(before, after, 0x1_0000);
                lemma_small_mod((before - after) as nat, 0x1_0000);
            }
        }
    } else {
        assert(changed.take(n - 2) =~= frame.take(n - 2));
    }
}

/// Computes the checksum of the first `len` bytes of `buffer`.
pub fn compute_checksum(buffer: &[u8], len: usize) -> (sum: u16)
    requires
        len <= buffer@.len(),
    ensures
        sum == checksum(buffer@.take(len as int)),
{
    let mut sum: u32 = 0;
    let mut i: usize = 0;
    assert(buffer@.take(0) =~= Seq::<u8>::empty());
    while i < len
        invariant
            i <= len <= buffer@.len(),
            sum < 0x1_0000,
            sum == checksum(buffer@.take(i as int)),
        decreases len - i,
    {
        proof {
            let before = buffer@.take(i as int);
            let after = buffer@.take(i as int + 1);
            assert(after.drop_last() =~= before);
            lemma_add_mod_noop(byte_sum(before), buffer@[i as int] as int, 0x1_0000);
        }
        sum = (sum + buffer[i] as u32) % 0x1_0000;
        i += 1;
    }
    sum as u16
}

/// Tells whether the last two bytes of `buffer` hold the checksum of the
/// bytes before them. A buffer shorter than a checksum never validates.
pub fn verify_checksum(buffer: &[u8]) -> (valid: bool)
    ensures
        valid == checksum_valid(buffer@),
{
    let n: usize = buffer.len();
    if n < CHECKSUM_SIZE {
        return false;
    }
    let sum: u16 = compute_checksum(buffer, n - CHECKSUM_SIZE);
    let stored: u16 = buffer[n - 2] as u16 * 256 + buffer[n - 1] as u16;
    sum == stored
}

} // verus!
