//! The pure parts of the framed transport: the per-session operation-id
//! counter and its sizing constants. The byte channel itself, the locks
//! and the deadline handling live outside the library; they feed bytes
//! to `protocol::EarPacket::try_parse` and draw operation ids from
//! `next_operation_id`.

use vstd::prelude::*;

verus! {

/// How many bytes one channel read may return at most.
pub const READ_BUFFER_SIZE: usize = 512;

/// The default per-request timeout, in milliseconds.
pub const DEFAULT_TIMEOUT_MS: u64 = 2000;

/// The operation id assigned after `current`: counts 1, 2, ..., 250 and
/// wraps back to 1; never 0.
pub open spec fn spec_next_operation_id(current: u8) -> u8 {
    if current >= 250 {
        1
    } else {
        (current + 1) as u8
    }
}

/// Law: advances the operation-id counter. Starting from 1 the counter
/// walks 1, 2, ..., 250 and wraps back to 1; it never yields 0, and it
/// never leaves 1..=250 once inside.
pub fn next_operation_id(current: u8) -> (next: u8)
    ensures
        next == spec_next_operation_id(current),
        next != 0,
        current < 250 ==> next == current + 1,
        current >= 250 ==> next == 1,
        1 <= next <= 250,
{
    if current >= 250 {
        1
    } else {
        current + 1
    }
}

} // verus!
