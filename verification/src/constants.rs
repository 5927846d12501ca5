//! Limits and the numbering of sessions.

use vstd::prelude::*;

verus! {

/// Seconds to wait for the payload of a response before the read times out.
pub const TCP_TIMEOUT_SECS: u64 = 3;

/// The number of bytes with which the server greets a new connection, at
/// most.  They belong to an older protocol and are discarded.
pub const GREETING_LEN: usize = 4;

/// The default length of the buffer for reading responses.
pub const BUFFER_LENGTH: usize = 32768;

/// The next id after `*counter`, which is advanced to it.  Ids grow by one;
/// a counter at its largest value starts again at zero.
pub fn next_id(counter: &mut u64) -> (id: u64)
    ensures
        *final(counter) == id,
        id == if *old(counter) == u64::MAX {
            0
        } else {
            *old(counter) + 1
        },
{
    *counter = counter.wrapping_add(1);
    *counter
}

} // verus!
