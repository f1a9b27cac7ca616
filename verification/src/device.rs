//! Preparation of the device descriptors the session hands to the renderer.
//! Polling for hardware page-flip completion needs a blocking wait, so the
//! descriptor's non-blocking status flag is cleared unconditionally before
//! the renderer ever sees the descriptor; every other flag is left alone.

use vstd::prelude::*;

verus! {

/// The non-blocking bit of a descriptor's status flags.
pub const O_NONBLOCK: u32 = 2048;

/// What `clear_nonblock` computes: the status flags with the non-blocking
/// bit removed.
pub open spec fn nonblock_cleared(flags: u32) -> u32 {
    flags & !O_NONBLOCK
}

/// Clears the non-blocking bit of a descriptor's status flags and keeps
/// every other bit, whatever state the flags were handed over in.
pub fn clear_nonblock(flags: u32) -> (r: u32)
    ensures
        r == nonblock_cleared(flags),
        r & O_NONBLOCK == 0,
        r | O_NONBLOCK == flags | O_NONBLOCK,
{
    let r = flags & !O_NONBLOCK;
    assert((flags & !2048u32) & 2048u32 == 0) by (bit_vector);
    assert((flags & !2048u32) | 2048u32 == flags | 2048u32) by (bit_vector);
    r
}

/// Clearing the non-blocking bit is total and idempotent: for every
/// incoming flag word the result has the bit clear, and a descriptor whose
/// flags were already blocking is left exactly as it was.
pub proof fn lemma_nonblock_always_cleared(flags: u32)
    ensures
        nonblock_cleared(flags) & O_NONBLOCK == 0,
        nonblock_cleared(nonblock_cleared(flags)) == nonblock_cleared(flags),
        flags & O_NONBLOCK == 0 ==> nonblock_cleared(flags) == flags,
{
    assert((flags & !2048u32) & 2048u32 == 0) by (bit_vector);
    assert((flags & !2048u32) & !2048u32 == flags & !2048u32) by (bit_vector);
    assert(flags & 2048u32 == 0 ==> flags & !2048u32 == flags) by (bit_vector);
}

} // verus!
