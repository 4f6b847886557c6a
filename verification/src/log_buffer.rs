//! Driver diagnostic log buffers.
//!
//! The driver writes a compile or link log into a caller-supplied byte buffer
//! and null-terminates it. The shell queries the required length first and
//! allocates exactly that much, but whatever buffer comes back, the text of
//! the log is its prefix up to the first null byte; this module extracts that
//! prefix with an exact contract.

use vstd::prelude::*;

verus! {

/// Cut a driver log buffer down to its text: the longest prefix that holds no
/// null byte. The result is exactly that prefix — every byte before the first
/// null, and all of `buffer` when no null occurs.
pub fn log_text(buffer: &Vec<u8>) -> (r: Vec<u8>)
    ensures
        r@.len() <= buffer@.len(),
        r@ == buffer@.take(r@.len() as int),
        forall|j: int| 0 <= j < r@.len() ==> r@[j] != 0,
        r@.len() < buffer@.len() ==> buffer@[r@.len() as int] == 0,
{
    let mut text: Vec<u8> = Vec::new();
    let mut i: usize = 0;
    while i < buffer.len()
        invariant
            i <= buffer@.len(),
            text@.len() == i,
            text@ == buffer@.take(i as int),
            forall|j: int| 0 <= j < i ==> buffer@[j] != 0,
        decreases buffer@.len() - i,
    {
        let b = buffer[i];
        if b == 0 {
            assert(text@ == buffer@.take(text@.len() as int));
            return text;
        }
        text.push(b);
        i = i + 1;
        assert(text@ =~= buffer@.take(i as int));
    }
    assert(text@ =~= buffer@.take(text@.len() as int));
    text
}

} // verus!
