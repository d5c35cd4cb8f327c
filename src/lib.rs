//! Decoding of MIDI channel-voice messages from raw wire bytes.

use vstd::prelude::*;

pub mod message;
pub mod status;

verus! {

/// Adds two sizes; the sum must fit in a `usize`.
pub fn add(left: usize, right: usize) -> (r: usize)
    requires
        left + right <= usize::MAX,
    ensures
        r == left + right,
{
    left + right
}

} // verus!
