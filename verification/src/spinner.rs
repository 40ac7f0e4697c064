//! The spinner the driver shows while a provider call is in flight is
//! cosmetic terminal output and lives with the driver; the one piece of
//! logic in it — the cycling frame index — is kept here.

use vstd::prelude::*;

verus! {

/// How many frames the spinner cycles through.
pub const SPINNER_FRAMES: usize = 10;

/// The frame shown after frame `i`: the next one, wrapping around.
pub fn next_frame(i: usize) -> (r: usize)
    requires
        i < SPINNER_FRAMES,
    ensures
        r == (i + 1) % (SPINNER_FRAMES as int),
        r < SPINNER_FRAMES,
{
    (i + 1) % SPINNER_FRAMES
}

} // verus!
