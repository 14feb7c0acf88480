//! The schedule of the note the host plays through a loaded instrument:
//! a note starts before the first block and stops before block 100.
use vstd::prelude::*;

verus! {

/// The block before which the note is released.
pub const NOTE_OFF_BLOCK: i32 = 100;

/// How many blocks the host has processed.
pub struct NoteSchedule {
    pub blocks: i32,
}

impl NoteSchedule {
    /// No block processed yet.
    pub fn new() -> (schedule: Self)
        ensures
            schedule.blocks == 0,
    {
        NoteSchedule { blocks: 0 }
    }

    /// Counts one more block, and says whether the note is to be released
    /// before it: exactly when the blocks processed so far number
    /// `NOTE_OFF_BLOCK`.
    pub fn next_block(&mut self) -> (release: bool)
        requires
            old(self).blocks < i32::MAX,
        ensures
            release == (old(self).blocks == NOTE_OFF_BLOCK),
            final(self).blocks == old(self).blocks + 1,
    {
        let release = self.blocks == NOTE_OFF_BLOCK;
        self.blocks = self.blocks + 1;
        release
    }
}

} // verus!
