//! The shared completion counter of one pipeline stage: a total set at
//! construction and a count that only ever moves forward by one. The
//! periodic display that reads it is a pure consumer and lives with the
//! I/O driver.

use vstd::prelude::*;

verus! {

/// Tracks how many of a stage's tasks have finished.
pub struct ProgressBar {
    pub total: usize,
    pub completed: usize,
    pub title: String,
}

impl ProgressBar {
    /// A fresh counter for a stage of `total` tasks.
    pub fn new(total: usize, title: String) -> (r: ProgressBar)
        ensures
            r.total == total,
            r.completed == 0,
            r.title == title,
    {
        ProgressBar { total, completed: 0, title }
    }

    /// Records one more finished task. At the counter type's ceiling the
    /// count stays put instead of wrapping.
    pub fn increment(&mut self)
        ensures
            final(self).total == old(self).total,
            final(self).title == old(self).title,
            final(self).completed == if old(self).completed < usize::MAX {
                old(self).completed + 1
            } else {
                old(self).completed as int
            },
    {
        if self.completed < usize::MAX {
            self.completed = self.completed + 1;
        }
    }

    /// Whether every task of the stage has finished; the periodic
    /// reporter stops once this holds.
    pub fn is_complete(&self) -> (r: bool)
        ensures
            r == (self.completed >= self.total),
    {
        self.completed >= self.total
    }

    /// The current count and the total, for display.
    pub fn counts(&self) -> (r: (usize, usize))
        ensures
            r.0 == self.completed,
            r.1 == self.total,
    {
        (self.completed, self.total)
    }
}

} // verus!
