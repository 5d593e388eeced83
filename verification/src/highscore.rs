//! The highscore table: per-level best (lowest) frame count.
//!
//! Stored as an association list searched from the front; an insert
//! shadows any earlier entry for the same level, so the front-most entry
//! is always the current best.  Persistence is the save collaborator's
//! concern; this table is only the in-memory view it loads and stores.

use vstd::prelude::*;

verus! {

/// The value of the front-most entry for `level`, if any.
pub open spec fn spec_lookup(entries: Seq<(usize, usize)>, level: usize) -> Option<usize>
    decreases entries.len(),
{
    if entries.len() == 0 {
        None
    } else if entries[0].0 == level {
        Some(entries[0].1)
    } else {
        spec_lookup(entries.skip(1), level)
    }
}

/// Mapping from level index to the fewest ticks in which that level has
/// been completed.
#[derive(Clone, Debug)]
pub struct HighscoreTable {
    pub entries: Vec<(usize, usize)>,
}

impl HighscoreTable {
    /// What the table currently records for `level`.
    pub open spec fn spec_get(self, level: usize) -> Option<usize> {
        spec_lookup(self.entries@, level)
    }

    /// An empty table: no level has a recorded best.
    pub fn new() -> (t: HighscoreTable)
        ensures
            forall|level: usize| t.spec_get(level) is None,
    {
        HighscoreTable { entries: Vec::new() }
    }

    /// Look up the recorded best frame count for `level`.
    pub fn get(&self, level: usize) -> (r: Option<usize>)
        ensures
            r == self.spec_get(level),
    {
        let n = self.entries.len();
        let mut i: usize = 0;
        proof {
            assert(self.entries@.skip(0) =~= self.entries@);
        }
        while i < n
            invariant
                n == self.entries@.len(),
                0 <= i <= n,
                spec_lookup(self.entries@.skip(i as int), level) == self.spec_get(level),
            decreases n - i,
        {
            let (k, v) = self.entries[i];
            assert(self.entries@.skip(i as int)[0] == self.entries@[i as int]);
            assert(self.entries@.skip(i as int).skip(1) =~= self.entries@.skip(i as int + 1));
            if k == level {
                return Some(v);
            }
            i = i + 1;
        }
        None
    }

    /// Record `frames` as the best for `level`, shadowing any earlier
    /// entry; every other level's record is untouched.
    pub fn insert(&mut self, level: usize, frames: usize)
        ensures
            final(self).spec_get(level) == Some(frames),
            forall|other: usize|
                other != level ==> #[trigger] final(self).spec_get(other) == old(self).spec_get(
                    other,
                ),
    {
        self.entries.insert(0, (level, frames));
        proof {
            assert(self.entries@.skip(1) =~= old(self).entries@);
        }
    }
}

} // verus!
