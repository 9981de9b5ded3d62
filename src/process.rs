//! The per-file rename decision and the run's tally.
use vstd::prelude::*;

use crate::error::RenameError;
use crate::naming::{candidate_name, target_name, title_text};
use crate::sanitize::{lemma_sanitize_idempotent, sanitized};
use crate::text::same_text;

verus! {

/// How one file was handled, when it was handled without error.
#[derive(Debug, Clone, Copy, PartialEq, Eq, Structural)]
pub enum RenameOutcome {
    /// The file now carries its canonical name.
    Renamed,
    /// The file already carried its canonical name.
    SkippedUnchanged,
    /// Another entry already stands at the canonical name; nothing was touched.
    SkippedCollision,
}

/// What to do with one file once its canonical name is known.
#[derive(Debug, Clone, Copy, PartialEq, Eq, Structural)]
pub enum Decision {
    /// Leave the file as it is, with this outcome.
    Skip(RenameOutcome),
    /// Rename the file to its canonical name.
    Rename,
}

/// The decision for a file named `current` whose canonical name is `target`:
/// an equal name is kept, an occupied target is never overwritten.
pub open spec fn decision(current: Seq<char>, target: Seq<char>, target_exists: bool) -> Decision {
    if current == target {
        Decision::Skip(RenameOutcome::SkippedUnchanged)
    } else if target_exists {
        Decision::Skip(RenameOutcome::SkippedCollision)
    } else {
        Decision::Rename
    }
}

/// Decides what to do with a file named `current` whose sanitized canonical
/// name is `target`; `target_exists` tells whether an entry stands at the
/// target path.
pub fn decide_rename(current: &str, target: &str, target_exists: bool) -> (r: Decision)
    ensures
        r == decision(current@, target@, target_exists),
{
    if same_text(current, target) {
        Decision::Skip(RenameOutcome::SkippedUnchanged)
    } else if target_exists {
        Decision::Skip(RenameOutcome::SkippedCollision)
    } else {
        Decision::Rename
    }
}

/// A file that already carries the name built from its own tag fields is
/// left unchanged: that name is a fixed point of sanitizing, and the decision
/// for it is `SkippedUnchanged` whether or not the target exists.
pub proof fn lemma_correct_name_is_kept(
    current: Seq<char>,
    track: Option<u32>,
    title: Option<Seq<char>>,
    ext: Seq<char>,
    target_exists: bool,
)
    requires
        current == target_name(track, title, ext),
    ensures
        sanitized(current) == current,
        decision(current, target_name(track, title, ext), target_exists) == Decision::Skip(
            RenameOutcome::SkippedUnchanged,
        ),
{
    lemma_sanitize_idempotent(candidate_name(track, title_text(title), ext));
}

/// Where an entry already stands at the target path, the file is never
/// renamed: its name and content stay as they were.
pub proof fn lemma_no_overwrite(current: Seq<char>, target: Seq<char>)
    ensures
        decision(current, target, true) is Skip,
{
}

/// The three counters of a run.
#[derive(Debug, Clone, Copy, PartialEq, Eq, Structural)]
pub struct RunSummary {
    /// Files renamed.
    pub success: u64,
    /// Files left as they were, unchanged or for a collision.
    pub skip: u64,
    /// Files that failed.
    pub error: u64,
}

impl RunSummary {
    /// The tally after one more file ended with `result`.
    pub open spec fn counted(self, result: Result<RenameOutcome, RenameError>) -> RunSummary {
        match result {
            Ok(RenameOutcome::Renamed) => RunSummary { success: (self.success + 1) as u64, ..self },
            Ok(_) => RunSummary { skip: (self.skip + 1) as u64, ..self },
            Err(_) => RunSummary { error: (self.error + 1) as u64, ..self },
        }
    }

    /// Whether one more file can be counted without a counter overflowing.
    pub open spec fn has_room(self) -> bool {
        self.success < u64::MAX && self.skip < u64::MAX && self.error < u64::MAX
    }

    /// All counters at zero, as at the start of a run.
    pub fn new() -> (r: RunSummary)
        ensures
            r == (RunSummary { success: 0, skip: 0, error: 0 }),
    {
        RunSummary { success: 0, skip: 0, error: 0 }
    }

    /// Whether one more file can be counted.
    pub fn can_record(&self) -> (r: bool)
        ensures
            r == self.has_room(),
    {
        self.success < u64::MAX && self.skip < u64::MAX && self.error < u64::MAX
    }

    /// Counts one file: a rename as a success, either skip as a skip, an
    /// error as an error.
    pub fn record(&mut self, result: &Result<RenameOutcome, RenameError>)
        requires
            old(self).has_room(),
        ensures
            *final(self) == old(self).counted(*result),
    {
        match result {
            Ok(RenameOutcome::Renamed) => self.success = self.success + 1,
            Ok(_) => self.skip = self.skip + 1,
            Err(_) => self.error = self.error + 1,
        }
    }
}

} // verus!
