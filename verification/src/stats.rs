//! Run-wide counters.

use vstd::prelude::*;
use vstd::string::*;
use crate::text::{counter_line, push_counter};

verus! {

/// Counters of one run. Each counter only ever grows; it stops at the
/// largest value its type can hold.
#[derive(Debug, Clone, Copy, PartialEq, Eq, Structural)]
pub struct Statistics {
    pub dirs_created: usize,
    pub files_copied: usize,
    pub bytes_copied: u64,
    pub dirs_skipped: usize,
    pub files_skipped: usize,
    pub files_failed: usize,
    pub dirs_removed: usize,
    pub files_removed: usize,
}

/// `n + 1`, held at `usize::MAX`.
pub open spec fn bump(n: usize) -> usize {
    if n < usize::MAX {
        (n + 1) as usize
    } else {
        n
    }
}

/// `a + b`, held at `u64::MAX`.
pub open spec fn add_capped(a: u64, b: u64) -> u64 {
    if a + b <= u64::MAX {
        (a + b) as u64
    } else {
        u64::MAX
    }
}

fn bumped(n: usize) -> (r: usize)
    ensures
        r == bump(n),
{
    if n < usize::MAX {
        n + 1
    } else {
        n
    }
}

impl Statistics {
    /// The counters of a run that has done nothing yet.
    pub open spec fn zero() -> Statistics {
        Statistics {
            dirs_created: 0,
            files_copied: 0,
            bytes_copied: 0,
            dirs_skipped: 0,
            files_skipped: 0,
            files_failed: 0,
            dirs_removed: 0,
            files_removed: 0,
        }
    }

    /// No counter of `self` is below the same counter of `earlier`.
    pub open spec fn extends(&self, earlier: &Statistics) -> bool {
        &&& self.dirs_created >= earlier.dirs_created
        &&& self.files_copied >= earlier.files_copied
        &&& self.bytes_copied >= earlier.bytes_copied
        &&& self.dirs_skipped >= earlier.dirs_skipped
        &&& self.files_skipped >= earlier.files_skipped
        &&& self.files_failed >= earlier.files_failed
        &&& self.dirs_removed >= earlier.dirs_removed
        &&& self.files_removed >= earlier.files_removed
    }

    /// The counters as a block of text, one labelled line each.
    pub open spec fn text(&self) -> Seq<char> {
        "Statistics:\n"@ + counter_line("    Directories created: "@, self.dirs_created as nat)
            + counter_line("    Files copied:        "@, self.files_copied as nat) + counter_line(
            "    Bytes copied:        "@,
            self.bytes_copied as nat,
        ) + counter_line("    Directories skipped: "@, self.dirs_skipped as nat) + counter_line(
            "    Files skipped:       "@,
            self.files_skipped as nat,
        ) + counter_line("    Files failed:        "@, self.files_failed as nat) + counter_line(
            "    Directories removed: "@,
            self.dirs_removed as nat,
        ) + counter_line("    Files removed:       "@, self.files_removed as nat)
    }

    /// The counters as a block of text, one labelled line each.
    pub fn to_text(&self) -> (s: String)
        ensures
            s@ == self.text(),
    {
        let mut s = String::from_str("Statistics:\n");
        push_counter(&mut s, "    Directories created: ", self.dirs_created as u64);
        push_counter(&mut s, "    Files copied:        ", self.files_copied as u64);
        push_counter(&mut s, "    Bytes copied:        ", self.bytes_copied);
        push_counter(&mut s, "    Directories skipped: ", self.dirs_skipped as u64);
        push_counter(&mut s, "    Files skipped:       ", self.files_skipped as u64);
        push_counter(&mut s, "    Files failed:        ", self.files_failed as u64);
        push_counter(&mut s, "    Directories removed: ", self.dirs_removed as u64);
        push_counter(&mut s, "    Files removed:       ", self.files_removed as u64);
        s
    }

    pub fn new() -> (s: Self)
        ensures
            s == Statistics::zero(),
    {
        Statistics {
            dirs_created: 0,
            files_copied: 0,
            bytes_copied: 0,
            dirs_skipped: 0,
            files_skipped: 0,
            files_failed: 0,
            dirs_removed: 0,
            files_removed: 0,
        }
    }

    pub fn add_dir_created(&mut self)
        ensures
            *final(self) == (Statistics {
                dirs_created: bump(old(self).dirs_created),
                ..*old(self)
            }),
    {
        self.dirs_created = bumped(self.dirs_created);
    }

    /// One more file copied, of `bytes` bytes.
    pub fn add_file_copied(&mut self, bytes: u64)
        ensures
            *final(self) == (Statistics {
                files_copied: bump(old(self).files_copied),
                bytes_copied: add_capped(old(self).bytes_copied, bytes),
                ..*old(self)
            }),
    {
        self.files_copied = bumped(self.files_copied);
        self.bytes_copied = self.bytes_copied.saturating_add(bytes);
    }

    pub fn add_dir_skipped(&mut self)
        ensures
            *final(self) == (Statistics {
                dirs_skipped: bump(old(self).dirs_skipped),
                ..*old(self)
            }),
    {
        self.dirs_skipped = bumped(self.dirs_skipped);
    }

    pub fn add_file_skipped(&mut self)
        ensures
            *final(self) == (Statistics {
                files_skipped: bump(old(self).files_skipped),
                ..*old(self)
            }),
    {
        self.files_skipped = bumped(self.files_skipped);
    }

    pub fn add_file_failed(&mut self)
        ensures
            *final(self) == (Statistics {
                files_failed: bump(old(self).files_failed),
                ..*old(self)
            }),
    {
        self.files_failed = bumped(self.files_failed);
    }

    pub fn add_dir_removed(&mut self)
        ensures
            *final(self) == (Statistics {
                dirs_removed: bump(old(self).dirs_removed),
                ..*old(self)
            }),
    {
        self.dirs_removed = bumped(self.dirs_removed);
    }

    pub fn add_file_removed(&mut self)
        ensures
            *final(self) == (Statistics {
                files_removed: bump(old(self).files_removed),
                ..*old(self)
            }),
    {
        self.files_removed = bumped(self.files_removed);
    }
}

/// Counting never lowers a counter: whatever is added, each counter of the
/// result is at least what it was.
pub proof fn lemma_counters_only_grow(before: Statistics, bytes: u64)
    ensures
        (Statistics { dirs_created: bump(before.dirs_created), ..before }).extends(&before),
        (Statistics {
            files_copied: bump(before.files_copied),
            bytes_copied: add_capped(before.bytes_copied, bytes),
            ..before
        }).extends(&before),
        (Statistics { dirs_skipped: bump(before.dirs_skipped), ..before }).extends(&before),
        (Statistics { files_skipped: bump(before.files_skipped), ..before }).extends(&before),
        (Statistics { files_failed: bump(before.files_failed), ..before }).extends(&before),
        (Statistics { dirs_removed: bump(before.dirs_removed), ..before }).extends(&before),
        (Statistics { files_removed: bump(before.files_removed), ..before }).extends(&before),
{
}

impl Default for Statistics {
    fn default() -> (s: Self)
        ensures
            s == Statistics::zero(),
    {
        Statistics::new()
    }
}

} // verus!
