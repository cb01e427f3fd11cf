//! The transfer of one file and the reconciliation of one directory level.
//!
//! Every function here decides; the caller touches the file system and
//! reports back what happened.

use vstd::prelude::*;
use vstd::string::*;
use crate::args::CopyOptions;
use crate::progress::{line_view, ProgressInfo, ProgressState};
use crate::stats::{add_capped, bump, Statistics};
use crate::text::{chars_of, decimal, push_decimal, same_text, views};

verus! {

/// What the synchroniser reads of a file: when it was last modified, in
/// nanoseconds since the epoch, and how long it is.
#[derive(Debug, Clone, Copy, PartialEq, Eq, Structural)]
pub struct FileMeta {
    pub modified: i128,
    pub len: u64,
}

/// A file is copied if overwriting is forced, if the destination is missing,
/// if the source is newer, or if both are of the same age and differ in
/// length.
pub open spec fn should_copy(src: FileMeta, dst: Option<FileMeta>, force_overwrite: bool) -> bool {
    force_overwrite || match dst {
        None => true,
        Some(d) => src.modified > d.modified || (src.modified == d.modified && src.len != d.len),
    }
}

pub fn should_copy_file(
    src_meta: &FileMeta,
    dst_meta: Option<&FileMeta>,
    force_overwrite: bool,
) -> (r: bool)
    ensures
        r == should_copy(
            *src_meta,
            match dst_meta {
                Some(d) => Some(*d),
                None => None,
            },
            force_overwrite,
        ),
{
    if force_overwrite {
        return true;
    }
    match dst_meta {
        None => true,
        Some(d) => {
            if src_meta.modified > d.modified {
                true
            } else {
                src_meta.modified == d.modified && src_meta.len != d.len
            }
        },
    }
}

/// What a destination file shows once a transfer to it has succeeded: the
/// age of the source and, unless placeholders are asked for, its length.
pub open spec fn meta_after_transfer(src: FileMeta, empty_files: bool) -> FileMeta {
    FileMeta {
        modified: src.modified,
        len: if empty_files {
            0
        } else {
            src.len
        },
    }
}

/// `head` followed by `src`, an arrow and `dst`.
pub open spec fn pair_text(head: Seq<char>, src: Seq<char>, dst: Seq<char>) -> Seq<char> {
    head + src + " -> "@ + dst
}

/// The line that reports a transfer given up.
pub open spec fn failed_text(
    retries: usize,
    src: Seq<char>,
    dst: Seq<char>,
    error: Seq<char>,
) -> Seq<char> {
    "Failed to copy after "@ + decimal(retries as nat) + " retries: "@ + src + " -> "@ + dst
        + ", Error: "@ + error
}

/// The line that reports a failed attempt that will be repeated.
pub open spec fn retry_text(
    attempt: usize,
    retries: usize,
    src: Seq<char>,
    dst: Seq<char>,
    error: Seq<char>,
) -> Seq<char> {
    "Retry "@ + decimal(attempt as nat) + " of "@ + decimal(retries as nat) + ": "@ + src + " -> "@
        + dst + ", Error: "@ + error
}

fn pair_line(head: &str, src: &str, dst: &str) -> (line: String)
    ensures
        line@ == pair_text(head@, src@, dst@),
{
    let mut line = String::from_str(head);
    line.append(src);
    line.append(" -> ");
    line.append(dst);
    line
}

fn path_line(head: &str, path: &str) -> (line: String)
    ensures
        line@ == head@ + path@,
{
    let mut line = String::from_str(head);
    line.append(path);
    line
}

/// How the transfer of one file begins.
#[derive(Debug, Clone, Copy, PartialEq, Eq, Structural)]
pub enum StartKind {
    /// The run is cancelled: nothing is done, counted or logged.
    Stop,
    /// The destination is up to date: the file is counted as skipped.
    Skip,
    /// List-only: the intended copy is logged and counted as copied, and
    /// the file system is not touched.
    List,
    /// The content is to be copied.
    Copy,
}

/// How the transfer of one file begins, with the line to log, if any.
#[derive(Debug)]
pub struct TransferStart {
    pub kind: StartKind,
    pub log: Option<String>,
}

pub open spec fn start_kind(
    cancelled: bool,
    src: FileMeta,
    dst: Option<FileMeta>,
    options: &CopyOptions,
) -> StartKind {
    if cancelled {
        StartKind::Stop
    } else if !should_copy(src, dst, options.force_overwrite) {
        StartKind::Skip
    } else if options.list_only {
        StartKind::List
    } else {
        StartKind::Copy
    }
}

/// The line that goes with the start of a transfer.
pub open spec fn start_log(
    kind: StartKind,
    src: Seq<char>,
    dst: Seq<char>,
    options: &CopyOptions,
) -> Option<Seq<char>> {
    match kind {
        StartKind::List => Some(pair_text("Would copy file: "@, src, dst)),
        StartKind::Copy => if options.log_file_names {
            Some(pair_text("Copying file: "@, src, dst))
        } else {
            None
        },
        _ => None,
    }
}

/// The counters after the start of a transfer.
pub open spec fn start_stats(kind: StartKind, before: Statistics, src: FileMeta) -> Statistics {
    match kind {
        StartKind::Skip => Statistics { files_skipped: bump(before.files_skipped), ..before },
        StartKind::List => Statistics {
            files_copied: bump(before.files_copied),
            bytes_copied: add_capped(before.bytes_copied, src.len),
            ..before
        },
        _ => before,
    }
}

/// Decides how the transfer of `src_path` to `dst_path` begins, counts the
/// file where the decision settles it, and gives the line to log.
pub fn start_transfer(
    cancelled: bool,
    src_path: &str,
    dst_path: &str,
    src_meta: &FileMeta,
    dst_meta: Option<&FileMeta>,
    options: &CopyOptions,
    stats: &mut Statistics,
) -> (start: TransferStart)
    ensures
        start.kind == start_kind(
            cancelled,
            *src_meta,
            match dst_meta {
                Some(d) => Some(*d),
                None => None,
            },
            options,
        ),
        line_view(start.log) == start_log(start.kind, src_path@, dst_path@, options),
        *final(stats) == start_stats(start.kind, *old(stats), *src_meta),
{
    if cancelled {
        return TransferStart { kind: StartKind::Stop, log: None };
    }
    if !should_copy_file(src_meta, dst_meta, options.force_overwrite) {
        stats.add_file_skipped();
        return TransferStart { kind: StartKind::Skip, log: None };
    }
    if options.list_only {
        let line = pair_line("Would copy file: ", src_path, dst_path);
        stats.add_file_copied(src_meta.len);
        return TransferStart { kind: StartKind::List, log: Some(line) };
    }
    let log = if options.log_file_names {
        Some(pair_line("Copying file: ", src_path, dst_path))
    } else {
        None
    };
    TransferStart { kind: StartKind::Copy, log }
}

/// What follows a failed attempt.
#[derive(Debug)]
pub enum AfterFailure {
    /// The run is cancelled: the transfer ends without error, and nothing
    /// is counted, logged or waited for.
    Stop,
    /// Log the line, wait `wait_secs` seconds, then try again.
    Retry { wait_secs: u64, line: String },
    /// Log the line and hand the error to the caller: the file has been
    /// counted as failed.
    GiveUp { line: String },
}

/// What becomes of the source file once its content has been copied.
#[derive(Debug, Clone, Copy, PartialEq, Eq, Structural)]
pub enum SourceDisposal {
    Keep,
    /// Delete it; a failure to do so is ignored.
    Delete,
    /// Erase it securely; a failure to do so fails the transfer.
    Shred,
}

/// What is done to a freshly written destination file and to its source.
#[derive(Debug, Clone, Copy, PartialEq, Eq, Structural)]
pub struct Completion {
    /// The destination takes the modification time of the source.
    pub replicate_mtime: bool,
    /// The attribute letters of the options are to be applied.
    pub apply_attributes: bool,
    pub disposal: SourceDisposal,
}

pub open spec fn completion_of(options: &CopyOptions) -> Completion {
    Completion {
        replicate_mtime: true,
        apply_attributes: options.attributes_add@.len() > 0 || options.attributes_remove@.len() > 0,
        disposal: if !options.move_files {
            SourceDisposal::Keep
        } else if options.shred_files {
            SourceDisposal::Shred
        } else {
            SourceDisposal::Delete
        },
    }
}

/// The bit that an attribute letter stands for: read-only, archive, system,
/// hidden, compressed, normal. Any other character stands for none.
pub open spec fn attribute_bit(c: char) -> u32 {
    if c == 'R' {
        0x0001
    } else if c == 'A' {
        0x0020
    } else if c == 'S' {
        0x0004
    } else if c == 'H' {
        0x0002
    } else if c == 'C' {
        0x0800
    } else if c == 'N' {
        0x0080
    } else {
        0
    }
}

/// The bits that the letters stand for, taken together.
pub open spec fn attribute_mask(letters: Seq<char>) -> u32
    decreases letters.len(),
{
    if letters.len() == 0 {
        0
    } else {
        attribute_mask(letters.drop_last()) | attribute_bit(letters.last())
    }
}

/// The attributes of a file once the bits to add are set and the bits to
/// remove are cleared; removal has the last word.
pub open spec fn with_attributes(current: u32, add: Seq<char>, remove: Seq<char>) -> u32 {
    (current | attribute_mask(add)) & !attribute_mask(remove)
}

fn bit_of(c: char) -> (b: u32)
    ensures
        b == attribute_bit(c),
{
    if c == 'R' {
        0x0001
    } else if c == 'A' {
        0x0020
    } else if c == 'S' {
        0x0004
    } else if c == 'H' {
        0x0002
    } else if c == 'C' {
        0x0800
    } else if c == 'N' {
        0x0080
    } else {
        0
    }
}

/// The bits that the attribute letters stand for.
pub fn mask_of(letters: &str) -> (mask: u32)
    ensures
        mask == attribute_mask(letters@),
{
    let chars = chars_of(letters);
    let mut mask: u32 = 0;
    let mut i: usize = 0;
    while i < chars.len()
        invariant
            i <= chars.len(),
            chars@ == letters@,
            mask == attribute_mask(chars@.take(i as int)),
        decreases chars.len() - i,
    {
        proof {
            assert(chars@.take(i + 1).drop_last() =~= chars@.take(i as int));
        }
        mask = mask | bit_of(chars[i]);
        i += 1;
    }
    proof {
        assert(chars@.take(chars.len() as int) =~= chars@);
    }
    mask
}

/// The attributes that a copied file is to have, from those it has and
/// the letters of the options.
pub fn apply_attributes(current: u32, options: &CopyOptions) -> (attributes: u32)
    ensures
        attributes == with_attributes(
            current,
            options.attributes_add@,
            options.attributes_remove@,
        ),
{
    let add = mask_of(options.attributes_add.as_str());
    let remove = mask_of(options.attributes_remove.as_str());
    (current | add) & !remove
}

/// The failed attempt with this number, counted from one, is the last.
pub open spec fn gives_up(attempt: usize, retries: usize) -> bool {
    attempt >= retries
}

/// The attempts at one file. It counts the failures so far.
#[derive(Debug)]
pub struct Transfer {
    failures: usize,
}

impl Transfer {
    /// Number of failed attempts so far.
    pub closed spec fn failed_attempts(&self) -> usize {
        self.failures
    }

    pub fn new() -> (t: Self)
        ensures
            t.failed_attempts() == 0,
    {
        Transfer { failures: 0 }
    }

    /// Whether another attempt is to be made: always, unless the run is
    /// cancelled, in which case the transfer ends without error.
    pub fn before_attempt(&self, cancelled: bool) -> (go: bool)
        ensures
            go == !cancelled,
    {
        !cancelled
    }

    /// Takes note of a failed attempt and decides between another attempt
    /// and giving up. In a cancelled run neither happens: the failure is
    /// passed over.
    pub fn on_failure(
        &mut self,
        cancelled: bool,
        error: &str,
        src_path: &str,
        dst_path: &str,
        options: &CopyOptions,
        stats: &mut Statistics,
    ) -> (next: AfterFailure)
        ensures
            cancelled ==> {
                &&& next is Stop
                &&& final(self).failed_attempts() == old(self).failed_attempts()
                &&& *final(stats) == *old(stats)
            },
            !cancelled ==> final(self).failed_attempts() == bump(old(self).failed_attempts()),
            !cancelled && gives_up(final(self).failed_attempts(), options.retries) ==> {
                &&& next matches AfterFailure::GiveUp { line }
                &&& line@ == failed_text(options.retries, src_path@, dst_path@, error@)
                &&& *final(stats) == (Statistics {
                    files_failed: bump(old(stats).files_failed),
                    ..*old(stats)
                })
            },
            !cancelled && !gives_up(final(self).failed_attempts(), options.retries) ==> {
                &&& next matches AfterFailure::Retry { wait_secs, line }
                &&& wait_secs == options.wait_time
                &&& line@ == retry_text(
                    final(self).failed_attempts(),
                    options.retries,
                    src_path@,
                    dst_path@,
                    error@,
                )
                &&& *final(stats) == *old(stats)
            },
    {
        if cancelled {
            return AfterFailure::Stop;
        }
        if self.failures < usize::MAX {
            self.failures = self.failures + 1;
        }
        if self.failures >= options.retries {
            let mut line = String::from_str("Failed to copy after ");
            push_decimal(&mut line, options.retries as u64);
            line.append(" retries: ");
            line.append(src_path);
            line.append(" -> ");
            line.append(dst_path);
            line.append(", Error: ");
            line.append(error);
            stats.add_file_failed();
            AfterFailure::GiveUp { line }
        } else {
            let mut line = String::from_str("Retry ");
            push_decimal(&mut line, self.failures as u64);
            line.append(" of ");
            push_decimal(&mut line, options.retries as u64);
            line.append(": ");
            line.append(src_path);
            line.append(" -> ");
            line.append(dst_path);
            line.append(", Error: ");
            line.append(error);
            AfterFailure::Retry { wait_secs: options.wait_time, line }
        }
    }

    /// What is to be done once the content has been written.
    pub fn on_success(&self, options: &CopyOptions) -> (c: Completion)
        ensures
            c == completion_of(options),
    {
        let add = !options.attributes_add.as_str().is_empty();
        let remove = !options.attributes_remove.as_str().is_empty();
        let disposal = if !options.move_files {
            SourceDisposal::Keep
        } else if options.shred_files {
            SourceDisposal::Shred
        } else {
            SourceDisposal::Delete
        };
        Completion { replicate_mtime: true, apply_attributes: add || remove, disposal }
    }

    /// Counts the file as copied, once everything that `on_success` asked
    /// for has been done.
    pub fn finish(self, src_meta: &FileMeta, stats: &mut Statistics)
        ensures
            *final(stats) == (Statistics {
                files_copied: bump(old(stats).files_copied),
                bytes_copied: add_capped(old(stats).bytes_copied, src_meta.len),
                ..*old(stats)
            }),
    {
        stats.add_file_copied(src_meta.len);
    }
}

/// Number of attempts that a transfer makes, after `failures` failed ones,
/// when every attempt fails and the run is never cancelled.
pub open spec fn attempts_when_failing(retries: usize, failures: usize) -> nat
    decreases retries - failures,
{
    if failures < retries && !gives_up(bump(failures), retries) {
        1 + attempts_when_failing(retries, bump(failures))
    } else {
        1
    }
}

/// A transfer that never succeeds and is never cancelled is attempted
/// exactly `retries` times, the first attempt included: each of the
/// first `retries - 1` failures leads to a wait and another attempt, the
/// last one to giving up. (With `retries == 0` it is attempted once.)
pub proof fn lemma_retry_exhaustion(retries: usize)
    requires
        retries >= 1,
    ensures
        attempts_when_failing(retries, 0) == retries,
        forall|k: usize| 1 <= k < retries ==> !gives_up(k, retries),
        gives_up(retries, retries),
{
    lemma_attempts_left(retries, 0);
}

proof fn lemma_attempts_left(retries: usize, failures: usize)
    requires
        failures < retries,
    ensures
        attempts_when_failing(retries, failures) == retries - failures,
    decreases retries - failures,
{
    if !gives_up(bump(failures), retries) {
        lemma_attempts_left(retries, bump(failures));
    }
}

/// Size of the buffer through which content is copied.
pub const COPY_BUFFER_SIZE: usize = 1048576;

/// The copy of one file's content, chunk by chunk.
#[derive(Debug)]
pub struct ContentCopy {
    info: ProgressInfo,
    restartable: bool,
}

impl ContentCopy {
    /// The snapshot to report: copying, the source path, the bytes written
    /// so far and the length of the file.
    pub closed spec fn progress(&self) -> ProgressInfo {
        self.info
    }

    /// Whether the destination is flushed after every chunk.
    pub closed spec fn flushes_chunks(&self) -> bool {
        self.restartable
    }

    /// Begins the copy of a file of `total_size` bytes. `None` where the
    /// options ask for placeholders: the destination is then created empty
    /// and nothing is read.
    pub fn begin(src_path: &str, total_size: u64, options: &CopyOptions) -> (c: Option<Self>)
        ensures
            options.empty_files <==> c is None,
            c matches Some(copy) ==> {
                &&& copy.flushes_chunks() == options.restartable
                &&& copy.progress().state is Copying
                &&& copy.progress().current_file@ == src_path@
                &&& copy.progress().current_file_bytes_total == total_size
                &&& copy.progress().current_file_bytes_done == 0
                &&& copy.progress().files_done == 0
                &&& copy.progress().files_total == 0
                &&& copy.progress().bytes_done == 0
                &&& copy.progress().bytes_total == 0
                &&& copy.progress().speed == 0
            },
    {
        if options.empty_files {
            return None;
        }
        let mut info = ProgressInfo::in_state(ProgressState::Copying);
        info.current_file = String::from_str(src_path);
        info.current_file_bytes_total = total_size;
        Some(ContentCopy { info, restartable: options.restartable })
    }

    /// Whether the next chunk is to be read. A cancelled run reads no more:
    /// the attempt then counts as failed.
    pub fn before_chunk(&self, cancelled: bool) -> (go: bool)
        ensures
            go == !cancelled,
    {
        !cancelled
    }

    /// Takes note of a chunk of `bytes_read` bytes written to the
    /// destination. Returns whether the destination is to be flushed now,
    /// and the snapshot to report.
    pub fn after_chunk(&mut self, bytes_read: usize) -> (r: (bool, ProgressInfo))
        ensures
            r.0 == old(self).flushes_chunks(),
            r.1.same_as(&final(self).progress()),
            final(self).flushes_chunks() == old(self).flushes_chunks(),
            final(self).progress().same_as(
                &ProgressInfo {
                    current_file_bytes_done: add_capped(
                        old(self).progress().current_file_bytes_done,
                        bytes_read as u64,
                    ),
                    ..old(self).progress()
                },
            ),
    {
        self.info.current_file_bytes_done = self.info.current_file_bytes_done.saturating_add(
            bytes_read as u64,
        );
        (self.restartable, self.info.clone())
    }
}

/// Where a source that is a single file goes.
#[derive(Debug, Clone, Copy, PartialEq, Eq, Structural)]
pub enum FileTarget {
    /// Into the destination directory, under its own name.
    Inside,
    /// To the destination path itself.
    Exact,
}

/// A source that is a single file goes into the destination where that is
/// a directory, and to the destination path itself otherwise.
pub fn single_file_target(destination_is_directory: bool) -> (t: FileTarget)
    ensures
        t == if destination_is_directory {
            FileTarget::Inside
        } else {
            FileTarget::Exact
        },
{
    if destination_is_directory {
        FileTarget::Inside
    } else {
        FileTarget::Exact
    }
}

/// Whether the directory that is to hold the target of a single file is
/// created: where it is missing, unless the run only lists.
pub fn creates_missing_parent(parent_missing: bool, options: &CopyOptions) -> (create: bool)
    ensures
        create == (parent_missing && !options.list_only),
{
    parent_missing && !options.list_only
}

/// Works on the entries of one batch in order and stops at the first
/// failure: what stands behind the failing entry is not worked on, and what
/// was done before it is not undone. The first error is the result.
pub fn try_each<T, E, F: Fn(&T) -> Result<(), E>>(items: &Vec<T>, work: F) -> (r: Result<(), E>)
    requires
        forall|i: int| 0 <= i < items.len() ==> call_requires(work, (&#[trigger] items[i],)),
    ensures
        r is Ok ==> forall|i: int|
            0 <= i < items.len() ==> call_ensures(work, (&#[trigger] items[i],), Ok(())),
        r matches Err(e) ==> exists|i: int|
            #![trigger items[i]]
            0 <= i < items.len() && call_ensures(work, (&items[i],), Err(e)) && forall|j: int|
                0 <= j < i ==> call_ensures(work, (&#[trigger] items[j],), Ok(())),
{
    let mut i: usize = 0;
    while i < items.len()
        invariant
            i <= items.len(),
            forall|k: int| 0 <= k < items.len() ==> call_requires(work, (&#[trigger] items[k],)),
            forall|j: int| 0 <= j < i ==> call_ensures(work, (&#[trigger] items[j],), Ok(())),
        decreases items.len() - i,
    {
        match work(&items[i]) {
            Ok(done) => {
                assert(done == ());
            },
            Err(e) => {
                return Err(e);
            },
        }
        i += 1;
    }
    Ok(())
}

/// What a directory entry is.
#[derive(Debug, Clone, Copy, PartialEq, Eq, Structural)]
pub enum EntryKind {
    File,
    Directory,
    /// Something that is neither of the two, such as a dangling link.
    Other,
    /// Nothing: the entry was listed and is gone.
    Absent,
}

/// What is done with one entry of a source directory.
#[derive(Debug, Clone, Copy, PartialEq, Eq, Structural)]
pub enum EntryAction {
    /// The run is cancelled: nothing is done.
    Stop,
    /// The entry is invisible to the run.
    Ignore,
    /// The file is handed to the transfer of one file.
    Transfer,
    /// The directory is reconciled with the directory of the same name in
    /// the destination; with `check_empty`, only if it holds anything.
    Descend { check_empty: bool },
}

/// A file is transferred if a pattern selects it; a directory is entered
/// under recursion and under mirror, and looked at for emptiness first
/// unless empty directories are copied too; everything else is invisible.
pub open spec fn action_for(
    cancelled: bool,
    kind: EntryKind,
    selected: bool,
    options: &CopyOptions,
) -> EntryAction {
    if cancelled {
        EntryAction::Stop
    } else {
        match kind {
            EntryKind::File => if selected {
                EntryAction::Transfer
            } else {
                EntryAction::Ignore
            },
            EntryKind::Directory => if options.descends() {
                EntryAction::Descend { check_empty: !options.keeps_empty() }
            } else {
                EntryAction::Ignore
            },
            _ => EntryAction::Ignore,
        }
    }
}

/// Decides what is done with one entry of a source directory. `selected`
/// says whether one of the patterns matches the entry's name.
pub fn entry_action(
    cancelled: bool,
    kind: EntryKind,
    selected: bool,
    options: &CopyOptions,
) -> (a: EntryAction)
    ensures
        a == action_for(cancelled, kind, selected, options),
{
    if cancelled {
        return EntryAction::Stop;
    }
    match kind {
        EntryKind::File => if selected {
            EntryAction::Transfer
        } else {
            EntryAction::Ignore
        },
        EntryKind::Directory => if options.recursive || options.mirror {
            EntryAction::Descend { check_empty: !(options.include_empty || options.mirror) }
        } else {
            EntryAction::Ignore
        },
        _ => EntryAction::Ignore,
    }
}

/// How the reconciliation of one directory begins.
#[derive(Debug)]
pub enum Entering {
    /// The run is cancelled: nothing is done, counted or logged.
    Stop,
    /// Log the line, if any, create the destination directory if `create`
    /// says so, then list the source.
    Enter { create: bool, log: Option<String> },
}

/// The line that goes with entering a directory whose destination is
/// missing.
pub open spec fn entering_text(dst: Seq<char>, list_only: bool) -> Seq<char> {
    if list_only {
        "Would create directory: "@ + dst
    } else {
        "Creating directory: "@ + dst
    }
}

/// Decides how the reconciliation of a source directory with `dst_path`
/// begins. A missing destination directory is created, or under list-only
/// only announced, and counted as created either way.
pub fn enter_directory(
    cancelled: bool,
    dst_exists: bool,
    dst_path: &str,
    options: &CopyOptions,
    stats: &mut Statistics,
) -> (e: Entering)
    ensures
        cancelled ==> e is Stop && *final(stats) == *old(stats),
        !cancelled && dst_exists ==> {
            &&& e matches Entering::Enter { create, log }
            &&& !create
            &&& log is None
            &&& *final(stats) == *old(stats)
        },
        !cancelled && !dst_exists ==> {
            &&& e matches Entering::Enter { create, log }
            &&& create == !options.list_only
            &&& line_view(log) == Some(entering_text(dst_path@, options.list_only))
            &&& *final(stats) == (Statistics {
                dirs_created: bump(old(stats).dirs_created),
                ..*old(stats)
            })
        },
{
    if cancelled {
        return Entering::Stop;
    }
    if dst_exists {
        return Entering::Enter { create: false, log: None };
    }
    let line = if options.list_only {
        path_line("Would create directory: ", dst_path)
    } else {
        path_line("Creating directory: ", dst_path)
    };
    stats.add_dir_created();
    Entering::Enter { create: !options.list_only, log: Some(line) }
}

/// Takes note of an empty source directory that is passed over: it is
/// counted as skipped, and logged where file names are logged.
pub fn skip_empty_directory(
    path: &str,
    options: &CopyOptions,
    stats: &mut Statistics,
) -> (log: Option<String>)
    ensures
        line_view(log) == if options.log_file_names {
            Some("Skipping empty directory: "@ + path@)
        } else {
            None
        },
        *final(stats) == (Statistics {
            dirs_skipped: bump(old(stats).dirs_skipped),
            ..*old(stats)
        }),
{
    let log = if options.log_file_names {
        Some(path_line("Skipping empty directory: ", path))
    } else {
        None
    };
    stats.add_dir_skipped();
    log
}

/// Whether a source directory that a move has emptied is removed.
pub fn removes_emptied_source(options: &CopyOptions) -> (r: bool)
    ensures
        r == (options.move_dirs && !options.list_only),
{
    options.move_dirs && !options.list_only
}

/// Whether destination entries that the source lacks are deleted.
pub fn purge_enabled(options: &CopyOptions) -> (r: bool)
    ensures
        r == options.purges(),
{
    (options.purge || options.mirror) && !options.list_only
}

/// What is done with one entry of a destination directory under purge.
#[derive(Debug)]
pub enum PurgeAction {
    /// The run is cancelled: nothing is done.
    Stop,
    /// The entry stays.
    Keep,
    /// Log the line and remove the entry: a directory with all that it
    /// holds, anything else as a file; securely if `secure` says so.
    Remove { kind: EntryKind, secure: bool, line: String },
}

/// Whether a removal overwrites before it removes: where shredding is asked
/// for, for files and directories. What is neither is removed without being
/// written to.
pub open spec fn removes_securely(kind: EntryKind, options: &CopyOptions) -> bool {
    options.shred_files && (kind is File || kind is Directory)
}

/// The line that announces a removal.
pub open spec fn removal_text(kind: EntryKind, secure: bool, path: Seq<char>) -> Seq<char> {
    if kind is Directory {
        if secure {
            "Securely removing directory: "@ + path
        } else {
            "Removing directory: "@ + path
        }
    } else {
        if secure {
            "Securely removing file: "@ + path
        } else {
            "Removing file: "@ + path
        }
    }
}

/// An entry of the destination is removed if no entry of the source bears
/// its name. One that is gone already is passed over.
pub open spec fn is_purged(name: Seq<char>, kind: EntryKind, src_names: Seq<Seq<char>>) -> bool {
    !(kind is Absent) && !src_names.contains(name)
}

/// Whether `name` is among `names`.
pub fn contains_name(names: &Vec<String>, name: &str) -> (r: bool)
    ensures
        r == views(names@).contains(name@),
{
    let ghost all = views(names@);
    let mut i: usize = 0;
    while i < names.len()
        invariant
            i <= names.len(),
            all == views(names@),
            forall|j: int| 0 <= j < i ==> all[j] != name@,
        decreases names.len() - i,
    {
        assert(all[i as int] == names@[i as int]@);
        if same_text(names[i].as_str(), name) {
            return true;
        }
        i += 1;
    }
    false
}

/// Decides what is done with the destination entry `name`, found at `path`,
/// given the names that the source directory held when it was listed.
pub fn purge_action(
    cancelled: bool,
    name: &str,
    kind: EntryKind,
    path: &str,
    src_names: &Vec<String>,
    options: &CopyOptions,
) -> (a: PurgeAction)
    ensures
        cancelled ==> a is Stop,
        !cancelled && !is_purged(name@, kind, views(src_names@)) ==> a is Keep,
        !cancelled && is_purged(name@, kind, views(src_names@)) ==> {
            &&& a matches PurgeAction::Remove { kind: k, secure, line }
            &&& k == kind
            &&& secure == removes_securely(kind, options)
            &&& line@ == removal_text(kind, removes_securely(kind, options), path@)
        },
{
    if cancelled {
        return PurgeAction::Stop;
    }
    if contains_name(src_names, name) {
        return PurgeAction::Keep;
    }
    match kind {
        EntryKind::Absent => PurgeAction::Keep,
        EntryKind::Directory => {
            let line = if options.shred_files {
                path_line("Securely removing directory: ", path)
            } else {
                path_line("Removing directory: ", path)
            };
            PurgeAction::Remove { kind, secure: options.shred_files, line }
        },
        EntryKind::File => {
            let line = if options.shred_files {
                path_line("Securely removing file: ", path)
            } else {
                path_line("Removing file: ", path)
            };
            PurgeAction::Remove { kind, secure: options.shred_files, line }
        },
        EntryKind::Other => {
            let line = path_line("Removing file: ", path);
            PurgeAction::Remove { kind, secure: false, line }
        },
    }
}

/// The counters after a removal: one more directory removed, or one more
/// file, as which everything counts that is no directory.
pub open spec fn removal_stats(kind: EntryKind, before: Statistics) -> Statistics {
    match kind {
        EntryKind::Directory => Statistics { dirs_removed: bump(before.dirs_removed), ..before },
        EntryKind::Absent => before,
        _ => Statistics { files_removed: bump(before.files_removed), ..before },
    }
}

/// Counts a removal that has been carried out.
pub fn record_removal(kind: EntryKind, stats: &mut Statistics)
    ensures
        *final(stats) == removal_stats(kind, *old(stats)),
{
    match kind {
        EntryKind::Directory => stats.add_dir_removed(),
        EntryKind::Absent => {},
        _ => stats.add_file_removed(),
    }
}

/// The destination is missing, older than the source, or of the same age
/// and another length.
pub open spec fn is_stale(src: FileMeta, dst: Option<FileMeta>) -> bool {
    match dst {
        None => true,
        Some(d) => src.modified > d.modified || (src.modified == d.modified && src.len != d.len),
    }
}

/// Where overwriting is not forced, a file that a pattern selects is copied
/// (under list-only: listed and counted as copied) if and only if its
/// destination is stale; otherwise it is skipped.
pub proof fn lemma_copied_iff_stale(src: FileMeta, dst: Option<FileMeta>, options: &CopyOptions)
    requires
        !options.force_overwrite,
    ensures
        action_for(false, EntryKind::File, true, options) == EntryAction::Transfer,
        is_stale(src, dst) ==> start_kind(false, src, dst, options) == if options.list_only {
            StartKind::List
        } else {
            StartKind::Copy
        },
        !is_stale(src, dst) ==> start_kind(false, src, dst, options) == StartKind::Skip,
{
}

/// What the destination of a file shows after a run that was neither
/// cancelled nor failed: what a copy leaves behind, or what was there.
pub open spec fn meta_after_run(
    src: FileMeta,
    dst: Option<FileMeta>,
    options: &CopyOptions,
) -> Option<FileMeta> {
    match start_kind(false, src, dst, options) {
        StartKind::Copy => Some(meta_after_transfer(src, options.empty_files)),
        _ => dst,
    }
}

/// A second run over an unchanged source and the destination that the first
/// run left copies nothing: every file is skipped. This needs that
/// overwriting is not forced, that the first run was no list-only run, and
/// that placeholders stand only for empty files.
pub proof fn lemma_second_run_copies_nothing(
    src: FileMeta,
    dst: Option<FileMeta>,
    options: &CopyOptions,
)
    requires
        !options.force_overwrite,
        !options.list_only,
        options.empty_files ==> src.len == 0,
    ensures
        start_kind(false, src, meta_after_run(src, dst, options), options) == StartKind::Skip,
        start_stats(
            start_kind(false, src, meta_after_run(src, dst, options), options),
            Statistics::zero(),
            src,
        ).files_copied == 0,
{
}

/// A cancelled run does nothing more at any of its poll points: no entry is
/// acted on, no transfer begins, nothing is counted and nothing is logged.
pub proof fn lemma_cancelled_run_is_silent(
    kind: EntryKind,
    selected: bool,
    src: FileMeta,
    dst: Option<FileMeta>,
    src_path: Seq<char>,
    dst_path: Seq<char>,
    options: &CopyOptions,
    stats: Statistics,
)
    ensures
        action_for(true, kind, selected, options) == EntryAction::Stop,
        start_kind(true, src, dst, options) == StartKind::Stop,
        start_log(StartKind::Stop, src_path, dst_path, options) is None,
        start_stats(StartKind::Stop, stats, src) == stats,
{
}

/// An entry of a source directory as a run sees it: its name, what it is,
/// whether a pattern selects it and, for a directory, whether it is empty.
pub struct SourceItem {
    pub name: Seq<char>,
    pub kind: EntryKind,
    pub selected: bool,
    pub empty: bool,
}

/// Whether a run brings about an entry of the item's name in the
/// destination: a selected file is transferred or found up to date, a
/// directory is entered unless it is passed over as empty. A list-only run
/// brings about nothing.
pub open spec fn lands(item: SourceItem, options: &CopyOptions) -> bool {
    !options.list_only && match action_for(false, item.kind, item.selected, options) {
        EntryAction::Transfer => true,
        EntryAction::Descend { check_empty } => !(check_empty && item.empty),
        _ => false,
    }
}

/// The names of the items, in order.
pub open spec fn item_names(src: Seq<SourceItem>) -> Seq<Seq<char>> {
    Seq::new(src.len(), |i: int| src[i].name)
}

/// The names that the run brings into the destination.
pub open spec fn landed_names(src: Seq<SourceItem>, options: &CopyOptions) -> Set<Seq<char>> {
    Set::new(
        |n: Seq<char>|
            exists|i: int| 0 <= i < src.len() && src[i].name == n && lands(src[i], options),
    )
}

/// The names in a destination directory after one level has been
/// reconciled without cancellation or failure: those that the run brought
/// in, and those that were there and were not purged.
pub open spec fn names_after(
    src: Seq<SourceItem>,
    dst: Map<Seq<char>, EntryKind>,
    options: &CopyOptions,
) -> Set<Seq<char>> {
    Set::new(
        |n: Seq<char>|
            landed_names(src, options).contains(n) || (dst.dom().contains(n) && !(options.purges()
                && is_purged(n, dst[n], item_names(src)))),
    )
}

/// After a level has been reconciled under purge, the destination holds
/// exactly the names that the run brings in, provided that nothing else
/// survives the purge: every entry that was in the destination and is kept
/// bears a name that the run brings in.
pub proof fn lemma_mirror_closure(
    src: Seq<SourceItem>,
    dst: Map<Seq<char>, EntryKind>,
    options: &CopyOptions,
)
    requires
        options.purges(),
        forall|n: Seq<char>|
            dst.dom().contains(n) && !is_purged(n, dst[n], item_names(src)) ==> landed_names(
                src,
                options,
            ).contains(n),
    ensures
        names_after(src, dst, options) == landed_names(src, options),
{
    assert(names_after(src, dst, options) =~= landed_names(src, options));
}

/// After a level has been mirrored, the destination holds exactly the names
/// of the source, where every entry of the source is a directory or a file
/// that a pattern selects, and every entry listed in the destination was
/// there.
pub proof fn lemma_mirror_equals_source(
    src: Seq<SourceItem>,
    dst: Map<Seq<char>, EntryKind>,
    options: &CopyOptions,
)
    requires
        options.mirror,
        !options.list_only,
        forall|i: int|
            0 <= i < src.len() ==> (#[trigger] src[i]).kind is Directory || (src[i].kind is File
                && src[i].selected),
        forall|n: Seq<char>| dst.dom().contains(n) ==> !(dst[n] is Absent),
    ensures
        names_after(src, dst, options) == item_names(src).to_set(),
{
    let names = item_names(src);
    assert forall|n: Seq<char>| names.to_set().contains(n) implies landed_names(
        src,
        options,
    ).contains(n) by {
        let i = choose|i: int| 0 <= i < names.len() && names[i] == n;
        assert(src[i].name == n && lands(src[i], options));
    }
    assert forall|n: Seq<char>|
        landed_names(src, options).contains(n) implies names.to_set().contains(n) by {
        let i = choose|i: int| 0 <= i < src.len() && src[i].name == n && lands(src[i], options);
        assert(names[i] == n);
    }
    assert(names_after(src, dst, options) =~= names.to_set());
}

} // verus!
