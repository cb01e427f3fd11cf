//! The course of one run: what is checked before anything is touched, what
//! is announced, and what the observer is shown.

use vstd::prelude::*;
use vstd::string::*;
use crate::args::CopyOptions;
use crate::copy::{pair_text, EntryKind};
use crate::progress::{line_view, ProgressInfo, ProgressState};
use crate::stats::{add_capped, Statistics};
use crate::text::{
    counter_line, decimal, join, joined, push_counter, push_decimal, push_text, same_text,
    text_line, views,
};
use crate::utils::{clock_text, format_time};

verus! {

/// Why a run is refused before it touches anything.
#[derive(Debug)]
pub enum EngineError {
    /// A source path does not exist.
    SourceMissing { source: String },
    /// The destination lies in a source, or is one.
    DestinationInsideSource { source: String, destination: String },
}

impl EngineError {
    pub open spec fn message_text(&self) -> Seq<char> {
        match self {
            EngineError::SourceMissing { source } => "ERROR: Source path does not exist: "@
                + source@,
            EngineError::DestinationInsideSource { source, destination } => pair_text(
                "ERROR: Cannot copy source into its own subdirectory: "@,
                source@,
                destination@,
            ),
        }
    }

    /// The line that reports the refusal.
    pub fn message(&self) -> (line: String)
        ensures
            line@ == self.message_text(),
    {
        match self {
            EngineError::SourceMissing { source } => {
                let mut line = String::from_str("ERROR: Source path does not exist: ");
                line.append(source.as_str());
                line
            },
            EngineError::DestinationInsideSource { source, destination } => {
                let mut line = String::from_str(
                    "ERROR: Cannot copy source into its own subdirectory: ",
                );
                line.append(source.as_str());
                line.append(" -> ");
                line.append(destination.as_str());
                line
            },
        }
    }
}

/// What is known of one source before a run: its path as configured,
/// whether it exists, and the components of its canonical form where that
/// could be had.
#[derive(Debug)]
pub struct SourceProbe {
    pub path: String,
    pub exists: bool,
    pub canonical: Option<Vec<String>>,
}

/// `prefix` is made of the first components of `path`.
pub open spec fn leads(prefix: Seq<Seq<char>>, path: Seq<Seq<char>>) -> bool {
    prefix.len() <= path.len() && forall|i: int| 0 <= i < prefix.len() ==> prefix[i] == path[i]
}

/// Whether the path with the components `path` lies under, or is, the one
/// with the components `prefix`.
pub fn starts_with_components(path: &Vec<String>, prefix: &Vec<String>) -> (r: bool)
    ensures
        r == leads(views(prefix@), views(path@)),
{
    if prefix.len() > path.len() {
        return false;
    }
    let mut i: usize = 0;
    while i < prefix.len()
        invariant
            i <= prefix.len() <= path.len(),
            forall|j: int| 0 <= j < i ==> views(prefix@)[j] == views(path@)[j],
        decreases prefix.len() - i,
    {
        if !same_text(prefix[i].as_str(), path[i].as_str()) {
            assert(views(prefix@)[i as int] != views(path@)[i as int]);
            return false;
        }
        i += 1;
    }
    true
}

/// What is wrong with a source, if anything.
#[derive(Debug, Clone, Copy, PartialEq, Eq, Structural)]
pub enum Violation {
    Missing,
    HoldsDestination,
}

/// A source must exist, and the destination must not lie in it, nor be
/// it, whether the destination exists yet or not. `destination` holds the
/// components of the destination in resolved form.
pub open spec fn violation_of(probe: &SourceProbe, destination: Seq<Seq<char>>) -> Option<
    Violation,
> {
    if !probe.exists {
        Some(Violation::Missing)
    } else if probe.canonical is Some && leads(views(probe.canonical->0@), destination) {
        Some(Violation::HoldsDestination)
    } else {
        None
    }
}

/// The resolved form of a path that need not exist: the canonical
/// components of its nearest ancestor that exists, followed by the
/// components that lead from there to the path.
pub fn resolved_components(ancestor: &Vec<String>, rest: &Vec<String>) -> (all: Vec<String>)
    ensures
        views(all@) == views(ancestor@) + views(rest@),
{
    let mut all: Vec<String> = Vec::new();
    let mut i: usize = 0;
    while i < ancestor.len()
        invariant
            i <= ancestor.len(),
            all.len() == i,
            forall|j: int| 0 <= j < i ==> all@[j]@ == ancestor@[j]@,
        decreases ancestor.len() - i,
    {
        all.push(ancestor[i].clone());
        i += 1;
    }
    let mut k: usize = 0;
    while k < rest.len()
        invariant
            k <= rest.len(),
            all.len() == ancestor.len() + k,
            forall|j: int| 0 <= j < ancestor.len() ==> all@[j]@ == ancestor@[j]@,
            forall|j: int| 0 <= j < k ==> all@[ancestor.len() + j]@ == rest@[j]@,
        decreases rest.len() - k,
    {
        all.push(rest[k].clone());
        k += 1;
    }
    assert(views(all@) =~= views(ancestor@) + views(rest@));
    all
}

/// The error names the source and, where the destination lies in it, the
/// destination.
pub open spec fn reports(
    e: EngineError,
    violation: Violation,
    source: Seq<char>,
    destination: Seq<char>,
) -> bool {
    match violation {
        Violation::Missing => e matches EngineError::SourceMissing { source: s } && s@ == source,
        Violation::HoldsDestination => e matches EngineError::DestinationInsideSource {
            source: s,
            destination: d,
        } && s@ == source && d@ == destination,
    }
}

/// The source at place `i` is the first with which something is wrong.
pub open spec fn is_first_violation(
    probes: Seq<SourceProbe>,
    destination: Seq<Seq<char>>,
    i: int,
) -> bool {
    &&& 0 <= i < probes.len()
    &&& violation_of(&probes[i], destination) is Some
    &&& forall|j: int| 0 <= j < i ==> violation_of(#[trigger] &probes[j], destination) is None
}

/// Checks the sources in order and refuses the run at the first that is
/// missing or that holds the destination. `resolved` holds the components
/// of the destination in resolved form: see [`resolved_components`].
pub fn check_sources(
    probes: &Vec<SourceProbe>,
    destination: &str,
    resolved: &Vec<String>,
) -> (r: Result<(), EngineError>)
    ensures
        r is Ok <==> forall|i: int|
            0 <= i < probes.len() ==> violation_of(#[trigger] &probes[i], views(resolved@))
                is None,
        r matches Err(e) ==> exists|i: int|
            #![trigger probes[i]]
            is_first_violation(probes@, views(resolved@), i) && reports(
                e,
                violation_of(&probes[i], views(resolved@))->0,
                probes[i].path@,
                destination@,
            ),
{
    let ghost dest = views(resolved@);
    let mut i: usize = 0;
    while i < probes.len()
        invariant
            i <= probes.len(),
            dest == views(resolved@),
            forall|j: int| 0 <= j < i ==> violation_of(#[trigger] &probes[j], dest) is None,
        decreases probes.len() - i,
    {
        let probe = &probes[i];
        if !probe.exists {
            let e = EngineError::SourceMissing { source: probe.path.clone() };
            assert(violation_of(&probes[i as int], dest) == Some(Violation::Missing));
            assert(is_first_violation(probes@, dest, i as int));
            return Err(e);
        }
        match &probe.canonical {
            Some(source) => {
                if starts_with_components(resolved, source) {
                    let e = EngineError::DestinationInsideSource {
                        source: probe.path.clone(),
                        destination: String::from_str(destination),
                    };
                    assert(violation_of(&probes[i as int], dest) == Some(
                        Violation::HoldsDestination,
                    ));
                    assert(is_first_violation(probes@, dest, i as int));
                    return Err(e);
                }
            },
            None => {},
        }
        assert(violation_of(&probes[i as int], dest) is None);
        i += 1;
    }
    Ok(())
}

/// What a scan of the sources has found.
#[derive(Debug, Clone, Copy, PartialEq, Eq, Structural)]
pub struct ScanTotals {
    pub files: u64,
    pub bytes: u64,
}

impl ScanTotals {
    pub fn new() -> (t: Self)
        ensures
            t.files == 0,
            t.bytes == 0,
    {
        ScanTotals { files: 0, bytes: 0 }
    }

    /// Takes note of a file: it counts if a pattern selects it, with its
    /// length where that could be read.
    pub fn add_file(&mut self, selected: bool, len: Option<u64>)
        ensures
            !selected ==> *final(self) == *old(self),
            selected ==> final(self).files == add_capped(old(self).files, 1),
            selected ==> final(self).bytes == match len {
                Some(n) => add_capped(old(self).bytes, n),
                None => old(self).bytes,
            },
    {
        if selected {
            self.files = self.files.saturating_add(1);
            match len {
                Some(n) => {
                    self.bytes = self.bytes.saturating_add(n);
                },
                None => {},
            }
        }
    }

    /// Adds what the scan of a directory below, or of another source, found.
    pub fn absorb(&mut self, other: &ScanTotals)
        ensures
            final(self).files == add_capped(old(self).files, other.files),
            final(self).bytes == add_capped(old(self).bytes, other.bytes),
    {
        self.files = self.files.saturating_add(other.files);
        self.bytes = self.bytes.saturating_add(other.bytes);
    }
}

/// Whether a scan goes into the directories below a source: where the
/// copy will.
pub fn scan_descends(options: &CopyOptions) -> (r: bool)
    ensures
        r == options.descends(),
{
    options.recursive || options.mirror
}

/// The line that reports a directory that the scan could not read. The scan
/// goes on without it.
pub fn scan_warning(path: &str, error: &str) -> (line: String)
    ensures
        line@ == "Warning: Could not scan directory "@ + path@ + ": "@ + error@,
{
    let mut line = String::from_str("Warning: Could not scan directory ");
    line.append(path);
    line.append(": ");
    line.append(error);
    line
}

/// Size of the worker pool that a run calls for; `None` where everything
/// runs in sequence on the caller's thread.
pub fn worker_pool_size(options: &CopyOptions) -> (size: Option<usize>)
    ensures
        size == if options.threads > 1 {
            Some(options.threads)
        } else {
            None
        },
{
    if options.threads > 1 {
        Some(options.threads)
    } else {
        None
    }
}

/// How a source is handed to the synchroniser.
#[derive(Debug, Clone, Copy, PartialEq, Eq, Structural)]
pub enum RootPlan {
    /// Nothing is done with it.
    Nothing,
    /// Each directory directly below it is reconciled with the directory of
    /// the same name below the destination.
    Children,
    /// It is reconciled with the destination itself or, with `nested`, with
    /// the directory of its own name below the destination.
    Whole { nested: bool },
}

pub open spec fn root_plan_of(options: &CopyOptions, source_is_directory: bool) -> RootPlan {
    if options.child_only {
        if source_is_directory {
            RootPlan::Children
        } else {
            RootPlan::Nothing
        }
    } else {
        RootPlan::Whole { nested: options.preserve_root && source_is_directory }
    }
}

/// Decides how one source is handed to the synchroniser.
pub fn root_plan(options: &CopyOptions, source_is_directory: bool) -> (p: RootPlan)
    ensures
        p == root_plan_of(options, source_is_directory),
{
    if options.child_only {
        if source_is_directory {
            RootPlan::Children
        } else {
            RootPlan::Nothing
        }
    } else {
        RootPlan::Whole { nested: options.preserve_root && source_is_directory }
    }
}

/// In children-only mode the directories below a source are processed, each
/// announced by a line; anything else below it is passed over.
pub fn child_line(kind: EntryKind, child_name: &str) -> (log: Option<String>)
    ensures
        line_view(log) == if kind is Directory {
            Some("\nProcessing child directory: "@ + child_name@)
        } else {
            None
        },
{
    match kind {
        EntryKind::Directory => {
            let mut line = String::from_str("\nProcessing child directory: ");
            line.append(child_name);
            Some(line)
        },
        _ => None,
    }
}

/// Bytes per second, cut off at `u64::MAX`; zero while no time has passed.
pub open spec fn throughput(bytes: u64, elapsed_nanos: u128) -> u64 {
    if elapsed_nanos == 0 {
        0
    } else if bytes * 1_000_000_000 / (elapsed_nanos as int) > u64::MAX {
        u64::MAX
    } else {
        (bytes * 1_000_000_000 / (elapsed_nanos as int)) as u64
    }
}

fn throughput_of(bytes: u64, elapsed_nanos: u128) -> (r: u64)
    ensures
        r == throughput(bytes, elapsed_nanos),
{
    if elapsed_nanos == 0 {
        return 0;
    }
    assert(bytes * 1_000_000_000 <= u128::MAX) by (nonlinear_arith)
        requires
            bytes <= u64::MAX,
    ;
    let scaled: u128 = bytes as u128 * 1_000_000_000;
    let rate: u128 = scaled / elapsed_nanos;
    if rate > u64::MAX as u128 {
        u64::MAX
    } else {
        rate as u64
    }
}

/// The run-wide snapshot that belongs to a per-file snapshot.
pub open spec fn merged(
    info: ProgressInfo,
    stats: Statistics,
    totals: ScanTotals,
    elapsed_nanos: u128,
) -> ProgressInfo {
    ProgressInfo {
        files_done: stats.files_copied as u64,
        bytes_done: add_capped(stats.bytes_copied, info.current_file_bytes_done),
        files_total: totals.files,
        bytes_total: totals.bytes,
        speed: if elapsed_nanos == 0 {
            info.speed
        } else {
            throughput(add_capped(stats.bytes_copied, info.current_file_bytes_done), elapsed_nanos)
        },
        ..info
    }
}

/// Completes the snapshot of the file in work with the state of the run:
/// the files done are those counted as copied, the bytes done those of the
/// copied files and of the file in work, the totals those of the scan, the
/// speed the bytes done over the time that has passed.
pub fn merge_progress(
    info: &ProgressInfo,
    stats: &Statistics,
    totals: ScanTotals,
    elapsed_nanos: u128,
) -> (out: ProgressInfo)
    ensures
        out.same_as(&merged(*info, *stats, totals, elapsed_nanos)),
{
    let mut out = info.clone();
    let bytes_done = stats.bytes_copied.saturating_add(info.current_file_bytes_done);
    out.files_done = stats.files_copied as u64;
    out.bytes_done = bytes_done;
    out.files_total = totals.files;
    out.bytes_total = totals.bytes;
    if elapsed_nanos > 0 {
        out.speed = throughput_of(bytes_done, elapsed_nanos);
    }
    out
}

/// The text that opens the log of a run.
pub open spec fn start_text(started_secs: u64, options: &CopyOptions) -> Seq<char> {
    text_line("RBCP - Started: "@, clock_text(started_secs as nat)) + text_line(
        "Sources: "@,
        joined(views(options.sources@), ", "@),
    ) + text_line("Destination: "@, options.destination@) + text_line(
        "Patterns: "@,
        joined(views(options.patterns@), " "@),
    ) + text_line("Options: "@, joined(options.flag_tokens(), " "@))
}

/// The text that closes the log of a run.
pub open spec fn summary_text(
    finished_secs: u64,
    elapsed_secs: u64,
    options: &CopyOptions,
    stats: &Statistics,
) -> Seq<char> {
    text_line("RBCP - Finished: "@, clock_text(finished_secs as nat)) + text_line(
        "Sources: "@,
        joined(views(options.sources@), ", "@),
    ) + text_line("Destination: "@, options.destination@) + "\nStatistics:\n"@ + counter_line(
        "Directories: "@,
        stats.dirs_created as nat,
    ) + counter_line("Files: "@, stats.files_copied as nat) + counter_line(
        "Bytes: "@,
        stats.bytes_copied as nat,
    ) + counter_line("Directories skipped: "@, stats.dirs_skipped as nat) + counter_line(
        "Files skipped: "@,
        stats.files_skipped as nat,
    ) + counter_line("Files failed: "@, stats.files_failed as nat) + counter_line(
        "Directories removed: "@,
        stats.dirs_removed as nat,
    ) + counter_line("Files removed: "@, stats.files_removed as nat) + "\nElapsed time: "@
        + decimal(elapsed_secs as nat) + " seconds\n"@
}

/// How a run ended.
#[derive(Debug, Clone, Copy, PartialEq, Eq, Structural)]
pub enum RunOutcome {
    Completed,
    /// Stopped at the user's request: no failure.
    Cancelled,
    /// Stopped by an error that no retry overcame.
    Failed,
}

/// A run that met an error it could not overcome has failed; one that was
/// asked to stop is cancelled; any other has completed.
pub fn run_outcome(failed: bool, cancelled: bool) -> (outcome: RunOutcome)
    ensures
        outcome == if failed {
            RunOutcome::Failed
        } else if cancelled {
            RunOutcome::Cancelled
        } else {
            RunOutcome::Completed
        },
{
    if failed {
        RunOutcome::Failed
    } else if cancelled {
        RunOutcome::Cancelled
    } else {
        RunOutcome::Completed
    }
}

impl RunOutcome {
    /// The terminal state that stands for the outcome.
    pub open spec fn state(self) -> ProgressState {
        match self {
            RunOutcome::Completed => ProgressState::Completed,
            RunOutcome::Cancelled => ProgressState::Cancelled,
            RunOutcome::Failed => ProgressState::Failed,
        }
    }
}

/// One run: its policy, where it stands, and what the scan found.
#[derive(Debug)]
pub struct CopyEngine {
    options: CopyOptions,
    state: ProgressState,
    totals: ScanTotals,
}

/// A snapshot with nothing in it but a state and the totals of the scan.
pub open spec fn phase_snapshot(
    info: ProgressInfo,
    state: ProgressState,
    totals: ScanTotals,
) -> bool {
    &&& info.state == state
    &&& info.files_total == totals.files
    &&& info.bytes_total == totals.bytes
    &&& info.current_file@.len() == 0
    &&& info.files_done == 0
    &&& info.bytes_done == 0
    &&& info.current_file_bytes_done == 0
    &&& info.current_file_bytes_total == 0
    &&& info.speed == 0
}

/// The snapshot that closes a run: the terminal state, the totals of the
/// scan, the files and bytes that the counters show as copied, the speed
/// over the whole run, and no file in work.
pub open spec fn closing_snapshot(
    info: ProgressInfo,
    state: ProgressState,
    totals: ScanTotals,
    stats: Statistics,
    elapsed_secs: u64,
) -> bool {
    &&& info.state == state
    &&& info.files_total == totals.files
    &&& info.bytes_total == totals.bytes
    &&& info.files_done == stats.files_copied as u64
    &&& info.bytes_done == stats.bytes_copied
    &&& info.speed == throughput(stats.bytes_copied, (elapsed_secs * 1_000_000_000) as u128)
    &&& info.current_file@.len() == 0
    &&& info.current_file_bytes_done == 0
    &&& info.current_file_bytes_total == 0
}

fn snapshot(state: ProgressState, totals: ScanTotals) -> (info: ProgressInfo)
    ensures
        phase_snapshot(info, state, totals),
{
    let mut info = ProgressInfo::in_state(state);
    info.files_total = totals.files;
    info.bytes_total = totals.bytes;
    info
}

impl CopyEngine {
    pub closed spec fn policy(&self) -> CopyOptions {
        self.options
    }

    /// Where the run stands.
    pub closed spec fn phase(&self) -> ProgressState {
        self.state
    }

    /// What the scan found; zero before it and without it.
    pub closed spec fn scanned(&self) -> ScanTotals {
        self.totals
    }

    pub fn new(options: CopyOptions) -> (e: Self)
        ensures
            e.policy() == options,
            e.phase() is Idle,
            e.scanned() == (ScanTotals { files: 0, bytes: 0 }),
    {
        CopyEngine { options, state: ProgressState::Idle, totals: ScanTotals::new() }
    }

    pub fn options(&self) -> (o: &CopyOptions)
        ensures
            *o == self.policy(),
    {
        &self.options
    }

    pub fn state(&self) -> (s: ProgressState)
        ensures
            s == self.phase(),
    {
        self.state
    }

    pub fn totals(&self) -> (t: ScanTotals)
        ensures
            t == self.scanned(),
    {
        self.totals
    }

    /// The text that opens the log: when the run began, what it copies and
    /// where to, and under which switches.
    pub fn start_message(&self, started_secs: u64) -> (text: String)
        ensures
            text@ == start_text(started_secs, &self.policy()),
    {
        let mut text = String::new();
        let clock = format_time(started_secs);
        push_text(&mut text, "RBCP - Started: ", clock.as_str());
        assert(text@ =~= text_line("RBCP - Started: "@, clock_text(started_secs as nat)));
        let sources = join(&self.options.sources, ", ");
        push_text(&mut text, "Sources: ", sources.as_str());
        push_text(&mut text, "Destination: ", self.options.destination.as_str());
        let patterns = join(&self.options.patterns, " ");
        push_text(&mut text, "Patterns: ", patterns.as_str());
        let flags = self.options.to_string_flags();
        push_text(&mut text, "Options: ", flags.as_str());
        text
    }

    /// Opens the scan, where progress is shown: the run passes to
    /// `Scanning`, and the snapshot to report says so. Without progress
    /// nothing is scanned and nothing changes.
    pub fn begin_scan(&mut self) -> (info: Option<ProgressInfo>)
        requires
            old(self).phase() is Idle,
        ensures
            final(self).policy() == old(self).policy(),
            final(self).scanned() == old(self).scanned(),
            old(self).policy().show_progress ==> final(self).phase() is Scanning && info is Some
                && phase_snapshot(info->0, ProgressState::Scanning, old(self).scanned()),
            !old(self).policy().show_progress ==> final(self).phase() is Idle && info is None,
            old(self).phase() == final(self).phase() || old(self).phase().allows(
                final(self).phase(),
            ),
    {
        if self.options.show_progress {
            self.state = ProgressState::Scanning;
            Some(snapshot(ProgressState::Scanning, self.totals))
        } else {
            None
        }
    }

    /// Closes the scan: the totals are kept, and the snapshot to report
    /// shows them.
    pub fn end_scan(&mut self, totals: ScanTotals) -> (info: ProgressInfo)
        requires
            old(self).phase() is Scanning,
        ensures
            final(self).policy() == old(self).policy(),
            final(self).phase() is Scanning,
            final(self).scanned() == totals,
            phase_snapshot(info, ProgressState::Scanning, totals),
    {
        self.totals = totals;
        snapshot(ProgressState::Scanning, totals)
    }

    /// Whether the destination directory is to be created, and the line to
    /// log: a missing destination is created, or under list-only only
    /// announced.
    pub fn prepare_destination(&self, destination_exists: bool) -> (r: (bool, Option<String>))
        ensures
            r.0 == (!destination_exists && !self.policy().list_only),
            line_view(r.1) == if destination_exists {
                None
            } else if self.policy().list_only {
                Some("Would create destination directory: "@ + self.policy().destination@)
            } else {
                Some("Creating destination directory: "@ + self.policy().destination@)
            },
    {
        if destination_exists {
            return (false, None);
        }
        let mut line = if self.options.list_only {
            String::from_str("Would create destination directory: ")
        } else {
            String::from_str("Creating destination directory: ")
        };
        line.append(self.options.destination.as_str());
        (!self.options.list_only, Some(line))
    }

    /// Opens the copy: the run passes to `Copying`, and the snapshot to
    /// report carries the totals of the scan.
    pub fn begin_copy(&mut self) -> (info: ProgressInfo)
        requires
            old(self).phase() is Idle || old(self).phase() is Scanning,
        ensures
            final(self).policy() == old(self).policy(),
            final(self).scanned() == old(self).scanned(),
            final(self).phase() is Copying,
            old(self).phase().allows(final(self).phase()),
            phase_snapshot(info, ProgressState::Copying, old(self).scanned()),
    {
        self.state = ProgressState::Copying;
        snapshot(ProgressState::Copying, self.totals)
    }

    /// Holds a copying run or releases a held one. Returns whether the
    /// state changed.
    pub fn set_paused(&mut self, paused: bool) -> (changed: bool)
        ensures
            final(self).policy() == old(self).policy(),
            final(self).scanned() == old(self).scanned(),
            changed == ((paused && old(self).phase() is Copying) || (!paused && old(
                self,
            ).phase() is Paused)),
            changed ==> old(self).phase().allows(final(self).phase()),
            changed && paused ==> final(self).phase() is Paused,
            changed && !paused ==> final(self).phase() is Copying,
            !changed ==> final(self).phase() == old(self).phase(),
    {
        match (self.state, paused) {
            (ProgressState::Copying, true) => {
                self.state = ProgressState::Paused;
                true
            },
            (ProgressState::Paused, false) => {
                self.state = ProgressState::Copying;
                true
            },
            _ => false,
        }
    }

    /// The run-wide snapshot that belongs to the snapshot of the file in
    /// work: see [`merge_progress`].
    pub fn observe(
        &self,
        info: &ProgressInfo,
        stats: &Statistics,
        elapsed_nanos: u128,
    ) -> (out: ProgressInfo)
        ensures
            out.same_as(&merged(*info, *stats, self.scanned(), elapsed_nanos)),
    {
        merge_progress(info, stats, self.totals, elapsed_nanos)
    }

    /// Closes the run. A run that completed logs the summary; a cancelled
    /// or failed run logs nothing more. The snapshot to report shows the
    /// terminal state, the totals of the scan and what the run has done:
    /// the files and bytes counted as copied, and the speed over the whole
    /// run.
    pub fn finish(
        &mut self,
        outcome: RunOutcome,
        stats: &Statistics,
        finished_secs: u64,
        elapsed_secs: u64,
    ) -> (r: (Option<String>, ProgressInfo))
        requires
            old(self).phase() is Copying || old(self).phase() is Paused,
        ensures
            final(self).policy() == old(self).policy(),
            final(self).scanned() == old(self).scanned(),
            final(self).phase() == outcome.state(),
            final(self).phase().terminal(),
            old(self).phase().allows(final(self).phase()),
            closing_snapshot(r.1, outcome.state(), old(self).scanned(), *stats, elapsed_secs),
            line_view(r.0) == if outcome is Completed {
                Some(summary_text(finished_secs, elapsed_secs, &old(self).policy(), stats))
            } else {
                None
            },
    {
        let state = match outcome {
            RunOutcome::Completed => ProgressState::Completed,
            RunOutcome::Cancelled => ProgressState::Cancelled,
            RunOutcome::Failed => ProgressState::Failed,
        };
        self.state = state;
        let elapsed_nanos: u128 = elapsed_secs as u128 * 1_000_000_000;
        let info = merge_progress(&snapshot(state, self.totals), stats, self.totals, elapsed_nanos);
        let log = match outcome {
            RunOutcome::Completed => Some(
                summary_message(finished_secs, elapsed_secs, &self.options, stats),
            ),
            _ => None,
        };
        (log, info)
    }
}

/// The text that closes the log: when the run ended, what it copied and
/// where to, the counters, and the time it took.
pub fn summary_message(
    finished_secs: u64,
    elapsed_secs: u64,
    options: &CopyOptions,
    stats: &Statistics,
) -> (text: String)
    ensures
        text@ == summary_text(finished_secs, elapsed_secs, options, stats),
{
    let mut text = String::new();
    let clock = format_time(finished_secs);
    push_text(&mut text, "RBCP - Finished: ", clock.as_str());
    assert(text@ =~= text_line("RBCP - Finished: "@, clock_text(finished_secs as nat)));
    let sources = join(&options.sources, ", ");
    push_text(&mut text, "Sources: ", sources.as_str());
    push_text(&mut text, "Destination: ", options.destination.as_str());
    text.append("\nStatistics:\n");
    push_counter(&mut text, "Directories: ", stats.dirs_created as u64);
    push_counter(&mut text, "Files: ", stats.files_copied as u64);
    push_counter(&mut text, "Bytes: ", stats.bytes_copied);
    push_counter(&mut text, "Directories skipped: ", stats.dirs_skipped as u64);
    push_counter(&mut text, "Files skipped: ", stats.files_skipped as u64);
    push_counter(&mut text, "Files failed: ", stats.files_failed as u64);
    push_counter(&mut text, "Directories removed: ", stats.dirs_removed as u64);
    push_counter(&mut text, "Files removed: ", stats.files_removed as u64);
    text.append("\nElapsed time: ");
    push_decimal(&mut text, elapsed_secs);
    text.append(" seconds\n");
    text
}

} // verus!
