//! Progress reporting: what an observer is told, and the observers that
//! need no console.

use std::sync::atomic::AtomicBool;
use std::sync::atomic::Ordering;
use std::sync::Arc;
use vstd::prelude::*;
use vstd::string::*;
use crate::text::{decimal, push_decimal, views};

verus! {

/// Where a run stands.
#[derive(Debug, Clone, Copy, PartialEq, Eq, Structural)]
pub enum ProgressState {
    /// Not started.
    Idle,
    /// Counting what the sources hold.
    Scanning,
    /// Copying files.
    Copying,
    /// Held by the user.
    Paused,
    /// Stopped by the user.
    Cancelled,
    /// Finished.
    Completed,
    /// Stopped by an error.
    Failed,
}

impl ProgressState {
    /// A state that nothing follows.
    pub open spec fn terminal(self) -> bool {
        self is Cancelled || self is Completed || self is Failed
    }

    /// Whether a run in state `self` may pass to `next`: a run starts by
    /// scanning or, where no progress is shown, by copying; scanning leads to
    /// copying; copying and pause alternate; both end in one of the terminal
    /// states.
    pub open spec fn allows(self, next: ProgressState) -> bool {
        match self {
            ProgressState::Idle => next is Scanning || next is Copying,
            ProgressState::Scanning => next is Copying,
            ProgressState::Copying => next is Paused || next.terminal(),
            ProgressState::Paused => next is Copying || next.terminal(),
            _ => false,
        }
    }

    pub fn is_terminal(self) -> (r: bool)
        ensures
            r == self.terminal(),
    {
        match self {
            ProgressState::Cancelled | ProgressState::Completed | ProgressState::Failed => true,
            _ => false,
        }
    }

    pub fn can_become(self, next: ProgressState) -> (r: bool)
        ensures
            r == self.allows(next),
    {
        match self {
            ProgressState::Idle => match next {
                ProgressState::Scanning | ProgressState::Copying => true,
                _ => false,
            },
            ProgressState::Scanning => match next {
                ProgressState::Copying => true,
                _ => false,
            },
            ProgressState::Copying => match next {
                ProgressState::Paused => true,
                _ => next.is_terminal(),
            },
            ProgressState::Paused => match next {
                ProgressState::Copying => true,
                _ => next.is_terminal(),
            },
            _ => false,
        }
    }
}

/// Nothing follows a terminal state, and nothing leads back to `Idle`.
pub proof fn lemma_terminal_states_are_final(from: ProgressState, to: ProgressState)
    ensures
        from.terminal() ==> !from.allows(to),
        !from.allows(ProgressState::Idle),
{
}

/// What an observer sees of a run at one moment.
#[derive(Debug)]
pub struct ProgressInfo {
    pub state: ProgressState,
    /// Path of the file in work.
    pub current_file: String,
    pub files_done: u64,
    /// Zero until the sources have been scanned.
    pub files_total: u64,
    pub bytes_done: u64,
    /// Zero until the sources have been scanned.
    pub bytes_total: u64,
    pub current_file_bytes_done: u64,
    pub current_file_bytes_total: u64,
    /// Bytes per second over the run so far.
    pub speed: u64,
}

impl ProgressInfo {
    /// Idle, no file in work, every number zero.
    pub open spec fn is_initial(&self) -> bool {
        &&& self.state is Idle
        &&& self.current_file@.len() == 0
        &&& self.files_done == 0
        &&& self.files_total == 0
        &&& self.bytes_done == 0
        &&& self.bytes_total == 0
        &&& self.current_file_bytes_done == 0
        &&& self.current_file_bytes_total == 0
        &&& self.speed == 0
    }

    /// The same numbers and the same text.
    pub open spec fn same_as(&self, other: &ProgressInfo) -> bool {
        &&& self.state == other.state
        &&& self.current_file@ == other.current_file@
        &&& self.files_done == other.files_done
        &&& self.files_total == other.files_total
        &&& self.bytes_done == other.bytes_done
        &&& self.bytes_total == other.bytes_total
        &&& self.current_file_bytes_done == other.current_file_bytes_done
        &&& self.current_file_bytes_total == other.current_file_bytes_total
        &&& self.speed == other.speed
    }

    /// A snapshot in the given state with every number zero.
    pub fn in_state(state: ProgressState) -> (info: Self)
        ensures
            info.state == state,
            (ProgressInfo { state: ProgressState::Idle, ..info }).is_initial(),
    {
        ProgressInfo {
            state,
            current_file: String::new(),
            files_done: 0,
            files_total: 0,
            bytes_done: 0,
            bytes_total: 0,
            current_file_bytes_done: 0,
            current_file_bytes_total: 0,
            speed: 0,
        }
    }
}

impl Default for ProgressInfo {
    fn default() -> (info: Self)
        ensures
            info.is_initial(),
    {
        ProgressInfo::in_state(ProgressState::Idle)
    }
}

impl Clone for ProgressInfo {
    fn clone(&self) -> (r: Self)
        ensures
            r.same_as(self),
    {
        ProgressInfo {
            state: self.state,
            current_file: self.current_file.clone(),
            files_done: self.files_done,
            files_total: self.files_total,
            bytes_done: self.bytes_done,
            bytes_total: self.bytes_total,
            current_file_bytes_done: self.current_file_bytes_done,
            current_file_bytes_total: self.current_file_bytes_total,
            speed: self.speed,
        }
    }
}

/// What a worker is to do at a poll point.
#[derive(Debug, Clone, Copy, PartialEq, Eq, Structural)]
pub enum Gate {
    /// Go on with the work.
    Proceed,
    /// Touch nothing, wait a moment and poll again.
    Hold,
    /// Return at once, without error and without a further log line.
    Stop,
}

/// A cancelled run stops, whether paused or not; a paused one holds; any
/// other proceeds.
pub open spec fn gate(cancelled: bool, paused: bool) -> Gate {
    if cancelled {
        Gate::Stop
    } else if paused {
        Gate::Hold
    } else {
        Gate::Proceed
    }
}

/// What a worker is to do at a poll point, from what the observer answers
/// there.
pub fn gate_of(cancelled: bool, paused: bool) -> (g: Gate)
    ensures
        g == gate(cancelled, paused),
{
    if cancelled {
        Gate::Stop
    } else if paused {
        Gate::Hold
    } else {
        Gate::Proceed
    }
}

/// The one interface through which a run reports and is steered. What an
/// observer does with a snapshot or a line is its own affair; what it
/// answers is put to [`gate_of`] at every poll point.
pub trait ProgressCallback {
    /// Takes the latest snapshot.
    fn on_progress(&mut self, info: &ProgressInfo);

    /// Takes one log line.
    fn on_log(&mut self, message: &str);

    /// Whether the run is asked to stop.
    fn is_cancelled(&self) -> bool;

    /// Whether the run is asked to hold.
    fn is_paused(&self) -> bool;
}

/// An observer that hears nothing and never interferes.
pub struct NullProgress;

impl ProgressCallback for NullProgress {
    fn on_progress(&mut self, _info: &ProgressInfo) {
    }

    fn on_log(&mut self, _message: &str) {
    }

    fn is_cancelled(&self) -> (r: bool)
        ensures
            !r,
    {
        false
    }

    fn is_paused(&self) -> (r: bool)
        ensures
            !r,
    {
        false
    }
}

/// The state of an observer that a user interface polls.
pub struct SharedProgressView {
    pub cancelled: bool,
    pub paused: bool,
    pub info: ProgressInfo,
    pub logs: Seq<Seq<char>>,
}

/// An observer that keeps the latest snapshot and the log lines not yet
/// fetched, and carries the cancel and pause requests.
pub struct SharedProgress {
    cancel_flag: bool,
    pause_flag: bool,
    info: ProgressInfo,
    log_messages: Vec<String>,
}

impl View for SharedProgress {
    type V = SharedProgressView;

    closed spec fn view(&self) -> SharedProgressView {
        SharedProgressView {
            cancelled: self.cancel_flag,
            paused: self.pause_flag,
            info: self.info,
            logs: views(self.log_messages@),
        }
    }
}

impl SharedProgressView {
    /// No request pending, the initial snapshot, no log line.
    pub open spec fn is_fresh(&self) -> bool {
        &&& !self.cancelled
        &&& !self.paused
        &&& self.info.is_initial()
        &&& self.logs.len() == 0
    }
}

impl SharedProgress {
    pub fn new() -> (p: Self)
        ensures
            p@.is_fresh(),
    {
        SharedProgress {
            cancel_flag: false,
            pause_flag: false,
            info: ProgressInfo::default(),
            log_messages: Vec::new(),
        }
    }

    /// Asks the run to stop.
    pub fn cancel(&mut self)
        ensures
            final(self)@ == (SharedProgressView { cancelled: true, ..old(self)@ }),
    {
        self.cancel_flag = true;
    }

    /// Holds a running run, releases a held one.
    pub fn toggle_pause(&mut self)
        ensures
            final(self)@ == (SharedProgressView { paused: !old(self)@.paused, ..old(self)@ }),
    {
        let current = self.pause_flag;
        self.pause_flag = !current;
    }

    pub fn set_paused(&mut self, paused: bool)
        ensures
            final(self)@ == (SharedProgressView { paused: paused, ..old(self)@ }),
    {
        self.pause_flag = paused;
    }

    /// The latest snapshot.
    pub fn get_info(&self) -> (info: ProgressInfo)
        ensures
            info.same_as(&self@.info),
    {
        self.info.clone()
    }

    /// Hands out the buffered log lines and empties the buffer.
    pub fn take_logs(&mut self) -> (logs: Vec<String>)
        ensures
            views(logs@) == old(self)@.logs,
            final(self)@ == (SharedProgressView { logs: Seq::empty(), ..old(self)@ }),
    {
        let mut logs: Vec<String> = Vec::new();
        std::mem::swap(&mut logs, &mut self.log_messages);
        assert(views(self.log_messages@) =~= Seq::<Seq<char>>::empty());
        logs
    }

    /// The buffered log lines; the buffer keeps them.
    pub fn peek_logs(&self) -> (logs: Vec<String>)
        ensures
            views(logs@) == self@.logs,
    {
        let mut logs: Vec<String> = Vec::new();
        let mut i: usize = 0;
        while i < self.log_messages.len()
            invariant
                i <= self.log_messages.len(),
                logs.len() == i,
                forall|j: int| 0 <= j < i ==> logs@[j]@ == self.log_messages@[j]@,
            decreases self.log_messages.len() - i,
        {
            logs.push(self.log_messages[i].clone());
            i += 1;
        }
        assert(views(logs@) =~= views(self.log_messages@));
        logs
    }

    /// Makes the observer ready for a new run.
    pub fn reset(&mut self)
        ensures
            final(self)@.is_fresh(),
    {
        self.cancel_flag = false;
        self.pause_flag = false;
        self.info = ProgressInfo::default();
        self.log_messages.clear();
    }
}

impl Default for SharedProgress {
    fn default() -> (p: Self)
        ensures
            p@.is_fresh(),
    {
        SharedProgress::new()
    }
}

impl ProgressCallback for SharedProgress {
    /// Replaces the snapshot: only the latest one is kept.
    fn on_progress(&mut self, info: &ProgressInfo)
        ensures
            final(self)@.info.same_as(info),
            final(self)@.cancelled == old(self)@.cancelled,
            final(self)@.paused == old(self)@.paused,
            final(self)@.logs == old(self)@.logs,
    {
        self.info = info.clone();
    }

    /// Appends the line to the buffer.
    fn on_log(&mut self, message: &str)
        ensures
            final(self)@ == (SharedProgressView {
                logs: old(self)@.logs.push(message@),
                ..old(self)@
            }),
    {
        self.log_messages.push(String::from_str(message));
        assert(views(self.log_messages@) =~= views(old(self).log_messages@).push(message@));
    }

    fn is_cancelled(&self) -> (r: bool)
        ensures
            r == self@.cancelled,
    {
        self.cancel_flag
    }

    fn is_paused(&self) -> (r: bool)
        ensures
            r == self@.paused,
    {
        self.pause_flag
    }
}

/// The text of an optional line.
pub open spec fn line_view(line: Option<String>) -> Option<Seq<char>> {
    match line {
        Some(l) => Some(l@),
        None => None,
    }
}

/// What the console shows of a snapshot.
pub open spec fn console_text(shown: bool, info: ProgressInfo, percent: Seq<char>) -> Option<
    Seq<char>,
> {
    if !shown {
        None
    } else {
        match info.state {
            ProgressState::Scanning => Some(
                "\rScanning: "@ + decimal(info.files_total as nat) + " files found..."@,
            ),
            ProgressState::Copying => Some(
                "\r"@ + percent + "% - "@ + decimal(info.files_done as nat) + " of "@ + decimal(
                    info.files_total as nat,
                ) + " files"@,
            ),
            ProgressState::Completed => Some("\nCompleted!\n"@),
            _ => None,
        }
    }
}

/// The part of a console observer that needs no console: what to show, and
/// the cancel request, which another thread may raise through the handle.
pub struct CliProgress {
    cancel_flag: Arc<AtomicBool>,
    show_progress: bool,
    show_file_names: bool,
}

/// Makes with `Arc::clone` a second handle. The clone points to the
/// allocation that `flag` points to, so both are handles to one and the
/// same flag. Nothing is claimed of what the flag holds.
#[verifier::external_body]
fn share_flag(flag: &Arc<AtomicBool>) -> (shared: Arc<AtomicBool>)
    ensures
        shared == *flag,
{
    Arc::clone(flag)
}

impl CliProgress {
    /// Whether snapshots are to be shown.
    pub closed spec fn shows_progress(&self) -> bool {
        self.show_progress
    }

    /// Whether log lines are to be shown.
    pub closed spec fn shows_file_names(&self) -> bool {
        self.show_file_names
    }

    /// The flag that carries the cancel request. The observer and every
    /// handle given out share it.
    pub closed spec fn flag(&self) -> Arc<AtomicBool> {
        self.cancel_flag
    }

    pub fn new(show_progress: bool, show_file_names: bool) -> (p: Self)
        ensures
            p.shows_progress() == show_progress,
            p.shows_file_names() == show_file_names,
    {
        CliProgress {
            cancel_flag: Arc::new(AtomicBool::new(false)),
            show_progress,
            show_file_names,
        }
    }

    /// A handle through which the run can be asked to stop: a handle to
    /// the very flag that `is_cancelled` reads.
    pub fn cancel_handle(&self) -> (handle: Arc<AtomicBool>)
        ensures
            handle == self.flag(),
    {
        share_flag(&self.cancel_flag)
    }

    /// Whether a stop has been asked for through a handle. The flag is
    /// shared between threads, so two readings may differ.
    pub fn is_cancelled(&self) -> bool {
        self.cancel_flag.load(Ordering::Relaxed)
    }

    /// The console observer never holds a run.
    pub fn is_paused(&self) -> (r: bool)
        ensures
            !r,
    {
        false
    }

    /// What the console shows of a snapshot, if anything: the files found
    /// while scanning, the share done and the files copied while copying, a
    /// closing word on completion. `percent` is the share of the bytes done,
    /// as it is to appear. A line that begins with a carriage return
    /// overwrites the one before it.
    pub fn progress_line(&self, info: &ProgressInfo, percent: &str) -> (line: Option<String>)
        ensures
            line_view(line) == console_text(self.shows_progress(), *info, percent@),
    {
        if !self.show_progress {
            return None;
        }
        match info.state {
            ProgressState::Scanning => {
                let mut line = String::from_str("\rScanning: ");
                push_decimal(&mut line, info.files_total);
                line.append(" files found...");
                Some(line)
            },
            ProgressState::Copying => {
                let mut line = String::from_str("\r");
                line.append(percent);
                line.append("% - ");
                push_decimal(&mut line, info.files_done);
                line.append(" of ");
                push_decimal(&mut line, info.files_total);
                line.append(" files");
                Some(line)
            },
            ProgressState::Completed => Some(String::from_str("\nCompleted!\n")),
            _ => None,
        }
    }

    /// Whether log lines are to be shown.
    pub fn wants_log(&self) -> (r: bool)
        ensures
            r == self.shows_file_names(),
    {
        self.show_file_names
    }
}

} // verus!
