use rbcp_core::progress::{gate_of, Gate};
use rbcp_core::{CliProgress, NullProgress, ProgressCallback, ProgressInfo, ProgressState, SharedProgress};
use std::sync::atomic::Ordering;

const ALL: [ProgressState; 7] = [
    ProgressState::Idle,
    ProgressState::Scanning,
    ProgressState::Copying,
    ProgressState::Paused,
    ProgressState::Cancelled,
    ProgressState::Completed,
    ProgressState::Failed,
];

#[test]
fn terminal_states() {
    assert!(!ProgressState::Idle.is_terminal());
    assert!(!ProgressState::Scanning.is_terminal());
    assert!(!ProgressState::Copying.is_terminal());
    assert!(!ProgressState::Paused.is_terminal());
    assert!(ProgressState::Cancelled.is_terminal());
    assert!(ProgressState::Completed.is_terminal());
    assert!(ProgressState::Failed.is_terminal());
}

#[test]
fn transitions_follow_the_course_of_a_run() {
    assert!(ProgressState::Idle.can_become(ProgressState::Scanning));
    assert!(ProgressState::Idle.can_become(ProgressState::Copying));
    assert!(ProgressState::Scanning.can_become(ProgressState::Copying));
    assert!(ProgressState::Copying.can_become(ProgressState::Paused));
    assert!(ProgressState::Paused.can_become(ProgressState::Copying));
    assert!(ProgressState::Copying.can_become(ProgressState::Completed));
    assert!(ProgressState::Copying.can_become(ProgressState::Cancelled));
    assert!(ProgressState::Copying.can_become(ProgressState::Failed));
    assert!(ProgressState::Paused.can_become(ProgressState::Cancelled));
    assert!(!ProgressState::Idle.can_become(ProgressState::Completed));
    assert!(!ProgressState::Idle.can_become(ProgressState::Paused));
    assert!(!ProgressState::Scanning.can_become(ProgressState::Scanning));
    assert!(!ProgressState::Scanning.can_become(ProgressState::Completed));
    assert!(!ProgressState::Copying.can_become(ProgressState::Scanning));
    assert!(!ProgressState::Copying.can_become(ProgressState::Copying));
}

#[test]
fn nothing_follows_a_terminal_state_and_nothing_leads_to_idle() {
    for from in ALL {
        assert!(!from.can_become(ProgressState::Idle));
        if from.is_terminal() {
            for to in ALL {
                assert!(!from.can_become(to));
            }
        }
    }
}

#[test]
fn default_snapshot_is_idle_and_empty() {
    let info = ProgressInfo::default();
    assert_eq!(info.state, ProgressState::Idle);
    assert_eq!(info.current_file, "");
    assert_eq!(info.files_done, 0);
    assert_eq!(info.files_total, 0);
    assert_eq!(info.bytes_done, 0);
    assert_eq!(info.bytes_total, 0);
    assert_eq!(info.current_file_bytes_done, 0);
    assert_eq!(info.current_file_bytes_total, 0);
    assert_eq!(info.speed, 0);
    let copying = ProgressInfo::in_state(ProgressState::Copying);
    assert_eq!(copying.state, ProgressState::Copying);
    assert_eq!(copying.bytes_total, 0);
}

#[test]
fn snapshot_clone_keeps_everything() {
    let mut info = ProgressInfo::in_state(ProgressState::Copying);
    info.current_file = "a/b.txt".to_string();
    info.files_done = 1;
    info.files_total = 2;
    info.bytes_done = 3;
    info.bytes_total = 4;
    info.current_file_bytes_done = 5;
    info.current_file_bytes_total = 6;
    info.speed = 7;
    let c = info.clone();
    assert_eq!(c.state, ProgressState::Copying);
    assert_eq!(c.current_file, "a/b.txt");
    assert_eq!(
        (c.files_done, c.files_total, c.bytes_done, c.bytes_total),
        (1, 2, 3, 4)
    );
    assert_eq!((c.current_file_bytes_done, c.current_file_bytes_total, c.speed), (5, 6, 7));
}

#[test]
fn gate_stops_before_it_holds() {
    assert_eq!(gate_of(false, false), Gate::Proceed);
    assert_eq!(gate_of(false, true), Gate::Hold);
    assert_eq!(gate_of(true, false), Gate::Stop);
    assert_eq!(gate_of(true, true), Gate::Stop);
}

#[test]
fn null_progress_never_interferes() {
    let mut p = NullProgress;
    p.on_progress(&ProgressInfo::default());
    p.on_log("line");
    assert!(!p.is_cancelled());
    assert!(!p.is_paused());
    assert_eq!(gate_of(p.is_cancelled(), p.is_paused()), Gate::Proceed);
}

#[test]
fn shared_progress_starts_fresh() {
    let p = SharedProgress::new();
    assert!(!p.is_cancelled());
    assert!(!p.is_paused());
    assert_eq!(p.get_info().state, ProgressState::Idle);
    assert!(p.peek_logs().is_empty());
    let d = SharedProgress::default();
    assert!(!d.is_cancelled());
    assert!(d.peek_logs().is_empty());
}

#[test]
fn shared_progress_cancel_and_pause() {
    let mut p = SharedProgress::new();
    p.toggle_pause();
    assert!(p.is_paused());
    assert_eq!(gate_of(p.is_cancelled(), p.is_paused()), Gate::Hold);
    p.toggle_pause();
    assert!(!p.is_paused());
    assert_eq!(gate_of(p.is_cancelled(), p.is_paused()), Gate::Proceed);
    p.set_paused(true);
    assert!(p.is_paused());
    p.set_paused(true);
    assert!(p.is_paused());
    p.cancel();
    assert!(p.is_cancelled());
    assert!(p.is_paused());
    assert_eq!(gate_of(p.is_cancelled(), p.is_paused()), Gate::Stop);
    p.set_paused(false);
    assert!(!p.is_paused());
    assert!(p.is_cancelled());
    p.cancel();
    assert!(p.is_cancelled());
}

#[test]
fn shared_progress_keeps_only_the_latest_snapshot() {
    let mut p = SharedProgress::new();
    let mut a = ProgressInfo::in_state(ProgressState::Scanning);
    a.files_total = 10;
    p.on_progress(&a);
    let mut b = ProgressInfo::in_state(ProgressState::Copying);
    b.current_file = "x".to_string();
    b.bytes_done = 99;
    p.on_progress(&b);
    let got = p.get_info();
    assert_eq!(got.state, ProgressState::Copying);
    assert_eq!(got.current_file, "x");
    assert_eq!(got.bytes_done, 99);
    assert_eq!(got.files_total, 0);
    assert!(p.peek_logs().is_empty());
}

#[test]
fn shared_progress_logs_are_peeked_and_drained() {
    let mut p = SharedProgress::new();
    p.on_log("one");
    p.on_log("two");
    assert_eq!(p.peek_logs(), vec!["one".to_string(), "two".to_string()]);
    assert_eq!(p.peek_logs(), vec!["one".to_string(), "two".to_string()]);
    assert_eq!(p.take_logs(), vec!["one".to_string(), "two".to_string()]);
    assert!(p.peek_logs().is_empty());
    assert!(p.take_logs().is_empty());
    p.on_log("three");
    assert_eq!(p.take_logs(), vec!["three".to_string()]);
}

#[test]
fn shared_progress_reset_makes_ready_for_a_new_run() {
    let mut p = SharedProgress::new();
    p.cancel();
    p.set_paused(true);
    p.on_log("old");
    p.on_progress(&ProgressInfo::in_state(ProgressState::Failed));
    p.reset();
    assert!(!p.is_cancelled());
    assert!(!p.is_paused());
    assert!(p.peek_logs().is_empty());
    assert_eq!(p.get_info().state, ProgressState::Idle);
}

#[test]
fn cli_progress_is_cancelled_through_its_handle() {
    let p = CliProgress::new(true, false);
    assert!(!p.is_cancelled());
    assert!(!p.is_paused());
    let handle = p.cancel_handle();
    assert!(!handle.load(Ordering::Relaxed));
    handle.store(true, Ordering::Relaxed);
    assert!(p.is_cancelled());
    assert!(p.cancel_handle().load(Ordering::Relaxed));
    assert!(!p.is_paused());
}

#[test]
fn cli_progress_shows_what_it_was_told_to() {
    let p = CliProgress::new(true, false);
    let mut info = ProgressInfo::in_state(ProgressState::Scanning);
    info.files_total = 12;
    assert_eq!(p.progress_line(&info, "0"), Some("\rScanning: 12 files found...".to_string()));
    info.state = ProgressState::Copying;
    info.files_done = 3;
    assert_eq!(p.progress_line(&info, "25"), Some("\r25% - 3 of 12 files".to_string()));
    info.state = ProgressState::Completed;
    assert_eq!(p.progress_line(&info, "100"), Some("\nCompleted!\n".to_string()));
    for state in [
        ProgressState::Idle,
        ProgressState::Paused,
        ProgressState::Cancelled,
        ProgressState::Failed,
    ] {
        info.state = state;
        assert_eq!(p.progress_line(&info, "50"), None);
    }
    assert!(!p.wants_log());
    let q = CliProgress::new(false, true);
    for state in ALL {
        info.state = state;
        assert_eq!(q.progress_line(&info, "50"), None);
    }
    assert!(q.wants_log());
}
