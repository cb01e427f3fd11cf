use rbcp_core::copy::{
    contains_name, creates_missing_parent, enter_directory, entry_action, purge_action,
    purge_enabled, record_removal, removes_emptied_source, single_file_target,
    skip_empty_directory, try_each, Entering, EntryAction, EntryKind, FileTarget, PurgeAction,
};
use std::cell::RefCell;
use rbcp_core::utils::matches_any;
use rbcp_core::{CopyOptions, Statistics};

fn names(list: &[&str]) -> Vec<String> {
    list.iter().map(|s| s.to_string()).collect()
}

fn mirror() -> CopyOptions {
    let mut o = CopyOptions::default();
    o.mirror = true;
    o
}

#[test]
fn selected_files_are_transferred_and_others_are_invisible() {
    let o = CopyOptions::default();
    assert_eq!(entry_action(false, EntryKind::File, true, &o), EntryAction::Transfer);
    assert_eq!(entry_action(false, EntryKind::File, false, &o), EntryAction::Ignore);
    assert_eq!(entry_action(false, EntryKind::Other, true, &o), EntryAction::Ignore);
    assert_eq!(entry_action(false, EntryKind::Absent, true, &o), EntryAction::Ignore);
}

#[test]
fn mirror_enters_every_directory_empty_or_not() {
    let mut o = CopyOptions::default();
    o.mirror = true;
    assert_eq!(
        entry_action(false, EntryKind::Directory, false, &o),
        EntryAction::Descend { check_empty: false }
    );
    o.recursive = true;
    assert_eq!(
        entry_action(false, EntryKind::Directory, false, &o),
        EntryAction::Descend { check_empty: false }
    );
    // Purge alone brings neither recursion nor empty directories.
    let mut purge = CopyOptions::default();
    purge.purge = true;
    assert_eq!(entry_action(false, EntryKind::Directory, false, &purge), EntryAction::Ignore);
    purge.recursive = true;
    assert_eq!(
        entry_action(false, EntryKind::Directory, false, &purge),
        EntryAction::Descend { check_empty: true }
    );
}

#[test]
fn directories_are_entered_only_under_recursion() {
    let mut o = CopyOptions::default();
    assert_eq!(entry_action(false, EntryKind::Directory, true, &o), EntryAction::Ignore);
    o.recursive = true;
    assert_eq!(
        entry_action(false, EntryKind::Directory, false, &o),
        EntryAction::Descend { check_empty: true }
    );
    o.include_empty = true;
    assert_eq!(
        entry_action(false, EntryKind::Directory, false, &o),
        EntryAction::Descend { check_empty: false }
    );
}

#[test]
fn a_cancelled_run_acts_on_no_entry() {
    let o = mirror();
    for kind in [EntryKind::File, EntryKind::Directory, EntryKind::Other, EntryKind::Absent] {
        assert_eq!(entry_action(true, kind, true, &o), EntryAction::Stop);
        assert_eq!(entry_action(true, kind, false, &o), EntryAction::Stop);
    }
}

#[test]
fn an_existing_destination_is_entered_silently() {
    let mut stats = Statistics::new();
    let o = CopyOptions::default();
    match enter_directory(false, true, "dst", &o, &mut stats) {
        Entering::Enter { create, log } => {
            assert!(!create);
            assert_eq!(log, None);
        }
        Entering::Stop => panic!("nobody cancelled"),
    }
    assert_eq!(stats.dirs_created, 0);
}

#[test]
fn a_missing_destination_is_created_and_counted() {
    let mut stats = Statistics::new();
    let o = CopyOptions::default();
    match enter_directory(false, false, "dst/sub", &o, &mut stats) {
        Entering::Enter { create, log } => {
            assert!(create);
            assert_eq!(log, Some("Creating directory: dst/sub".to_string()));
        }
        Entering::Stop => panic!("nobody cancelled"),
    }
    assert_eq!(stats.dirs_created, 1);
}

#[test]
fn list_only_announces_the_directory_and_counts_it() {
    let mut stats = Statistics::new();
    let mut o = CopyOptions::default();
    o.list_only = true;
    match enter_directory(false, false, "dst/sub", &o, &mut stats) {
        Entering::Enter { create, log } => {
            assert!(!create);
            assert_eq!(log, Some("Would create directory: dst/sub".to_string()));
        }
        Entering::Stop => panic!("nobody cancelled"),
    }
    assert_eq!(stats.dirs_created, 1);
}

#[test]
fn a_cancelled_run_enters_no_directory() {
    let mut stats = Statistics::new();
    let o = CopyOptions::default();
    assert!(matches!(enter_directory(true, false, "dst", &o, &mut stats), Entering::Stop));
    assert!(matches!(enter_directory(true, true, "dst", &o, &mut stats), Entering::Stop));
    assert_eq!(stats.dirs_created, 0);
}

#[test]
fn empty_directories_are_counted_as_skipped() {
    let mut stats = Statistics::new();
    let mut o = CopyOptions::default();
    assert_eq!(
        skip_empty_directory("src/empty", &o, &mut stats),
        Some("Skipping empty directory: src/empty".to_string())
    );
    o.log_file_names = false;
    assert_eq!(skip_empty_directory("src/empty2", &o, &mut stats), None);
    assert_eq!(stats.dirs_skipped, 2);
}

#[test]
fn emptied_sources_are_removed_only_by_a_real_move_of_directories() {
    let mut o = CopyOptions::default();
    assert!(!removes_emptied_source(&o));
    o.move_files = true;
    assert!(!removes_emptied_source(&o));
    o.move_dirs = true;
    assert!(removes_emptied_source(&o));
    o.list_only = true;
    assert!(!removes_emptied_source(&o));
}

#[test]
fn purge_is_on_under_purge_or_mirror_but_not_under_list_only() {
    let mut o = CopyOptions::default();
    assert!(!purge_enabled(&o));
    o.purge = true;
    assert!(purge_enabled(&o));
    o.purge = false;
    o.mirror = true;
    assert!(purge_enabled(&o));
    o.list_only = true;
    assert!(!purge_enabled(&o));
}

#[test]
fn names_are_found_by_their_characters() {
    let src = names(&["a.txt", "sub", ""]);
    assert!(contains_name(&src, "a.txt"));
    assert!(contains_name(&src, "sub"));
    assert!(contains_name(&src, ""));
    assert!(!contains_name(&src, "A.txt"));
    assert!(!contains_name(&src, "a.tx"));
    assert!(!contains_name(&names(&[]), "a"));
}

#[test]
fn entries_that_the_source_holds_are_kept() {
    let o = mirror();
    let src = names(&["a.txt", "sub"]);
    assert!(matches!(
        purge_action(false, "a.txt", EntryKind::File, "dst/a.txt", &src, &o),
        PurgeAction::Keep
    ));
    assert!(matches!(
        purge_action(false, "sub", EntryKind::Directory, "dst/sub", &src, &o),
        PurgeAction::Keep
    ));
}

#[test]
fn entries_that_the_source_lacks_are_removed() {
    let mut o = mirror();
    let src = names(&["a.txt"]);
    match purge_action(false, "old.txt", EntryKind::File, "dst/old.txt", &src, &o) {
        PurgeAction::Remove { kind, secure, line } => {
            assert_eq!(kind, EntryKind::File);
            assert!(!secure);
            assert_eq!(line, "Removing file: dst/old.txt");
        }
        _ => panic!("the file is to be removed"),
    }
    match purge_action(false, "gone", EntryKind::Directory, "dst/gone", &src, &o) {
        PurgeAction::Remove { kind, secure, line } => {
            assert_eq!(kind, EntryKind::Directory);
            assert!(!secure);
            assert_eq!(line, "Removing directory: dst/gone");
        }
        _ => panic!("the directory is to be removed"),
    }
    o.shred_files = true;
    match purge_action(false, "old.txt", EntryKind::File, "dst/old.txt", &src, &o) {
        PurgeAction::Remove { secure, line, .. } => {
            assert!(secure);
            assert_eq!(line, "Securely removing file: dst/old.txt");
        }
        _ => panic!("the file is to be removed"),
    }
    match purge_action(false, "gone", EntryKind::Directory, "dst/gone", &src, &o) {
        PurgeAction::Remove { secure, line, .. } => {
            assert!(secure);
            assert_eq!(line, "Securely removing directory: dst/gone");
        }
        _ => panic!("the directory is to be removed"),
    }
}

#[test]
fn what_is_neither_file_nor_directory_is_removed_as_a_file() {
    let mut o = mirror();
    match purge_action(false, "ghost", EntryKind::Other, "dst/ghost", &names(&[]), &o) {
        PurgeAction::Remove { kind, secure, line } => {
            assert_eq!(kind, EntryKind::Other);
            assert!(!secure);
            assert_eq!(line, "Removing file: dst/ghost");
        }
        _ => panic!("the entry is to be removed"),
    }
    // There is nothing in it to overwrite.
    o.shred_files = true;
    match purge_action(false, "ghost", EntryKind::Other, "dst/ghost", &names(&[]), &o) {
        PurgeAction::Remove { secure, line, .. } => {
            assert!(!secure);
            assert_eq!(line, "Removing file: dst/ghost");
        }
        _ => panic!("the entry is to be removed"),
    }
    assert!(matches!(
        purge_action(false, "ghost", EntryKind::Other, "dst/ghost", &names(&["ghost"]), &o),
        PurgeAction::Keep
    ));
}

#[test]
fn what_is_gone_already_is_passed_over() {
    let o = mirror();
    assert!(matches!(
        purge_action(false, "gone", EntryKind::Absent, "dst/gone", &names(&[]), &o),
        PurgeAction::Keep
    ));
}

#[test]
fn a_cancelled_run_purges_nothing() {
    let o = mirror();
    assert!(matches!(
        purge_action(true, "old.txt", EntryKind::File, "dst/old.txt", &names(&[]), &o),
        PurgeAction::Stop
    ));
}

#[test]
fn removals_are_counted_by_kind() {
    let mut stats = Statistics::new();
    record_removal(EntryKind::File, &mut stats);
    record_removal(EntryKind::File, &mut stats);
    record_removal(EntryKind::Directory, &mut stats);
    record_removal(EntryKind::Other, &mut stats);
    record_removal(EntryKind::Absent, &mut stats);
    assert_eq!(stats.files_removed, 3);
    assert_eq!(stats.dirs_removed, 1);
}

#[test]
fn a_single_file_goes_into_a_directory_or_to_the_path_itself() {
    assert_eq!(single_file_target(true), FileTarget::Inside);
    assert_eq!(single_file_target(false), FileTarget::Exact);
}

#[test]
fn a_missing_parent_is_created_unless_the_run_only_lists() {
    let mut o = CopyOptions::default();
    assert!(creates_missing_parent(true, &o));
    assert!(!creates_missing_parent(false, &o));
    o.list_only = true;
    assert!(!creates_missing_parent(true, &o));
    assert!(!creates_missing_parent(false, &o));
}

/// One level of a mirror run, played on names alone.
fn mirror_level(
    src: &[(&str, EntryKind)],
    dst: &[(&str, EntryKind)],
    patterns: &[&str],
) -> Vec<String> {
    let mut o = mirror();
    o.patterns = names(patterns);
    let src_names: Vec<String> = src.iter().map(|(n, _)| n.to_string()).collect();
    let mut after: Vec<String> = dst.iter().map(|(n, _)| n.to_string()).collect();
    for (name, kind) in src {
        let selected = matches_any(name, &o.patterns);
        match entry_action(false, *kind, selected, &o) {
            EntryAction::Transfer | EntryAction::Descend { .. } => {
                if !after.contains(&name.to_string()) {
                    after.push(name.to_string());
                }
            }
            _ => {}
        }
    }
    assert!(purge_enabled(&o));
    for (name, kind) in dst {
        if let PurgeAction::Remove { .. } = purge_action(false, name, *kind, name, &src_names, &o) {
            after.retain(|n| n != name);
        }
    }
    after.sort();
    after
}

#[test]
fn after_a_mirror_the_destination_holds_the_names_of_the_source() {
    let src = [("a.txt", EntryKind::File), ("b.txt", EntryKind::File), ("sub", EntryKind::Directory)];
    let dst = [("b.txt", EntryKind::File), ("stale.txt", EntryKind::File), ("old", EntryKind::Directory)];
    assert_eq!(mirror_level(&src, &dst, &["*"]), names(&["a.txt", "b.txt", "sub"]));
    assert_eq!(mirror_level(&src, &[], &["*"]), names(&["a.txt", "b.txt", "sub"]));
    assert_eq!(mirror_level(&[], &dst, &["*"]), names(&[]));
}

#[test]
fn a_mirror_with_patterns_brings_in_only_what_they_select() {
    let src = [("a.txt", EntryKind::File), ("b.log", EntryKind::File), ("sub", EntryKind::Directory)];
    let dst = [("stale.txt", EntryKind::File)];
    assert_eq!(mirror_level(&src, &dst, &["*.txt"]), names(&["a.txt", "sub"]));
}

#[test]
fn a_mirror_removes_what_is_neither_file_nor_directory() {
    let src = [("a.txt", EntryKind::File)];
    let dst = [("socket", EntryKind::Other), ("a.txt", EntryKind::File)];
    assert_eq!(mirror_level(&src, &dst, &["*"]), names(&["a.txt"]));
}

#[test]
fn a_mirror_keeps_what_bears_the_name_of_an_unselected_source_file() {
    let src = [("a.txt", EntryKind::File), ("b.log", EntryKind::File)];
    let dst = [("b.log", EntryKind::File)];
    assert_eq!(mirror_level(&src, &dst, &["*.txt"]), names(&["a.txt", "b.log"]));
}

#[test]
fn the_first_failure_stops_the_batch() {
    let seen: RefCell<Vec<u32>> = RefCell::new(Vec::new());
    let work = |item: &u32| -> Result<(), String> {
        seen.borrow_mut().push(*item);
        if *item % 10 == 0 {
            Err(format!("item {} failed", item))
        } else {
            Ok(())
        }
    };
    let result = try_each(&vec![1, 2, 30, 4, 50], work);
    assert_eq!(result, Err("item 30 failed".to_string()));
    // What came before the failure stays done; what stands behind it was
    // not touched.
    assert_eq!(*seen.borrow(), vec![1, 2, 30]);
}

#[test]
fn a_batch_without_failure_is_worked_through() {
    let seen: RefCell<Vec<u32>> = RefCell::new(Vec::new());
    let work = |item: &u32| -> Result<(), String> {
        seen.borrow_mut().push(*item);
        Ok(())
    };
    assert_eq!(try_each(&vec![3, 1, 2], work), Ok(()));
    assert_eq!(*seen.borrow(), vec![3, 1, 2]);
    let nothing: Vec<u32> = Vec::new();
    assert_eq!(try_each(&nothing, work), Ok(()));
    assert_eq!(*seen.borrow(), vec![3, 1, 2]);
}
