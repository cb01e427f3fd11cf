use rbcp_core::args::{DEFAULT_RETRIES, DEFAULT_WAIT_TIME, SHORTHAND_THREADS};
use rbcp_core::cli::{recognise, recognise_setting, Setting, Switch};
use rbcp_core::CopyOptions;

fn args(list: &[&str]) -> Vec<String> {
    list.iter().map(|s| s.to_string()).collect()
}

#[test]
fn defaults_are_as_documented() {
    let o = CopyOptions::default();
    assert!(o.sources.is_empty());
    assert_eq!(o.destination, "");
    assert!(o.patterns.is_empty());
    assert!(!o.recursive);
    assert!(!o.include_empty);
    assert!(!o.restartable);
    assert!(!o.backup_mode);
    assert!(!o.purge);
    assert!(!o.mirror);
    assert!(!o.move_files);
    assert!(!o.move_dirs);
    assert_eq!(o.attributes_add, "");
    assert_eq!(o.attributes_remove, "");
    assert_eq!(o.threads, 1);
    assert_eq!(o.retries, 1_000_000);
    assert_eq!(o.wait_time, 30);
    assert_eq!(o.log_file, None);
    assert!(!o.list_only);
    assert!(o.show_progress);
    assert!(o.log_file_names);
    assert!(!o.empty_files);
    assert!(!o.child_only);
    assert!(!o.shred_files);
    assert!(!o.force_overwrite);
    assert!(!o.preserve_root);
    assert_eq!(DEFAULT_RETRIES, 1_000_000);
    assert_eq!(DEFAULT_WAIT_TIME, 30);
    assert_eq!(SHORTHAND_THREADS, 8);
}

#[test]
fn default_options_spell_no_flags() {
    assert_eq!(CopyOptions::default().to_string_flags(), "");
}

#[test]
fn every_flag_in_its_place() {
    let mut o = CopyOptions::default();
    o.recursive = true;
    o.include_empty = true;
    o.restartable = true;
    o.backup_mode = true;
    o.mirror = true;
    o.purge = true;
    o.move_dirs = true;
    o.move_files = true;
    o.attributes_add = "RA".to_string();
    o.attributes_remove = "H".to_string();
    o.threads = 16;
    o.retries = 3;
    o.wait_time = 5;
    o.list_only = true;
    o.show_progress = false;
    o.log_file_names = false;
    o.empty_files = true;
    o.child_only = true;
    o.shred_files = true;
    assert_eq!(
        o.to_string_flags(),
        "/E /Z /B /MIR /MOVE /A+:RA /A-:H /MT:16 /R:3 /W:5 /L /NP /NFL /EMPTY /CHILDONLY /SHRED"
    );
}

#[test]
fn the_weaker_of_two_flags_shows_where_the_stronger_is_off() {
    let mut o = CopyOptions::default();
    o.recursive = true;
    o.purge = true;
    o.move_files = true;
    assert_eq!(o.to_string_flags(), "/S /PURGE /MOV");
    o.include_empty = true;
    assert_eq!(o.to_string_flags(), "/E /PURGE /MOV");
    let mut only_empty = CopyOptions::default();
    only_empty.include_empty = true;
    assert_eq!(only_empty.to_string_flags(), "");
}

#[test]
fn numbers_show_only_where_they_differ_from_the_defaults() {
    let mut o = CopyOptions::default();
    o.threads = 0;
    o.retries = 0;
    o.wait_time = 0;
    assert_eq!(o.to_string_flags(), "/MT:0 /R:0 /W:0");
    o.threads = 1;
    o.retries = 1_000_000;
    o.wait_time = 30;
    assert_eq!(o.to_string_flags(), "");
}

#[test]
fn too_few_arguments_are_refused() {
    assert_eq!(CopyOptions::parse(&args(&[])).unwrap_err(), "Not enough arguments");
    assert_eq!(CopyOptions::parse(&args(&["rbcp"])).unwrap_err(), "Not enough arguments");
    assert_eq!(CopyOptions::parse(&args(&["rbcp", "src"])).unwrap_err(), "Not enough arguments");
}

#[test]
fn missing_paths_are_refused() {
    assert_eq!(
        CopyOptions::parse(&args(&["rbcp", "src", "/S"])).unwrap_err(),
        "Missing source or destination"
    );
    assert_eq!(
        CopyOptions::parse(&args(&["rbcp", "/S", "/E", "/Z"])).unwrap_err(),
        "Missing source or destination"
    );
}

#[test]
fn source_destination_and_default_pattern() {
    let o = CopyOptions::parse(&args(&["rbcp", "from", "to"])).unwrap();
    assert_eq!(o.sources, vec!["from".to_string()]);
    assert_eq!(o.destination, "to");
    assert_eq!(o.patterns, vec!["*.*".to_string()]);
    assert_eq!(o.to_string_flags(), "");
}

#[test]
fn further_paths_are_patterns() {
    let o = CopyOptions::parse(&args(&["rbcp", "from", "/S", "to", "*.txt", "/Z", "*.md"])).unwrap();
    assert_eq!(o.sources, vec!["from".to_string()]);
    assert_eq!(o.destination, "to");
    assert_eq!(o.patterns, vec!["*.txt".to_string(), "*.md".to_string()]);
    assert!(o.recursive);
    assert!(o.restartable);
}

#[test]
fn switches_are_read_in_any_case() {
    let o = CopyOptions::parse(&args(&["rbcp", "a", "b", "/s", "/z", "/purge", "/Mov", "/np"])).unwrap();
    assert!(o.recursive);
    assert!(!o.include_empty);
    assert!(o.restartable);
    assert!(o.purge);
    assert!(o.move_files);
    assert!(!o.move_dirs);
    assert!(!o.show_progress);
}

#[test]
fn each_switch_sets_what_it_stands_for() {
    let o = CopyOptions::parse(&args(&["rbcp", "a", "b", "/E"])).unwrap();
    assert!(o.recursive && o.include_empty);
    let o = CopyOptions::parse(&args(&["rbcp", "a", "b", "/B"])).unwrap();
    assert!(o.backup_mode);
    let o = CopyOptions::parse(&args(&["rbcp", "a", "b", "/MIR"])).unwrap();
    assert!(o.purge && o.recursive && o.include_empty);
    assert!(!o.mirror);
    let o = CopyOptions::parse(&args(&["rbcp", "a", "b", "/MOVE"])).unwrap();
    assert!(o.move_files && o.move_dirs);
    let o = CopyOptions::parse(&args(&["rbcp", "a", "b", "/L", "/NFL", "/EMPTY", "/CHILDONLY", "/SHRED"]))
        .unwrap();
    assert!(o.list_only);
    assert!(!o.log_file_names);
    assert!(o.empty_files);
    assert!(o.child_only);
    assert!(o.shred_files);
}

#[test]
fn attribute_letters_are_kept_in_upper_case() {
    let o = CopyOptions::parse(&args(&["rbcp", "a", "b", "/a+:ra", "/A-:h"])).unwrap();
    assert_eq!(o.attributes_add, "RA");
    assert_eq!(o.attributes_remove, "H");
    let o = CopyOptions::parse(&args(&["rbcp", "a", "b", "/A+:"])).unwrap();
    assert_eq!(o.attributes_add, "");
}

#[test]
fn thread_count_and_its_shorthand() {
    let o = CopyOptions::parse(&args(&["rbcp", "a", "b", "/MT"])).unwrap();
    assert_eq!(o.threads, 8);
    let o = CopyOptions::parse(&args(&["rbcp", "a", "b", "/MT:4"])).unwrap();
    assert_eq!(o.threads, 4);
    let o = CopyOptions::parse(&args(&["rbcp", "a", "b", "/mt:32"])).unwrap();
    assert_eq!(o.threads, 32);
    let o = CopyOptions::parse(&args(&["rbcp", "a", "b", "/MT:"])).unwrap();
    assert_eq!(o.threads, 8);
    let o = CopyOptions::parse(&args(&["rbcp", "a", "b", "/MT:x"])).unwrap();
    assert_eq!(o.threads, 8);
    let o = CopyOptions::parse(&args(&["rbcp", "a", "b", "/MT4"])).unwrap();
    assert_eq!(o.threads, 8);
    let o = CopyOptions::parse(&args(&["rbcp", "a", "b", "/MT:0"])).unwrap();
    assert_eq!(o.threads, 0);
}

#[test]
fn retries_and_wait() {
    let o = CopyOptions::parse(&args(&["rbcp", "a", "b", "/R:3", "/W:10"])).unwrap();
    assert_eq!(o.retries, 3);
    assert_eq!(o.wait_time, 10);
    let o = CopyOptions::parse(&args(&["rbcp", "a", "b", "/R:", "/W:soon"])).unwrap();
    assert_eq!(o.retries, 1_000_000);
    assert_eq!(o.wait_time, 30);
    let o = CopyOptions::parse(&args(&["rbcp", "a", "b", "/R:-1", "/W:99999999999999999999999"])).unwrap();
    assert_eq!(o.retries, 1_000_000);
    assert_eq!(o.wait_time, 30);
    let o = CopyOptions::parse(&args(&["rbcp", "a", "b", "/r:+7", "/w:0"])).unwrap();
    assert_eq!(o.retries, 7);
    assert_eq!(o.wait_time, 0);
}

#[test]
fn log_file_keeps_its_case() {
    let o = CopyOptions::parse(&args(&["rbcp", "a", "b", "/log:Run Log.TXT"])).unwrap();
    assert_eq!(o.log_file, Some("Run Log.TXT".to_string()));
    let o = CopyOptions::parse(&args(&["rbcp", "a", "b", "/LOG:"])).unwrap();
    assert_eq!(o.log_file, Some(String::new()));
}

#[test]
fn unknown_switches_change_nothing() {
    let o = CopyOptions::parse(&args(&["rbcp", "a", "b", "/XYZ", "/", "/SS"])).unwrap();
    assert_eq!(o.to_string_flags(), "");
    assert_eq!(o.patterns, vec!["*.*".to_string()]);
    assert_eq!(o.log_file, None);
}

#[test]
fn the_last_of_two_settings_wins() {
    let o = CopyOptions::parse(&args(&["rbcp", "a", "b", "/R:1", "/R:2", "/MT:2", "/MT"])).unwrap();
    assert_eq!(o.retries, 2);
    assert_eq!(o.threads, 8);
}

#[test]
fn parsed_flags_are_spelt_again() {
    let o = CopyOptions::parse(&args(&["rbcp", "a", "b", "/mir", "/mt:4", "/r:2", "/w:1", "/shred"])).unwrap();
    assert_eq!(o.to_string_flags(), "/E /PURGE /MT:4 /R:2 /W:1 /SHRED");
}

#[test]
fn switches_are_recognised_in_upper_case_only() {
    assert_eq!(recognise("/S"), Some(Switch::Subdirectories));
    assert_eq!(recognise("/E"), Some(Switch::SubdirectoriesWithEmpty));
    assert_eq!(recognise("/Z"), Some(Switch::Restartable));
    assert_eq!(recognise("/B"), Some(Switch::Backup));
    assert_eq!(recognise("/PURGE"), Some(Switch::Purge));
    assert_eq!(recognise("/MIR"), Some(Switch::Mirror));
    assert_eq!(recognise("/MOV"), Some(Switch::MoveFiles));
    assert_eq!(recognise("/MOVE"), Some(Switch::MoveAll));
    assert_eq!(recognise("/L"), Some(Switch::ListOnly));
    assert_eq!(recognise("/NP"), Some(Switch::NoProgress));
    assert_eq!(recognise("/NFL"), Some(Switch::NoFileList));
    assert_eq!(recognise("/EMPTY"), Some(Switch::Placeholders));
    assert_eq!(recognise("/CHILDONLY"), Some(Switch::ChildrenOnly));
    assert_eq!(recognise("/SHRED"), Some(Switch::Shred));
    assert_eq!(recognise("/s"), None);
    assert_eq!(recognise("/MT"), None);
    assert_eq!(recognise(""), None);
}

#[test]
fn settings_are_recognised_by_their_beginning() {
    assert_eq!(recognise_setting("/A+:R"), Some(Setting::AttributesAdd));
    assert_eq!(recognise_setting("/A-:R"), Some(Setting::AttributesRemove));
    assert_eq!(recognise_setting("/MT"), Some(Setting::Threads));
    assert_eq!(recognise_setting("/MTX"), Some(Setting::Threads));
    assert_eq!(recognise_setting("/R:1"), Some(Setting::Retries));
    assert_eq!(recognise_setting("/W:1"), Some(Setting::Wait));
    assert_eq!(recognise_setting("/LOG:f"), Some(Setting::LogFile));
    assert_eq!(recognise_setting("/LOG"), None);
    assert_eq!(recognise_setting("/R"), None);
    assert_eq!(recognise_setting("R:1"), None);
}

#[test]
fn apply_flag_takes_the_upper_case_form_as_given() {
    let mut o = CopyOptions::default();
    o.apply_flag("/S", "/s");
    assert!(o.recursive);
    let mut o = CopyOptions::default();
    o.apply_flag("/s", "/s");
    assert!(!o.recursive);
    let mut o = CopyOptions::default();
    o.apply_flag("/LOG:X", "/log:x");
    assert_eq!(o.log_file, Some("x".to_string()));
    let mut o = CopyOptions::default();
    o.apply_flag("/LOG:X", "/lo");
    assert_eq!(o.log_file, Some(String::new()));
}

#[test]
fn switched_leaves_the_rest_alone() {
    let mut o = CopyOptions::default();
    o.destination = "d".to_string();
    o.threads = 3;
    let o = o.switched(Switch::Mirror);
    assert!(o.purge && o.recursive && o.include_empty);
    assert_eq!(o.destination, "d");
    assert_eq!(o.threads, 3);
    assert!(o.show_progress);
    let o = o.switched(Switch::NoProgress);
    assert!(!o.show_progress);
    assert!(o.purge && o.recursive && o.include_empty);
}
