//! The policy of one run.

use vstd::prelude::*;
use vstd::string::*;
use crate::text::{decimal, join, joined, push_decimal, views};

verus! {

/// Retry count that is in force when none is given.
pub const DEFAULT_RETRIES: usize = 1_000_000;

/// Seconds between two attempts when none are given.
pub const DEFAULT_WAIT_TIME: u64 = 30;

/// Worker count that the bare multithreading switch stands for.
pub const SHORTHAND_THREADS: usize = 8;

/// Number of places in the list of switches.
pub const FLAG_PLACES: usize = 19;

/// The policy of one run. It is read, never written, once a run has begun.
#[derive(Debug, Clone)]
pub struct CopyOptions {
    pub sources: Vec<String>,
    pub destination: String,
    pub patterns: Vec<String>,
    pub recursive: bool,
    pub include_empty: bool,
    pub restartable: bool,
    pub backup_mode: bool,
    pub purge: bool,
    pub mirror: bool,
    pub move_files: bool,
    pub move_dirs: bool,
    pub attributes_add: String,
    pub attributes_remove: String,
    pub threads: usize,
    pub retries: usize,
    pub wait_time: u64,
    pub log_file: Option<String>,
    pub list_only: bool,
    pub show_progress: bool,
    pub log_file_names: bool,
    pub empty_files: bool,
    pub child_only: bool,
    pub shred_files: bool,
    pub force_overwrite: bool,
    pub preserve_root: bool,
}

/// The policy of one run as plain values.
pub struct CopyOptionsView {
    pub sources: Seq<Seq<char>>,
    pub destination: Seq<char>,
    pub patterns: Seq<Seq<char>>,
    pub recursive: bool,
    pub include_empty: bool,
    pub restartable: bool,
    pub backup_mode: bool,
    pub purge: bool,
    pub mirror: bool,
    pub move_files: bool,
    pub move_dirs: bool,
    pub attributes_add: Seq<char>,
    pub attributes_remove: Seq<char>,
    pub threads: usize,
    pub retries: usize,
    pub wait_time: u64,
    pub log_file: Option<Seq<char>>,
    pub list_only: bool,
    pub show_progress: bool,
    pub log_file_names: bool,
    pub empty_files: bool,
    pub child_only: bool,
    pub shred_files: bool,
    pub force_overwrite: bool,
    pub preserve_root: bool,
}

impl View for CopyOptions {
    type V = CopyOptionsView;

    open spec fn view(&self) -> CopyOptionsView {
        CopyOptionsView {
            sources: views(self.sources@),
            destination: self.destination@,
            patterns: views(self.patterns@),
            recursive: self.recursive,
            include_empty: self.include_empty,
            restartable: self.restartable,
            backup_mode: self.backup_mode,
            purge: self.purge,
            mirror: self.mirror,
            move_files: self.move_files,
            move_dirs: self.move_dirs,
            attributes_add: self.attributes_add@,
            attributes_remove: self.attributes_remove@,
            threads: self.threads,
            retries: self.retries,
            wait_time: self.wait_time,
            log_file: match self.log_file {
                Some(f) => Some(f@),
                None => None,
            },
            list_only: self.list_only,
            show_progress: self.show_progress,
            log_file_names: self.log_file_names,
            empty_files: self.empty_files,
            child_only: self.child_only,
            shred_files: self.shred_files,
            force_overwrite: self.force_overwrite,
            preserve_root: self.preserve_root,
        }
    }
}

impl CopyOptionsView {
    /// The policy that is in force where nothing is asked for.
    pub open spec fn initial() -> CopyOptionsView {
        CopyOptionsView {
            sources: Seq::empty(),
            destination: Seq::empty(),
            patterns: Seq::empty(),
            recursive: false,
            include_empty: false,
            restartable: false,
            backup_mode: false,
            purge: false,
            mirror: false,
            move_files: false,
            move_dirs: false,
            attributes_add: Seq::empty(),
            attributes_remove: Seq::empty(),
            threads: 1,
            retries: DEFAULT_RETRIES,
            wait_time: DEFAULT_WAIT_TIME,
            log_file: None,
            list_only: false,
            show_progress: true,
            log_file_names: true,
            empty_files: false,
            child_only: false,
            shred_files: false,
            force_overwrite: false,
            preserve_root: false,
        }
    }
}

/// One token if `present`, none otherwise.
pub open spec fn token_if(present: bool, token: Seq<char>) -> Seq<Seq<char>> {
    if present {
        seq![token]
    } else {
        Seq::empty()
    }
}

impl CopyOptions {
    /// The run goes into the directories below a source: under recursion,
    /// and under mirror, which is purge with all subdirectories.
    pub open spec fn descends(&self) -> bool {
        self.recursive || self.mirror
    }

    /// Empty directories are copied too: where that is asked for, and
    /// under mirror.
    pub open spec fn keeps_empty(&self) -> bool {
        self.include_empty || self.mirror
    }

    /// Destination entries that the source lacks are to be deleted.
    pub open spec fn purges(&self) -> bool {
        (self.purge || self.mirror) && !self.list_only
    }

    /// The token, if any, that stands at place `k` of the switch list.
    pub open spec fn flag_token(&self, k: int) -> Seq<Seq<char>> {
        if k == 0 {
            token_if(self.recursive && self.include_empty, "/E"@)
        } else if k == 1 {
            token_if(self.recursive && !self.include_empty, "/S"@)
        } else if k == 2 {
            token_if(self.restartable, "/Z"@)
        } else if k == 3 {
            token_if(self.backup_mode, "/B"@)
        } else if k == 4 {
            token_if(self.mirror, "/MIR"@)
        } else if k == 5 {
            token_if(!self.mirror && self.purge, "/PURGE"@)
        } else if k == 6 {
            token_if(self.move_dirs, "/MOVE"@)
        } else if k == 7 {
            token_if(!self.move_dirs && self.move_files, "/MOV"@)
        } else if k == 8 {
            token_if(self.attributes_add@.len() > 0, "/A+:"@ + self.attributes_add@)
        } else if k == 9 {
            token_if(self.attributes_remove@.len() > 0, "/A-:"@ + self.attributes_remove@)
        } else if k == 10 {
            token_if(self.threads != 1, "/MT:"@ + decimal(self.threads as nat))
        } else if k == 11 {
            token_if(self.retries != DEFAULT_RETRIES, "/R:"@ + decimal(self.retries as nat))
        } else if k == 12 {
            token_if(self.wait_time != DEFAULT_WAIT_TIME, "/W:"@ + decimal(self.wait_time as nat))
        } else if k == 13 {
            token_if(self.list_only, "/L"@)
        } else if k == 14 {
            token_if(!self.show_progress, "/NP"@)
        } else if k == 15 {
            token_if(!self.log_file_names, "/NFL"@)
        } else if k == 16 {
            token_if(self.empty_files, "/EMPTY"@)
        } else if k == 17 {
            token_if(self.child_only, "/CHILDONLY"@)
        } else if k == 18 {
            token_if(self.shred_files, "/SHRED"@)
        } else {
            Seq::empty()
        }
    }

    /// The tokens of the first `k` places of the switch list.
    pub open spec fn flag_tokens_upto(&self, k: nat) -> Seq<Seq<char>>
        decreases k,
    {
        if k == 0 {
            Seq::empty()
        } else {
            self.flag_tokens_upto((k - 1) as nat) + self.flag_token(k - 1)
        }
    }

    /// The switches that differ from the defaults, in their fixed order.
    pub open spec fn flag_tokens(&self) -> Seq<Seq<char>> {
        self.flag_tokens_upto(FLAG_PLACES as nat)
    }

    /// Appends the token of place `k`, if the options call for one.
    fn push_flag(&self, tokens: &mut Vec<String>, k: usize)
        requires
            k < FLAG_PLACES,
            views(old(tokens)@) == self.flag_tokens_upto(k as nat),
        ensures
            views(final(tokens)@) == self.flag_tokens_upto((k + 1) as nat),
    {
        if k == 0 {
            push_if(tokens, self.recursive && self.include_empty, "/E", None);
        } else if k == 1 {
            push_if(tokens, self.recursive && !self.include_empty, "/S", None);
        } else if k == 2 {
            push_if(tokens, self.restartable, "/Z", None);
        } else if k == 3 {
            push_if(tokens, self.backup_mode, "/B", None);
        } else if k == 4 {
            push_if(tokens, self.mirror, "/MIR", None);
        } else if k == 5 {
            push_if(tokens, !self.mirror && self.purge, "/PURGE", None);
        } else if k == 6 {
            push_if(tokens, self.move_dirs, "/MOVE", None);
        } else if k == 7 {
            push_if(tokens, !self.move_dirs && self.move_files, "/MOV", None);
        } else if k == 8 {
            let present = !self.attributes_add.as_str().is_empty();
            push_if(tokens, present, "/A+:", Some(self.attributes_add.clone()));
        } else if k == 9 {
            let present = !self.attributes_remove.as_str().is_empty();
            push_if(tokens, present, "/A-:", Some(self.attributes_remove.clone()));
        } else if k == 10 {
            push_number_if(tokens, self.threads != 1, "/MT:", self.threads as u64);
        } else if k == 11 {
            push_number_if(tokens, self.retries != DEFAULT_RETRIES, "/R:", self.retries as u64);
        } else if k == 12 {
            push_number_if(tokens, self.wait_time != DEFAULT_WAIT_TIME, "/W:", self.wait_time);
        } else if k == 13 {
            push_if(tokens, self.list_only, "/L", None);
        } else if k == 14 {
            push_if(tokens, !self.show_progress, "/NP", None);
        } else if k == 15 {
            push_if(tokens, !self.log_file_names, "/NFL", None);
        } else if k == 16 {
            push_if(tokens, self.empty_files, "/EMPTY", None);
        } else if k == 17 {
            push_if(tokens, self.child_only, "/CHILDONLY", None);
        } else {
            push_if(tokens, self.shred_files, "/SHRED", None);
        }
    }

    /// The switches in force, as the command line would spell them.
    pub fn to_string_flags(&self) -> (s: String)
        ensures
            s@ == joined(self.flag_tokens(), " "@),
    {
        let mut result: Vec<String> = Vec::new();
        assert(views(result@) =~= self.flag_tokens_upto(0));
        let mut k: usize = 0;
        while k < FLAG_PLACES
            invariant
                k <= FLAG_PLACES,
                views(result@) == self.flag_tokens_upto(k as nat),
            decreases FLAG_PLACES - k,
        {
            self.push_flag(&mut result, k);
            k += 1;
        }
        join(&result, " ")
    }
}

/// The text of an optional tail; empty where there is none.
pub open spec fn tail_text(tail: Option<String>) -> Seq<char> {
    match tail {
        Some(t) => t@,
        None => Seq::empty(),
    }
}

/// Appends `head` followed by `tail` to `tokens` if `present`.
fn push_if(tokens: &mut Vec<String>, present: bool, head: &str, tail: Option<String>)
    ensures
        views(final(tokens)@) == views(old(tokens)@) + token_if(present, head@ + tail_text(tail)),
        tail is None ==> head@ + tail_text(tail) == head@,
{
    if present {
        let mut token = String::from_str(head);
        match tail {
            Some(t) => {
                token.append(t.as_str());
            },
            None => {
                assert(head@ + Seq::<char>::empty() =~= head@);
            },
        }
        tokens.push(token);
        assert(views(tokens@) =~= views(old(tokens)@) + seq![head@ + tail_text(tail)]);
    } else {
        assert(views(tokens@) =~= views(old(tokens)@) + Seq::<Seq<char>>::empty());
    }
}

/// Appends `head` followed by the decimal notation of `n` to `tokens` if
/// `present`.
fn push_number_if(tokens: &mut Vec<String>, present: bool, head: &str, n: u64)
    ensures
        views(final(tokens)@) == views(old(tokens)@) + token_if(
            present,
            head@ + decimal(n as nat),
        ),
{
    if present {
        let mut token = String::from_str(head);
        push_decimal(&mut token, n);
        tokens.push(token);
        assert(views(tokens@) =~= views(old(tokens)@) + seq![head@ + decimal(n as nat)]);
    } else {
        assert(views(tokens@) =~= views(old(tokens)@) + Seq::<Seq<char>>::empty());
    }
}

impl Default for CopyOptions {
    /// Every switch off, no paths, one worker, the default retry policy,
    /// progress and file names shown.
    fn default() -> (o: Self)
        ensures
            o@ == CopyOptionsView::initial(),
    {
        let o = CopyOptions {
            sources: Vec::new(),
            destination: String::new(),
            patterns: Vec::new(),
            recursive: false,
            include_empty: false,
            restartable: false,
            backup_mode: false,
            purge: false,
            mirror: false,
            move_files: false,
            move_dirs: false,
            attributes_add: String::new(),
            attributes_remove: String::new(),
            threads: 1,
            retries: DEFAULT_RETRIES,
            wait_time: DEFAULT_WAIT_TIME,
            log_file: None,
            list_only: false,
            show_progress: true,
            log_file_names: true,
            empty_files: false,
            child_only: false,
            shred_files: false,
            force_overwrite: false,
            preserve_root: false,
        };
        assert(o@ =~= CopyOptionsView::initial()) by {
            assert(views(o.sources@) =~= Seq::<Seq<char>>::empty());
            assert(views(o.patterns@) =~= Seq::<Seq<char>>::empty());
        }
        o
    }
}

} // verus!
