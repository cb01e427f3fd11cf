//! The command line: switches, settings, paths and patterns.

use vstd::prelude::*;
use vstd::string::*;
use crate::args::{
    CopyOptions, CopyOptionsView, DEFAULT_RETRIES, DEFAULT_WAIT_TIME, SHORTHAND_THREADS,
};
use crate::text::{chars_of, has_prefix, parse_unsigned, range_is_prefix, unsigned_value, views};

verus! {

/// The upper-case form of a text, as `str::to_uppercase` gives it.
pub uninterp spec fn uppercase(s: Seq<char>) -> Seq<char>;

/// Calls `str::to_uppercase`, which maps each character to its upper-case
/// form by the tables of Unicode, whatever the locale.
#[verifier::external_body]
fn to_upper(s: &str) -> (r: String)
    ensures
        r@ == uppercase(s@),
{
    s.to_uppercase()
}

/// The worker count that a multithreading switch asks for: the number
/// behind `/MT:`, or the shorthand's where none is given or readable.
pub open spec fn threads_of(upper: Seq<char>) -> usize {
    if upper.len() > 4 && upper[3] == ':' {
        match unsigned_value(upper.skip(4), usize::MAX as nat) {
            Some(n) => n as usize,
            None => SHORTHAND_THREADS,
        }
    } else {
        SHORTHAND_THREADS
    }
}

/// A switch that stands for itself, with nothing behind it.
#[derive(Debug, Clone, Copy, PartialEq, Eq, Structural)]
pub enum Switch {
    Subdirectories,
    SubdirectoriesWithEmpty,
    Restartable,
    Backup,
    Purge,
    Mirror,
    MoveFiles,
    MoveAll,
    ListOnly,
    NoProgress,
    NoFileList,
    Placeholders,
    ChildrenOnly,
    Shred,
}

/// The switch that a text in upper case spells, if it spells one.
pub open spec fn switch_of(upper: Seq<char>) -> Option<Switch> {
    if upper == "/S"@ {
        Some(Switch::Subdirectories)
    } else if upper == "/E"@ {
        Some(Switch::SubdirectoriesWithEmpty)
    } else if upper == "/Z"@ {
        Some(Switch::Restartable)
    } else if upper == "/B"@ {
        Some(Switch::Backup)
    } else if upper == "/PURGE"@ {
        Some(Switch::Purge)
    } else if upper == "/MIR"@ {
        Some(Switch::Mirror)
    } else if upper == "/MOV"@ {
        Some(Switch::MoveFiles)
    } else if upper == "/MOVE"@ {
        Some(Switch::MoveAll)
    } else if upper == "/L"@ {
        Some(Switch::ListOnly)
    } else if upper == "/NP"@ {
        Some(Switch::NoProgress)
    } else if upper == "/NFL"@ {
        Some(Switch::NoFileList)
    } else if upper == "/EMPTY"@ {
        Some(Switch::Placeholders)
    } else if upper == "/CHILDONLY"@ {
        Some(Switch::ChildrenOnly)
    } else if upper == "/SHRED"@ {
        Some(Switch::Shred)
    } else {
        None
    }
}

/// The policy after a switch. Mirroring is purging with all
/// subdirectories; moving all is moving files and removing the emptied
/// directories.
pub open spec fn with_switch(v: CopyOptionsView, switch: Switch) -> CopyOptionsView {
    CopyOptionsView {
        recursive: v.recursive || switch is Subdirectories || switch is SubdirectoriesWithEmpty
            || switch is Mirror,
        include_empty: v.include_empty || switch is SubdirectoriesWithEmpty || switch is Mirror,
        restartable: v.restartable || switch is Restartable,
        backup_mode: v.backup_mode || switch is Backup,
        purge: v.purge || switch is Purge || switch is Mirror,
        move_files: v.move_files || switch is MoveFiles || switch is MoveAll,
        move_dirs: v.move_dirs || switch is MoveAll,
        list_only: v.list_only || switch is ListOnly,
        show_progress: v.show_progress && !(switch is NoProgress),
        log_file_names: v.log_file_names && !(switch is NoFileList),
        empty_files: v.empty_files || switch is Placeholders,
        child_only: v.child_only || switch is ChildrenOnly,
        shred_files: v.shred_files || switch is Shred,
        ..v
    }
}

/// A switch that carries a value.
#[derive(Debug, Clone, Copy, PartialEq, Eq, Structural)]
pub enum Setting {
    AttributesAdd,
    AttributesRemove,
    Threads,
    Retries,
    Wait,
    LogFile,
}

/// The setting that a text in upper case begins, if it begins one.
pub open spec fn setting_of(upper: Seq<char>) -> Option<Setting> {
    if has_prefix(upper, "/A+:"@) {
        Some(Setting::AttributesAdd)
    } else if has_prefix(upper, "/A-:"@) {
        Some(Setting::AttributesRemove)
    } else if has_prefix(upper, "/MT"@) {
        Some(Setting::Threads)
    } else if has_prefix(upper, "/R:"@) {
        Some(Setting::Retries)
    } else if has_prefix(upper, "/W:"@) {
        Some(Setting::Wait)
    } else if has_prefix(upper, "/LOG:"@) {
        Some(Setting::LogFile)
    } else {
        None
    }
}

/// The number behind the first `skip` characters of `upper`, or
/// `fallback` where none is readable or it exceeds `max`.
pub open spec fn number_behind(upper: Seq<char>, skip: int, max: nat, fallback: nat) -> nat {
    if skip > upper.len() {
        fallback
    } else {
        match unsigned_value(upper.skip(skip), max) {
            Some(n) => n,
            None => fallback,
        }
    }
}

/// The text behind the first `skip` characters of `s`; empty where `s` is
/// shorter.
pub open spec fn text_behind(s: Seq<char>, skip: int) -> Seq<char> {
    if s.len() >= skip {
        s.skip(skip)
    } else {
        Seq::empty()
    }
}

/// The policy after a switch that carries a value: attribute letters, a
/// number or a path. The letters and the numbers are read from the
/// upper-case form, the path of the log file from the argument as given. A
/// text that begins no setting changes nothing.
pub open spec fn with_setting(
    v: CopyOptionsView,
    upper: Seq<char>,
    original: Seq<char>,
) -> CopyOptionsView {
    let setting = setting_of(upper);
    CopyOptionsView {
        attributes_add: if setting == Some(Setting::AttributesAdd) {
            text_behind(upper, 4)
        } else {
            v.attributes_add
        },
        attributes_remove: if setting == Some(Setting::AttributesRemove) {
            text_behind(upper, 4)
        } else {
            v.attributes_remove
        },
        threads: if setting == Some(Setting::Threads) {
            threads_of(upper)
        } else {
            v.threads
        },
        retries: if setting == Some(Setting::Retries) {
            number_behind(upper, 3, usize::MAX as nat, DEFAULT_RETRIES as nat) as usize
        } else {
            v.retries
        },
        wait_time: if setting == Some(Setting::Wait) {
            number_behind(upper, 3, u64::MAX as nat, DEFAULT_WAIT_TIME as nat) as u64
        } else {
            v.wait_time
        },
        log_file: if setting == Some(Setting::LogFile) {
            Some(text_behind(original, 5))
        } else {
            v.log_file
        },
        ..v
    }
}

/// The policy after one argument that begins with a slash. `upper` is the
/// argument in upper case, `original` as it was given.
pub open spec fn with_flag(
    v: CopyOptionsView,
    upper: Seq<char>,
    original: Seq<char>,
) -> CopyOptionsView {
    match switch_of(upper) {
        Some(switch) => with_switch(v, switch),
        None => with_setting(v, upper, original),
    }
}

/// What the arguments read so far amount to.
pub struct Parsed {
    pub options: CopyOptionsView,
    pub positional: Seq<Seq<char>>,
}

/// An argument that begins with a slash is a switch; any other is a path
/// or a pattern.
pub open spec fn take_arg(p: Parsed, arg: Seq<char>) -> Parsed {
    if arg.len() > 0 && arg[0] == '/' {
        Parsed { options: with_flag(p.options, uppercase(arg), arg), ..p }
    } else {
        Parsed { positional: p.positional.push(arg), ..p }
    }
}

/// What the arguments amount to, read from left to right.
pub open spec fn take_args(args: Seq<Seq<char>>) -> Parsed
    decreases args.len(),
{
    if args.len() == 0 {
        Parsed { options: CopyOptionsView::initial(), positional: Seq::empty() }
    } else {
        take_arg(take_args(args.drop_last()), args.last())
    }
}

/// The policy that a command line asks for. The first argument is the
/// program's name. The first two that are no switches name the source and
/// the destination, the others are patterns; where there is none, `*.*`
/// stands in.
pub open spec fn parse_spec(args: Seq<Seq<char>>) -> Result<CopyOptionsView, Seq<char>> {
    if args.len() < 3 {
        Err("Not enough arguments"@)
    } else {
        let p = take_args(args.skip(1));
        if p.positional.len() < 2 {
            Err("Missing source or destination"@)
        } else {
            Ok(
                CopyOptionsView {
                    sources: seq![p.positional[0]],
                    destination: p.positional[1],
                    patterns: if p.positional.len() > 2 {
                        p.positional.skip(2)
                    } else {
                        seq!["*.*"@]
                    },
                    ..p.options
                },
            )
        }
    }
}

fn is_text(chars: &Vec<char>, text: &str) -> (r: bool)
    ensures
        r == (chars@ == text@),
{
    let t = chars_of(text);
    if t.len() != chars.len() {
        return false;
    }
    let r = range_is_prefix(chars, &t, 0, t.len());
    proof {
        assert(t@.subrange(0, t@.len() as int) =~= t@);
        assert(chars@.subrange(0, chars@.len() as int) =~= chars@);
    }
    r
}

fn begins_with(chars: &Vec<char>, text: &str) -> (r: bool)
    ensures
        r == has_prefix(chars@, text@),
{
    let t = chars_of(text);
    let r = range_is_prefix(chars, &t, 0, t.len());
    proof {
        assert(t@.subrange(0, t@.len() as int) =~= t@);
    }
    r
}

/// The setting that a text in upper case begins, if it begins one.
pub fn recognise_setting(upper: &str) -> (r: Option<Setting>)
    ensures
        r == setting_of(upper@),
{
    let u = chars_of(upper);
    if begins_with(&u, "/A+:") {
        Some(Setting::AttributesAdd)
    } else if begins_with(&u, "/A-:") {
        Some(Setting::AttributesRemove)
    } else if begins_with(&u, "/MT") {
        Some(Setting::Threads)
    } else if begins_with(&u, "/R:") {
        Some(Setting::Retries)
    } else if begins_with(&u, "/W:") {
        Some(Setting::Wait)
    } else if begins_with(&u, "/LOG:") {
        Some(Setting::LogFile)
    } else {
        None
    }
}

/// The number behind the first `skip` characters of `upper`, or
/// `fallback` where none is readable or it exceeds `max`.
fn number_from(upper: &str, skip: usize, max: u64, fallback: u64) -> (r: u64)
    requires
        fallback <= max,
    ensures
        r == number_behind(upper@, skip as int, max as nat, fallback as nat),
        r <= max,
{
    let u = chars_of(upper);
    if skip > u.len() {
        return fallback;
    }
    match parse_unsigned(&u, skip, max) {
        Some(n) => n,
        None => fallback,
    }
}

/// The worker count that a multithreading switch asks for.
fn threads_from(upper: &str) -> (r: usize)
    ensures
        r == threads_of(upper@),
{
    let u = chars_of(upper);
    if u.len() > 4 && u[3] == ':' {
        match parse_unsigned(&u, 4, usize::MAX as u64) {
            Some(n) => n as usize,
            None => SHORTHAND_THREADS,
        }
    } else {
        SHORTHAND_THREADS
    }
}

/// The text behind the first `n` characters of `s`; empty where `s` is
/// shorter.
fn tail_from(s: &str, n: usize) -> (r: String)
    ensures
        r@ == text_behind(s@, n as int),
{
    let len = s.unicode_len();
    if len >= n {
        let tail = s.substring_char(n, len);
        assert(s@.subrange(n as int, len as int) =~= s@.skip(n as int));
        String::from_str(tail)
    } else {
        String::new()
    }
}

/// The switch that a text in upper case spells, if it spells one.
pub fn recognise(upper: &str) -> (r: Option<Switch>)
    ensures
        r == switch_of(upper@),
{
    let u = chars_of(upper);
    if is_text(&u, "/S") {
        Some(Switch::Subdirectories)
    } else if is_text(&u, "/E") {
        Some(Switch::SubdirectoriesWithEmpty)
    } else if is_text(&u, "/Z") {
        Some(Switch::Restartable)
    } else if is_text(&u, "/B") {
        Some(Switch::Backup)
    } else if is_text(&u, "/PURGE") {
        Some(Switch::Purge)
    } else if is_text(&u, "/MIR") {
        Some(Switch::Mirror)
    } else if is_text(&u, "/MOV") {
        Some(Switch::MoveFiles)
    } else if is_text(&u, "/MOVE") {
        Some(Switch::MoveAll)
    } else if is_text(&u, "/L") {
        Some(Switch::ListOnly)
    } else if is_text(&u, "/NP") {
        Some(Switch::NoProgress)
    } else if is_text(&u, "/NFL") {
        Some(Switch::NoFileList)
    } else if is_text(&u, "/EMPTY") {
        Some(Switch::Placeholders)
    } else if is_text(&u, "/CHILDONLY") {
        Some(Switch::ChildrenOnly)
    } else if is_text(&u, "/SHRED") {
        Some(Switch::Shred)
    } else {
        None
    }
}

impl CopyOptions {
    /// The options with one more switch that stands for itself.
    pub fn switched(self, switch: Switch) -> (r: Self)
        ensures
            r@ == with_switch(self@, switch),
    {
        let mirror = switch == Switch::Mirror;
        let with_empty = switch == Switch::SubdirectoriesWithEmpty;
        let move_all = switch == Switch::MoveAll;
        CopyOptions {
            recursive: self.recursive || switch == Switch::Subdirectories || with_empty || mirror,
            include_empty: self.include_empty || with_empty || mirror,
            restartable: self.restartable || switch == Switch::Restartable,
            backup_mode: self.backup_mode || switch == Switch::Backup,
            purge: self.purge || switch == Switch::Purge || mirror,
            move_files: self.move_files || switch == Switch::MoveFiles || move_all,
            move_dirs: self.move_dirs || move_all,
            list_only: self.list_only || switch == Switch::ListOnly,
            show_progress: self.show_progress && switch != Switch::NoProgress,
            log_file_names: self.log_file_names && switch != Switch::NoFileList,
            empty_files: self.empty_files || switch == Switch::Placeholders,
            child_only: self.child_only || switch == Switch::ChildrenOnly,
            shred_files: self.shred_files || switch == Switch::Shred,
            ..self
        }
    }

    /// Applies a switch that stands for itself.
    pub fn apply_switch(&mut self, switch: Switch)
        ensures
            final(self)@ == with_switch(old(self)@, switch),
    {
        let mut current = CopyOptions::default();
        std::mem::swap(self, &mut current);
        *self = current.switched(switch);
    }

    /// Applies a switch that carries a value, if `upper` begins one.
    pub fn apply_setting(&mut self, upper: &str, original: &str)
        ensures
            final(self)@ == with_setting(old(self)@, upper@, original@),
    {
        let setting = recognise_setting(upper);
        if setting == Some(Setting::AttributesAdd) {
            self.attributes_add = tail_from(upper, 4);
        }
        if setting == Some(Setting::AttributesRemove) {
            self.attributes_remove = tail_from(upper, 4);
        }
        if setting == Some(Setting::Threads) {
            self.threads = threads_from(upper);
        }
        if setting == Some(Setting::Retries) {
            let retries = number_from(upper, 3, usize::MAX as u64, DEFAULT_RETRIES as u64);
            self.retries = retries as usize;
        }
        if setting == Some(Setting::Wait) {
            self.wait_time = number_from(upper, 3, u64::MAX, DEFAULT_WAIT_TIME);
        }
        if setting == Some(Setting::LogFile) {
            self.log_file = Some(tail_from(original, 5));
        }
    }

    /// Applies one argument that begins with a slash. `upper` is the
    /// argument in upper case, `original` as it was given.
    pub fn apply_flag(&mut self, upper: &str, original: &str)
        ensures
            final(self)@ == with_flag(old(self)@, upper@, original@),
    {
        match recognise(upper) {
            Some(switch) => self.apply_switch(switch),
            None => self.apply_setting(upper, original),
        }
    }

    /// Reads the policy from a command line: see [`parse_spec`].
    pub fn parse(args: &Vec<String>) -> (r: Result<CopyOptions, String>)
        ensures
            match parse_spec(views(args@)) {
                Ok(v) => r matches Ok(o) && o@ == v,
                Err(msg) => r matches Err(e) && e@ == msg,
            },
    {
        if args.len() < 3 {
            return Err(String::from_str("Not enough arguments"));
        }
        let ghost all = views(args@);
        let mut options = CopyOptions::default();
        let mut positional: Vec<String> = Vec::new();
        assert(all.skip(1).take(0) =~= Seq::<Seq<char>>::empty());
        assert(views(positional@) =~= Seq::<Seq<char>>::empty());
        assert(options@ =~= CopyOptionsView::initial()) by {
            assert(views(options.sources@) =~= Seq::<Seq<char>>::empty());
            assert(views(options.patterns@) =~= Seq::<Seq<char>>::empty());
            assert(options.destination@ =~= Seq::<char>::empty());
            assert(options.attributes_add@ =~= Seq::<char>::empty());
            assert(options.attributes_remove@ =~= Seq::<char>::empty());
        }
        let mut i: usize = 1;
        while i < args.len()
            invariant
                1 <= i <= args.len(),
                all == views(args@),
                options@ == take_args(all.skip(1).take(i - 1)).options,
                views(positional@) == take_args(all.skip(1).take(i - 1)).positional,
            decreases args.len() - i,
        {
            let arg = args[i].as_str();
            proof {
                let upto = all.skip(1).take(i as int);
                assert(upto.drop_last() =~= all.skip(1).take(i - 1));
                assert(upto.last() == arg@);
            }
            let chars = chars_of(arg);
            if chars.len() > 0 && chars[0] == '/' {
                let upper = to_upper(arg);
                options.apply_flag(upper.as_str(), arg);
            } else {
                positional.push(args[i].clone());
                assert(views(positional@) =~= take_args(all.skip(1).take(i - 1)).positional.push(
                    arg@,
                ));
            }
            i += 1;
        }
        assert(all.skip(1).take(args.len() - 1) =~= all.skip(1));
        if positional.len() < 2 {
            return Err(String::from_str("Missing source or destination"));
        }
        let mut sources: Vec<String> = Vec::new();
        sources.push(positional[0].clone());
        options.sources = sources;
        options.destination = positional[1].clone();
        let mut patterns: Vec<String> = Vec::new();
        if positional.len() > 2 {
            let mut k: usize = 2;
            while k < positional.len()
                invariant
                    2 <= k <= positional.len(),
                    patterns.len() == k - 2,
                    forall|j: int| 0 <= j < k - 2 ==> patterns@[j]@ == positional@[j + 2]@,
                decreases positional.len() - k,
            {
                patterns.push(positional[k].clone());
                k += 1;
            }
            assert(views(patterns@) =~= views(positional@).skip(2));
        } else {
            patterns.push(String::from_str("*.*"));
            assert(views(patterns@) =~= seq!["*.*"@]);
        }
        options.patterns = patterns;
        assert(views(options.sources@) =~= seq![views(positional@)[0]]);
        Ok(options)
    }
}

} // verus!
