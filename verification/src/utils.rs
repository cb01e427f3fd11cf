//! File-name patterns and the clock text of log headers.

use vstd::prelude::*;
use vstd::string::*;
use crate::text::{
    chars_of, has_infix, has_prefix, has_suffix, push_two_digits, range_is_infix, range_is_prefix,
    range_is_suffix, same_text, two_digits, views,
};

verus! {

/// Neither `/` nor `\` occurs in `s`.
pub open spec fn separator_free(s: Seq<char>) -> bool {
    forall|i: int| 0 <= i < s.len() ==> s[i] != '/' && s[i] != '\\'
}

/// None of `*`, `?` and `[` occurs in `s`: as a pattern it holds no
/// wildcard and no character class.
pub open spec fn wildcard_free(s: Seq<char>) -> bool {
    forall|i: int| 0 <= i < s.len() ==> s[i] != '*' && s[i] != '?' && s[i] != '['
}

/// What the glob matcher says of `name` under `pattern`: `None` where the
/// pattern is no valid glob, else whether the whole name matches it.
pub uninterp spec fn glob_verdict(pattern: Seq<char>, name: Seq<char>) -> Option<bool>;

/// The wildcard-at-the-edges reading of a pattern: `*` and `*.*` match
/// everything, `*x*` matches names that contain `x`, `*x` names that end in
/// `x`, `x*` names that begin with `x`, anything else only itself.
pub open spec fn fallback_matches(name: Seq<char>, pattern: Seq<char>) -> bool {
    if pattern == seq!['*'] || pattern == seq!['*', '.', '*'] {
        true
    } else if pattern.len() > 0 && pattern[0] == '*' {
        if pattern.last() == '*' {
            has_infix(name, pattern.subrange(1, pattern.len() - 1))
        } else {
            has_suffix(name, pattern.subrange(1, pattern.len() as int))
        }
    } else if pattern.len() > 0 && pattern.last() == '*' {
        has_prefix(name, pattern.subrange(0, pattern.len() - 1))
    } else {
        name == pattern
    }
}

/// A name matches a pattern if the glob matcher accepts it or the
/// wildcard-at-the-edges reading does.
pub open spec fn pattern_matches(name: Seq<char>, pattern: Seq<char>) -> bool {
    glob_verdict(pattern, name) == Some(true) || fallback_matches(name, pattern)
}

/// The verdict for one pattern, from what the glob matcher said.
pub open spec fn verdict_matches(glob: Option<bool>, name: Seq<char>, pattern: Seq<char>) -> bool {
    glob == Some(true) || fallback_matches(name, pattern)
}

/// Compiles `pattern` with `glob::Pattern::new` and, where that succeeds,
/// asks `glob::Pattern::matches` about `name`; a pattern that does not
/// compile gives `None`. The crate treats path separators by the rules of
/// the target it is built for, so the result is tied to `glob_verdict`
/// only for texts that hold no separator. A pattern in which none of `*`,
/// `?` and `[` occurs always compiles, to one literal token for each of its
/// characters, and such tokens are compared character by character: it
/// matches the text that equals it and no other.
#[verifier::external_body]
fn glob_match(pattern: &str, name: &str) -> (r: Option<bool>)
    ensures
        separator_free(pattern@) && separator_free(name@) ==> r == glob_verdict(pattern@, name@),
        separator_free(pattern@) && separator_free(name@) && wildcard_free(pattern@) ==> r
            == Some(name@ == pattern@),
{
    match glob::Pattern::new(pattern) {
        Ok(compiled) => Some(compiled.matches(name)),
        Err(_) => None,
    }
}

/// The wildcard-at-the-edges match of `entry_name` against `pattern`.
pub fn fallback_match(entry_name: &str, pattern: &str) -> (r: bool)
    ensures
        r == fallback_matches(entry_name@, pattern@),
{
    let name = chars_of(entry_name);
    let pat = chars_of(pattern);
    let n = pat.len();
    if n == 1 && pat[0] == '*' {
        assert(pat@ =~= seq!['*']);
        return true;
    }
    if n == 3 && pat[0] == '*' && pat[1] == '.' && pat[2] == '*' {
        assert(pat@ =~= seq!['*', '.', '*']);
        return true;
    }
    proof {
        if pat@ == seq!['*'] {
            assert(pat@.len() == 1 && pat@[0] == '*');
        }
        if pat@ == seq!['*', '.', '*'] {
            assert(pat@.len() == 3 && pat@[0] == '*' && pat@[1] == '.' && pat@[2] == '*');
        }
    }
    if n > 0 && pat[0] == '*' {
        if pat[n - 1] == '*' {
            range_is_infix(&name, &pat, 1, n - 1)
        } else {
            range_is_suffix(&name, &pat, 1, n)
        }
    } else if n > 0 && pat[n - 1] == '*' {
        range_is_prefix(&name, &pat, 0, n - 1)
    } else {
        same_text(entry_name, pattern)
    }
}

/// The verdict for one pattern, given what the glob matcher said of it.
pub fn match_with_verdict(glob: Option<bool>, entry_name: &str, pattern: &str) -> (r: bool)
    ensures
        r == verdict_matches(glob, entry_name@, pattern@),
{
    match glob {
        Some(true) => true,
        _ => fallback_match(entry_name, pattern),
    }
}

/// A pattern without wildcard or character class, read by its edges, matches
/// the name that equals it and no other.
pub proof fn lemma_plain_pattern_by_edges(name: Seq<char>, pattern: Seq<char>)
    requires
        wildcard_free(pattern),
    ensures
        fallback_matches(name, pattern) == (name == pattern),
{
    if pattern.len() > 0 {
        assert(pattern[0] != '*');
        assert(pattern.last() != '*');
    }
    if pattern == seq!['*'] {
        assert(pattern[0] == '*');
    }
    if pattern == seq!['*', '.', '*'] {
        assert(pattern[0] == '*');
    }
}

/// Whether `entry_name` matches `pattern`. A pattern without wildcard or
/// character class matches the name that equals it and no other.
pub fn matches_pattern(entry_name: &str, pattern: &str) -> (r: bool)
    ensures
        fallback_matches(entry_name@, pattern@) ==> r,
        separator_free(entry_name@) && separator_free(pattern@) ==> r == pattern_matches(
            entry_name@,
            pattern@,
        ),
        separator_free(entry_name@) && separator_free(pattern@) && wildcard_free(pattern@) ==> r
            == (entry_name@ == pattern@),
{
    let glob = glob_match(pattern, entry_name);
    proof {
        if wildcard_free(pattern@) {
            lemma_plain_pattern_by_edges(entry_name@, pattern@);
        }
    }
    match_with_verdict(glob, entry_name, pattern)
}

/// A file is selected if it matches one of the patterns; with no pattern
/// configured every file is selected.
pub open spec fn selected_by(name: Seq<char>, patterns: Seq<Seq<char>>) -> bool {
    patterns.len() == 0 || exists|i: int|
        0 <= i < patterns.len() && #[trigger] pattern_matches(name, patterns[i])
}

/// Some pattern selects the name by its wildcard-at-the-edges reading alone.
pub open spec fn selected_by_fallback(name: Seq<char>, patterns: Seq<Seq<char>>) -> bool {
    patterns.len() == 0 || exists|i: int|
        0 <= i < patterns.len() && #[trigger] fallback_matches(name, patterns[i])
}

/// No separator occurs in any of the texts.
pub open spec fn all_separator_free(texts: Seq<Seq<char>>) -> bool {
    forall|i: int| 0 <= i < texts.len() ==> separator_free(#[trigger] texts[i])
}

/// Whether `entry_name` is selected by the configured patterns.
pub fn matches_any(entry_name: &str, patterns: &Vec<String>) -> (r: bool)
    ensures
        selected_by_fallback(entry_name@, views(patterns@)) ==> r,
        separator_free(entry_name@) && all_separator_free(views(patterns@)) ==> r == selected_by(
            entry_name@,
            views(patterns@),
        ),
{
    if patterns.len() == 0 {
        return true;
    }
    let ghost pats = views(patterns@);
    let mut i: usize = 0;
    while i < patterns.len()
        invariant
            i <= patterns.len(),
            patterns.len() > 0,
            pats == views(patterns@),
            forall|j: int| 0 <= j < i ==> !fallback_matches(entry_name@, #[trigger] pats[j]),
            separator_free(entry_name@) && all_separator_free(pats) ==> forall|j: int|
                0 <= j < i ==> !pattern_matches(entry_name@, #[trigger] pats[j]),
        decreases patterns.len() - i,
    {
        assert(pats[i as int] == patterns@[i as int]@);
        if matches_pattern(entry_name, patterns[i].as_str()) {
            proof {
                if separator_free(entry_name@) && all_separator_free(pats) {
                    assert(separator_free(pats[i as int]));
                    assert(pattern_matches(entry_name@, pats[i as int]));
                }
            }
            return true;
        }
        proof {
            if separator_free(entry_name@) && all_separator_free(pats) {
                assert(separator_free(pats[i as int]));
            }
        }
        i += 1;
    }
    false
}

/// `HH:MM:SS` of the day that holds the given second.
pub open spec fn clock_text(epoch_secs: nat) -> Seq<char> {
    two_digits((epoch_secs / 3600) % 24) + ":"@ + two_digits((epoch_secs % 3600) / 60) + ":"@
        + two_digits((epoch_secs % 3600) % 60)
}

/// The time of day, in UTC, of a moment given in seconds since the epoch.
pub fn format_time(epoch_secs: u64) -> (s: String)
    ensures
        s@ == clock_text(epoch_secs as nat),
{
    let hour = epoch_secs / 3600;
    let remainder = epoch_secs % 3600;
    let min = remainder / 60;
    let sec = remainder % 60;
    let mut s = String::new();
    push_two_digits(&mut s, hour % 24);
    s.append(":");
    push_two_digits(&mut s, min);
    s.append(":");
    push_two_digits(&mut s, sec);
    s
}

} // verus!
