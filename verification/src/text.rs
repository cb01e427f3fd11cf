//! Text building blocks: decimal numbers, joining, prefixes and suffixes.

use vstd::prelude::*;
use vstd::std_specs::iter::IteratorSpec;
use vstd::string::*;

verus! {

/// The text of one decimal digit; empty for anything above nine.
pub open spec fn digit_text(d: nat) -> Seq<char> {
    if d == 0 {
        "0"@
    } else if d == 1 {
        "1"@
    } else if d == 2 {
        "2"@
    } else if d == 3 {
        "3"@
    } else if d == 4 {
        "4"@
    } else if d == 5 {
        "5"@
    } else if d == 6 {
        "6"@
    } else if d == 7 {
        "7"@
    } else if d == 8 {
        "8"@
    } else if d == 9 {
        "9"@
    } else {
        Seq::empty()
    }
}

/// Decimal notation of `n`, without sign or leading zeros.
pub open spec fn decimal(n: nat) -> Seq<char>
    decreases n,
{
    if n < 10 {
        digit_text(n)
    } else {
        decimal(n / 10) + digit_text(n % 10)
    }
}

/// `n` in exactly two decimal digits; meant for `n < 100`.
pub open spec fn two_digits(n: nat) -> Seq<char> {
    digit_text(n / 10) + digit_text(n % 10)
}

/// The parts in order, with `sep` between neighbours.
pub open spec fn joined(parts: Seq<Seq<char>>, sep: Seq<char>) -> Seq<char>
    decreases parts.len(),
{
    if parts.len() == 0 {
        Seq::empty()
    } else if parts.len() == 1 {
        parts[0]
    } else {
        joined(parts.drop_last(), sep) + sep + parts.last()
    }
}

/// The views of the strings of `v`, in order.
pub open spec fn views(v: Seq<String>) -> Seq<Seq<char>> {
    Seq::new(v.len(), |i: int| v[i]@)
}

/// `p` is the beginning of `s`.
pub open spec fn has_prefix(s: Seq<char>, p: Seq<char>) -> bool {
    p.len() <= s.len() && s.subrange(0, p.len() as int) == p
}

/// `p` is the end of `s`.
pub open spec fn has_suffix(s: Seq<char>, p: Seq<char>) -> bool {
    p.len() <= s.len() && s.subrange(s.len() - p.len(), s.len() as int) == p
}

/// `p` occurs in `s` at position `at`.
pub open spec fn occurs_at(s: Seq<char>, p: Seq<char>, at: int) -> bool {
    0 <= at && at + p.len() <= s.len() && s.subrange(at, at + p.len()) == p
}

/// `p` occurs somewhere in `s`.
pub open spec fn has_infix(s: Seq<char>, p: Seq<char>) -> bool {
    exists|at: int| occurs_at(s, p, at)
}

pub fn digit_str(d: u8) -> (r: &'static str)
    requires
        d < 10,
    ensures
        r@ == digit_text(d as nat),
{
    if d == 0 {
        "0"
    } else if d == 1 {
        "1"
    } else if d == 2 {
        "2"
    } else if d == 3 {
        "3"
    } else if d == 4 {
        "4"
    } else if d == 5 {
        "5"
    } else if d == 6 {
        "6"
    } else if d == 7 {
        "7"
    } else if d == 8 {
        "8"
    } else {
        "9"
    }
}

/// Appends the decimal notation of `n` to `out`.
pub fn push_decimal(out: &mut String, n: u64)
    ensures
        final(out)@ == old(out)@ + decimal(n as nat),
    decreases n,
{
    if n < 10 {
        out.append(digit_str(n as u8));
    } else {
        push_decimal(out, n / 10);
        out.append(digit_str((n % 10) as u8));
    }
}

/// Appends `n` in two decimal digits to `out`.
pub fn push_two_digits(out: &mut String, n: u64)
    requires
        n < 100,
    ensures
        final(out)@ == old(out)@ + two_digits(n as nat),
{
    out.append(digit_str((n / 10) as u8));
    out.append(digit_str((n % 10) as u8));
}

/// The decimal notation of `n`.
pub fn decimal_string(n: u64) -> (s: String)
    ensures
        s@ == decimal(n as nat),
{
    let mut s = String::new();
    push_decimal(&mut s, n);
    s
}

/// Joins `parts` with `sep` between neighbours.
pub fn join(parts: &Vec<String>, sep: &str) -> (s: String)
    ensures
        s@ == joined(views(parts@), sep@),
{
    let mut s = String::new();
    let mut i: usize = 0;
    while i < parts.len()
        invariant
            i <= parts.len(),
            s@ == joined(views(parts@).take(i as int), sep@),
        decreases parts.len() - i,
    {
        proof {
            let all = views(parts@);
            let next = all.take(i + 1);
            assert(next.drop_last() == all.take(i as int));
            assert(next.last() == parts@[i as int]@);
        }
        if i > 0 {
            s.append(sep);
        }
        s.append(parts[i].as_str());
        i += 1;
    }
    proof {
        assert(views(parts@).take(parts.len() as int) == views(parts@));
    }
    s
}

/// A label, a number and a line end.
pub open spec fn counter_line(label: Seq<char>, n: nat) -> Seq<char> {
    label + decimal(n) + "\n"@
}

/// A label, a text and a line end.
pub open spec fn text_line(label: Seq<char>, text: Seq<char>) -> Seq<char> {
    label + text + "\n"@
}

/// Appends a label, a number and a line end.
pub fn push_counter(out: &mut String, label: &str, n: u64)
    ensures
        final(out)@ == old(out)@ + counter_line(label@, n as nat),
{
    out.append(label);
    push_decimal(out, n);
    out.append("\n");
    assert(out@ =~= old(out)@ + counter_line(label@, n as nat));
}

/// Appends a label, a text and a line end.
pub fn push_text(out: &mut String, label: &str, text: &str)
    ensures
        final(out)@ == old(out)@ + text_line(label@, text@),
{
    out.append(label);
    out.append(text);
    out.append("\n");
    assert(out@ =~= old(out)@ + text_line(label@, text@));
}

/// The value of a decimal digit.
pub open spec fn digit_of(c: char) -> Option<nat> {
    if c == '0' {
        Some(0)
    } else if c == '1' {
        Some(1)
    } else if c == '2' {
        Some(2)
    } else if c == '3' {
        Some(3)
    } else if c == '4' {
        Some(4)
    } else if c == '5' {
        Some(5)
    } else if c == '6' {
        Some(6)
    } else if c == '7' {
        Some(7)
    } else if c == '8' {
        Some(8)
    } else if c == '9' {
        Some(9)
    } else {
        None
    }
}

/// The number that a non-empty run of decimal digits spells.
pub open spec fn digits_value(s: Seq<char>) -> Option<nat>
    decreases s.len(),
{
    if s.len() == 0 {
        None
    } else if s.len() == 1 {
        digit_of(s[0])
    } else {
        match (digits_value(s.drop_last()), digit_of(s.last())) {
            (Some(v), Some(d)) => Some(v * 10 + d),
            _ => None,
        }
    }
}

/// The number that `s` spells: an optional plus sign, then nothing but
/// decimal digits, at least one, whose value does not exceed `max`.
pub open spec fn unsigned_value(s: Seq<char>, max: nat) -> Option<nat> {
    let digits = if s.len() > 0 && s[0] == '+' {
        s.skip(1)
    } else {
        s
    };
    match digits_value(digits) {
        Some(v) => if v <= max {
            Some(v)
        } else {
            None
        },
        None => None,
    }
}

/// A number as an optional natural.
pub open spec fn as_nat(n: Option<u64>) -> Option<nat> {
    match n {
        Some(v) => Some(v as nat),
        None => None,
    }
}

/// Where a run of digits spells a number, so does each of its beginnings,
/// none of them a larger one, and each of its characters is a digit.
pub proof fn lemma_digits_prefix(s: Seq<char>, k: int)
    requires
        0 < k <= s.len(),
        digits_value(s) is Some,
    ensures
        digits_value(s.take(k)) is Some,
        digits_value(s.take(k))->0 <= digits_value(s)->0,
        digit_of(s[k - 1]) is Some,
    decreases s.len(),
{
    if k == s.len() {
        assert(s.take(k) =~= s);
    } else {
        assert(s.drop_last().take(k) =~= s.take(k));
        lemma_digits_prefix(s.drop_last(), k);
    }
}

fn digit(c: char) -> (d: Option<u8>)
    ensures
        d is Some <==> digit_of(c) is Some,
        d matches Some(v) ==> digit_of(c) == Some(v as nat) && v < 10,
{
    if c == '0' {
        Some(0)
    } else if c == '1' {
        Some(1)
    } else if c == '2' {
        Some(2)
    } else if c == '3' {
        Some(3)
    } else if c == '4' {
        Some(4)
    } else if c == '5' {
        Some(5)
    } else if c == '6' {
        Some(6)
    } else if c == '7' {
        Some(7)
    } else if c == '8' {
        Some(8)
    } else if c == '9' {
        Some(9)
    } else {
        None
    }
}

/// Reads the number that `chars[from..]` spells, if it spells one that
/// does not exceed `max`.
pub fn parse_unsigned(chars: &Vec<char>, from: usize, max: u64) -> (r: Option<u64>)
    requires
        from <= chars.len(),
    ensures
        as_nat(r) == unsigned_value(chars@.skip(from as int), max as nat),
{
    let ghost text = chars@.skip(from as int);
    let start: usize = if from < chars.len() && chars[from] == '+' {
        from + 1
    } else {
        from
    };
    let ghost body = if text.len() > 0 && text[0] == '+' {
        text.skip(1)
    } else {
        text
    };
    assert(body =~= chars@.skip(start as int));
    if start == chars.len() {
        return None;
    }
    let mut i: usize = start;
    let mut acc: u64 = 0;
    while i < chars.len()
        invariant
            start <= i <= chars.len(),
            start < chars.len(),
            text == chars@.skip(from as int),
            body == if text.len() > 0 && text[0] == '+' {
                text.skip(1)
            } else {
                text
            },
            body == chars@.skip(start as int),
            i == start ==> acc == 0,
            i > start ==> digits_value(body.take(i - start)) == Some(acc as nat),
            acc <= max,
        decreases chars.len() - i,
    {
        let ghost k = i - start + 1;
        proof {
            assert(body.take(k).drop_last() =~= body.take(k - 1));
            assert(body.take(k).last() == chars@[i as int]);
            assert(body[k - 1] == chars@[i as int]);
        }
        let d = match digit(chars[i]) {
            Some(d) => d,
            None => {
                proof {
                    if digits_value(body) is Some {
                        lemma_digits_prefix(body, k);
                    }
                }
                return None;
            },
        };
        let next: u128 = acc as u128 * 10 + d as u128;
        assert(digits_value(body.take(k)) == Some(next as nat));
        if next > max as u128 {
            proof {
                if digits_value(body) is Some {
                    lemma_digits_prefix(body, k);
                }
            }
            return None;
        }
        acc = next as u64;
        i += 1;
    }
    proof {
        assert(body.take(chars.len() - start) =~= body);
    }
    Some(acc)
}

/// The characters of `s`, in order.
pub fn chars_of(s: &str) -> (v: Vec<char>)
    ensures
        v@ == s@,
{
    broadcast use vstd::string::group_string_axioms;

    let mut it = s.chars();
    let mut v: Vec<char> = Vec::new();
    loop
        invariant
            it.obeys_prophetic_iter_laws(),
            it.decrease() is Some,
            v@ + it.remaining() == s@,
        ensures
            v@ == s@,
        decreases it.decrease()->0,
    {
        let ghost before = it;
        let next = it.next();
        match next {
            Some(c) => {
                proof {
                    assert(v@.push(c) + it.remaining() == v@ + before.remaining());
                }
                v.push(c);
            },
            None => {
                proof {
                    assert(v@ + before.remaining() == v@);
                }
                break ;
            },
        }
    }
    v
}

/// Whether `p[from..to]` stands in `s` at position `at`.
pub fn range_occurs_at(s: &Vec<char>, at: usize, p: &Vec<char>, from: usize, to: usize) -> (r: bool)
    requires
        from <= to <= p.len(),
    ensures
        r == occurs_at(s@, p@.subrange(from as int, to as int), at as int),
{
    let n = to - from;
    if at > s.len() || n > s.len() - at {
        return false;
    }
    let ghost want = p@.subrange(from as int, to as int);
    let mut k: usize = 0;
    while k < n
        invariant
            from <= to <= p.len(),
            n == to - from,
            at <= s.len(),
            n <= s.len() - at,
            k <= n,
            want == p@.subrange(from as int, to as int),
            forall|j: int| 0 <= j < k ==> s@[at + j] == want[j],
        decreases n - k,
    {
        if s[at + k] != p[from + k] {
            proof {
                let got = s@.subrange(at as int, at + n);
                assert(got[k as int] != want[k as int]);
            }
            return false;
        }
        k += 1;
    }
    proof {
        assert(s@.subrange(at as int, at + n) =~= want);
    }
    true
}

/// Whether `p[from..to]` is the beginning of `s`.
pub fn range_is_prefix(s: &Vec<char>, p: &Vec<char>, from: usize, to: usize) -> (r: bool)
    requires
        from <= to <= p.len(),
    ensures
        r == has_prefix(s@, p@.subrange(from as int, to as int)),
{
    range_occurs_at(s, 0, p, from, to)
}

/// Whether `p[from..to]` is the end of `s`.
pub fn range_is_suffix(s: &Vec<char>, p: &Vec<char>, from: usize, to: usize) -> (r: bool)
    requires
        from <= to <= p.len(),
    ensures
        r == has_suffix(s@, p@.subrange(from as int, to as int)),
{
    let n = to - from;
    if n > s.len() {
        return false;
    }
    range_occurs_at(s, s.len() - n, p, from, to)
}

/// Whether `p[from..to]` occurs somewhere in `s`.
pub fn range_is_infix(s: &Vec<char>, p: &Vec<char>, from: usize, to: usize) -> (r: bool)
    requires
        from <= to <= p.len(),
    ensures
        r == has_infix(s@, p@.subrange(from as int, to as int)),
{
    let n = to - from;
    let ghost want = p@.subrange(from as int, to as int);
    if n > s.len() {
        assert forall|at: int| !occurs_at(s@, want, at) by {}
        return false;
    }
    let last = s.len() - n;
    let mut at: usize = 0;
    loop
        invariant
            from <= to <= p.len(),
            n == to - from,
            n <= s.len(),
            last == s.len() - n,
            at <= last,
            want == p@.subrange(from as int, to as int),
            forall|j: int| 0 <= j < at ==> !occurs_at(s@, want, j),
        decreases last - at,
    {
        if range_occurs_at(s, at, p, from, to) {
            return true;
        }
        if at == last {
            assert forall|j: int| !occurs_at(s@, want, j) by {}
            return false;
        }
        at += 1;
    }
}

/// Whether two texts hold the same characters.
pub fn same_text(a: &str, b: &str) -> (r: bool)
    ensures
        r == (a@ == b@),
{
    let x = chars_of(a);
    let y = chars_of(b);
    if x.len() != y.len() {
        return false;
    }
    let r = range_occurs_at(&x, 0, &y, 0, y.len());
    proof {
        assert(y@.subrange(0, y@.len() as int) =~= y@);
        assert(x@.subrange(0, x@.len() as int) =~= x@);
    }
    r
}

} // verus!
