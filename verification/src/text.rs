//! Small verified operations on text: equality, search, truncation and the
//! clock-style rendering of a duration.

use vstd::prelude::*;

verus! {

/// The characters of `s`, in order.
pub fn chars_of(s: &str) -> (v: Vec<char>)
    ensures
        v@ == s@,
{
    let mut v: Vec<char> = Vec::new();
    for c in it: s.chars()
        invariant
            v@ == it.seq().take(it.index() as int),
    {
        v.push(c);
    }
    v
}

/// Whether two strings hold the same characters.
pub fn str_equal(a: &str, b: &str) -> (r: bool)
    ensures
        r == (a@ == b@),
{
    let x = chars_of(a);
    let y = chars_of(b);
    if x.len() != y.len() {
        return false;
    }
    let n = x.len();
    let mut i: usize = 0;
    while i < n
        invariant
            n == x@.len(),
            n == y@.len(),
            x@ == a@,
            y@ == b@,
            i <= n,
            forall|j: int| 0 <= j < i ==> x@[j] == y@[j],
        decreases n - i,
    {
        if x[i] != y[i] {
            return false;
        }
        i = i + 1;
    }
    assert(a@ =~= b@);
    true
}

/// `needle` occurs in `haystack` at position `i`.
pub open spec fn occurs_at(haystack: Seq<char>, needle: Seq<char>, i: int) -> bool {
    0 <= i && i + needle.len() <= haystack.len() && haystack.subrange(i, i + needle.len()) == needle
}

/// `needle` occurs somewhere in `haystack` (the empty text occurs everywhere).
pub open spec fn contains_text(haystack: Seq<char>, needle: Seq<char>) -> bool {
    exists|i: int| occurs_at(haystack, needle, i)
}

/// Whether `needle` occurs in `haystack`.
pub fn contains(haystack: &str, needle: &str) -> (r: bool)
    ensures
        r == contains_text(haystack@, needle@),
{
    let h = chars_of(haystack);
    let nd = chars_of(needle);
    let hl = h.len();
    let nl = nd.len();
    if nl > hl {
        proof {
            assert forall|i: int| !occurs_at(haystack@, needle@, i) by {}
        }
        return false;
    }
    let last = hl - nl;
    let mut i: usize = 0;
    while i <= last
        invariant
            h@ == haystack@,
            nd@ == needle@,
            hl == h@.len(),
            nl == nd@.len(),
            nl <= hl,
            last == hl - nl,
            i <= last + 1,
            forall|k: int| 0 <= k < i ==> !occurs_at(haystack@, needle@, k),
        decreases last + 1 - i,
    {
        let mut j: usize = 0;
        let mut same = true;
        while j < nl
            invariant
                h@ == haystack@,
                nd@ == needle@,
                hl == h@.len(),
                nl == nd@.len(),
                i <= last,
                last == hl - nl,
                j <= nl,
                same == (forall|k: int| 0 <= k < j ==> h@[i + k] == nd@[k]),
            decreases nl - j,
        {
            if h[i + j] != nd[j] {
                same = false;
            }
            j = j + 1;
        }
        if same {
            proof {
                assert(haystack@.subrange(i as int, i + nl) =~= needle@);
                assert(occurs_at(haystack@, needle@, i as int));
            }
            return true;
        }
        proof {
            if occurs_at(haystack@, needle@, i as int) {
                let k = choose|k: int| 0 <= k < nl && h@[i + k] != nd@[k];
                assert(haystack@.subrange(i as int, i + nl)[k] == h@[i + k]);
            }
        }
        i = i + 1;
    }
    proof {
        assert forall|k: int| !occurs_at(haystack@, needle@, k) by {
            if 0 <= k && k + nl <= hl {
                assert(k < i);
            }
        }
    }
    false
}

/// The text shown for `text` in at most `max_chars` characters plus an ellipsis:
/// longer text is cut after `max_chars` characters and "..." is added.
pub open spec fn truncated(text: Seq<char>, max_chars: nat) -> Seq<char> {
    if text.len() > max_chars {
        text.take(max_chars as int) + "..."@
    } else {
        text
    }
}

/// Cuts `text` after `max_chars` characters, marking the cut with "...".
pub fn truncate_text(text: &str, max_chars: usize) -> (r: String)
    ensures
        r@ == truncated(text@, max_chars as nat),
{
    if text.unicode_len() > max_chars {
        let head = text.substring_char(0, max_chars);
        let mut r = String::from_str(head);
        r.append("...");
        proof {
            assert(text@.subrange(0, max_chars as int) =~= text@.take(max_chars as int));
        }
        r
    } else {
        String::from_str(text)
    }
}

/// The digit character for `d` (below ten).
pub open spec fn digit_char(d: nat) -> char {
    if d == 0 { '0' } else if d == 1 { '1' } else if d == 2 { '2' } else if d == 3 { '3' }
    else if d == 4 { '4' } else if d == 5 { '5' } else if d == 6 { '6' } else if d == 7 { '7' }
    else if d == 8 { '8' } else { '9' }
}

/// `n` written in decimal, without leading zeros.
pub open spec fn decimal(n: nat) -> Seq<char>
    decreases n,
{
    if n < 10 {
        seq![digit_char(n)]
    } else {
        decimal(n / 10) + seq![digit_char(n % 10)]
    }
}

/// `n` written in decimal, padded with a zero to at least two digits.
pub open spec fn two_digits(n: nat) -> Seq<char> {
    if n < 10 {
        seq!['0'] + decimal(n)
    } else {
        decimal(n)
    }
}

/// A duration of `t` seconds on a clock: hours, minutes and seconds, each of
/// at least two digits and separated by colons, where the hours are left out
/// under an hour.
pub open spec fn clock_text(t: nat) -> Seq<char> {
    let h = t / 3600;
    let m = (t % 3600) / 60;
    let s = t % 60;
    if h > 0 {
        two_digits(h) + seq![':'] + two_digits(m) + seq![':'] + two_digits(s)
    } else {
        two_digits(m) + seq![':'] + two_digits(s)
    }
}

/// The digit `d` (below ten) as text.
fn digit_str(d: u64) -> (r: &'static str)
    requires
        d < 10,
    ensures
        r@ == seq![digit_char(d as nat)],
{
    proof {
        reveal_strlit("0");
        reveal_strlit("1");
        reveal_strlit("2");
        reveal_strlit("3");
        reveal_strlit("4");
        reveal_strlit("5");
        reveal_strlit("6");
        reveal_strlit("7");
        reveal_strlit("8");
        reveal_strlit("9");
    }
    let r = if d == 0 { "0" } else if d == 1 { "1" } else if d == 2 { "2" } else if d == 3 { "3" }
    else if d == 4 { "4" } else if d == 5 { "5" } else if d == 6 { "6" } else if d == 7 { "7" }
    else if d == 8 { "8" } else { "9" };
    assert(r@ =~= seq![digit_char(d as nat)]);
    r
}

/// Appends `n` in decimal to `out`.
pub fn push_decimal(out: &mut String, n: u64)
    ensures
        final(out)@ == old(out)@ + decimal(n as nat),
    decreases n,
{
    if n >= 10 {
        push_decimal(out, n / 10);
    }
    out.append(digit_str(n % 10));
    proof {
        if n >= 10 {
            assert(decimal(n as nat) == decimal((n / 10) as nat) + seq![digit_char((n % 10) as nat)]);
        } else {
            assert(decimal(n as nat) == seq![digit_char(n as nat)]);
        }
    }
}

/// Appends `n` in decimal, padded to at least two digits, to `out`.
fn push_two_digits(out: &mut String, n: u64)
    ensures
        final(out)@ == old(out)@ + two_digits(n as nat),
{
    if n < 10 {
        proof {
            reveal_strlit("0");
        }
        out.append("0");
    }
    push_decimal(out, n);
}

/// Splits a duration of `total_secs` seconds into hours, minutes and seconds.
pub fn clock_parts(total_secs: u64) -> (r: (u64, u64, u64))
    ensures
        r.0 == total_secs / 3600,
        r.1 == (total_secs % 3600) / 60,
        r.2 == total_secs % 60,
        r.1 < 60,
        r.2 < 60,
        r.0 * 3600 + r.1 * 60 + r.2 == total_secs,
{
    let hours = total_secs / 3600;
    let minutes = (total_secs % 3600) / 60;
    let seconds = total_secs % 60;
    assert(hours * 3600 + minutes * 60 + seconds == total_secs) by (nonlinear_arith)
        requires
            hours == total_secs / 3600,
            minutes == (total_secs % 3600) / 60,
            seconds == total_secs % 60,
    {
        vstd::arithmetic::div_mod::lemma_fundamental_div_mod(total_secs as int, 3600);
        vstd::arithmetic::div_mod::lemma_fundamental_div_mod((total_secs % 3600) as int, 60);
        vstd::arithmetic::div_mod::lemma_mod_mod(total_secs as int, 3600, 60);
    }
    (hours, minutes, seconds)
}

/// A duration of `total_secs` whole seconds as clock text, such as "03:07"
/// or "01:02:03".
pub fn format_clock(total_secs: u64) -> (r: String)
    ensures
        r@ == clock_text(total_secs as nat),
{
    let (hours, minutes, seconds) = clock_parts(total_secs);
    let mut out = String::new();
    if hours > 0 {
        push_two_digits(&mut out, hours);
        out.append(":");
        push_two_digits(&mut out, minutes);
        out.append(":");
        push_two_digits(&mut out, seconds);
    } else {
        push_two_digits(&mut out, minutes);
        out.append(":");
        push_two_digits(&mut out, seconds);
    }
    proof {
        reveal_strlit(":");
        assert(":"@ =~= seq![':']);
    }
    out
}

/// One digit for a number below ten, two digits below a hundred.
pub proof fn lemma_decimal_len(n: nat)
    ensures
        n < 10 ==> decimal(n).len() == 1,
        10 <= n < 100 ==> decimal(n).len() == 2,
        n < 100 ==> two_digits(n).len() == 2,
{
    if 10 <= n < 100 {
        assert(decimal(n / 10) == seq![digit_char(n / 10)]);
    }
}

/// Under an hour a duration reads "MM:SS"; from one hour up to a hundred it
/// reads "HH:MM:SS".
pub proof fn lemma_clock_text_shape(t: nat)
    ensures
        t < 3600 ==> clock_text(t).len() == 5 && clock_text(t)[2] == ':',
        3600 <= t < 360000 ==> clock_text(t).len() == 8 && clock_text(t)[2] == ':'
            && clock_text(t)[5] == ':',
{
    let h = t / 3600;
    let m = (t % 3600) / 60;
    let s = t % 60;
    assert(m < 60 && s < 60) by (nonlinear_arith)
        requires
            m == (t % 3600) / 60,
            s == t % 60,
    ;
    lemma_decimal_len(m);
    lemma_decimal_len(s);
    if 3600 <= t < 360000 {
        assert(1 <= h < 100) by (nonlinear_arith)
            requires
                h == t / 3600,
                3600 <= t < 360000,
        ;
        lemma_decimal_len(h);
    }
    if t < 3600 {
        assert(h == 0);
    }
}

/// A shown text is never longer than the limit plus the three dots of the
/// ellipsis, and text within the limit is shown unchanged.
pub proof fn lemma_truncated_bounds(text: Seq<char>, max_chars: nat)
    ensures
        truncated(text, max_chars).len() <= max_chars + 3,
        text.len() <= max_chars ==> truncated(text, max_chars) == text,
        text.len() > max_chars ==> truncated(text, max_chars).take(max_chars as int) == text.take(
            max_chars as int,
        ),
{
    reveal_strlit("...");
    if text.len() > max_chars {
        assert(truncated(text, max_chars).take(max_chars as int) =~= text.take(max_chars as int));
    }
}

} // verus!
