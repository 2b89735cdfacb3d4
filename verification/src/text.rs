//! Text built and searched by the library: decimal numerals and substring
//! search.

use vstd::prelude::*;

verus! {

/// The character of the decimal digit `d`.
pub open spec fn digit_char(d: nat) -> char
    recommends
        d < 10,
{
    if d == 0 { '0' }
    else if d == 1 { '1' }
    else if d == 2 { '2' }
    else if d == 3 { '3' }
    else if d == 4 { '4' }
    else if d == 5 { '5' }
    else if d == 6 { '6' }
    else if d == 7 { '7' }
    else if d == 8 { '8' }
    else { '9' }
}

/// The decimal numeral of `n`, most significant digit first and with no
/// leading zeros (`0` is written `0`).
pub open spec fn decimal(n: nat) -> Seq<char>
    decreases n,
{
    if n < 10 {
        seq![digit_char(n)]
    } else {
        decimal(n / 10).push(digit_char(n % 10))
    }
}

/// `pattern` occurs in `text` as a run of consecutive characters.
pub open spec fn contains_run(text: Seq<char>, pattern: Seq<char>) -> bool {
    exists|at: int|
        0 <= at && at + pattern.len() <= text.len() && #[trigger] text.subrange(at, at + pattern.len())
            == pattern
}

/// The one-character text of the digit `d`.
fn digit_str(d: u64) -> (s: &'static str)
    requires
        d < 10,
    ensures
        s@ == seq![digit_char(d as nat)],
{
    if d == 0 {
        proof { reveal_strlit("0"); }
        "0"
    } else if d == 1 {
        proof { reveal_strlit("1"); }
        "1"
    } else if d == 2 {
        proof { reveal_strlit("2"); }
        "2"
    } else if d == 3 {
        proof { reveal_strlit("3"); }
        "3"
    } else if d == 4 {
        proof { reveal_strlit("4"); }
        "4"
    } else if d == 5 {
        proof { reveal_strlit("5"); }
        "5"
    } else if d == 6 {
        proof { reveal_strlit("6"); }
        "6"
    } else if d == 7 {
        proof { reveal_strlit("7"); }
        "7"
    } else if d == 8 {
        proof { reveal_strlit("8"); }
        "8"
    } else {
        proof { reveal_strlit("9"); }
        "9"
    }
}

/// Appends the decimal numeral of `n` to `text`.
pub fn push_decimal(text: &mut String, n: u64)
    ensures
        final(text)@ == old(text)@ + decimal(n as nat),
    decreases n,
{
    if n >= 10 {
        push_decimal(text, n / 10);
    }
    text.append(digit_str(n % 10));
    proof {
        if n >= 10 {
            assert(old(text)@ + decimal(n as nat) =~= old(text)@ + decimal((n / 10) as nat) + seq![
                digit_char((n % 10) as nat),
            ]);
        }
    }
}

/// The characters of `text`, one by one.
fn chars_of(text: &str) -> (chars: Vec<char>)
    ensures
        chars@ == text@,
{
    let n: usize = text.unicode_len();
    let mut chars: Vec<char> = Vec::new();
    for i in 0..n
        invariant
            n == text@.len(),
            chars@ == text@.subrange(0, i as int),
    {
        chars.push(text.get_char(i));
        assert(chars@ =~= text@.subrange(0, i + 1));
    }
    assert(chars@ =~= text@);
    chars
}

/// Whether `pattern` occurs in `text` as a run of consecutive characters,
/// as `str::contains` answers for a string pattern.
pub fn contains(text: &str, pattern: &str) -> (found: bool)
    ensures
        found == contains_run(text@, pattern@),
{
    let t: Vec<char> = chars_of(text);
    let p: Vec<char> = chars_of(pattern);
    if p.len() > t.len() {
        return false;
    }
    let last: usize = t.len() - p.len();
    let mut at: usize = 0;
    while at <= last
        invariant
            t@ == text@,
            p@ == pattern@,
            last == t.len() - p.len(),
            p.len() <= t.len(),
            at <= last + 1,
            forall|k: int| 0 <= k < at ==> #[trigger] t@.subrange(k, k + p.len()) != p@,
        decreases last + 1 - at,
    {
        let mut j: usize = 0;
        let mut same: bool = true;
        while j < p.len()
            invariant
                t@ == text@,
                p@ == pattern@,
                at <= last,
                last == t.len() - p.len(),
                j <= p.len(),
                same == (forall|m: int| 0 <= m < j ==> t@[at + m] == p@[m]),
            decreases p.len() - j,
        {
            if t[at + j] != p[j] {
                same = false;
            }
            j = j + 1;
        }
        if same {
            assert(t@.subrange(at as int, at + p.len()) =~= p@);
            return true;
        }
        assert(t@.subrange(at as int, at + p.len()) != p@) by {
            let m = choose|m: int| 0 <= m < p.len() && t@[at + m] != p@[m];
            assert(t@.subrange(at as int, at + p.len())[m] == t@[at + m]);
        }
        at = at + 1;
    }
    assert forall|k: int| 0 <= k && k + pattern@.len() <= text@.len() implies #[trigger] text@.subrange(k, k + pattern@.len()) != pattern@ by {
        assert(k < at);
    }
    false
}

} // verus!
