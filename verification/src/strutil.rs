//! Verified helpers for text handling.
//!
//! Player names, track titles and formatted output are all plain strings;
//! the helpers here give the rest of the crate exact, specification-level
//! views of prefix tests, substring search, case-insensitive comparison and
//! decimal formatting.

use vstd::prelude::*;
use vstd::string::StrSliceExecFns;
use vstd::string::StringExecFns;

verus! {

/// A sequence of characters starts with the given prefix.
pub open spec fn spec_starts_with(s: Seq<char>, prefix: Seq<char>) -> bool {
    prefix.len() <= s.len() && s.subrange(0, prefix.len() as int) == prefix
}

/// The needle occurs somewhere in the haystack.
pub open spec fn spec_contains(s: Seq<char>, sub: Seq<char>) -> bool {
    exists|i: int|
        0 <= i && i + sub.len() <= s.len() && #[trigger] s.subrange(i, i + sub.len()) == sub
}

/// Two characters are equal up to ASCII case.
pub open spec fn spec_chars_eq_nocase(a: char, b: char) -> bool {
    a == b || (is_ascii_upper(a) && a as int + 32 == b as int) || (is_ascii_upper(b) && b
        as int + 32 == a as int)
}

/// The character is an ASCII capital letter.
pub open spec fn is_ascii_upper(c: char) -> bool {
    'A' <= c <= 'Z'
}

/// Two strings are equal up to ASCII case.
pub open spec fn spec_eq_nocase(s: Seq<char>, t: Seq<char>) -> bool {
    s.len() == t.len() && forall|i: int| 0 <= i < s.len() ==> spec_chars_eq_nocase(s[i], t[i])
}

/// Whether `s` starts with `prefix`, comparing character by character.
pub fn starts_with_str(s: &str, prefix: &str) -> (r: bool)
    ensures
        r == spec_starts_with(s@, prefix@),
{
    let n = s.unicode_len();
    let p = prefix.unicode_len();
    if p > n {
        proof {
            assert(!spec_starts_with(s@, prefix@));
        }
        return false;
    }
    let mut i: usize = 0;
    while i < p
        invariant
            0 <= i <= p,
            p <= n,
            n == s@.len(),
            p == prefix@.len(),
            forall|j: int| 0 <= j < i ==> s@[j] == prefix@[j],
        decreases p - i,
    {
        if s.get_char(i) != prefix.get_char(i) {
            proof {
                assert(s@.subrange(0, p as int)[i as int] != prefix@[i as int]);
            }
            return false;
        }
        i = i + 1;
    }
    proof {
        assert(s@.subrange(0, p as int) =~= prefix@);
    }
    true
}

/// Whether `sub` occurs anywhere in `s`.
pub fn contains_str(s: &str, sub: &str) -> (r: bool)
    ensures
        r == spec_contains(s@, sub@),
{
    let n = s.unicode_len();
    let m = sub.unicode_len();
    if m > n {
        return false;
    }
    if m == 0 {
        proof {
            assert(s@.subrange(0, 0 + sub@.len() as int) =~= sub@);
        }
        return true;
    }
    let mut i: usize = 0;
    while i <= n - m
        invariant
            0 <= i <= n - m + 1,
            1 <= m <= n,
            n == s@.len(),
            m == sub@.len(),
            forall|k: int|
                0 <= k < i ==> #[trigger] s@.subrange(k, k + sub@.len()) != sub@,
        decreases n - i,
    {
        let mut j: usize = 0;
        let mut matched = true;
        while j < m
            invariant
                0 <= j <= m,
                0 <= i <= n - m,
                n == s@.len(),
                m == sub@.len(),
                matched ==> forall|t: int| 0 <= t < j ==> s@[i + t] == sub@[t],
                !matched ==> s@.subrange(i as int, i + sub@.len()) != sub@,
            decreases m - j,
        {
            if s.get_char(i + j) != sub.get_char(j) {
                proof {
                    assert(s@.subrange(i as int, i + sub@.len())[j as int] != sub@[j as int]);
                }
                matched = false;
                j = m;
            } else {
                j = j + 1;
            }
        }
        if matched {
            proof {
                assert(s@.subrange(i as int, i + sub@.len()) =~= sub@);
            }
            return true;
        }
        i = i + 1;
    }
    false
}

/// Whether two strings hold the same characters.
pub fn str_eq(a: &str, b: &str) -> (r: bool)
    ensures
        r == (a@ == b@),
{
    let n = a.unicode_len();
    let m = b.unicode_len();
    if n != m {
        return false;
    }
    let mut i: usize = 0;
    while i < n
        invariant
            0 <= i <= n,
            n == a@.len(),
            n == b@.len(),
            forall|j: int| 0 <= j < i ==> a@[j] == b@[j],
        decreases n - i,
    {
        if a.get_char(i) != b.get_char(i) {
            return false;
        }
        i = i + 1;
    }
    proof {
        assert(a@ =~= b@);
    }
    true
}

/// Whether the two strings are equal up to ASCII case.
pub fn eq_ignore_ascii_case_str(s: &str, t: &str) -> (r: bool)
    ensures
        r == spec_eq_nocase(s@, t@),
{
    let n = s.unicode_len();
    let m = t.unicode_len();
    if n != m {
        return false;
    }
    let mut i: usize = 0;
    while i < n
        invariant
            0 <= i <= n,
            n == s@.len(),
            n == t@.len(),
            forall|j: int| 0 <= j < i ==> spec_chars_eq_nocase(s@[j], t@[j]),
        decreases n - i,
    {
        let a = s.get_char(i);
        let b = t.get_char(i);
        let au = a as u32;
        let bu = b as u32;
        let a_low = if au >= 65 && au <= 90 {
            au + 32
        } else {
            au
        };
        let b_low = if bu >= 65 && bu <= 90 {
            bu + 32
        } else {
            bu
        };
        if a_low != b_low {
            proof {
                assert(!spec_chars_eq_nocase(s@[i as int], t@[i as int]));
            }
            return false;
        }
        i = i + 1;
    }
    true
}

/// The needle occurs somewhere in the haystack, up to ASCII case.
pub open spec fn spec_contains_nocase(s: Seq<char>, sub: Seq<char>) -> bool {
    exists|i: int|
        0 <= i && i + sub.len() <= s.len() && spec_eq_nocase(
            #[trigger] s.subrange(i, i + sub.len()),
            sub,
        )
}

/// Whether two characters are equal up to ASCII case.
fn chars_eq_nocase(a: char, b: char) -> (r: bool)
    ensures
        r == spec_chars_eq_nocase(a, b),
{
    let au = a as u32;
    let bu = b as u32;
    let a_low = if au >= 65 && au <= 90 {
        au + 32
    } else {
        au
    };
    let b_low = if bu >= 65 && bu <= 90 {
        bu + 32
    } else {
        bu
    };
    a_low == b_low
}

/// Whether `sub` occurs anywhere in `s`, comparing up to ASCII case.
pub fn contains_nocase_str(s: &str, sub: &str) -> (r: bool)
    ensures
        r == spec_contains_nocase(s@, sub@),
{
    let n = s.unicode_len();
    let m = sub.unicode_len();
    if m > n {
        return false;
    }
    if m == 0 {
        proof {
            assert(spec_eq_nocase(s@.subrange(0, 0 + sub@.len() as int), sub@));
        }
        return true;
    }
    let mut i: usize = 0;
    while i <= n - m
        invariant
            0 <= i <= n - m + 1,
            1 <= m <= n,
            n == s@.len(),
            m == sub@.len(),
            forall|k: int|
                0 <= k < i ==> !spec_eq_nocase(#[trigger] s@.subrange(k, k + sub@.len()), sub@),
        decreases n - i,
    {
        let mut j: usize = 0;
        let mut matched = true;
        while j < m
            invariant
                0 <= j <= m,
                0 <= i <= n - m,
                n == s@.len(),
                m == sub@.len(),
                matched ==> forall|t: int|
                    0 <= t < j ==> spec_chars_eq_nocase(s@[i + t], sub@[t]),
                !matched ==> !spec_eq_nocase(s@.subrange(i as int, i + sub@.len()), sub@),
            decreases m - j,
        {
            if !chars_eq_nocase(s.get_char(i + j), sub.get_char(j)) {
                proof {
                    assert(s@.subrange(i as int, i + sub@.len())[j as int] == s@[i + j]);
                }
                matched = false;
                j = m;
            } else {
                j = j + 1;
            }
        }
        if matched {
            proof {
                assert forall|t: int| 0 <= t < sub@.len() implies spec_chars_eq_nocase(
                    s@.subrange(i as int, i + sub@.len())[t],
                    sub@[t],
                ) by {
                    assert(s@.subrange(i as int, i + sub@.len())[t] == s@[i + t]);
                }
                assert(spec_eq_nocase(s@.subrange(i as int, i + sub@.len()), sub@));
            }
            return true;
        }
        i = i + 1;
    }
    false
}

/// The character is ASCII whitespace.
pub open spec fn spec_is_space(c: char) -> bool {
    c == ' ' || c == '\t' || c == '\n' || c == '\r' || c == '\u{b}' || c == '\u{c}'
}

/// Position of the first character from `i` on that is not ASCII
/// whitespace.
pub open spec fn spec_skip_spaces(s: Seq<char>, i: int) -> int
    decreases s.len() - i,
{
    if 0 <= i < s.len() && spec_is_space(s[i]) {
        spec_skip_spaces(s, i + 1)
    } else {
        i
    }
}

/// Position after the last character before `j` that is not ASCII
/// whitespace.
pub open spec fn spec_trim_end_at(s: Seq<char>, j: int) -> int
    decreases j,
{
    if 0 < j <= s.len() && spec_is_space(s[j - 1]) {
        spec_trim_end_at(s, j - 1)
    } else {
        j
    }
}

/// The string with ASCII whitespace removed from both ends.
pub open spec fn spec_trimmed(s: Seq<char>) -> Seq<char> {
    let lead = spec_skip_spaces(s, 0);
    let tail = spec_trim_end_at(s, s.len() as int);
    if lead >= tail {
        Seq::empty()
    } else {
        s.subrange(lead, tail)
    }
}

/// The character is ASCII whitespace.
fn is_space_char(c: char) -> (r: bool)
    ensures
        r == spec_is_space(c),
{
    c == ' ' || c == '\t' || c == '\n' || c == '\r' || c == '\u{b}' || c == '\u{c}'
}

/// Remove ASCII whitespace from both ends of a string.
pub fn trim_ascii_ws<'a>(s: &'a str) -> (r: &'a str)
    ensures
        r@ == spec_trimmed(s@),
{
    let n = s.unicode_len();
    let mut i: usize = 0;
    while i < n && is_space_char(s.get_char(i))
        invariant
            0 <= i <= n,
            n == s@.len(),
            spec_skip_spaces(s@, 0) == spec_skip_spaces(s@, i as int),
        decreases n - i,
    {
        i = i + 1;
    }
    let mut j: usize = n;
    while j > 0 && is_space_char(s.get_char(j - 1))
        invariant
            0 <= j <= n,
            n == s@.len(),
            spec_trim_end_at(s@, n as int) == spec_trim_end_at(s@, j as int),
        decreases j,
    {
        j = j - 1;
    }
    proof {
        assert(spec_skip_spaces(s@, 0) == i as int);
        assert(spec_trim_end_at(s@, n as int) == j as int);
    }
    if i >= j {
        let empty = "";
        proof {
            reveal_strlit("");
            assert(empty@ =~= Seq::<char>::empty());
        }
        empty
    } else {
        s.substring_char(i, j)
    }
}

/// The prefix of `s` after removing `prefix`, or `s` itself where the prefix
/// is not there.
pub fn strip_prefix_or_self<'a>(s: &'a str, prefix: &str) -> (r: &'a str)
    ensures
        spec_starts_with(s@, prefix@) ==> r@ == s@.subrange(prefix@.len() as int, s@.len() as int),
        !spec_starts_with(s@, prefix@) ==> r@ == s@,
{
    if starts_with_str(s, prefix) {
        let p = prefix.unicode_len();
        let n = s.unicode_len();
        s.substring_char(p, n)
    } else {
        s
    }
}

/// Build a string from a vector of characters.
///
/// Relies on core's `Iterator::collect` for `String`: the collected string
/// holds exactly the characters of the iterator, in order.
#[verifier::external_body]
fn string_from_chars(cs: &Vec<char>) -> (r: String)
    ensures
        r@ == cs@,
{
    cs.iter().collect()
}

/// A string of one character repeated.
pub fn repeat_char(c: char, n: usize) -> (r: String)
    ensures
        r@ == Seq::new(n as nat, |i: int| c),
{
    let mut cs: Vec<char> = Vec::new();
    let mut i: usize = 0;
    while i < n
        invariant
            0 <= i <= n,
            cs@ =~= Seq::new(i as nat, |j: int| c),
        decreases n - i,
    {
        cs.push(c);
        proof {
            assert(cs@ =~= Seq::new(i as nat + 1, |j: int| c));
        }
        i = i + 1;
    }
    string_from_chars(&cs)
}

/// The decimal digit character for a value below ten.
pub open spec fn spec_digit(d: int) -> char {
    if d == 0 {
        '0'
    } else if d == 1 {
        '1'
    } else if d == 2 {
        '2'
    } else if d == 3 {
        '3'
    } else if d == 4 {
        '4'
    } else if d == 5 {
        '5'
    } else if d == 6 {
        '6'
    } else if d == 7 {
        '7'
    } else if d == 8 {
        '8'
    } else {
        '9'
    }
}

/// The decimal rendering of a non-negative integer.
pub open spec fn spec_nat_str(n: int) -> Seq<char>
    decreases n,
{
    if n < 10 {
        seq![spec_digit(n)]
    } else {
        spec_nat_str(n / 10).push(spec_digit(n % 10))
    }
}

/// The decimal rendering of an integer, with a leading minus sign where it
/// is negative.
pub open spec fn spec_int_str(n: int) -> Seq<char> {
    if n >= 0 {
        spec_nat_str(n)
    } else {
        seq!['-'] + spec_nat_str(-n)
    }
}

/// One decimal digit as a string.
fn digit_str(d: u64) -> (r: String)
    requires
        d < 10,
    ensures
        r@ =~= seq![spec_digit(d as int)],
{
    if d == 0 {
        let s = "0".to_owned();
        proof {
            reveal_strlit("0");
        }
        s
    } else if d == 1 {
        let s = "1".to_owned();
        proof {
            reveal_strlit("1");
        }
        s
    } else if d == 2 {
        let s = "2".to_owned();
        proof {
            reveal_strlit("2");
        }
        s
    } else if d == 3 {
        let s = "3".to_owned();
        proof {
            reveal_strlit("3");
        }
        s
    } else if d == 4 {
        let s = "4".to_owned();
        proof {
            reveal_strlit("4");
        }
        s
    } else if d == 5 {
        let s = "5".to_owned();
        proof {
            reveal_strlit("5");
        }
        s
    } else if d == 6 {
        let s = "6".to_owned();
        proof {
            reveal_strlit("6");
        }
        s
    } else if d == 7 {
        let s = "7".to_owned();
        proof {
            reveal_strlit("7");
        }
        s
    } else if d == 8 {
        let s = "8".to_owned();
        proof {
            reveal_strlit("8");
        }
        s
    } else {
        let s = "9".to_owned();
        proof {
            reveal_strlit("9");
        }
        s
    }
}

/// Format a non-negative integer in decimal.
pub fn fmt_u64(n: u64) -> (r: String)
    ensures
        r@ == spec_nat_str(n as int),
    decreases n,
{
    if n < 10 {
        let r = digit_str(n);
        proof {
            assert(r@ =~= spec_nat_str(n as int));
        }
        r
    } else {
        let q = n / 10;
        let d = n % 10;
        let mut front = fmt_u64(q);
        let last = digit_str(d);
        front.append(last.as_str());
        proof {
            assert(front@ =~= spec_nat_str(n as int));
        }
        front
    }
}

/// Format a signed integer in decimal.
pub fn fmt_i64(n: i64) -> (r: String)
    ensures
        r@ == spec_int_str(n as int),
{
    if n >= 0 {
        let r = fmt_u64(n as u64);
        r
    } else {
        let m: u64 = ((-(n + 1)) as u64) + 1;
        let mut front = "-".to_owned();
        let rest = fmt_u64(m);
        front.append(rest.as_str());
        proof {
            reveal_strlit("-");
            assert(front@ =~= spec_int_str(n as int));
        }
        front
    }
}

} // verus!
