//! Small helpers on text, stated over sequences of characters.
use vstd::prelude::*;
use vstd::string::*;

verus! {

/// The views of a sequence of strings.
pub open spec fn texts(v: Seq<String>) -> Seq<Seq<char>> {
    Seq::new(v.len(), |i: int| v[i]@)
}

/// Whether two string slices hold the same characters.
pub fn same_text(a: &str, b: &str) -> (r: bool)
    ensures
        r == (a@ == b@),
{
    let x: String = a.to_owned();
    let y: String = b.to_owned();
    x == y
}

/// The characters of a string slice, in order. Each character is found by
/// a walk from the start of the slice, so the time is quadratic in its length.
pub fn chars_of(s: &str) -> (r: Vec<char>)
    ensures
        r@ == s@,
{
    let n: usize = s.unicode_len();
    let mut out: Vec<char> = Vec::new();
    let mut i: usize = 0;
    while i < n
        invariant
            n == s@.len(),
            i <= n,
            out@ == s@.take(i as int),
        decreases n - i,
    {
        out.push(s.get_char(i));
        assert(s@.take(i as int).push(s@[i as int]) =~= s@.take(i as int + 1));
        i = i + 1;
    }
    assert(s@.take(n as int) =~= s@);
    out
}

/// Index of the first `=` of `s` at or after `from`, or the length of `s`
/// if there is none.
pub open spec fn first_equals(s: Seq<char>, from: int) -> int
    decreases s.len() - from,
{
    if from < 0 || from >= s.len() {
        s.len() as int
    } else if s[from] == '=' {
        from
    } else {
        first_equals(s, from + 1)
    }
}

/// An override `key=value` split at its first `=`; `None` without one.
pub open spec fn split_override(s: Seq<char>) -> Option<(Seq<char>, Seq<char>)> {
    let i = first_equals(s, 0);
    if i < s.len() {
        Some((s.take(i), s.skip(i + 1)))
    } else {
        None
    }
}

/// `s` without one trailing line feed, if it ends in one.
pub open spec fn trim_newline(s: Seq<char>) -> Seq<char> {
    if s.len() > 0 && s.last() == '\n' {
        s.drop_last()
    } else {
        s
    }
}

/// Removes one trailing line feed from captured command output.
pub fn trim_trailing_newline(s: &str) -> (r: String)
    ensures
        r@ == trim_newline(s@),
{
    let n: usize = s.unicode_len();
    if n > 0 && s.get_char(n - 1) == '\n' {
        let cut: &str = s.substring_char(0, n - 1);
        assert(s@.subrange(0, n - 1) =~= s@.drop_last());
        cut.to_owned()
    } else {
        s.to_owned()
    }
}

/// Splits `key=value` at the first `=`.
pub fn parse_override(s: &str) -> (r: Option<(String, String)>)
    ensures
        match r {
            Some(kv) => split_override(s@) == Some((kv.0@, kv.1@)),
            None => split_override(s@) is None,
        },
{
    let n: usize = s.unicode_len();
    let mut i: usize = 0;
    while i < n
        invariant
            n == s@.len(),
            i <= n,
            first_equals(s@, 0) == first_equals(s@, i as int),
        decreases n - i,
    {
        if s.get_char(i) == '=' {
            let key: String = s.substring_char(0, i).to_owned();
            let value: String = s.substring_char(i + 1, n).to_owned();
            assert(s@.subrange(0, i as int) =~= s@.take(i as int));
            assert(s@.subrange(i + 1, n as int) =~= s@.skip(i + 1));
            return Some((key, value));
        }
        i = i + 1;
    }
    None
}

/// The value of a decimal digit.
pub open spec fn digit_value(c: char) -> Option<int> {
    if c == '0' {
        Some(0)
    } else if c == '1' {
        Some(1)
    } else if c == '2' {
        Some(2)
    } else if c == '3' {
        Some(3)
    } else if c == '4' {
        Some(4)
    } else if c == '5' {
        Some(5)
    } else if c == '6' {
        Some(6)
    } else if c == '7' {
        Some(7)
    } else if c == '8' {
        Some(8)
    } else if c == '9' {
        Some(9)
    } else {
        None
    }
}

/// The number that a sequence of decimal digits writes; `None` where a
/// character is no digit. The empty sequence writes 0.
pub open spec fn decimal(s: Seq<char>) -> Option<int>
    decreases s.len(),
{
    if s.len() == 0 {
        Some(0)
    } else {
        match (decimal(s.drop_last()), digit_value(s.last())) {
            (Some(n), Some(d)) => Some(n * 10 + d),
            _ => None,
        }
    }
}

/// The entry of a list of `count` entries, numbered from 1, that a line of
/// input picks: its index, from 0. `None` where the line is no number of an
/// entry.
pub open spec fn choice_of(line: Seq<char>, count: int) -> Option<int> {
    match decimal(line) {
        Some(n) => if line.len() > 0 && 1 <= n <= count {
            Some(n - 1)
        } else {
            None
        },
        None => None,
    }
}

/// A number only grows with more digits, and what is no number stays none.
pub proof fn lemma_decimal_prefix(s: Seq<char>, n: int)
    requires
        0 <= n <= s.len(),
    ensures
        decimal(s.take(n)) is None ==> decimal(s) is None,
        decimal(s) matches Some(whole) ==> decimal(s.take(n)) matches Some(part) && 0 <= part
            <= whole,
    decreases s.len() - n,
{
    if n < s.len() {
        assert(s.take(n + 1).drop_last() =~= s.take(n));
        lemma_decimal_prefix(s, n + 1);
    } else {
        assert(s.take(n) =~= s);
        lemma_decimal_natural(s);
    }
}

/// A number written in digits is not negative.
pub proof fn lemma_decimal_natural(s: Seq<char>)
    ensures
        decimal(s) matches Some(n) ==> 0 <= n,
    decreases s.len(),
{
    if s.len() > 0 {
        lemma_decimal_natural(s.drop_last());
    }
}

fn digit_of(c: char) -> (r: Option<u8>)
    ensures
        match r {
            Some(d) => digit_value(c) == Some(d as int) && d <= 9,
            None => digit_value(c) is None,
        },
{
    match c {
        '0' => Some(0),
        '1' => Some(1),
        '2' => Some(2),
        '3' => Some(3),
        '4' => Some(4),
        '5' => Some(5),
        '6' => Some(6),
        '7' => Some(7),
        '8' => Some(8),
        '9' => Some(9),
        _ => None,
    }
}

/// Reads the number of an entry, counted from 1, from a line of input.
pub fn parse_choice(line: &str, count: usize) -> (r: Option<usize>)
    ensures
        match r {
            Some(i) => choice_of(line@, count as int) == Some(i as int),
            None => choice_of(line@, count as int) is None,
        },
{
    let n: usize = line.unicode_len();
    if n == 0 {
        return None;
    }
    let mut number: usize = 0;
    let mut i: usize = 0;
    assert(line@.take(0) =~= Seq::empty());
    while i < n
        invariant
            n == line@.len(),
            i <= n,
            decimal(line@.take(i as int)) == Some(number as int),
            number <= count,
        decreases n - i,
    {
        assert(line@.take(i + 1).drop_last() =~= line@.take(i as int));
        proof {
            lemma_decimal_prefix(line@, i + 1);
        }
        match digit_of(line.get_char(i)) {
            None => {
                return None;
            },
            Some(d) => {
                let digit: usize = d as usize;
                if digit > count || number > (count - digit) / 10 {
                    return None;
                }
                number = number * 10 + digit;
            },
        }
        i = i + 1;
    }
    assert(line@.take(n as int) =~= line@);
    if number >= 1 {
        Some(number - 1)
    } else {
        None
    }
}

/// What `split_override` finds: the key holds no `=`, and key, `=` and value
/// together are the input.
pub proof fn lemma_split_override(s: Seq<char>)
    ensures
        match split_override(s) {
            Some(kv) => s == kv.0 + seq!['='] + kv.1 && !kv.0.contains('='),
            None => !s.contains('='),
        },
{
    lemma_first_equals(s, 0);
    let i = first_equals(s, 0);
    if i < s.len() {
        assert(s =~= s.take(i) + seq!['='] + s.skip(i + 1));
        assert(!s.take(i).contains('=')) by {
            if s.take(i).contains('=') {
                let j = choose|j: int| 0 <= j < s.take(i).len() && s.take(i)[j] == '=';
                assert(s[j] == '=');
            }
        }
    } else {
        if s.contains('=') {
            let j = choose|j: int| 0 <= j < s.len() && s[j] == '=';
            assert(s[j] == '=');
        }
    }
}

proof fn lemma_first_equals(s: Seq<char>, from: int)
    requires
        0 <= from <= s.len(),
    ensures
        from <= first_equals(s, from) <= s.len(),
        first_equals(s, from) < s.len() ==> s[first_equals(s, from)] == '=',
        forall|j: int| from <= j < first_equals(s, from) ==> s[j] != '=',
    decreases s.len() - from,
{
    if from < s.len() && s[from] != '=' {
        lemma_first_equals(s, from + 1);
    }
}

} // verus!
