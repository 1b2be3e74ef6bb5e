use vstd::prelude::*;

verus! {

/// The code of `c` with ASCII upper-case letters mapped to lower case.
pub open spec fn fold_ascii(c: char) -> u32 {
    if 'A' <= c && c <= 'Z' {
        (c as u32 + 32) as u32
    } else {
        c as u32
    }
}

/// `a` and `b` are the same text up to the case of ASCII letters.
pub open spec fn same_ignoring_ascii_case(a: Seq<char>, b: Seq<char>) -> bool {
    &&& a.len() == b.len()
    &&& forall|i: int| 0 <= i < a.len() ==> #[trigger] fold_ascii(a[i]) == fold_ascii(b[i])
}

fn fold_char(c: char) -> (r: u32)
    ensures
        r == fold_ascii(c),
{
    if 'A' <= c && c <= 'Z' {
        c as u32 + 32
    } else {
        c as u32
    }
}

/// Compares two texts, treating ASCII letters of either case as equal.
pub fn eq_ignore_ascii_case(a: &str, b: &str) -> (r: bool)
    ensures
        r == same_ignoring_ascii_case(a@, b@),
{
    let n = a.unicode_len();
    if n != b.unicode_len() {
        return false;
    }
    let mut i: usize = 0;
    while i < n
        invariant
            n == a@.len(),
            n == b@.len(),
            i <= n,
            forall|j: int| 0 <= j < i ==> #[trigger] fold_ascii(a@[j]) == fold_ascii(b@[j]),
        decreases n - i,
    {
        if fold_char(a.get_char(i)) != fold_char(b.get_char(i)) {
            return false;
        }
        i = i + 1;
    }
    true
}

/// Exact comparison of two texts.
pub fn same_text(a: &str, b: &str) -> (r: bool)
    ensures
        r == (a@ == b@),
{
    String::from_str(a) == String::from_str(b)
}

/// A fresh copy of an optional text.
pub fn copy_optional(s: &Option<String>) -> (r: Option<String>)
    ensures
        r == *s,
{
    match s {
        Some(t) => Some(t.clone()),
        None => None,
    }
}

/// The text, or the empty text where there is none.
pub open spec fn text_or_empty(s: Option<String>) -> Seq<char> {
    match s {
        Some(t) => t@,
        None => Seq::empty(),
    }
}

/// `s` begins with `prefix`.
pub open spec fn starts_with(s: Seq<char>, prefix: Seq<char>) -> bool {
    prefix.len() <= s.len() && s.subrange(0, prefix.len() as int) == prefix
}

/// `part` occurs in `s` at position `i`.
pub open spec fn occurs_at(s: Seq<char>, part: Seq<char>, i: int) -> bool {
    0 <= i && i + part.len() <= s.len() && s.subrange(i, i + part.len()) == part
}

/// `part` occurs somewhere in `s`.
pub open spec fn contains(s: Seq<char>, part: Seq<char>) -> bool {
    exists|i: int| occurs_at(s, part, i)
}

fn matches_at(s: &str, part: &str, i: usize) -> (r: bool)
    requires
        i + part@.len() <= s@.len(),
    ensures
        r == occurs_at(s@, part@, i as int),
{
    let m = part.unicode_len();
    let n = s.unicode_len();
    let mut k: usize = 0;
    while k < m
        invariant
            m == part@.len(),
            n == s@.len(),
            i + m <= s@.len(),
            k <= m,
            forall|j: int| 0 <= j < k ==> s@[i + j] == part@[j],
        decreases m - k,
    {
        if s.get_char(i + k) != part.get_char(k) {
            assert(s@.subrange(i as int, i + m)[k as int] != part@[k as int]);
            return false;
        }
        k = k + 1;
    }
    assert(s@.subrange(i as int, i + m) =~= part@);
    true
}

/// Whether `s` begins with `prefix`.
pub fn text_starts_with(s: &str, prefix: &str) -> (r: bool)
    ensures
        r == starts_with(s@, prefix@),
{
    if prefix.unicode_len() > s.unicode_len() {
        return false;
    }
    matches_at(s, prefix, 0)
}

/// Whether `part` occurs in `s`.
pub fn text_contains(s: &str, part: &str) -> (r: bool)
    ensures
        r == contains(s@, part@),
{
    let n = s.unicode_len();
    let m = part.unicode_len();
    if m > n {
        return false;
    }
    if m == 0 {
        assert(s@.subrange(0, 0) =~= part@);
        assert(occurs_at(s@, part@, 0));
        return true;
    }
    let mut i: usize = 0;
    while i <= n - m
        invariant
            n == s@.len(),
            m == part@.len(),
            0 < m <= n,
            i <= n - m + 1,
            forall|j: int| 0 <= j < i ==> !occurs_at(s@, part@, j),
        decreases n - m + 1 - i,
    {
        if matches_at(s, part, i) {
            return true;
        }
        i = i + 1;
    }
    assert forall|j: int| !occurs_at(s@, part@, j) by {
        if 0 <= j && j + m <= n {
            assert(j < i);
        }
    }
    false
}

/// A decimal digit.
pub open spec fn is_digit(c: char) -> bool {
    '0' <= c && c <= '9'
}

/// A non-empty run of decimal digits.
pub open spec fn is_decimal(s: Seq<char>) -> bool {
    s.len() > 0 && forall|i: int| 0 <= i < s.len() ==> is_digit(#[trigger] s[i])
}

/// The number that a run of decimal digits denotes.
pub open spec fn decimal_value(s: Seq<char>) -> int
    decreases s.len(),
{
    if s.len() == 0 {
        0
    } else {
        decimal_value(s.drop_last()) * 10 + (s.last() as int - '0' as int)
    }
}

proof fn lemma_decimal_grows(s: Seq<char>, k: int)
    requires
        0 <= k <= s.len(),
        forall|i: int| 0 <= i < s.len() ==> is_digit(#[trigger] s[i]),
    ensures
        decimal_value(s.subrange(0, k)) <= decimal_value(s),
    decreases s.len() - k,
{
    if k < s.len() {
        let longer = s.subrange(0, k + 1);
        assert(longer.drop_last() =~= s.subrange(0, k));
        assert(is_digit(longer.last()));
        assert(decimal_value(s.subrange(0, k)) >= 0) by {
            lemma_decimal_nonnegative(s.subrange(0, k));
        }
        lemma_decimal_grows(s, k + 1);
    } else {
        assert(s.subrange(0, k) =~= s);
    }
}

proof fn lemma_decimal_nonnegative(s: Seq<char>)
    requires
        forall|i: int| 0 <= i < s.len() ==> is_digit(#[trigger] s[i]),
    ensures
        decimal_value(s) >= 0,
    decreases s.len(),
{
    if s.len() > 0 {
        assert(is_digit(s.last()));
        lemma_decimal_nonnegative(s.drop_last());
    }
}

/// The number written in decimal digits in `s`; none where `s` is empty,
/// holds anything but digits, or names a number beyond `u64::MAX`.
pub fn parse_decimal(s: &str) -> (r: Option<u64>)
    ensures
        r is Some <==> is_decimal(s@) && decimal_value(s@) <= u64::MAX,
        r matches Some(v) ==> v == decimal_value(s@),
{
    let n = s.unicode_len();
    if n == 0 {
        return None;
    }
    let mut value: u64 = 0;
    let mut i: usize = 0;
    while i < n
        invariant
            n == s@.len(),
            i <= n,
            forall|j: int| 0 <= j < i ==> is_digit(#[trigger] s@[j]),
            value == decimal_value(s@.subrange(0, i as int)),
        decreases n - i,
    {
        let c = s.get_char(i);
        if !('0' <= c && c <= '9') {
            return None;
        }
        let ghost next = s@.subrange(0, i + 1);
        assert(next.drop_last() =~= s@.subrange(0, i as int));
        let digit = (c as u32 - '0' as u32) as u64;
        match value.checked_mul(10) {
            Some(tens) => match tens.checked_add(digit) {
                Some(v) => {
                    value = v;
                },
                None => {
                    proof {
                        if is_decimal(s@) {
                            lemma_decimal_grows(s@, i + 1);
                        }
                    }
                    return None;
                },
            },
            None => {
                proof {
                    if is_decimal(s@) {
                        lemma_decimal_nonnegative(s@.subrange(0, i as int));
                        lemma_decimal_grows(s@, i + 1);
                    }
                }
                return None;
            },
        }
        i = i + 1;
    }
    assert(s@.subrange(0, n as int) =~= s@);
    Some(value)
}

} // verus!
