//! Small verified string utilities shared by the parsers: first occurrence
//! of a character, and decimal digit runs.

use vstd::prelude::*;

verus! {

/// Index of the first occurrence of `c` in `s` at or after `from`.
pub open spec fn find_char(s: Seq<char>, c: char, from: int) -> Option<int>
    decreases s.len() - from,
        when 0 <= from <= s.len()
{
    if from >= s.len() {
        None
    } else if s[from] == c {
        Some(from)
    } else {
        find_char(s, c, from + 1)
    }
}

/// What `find_char` returns is an occurrence, and the first one.
pub proof fn lemma_find_char(s: Seq<char>, c: char, from: int)
    requires
        0 <= from <= s.len(),
    ensures
        match find_char(s, c, from) {
            Some(i) => from <= i < s.len() && s[i] == c && forall|k: int|
                from <= k < i ==> s[k] != c,
            None => forall|k: int| from <= k < s.len() ==> s[k] != c,
        },
    decreases s.len() - from,
{
    if from < s.len() && s[from] != c {
        lemma_find_char(s, c, from + 1);
    }
}

/// A decimal digit.
pub open spec fn is_digit(c: char) -> bool {
    '0' <= c && c <= '9'
}

/// The value of a decimal digit.
pub open spec fn digit_val(c: char) -> int {
    c as int - '0' as int
}

/// Whether `s[from..to)` consists of decimal digits only.
pub open spec fn all_digits(s: Seq<char>, from: int, to: int) -> bool {
    forall|k: int| from <= k < to ==> is_digit(#[trigger] s[k])
}

/// The number written in decimal as `s[from..to)`.
pub open spec fn digits_val(s: Seq<char>, from: int, to: int) -> int
    decreases to - from,
{
    if to <= from {
        0
    } else {
        digits_val(s, from, to - 1) * 10 + digit_val(s[to - 1])
    }
}

pub proof fn lemma_digits_val_nonneg(s: Seq<char>, from: int, to: int)
    requires
        all_digits(s, from, to),
    ensures
        digits_val(s, from, to) >= 0,
    decreases to - from,
{
    if to > from {
        lemma_digits_val_nonneg(s, from, to - 1);
    }
}

/// A longer digit run never has a smaller value: appending digits cannot
/// shrink the number.
pub proof fn lemma_digits_val_monotone(s: Seq<char>, from: int, mid: int, to: int)
    requires
        from <= mid <= to,
        all_digits(s, from, to),
    ensures
        digits_val(s, from, to) >= digits_val(s, from, mid),
    decreases to - mid,
{
    if mid < to {
        lemma_digits_val_nonneg(s, from, mid);
        lemma_digits_val_monotone(s, from, mid + 1, to);
    }
}

/// Index of the first occurrence of `c` in `s` at or after `from`, as
/// `find_char` names it.
pub fn find_char_at(s: &str, c: char, from: usize) -> (r: Option<usize>)
    requires
        from <= s@.len(),
    ensures
        match r {
            Some(i) => Some(i as int) == find_char(s@, c, from as int),
            None => find_char(s@, c, from as int) is None,
        },
{
    let n = s.unicode_len();
    let mut i = from;
    while i < n
        invariant
            from <= i <= n,
            n == s@.len(),
            find_char(s@, c, from as int) == find_char(s@, c, i as int),
        decreases n - i,
    {
        if s.get_char(i) == c {
            return Some(i);
        }
        i = i + 1;
    }
    None
}

/// Parse `s[from..to)` as a decimal `u64`: every character must be a digit
/// and the value must fit, exactly as the standard parse accepts it.
pub fn parse_u64_digits(s: &str, from: usize, to: usize) -> (r: Option<u64>)
    requires
        from < to <= s@.len(),
    ensures
        r is Some <==> all_digits(s@, from as int, to as int) && digits_val(
            s@,
            from as int,
            to as int,
        ) <= u64::MAX,
        r matches Some(v) ==> v == digits_val(s@, from as int, to as int),
{
    let mut acc: u64 = 0;
    let mut k = from;
    while k < to
        invariant
            from <= k <= to <= s@.len(),
            all_digits(s@, from as int, k as int),
            acc == digits_val(s@, from as int, k as int),
        decreases to - k,
    {
        let c = s.get_char(k);
        if !('0' <= c && c <= '9') {
            return None;
        }
        let d: u64 = (c as u32 - '0' as u32) as u64;
        if acc > (u64::MAX - d) / 10 {
            proof {
                assert(digits_val(s@, from as int, k as int + 1) == acc * 10 + d);
                assert(acc * 10 + d > u64::MAX) by (nonlinear_arith)
                    requires
                        acc > (u64::MAX - d) / 10,
                        0 <= d <= 9,
                ;
                if all_digits(s@, from as int, to as int) {
                    lemma_digits_val_monotone(s@, from as int, k as int + 1, to as int);
                }
            }
            return None;
        }
        proof {
            assert(acc * 10 + d <= u64::MAX) by (nonlinear_arith)
                requires
                    acc <= (u64::MAX - d) / 10,
                    0 <= d <= 9,
            ;
        }
        acc = acc * 10 + d;
        k = k + 1;
    }
    Some(acc)
}

} // verus!
