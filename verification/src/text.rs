//! Operations on strings, stated over their sequences of characters.

use vstd::prelude::*;
use vstd::string::*;

verus! {

/// `s` without the leading run of `c`.
pub open spec fn skip_leading(s: Seq<char>, c: char) -> Seq<char>
    decreases s.len(),
{
    if s.len() > 0 && s[0] == c {
        skip_leading(s.drop_first(), c)
    } else {
        s
    }
}

/// `s` without the trailing run of `c`.
pub open spec fn skip_trailing(s: Seq<char>, c: char) -> Seq<char>
    decreases s.len(),
{
    if s.len() > 0 && s.last() == c {
        skip_trailing(s.drop_last(), c)
    } else {
        s
    }
}

/// `s` without the runs of `c` at both of its ends.
pub open spec fn trimmed(s: Seq<char>, c: char) -> Seq<char> {
    skip_trailing(skip_leading(s, c), c)
}

/// The number of characters at the start of `s` that differ from `sep`.
pub open spec fn prefix_len(s: Seq<char>, sep: char) -> nat
    decreases s.len(),
{
    if s.len() == 0 || s[0] == sep {
        0
    } else {
        1 + prefix_len(s.drop_first(), sep)
    }
}

/// The number of characters at the end of `s` that differ from `sep`.
pub open spec fn suffix_len(s: Seq<char>, sep: char) -> nat
    decreases s.len(),
{
    if s.len() == 0 || s.last() == sep {
        0
    } else {
        1 + suffix_len(s.drop_last(), sep)
    }
}

/// What stands in `s` before the first `sep`: all of `s` where it holds none.
pub open spec fn first_segment(s: Seq<char>, sep: char) -> Seq<char> {
    s.take(prefix_len(s, sep) as int)
}

/// What stands in `s` behind the last `sep`: all of `s` where it holds none.
pub open spec fn last_segment(s: Seq<char>, sep: char) -> Seq<char> {
    s.skip(s.len() - suffix_len(s, sep))
}

/// The characters counted at the start of `s` differ from `sep`, and `sep`
/// follows them unless they are all of `s`.
pub proof fn lemma_prefix_len(s: Seq<char>, sep: char)
    ensures
        prefix_len(s, sep) <= s.len(),
        forall|i: int| 0 <= i < prefix_len(s, sep) ==> s[i] != sep,
        prefix_len(s, sep) < s.len() ==> s[prefix_len(s, sep) as int] == sep,
    decreases s.len(),
{
    if s.len() > 0 && s[0] != sep {
        let rest = s.drop_first();
        lemma_prefix_len(rest, sep);
        assert forall|i: int| 0 <= i < prefix_len(s, sep) implies s[i] != sep by {
            if i > 0 {
                assert(s[i] == rest[i - 1]);
            }
        }
        if prefix_len(s, sep) < s.len() {
            assert(s[prefix_len(s, sep) as int] == rest[prefix_len(rest, sep) as int]);
        }
    }
}

/// The characters counted at the end of `s` differ from `sep`, and `sep`
/// stands before them unless they are all of `s`.
pub proof fn lemma_suffix_len(s: Seq<char>, sep: char)
    ensures
        suffix_len(s, sep) <= s.len(),
        forall|i: int| s.len() - suffix_len(s, sep) <= i < s.len() ==> s[i] != sep,
        suffix_len(s, sep) < s.len() ==> s[s.len() - suffix_len(s, sep) - 1] == sep,
    decreases s.len(),
{
    if s.len() > 0 && s.last() != sep {
        let rest = s.drop_last();
        lemma_suffix_len(rest, sep);
        assert forall|i: int| s.len() - suffix_len(s, sep) <= i < s.len() implies s[i]
            != sep by {
            if i < rest.len() {
                assert(s[i] == rest[i]);
            }
        }
        if suffix_len(s, sep) < s.len() {
            assert(s[s.len() - suffix_len(s, sep) - 1] == rest[rest.len() - suffix_len(
                rest,
                sep,
            ) - 1]);
        }
    }
}

/// The first segment is the longest start of `s` that holds no `sep`.
pub proof fn lemma_first_segment(s: Seq<char>, sep: char)
    ensures
        first_segment(s, sep).is_prefix_of(s),
        !first_segment(s, sep).contains(sep),
        first_segment(s, sep).len() < s.len() ==> s[first_segment(s, sep).len() as int] == sep,
{
    lemma_prefix_len(s, sep);
}

/// The last segment is the longest end of `s` that holds no `sep`.
pub proof fn lemma_last_segment(s: Seq<char>, sep: char)
    ensures
        last_segment(s, sep).is_suffix_of(s),
        !last_segment(s, sep).contains(sep),
        last_segment(s, sep).len() < s.len() ==> s[s.len() - last_segment(s, sep).len() - 1]
            == sep,
{
    lemma_suffix_len(s, sep);
    let n = suffix_len(s, sep);
    assert(last_segment(s, sep) == s.subrange(s.len() - n, s.len() as int));
    assert(last_segment(s, sep) == s.skip(s.len() - last_segment(s, sep).len()));
}

/// What is left of `s` without its leading `c` stands at the end of `s`,
/// does not start with `c`, and what was taken off is `c` throughout.
pub proof fn lemma_skip_leading(s: Seq<char>, c: char)
    ensures
        skip_leading(s, c).len() <= s.len(),
        skip_leading(s, c) == s.skip(s.len() - skip_leading(s, c).len()),
        skip_leading(s, c).len() > 0 ==> skip_leading(s, c)[0] != c,
        forall|i: int| 0 <= i < s.len() - skip_leading(s, c).len() ==> s[i] == c,
    decreases s.len(),
{
    if s.len() > 0 && s[0] == c {
        let rest = s.drop_first();
        lemma_skip_leading(rest, c);
        let kept = skip_leading(rest, c);
        assert(rest.skip(rest.len() - kept.len()) == s.skip(s.len() - kept.len()));
        assert forall|i: int| 0 <= i < s.len() - kept.len() implies s[i] == c by {
            if i > 0 {
                assert(s[i] == rest[i - 1]);
            }
        }
    } else {
        assert(s.skip(0) == s);
    }
}

/// What is left of `s` without its trailing `c` stands at the start of
/// `s`, does not end with `c`, and what was taken off is `c` throughout.
pub proof fn lemma_skip_trailing(s: Seq<char>, c: char)
    ensures
        skip_trailing(s, c).len() <= s.len(),
        skip_trailing(s, c) == s.take(skip_trailing(s, c).len() as int),
        skip_trailing(s, c).len() > 0 ==> skip_trailing(s, c).last() != c,
        forall|i: int| skip_trailing(s, c).len() <= i < s.len() ==> s[i] == c,
    decreases s.len(),
{
    if s.len() > 0 && s.last() == c {
        let rest = s.drop_last();
        lemma_skip_trailing(rest, c);
        let kept = skip_trailing(rest, c);
        assert(rest.take(kept.len() as int) == s.take(kept.len() as int));
        assert forall|i: int| kept.len() <= i < s.len() implies s[i] == c by {
            if i < rest.len() {
                assert(s[i] == rest[i]);
            }
        }
    } else {
        assert(s.take(s.len() as int) == s);
    }
}

/// A trimmed text neither starts nor ends with the character that was
/// trimmed.
pub proof fn lemma_trimmed(s: Seq<char>, c: char)
    ensures
        trimmed(s, c).len() <= s.len(),
        trimmed(s, c).len() > 0 ==> trimmed(s, c)[0] != c && trimmed(s, c).last() != c,
{
    let inner = skip_leading(s, c);
    lemma_skip_leading(s, c);
    lemma_skip_trailing(inner, c);
    if trimmed(s, c).len() > 0 {
        assert(trimmed(s, c)[0] == inner.take(trimmed(s, c).len() as int)[0]);
    }
}

/// The first and the last segment of a text that is not empty and was
/// trimmed of the separator are not empty.
pub proof fn lemma_segments_of_trimmed(s: Seq<char>, sep: char)
    requires
        trimmed(s, sep).len() > 0,
    ensures
        first_segment(trimmed(s, sep), sep).len() > 0,
        last_segment(trimmed(s, sep), sep).len() > 0,
{
    lemma_trimmed(s, sep);
    lemma_prefix_len(trimmed(s, sep), sep);
    lemma_suffix_len(trimmed(s, sep), sep);
}

/// What an optional string holds, as characters.
pub open spec fn text_view(o: Option<String>) -> Option<Seq<char>> {
    match o {
        Some(s) => Some(s@),
        None => None,
    }
}

/// Whether two strings hold the same characters.
pub fn str_eq(a: &str, b: &str) -> (same: bool)
    ensures
        same == (a@ == b@),
{
    let x = chars_of(a);
    let y = chars_of(b);
    let n = x.len();
    if n != y.len() {
        return false;
    }
    let mut i: usize = 0;
    while i < n
        invariant
            x@ == a@,
            y@ == b@,
            n == x@.len(),
            n == y@.len(),
            i <= n,
            x@.take(i as int) == y@.take(i as int),
        decreases n - i,
    {
        if x[i] != y[i] {
            return false;
        }
        assert(x@.take(i + 1) == x@.take(i as int).push(x@[i as int]));
        assert(y@.take(i + 1) == y@.take(i as int).push(y@[i as int]));
        i = i + 1;
    }
    assert(x@ == x@.take(n as int));
    assert(y@ == y@.take(n as int));
    true
}

/// A copy of an optional string.
pub fn copy_text(o: &Option<String>) -> (out: Option<String>)
    ensures
        out == *o,
{
    match o {
        Some(s) => Some(s.clone()),
        None => None,
    }
}

/// The characters of `s`, in order.
pub fn chars_of(s: &str) -> (out: Vec<char>)
    ensures
        out@ == s@,
{
    let mut out: Vec<char> = Vec::new();
    for c in it: s.chars()
        invariant
            out@ == it.seq().take(it.index() as int),
            it.seq() == s@,
    {
        out.push(c);
    }
    out
}

/// `s` without the characters `c` at its start and at its end.
pub fn trim_matches(s: &str, c: char) -> (out: String)
    ensures
        out@ == trimmed(s@, c),
{
    let chars = chars_of(s);
    let n = chars.len();
    let mut start: usize = 0;
    assert(s@.skip(0) == s@);
    while start < n && chars[start as usize] == c
        invariant
            chars@ == s@,
            n == s@.len(),
            start <= n,
            skip_leading(s@, c) == skip_leading(s@.skip(start as int), c),
        decreases n - start,
    {
        assert(s@.skip(start as int).drop_first() == s@.skip(start + 1));
        start = start + 1;
    }
    let mut end: usize = n;
    assert(s@.skip(start as int) == s@.subrange(start as int, n as int));
    while end > start && chars[(end - 1) as usize] == c
        invariant
            chars@ == s@,
            n == s@.len(),
            start <= end <= n,
            skip_leading(s@, c) == s@.skip(start as int),
            trimmed(s@, c) == skip_trailing(s@.subrange(start as int, end as int), c),
        decreases end,
    {
        assert(s@.subrange(start as int, end as int).drop_last() == s@.subrange(
            start as int,
            end - 1,
        ));
        end = end - 1;
    }
    s.substring_char(start, end).to_owned()
}

/// What stands in `s` before the first `sep`.
pub fn first_segment_of(s: &str, sep: char) -> (out: String)
    ensures
        out@ == first_segment(s@, sep),
{
    let chars = chars_of(s);
    let n = chars.len();
    let mut i: usize = 0;
    assert(s@.skip(0) == s@);
    while i < n && chars[i as usize] != sep
        invariant
            chars@ == s@,
            n == s@.len(),
            i <= n,
            prefix_len(s@, sep) == i + prefix_len(s@.skip(i as int), sep),
        decreases n - i,
    {
        assert(s@.skip(i as int).drop_first() == s@.skip(i + 1));
        i = i + 1;
    }
    s.substring_char(0, i).to_owned()
}

/// What stands in `s` behind the last `sep`.
pub fn last_segment_of(s: &str, sep: char) -> (out: String)
    ensures
        out@ == last_segment(s@, sep),
{
    let chars = chars_of(s);
    let n = chars.len();
    let mut j: usize = n;
    assert(s@.take(n as int) == s@);
    while j > 0 && chars[(j - 1) as usize] != sep
        invariant
            chars@ == s@,
            n == s@.len(),
            j <= n,
            suffix_len(s@, sep) == (n - j) + suffix_len(s@.take(j as int), sep),
        decreases j,
    {
        assert(s@.take(j as int).drop_last() == s@.take(j - 1));
        j = j - 1;
    }
    s.substring_char(j, n).to_owned()
}

/// How often `c` occurs in `s`.
pub open spec fn count_of(s: Seq<char>, c: char) -> nat
    decreases s.len(),
{
    if s.len() == 0 {
        0
    } else {
        count_of(s.drop_last(), c) + if s.last() == c {
            1nat
        } else {
            0nat
        }
    }
}

/// A text that does not hold a character counts none of it.
pub proof fn lemma_count_of_absent(s: Seq<char>, c: char)
    requires
        !s.contains(c),
    ensures
        count_of(s, c) == 0,
    decreases s.len(),
{
    if s.len() > 0 {
        assert(s.contains(s.last()));
        assert forall|i: int| 0 <= i < s.drop_last().len() implies s.drop_last()[i] != c by {
            assert(s.contains(s[i]));
        }
        lemma_count_of_absent(s.drop_last(), c);
    }
}

/// A text counts what its two parts count.
pub proof fn lemma_count_of_parts(a: Seq<char>, b: Seq<char>, c: char)
    ensures
        count_of(a + b, c) == count_of(a, c) + count_of(b, c),
    decreases b.len(),
{
    if b.len() == 0 {
        assert(a + b == a);
    } else {
        assert((a + b).drop_last() == a + b.drop_last());
        lemma_count_of_parts(a, b.drop_last(), c);
    }
}

/// How often `c` occurs in `s`.
pub fn count_char(s: &str, c: char) -> (out: usize)
    ensures
        out == count_of(s@, c),
{
    let chars = chars_of(s);
    let mut count: usize = 0;
    let mut i: usize = 0;
    assert(s@.take(0) == Seq::<char>::empty());
    while i < chars.len()
        invariant
            chars@ == s@,
            i <= chars.len(),
            count <= i,
            count == count_of(s@.take(i as int), c),
        decreases chars.len() - i,
    {
        assert(s@.take(i + 1).drop_last() == s@.take(i as int));
        if chars[i] == c {
            count = count + 1;
        }
        i = i + 1;
    }
    assert(s@.take(chars.len() as int) == s@);
    count
}

/// What stands in `s` behind `prefix`, where `s` starts with it.
pub fn strip_prefix(s: &str, prefix: &str) -> (out: Option<String>)
    ensures
        out matches Some(rest) ==> prefix@.is_prefix_of(s@) && rest@ == s@.skip(
            prefix@.len() as int,
        ),
        out is None ==> !prefix@.is_prefix_of(s@),
{
    let chars = chars_of(s);
    let wanted = chars_of(prefix);
    let n = wanted.len();
    if chars.len() < n {
        return None;
    }
    let mut i: usize = 0;
    while i < n
        invariant
            chars@ == s@,
            wanted@ == prefix@,
            n == wanted.len(),
            n <= chars.len(),
            i <= n,
            forall|k: int| 0 <= k < i ==> s@[k] == prefix@[k],
        decreases n - i,
    {
        if chars[i] != wanted[i] {
            return None;
        }
        i = i + 1;
    }
    assert(prefix@ == s@.subrange(0, n as int));
    Some(s.substring_char(n, chars.len()).to_owned())
}

/// The value of a decimal digit.
pub open spec fn digit_of(c: char) -> Option<int> {
    if '0' <= c && c <= '9' {
        Some(c as int - '0' as int)
    } else {
        None
    }
}

/// The number that a run of decimal digits writes: nothing where a
/// character is no digit.
pub open spec fn digits_of(s: Seq<char>) -> Option<int>
    decreases s.len(),
{
    if s.len() == 0 {
        Some(0)
    } else {
        match (digits_of(s.drop_last()), digit_of(s.last())) {
            (Some(high), Some(low)) => Some(high * 10 + low),
            _ => None,
        }
    }
}

/// The integer that a text writes in decimal: a sign `+` or `-` where
/// there is one, and then one digit or more.
pub open spec fn decimal_of(s: Seq<char>) -> Option<int> {
    if s.len() > 0 && (s[0] == '+' || s[0] == '-') {
        match digits_of(s.drop_first()) {
            Some(value) => if s.len() == 1 {
                None
            } else if s[0] == '-' {
                Some(-value)
            } else {
                Some(value)
            },
            None => None,
        }
    } else if s.len() > 0 {
        digits_of(s)
    } else {
        None
    }
}

/// The `i32` that a text writes in decimal, where it writes one.
pub open spec fn i32_of(s: Seq<char>) -> Option<i32> {
    match decimal_of(s) {
        Some(value) => if i32::MIN <= value <= i32::MAX {
            Some(value as i32)
        } else {
            None
        },
        None => None,
    }
}

/// More digits do not make a number smaller.
pub proof fn lemma_digits_grow(s: Seq<char>, n: int)
    requires
        0 <= n <= s.len(),
        digits_of(s) is Some,
    ensures
        digits_of(s.take(n)) matches Some(head) && 0 <= head <= digits_of(s)->0,
    decreases s.len() - n,
{
    if n == s.len() {
        assert(s.take(n) == s);
        lemma_digits_not_negative(s);
    } else {
        lemma_digits_prefix(s, n + 1);
        lemma_digits_grow(s, n + 1);
        assert(s.take(n + 1).drop_last() == s.take(n));
        lemma_digits_not_negative(s.take(n));
    }
}

/// A run of digits writes no negative number.
pub proof fn lemma_digits_not_negative(s: Seq<char>)
    ensures
        digits_of(s) matches Some(value) ==> value >= 0,
    decreases s.len(),
{
    if s.len() > 0 {
        lemma_digits_not_negative(s.drop_last());
    }
}

/// Every start of a run of digits is a run of digits.
pub proof fn lemma_digits_prefix(s: Seq<char>, n: int)
    requires
        0 <= n <= s.len(),
        digits_of(s) is Some,
    ensures
        digits_of(s.take(n)) is Some,
    decreases s.len(),
{
    if n == s.len() {
        assert(s.take(n) == s);
    } else {
        lemma_digits_prefix(s.drop_last(), n);
        assert(s.drop_last().take(n) == s.take(n));
    }
}

/// Reads an `i32` written in decimal.
pub fn parse_i32(s: &str) -> (out: Option<i32>)
    ensures
        out == i32_of(s@),
{
    let chars = chars_of(s);
    let n = chars.len();
    if n == 0 {
        return None;
    }
    let negative = chars[0] == '-';
    let start: usize = if chars[0] == '+' || chars[0] == '-' {
        1
    } else {
        0
    };
    if start == n {
        assert(s@.drop_first() == Seq::<char>::empty());
        return None;
    }
    let ghost digits = s@.skip(start as int);
    assert(start == 1 ==> digits == s@.drop_first());
    assert(start == 0 ==> digits == s@);
    let mut value: i64 = 0;
    let mut i: usize = start;
    assert(digits.take(0) == Seq::<char>::empty());
    while i < n
        invariant
            chars@ == s@,
            n == s@.len(),
            start <= i <= n,
            start < n,
            start == 0 || start == 1,
            start == 1 <==> (s@[0] == '+' || s@[0] == '-'),
            start == 1 ==> digits == s@.drop_first(),
            start == 0 ==> digits == s@,
            digits == s@.skip(start as int),
            digits_of(digits.take(i - start)) == Some(value as int),
            0 <= value <= 0x8000_0000,
        decreases n - i,
    {
        let c = chars[i];
        assert(digits.take(i - start + 1).drop_last() == digits.take(i - start));
        assert(digits.take(i - start + 1).last() == c);
        if c < '0' || c > '9' {
            proof {
                if digits_of(digits) is Some {
                    lemma_digits_prefix(digits, i - start + 1);
                }
            }
            return None;
        }
        let low = (c as u32 - '0' as u32) as i64;
        value = value * 10 + low;
        if value > 0x8000_0000 {
            proof {
                if digits_of(digits) is Some {
                    lemma_digits_grow(digits, i - start + 1);
                }
            }
            return None;
        }
        i = i + 1;
    }
    assert(digits.take(n - start) == digits);
    if negative {
        Some((-value) as i32)
    } else if value > 0x7fff_ffff {
        None
    } else {
        Some(value as i32)
    }
}

} // verus!
