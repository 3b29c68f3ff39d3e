//! Text helpers whose contracts are stated over sequences of characters.

use vstd::prelude::*;

verus! {

/// Whether `c` is white space: one of the 25 characters that have the
/// Unicode property White_Space, the property that `char::is_whitespace`
/// tests.
pub open spec fn white_space(c: char) -> bool {
    let n = c as u32;
    ||| 0x09 <= n <= 0x0d
    ||| n == 0x20
    ||| n == 0x85
    ||| n == 0xa0
    ||| n == 0x1680
    ||| 0x2000 <= n <= 0x200a
    ||| n == 0x2028
    ||| n == 0x2029
    ||| n == 0x202f
    ||| n == 0x205f
    ||| n == 0x3000
}

/// Whether `c` is white space.
pub fn is_space(c: char) -> (r: bool)
    ensures
        r == white_space(c),
{
    let n = c as u32;
    (0x09 <= n && n <= 0x0d) || n == 0x20 || n == 0x85 || n == 0xa0 || n == 0x1680 || (0x2000 <= n
        && n <= 0x200a) || n == 0x2028 || n == 0x2029 || n == 0x202f || n == 0x205f || n == 0x3000
}

/// `s` without the run of `c` that it starts with.
pub open spec fn without_leading(s: Seq<char>, c: char) -> Seq<char>
    decreases s.len(),
{
    if s.len() > 0 && s[0] == c {
        without_leading(s.skip(1), c)
    } else {
        s
    }
}

/// How many white-space characters `s` starts with.
pub open spec fn leading_spaces(s: Seq<char>) -> nat
    decreases s.len(),
{
    if s.len() > 0 && white_space(s[0]) {
        1 + leading_spaces(s.skip(1))
    } else {
        0
    }
}

/// How many white-space characters `s` ends with.
pub open spec fn trailing_spaces(s: Seq<char>) -> nat
    decreases s.len(),
{
    if s.len() > 0 && white_space(s.last()) {
        1 + trailing_spaces(s.drop_last())
    } else {
        0
    }
}

/// `s` without the white space that it starts with.
pub open spec fn trimmed_start(s: Seq<char>) -> Seq<char> {
    s.skip(leading_spaces(s) as int)
}

/// `s` without the white space at either end.
pub open spec fn trimmed(s: Seq<char>) -> Seq<char> {
    if leading_spaces(s) + trailing_spaces(s) >= s.len() {
        Seq::empty()
    } else {
        s.subrange(leading_spaces(s) as int, s.len() - trailing_spaces(s))
    }
}

/// A count `k` is the number of leading white-space characters as soon as the
/// first `k` characters are white space and the next one, if any, is not.
pub proof fn lemma_leading_spaces(s: Seq<char>, k: int)
    requires
        0 <= k <= s.len(),
        forall|i: int| 0 <= i < k ==> white_space(#[trigger] s[i]),
        k < s.len() ==> !white_space(s[k]),
    ensures
        leading_spaces(s) == k,
    decreases k,
{
    if k > 0 {
        let rest = s.skip(1);
        assert forall|i: int| 0 <= i < k - 1 implies white_space(#[trigger] rest[i]) by {
            assert(rest[i] == s[i + 1]);
        }
        lemma_leading_spaces(rest, k - 1);
    }
}

/// A count `k` is the number of trailing white-space characters as soon as the
/// last `k` characters are white space and the one before them, if any, is not.
pub proof fn lemma_trailing_spaces(s: Seq<char>, k: int)
    requires
        0 <= k <= s.len(),
        forall|i: int| s.len() - k <= i < s.len() ==> white_space(#[trigger] s[i]),
        k < s.len() ==> !white_space(s[s.len() - k - 1]),
    ensures
        trailing_spaces(s) == k,
    decreases k,
{
    if k > 0 {
        let rest = s.drop_last();
        assert forall|i: int| rest.len() - (k - 1) <= i < rest.len() implies white_space(
            #[trigger] rest[i],
        ) by {
            assert(rest[i] == s[i]);
        }
        lemma_trailing_spaces(rest, k - 1);
    }
}

/// Whether the two strings hold the same characters.
pub fn same_text(a: &str, b: &str) -> (r: bool)
    ensures
        r == (a@ == b@),
{
    let n = a.unicode_len();
    if b.unicode_len() != n {
        return false;
    }
    let mut i: usize = 0;
    while i < n
        invariant
            i <= n,
            n == a@.len(),
            n == b@.len(),
            a@.take(i as int) == b@.take(i as int),
        decreases n - i,
    {
        if a.get_char(i) != b.get_char(i) {
            assert(a@[i as int] != b@[i as int]);
            return false;
        }
        assert(a@.take(i + 1) == a@.take(i as int).push(a@[i as int]));
        assert(b@.take(i + 1) == b@.take(i as int).push(b@[i as int]));
        i += 1;
    }
    assert(a@ == a@.take(n as int));
    assert(b@ == b@.take(n as int));
    true
}

/// Whether `s` begins with the characters of `prefix`.
pub fn has_prefix(s: &str, prefix: &str) -> (r: bool)
    ensures
        r == prefix@.is_prefix_of(s@),
{
    let n = prefix.unicode_len();
    if s.unicode_len() < n {
        return false;
    }
    let mut i: usize = 0;
    while i < n
        invariant
            i <= n,
            n == prefix@.len(),
            n <= s@.len(),
            s@.take(i as int) == prefix@.take(i as int),
        decreases n - i,
    {
        if s.get_char(i) != prefix.get_char(i) {
            assert(s@.subrange(0, n as int)[i as int] != prefix@[i as int]);
            return false;
        }
        assert(s@.take(i + 1) == s@.take(i as int).push(s@[i as int]));
        assert(prefix@.take(i + 1) == prefix@.take(i as int).push(prefix@[i as int]));
        i += 1;
    }
    assert(prefix@ == prefix@.take(n as int));
    true
}

/// Whether the last character of `s` is `c`.
pub fn ends_with_char(s: &str, c: char) -> (r: bool)
    ensures
        r == (s@.len() > 0 && s@.last() == c),
{
    let n = s.unicode_len();
    n > 0 && s.get_char(n - 1) == c
}

/// The rest of `s` after the run of `c` that it starts with.
pub fn strip_leading<'a>(s: &'a str, c: char) -> (r: &'a str)
    ensures
        r@ == without_leading(s@, c),
{
    let n = s.unicode_len();
    let mut k: usize = 0;
    let mut leading = true;
    assert(s@.skip(0) == s@);
    for ch in it: s.chars()
        invariant
            it.seq() == s@,
            n == s@.len(),
            k <= it.index(),
            leading ==> k == it.index(),
            without_leading(s@, c) == if leading {
                without_leading(s@.skip(k as int), c)
            } else {
                s@.skip(k as int)
            },
    {
        if leading {
            if ch == c {
                assert(s@.skip(k as int).skip(1) == s@.skip(k + 1));
                k += 1;
            } else {
                leading = false;
            }
        }
    }
    s.substring_char(k, n)
}

/// The rest of `s` after the white space that it starts with.
pub fn trim_start<'a>(s: &'a str) -> (r: &'a str)
    ensures
        r@ == trimmed_start(s@),
{
    let n = s.unicode_len();
    let mut k: usize = 0;
    let mut leading = true;
    for ch in it: s.chars()
        invariant
            it.seq() == s@,
            n == s@.len(),
            k <= it.index(),
            leading ==> k == it.index(),
            forall|i: int| 0 <= i < k ==> white_space(#[trigger] s@[i]),
            !leading ==> k < s@.len() && !white_space(s@[k as int]),
    {
        if leading {
            if is_space(ch) {
                k += 1;
            } else {
                leading = false;
            }
        }
    }
    proof {
        lemma_leading_spaces(s@, k as int);
    }
    s.substring_char(k, n)
}

/// `s` between the white space at its two ends.
pub fn trim<'a>(s: &'a str) -> (r: &'a str)
    ensures
        r@ == trimmed(s@),
{
    let n = s.unicode_len();
    let mut k: usize = 0;
    let mut end: usize = 0;
    let mut leading = true;
    let mut seen: usize = 0;
    for ch in it: s.chars()
        invariant
            it.seq() == s@,
            n == s@.len(),
            seen == it.index(),
            k <= seen,
            end <= seen,
            leading ==> k == seen && end == 0,
            forall|i: int| 0 <= i < k ==> white_space(#[trigger] s@[i]),
            !leading ==> k < end && !white_space(s@[k as int]),
            end > 0 ==> !white_space(s@[end - 1]),
            forall|i: int| end <= i < seen ==> white_space(#[trigger] s@[i]),
    {
        if is_space(ch) {
            if leading {
                k += 1;
            }
        } else {
            leading = false;
            end = seen + 1;
        }
        seen += 1;
    }
    proof {
        lemma_leading_spaces(s@, k as int);
        lemma_trailing_spaces(s@, n - end);
    }
    if leading {
        s.substring_char(0, 0)
    } else {
        s.substring_char(k, end)
    }
}

} // verus!
