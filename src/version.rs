//! Reading the version line that `pwsh -v` prints, and the capability threshold.
use vstd::prelude::*;

verus! {

/// Unicode `White_Space`, the set that `char::is_whitespace` tests.
pub open spec fn is_white(c: char) -> bool {
    ||| ('\u{9}' <= c && c <= '\u{d}')
    ||| c == ' '
    ||| c == '\u{85}'
    ||| c == '\u{a0}'
    ||| c == '\u{1680}'
    ||| ('\u{2000}' <= c && c <= '\u{200a}')
    ||| c == '\u{2028}'
    ||| c == '\u{2029}'
    ||| c == '\u{202f}'
    ||| c == '\u{205f}'
    ||| c == '\u{3000}'
}

/// `s` without its leading white space.
pub open spec fn trim_start(s: Seq<char>) -> Seq<char>
    decreases s.len(),
{
    if s.len() > 0 && is_white(s[0]) {
        trim_start(s.drop_first())
    } else {
        s
    }
}

/// `s` without its trailing white space.
pub open spec fn trim_end(s: Seq<char>) -> Seq<char>
    decreases s.len(),
{
    if s.len() > 0 && is_white(s.last()) {
        trim_end(s.drop_last())
    } else {
        s
    }
}

/// `s` without white space at either end.
pub open spec fn trim(s: Seq<char>) -> Seq<char> {
    trim_end(trim_start(s))
}

/// The part of `s` after its last `c`; all of `s` when it holds no `c`.
pub open spec fn after_last(s: Seq<char>, c: char) -> Seq<char>
    decreases s.len(),
{
    if s.len() == 0 {
        s
    } else if s.last() == c {
        Seq::empty()
    } else {
        after_last(s.drop_last(), c).push(s.last())
    }
}

/// The part of `s` before its first `c`; all of `s` when it holds no `c`.
pub open spec fn before_first(s: Seq<char>, c: char) -> Seq<char>
    decreases s.len(),
{
    if s.len() == 0 {
        s
    } else if s[0] == c {
        Seq::empty()
    } else {
        seq![s[0]] + before_first(s.drop_first(), c)
    }
}

/// The part of `s` after its first `c`; empty when it holds no `c`.
pub open spec fn after_first(s: Seq<char>, c: char) -> Seq<char>
    decreases s.len(),
{
    if s.len() == 0 {
        s
    } else if s[0] == c {
        s.drop_first()
    } else {
        after_first(s.drop_first(), c)
    }
}

pub open spec fn is_digit(c: char) -> bool {
    '0' <= c && c <= '9'
}

pub open spec fn all_digits(s: Seq<char>) -> bool {
    forall|i: int| 0 <= i < s.len() ==> is_digit(#[trigger] s[i])
}

pub open spec fn digit_value(c: char) -> int {
    c as u32 as int - '0' as u32 as int
}

/// The value of a string of decimal digits.
pub open spec fn digits_value(s: Seq<char>) -> int
    decreases s.len(),
{
    if s.len() == 0 {
        0
    } else {
        digits_value(s.drop_last()) * 10 + digit_value(s.last())
    }
}

pub open spec fn fits_i32(v: int) -> bool {
    i32::MIN <= v <= i32::MAX
}

/// `s` without a leading sign.
pub open spec fn unsigned_part(s: Seq<char>) -> Seq<char> {
    if s.len() > 0 && (s[0] == '-' || s[0] == '+') {
        s.drop_first()
    } else {
        s
    }
}

/// What parsing `s` as an `i32` gives: an optional sign, one or more decimal
/// digits, and a value in range.
pub open spec fn parse_i32(s: Seq<char>) -> Option<int> {
    let negative = s.len() > 0 && s[0] == '-';
    let digits = unsigned_part(s);
    let v = if negative {
        -digits_value(digits)
    } else {
        digits_value(digits)
    };
    if digits.len() > 0 && all_digits(digits) && fits_i32(v) {
        Some(v)
    } else {
        None
    }
}

/// A version of at least 7.4 propagates native command errors.
pub open spec fn capable(major: int, minor: int) -> bool {
    major > 7 || (major == 7 && minor >= 4)
}

/// The version token: the last space-separated word of the trimmed output.
pub open spec fn version_token(out: Seq<char>) -> Seq<char> {
    after_last(trim(out), ' ')
}

/// What the version output says of capability: `None` when the token has no
/// major and minor component or either fails to parse as an `i32`.
pub open spec fn capability_of(out: Seq<char>) -> Option<bool> {
    let token = version_token(out);
    let major = parse_i32(before_first(token, '.'));
    let minor = parse_i32(before_first(after_first(token, '.'), '.'));
    if token.contains('.') && major is Some && minor is Some {
        Some(capable(major->0, minor->0))
    } else {
        None
    }
}

fn is_white_char(c: char) -> (r: bool)
    ensures
        r == is_white(c),
{
    ('\u{9}' <= c && c <= '\u{d}') || c == ' ' || c == '\u{85}' || c == '\u{a0}' || c
        == '\u{1680}' || ('\u{2000}' <= c && c <= '\u{200a}') || c == '\u{2028}' || c
        == '\u{2029}' || c == '\u{202f}' || c == '\u{205f}' || c == '\u{3000}'
}

/// Removes white space at both ends of `s`.
pub fn trim_white(s: &str) -> (r: &str)
    ensures
        r@ == trim(s@),
{
    let n = s.unicode_len();
    let mut i: usize = 0;
    assert(s@.subrange(0, n as int) =~= s@);
    while i < n && is_white_char(s.get_char(i))
        invariant
            i <= n,
            n == s@.len(),
            trim_start(s@) == trim_start(s@.subrange(i as int, n as int)),
        decreases n - i,
    {
        assert(s@.subrange(i as int, n as int).drop_first() =~= s@.subrange(i + 1, n as int));
        i = i + 1;
    }
    let t = s.substring_char(i, n);
    let m = n - i;
    let mut j: usize = m;
    assert(t@.subrange(0, m as int) =~= t@);
    while j > 0 && is_white_char(t.get_char(j - 1))
        invariant
            j <= m,
            m == t@.len(),
            trim_end(t@) == trim_end(t@.subrange(0, j as int)),
        decreases j,
    {
        assert(t@.subrange(0, j as int).drop_last() =~= t@.subrange(0, j - 1));
        j = j - 1;
    }
    t.substring_char(0, j)
}

/// The part of `s` after its last `c`.
pub fn after_last_char(s: &str, c: char) -> (r: &str)
    ensures
        r@ == after_last(s@, c),
{
    let n = s.unicode_len();
    let mut k: usize = n;
    assert(s@.subrange(0, n as int) =~= s@);
    assert(after_last(s@, c) + s@.subrange(n as int, n as int) =~= after_last(s@, c));
    while k > 0 && s.get_char(k - 1) != c
        invariant
            k <= n,
            n == s@.len(),
            after_last(s@, c) == after_last(s@.subrange(0, k as int), c) + s@.subrange(
                k as int,
                n as int,
            ),
        decreases k,
    {
        let ghost pre = s@.subrange(0, k as int);
        assert(pre.drop_last() =~= s@.subrange(0, k - 1));
        assert(after_last(pre, c) == after_last(s@.subrange(0, k - 1), c).push(s@[k - 1]));
        assert(after_last(s@.subrange(0, k - 1), c).push(s@[k - 1]) + s@.subrange(k as int, n as int)
            =~= after_last(s@.subrange(0, k - 1), c) + s@.subrange(k - 1, n as int));
        k = k - 1;
    }
    assert(after_last(s@.subrange(0, k as int), c) =~= Seq::<char>::empty());
    assert(after_last(s@, c) =~= s@.subrange(k as int, n as int));
    s.substring_char(k, n)
}

proof fn lemma_first_at(s: Seq<char>, c: char, i: int)
    requires
        0 <= i < s.len(),
        s[i] == c,
        forall|j: int| 0 <= j < i ==> s[j] != c,
    ensures
        before_first(s, c) =~= s.subrange(0, i),
        after_first(s, c) =~= s.subrange(i + 1, s.len() as int),
        s.contains(c),
    decreases i,
{
    if i > 0 {
        lemma_first_at(s.drop_first(), c, i - 1);
    }
}

proof fn lemma_no_char(s: Seq<char>, c: char)
    requires
        forall|j: int| 0 <= j < s.len() ==> s[j] != c,
    ensures
        before_first(s, c) =~= s,
        !s.contains(c),
    decreases s.len(),
{
    if s.len() > 0 {
        lemma_no_char(s.drop_first(), c);
    }
}

/// The parts of `s` before and after its first `c`, if it holds one.
pub fn split_first(s: &str, c: char) -> (r: Option<(&str, &str)>)
    ensures
        r is Some <==> s@.contains(c),
        r is None ==> before_first(s@, c) == s@,
        r matches Some((head, tail)) ==> head@ == before_first(s@, c) && tail@ == after_first(s@, c),
{
    let n = s.unicode_len();
    let mut i: usize = 0;
    while i < n
        invariant
            i <= n,
            n == s@.len(),
            forall|j: int| 0 <= j < i ==> s@[j] != c,
        decreases n - i,
    {
        if s.get_char(i) == c {
            proof {
                lemma_first_at(s@, c, i as int);
            }
            return Some((s.substring_char(0, i), s.substring_char(i + 1, n)));
        }
        i = i + 1;
    }
    proof {
        lemma_no_char(s@, c);
    }
    None
}

proof fn lemma_digits_prefix(s: Seq<char>, j: int)
    requires
        0 <= j <= s.len(),
        all_digits(s),
    ensures
        0 <= digits_value(s.subrange(0, j)) <= digits_value(s),
    decreases s.len(),
{
    if j < s.len() {
        assert(s.drop_last().subrange(0, j) =~= s.subrange(0, j));
        lemma_digits_prefix(s.drop_last(), j);
    } else {
        assert(s.subrange(0, j) =~= s);
        lemma_digits_nonneg(s);
    }
}

proof fn lemma_digits_nonneg(s: Seq<char>)
    requires
        all_digits(s),
    ensures
        digits_value(s) >= 0,
    decreases s.len(),
{
    if s.len() > 0 {
        lemma_digits_nonneg(s.drop_last());
    }
}

/// Parses `s` as an `i32` as `str::parse` does: an optional sign followed by
/// one or more decimal digits, with a value in range.
pub fn parse_int(s: &str) -> (r: Option<i32>)
    ensures
        r is Some <==> parse_i32(s@) is Some,
        r matches Some(v) ==> v as int == parse_i32(s@)->0,
{
    let n = s.unicode_len();
    if n == 0 {
        return None;
    }
    let first = s.get_char(0);
    let negative = first == '-';
    let start: usize = if first == '-' || first == '+' { 1 } else { 0 };
    let ghost digits = s@.subrange(start as int, n as int);
    assert(digits =~= unsigned_part(s@));
    if start == n {
        return None;
    }
    let mut v: u64 = 0;
    let mut i: usize = start;
    while i < n
        invariant
            start <= i <= n,
            n == s@.len(),
            digits == s@.subrange(start as int, n as int),
            digits == unsigned_part(s@),
            negative == (s@.len() > 0 && s@[0] == '-'),
            all_digits(s@.subrange(start as int, i as int)),
            v as int == digits_value(s@.subrange(start as int, i as int)),
            v <= 2147483648,
        decreases n - i,
    {
        let c = s.get_char(i);
        if !('0' <= c && c <= '9') {
            assert(digits[i - start] == c);
            assert(!is_digit(digits[i - start]));
            assert(!all_digits(digits));
            return None;
        }
        let ghost done = s@.subrange(start as int, i + 1);
        assert(done.drop_last() =~= s@.subrange(start as int, i as int));
        assert(done.last() == c);
        assert(all_digits(done));
        assert(digits_value(done) == digits_value(s@.subrange(start as int, i as int)) * 10
            + digit_value(c));
        let d = (c as u32 - '0' as u32) as u64;
        v = v * 10 + d;
        assert(v as int == digits_value(done));
        i = i + 1;
        if v > 2147483648 {
            proof {
                if all_digits(digits) {
                    assert(digits.subrange(0, i - start) =~= done);
                    lemma_digits_prefix(digits, i - start);
                    assert(digits_value(digits) > 2147483648);
                }
                assert(parse_i32(s@) is None);
            }
            return None;
        }
    }
    assert(s@.subrange(start as int, i as int) =~= digits);
    if negative {
        Some((0 - v as i64) as i32)
    } else if v <= 2147483647 {
        Some(v as i32)
    } else {
        None
    }
}

/// What the version output `out` says of capability; `None` when it names no
/// version with a major and a minor component.
pub fn version_capability(out: &str) -> (r: Option<bool>)
    ensures
        r == capability_of(out@),
{
    let token = after_last_char(trim_white(out), ' ');
    match split_first(token, '.') {
        None => None,
        Some((head, tail)) => {
            let minor_text = match split_first(tail, '.') {
                Some((m, _)) => m,
                None => tail,
            };
            match (parse_int(head), parse_int(minor_text)) {
                (Some(major), Some(minor)) => Some(major > 7 || (major == 7 && minor >= 4)),
                _ => None,
            }
        },
    }
}

proof fn lemma_no_white_trim(s: Seq<char>)
    requires
        forall|i: int| 0 <= i < s.len() ==> !is_white(#[trigger] s[i]),
    ensures
        trim(s) == s,
{
    assert(trim_start(s) == s);
    if s.len() > 0 {
        assert(!is_white(s[s.len() - 1]));
    }
    assert(trim_end(s) == s);
}

proof fn lemma_no_space_after_last(s: Seq<char>)
    requires
        forall|i: int| 0 <= i < s.len() ==> !is_white(#[trigger] s[i]),
    ensures
        after_last(s, ' ') == s,
    decreases s.len(),
{
    if s.len() > 0 {
        assert(!is_white(s[s.len() - 1]));
        lemma_no_space_after_last(s.drop_last());
        assert(s.drop_last().push(s.last()) =~= s);
    }
}

/// A version without white space whose first two dot-separated components read
/// as `major` and `minor` is capable exactly when it is 7.4 or later.
pub proof fn capability_threshold(version: Seq<char>, major: int, minor: int)
    requires
        forall|i: int| 0 <= i < version.len() ==> !is_white(#[trigger] version[i]),
        version.contains('.'),
        parse_i32(before_first(version, '.')) == Some(major),
        parse_i32(before_first(after_first(version, '.'), '.')) == Some(minor),
    ensures
        capability_of(version) == Some(major > 7 || (major == 7 && minor >= 4)),
{
    lemma_no_white_trim(version);
    lemma_no_space_after_last(version);
}

/// A version without white space and without a minor component says nothing
/// of capability.
pub proof fn capability_needs_minor(version: Seq<char>)
    requires
        forall|i: int| 0 <= i < version.len() ==> !is_white(#[trigger] version[i]),
        !version.contains('.'),
    ensures
        capability_of(version) is None,
{
    lemma_no_white_trim(version);
    lemma_no_space_after_last(version);
}

} // verus!
