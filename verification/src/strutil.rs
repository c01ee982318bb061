//! Verified character-level string utilities used by the upload logic:
//! whitespace trimming, prefix tests, splitting at the first occurrence of a
//! character, substring search, last path segment, and decimal rendering.

use vstd::prelude::*;

verus! {

/// The ASCII whitespace characters removed by [`trim_spaces`].
pub open spec fn is_space(c: char) -> bool {
    c == ' ' || c == '\t' || c == '\n' || c == '\r'
}

/// `s` without its trailing whitespace.
pub open spec fn trim_end_rec(s: Seq<char>) -> Seq<char>
    decreases s.len(),
{
    if s.len() == 0 {
        s
    } else if is_space(s.last()) {
        trim_end_rec(s.drop_last())
    } else {
        s
    }
}

/// `s` without its leading whitespace.
pub open spec fn trim_start_rec(s: Seq<char>) -> Seq<char>
    decreases s.len(),
{
    if s.len() == 0 {
        s
    } else if is_space(s.first()) {
        trim_start_rec(s.drop_first())
    } else {
        s
    }
}

/// `s` without leading and trailing whitespace.
pub open spec fn spec_trim(s: Seq<char>) -> Seq<char> {
    trim_start_rec(trim_end_rec(s))
}

/// `p` is a prefix of `s`.
pub open spec fn spec_has_prefix(s: Seq<char>, p: Seq<char>) -> bool {
    p.len() <= s.len() && s.subrange(0, p.len() as int) == p
}

/// The prefix of `s` before the first occurrence of `c`; all of `s` when `c`
/// does not occur.
pub open spec fn prefix_before(s: Seq<char>, c: char) -> Seq<char>
    decreases s.len(),
{
    if s.len() == 0 {
        s
    } else if s.first() == c {
        Seq::empty()
    } else {
        seq![s.first()] + prefix_before(s.drop_first(), c)
    }
}

/// `p` occurs in `s` starting at index `i`.
pub open spec fn contains_at(s: Seq<char>, p: Seq<char>, i: int) -> bool {
    0 <= i && i + p.len() <= s.len() && s.subrange(i, i + p.len() as int) == p
}

/// `p` occurs somewhere in `s`.
pub open spec fn spec_contains(s: Seq<char>, p: Seq<char>) -> bool {
    exists|i: int| contains_at(s, p, i)
}

/// The maximal run of characters other than `c` at the end of `s`.
pub open spec fn tail_run(s: Seq<char>, c: char) -> Seq<char>
    decreases s.len(),
{
    if s.len() == 0 || s.last() == c {
        Seq::empty()
    } else {
        tail_run(s.drop_last(), c).push(s.last())
    }
}

/// The last segment of `s` between occurrences of `c` that is not empty, if
/// any: trailing separators are skipped.
pub open spec fn last_nonempty_seg(s: Seq<char>, c: char) -> Option<Seq<char>>
    decreases s.len(),
{
    if s.len() == 0 {
        None
    } else if s.last() == c {
        last_nonempty_seg(s.drop_last(), c)
    } else {
        Some(tail_run(s, c))
    }
}

/// The extension embedded in a file name: what follows the last `'.'`, when a
/// dot stands at some position past the first character (so a leading dot
/// alone, as in a hidden file's name, embeds no extension).
pub open spec fn spec_name_ext(n: Seq<char>) -> Option<Seq<char>> {
    if exists|i: int| 1 <= i < n.len() && n[i] == '.' {
        Some(tail_run(n, '.'))
    } else {
        None
    }
}

/// The decimal digit character for `d < 10`.
pub open spec fn spec_digit(d: nat) -> char {
    if d == 0 {
        '0'
    } else if d == 1 {
        '1'
    } else if d == 2 {
        '2'
    } else if d == 3 {
        '3'
    } else if d == 4 {
        '4'
    } else if d == 5 {
        '5'
    } else if d == 6 {
        '6'
    } else if d == 7 {
        '7'
    } else if d == 8 {
        '8'
    } else {
        '9'
    }
}

/// The decimal rendering of `n`, without leading zeros (`0` for zero).
pub open spec fn spec_decimal(n: nat) -> Seq<char>
    decreases n,
{
    if n < 10 {
        seq![spec_digit(n)]
    } else {
        spec_decimal(n / 10).push(spec_digit(n % 10))
    }
}

fn is_space_char(c: char) -> (r: bool)
    ensures
        r == is_space(c),
{
    c == ' ' || c == '\t' || c == '\n' || c == '\r'
}

/// Removes leading and trailing ASCII whitespace.
pub fn trim_spaces(s: &str) -> (r: &str)
    ensures
        r@ == spec_trim(s@),
{
    let n = s.unicode_len();
    let mut j = n;
    assert(s@.take(n as int) =~= s@);
    while j > 0 && is_space_char(s.get_char(j - 1))
        invariant
            j <= n,
            n == s@.len(),
            trim_end_rec(s@) == trim_end_rec(s@.take(j as int)),
        decreases j,
    {
        proof {
            assert(s@.take(j as int).last() == s@[j - 1]);
            assert(s@.take(j as int).drop_last() =~= s@.take(j - 1));
        }
        j -= 1;
    }
    proof {
        if j > 0 {
            assert(s@.take(j as int).last() == s@[j - 1]);
        }
        assert(trim_end_rec(s@) =~= s@.take(j as int));
    }
    let mut i: usize = 0;
    assert(s@.subrange(0, j as int) =~= s@.take(j as int));
    while i < j && is_space_char(s.get_char(i))
        invariant
            i <= j,
            j <= n,
            n == s@.len(),
            trim_end_rec(s@) == s@.take(j as int),
            trim_start_rec(s@.take(j as int)) == trim_start_rec(s@.subrange(i as int, j as int)),
        decreases j - i,
    {
        proof {
            assert(s@.subrange(i as int, j as int).first() == s@[i as int]);
            assert(s@.subrange(i as int, j as int).drop_first() =~= s@.subrange(
                i + 1,
                j as int,
            ));
        }
        i += 1;
    }
    proof {
        if i < j {
            assert(s@.subrange(i as int, j as int).first() == s@[i as int]);
        }
        assert(trim_start_rec(s@.subrange(i as int, j as int)) =~= s@.subrange(
            i as int,
            j as int,
        ));
    }
    s.substring_char(i, j)
}

/// Returns whether `p` is a prefix of `s`, character for character.
pub fn str_has_prefix(s: &str, p: &str) -> (r: bool)
    ensures
        r == spec_has_prefix(s@, p@),
{
    let n = p.unicode_len();
    if n > s.unicode_len() {
        return false;
    }
    let mut i: usize = 0;
    while i < n
        invariant
            i <= n,
            n == p@.len(),
            n <= s@.len(),
            forall|t: int| 0 <= t < i ==> s@[t] == p@[t],
        decreases n - i,
    {
        if s.get_char(i) != p.get_char(i) {
            proof {
                assert(s@.subrange(0, n as int)[i as int] != p@[i as int]);
            }
            return false;
        }
        i += 1;
    }
    assert(s@.subrange(0, n as int) =~= p@);
    true
}

/// The prefix of `s` before the first occurrence of `c`; all of `s` when `c`
/// does not occur.
pub fn before_char(s: &str, c: char) -> (r: &str)
    ensures
        r@ == prefix_before(s@, c),
{
    let n = s.unicode_len();
    let mut i: usize = 0;
    assert(s@.skip(0) =~= s@);
    assert(s@.take(0) =~= Seq::<char>::empty());
    while i < n && s.get_char(i) != c
        invariant
            i <= n,
            n == s@.len(),
            prefix_before(s@, c) == s@.take(i as int) + prefix_before(s@.skip(i as int), c),
        decreases n - i,
    {
        proof {
            assert(s@.skip(i as int).first() == s@[i as int]);
            assert(s@.skip(i as int).drop_first() =~= s@.skip(i + 1));
            assert(s@.take(i as int) + seq![s@[i as int]] =~= s@.take(i + 1));
            assert(s@.take(i as int) + (seq![s@[i as int]] + prefix_before(s@.skip(i + 1), c))
                =~= s@.take(i + 1) + prefix_before(s@.skip(i + 1), c));
        }
        i += 1;
    }
    proof {
        if i < n {
            assert(s@.skip(i as int).first() == s@[i as int]);
            assert(prefix_before(s@.skip(i as int), c) =~= Seq::<char>::empty());
        } else {
            assert(s@.skip(i as int) =~= Seq::<char>::empty());
        }
        assert(prefix_before(s@, c) =~= s@.take(i as int));
        assert(s@.take(i as int) =~= s@.subrange(0, i as int));
    }
    s.substring_char(0, i)
}

/// Returns whether the characters of `p` occur contiguously in `s`.
pub fn str_contains(s: &str, p: &str) -> (r: bool)
    ensures
        r == spec_contains(s@, p@),
{
    let n = s.unicode_len();
    let m = p.unicode_len();
    if m > n {
        assert(forall|i: int| !contains_at(s@, p@, i));
        return false;
    }
    if m == 0 {
        assert(s@.subrange(0, 0) =~= p@);
        assert(contains_at(s@, p@, 0));
        return true;
    }
    let mut i: usize = 0;
    while i <= n - m
        invariant
            0 < m <= n,
            n == s@.len(),
            m == p@.len(),
            i <= n - m + 1,
            forall|t: int| 0 <= t < i ==> !contains_at(s@, p@, t),
        decreases n - i,
    {
        let rest = s.substring_char(i, n);
        if str_has_prefix(rest, p) {
            proof {
                assert(rest@.subrange(0, m as int) =~= s@.subrange(i as int, i + m));
                assert(contains_at(s@, p@, i as int));
            }
            return true;
        }
        proof {
            assert(rest@.subrange(0, m as int) =~= s@.subrange(i as int, i + m));
        }
        i += 1;
    }
    proof {
        assert forall|t: int| !contains_at(s@, p@, t) by {
            if 0 <= t && t + p@.len() <= s@.len() {
                assert(t < i);
            }
        }
    }
    false
}

pub proof fn lemma_tail_run_index(s: Seq<char>, c: char, j: int)
    requires
        0 <= j <= s.len(),
        forall|t: int| j <= t < s.len() ==> s[t] != c,
        j == 0 || s[j - 1] == c,
    ensures
        tail_run(s, c) == s.subrange(j, s.len() as int),
    decreases s.len(),
{
    if j == s.len() {
        if s.len() == 0 {
            assert(tail_run(s, c) =~= s.subrange(j, s.len() as int));
        } else {
            assert(s.last() == c);
            assert(tail_run(s, c) =~= s.subrange(j, s.len() as int));
        }
    } else {
        assert(s.last() != c);
        let d = s.drop_last();
        assert(forall|t: int| j <= t < d.len() ==> d[t] == s[t] && d[t] != c);
        if j > 0 {
            assert(d[j - 1] == s[j - 1]);
        }
        lemma_tail_run_index(d, c, j);
        assert(tail_run(s, c) == tail_run(d, c).push(s.last()));
        assert(d.subrange(j, d.len() as int).push(s.last()) =~= s.subrange(j, s.len() as int));
    }
}

/// The prefix before the first occurrence of `c` never contains `c`.
pub proof fn lemma_prefix_before_free(s: Seq<char>, c: char)
    ensures
        forall|i: int|
            0 <= i < prefix_before(s, c).len() ==> #[trigger] prefix_before(s, c)[i] != c,
    decreases s.len(),
{
    if s.len() == 0 || s.first() == c {
    } else {
        lemma_prefix_before_free(s.drop_first(), c);
        let p = prefix_before(s, c);
        assert(p == seq![s.first()] + prefix_before(s.drop_first(), c));
        assert forall|i: int| 0 <= i < p.len() implies #[trigger] p[i] != c by {
            if i == 0 {
                assert(p[0] == s.first());
            } else {
                assert(p[i] == prefix_before(s.drop_first(), c)[i - 1]);
            }
        }
    }
}

/// The last nonempty run of characters of `s` between occurrences of `c`;
/// `None` when `s` holds nothing but separators.
pub fn last_segment<'a>(s: &'a str, c: char) -> (r: Option<&'a str>)
    ensures
        (match r {
            None => last_nonempty_seg(s@, c) is None,
            Some(x) => last_nonempty_seg(s@, c) == Some(x@),
        }),
{
    let n = s.unicode_len();
    let mut j = n;
    assert(s@.take(n as int) =~= s@);
    while j > 0 && s.get_char(j - 1) == c
        invariant
            j <= n,
            n == s@.len(),
            last_nonempty_seg(s@, c) == last_nonempty_seg(s@.take(j as int), c),
        decreases j,
    {
        proof {
            assert(s@.take(j as int).last() == s@[j - 1]);
            assert(s@.take(j as int).drop_last() =~= s@.take(j - 1));
        }
        j -= 1;
    }
    if j == 0 {
        proof {
            assert(s@.take(0).len() == 0);
        }
        return None;
    }
    proof {
        assert(s@.take(j as int).last() == s@[j - 1]);
        assert(s@[j - 1] != c);
    }
    let mut i = j;
    assert(tail_run(s@.take(j as int), c) =~= tail_run(s@.take(j as int), c) + s@.subrange(
        j as int,
        j as int,
    ));
    while i > 0 && s.get_char(i - 1) != c
        invariant
            i <= j,
            0 < j <= n,
            n == s@.len(),
            tail_run(s@.take(j as int), c) == tail_run(s@.take(i as int), c) + s@.subrange(
                i as int,
                j as int,
            ),
        decreases i,
    {
        proof {
            assert(s@.take(i as int).last() == s@[i - 1]);
            assert(s@.take(i as int).drop_last() =~= s@.take(i - 1));
            assert(tail_run(s@.take(i as int), c) == tail_run(s@.take(i - 1), c).push(
                s@[i - 1],
            ));
            assert(tail_run(s@.take(i - 1), c).push(s@[i - 1]) + s@.subrange(i as int, j as int)
                =~= tail_run(s@.take(i - 1), c) + s@.subrange(i - 1, j as int));
        }
        i -= 1;
    }
    proof {
        if i > 0 {
            assert(s@.take(i as int).last() == s@[i - 1]);
            assert(tail_run(s@.take(i as int), c) =~= Seq::<char>::empty());
        } else {
            assert(s@.take(0).len() == 0);
            assert(tail_run(s@.take(0), c) =~= Seq::<char>::empty());
        }
        assert(tail_run(s@.take(j as int), c) =~= s@.subrange(i as int, j as int));
    }
    Some(s.substring_char(i, j))
}

/// Returns whether `a` and `b` hold the same characters.
pub fn str_eq(a: &str, b: &str) -> (r: bool)
    ensures
        r == (a@ == b@),
{
    let n = a.unicode_len();
    if n != b.unicode_len() {
        return false;
    }
    let mut i: usize = 0;
    while i < n
        invariant
            i <= n,
            n == a@.len(),
            n == b@.len(),
            forall|t: int| 0 <= t < i ==> a@[t] == b@[t],
        decreases n - i,
    {
        if a.get_char(i) != b.get_char(i) {
            return false;
        }
        i += 1;
    }
    assert(a@ =~= b@);
    true
}

fn digit_str(d: u64) -> (r: &'static str)
    requires
        d < 10,
    ensures
        r@ =~= seq![spec_digit(d as nat)],
{
    proof {
        reveal_strlit("0");
        reveal_strlit("1");
        reveal_strlit("2");
        reveal_strlit("3");
        reveal_strlit("4");
        reveal_strlit("5");
        reveal_strlit("6");
        reveal_strlit("7");
        reveal_strlit("8");
        reveal_strlit("9");
    }
    match d {
        0 => "0",
        1 => "1",
        2 => "2",
        3 => "3",
        4 => "4",
        5 => "5",
        6 => "6",
        7 => "7",
        8 => "8",
        _ => "9",
    }
}

/// Renders `n` in decimal, without leading zeros.
pub fn u64_decimal(n: u64) -> (r: String)
    ensures
        r@ == spec_decimal(n as nat),
    decreases n,
{
    if n < 10 {
        digit_str(n).to_owned()
    } else {
        assert(n / 10 < n) by (nonlinear_arith)
            requires
                n >= 10,
        ;
        let mut s = u64_decimal(n / 10);
        s.append(digit_str(n % 10));
        proof {
            assert(spec_decimal((n / 10) as nat).push(spec_digit((n % 10) as nat))
                =~= spec_decimal((n / 10) as nat) + seq![spec_digit((n % 10) as nat)]);
        }
        s
    }
}

} // verus!
