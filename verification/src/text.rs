//! Character-level text rules used by the credential and URL logic.

use vstd::prelude::*;

verus! {

/// The view of an optional string.
pub open spec fn opt_view(s: Option<String>) -> Option<Seq<char>> {
    match s {
        Some(t) => Some(t@),
        None => None,
    }
}

/// The view of an optional string slice.
pub open spec fn opt_str_view(s: Option<&str>) -> Option<Seq<char>> {
    match s {
        Some(t) => Some(t@),
        None => None,
    }
}

/// The Unicode `White_Space` property, the set that `char::is_whitespace`
/// and `str::trim` use.
pub open spec fn is_white_space(c: char) -> bool {
    let v = c as u32;
    ||| 0x9 <= v <= 0xD
    ||| v == 0x20
    ||| v == 0x85
    ||| v == 0xA0
    ||| v == 0x1680
    ||| 0x2000 <= v <= 0x200A
    ||| v == 0x2028
    ||| v == 0x2029
    ||| v == 0x202F
    ||| v == 0x205F
    ||| v == 0x3000
}

/// `s` without its leading white space.
pub open spec fn trim_start(s: Seq<char>) -> Seq<char>
    decreases s.len(),
{
    if s.len() > 0 && is_white_space(s[0]) {
        trim_start(s.drop_first())
    } else {
        s
    }
}

/// `s` without its trailing white space.
pub open spec fn trim_end(s: Seq<char>) -> Seq<char>
    decreases s.len(),
{
    if s.len() > 0 && is_white_space(s.last()) {
        trim_end(s.drop_last())
    } else {
        s
    }
}

/// `s` without leading and trailing white space.
pub open spec fn trim(s: Seq<char>) -> Seq<char> {
    trim_end(trim_start(s))
}

/// `s` without any trailing occurrence of `c`.
pub open spec fn trim_end_char(s: Seq<char>, c: char) -> Seq<char>
    decreases s.len(),
{
    if s.len() > 0 && s.last() == c {
        trim_end_char(s.drop_last(), c)
    } else {
        s
    }
}

/// `s` with `prefix` taken off its front when it starts with it.
pub open spec fn strip_prefix(s: Seq<char>, prefix: Seq<char>) -> Seq<char> {
    if prefix.is_prefix_of(s) {
        s.skip(prefix.len() as int)
    } else {
        s
    }
}

/// Whether `c` has the Unicode `White_Space` property.
pub fn is_white_space_char(c: char) -> (b: bool)
    ensures
        b == is_white_space(c),
{
    let v = c as u32;
    (0x9 <= v && v <= 0xD) || v == 0x20 || v == 0x85 || v == 0xA0 || v == 0x1680 || (0x2000
        <= v && v <= 0x200A) || v == 0x2028 || v == 0x2029 || v == 0x202F || v == 0x205F || v
        == 0x3000
}

proof fn lemma_trim_start_skip(s: Seq<char>, k: int)
    requires
        0 <= k < s.len(),
        is_white_space(s[k]),
    ensures
        trim_start(s.skip(k)) == trim_start(s.skip(k + 1)),
{
    assert(s.skip(k).drop_first() =~= s.skip(k + 1));
}

proof fn lemma_trim_end_take(s: Seq<char>, k: int)
    requires
        0 < k <= s.len(),
        is_white_space(s[k - 1]),
    ensures
        trim_end(s.take(k)) == trim_end(s.take(k - 1)),
{
    assert(s.take(k).drop_last() =~= s.take(k - 1));
}

proof fn lemma_trim_end_char_take(s: Seq<char>, c: char, k: int)
    requires
        0 < k <= s.len(),
        s[k - 1] == c,
    ensures
        trim_end_char(s.take(k), c) == trim_end_char(s.take(k - 1), c),
{
    assert(s.take(k).drop_last() =~= s.take(k - 1));
}

/// The index of the first character of `s` at or after `from` that is not
/// white space, or the length of `s` when there is none.
fn skip_white_space(s: &str, from: usize) -> (i: usize)
    requires
        from <= s@.len(),
    ensures
        from <= i <= s@.len(),
        trim_start(s@.skip(from as int)) == trim_start(s@.skip(i as int)),
        i < s@.len() ==> !is_white_space(s@[i as int]),
{
    let n = s.unicode_len();
    let mut i = from;
    while i < n
        invariant
            from <= i <= n,
            n == s@.len(),
            trim_start(s@.skip(from as int)) == trim_start(s@.skip(i as int)),
        decreases n - i,
    {
        if !is_white_space_char(s.get_char(i)) {
            return i;
        }
        proof {
            lemma_trim_start_skip(s@, i as int);
        }
        i = i + 1;
    }
    i
}

/// The trimmed form of `s`, as `str::trim` gives it.
pub fn trim_text(s: &str) -> (r: String)
    ensures
        r@ == trim(s@),
{
    let n = s.unicode_len();
    let start = skip_white_space(s, 0);
    assert(s@.skip(0) =~= s@);
    let ghost rest = s@.skip(start as int);
    assert(trim_start(s@) == rest) by {
        if start < n {
        } else {
            assert(rest =~= Seq::<char>::empty());
        }
    }
    let mut end = n;
    assert(rest =~= rest.take(n - start));
    while end > start
        invariant
            start <= end <= n,
            n == s@.len(),
            rest == s@.skip(start as int),
            trim_end(rest) == trim_end(rest.take(end - start)),
        ensures
            start <= end <= n,
            rest == s@.skip(start as int),
            trim_end(rest) == trim_end(rest.take(end - start)),
            end == start || !is_white_space(s@[end - 1]),
        decreases end,
    {
        if !is_white_space_char(s.get_char(end - 1)) {
            break;
        }
        proof {
            lemma_trim_end_take(rest, (end - start) as int);
        }
        end = end - 1;
    }
    let ghost kept = rest.take(end - start);
    assert(kept =~= s@.subrange(start as int, end as int));
    assert(trim_end(kept) == kept) by {
        if end > start {
            assert(kept.last() == s@[end - 1]);
        }
    }
    let piece = s.substring_char(start, end);
    String::from_str(piece)
}

/// `s` without any trailing occurrence of `c`, as `str::trim_end_matches`
/// gives it for a single character.
pub fn trim_end_matches_char(s: &str, c: char) -> (r: String)
    ensures
        r@ == trim_end_char(s@, c),
{
    let n = s.unicode_len();
    let mut end = n;
    assert(s@.take(n as int) =~= s@);
    while end > 0
        invariant
            end <= n,
            n == s@.len(),
            trim_end_char(s@, c) == trim_end_char(s@.take(end as int), c),
        ensures
            end <= n,
            trim_end_char(s@, c) == trim_end_char(s@.take(end as int), c),
            end == 0 || s@[end - 1] != c,
        decreases end,
    {
        if s.get_char(end - 1) != c {
            break;
        }
        proof {
            lemma_trim_end_char_take(s@, c, end as int);
        }
        end = end - 1;
    }
    assert(s@.take(end as int) =~= s@.subrange(0, end as int));
    assert(trim_end_char(s@.take(end as int), c) == s@.take(end as int)) by {
        if end > 0 {
            assert(s@.take(end as int).last() == s@[end - 1]);
        }
    }
    let piece = s.substring_char(0, end);
    String::from_str(piece)
}

/// Whether `s` starts with `prefix`.
pub fn has_prefix(s: &str, prefix: &str) -> (b: bool)
    ensures
        b == prefix@.is_prefix_of(s@),
{
    let n = s.unicode_len();
    let m = prefix.unicode_len();
    if m > n {
        return false;
    }
    let mut i: usize = 0;
    while i < m
        invariant
            i <= m <= n,
            n == s@.len(),
            m == prefix@.len(),
            forall|j: int| 0 <= j < i ==> prefix@[j] == s@[j],
        decreases m - i,
    {
        if prefix.get_char(i) != s.get_char(i) {
            assert(prefix@ != s@.subrange(0, m as int)) by {
                assert(prefix@[i as int] != s@.subrange(0, m as int)[i as int]);
            }
            return false;
        }
        i = i + 1;
    }
    assert(prefix@ =~= s@.subrange(0, m as int));
    true
}

/// The number of white space characters that `s` starts with.
pub open spec fn leading_white_space(s: Seq<char>) -> nat
    decreases s.len(),
{
    if s.len() > 0 && is_white_space(s[0]) {
        1 + leading_white_space(s.drop_first())
    } else {
        0
    }
}

/// The length of `s` without its trailing white space.
pub open spec fn kept_before_white_space(s: Seq<char>) -> nat
    decreases s.len(),
{
    if s.len() > 0 && is_white_space(s.last()) {
        kept_before_white_space(s.drop_last())
    } else {
        s.len()
    }
}

proof fn lemma_leading_white_space(s: Seq<char>)
    ensures
        leading_white_space(s) <= s.len(),
        forall|l: int| 0 <= l < leading_white_space(s) ==> is_white_space(#[trigger] s[l]),
        leading_white_space(s) < s.len() ==> !is_white_space(s[leading_white_space(s) as int]),
    decreases s.len(),
{
    if s.len() > 0 && is_white_space(s[0]) {
        lemma_leading_white_space(s.drop_first());
        assert forall|l: int| 0 <= l < leading_white_space(s) implies is_white_space(
            #[trigger] s[l],
        ) by {
            if l > 0 {
                assert(s[l] == s.drop_first()[l - 1]);
            }
        }
    }
}

proof fn lemma_kept_before_white_space(s: Seq<char>)
    ensures
        kept_before_white_space(s) <= s.len(),
        forall|l: int|
            kept_before_white_space(s) <= l < s.len() ==> is_white_space(#[trigger] s[l]),
        kept_before_white_space(s) > 0 ==> !is_white_space(
            s[kept_before_white_space(s) - 1],
        ),
    decreases s.len(),
{
    if s.len() > 0 && is_white_space(s.last()) {
        lemma_kept_before_white_space(s.drop_last());
        assert forall|l: int|
            kept_before_white_space(s) <= l < s.len() implies is_white_space(#[trigger] s[l]) by {
            if l < s.len() - 1 {
                assert(s[l] == s.drop_last()[l]);
            }
        }
    }
}

proof fn lemma_trim_start_at(s: Seq<char>, i: int)
    requires
        0 <= i < s.len(),
        forall|l: int| 0 <= l < i ==> is_white_space(#[trigger] s[l]),
        !is_white_space(s[i]),
    ensures
        trim_start(s) == s.skip(i),
    decreases i,
{
    if i > 0 {
        let t = s.drop_first();
        assert forall|l: int| 0 <= l < i - 1 implies is_white_space(#[trigger] t[l]) by {
            assert(t[l] == s[l + 1]);
        }
        assert(is_white_space(s[0]));
        lemma_trim_start_at(t, i - 1);
        assert(t.skip(i - 1) =~= s.skip(i));
    } else {
        assert(s.skip(0) =~= s);
    }
}

proof fn lemma_trim_end_at(s: Seq<char>, m: int)
    requires
        0 < m <= s.len(),
        forall|l: int| m <= l < s.len() ==> is_white_space(#[trigger] s[l]),
        !is_white_space(s[m - 1]),
    ensures
        trim_end(s) == s.take(m),
    decreases s.len() - m,
{
    if m < s.len() {
        let t = s.drop_last();
        assert(is_white_space(s[s.len() - 1]));
        assert forall|l: int| m <= l < t.len() implies is_white_space(#[trigger] t[l]) by {
            assert(t[l] == s[l]);
        }
        lemma_trim_end_at(t, m);
        assert(t.take(m) =~= s.take(m));
    } else {
        assert(s.take(m) =~= s);
    }
}

/// Trimming keeps exactly the part of `s` between its first and its last
/// character that is not white space.
pub proof fn lemma_trim_between(s: Seq<char>, i: int, j: int)
    requires
        0 <= i < j <= s.len(),
        forall|l: int| 0 <= l < i ==> is_white_space(#[trigger] s[l]),
        forall|l: int| j <= l < s.len() ==> is_white_space(#[trigger] s[l]),
        !is_white_space(s[i]),
        !is_white_space(s[j - 1]),
    ensures
        trim(s) == s.subrange(i, j),
{
    lemma_trim_start_at(s, i);
    let t = s.skip(i);
    assert forall|l: int| j - i <= l < t.len() implies is_white_space(#[trigger] t[l]) by {
        assert(t[l] == s[l + i]);
    }
    assert(t[j - i - 1] == s[j - 1]);
    lemma_trim_end_at(t, j - i);
    assert(t.take(j - i) =~= s.subrange(i, j));
}

/// When `s` holds a character that is not white space, trimming keeps the
/// span from the first to the last such character.
pub proof fn lemma_trim_span(s: Seq<char>, q: int)
    requires
        0 <= q < s.len(),
        !is_white_space(s[q]),
    ensures
        leading_white_space(s) <= q < kept_before_white_space(s) <= s.len(),
        trim(s) == s.subrange(
            leading_white_space(s) as int,
            kept_before_white_space(s) as int,
        ),
        forall|l: int| 0 <= l < leading_white_space(s) ==> is_white_space(#[trigger] s[l]),
        forall|l: int|
            kept_before_white_space(s) <= l < s.len() ==> is_white_space(#[trigger] s[l]),
        !is_white_space(s[leading_white_space(s) as int]),
        !is_white_space(s[kept_before_white_space(s) - 1]),
{
    lemma_leading_white_space(s);
    lemma_kept_before_white_space(s);
    lemma_trim_between(
        s,
        leading_white_space(s) as int,
        kept_before_white_space(s) as int,
    );
}

/// A text made only of white space trims to nothing.
pub proof fn lemma_trim_all_white_space(s: Seq<char>)
    requires
        forall|l: int| 0 <= l < s.len() ==> is_white_space(#[trigger] s[l]),
    ensures
        trim(s).len() == 0,
    decreases s.len(),
{
    if s.len() > 0 {
        let t = s.drop_first();
        assert forall|l: int| 0 <= l < t.len() implies is_white_space(#[trigger] t[l]) by {
            assert(t[l] == s[l + 1]);
        }
        assert(is_white_space(s[0]));
        lemma_trim_all_white_space(t);
    }
}

/// What trimming a trailing character leaves no longer ends with it, so
/// trimming again changes nothing.
pub proof fn lemma_trim_end_char_settles(s: Seq<char>, c: char)
    ensures
        trim_end_char(s, c).len() == 0 || trim_end_char(s, c).last() != c,
        trim_end_char(trim_end_char(s, c), c) == trim_end_char(s, c),
    decreases s.len(),
{
    if s.len() > 0 && s.last() == c {
        lemma_trim_end_char_settles(s.drop_last(), c);
    }
}

} // verus!
