//! Character-level helpers on strings: Unicode whitespace, trimming,
//! equality, lexicographic order and decimal port numbers.

use vstd::prelude::*;

verus! {

/// The Unicode `White_Space` property, which `char::is_whitespace` and
/// `str::trim` use.
pub open spec fn is_white_space(c: char) -> bool {
    let n = c as u32;
    ||| (0x09 <= n && n <= 0x0d)
    ||| n == 0x20
    ||| n == 0x85
    ||| n == 0xa0
    ||| n == 0x1680
    ||| (0x2000 <= n && n <= 0x200a)
    ||| n == 0x2028
    ||| n == 0x2029
    ||| n == 0x202f
    ||| n == 0x205f
    ||| n == 0x3000
}

/// Every character of `s` is whitespace (so trimming `s` leaves nothing).
pub open spec fn is_blank(s: Seq<char>) -> bool {
    forall|i: int| 0 <= i < s.len() ==> is_white_space(#[trigger] s[i])
}

/// Index of the first non-whitespace character at or after `i`
/// (`s.len()` when there is none).
pub open spec fn first_non_ws_from(s: Seq<char>, i: int) -> int
    decreases s.len() - i,
{
    if i >= s.len() {
        s.len() as int
    } else if !is_white_space(s[i]) {
        i
    } else {
        first_non_ws_from(s, i + 1)
    }
}

/// One past the last non-whitespace character before `j`
/// (`lo` when there is none at or after `lo`).
pub open spec fn last_non_ws_before(s: Seq<char>, lo: int, j: int) -> int
    decreases j - lo,
{
    if j <= lo {
        lo
    } else if !is_white_space(s[j - 1]) {
        j
    } else {
        last_non_ws_before(s, lo, j - 1)
    }
}

/// `s` with leading and trailing whitespace removed, as `str::trim` does.
pub open spec fn trimmed(s: Seq<char>) -> Seq<char> {
    let lo = first_non_ws_from(s, 0);
    let hi = last_non_ws_before(s, lo, s.len() as int);
    s.subrange(lo, hi)
}

proof fn lemma_first_non_ws_bounds(s: Seq<char>, i: int)
    requires
        0 <= i <= s.len(),
    ensures
        i <= first_non_ws_from(s, i) <= s.len(),
        forall|k: int| i <= k < first_non_ws_from(s, i) ==> is_white_space(#[trigger] s[k]),
        first_non_ws_from(s, i) < s.len() ==> !is_white_space(s[first_non_ws_from(s, i)]),
    decreases s.len() - i,
{
    if i < s.len() && is_white_space(s[i]) {
        lemma_first_non_ws_bounds(s, i + 1);
    }
}

proof fn lemma_last_non_ws_bounds(s: Seq<char>, lo: int, j: int)
    requires
        0 <= lo <= j <= s.len(),
    ensures
        lo <= last_non_ws_before(s, lo, j) <= j,
        forall|k: int| last_non_ws_before(s, lo, j) <= k < j ==> is_white_space(#[trigger] s[k]),
        last_non_ws_before(s, lo, j) > lo ==> !is_white_space(s[last_non_ws_before(s, lo, j) - 1]),
    decreases j - lo,
{
    if j > lo && is_white_space(s[j - 1]) {
        lemma_last_non_ws_bounds(s, lo, j - 1);
    }
}

/// A string is blank exactly when trimming it leaves nothing.
pub proof fn lemma_blank_iff_trimmed_empty(s: Seq<char>)
    ensures
        is_blank(s) <==> trimmed(s).len() == 0,
{
    lemma_first_non_ws_bounds(s, 0);
    let lo = first_non_ws_from(s, 0);
    lemma_last_non_ws_bounds(s, lo, s.len() as int);
    if lo < s.len() {
        assert(!is_white_space(s[lo]));
        assert(last_non_ws_before(s, lo, s.len() as int) > lo) by {
            if last_non_ws_before(s, lo, s.len() as int) == lo {
                assert(is_white_space(s[lo]));
            }
        }
    }
}

/// Trimming cuts a string down to the part between its leading and its
/// trailing whitespace: what is cut off on either side is whitespace, and
/// what is left neither starts nor ends with whitespace.
pub proof fn law_trim_cuts_only_surrounding_whitespace(s: Seq<char>)
    ensures
        exists|lo: int, hi: int|
            0 <= lo <= hi <= s.len() && trimmed(s) == s.subrange(lo, hi) && (forall|k: int|
                0 <= k < lo ==> is_white_space(#[trigger] s[k])) && (forall|k: int|
                hi <= k < s.len() ==> is_white_space(#[trigger] s[k])),
        trimmed(s).len() > 0 ==> !is_white_space(trimmed(s)[0]) && !is_white_space(
            trimmed(s)[trimmed(s).len() - 1],
        ),
{
    lemma_first_non_ws_bounds(s, 0);
    let lo = first_non_ws_from(s, 0);
    lemma_last_non_ws_bounds(s, lo, s.len() as int);
    let hi = last_non_ws_before(s, lo, s.len() as int);
    assert(trimmed(s) == s.subrange(lo, hi));
    if hi > lo {
        assert(trimmed(s)[0] == s[lo]);
        assert(trimmed(s)[trimmed(s).len() - 1] == s[hi - 1]);
    }
}

/// Trimming a string that is surrounded only by whitespace, and neither
/// starts nor ends with whitespace itself, gives that string back.
pub proof fn lemma_trim_surrounded(pre: Seq<char>, s: Seq<char>, post: Seq<char>)
    requires
        is_blank(pre),
        is_blank(post),
        s.len() > 0,
        !is_white_space(s[0]),
        !is_white_space(s[s.len() - 1]),
    ensures
        trimmed(pre + s + post) == s,
{
    let full = pre + s + post;
    let a = pre.len() as int;
    let b = a + s.len();
    lemma_first_non_ws_bounds(full, 0);
    let lo = first_non_ws_from(full, 0);
    assert(full[a] == s[0]);
    if lo < a {
        assert(full[lo] == pre[lo]);
    }
    if lo > a {
        assert(is_white_space(full[a]));
    }
    assert(lo == a);
    lemma_last_non_ws_bounds(full, lo, full.len() as int);
    let hi = last_non_ws_before(full, lo, full.len() as int);
    assert(full[b - 1] == s[s.len() - 1]);
    if hi > b {
        assert(full[hi - 1] == post[hi - 1 - b]);
    }
    if hi < b {
        assert(is_white_space(full[b - 1]));
    }
    assert(hi == b);
    assert(full.subrange(a, b) =~= s);
}

/// Whether `c` is whitespace, as `char::is_whitespace` decides.
pub fn is_white_space_char(c: char) -> (r: bool)
    ensures
        r == is_white_space(c),
{
    let n = c as u32;
    (0x09 <= n && n <= 0x0d) || n == 0x20 || n == 0x85 || n == 0xa0 || n == 0x1680 || (0x2000
        <= n && n <= 0x200a) || n == 0x2028 || n == 0x2029 || n == 0x202f || n == 0x205f || n
        == 0x3000
}

/// `s` with leading and trailing whitespace removed.
pub fn trim(s: &str) -> (r: String)
    ensures
        r@ == trimmed(s@),
{
    let len = s.unicode_len();
    let mut lo: usize = 0;
    while lo < len && is_white_space_char(s.get_char(lo))
        invariant
            len == s@.len(),
            lo <= len,
            first_non_ws_from(s@, lo as int) == first_non_ws_from(s@, 0),
        decreases len - lo,
    {
        lo = lo + 1;
    }
    let mut hi: usize = len;
    while hi > lo && is_white_space_char(s.get_char(hi - 1))
        invariant
            len == s@.len(),
            lo <= hi <= len,
            first_non_ws_from(s@, 0) == lo,
            last_non_ws_before(s@, lo as int, hi as int) == last_non_ws_before(
                s@,
                lo as int,
                len as int,
            ),
        decreases hi - lo,
    {
        hi = hi - 1;
    }
    s.substring_char(lo, hi).to_string()
}

/// Whether every character of `s` is whitespace.
pub fn blank(s: &str) -> (r: bool)
    ensures
        r == is_blank(s@),
{
    let len = s.unicode_len();
    let mut i: usize = 0;
    while i < len
        invariant
            len == s@.len(),
            i <= len,
            forall|k: int| 0 <= k < i ==> is_white_space(#[trigger] s@[k]),
        decreases len - i,
    {
        if !is_white_space_char(s.get_char(i)) {
            return false;
        }
        i = i + 1;
    }
    true
}

/// Whether two strings hold the same characters.
pub fn same_text(a: &str, b: &str) -> (r: bool)
    ensures
        r == (a@ == b@),
{
    let n = a.unicode_len();
    if n != b.unicode_len() {
        return false;
    }
    let mut i: usize = 0;
    while i < n
        invariant
            n == a@.len(),
            n == b@.len(),
            i <= n,
            forall|k: int| 0 <= k < i ==> a@[k] == b@[k],
        decreases n - i,
    {
        if a.get_char(i) != b.get_char(i) {
            return false;
        }
        i = i + 1;
    }
    assert(a@ =~= b@);
    true
}

/// Whether `a` comes no later than `b` in the order of `str`'s `Ord`:
/// lexicographic by character (which is UTF-8 byte order), a prefix first.
pub open spec fn text_le(a: Seq<char>, b: Seq<char>) -> bool
    decreases a.len(),
{
    if a.len() == 0 {
        true
    } else if b.len() == 0 {
        false
    } else if a[0] != b[0] {
        a[0] < b[0]
    } else {
        text_le(a.drop_first(), b.drop_first())
    }
}

/// Any two strings are ordered one way or the other.
pub proof fn lemma_text_le_total(a: Seq<char>, b: Seq<char>)
    ensures
        text_le(a, b) || text_le(b, a),
    decreases a.len(),
{
    if a.len() > 0 && b.len() > 0 && a[0] == b[0] {
        lemma_text_le_total(a.drop_first(), b.drop_first());
    }
}

/// The order is transitive.
pub proof fn lemma_text_le_transitive(a: Seq<char>, b: Seq<char>, c: Seq<char>)
    requires
        text_le(a, b),
        text_le(b, c),
    ensures
        text_le(a, c),
    decreases a.len(),
{
    if a.len() > 0 && b.len() > 0 && c.len() > 0 && a[0] == b[0] && b[0] == c[0] {
        lemma_text_le_transitive(a.drop_first(), b.drop_first(), c.drop_first());
    }
}

/// Only equal strings come no later than each other.
pub proof fn lemma_text_le_antisymmetric(a: Seq<char>, b: Seq<char>)
    requires
        text_le(a, b),
        text_le(b, a),
    ensures
        a == b,
    decreases a.len(),
{
    if a.len() > 0 && b.len() > 0 {
        lemma_text_le_antisymmetric(a.drop_first(), b.drop_first());
        assert(a =~= seq![a[0]] + a.drop_first());
        assert(b =~= seq![b[0]] + b.drop_first());
    }
}

/// How two strings are ordered: a prefix of a string comes no later than
/// it, and otherwise the first position where they differ decides, by the
/// characters there.
pub proof fn law_text_order(a: Seq<char>, b: Seq<char>, k: int)
    ensures
        (a.len() <= b.len() && a == b.subrange(0, a.len() as int)) ==> text_le(a, b),
        (0 <= k < a.len() && k < b.len() && a.subrange(0, k) == b.subrange(0, k) && a[k] != b[k])
            ==> (text_le(a, b) <==> a[k] < b[k]),
    decreases a.len(),
{
    if a.len() > 0 && b.len() > 0 {
        let a1 = a.drop_first();
        let b1 = b.drop_first();
        if a.len() <= b.len() && a == b.subrange(0, a.len() as int) {
            assert(a[0] == b[0]);
            assert(a1 =~= b1.subrange(0, a1.len() as int));
        }
        if 0 <= k < a.len() && k < b.len() && a.subrange(0, k) == b.subrange(0, k) && a[k] != b[k] {
            if k > 0 {
                assert(a[0] == a.subrange(0, k)[0]);
                assert(b[0] == b.subrange(0, k)[0]);
                assert(a1.subrange(0, k - 1) =~= b1.subrange(0, k - 1)) by {
                    assert forall|j: int| 0 <= j < k - 1 implies a1[j] == b1[j] by {
                        assert(a1[j] == a.subrange(0, k)[j + 1]);
                        assert(b1[j] == b.subrange(0, k)[j + 1]);
                    }
                }
            }
        }
        law_text_order(a1, b1, k - 1);
    }
}

/// Whether `a` comes no later than `b` (`a.cmp(b) != Greater`).
pub fn text_le_exec(a: &str, b: &str) -> (r: bool)
    ensures
        r == text_le(a@, b@),
{
    let n = a.unicode_len();
    let m = b.unicode_len();
    let mut i: usize = 0;
    assert(a@.skip(0) =~= a@);
    assert(b@.skip(0) =~= b@);
    while i < n && i < m
        invariant
            n == a@.len(),
            m == b@.len(),
            i <= n,
            i <= m,
            text_le(a@, b@) == text_le(a@.skip(i as int), b@.skip(i as int)),
        decreases n - i,
    {
        let x = a.get_char(i);
        let y = b.get_char(i);
        if x != y {
            assert(a@.skip(i as int)[0] == x);
            assert(b@.skip(i as int)[0] == y);
            return x < y;
        }
        assert(a@.skip(i as int).drop_first() =~= a@.skip(i + 1));
        assert(b@.skip(i as int).drop_first() =~= b@.skip(i + 1));
        i = i + 1;
    }
    if i == n {
        true
    } else {
        assert(b@.skip(i as int).len() == 0);
        false
    }
}

} // verus!
