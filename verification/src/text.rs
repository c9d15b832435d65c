//! Character-level helpers: Unicode white space, trimming and line search.

use vstd::prelude::*;

verus! {

/// The characters with the Unicode `White_Space` property (what
/// `char::is_whitespace` and `str::trim` treat as white space).
pub open spec fn is_ws(c: char) -> bool {
    ||| ('\u{9}' <= c && c <= '\u{d}')
    ||| c == ' '
    ||| c == '\u{85}'
    ||| c == '\u{a0}'
    ||| c == '\u{1680}'
    ||| ('\u{2000}' <= c && c <= '\u{200a}')
    ||| c == '\u{2028}'
    ||| c == '\u{2029}'
    ||| c == '\u{202f}'
    ||| c == '\u{205f}'
    ||| c == '\u{3000}'
}

/// Executable test for [`is_ws`].
pub fn is_ws_char(c: char) -> (r: bool)
    ensures
        r == is_ws(c),
{
    ('\u{9}' <= c && c <= '\u{d}') || c == ' ' || c == '\u{85}' || c == '\u{a0}' || c == '\u{1680}'
        || ('\u{2000}' <= c && c <= '\u{200a}') || c == '\u{2028}' || c == '\u{2029}'
        || c == '\u{202f}' || c == '\u{205f}' || c == '\u{3000}'
}

/// `s` without its leading white space.
pub open spec fn trim_start(s: Seq<char>) -> Seq<char>
    decreases s.len(),
{
    if s.len() > 0 && is_ws(s[0]) {
        trim_start(s.drop_first())
    } else {
        s
    }
}

/// `s` without its trailing white space.
pub open spec fn trim_end(s: Seq<char>) -> Seq<char>
    decreases s.len(),
{
    if s.len() > 0 && is_ws(s.last()) {
        trim_end(s.drop_last())
    } else {
        s
    }
}

/// `s` without leading and trailing white space, as `str::trim` gives it.
pub open spec fn trim(s: Seq<char>) -> Seq<char> {
    trim_end(trim_start(s))
}

/// The characters of `s`, in order.
pub fn chars_of(s: &str) -> (v: Vec<char>)
    ensures
        v@ == s@,
{
    let mut v: Vec<char> = Vec::new();
    for c in it: s.chars()
        invariant
            v@ == it.seq().take(it.index()),
            it.seq() == s@,
    {
        v.push(c);
    }
    v
}


proof fn lemma_trim_start_skip(s: Seq<char>, a: int)
    requires
        0 <= a <= s.len(),
        forall|k: int| 0 <= k < a ==> is_ws(#[trigger] s[k]),
    ensures
        trim_start(s) == trim_start(s.subrange(a, s.len() as int)),
    decreases a,
{
    if a == 0 {
        assert(s.subrange(0, s.len() as int) =~= s);
    } else {
        let t = s.drop_first();
        assert forall|k: int| 0 <= k < a - 1 implies is_ws(#[trigger] t[k]) by {
            assert(t[k] == s[k + 1]);
        }
        lemma_trim_start_skip(t, a - 1);
        assert(t.subrange(a - 1, t.len() as int) =~= s.subrange(a, s.len() as int));
    }
}

proof fn lemma_trim_end_skip(s: Seq<char>, b: int)
    requires
        0 <= b <= s.len(),
        forall|k: int| b <= k < s.len() ==> is_ws(#[trigger] s[k]),
    ensures
        trim_end(s) == trim_end(s.subrange(0, b)),
    decreases s.len() - b,
{
    if b == s.len() {
        assert(s.subrange(0, b) =~= s);
    } else {
        let t = s.drop_last();
        assert forall|k: int| b <= k < t.len() implies is_ws(#[trigger] t[k]) by {
            assert(t[k] == s[k]);
        }
        lemma_trim_end_skip(t, b);
        assert(t.subrange(0, b) =~= s.subrange(0, b));
    }
}

proof fn lemma_trim_start_shape(s: Seq<char>)
    ensures
        trim_start(s).len() == 0 || !is_ws(trim_start(s)[0]),
    decreases s.len(),
{
    if s.len() > 0 && is_ws(s[0]) {
        lemma_trim_start_shape(s.drop_first());
    }
}

proof fn lemma_trim_end_shape(s: Seq<char>)
    ensures
        trim_end(s).len() <= s.len(),
        trim_end(s) == s.subrange(0, trim_end(s).len() as int),
        trim_end(s).len() == 0 || !is_ws(trim_end(s).last()),
    decreases s.len(),
{
    if s.len() > 0 && is_ws(s.last()) {
        lemma_trim_end_shape(s.drop_last());
        assert(s.drop_last().subrange(0, trim_end(s).len() as int) =~= s.subrange(
            0,
            trim_end(s).len() as int,
        ));
    } else {
        assert(s.subrange(0, s.len() as int) =~= s);
    }
}

/// Trimming twice is trimming once.
pub proof fn law_trim_idempotent(s: Seq<char>)
    ensures
        trim(trim(s)) == trim(s),
{
    let x = trim_start(s);
    let y = trim_end(x);
    lemma_trim_start_shape(s);
    lemma_trim_end_shape(x);
    if y.len() > 0 {
        assert(y[0] == x[0]);
    }
    assert(trim_start(y) == y);
    assert(trim_end(y) == y);
}

/// Bounds of the trimmed part of `v[lo..hi]`.
pub fn trim_range(v: &Vec<char>, lo: usize, hi: usize) -> (r: (usize, usize))
    requires
        lo <= hi <= v.len(),
    ensures
        lo <= r.0 <= r.1 <= hi,
        v@.subrange(r.0 as int, r.1 as int) == trim(v@.subrange(lo as int, hi as int)),
{
    let mut a = lo;
    while a < hi && is_ws_char(v[a])
        invariant
            lo <= a <= hi <= v.len(),
            forall|k: int| lo <= k < a ==> is_ws(#[trigger] v@[k]),
        decreases hi - a,
    {
        a = a + 1;
    }
    let mut b = hi;
    while b > a && is_ws_char(v[b - 1])
        invariant
            lo <= a <= b <= hi <= v.len(),
            forall|k: int| b <= k < hi ==> is_ws(#[trigger] v@[k]),
        decreases b - a,
    {
        b = b - 1;
    }
    proof {
        let s = v@.subrange(lo as int, hi as int);
        assert forall|k: int| 0 <= k < a - lo implies is_ws(#[trigger] s[k]) by {
            assert(s[k] == v@[lo + k]);
        }
        lemma_trim_start_skip(s, a - lo);
        let t = s.subrange(a - lo, s.len() as int);
        assert(t =~= v@.subrange(a as int, hi as int));
        if a < hi {
            assert(t[0] == v@[a as int]);
        }
        assert(trim_start(t) == t);
        assert forall|k: int| b - a <= k < t.len() implies is_ws(#[trigger] t[k]) by {
            assert(t[k] == v@[a + k]);
        }
        lemma_trim_end_skip(t, b - a);
        let u = t.subrange(0, b - a);
        assert(u =~= v@.subrange(a as int, b as int));
        if b > a {
            assert(u.last() == v@[b - 1]);
        }
        assert(trim_end(u) == u);
    }
    (a, b)
}

/// `s` without leading and trailing white space.
pub fn trim_str(s: &str) -> (r: String)
    ensures
        r@ == trim(s@),
{
    let v = chars_of(s);
    let (a, b) = trim_range(&v, 0, v.len());
    assert(v@.subrange(0, v@.len() as int) =~= s@);
    let part = s.substring_char(a, b);
    String::from_str(part)
}

/// Whether `v[a..b]` equals `w`.
pub fn range_equals(v: &Vec<char>, a: usize, b: usize, w: &Vec<char>) -> (r: bool)
    requires
        a <= b <= v.len(),
    ensures
        r == (v@.subrange(a as int, b as int) == w@),
{
    if b - a != w.len() {
        return false;
    }
    let mut i: usize = 0;
    while i < w.len()
        invariant
            a <= b <= v.len(),
            b - a == w.len(),
            i <= w.len(),
            forall|k: int| 0 <= k < i ==> v@[a + k] == w@[k],
        decreases w.len() - i,
    {
        if v[a + i] != w[i] {
            assert(v@.subrange(a as int, b as int)[i as int] != w@[i as int]);
            return false;
        }
        i = i + 1;
    }
    assert(v@.subrange(a as int, b as int) =~= w@);
    true
}

/// `v[i..j]` is one line of `v`: it starts at the beginning or after a line
/// feed, ends at the end or before a line feed, holds no line feed, and does
/// not begin at the very end (so a final line feed opens no further line).
pub open spec fn is_line(v: Seq<char>, i: int, j: int) -> bool {
    &&& 0 <= i <= j <= v.len()
    &&& i < v.len()
    &&& (i == 0 || v[i - 1] == '\n')
    &&& (j == v.len() || v[j] == '\n')
    &&& forall|k: int| i <= k < j ==> v[k] != '\n'
}

/// Some line of `text`, trimmed, equals `line` (what
/// `text.lines().any(|l| l.trim() == line)` computes; a carriage return
/// before a line feed is white space and falls to the trim).
pub open spec fn has_trimmed_line(text: Seq<char>, line: Seq<char>) -> bool {
    exists|i: int, j: int| is_line(text, i, j) && trim(#[trigger] text.subrange(i, j)) == line
}

/// Whether some line of `text`, trimmed, equals `line`.
pub fn contains_trimmed_line(text: &str, line: &str) -> (r: bool)
    ensures
        r == has_trimmed_line(text@, line@),
{
    let v = chars_of(text);
    let w = chars_of(line);
    let n = v.len();
    let mut start: usize = 0;
    let mut k: usize = 0;
    while k < n
        invariant
            v@ == text@,
            w@ == line@,
            n == v.len(),
            start <= k <= n,
            start == 0 || v@[start - 1] == '\n',
            forall|m: int| start <= m < k ==> v@[m] != '\n',
            forall|i: int, j: int|
                is_line(v@, i, j) && j < k ==> trim(#[trigger] v@.subrange(i, j)) != w@,
        decreases n - k,
    {
        if v[k] == '\n' {
            let (a, b) = trim_range(&v, start, k);
            if range_equals(&v, a, b, &w) {
                assert(is_line(v@, start as int, k as int));
                return true;
            }
            proof {
                assert forall|i: int, j: int|
                    is_line(v@, i, j) && j < k + 1 implies trim(#[trigger] v@.subrange(i, j)) != w@ by {
                    if j == k {
                        if i < start {
                            assert(v@[start - 1] == '\n');
                        } else if i > start {
                            assert(v@[i - 1] != '\n');
                        }
                    }
                }
            }
            start = k + 1;
        } else {
            proof {
                assert forall|i: int, j: int|
                    is_line(v@, i, j) && j < k + 1 implies trim(#[trigger] v@.subrange(i, j)) != w@ by {
                    assert(j != k);
                }
            }
        }
        k = k + 1;
    }
    if start < n {
        let (a, b) = trim_range(&v, start, n);
        if range_equals(&v, a, b, &w) {
            assert(is_line(v@, start as int, n as int));
            return true;
        }
    }
    proof {
        assert forall|i: int, j: int| is_line(text@, i, j) implies trim(
            #[trigger] text@.subrange(i, j),
        ) != line@ by {
            if j == n {
                if i < start {
                    assert(v@[start - 1] == '\n');
                } else if i > start {
                    assert(v@[i - 1] != '\n');
                }
            }
        }
    }
    false
}

/// `p` occurs in `s` as a contiguous run.
pub open spec fn contains_run(s: Seq<char>, p: Seq<char>) -> bool {
    exists|i: int| 0 <= i && i + p.len() <= s.len() && #[trigger] s.subrange(i, i + p.len()) == p
}

/// Whether `pattern` occurs in `s` (what `str::contains` with a `&str`
/// pattern computes).
pub fn contains_str(s: &str, pattern: &str) -> (r: bool)
    ensures
        r == contains_run(s@, pattern@),
{
    let v = chars_of(s);
    let w = chars_of(pattern);
    if w.len() > v.len() {
        return false;
    }
    let last = v.len() - w.len();
    let mut i: usize = 0;
    loop
        invariant
            v@ == s@,
            w@ == pattern@,
            last == v.len() - w.len(),
            w.len() <= v.len(),
            i <= last,
            forall|m: int| 0 <= m < i ==> #[trigger] v@.subrange(m, m + w@.len()) != w@,
        decreases last - i,
    {
        if range_equals(&v, i, i + w.len(), &w) {
            return true;
        }
        if i == last {
            return false;
        }
        i = i + 1;
    }
}


/// Whether `s` reads `lit`.
pub fn equals_literal(s: &String, lit: &str) -> (r: bool)
    ensures
        r == (s@ == lit@),
{
    let l = String::from_str(lit);
    *s == l
}

} // verus!
