//! Whitespace, trimming and lines over sequences of characters.
//!
//! A text is modelled as a `Seq<char>`. A line ends at a line feed or at the
//! end of the text; the line feed belongs to no line.

use vstd::prelude::*;
use vstd::string::*;

verus! {

/// The characters with the Unicode property `White_Space`.
pub open spec fn is_whitespace(c: char) -> bool {
    let n = c as u32;
    ||| 0x09 <= n <= 0x0D
    ||| n == 0x20
    ||| n == 0x85
    ||| n == 0xA0
    ||| n == 0x1680
    ||| 0x2000 <= n <= 0x200A
    ||| n == 0x2028
    ||| n == 0x2029
    ||| n == 0x202F
    ||| n == 0x205F
    ||| n == 0x3000
}

/// Every character of `s` is whitespace. The empty text is blank.
pub open spec fn blank(s: Seq<char>) -> bool {
    forall|i: int| 0 <= i < s.len() ==> is_whitespace(#[trigger] s[i])
}

/// `s` without its leading whitespace.
pub open spec fn trimmed_start(s: Seq<char>) -> Seq<char>
    decreases s.len(),
{
    if s.len() > 0 && is_whitespace(s.first()) {
        trimmed_start(s.drop_first())
    } else {
        s
    }
}

/// `s` without its trailing whitespace.
pub open spec fn trimmed_end(s: Seq<char>) -> Seq<char>
    decreases s.len(),
{
    if s.len() > 0 && is_whitespace(s.last()) {
        trimmed_end(s.drop_last())
    } else {
        s
    }
}

/// `s` without its leading and trailing whitespace.
pub open spec fn trimmed(s: Seq<char>) -> Seq<char> {
    trimmed_end(trimmed_start(s))
}

/// The length of the first line of `s`: the position of its first line feed,
/// or the length of `s` where it holds none.
pub open spec fn line_end(s: Seq<char>) -> int
    decreases s.len(),
{
    if s.len() == 0 || s.first() == '\n' {
        0
    } else {
        1 + line_end(s.drop_first())
    }
}

/// The first line of `s`, without its line feed.
pub open spec fn first_line(s: Seq<char>) -> Seq<char> {
    s.take(line_end(s))
}

/// `s` from the first line on that is not blank, or the empty text where
/// every line is blank.
pub open spec fn without_leading_blank_lines(s: Seq<char>) -> Seq<char>
    decreases s.len(),
{
    let e = line_end(s);
    if !blank(s.take(e)) {
        s
    } else if 0 <= e < s.len() {
        without_leading_blank_lines(s.skip(e + 1))
    } else {
        Seq::empty()
    }
}

/// An answer that, trimmed, is the letter y in either case.
pub open spec fn affirmative(s: Seq<char>) -> bool {
    trimmed(s) == seq!['y'] || trimmed(s) == seq!['Y']
}

/// Leading whitespace ends at `lo`: everything before it is whitespace and
/// the character at `lo`, if there is one, is not.
pub proof fn lemma_trimmed_start_at(s: Seq<char>, lo: int)
    requires
        0 <= lo <= s.len(),
        forall|k: int| 0 <= k < lo ==> is_whitespace(#[trigger] s[k]),
        lo < s.len() ==> !is_whitespace(s[lo]),
    ensures
        trimmed_start(s) == s.skip(lo),
    decreases lo,
{
    if lo == 0 {
        assert(s.skip(0) =~= s);
    } else {
        assert(is_whitespace(s[0]));
        let t = s.drop_first();
        assert forall|k: int| 0 <= k < lo - 1 implies is_whitespace(#[trigger] t[k]) by {
            assert(t[k] == s[k + 1]);
        }
        lemma_trimmed_start_at(t, lo - 1);
        assert(t.skip(lo - 1) =~= s.skip(lo));
    }
}

/// Trailing whitespace starts at `hi`: everything from it on is whitespace
/// and the character before `hi`, if there is one, is not.
pub proof fn lemma_trimmed_end_at(s: Seq<char>, hi: int)
    requires
        0 <= hi <= s.len(),
        forall|k: int| hi <= k < s.len() ==> is_whitespace(#[trigger] s[k]),
        0 < hi ==> !is_whitespace(s[hi - 1]),
    ensures
        trimmed_end(s) == s.take(hi),
    decreases s.len() - hi,
{
    if hi == s.len() {
        assert(s.take(hi) =~= s);
    } else {
        assert(is_whitespace(s[s.len() - 1]));
        let t = s.drop_last();
        assert forall|k: int| hi <= k < t.len() implies is_whitespace(#[trigger] t[k]) by {
            assert(t[k] == s[k]);
        }
        lemma_trimmed_end_at(t, hi);
        assert(t.take(hi) =~= s.take(hi));
    }
}

/// The trimmed text is the part between the first and the last character
/// that are not whitespace.
pub proof fn lemma_trimmed_is_subrange(s: Seq<char>, lo: int, hi: int)
    requires
        0 <= lo <= hi <= s.len(),
        forall|k: int| 0 <= k < lo ==> is_whitespace(#[trigger] s[k]),
        forall|k: int| hi <= k < s.len() ==> is_whitespace(#[trigger] s[k]),
        lo < s.len() ==> !is_whitespace(s[lo]),
        lo < hi ==> !is_whitespace(s[hi - 1]),
    ensures
        trimmed(s) == s.subrange(lo, hi),
{
    lemma_trimmed_start_at(s, lo);
    let t = s.skip(lo);
    assert forall|k: int| hi - lo <= k < t.len() implies is_whitespace(#[trigger] t[k]) by {
        assert(t[k] == s[k + lo]);
    }
    if lo < hi {
        assert(t[hi - lo - 1] == s[hi - 1]);
    }
    lemma_trimmed_end_at(t, hi - lo);
    assert(t.take(hi - lo) =~= s.subrange(lo, hi));
}

/// Where the leading whitespace of `s` ends.
pub proof fn lemma_leading_whitespace(s: Seq<char>) -> (lo: int)
    ensures
        0 <= lo <= s.len(),
        forall|k: int| 0 <= k < lo ==> is_whitespace(#[trigger] s[k]),
        lo < s.len() ==> !is_whitespace(s[lo]),
        trimmed_start(s) == s.skip(lo),
    decreases s.len(),
{
    let lo = if s.len() > 0 && is_whitespace(s.first()) {
        let t = s.drop_first();
        let l = lemma_leading_whitespace(t);
        assert forall|k: int| 0 <= k < l + 1 implies is_whitespace(#[trigger] s[k]) by {
            if k > 0 {
                assert(t[k - 1] == s[k]);
            }
        }
        if l + 1 < s.len() {
            assert(t[l] == s[l + 1]);
        }
        l + 1
    } else {
        0
    };
    lemma_trimmed_start_at(s, lo);
    lo
}

/// Where the trailing whitespace of `s` starts.
pub proof fn lemma_trailing_whitespace(s: Seq<char>) -> (hi: int)
    ensures
        0 <= hi <= s.len(),
        forall|k: int| hi <= k < s.len() ==> is_whitespace(#[trigger] s[k]),
        0 < hi ==> !is_whitespace(s[hi - 1]),
        trimmed_end(s) == s.take(hi),
    decreases s.len(),
{
    let hi = if s.len() > 0 && is_whitespace(s.last()) {
        let t = s.drop_last();
        let h = lemma_trailing_whitespace(t);
        assert forall|k: int| h <= k < s.len() implies is_whitespace(#[trigger] s[k]) by {
            if k < t.len() {
                assert(t[k] == s[k]);
            }
        }
        if 0 < h {
            assert(t[h - 1] == s[h - 1]);
        }
        h
    } else {
        s.len() as int
    };
    lemma_trimmed_end_at(s, hi);
    hi
}

/// A text is blank exactly when nothing is left of it after trimming.
pub proof fn lemma_blank_iff_trimmed_empty(s: Seq<char>)
    ensures
        blank(s) <==> trimmed(s).len() == 0,
{
    let lo = lemma_leading_whitespace(s);
    let t = s.skip(lo);
    let hi = lemma_trailing_whitespace(t);
    if lo < s.len() {
        assert(t[0] == s[lo]);
        assert(hi > 0);
    }
}

/// The first line feed of `s` stands at `e`, or `e` is the length of `s`
/// and `s` holds no line feed.
pub proof fn lemma_line_end_at(s: Seq<char>, e: int)
    requires
        0 <= e <= s.len(),
        forall|k: int| 0 <= k < e ==> #[trigger] s[k] != '\n',
        e < s.len() ==> s[e] == '\n',
    ensures
        line_end(s) == e,
    decreases e,
{
    if e > 0 {
        assert(s[0] != '\n');
        let t = s.drop_first();
        assert forall|k: int| 0 <= k < e - 1 implies #[trigger] t[k] != '\n' by {
            assert(t[k] == s[k + 1]);
        }
        lemma_line_end_at(t, e - 1);
    }
}

/// Whether `c` is whitespace.
pub fn char_is_whitespace(c: char) -> (b: bool)
    ensures
        b == is_whitespace(c),
{
    let n: u32 = c as u32;
    (0x09 <= n && n <= 0x0D) || n == 0x20 || n == 0x85 || n == 0xA0 || n == 0x1680 || (0x2000 <= n
        && n <= 0x200A) || n == 0x2028 || n == 0x2029 || n == 0x202F || n == 0x205F || n == 0x3000
}

/// The characters of `s`, one element each.
pub fn chars_of(s: &str) -> (v: Vec<char>)
    ensures
        v@ == s@,
{
    let mut v: Vec<char> = Vec::new();
    for c in it: s.chars()
        invariant
            v@ == it.seq().take(it.index() as int),
    {
        v.push(c);
    }
    v
}

/// The first position in `from..to` that holds no whitespace, or `to`.
pub(crate) fn skip_whitespace(v: &Vec<char>, from: usize, to: usize) -> (i: usize)
    requires
        from <= to <= v.len(),
    ensures
        from <= i <= to,
        forall|k: int| from <= k < i ==> is_whitespace(#[trigger] v@[k]),
        i < to ==> !is_whitespace(v@[i as int]),
{
    let mut i: usize = from;
    while i < to && char_is_whitespace(v[i])
        invariant
            from <= i <= to <= v.len(),
            forall|k: int| from <= k < i ==> is_whitespace(#[trigger] v@[k]),
        decreases to - i,
    {
        i += 1;
    }
    i
}

/// The end of the last stretch in `from..to` that holds no whitespace: the
/// position after the last character that is none, or `from`.
pub(crate) fn skip_whitespace_back(v: &Vec<char>, from: usize, to: usize) -> (j: usize)
    requires
        from <= to <= v.len(),
    ensures
        from <= j <= to,
        forall|k: int| j <= k < to ==> is_whitespace(#[trigger] v@[k]),
        from < j ==> !is_whitespace(v@[j - 1]),
{
    let mut j: usize = to;
    while j > from && char_is_whitespace(v[j - 1])
        invariant
            from <= j <= to <= v.len(),
            forall|k: int| j <= k < to ==> is_whitespace(#[trigger] v@[k]),
        decreases j - from,
    {
        j -= 1;
    }
    j
}

/// The position of the first line feed at or after `from`, or the length.
pub(crate) fn find_line_end(v: &Vec<char>, from: usize) -> (e: usize)
    requires
        from <= v.len(),
    ensures
        from <= e <= v.len(),
        e - from == line_end(v@.skip(from as int)),
        forall|k: int| from <= k < e ==> #[trigger] v@[k] != '\n',
        e < v.len() ==> v@[e as int] == '\n',
{
    let mut e: usize = from;
    while e < v.len() && v[e] != '\n'
        invariant
            from <= e <= v.len(),
            forall|k: int| from <= k < e ==> #[trigger] v@[k] != '\n',
        decreases v.len() - e,
    {
        e += 1;
    }
    proof {
        let t = v@.skip(from as int);
        assert forall|k: int| 0 <= k < e - from implies #[trigger] t[k] != '\n' by {
            assert(t[k] == v@[k + from]);
        }
        lemma_line_end_at(t, e - from);
    }
    e
}

/// The bounds of what trimming leaves of `v[from..to]`.
pub(crate) fn trimmed_bounds(v: &Vec<char>, from: usize, to: usize) -> (r: (usize, usize))
    requires
        from <= to <= v.len(),
    ensures
        from <= r.0 <= r.1 <= to,
        v@.subrange(r.0 as int, r.1 as int) == trimmed(v@.subrange(from as int, to as int)),
{
    let lo = skip_whitespace(v, from, to);
    let hi = skip_whitespace_back(v, lo, to);
    proof {
        let s = v@.subrange(from as int, to as int);
        assert forall|k: int| 0 <= k < lo - from implies is_whitespace(#[trigger] s[k]) by {
            assert(s[k] == v@[k + from]);
        }
        assert forall|k: int| hi - from <= k < s.len() implies is_whitespace(#[trigger] s[k]) by {
            assert(s[k] == v@[k + from]);
        }
        if lo < to {
            assert(s[lo - from] == v@[lo as int]);
        }
        if lo < hi {
            assert(s[hi - from - 1] == v@[hi - 1]);
        }
        lemma_trimmed_is_subrange(s, lo - from, hi - from);
        assert(s.subrange(lo - from, hi - from) =~= v@.subrange(lo as int, hi as int));
    }
    (lo, hi)
}

/// `s` without its leading and trailing whitespace.
pub fn trim(s: &str) -> (t: String)
    ensures
        t@ == trimmed(s@),
{
    let v = chars_of(s);
    let (lo, hi) = trimmed_bounds(&v, 0, v.len());
    assert(v@.subrange(0, v.len() as int) =~= v@);
    s.substring_char(lo, hi).to_owned()
}

/// Whether `s` holds nothing but whitespace.
pub fn is_blank(s: &str) -> (b: bool)
    ensures
        b == blank(s@),
        b == (trimmed(s@).len() == 0),
{
    let v = chars_of(s);
    let i = skip_whitespace(&v, 0, v.len());
    proof {
        lemma_blank_iff_trimmed_empty(s@);
    }
    i == v.len()
}

/// Whether `s` answers a yes-or-no question with yes.
pub fn is_affirmative(s: &str) -> (b: bool)
    ensures
        b == affirmative(s@),
{
    let v = chars_of(s);
    let (lo, hi) = trimmed_bounds(&v, 0, v.len());
    assert(v@.subrange(0, v.len() as int) =~= v@);
    let b = hi - lo == 1 && (v[lo] == 'y' || v[lo] == 'Y');
    proof {
        let t = v@.subrange(lo as int, hi as int);
        if b {
            assert(t =~= seq![v@[lo as int]]);
        } else if t.len() == 1 {
            assert(t[0] == v@[lo as int]);
            assert(seq!['y'][0] == 'y');
            assert(seq!['Y'][0] == 'Y');
        } else {
            assert(seq!['y'].len() == 1);
            assert(seq!['Y'].len() == 1);
        }
    }
    b
}

} // verus!
