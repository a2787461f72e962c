//! Text helpers: whitespace trimming of user input and the strikethrough
//! rendering of completed item titles.

use vstd::prelude::*;

verus! {

/// The Unicode `White_Space` property, which `char::is_whitespace` tests:
/// U+0009..=U+000D, U+0020, U+0085, U+00A0, U+1680, U+2000..=U+200A,
/// U+2028, U+2029, U+202F, U+205F and U+3000.
pub open spec fn spec_is_whitespace(c: char) -> bool {
    let n = c as u32;
    ||| 0x9 <= n <= 0xd
    ||| n == 0x20
    ||| n == 0x85
    ||| n == 0xa0
    ||| n == 0x1680
    ||| 0x2000 <= n <= 0x200a
    ||| n == 0x2028
    ||| n == 0x2029
    ||| n == 0x202f
    ||| n == 0x205f
    ||| n == 0x3000
}

/// `char::is_whitespace`: whether `c` has the Unicode `White_Space` property
/// (std documents the property; `spec_is_whitespace` lists its code points).
#[verifier::external_body]
fn char_is_whitespace(c: char) -> (r: bool)
    ensures
        r == spec_is_whitespace(c),
{
    c.is_whitespace()
}

/// `String::push`: appends one character.
#[verifier::external_body]
fn string_push(s: &mut String, c: char)
    ensures
        final(s)@ == old(s)@.push(c),
{
    s.push(c)
}

/// `s` without its leading whitespace.
pub open spec fn trim_front(s: Seq<char>) -> Seq<char>
    decreases s.len(),
{
    if s.len() > 0 && spec_is_whitespace(s[0]) {
        trim_front(s.drop_first())
    } else {
        s
    }
}

/// `s` without its trailing whitespace.
pub open spec fn trim_back(s: Seq<char>) -> Seq<char>
    decreases s.len(),
{
    if s.len() > 0 && spec_is_whitespace(s.last()) {
        trim_back(s.drop_last())
    } else {
        s
    }
}

/// `s` without leading and trailing whitespace, as `str::trim` gives it.
pub open spec fn spec_trim(s: Seq<char>) -> Seq<char> {
    trim_back(trim_front(s))
}

/// Every character of `s` is whitespace.
pub open spec fn all_whitespace(s: Seq<char>) -> bool {
    forall|i: int| 0 <= i < s.len() ==> spec_is_whitespace(#[trigger] s[i])
}

proof fn lemma_trim_front_shape(s: Seq<char>)
    ensures
        exists|k: int|
            0 <= k <= s.len() && trim_front(s) == s.subrange(k, s.len() as int) && (forall|i: int|
                0 <= i < k ==> spec_is_whitespace(#[trigger] s[i])),
        trim_front(s).len() > 0 ==> !spec_is_whitespace(trim_front(s)[0]),
    decreases s.len(),
{
    if s.len() > 0 && spec_is_whitespace(s[0]) {
        let t = s.drop_first();
        lemma_trim_front_shape(t);
        let k = choose|k: int|
            0 <= k <= t.len() && trim_front(t) == t.subrange(k, t.len() as int) && (forall|i: int|
                0 <= i < k ==> spec_is_whitespace(#[trigger] t[i]));
        assert(t.subrange(k, t.len() as int) =~= s.subrange(k + 1, s.len() as int));
        assert forall|i: int| 0 <= i < k + 1 implies spec_is_whitespace(#[trigger] s[i]) by {
            if i > 0 {
                assert(s[i] == t[i - 1]);
            }
        }
    } else {
        assert(s.subrange(0, s.len() as int) =~= s);
    }
}

proof fn lemma_trim_back_shape(s: Seq<char>)
    ensures
        exists|k: int|
            0 <= k <= s.len() && trim_back(s) == s.subrange(0, k) && (forall|i: int|
                k <= i < s.len() ==> spec_is_whitespace(#[trigger] s[i])),
        trim_back(s).len() > 0 ==> !spec_is_whitespace(trim_back(s).last()),
    decreases s.len(),
{
    if s.len() > 0 && spec_is_whitespace(s.last()) {
        let t = s.drop_last();
        lemma_trim_back_shape(t);
        let k = choose|k: int|
            0 <= k <= t.len() && trim_back(t) == t.subrange(0, k) && (forall|i: int|
                k <= i < t.len() ==> spec_is_whitespace(#[trigger] t[i]));
        assert(t.subrange(0, k) =~= s.subrange(0, k));
        assert forall|i: int| k <= i < s.len() implies spec_is_whitespace(#[trigger] s[i]) by {
            if i < s.len() - 1 {
                assert(s[i] == t[i]);
            }
        }
    } else {
        assert(s.subrange(0, s.len() as int) =~= s);
    }
}

proof fn lemma_trim_front_fixed(s: Seq<char>)
    requires
        s.len() == 0 || !spec_is_whitespace(s[0]),
    ensures
        trim_front(s) == s,
{
}

proof fn lemma_trim_back_fixed(s: Seq<char>)
    requires
        s.len() == 0 || !spec_is_whitespace(s.last()),
    ensures
        trim_back(s) == s,
{
}

/// Trimming is idempotent: a trimmed text has nothing left to trim.
pub proof fn lemma_trim_idempotent(s: Seq<char>)
    ensures
        spec_trim(spec_trim(s)) == spec_trim(s),
{
    let f = trim_front(s);
    lemma_trim_front_shape(s);
    lemma_trim_back_shape(f);
    let u = trim_back(f);
    let k = choose|k: int|
        0 <= k <= f.len() && trim_back(f) == f.subrange(0, k) && (forall|i: int|
            k <= i < f.len() ==> spec_is_whitespace(#[trigger] f[i]));
    if u.len() > 0 {
        assert(u[0] == f[0]);
    }
    lemma_trim_front_fixed(u);
    lemma_trim_back_fixed(u);
}

/// A text trims to nothing exactly when all of it is whitespace.
pub proof fn lemma_trim_empty_iff_all_whitespace(s: Seq<char>)
    ensures
        spec_trim(s).len() == 0 <==> all_whitespace(s),
{
    let f = trim_front(s);
    lemma_trim_front_shape(s);
    lemma_trim_back_shape(f);
    let kf = choose|k: int|
        0 <= k <= s.len() && trim_front(s) == s.subrange(k, s.len() as int) && (forall|i: int|
            0 <= i < k ==> spec_is_whitespace(#[trigger] s[i]));
    let kb = choose|k: int|
        0 <= k <= f.len() && trim_back(f) == f.subrange(0, k) && (forall|i: int|
            k <= i < f.len() ==> spec_is_whitespace(#[trigger] f[i]));
    if spec_trim(s).len() == 0 {
        assert forall|i: int| 0 <= i < s.len() implies spec_is_whitespace(#[trigger] s[i]) by {
            if i >= kf {
                assert(s[i] == f[i - kf]);
            }
        }
    }
    if all_whitespace(s) {
        if f.len() > 0 {
            assert(f[0] == s[kf]);
        }
        if kb > 0 {
            assert(f[kb - 1] == s[kf + kb - 1]);
            assert(trim_back(f).last() == f[kb - 1]);
        }
    }
}

/// Leading and trailing whitespace removed from `s` (the rule of
/// `str::trim`, with whitespace as `char::is_whitespace` decides it).
pub fn trim(s: &str) -> (r: &str)
    ensures
        r@ == spec_trim(s@),
{
    let n = s.unicode_len();
    let mut i: usize = 0;
    assert(s@.subrange(0, n as int) =~= s@);
    while i < n && char_is_whitespace(s.get_char(i))
        invariant
            n == s@.len(),
            i <= n,
            trim_front(s@) == trim_front(s@.subrange(i as int, n as int)),
        decreases n - i,
    {
        assert(s@.subrange(i as int, n as int).drop_first() =~= s@.subrange(i + 1, n as int));
        i = i + 1;
    }
    assert(trim_front(s@) == s@.subrange(i as int, n as int));
    let mut j: usize = n;
    while j > i && char_is_whitespace(s.get_char(j - 1))
        invariant
            n == s@.len(),
            i <= j <= n,
            spec_trim(s@) == trim_back(s@.subrange(i as int, j as int)),
        decreases j - i,
    {
        assert(s@.subrange(i as int, j as int).drop_last() =~= s@.subrange(i as int, j - 1));
        j = j - 1;
    }
    s.substring_char(i, j)
}

/// `s` with a combining long stroke overlay (U+0336) after each character.
pub open spec fn spec_strikethrough(s: Seq<char>) -> Seq<char> {
    Seq::new(2 * s.len(), |i: int| if i % 2 == 0 { s[i / 2] } else { '\u{0336}' })
}

/// Renders `s` struck through with combining U+0336 characters, one after
/// every character of `s`.
pub fn strikethrough(s: &str) -> (r: String)
    ensures
        r@ == spec_strikethrough(s@),
{
    let n = s.unicode_len();
    let mut out = String::new();
    let mut i: usize = 0;
    while i < n
        invariant
            n == s@.len(),
            i <= n,
            out@ =~= spec_strikethrough(s@.subrange(0, i as int)),
        decreases n - i,
    {
        let c = s.get_char(i);
        string_push(&mut out, c);
        string_push(&mut out, '\u{0336}');
        assert(spec_strikethrough(s@.subrange(0, i + 1)) =~= spec_strikethrough(
            s@.subrange(0, i as int),
        ).push(c).push('\u{0336}'));
        i = i + 1;
    }
    assert(s@.subrange(0, n as int) =~= s@);
    out
}

/// `t` occurs in `s` as a run of consecutive characters.
pub open spec fn occurs_in(t: Seq<char>, s: Seq<char>) -> bool {
    exists|i: int| 0 <= i && i + t.len() <= s.len() && #[trigger] s.subrange(i, i + t.len()) == t
}

/// Whether `t` occurs in `s` (the rule of `str::contains` with a string
/// pattern).
pub fn contains_text(s: &str, t: &str) -> (r: bool)
    ensures
        r == occurs_in(t@, s@),
{
    let n = s.unicode_len();
    let m = t.unicode_len();
    if m > n {
        assert forall|i: int| 0 <= i && i + t@.len() <= s@.len() implies #[trigger] s@.subrange(
            i,
            i + t@.len(),
        ) != t@ by {}
        return false;
    }
    let mut i: usize = 0;
    while i <= n - m
        invariant
            n == s@.len(),
            m == t@.len(),
            m <= n,
            i <= n - m + 1,
            forall|k: int| 0 <= k < i ==> #[trigger] s@.subrange(k, k + m) != t@,
        decreases n - m + 1 - i,
    {
        let mut j: usize = 0;
        let mut same = true;
        while j < m
            invariant
                n == s@.len(),
                m == t@.len(),
                i + m <= n,
                j <= m,
                same == (forall|q: int| 0 <= q < j ==> s@[i + q] == t@[q]),
            decreases m - j,
        {
            if s.get_char(i + j) != t.get_char(j) {
                same = false;
            }
            j = j + 1;
        }
        if same {
            assert(s@.subrange(i as int, i + m) =~= t@);
            return true;
        }
        assert(s@.subrange(i as int, i + m) != t@) by {
            let q = choose|q: int| 0 <= q < m && s@[i + q] != t@[q];
            assert(s@.subrange(i as int, i + m)[q] == s@[i + q]);
        }
        i = i + 1;
    }
    false
}

/// The two texts are the same character sequence.
pub(crate) fn same_text(a: &str, b: &str) -> (r: bool)
    ensures
        r == (a@ == b@),
{
    let n = a.unicode_len();
    if n != b.unicode_len() {
        return false;
    }
    let mut i: usize = 0;
    while i < n
        invariant
            n == a@.len(),
            n == b@.len(),
            i <= n,
            forall|k: int| 0 <= k < i ==> a@[k] == b@[k],
        decreases n - i,
    {
        if a.get_char(i) != b.get_char(i) {
            return false;
        }
        i = i + 1;
    }
    assert(a@ =~= b@);
    true
}

} // verus!
