//! Tokens of the functional color notations: separators, argument tokens
//! and unit suffixes.
use vstd::prelude::*;

verus! {

/// CSS white space.
pub open spec fn is_space(c: char) -> bool {
    c == ' ' || c == '\t' || c == '\n' || c == '\r' || c == '\x0c'
}

/// A character that separates arguments: white space or a comma.
pub open spec fn is_separator(c: char) -> bool {
    is_space(c) || c == ','
}

/// Left-to-right scan of `s`: the tokens finished so far and the token
/// being read.
pub open spec fn scan(s: Seq<char>) -> (Seq<Seq<char>>, Seq<char>)
    decreases s.len(),
{
    if s.len() == 0 {
        (Seq::empty(), Seq::empty())
    } else {
        let (done, cur) = scan(s.drop_last());
        let c = s.last();
        if is_separator(c) {
            if cur.len() > 0 {
                (done.push(cur), Seq::empty())
            } else {
                (done, cur)
            }
        } else {
            (done, cur.push(c))
        }
    }
}

/// The maximal runs of non-separator characters of `s`, in order.
pub open spec fn tokens(s: Seq<char>) -> Seq<Seq<char>> {
    let (done, cur) = scan(s);
    if cur.len() > 0 {
        done.push(cur)
    } else {
        done
    }
}

fn is_separator_char(c: char) -> (r: bool)
    ensures
        r == is_separator(c),
{
    c == ' ' || c == '\t' || c == '\n' || c == '\r' || c == '\x0c' || c == ','
}

/// Splits `s` into its argument tokens.
pub fn split_tokens(s: &Vec<char>) -> (r: Vec<Vec<char>>)
    ensures
        r.deep_view() == tokens(s@),
{
    let mut done: Vec<Vec<char>> = Vec::new();
    let mut cur: Vec<char> = Vec::new();
    let mut i: usize = 0;
    while i < s.len()
        invariant
            i <= s@.len(),
            (done.deep_view(), cur@) == scan(s@.subrange(0, i as int)),
        decreases s@.len() - i,
    {
        let c = s[i];
        proof {
            assert(s@.subrange(0, i + 1).drop_last() =~= s@.subrange(0, i as int));
        }
        if is_separator_char(c) {
            if cur.len() > 0 {
                let ghost old_done = done.deep_view();
                let t = cur;
                done.push(t);
                cur = Vec::new();
                proof {
                    assert(t.deep_view() =~= t@);
                    assert(done.deep_view() =~= old_done.push(t.deep_view()));
                }
            }
        } else {
            cur.push(c);
        }
        i = i + 1;
    }
    assert(s@.subrange(0, s@.len() as int) =~= s@);
    if cur.len() > 0 {
        let ghost old_done = done.deep_view();
        let t = cur;
        done.push(t);
        proof {
            assert(t.deep_view() =~= t@);
            assert(done.deep_view() =~= old_done.push(t.deep_view()));
        }
    }
    done
}


/// The unit that ends a numeric token.
#[derive(Debug, Clone, Copy, PartialEq, Eq, Structural)]
pub enum Unit {
    /// A bare number
    Plain,
    /// `%`
    Percent,
    /// `deg`
    Deg,
    /// `rad`
    Rad,
    /// `grad`
    Grad,
    /// `turn`
    Turn,
}

/// Whether `s` ends with `suffix`.
pub open spec fn ends_with(s: Seq<char>, suffix: Seq<char>) -> bool {
    s.len() >= suffix.len() && s.subrange(s.len() - suffix.len(), s.len() as int) == suffix
}

/// A token split into its number text and its unit suffix; `grad` is tried
/// before `rad`.
pub open spec fn split_unit(t: Seq<char>) -> (Seq<char>, Unit) {
    if ends_with(t, seq!['%']) {
        (t.subrange(0, t.len() - 1), Unit::Percent)
    } else if ends_with(t, seq!['d', 'e', 'g']) {
        (t.subrange(0, t.len() - 3), Unit::Deg)
    } else if ends_with(t, seq!['g', 'r', 'a', 'd']) {
        (t.subrange(0, t.len() - 4), Unit::Grad)
    } else if ends_with(t, seq!['r', 'a', 'd']) {
        (t.subrange(0, t.len() - 3), Unit::Rad)
    } else if ends_with(t, seq!['t', 'u', 'r', 'n']) {
        (t.subrange(0, t.len() - 4), Unit::Turn)
    } else {
        (t, Unit::Plain)
    }
}

/// The characters `v[lo..hi]`.
pub fn slice_chars(v: &Vec<char>, lo: usize, hi: usize) -> (r: Vec<char>)
    requires
        lo <= hi <= v@.len(),
    ensures
        r@ == v@.subrange(lo as int, hi as int),
{
    let mut r: Vec<char> = Vec::new();
    let mut i: usize = lo;
    while i < hi
        invariant
            lo <= i <= hi,
            hi <= v@.len(),
            r@ == v@.subrange(lo as int, i as int),
        decreases hi - i,
    {
        r.push(v[i]);
        i = i + 1;
        assert(r@ =~= v@.subrange(lo as int, i as int));
    }
    r
}

fn ends_with_chars(t: &Vec<char>, suffix: &[char]) -> (r: bool)
    ensures
        r == ends_with(t@, suffix@),
{
    let n = t.len();
    let m = suffix.len();
    if n < m {
        return false;
    }
    let mut i: usize = 0;
    while i < m
        invariant
            n == t@.len(),
            m == suffix@.len(),
            m <= n,
            i <= m,
            forall|j: int| 0 <= j < i ==> t@[n - m + j] == suffix@[j],
        decreases m - i,
    {
        if t[n - m + i] != suffix[i] {
            assert(t@.subrange(n - m, n as int)[i as int] != suffix@[i as int]);
            return false;
        }
        i = i + 1;
    }
    assert(t@.subrange(n - m, n as int) =~= suffix@);
    true
}

/// Splits a token into its number text and its unit.
pub fn split_unit_chars(t: &Vec<char>) -> (r: (Vec<char>, Unit))
    ensures
        (r.0@, r.1) == split_unit(t@),
{
    let n = t.len();
    let pct = vec!['%'];
    let deg = vec!['d', 'e', 'g'];
    let grad = vec!['g', 'r', 'a', 'd'];
    let rad = vec!['r', 'a', 'd'];
    let turn = vec!['t', 'u', 'r', 'n'];
    assert(pct@ =~= seq!['%']);
    assert(deg@ =~= seq!['d', 'e', 'g']);
    assert(grad@ =~= seq!['g', 'r', 'a', 'd']);
    assert(rad@ =~= seq!['r', 'a', 'd']);
    assert(turn@ =~= seq!['t', 'u', 'r', 'n']);
    if ends_with_chars(t, pct.as_slice()) {
        (slice_chars(t, 0, n - 1), Unit::Percent)
    } else if ends_with_chars(t, deg.as_slice()) {
        (slice_chars(t, 0, n - 3), Unit::Deg)
    } else if ends_with_chars(t, grad.as_slice()) {
        (slice_chars(t, 0, n - 4), Unit::Grad)
    } else if ends_with_chars(t, rad.as_slice()) {
        (slice_chars(t, 0, n - 3), Unit::Rad)
    } else if ends_with_chars(t, turn.as_slice()) {
        (slice_chars(t, 0, n - 4), Unit::Turn)
    } else {
        (slice_chars(t, 0, n), Unit::Plain)
    }
}

} // verus!
