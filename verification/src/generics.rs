//! Small generic helpers: a maximum over any partial order, an optional
//! value of our own, a blank-rejecting trim, and generic points and lines.

use vstd::prelude::*;
use vstd::string::StrSliceExecFns;
use vstd::std_specs::cmp::PartialOrdSpec;
use crate::decimal::decimal_chars;
use crate::validation::{is_blank, is_space, is_space_char};

verus! {

/// The larger of two values. When the type's comparison obeys its
/// specification, the result is pinned down exactly.
pub fn max_of<T: PartialOrd>(a: T, b: T) -> (r: T)
    ensures
        T::obeys_partial_cmp_spec() ==> r == (if a.partial_cmp_spec(&b) == Some(
            core::cmp::Ordering::Greater,
        ) {
            a
        } else {
            b
        }),
{
    if a > b {
        a
    } else {
        b
    }
}

/// An optional value, spelled out as its own type.
#[derive(Debug, PartialEq)]
pub enum Maybe<T> {
    Just(T),
    Nothing,
}

/// Index of the first non-whitespace character at or after `i`, or the
/// length when everything from `i` on is whitespace.
pub open spec fn trim_start_index(s: Seq<char>, i: int) -> int
    decreases s.len() - i,
{
    if i < 0 || i >= s.len() || !is_space(s[i]) {
        i
    } else {
        trim_start_index(s, i + 1)
    }
}

/// Index one past the last non-whitespace character before `j`, or 0 when
/// everything before `j` is whitespace.
pub open spec fn trim_end_index(s: Seq<char>, j: int) -> int
    decreases j,
{
    if j <= 0 || j > s.len() || !is_space(s[j - 1]) {
        j
    } else {
        trim_end_index(s, j - 1)
    }
}

/// What trimming whitespace from both ends of a non-blank `s` leaves.
pub open spec fn spec_trim(s: Seq<char>) -> Seq<char> {
    s.subrange(trim_start_index(s, 0), trim_end_index(s, s.len() as int))
}

/// In a non-blank string the first non-whitespace index lies strictly
/// before the index one past the last non-whitespace character.
pub proof fn lemma_trim_indexes(s: Seq<char>, w: int)
    requires
        0 <= w < s.len(),
        !is_space(s[w]),
    ensures
        0 <= trim_start_index(s, 0) <= w,
        w < trim_end_index(s, s.len() as int) <= s.len(),
{
    lemma_trim_start_le(s, 0, w);
    lemma_trim_end_gt(s, s.len() as int, w);
}

proof fn lemma_trim_start_le(s: Seq<char>, i: int, w: int)
    requires
        0 <= i <= w < s.len(),
        !is_space(s[w]),
    ensures
        i <= trim_start_index(s, i) <= w,
    decreases s.len() - i,
{
    if !(i >= s.len() || !is_space(s[i])) && i < w {
        lemma_trim_start_le(s, i + 1, w);
    }
}

proof fn lemma_trim_end_gt(s: Seq<char>, j: int, w: int)
    requires
        0 <= w < j <= s.len() || (0 <= w < s.len() && j == s.len()),
        0 <= w < j,
        j <= s.len(),
        !is_space(s[w]),
    ensures
        w < trim_end_index(s, j) <= j,
    decreases j,
{
    if !(j <= 0 || !is_space(s[j - 1])) && j - 1 > w {
        lemma_trim_end_gt(s, j - 1, w);
    }
}

/// Trims `s` and hands the trimmed remainder back, or nothing when `s` is
/// blank.
pub fn non_blank(s: &str) -> (r: Maybe<String>)
    ensures
        is_blank(s@) ==> r is Nothing,
        !is_blank(s@) ==> (r matches Maybe::Just(t) && t@ == spec_trim(s@)),
{
    let n = s.unicode_len();
    let mut a: usize = 0;
    while a < n && is_space_char(s.get_char(a))
        invariant
            n == s@.len(),
            0 <= a <= n,
            trim_start_index(s@, 0) == trim_start_index(s@, a as int),
            forall|k: int| 0 <= k < a ==> is_space(#[trigger] s@[k]),
        decreases n - a,
    {
        a += 1;
    }
    if a == n {
        proof {
            assert(is_blank(s@));
        }
        return Maybe::Nothing;
    }
    proof {
        assert(!is_space(s@[a as int]));
        assert(trim_start_index(s@, a as int) == a);
        assert(!is_blank(s@));
        lemma_trim_indexes(s@, a as int);
    }
    let mut b: usize = n;
    while b > 0 && is_space_char(s.get_char(b - 1))
        invariant
            n == s@.len(),
            0 <= b <= n,
            a < b,
            !is_space(s@[a as int]),
            trim_end_index(s@, n as int) == trim_end_index(s@, b as int),
        decreases b,
    {
        proof {
            assert(is_space(s@[b - 1 as int]));
            assert(a != b - 1);
        }
        b -= 1;
    }
    proof {
        assert(b > 0 && !is_space(s@[b - 1 as int]));
        assert(trim_end_index(s@, b as int) == b);
    }
    let t = s.substring_char(a, b);
    Maybe::Just(t.to_owned())
}

/// A point with both coordinates of one type.
#[derive(Debug, Clone, PartialEq, Hash)]
pub struct Point<T> {
    pub x: T,
    pub y: T,
}

/// A line between two points of possibly different coordinate types.
#[derive(Debug, Clone, PartialEq, Hash)]
pub struct Line<A, B> {
    pub start: Point<A>,
    pub end: Point<B>,
}

/// Rendering a value with a caption of type `T`.
pub trait Printable<T> {
    fn pretty(&self, f: T) -> String;
}

impl Printable<&str> for u8 {
    /// The caption, a space, then the number in decimal.
    fn pretty(&self, f: &str) -> (r: String)
        ensures
            r@ == f@ + " "@ + decimal_chars(*self as nat),
    {
        let mut s = f.to_owned();
        s.append(" ");
        let digits = crate::decimal::u64_to_string(*self as u64);
        s.append(digits.as_str());
        s
    }
}

impl Printable<String> for u8 {
    /// The caption, a space, then the number in decimal.
    fn pretty(&self, f: String) -> (r: String)
        ensures
            r@ == f@ + " "@ + decimal_chars(*self as nat),
    {
        let mut s = f;
        s.append(" ");
        let digits = crate::decimal::u64_to_string(*self as u64);
        s.append(digits.as_str());
        s
    }
}

} // verus!
