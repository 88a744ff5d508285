//! Greeting helpers: plain greetings, a deferential greeting for a couple
//! of known names, and a per-character masking function driven by a
//! predicate the caller hands in.

use vstd::prelude::*;
use vstd::string::StrSliceExecFns;
use crate::decimal::push_char;

verus! {

/// A plain greeting.
pub fn say_hello(name: &str) -> (r: String)
    ensures
        r@ == "Hello "@ + name@,
{
    let mut s = "Hello ".to_owned();
    s.append(name);
    s
}

/// The character's code with an ASCII uppercase letter folded to its
/// lowercase counterpart.
pub open spec fn lower_code(c: char) -> u32 {
    if 65 <= c as u32 <= 90 {
        (c as u32 + 32) as u32
    } else {
        c as u32
    }
}

/// Whether the name reads `mike` or `alex` regardless of ASCII case.
pub open spec fn is_dear(s: Seq<char>) -> bool {
    s.len() == 4 && ((lower_code(s[0]) == 109 && lower_code(s[1]) == 105 && lower_code(s[2]) == 107
        && lower_code(s[3]) == 101) || (lower_code(s[0]) == 97 && lower_code(s[1]) == 108
        && lower_code(s[2]) == 101 && lower_code(s[3]) == 120))
}

fn lower_code_of(c: char) -> (r: u32)
    ensures
        r == lower_code(c),
{
    let code = c as u32;
    if 65 <= code && code <= 90 {
        code + 32
    } else {
        code
    }
}

fn check_dear(name: &str) -> (r: bool)
    ensures
        r == is_dear(name@),
{
    if name.unicode_len() != 4 {
        return false;
    }
    let c0 = lower_code_of(name.get_char(0));
    let c1 = lower_code_of(name.get_char(1));
    let c2 = lower_code_of(name.get_char(2));
    let c3 = lower_code_of(name.get_char(3));
    (c0 == 109 && c1 == 105 && c2 == 107 && c3 == 101) || (c0 == 97 && c1 == 108 && c2 == 101 && c3
        == 120)
}

/// What the deferential greeting calls the name: the dear names get a
/// `Dear` in front.
pub open spec fn dear_name(s: Seq<char>) -> Seq<char> {
    if is_dear(s) {
        "Dear "@ + s
    } else {
        s
    }
}

/// A greeting that puts `Dear` in front of a couple of known names,
/// whatever their ASCII case.
pub fn say_hello2(name: &str) -> (r: String)
    ensures
        r@ == "Hello "@ + dear_name(name@),
{
    let mut s = "Hello ".to_owned();
    if check_dear(name) {
        s.append("Dear ");
        s.append(name);
    } else {
        s.append(name);
    }
    s
}

/// The same deferential greeting, with the name made up by a closure.
pub fn say_hello3(name: &str) -> (r: String)
    ensures
        r@ == "Hello "@ + dear_name(name@),
{
    let dearly = || -> (d: String)
        ensures
            d@ == dear_name(name@),
        {
            if check_dear(name) {
                let mut g = "Dear ".to_owned();
                g.append(name);
                g
            } else {
                name.to_owned()
            }
        };
    let mut s = "Hello ".to_owned();
    let d = dearly();
    s.append(d.as_str());
    s
}

/// A predicate that keeps nothing: every character gets masked.
pub fn always_undersore(x: &char) -> (r: bool)
    ensures
        !r,
{
    false
}

/// Spaces out the characters of `s`, masking each character the predicate
/// rejects with `uchar`: every character becomes a space-padded triple
/// that holds either the character itself or the mask.
pub fn underscore_unknown_chars<F: Fn(&char) -> bool>(s: &str, uchar: char, predicate: F) -> (r:
    String)
    requires
        forall|c: &char| #[trigger] predicate.requires((c,)),
    ensures
        r@.len() == 3 * s@.len(),
        forall|j: int|
            0 <= j < r@.len() ==> (if j % 3 == 1 {
                #[trigger] r@[j] == s@[j / 3] || r@[j] == uchar
            } else {
                r@[j] == ' '
            }),
{
    let mut result = String::new();
    let n = s.unicode_len();
    let mut i: usize = 0;
    while i < n
        invariant
            n == s@.len(),
            i <= n,
            forall|c: &char| #[trigger] predicate.requires((c,)),
            result@.len() == 3 * i,
            forall|j: int|
                0 <= j < result@.len() ==> (if j % 3 == 1 {
                    #[trigger] result@[j] == s@[j / 3] || result@[j] == uchar
                } else {
                    result@[j] == ' '
                }),
        decreases n - i,
    {
        let c = s.get_char(i);
        let kept = predicate(&c);
        let shown = if kept {
            c
        } else {
            uchar
        };
        let ghost before = result@;
        push_char(&mut result, ' ');
        push_char(&mut result, shown);
        push_char(&mut result, ' ');
        proof {
            let aft = result@;
            assert(aft == before.push(' ').push(shown).push(' '));
            assert forall|j: int|
                0 <= j < aft.len() implies (if j % 3 == 1 {
                    #[trigger] aft[j] == s@[j / 3] || aft[j] == uchar
                } else {
                    aft[j] == ' '
                }) by {
                if j < before.len() {
                    assert(aft[j] == before[j]);
                } else {
                    assert(before.len() == 3 * i);
                    if j == 3 * i {
                        assert(aft[j] == ' ');
                        assert(j % 3 == 0);
                    } else if j == 3 * i + 1 {
                        assert(aft[j] == shown);
                        assert(j % 3 == 1 && j / 3 == i);
                    } else {
                        assert(j == 3 * i + 2);
                        assert(aft[j] == ' ');
                        assert(j % 3 == 2);
                    }
                }
            }
        }
        i += 1;
    }
    result
}

} // verus!
