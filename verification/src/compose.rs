//! Functions as values: adders built and returned in several styles, a
//! curried addition, and function composition with carried-over contracts.

use vstd::prelude::*;

verus! {

fn plus_five(x: i32) -> (r: i32)
    requires
        x + 5 <= i32::MAX,
    ensures
        r == x + 5,
{
    x + 5
}

/// Hands out a function that adds five, as a named function item.
pub fn f_add_five() -> (f: impl Fn(i32) -> i32)
    ensures
        forall|x: i32| x + 5 <= i32::MAX ==> #[trigger] f.requires((x,)),
        forall|x: i32, r: i32| #[trigger] f.ensures((x,), r) ==> r == x + 5,
{
    plus_five
}

/// The same adder, as an opaque function value.
pub fn f_add_five2() -> (f: impl Fn(i32) -> i32)
    ensures
        forall|x: i32| x + 5 <= i32::MAX ==> #[trigger] f.requires((x,)),
        forall|x: i32, r: i32| #[trigger] f.ensures((x,), r) ==> r == x + 5,
{
    plus_five
}

/// The same adder, as a closure.
pub fn f_add_five_cl() -> (f: impl Fn(i32) -> i32)
    ensures
        forall|x: i32| x + 5 <= i32::MAX ==> #[trigger] f.requires((x,)),
        forall|x: i32, r: i32| #[trigger] f.ensures((x,), r) ==> r == x + 5,
{
    |x: i32| -> (r: i32)
        requires
            x + 5 <= i32::MAX,
        ensures
            r == x + 5,
        {
            x + 5
        }
}

/// The same adder, as a closure that captures the amount to add.
pub fn f_add_five_cl2() -> (f: impl Fn(i32) -> i32)
    ensures
        forall|x: i32| x + 5 <= i32::MAX ==> #[trigger] f.requires((x,)),
        forall|x: i32, r: i32| #[trigger] f.ensures((x,), r) ==> r == x + 5,
{
    let five: i32 = 5;
    move |x: i32| -> (r: i32)
        requires
            x + five <= i32::MAX,
        ensures
            r == x + five,
        {
            x + five
        }
}

/// Addition on unsigned integers.
pub fn add(x: u32, y: u32) -> (r: u32)
    requires
        x + y <= u32::MAX,
    ensures
        r == x + y,
{
    x + y
}

/// Addition with its first argument fixed.
pub fn add_curried(x: u32) -> (f: impl Fn(u32) -> u32)
    ensures
        forall|y: u32| x + y <= u32::MAX ==> #[trigger] f.requires((y,)),
        forall|y: u32, r: u32| #[trigger] f.ensures((y,), r) ==> r == x + y,
{
    move |y: u32| -> (r: u32)
        requires
            x + y <= u32::MAX,
        ensures
            r == x + y,
        {
            x + y
        }
}

/// Composes two functions: the result applies `f`, then `g`. The returned
/// function is callable wherever `f` is and wherever `g` accepts anything
/// `f` can produce, and its results are exactly the composed results.
pub fn compose<A, B, C, G: Fn(B) -> C, F: Fn(A) -> B>(f: F, g: G) -> (h: impl Fn(A) -> C)
    ensures
        forall|x: A|
            (f.requires((x,)) && (forall|y: B| #[trigger] f.ensures((x,), y) ==> g.requires(
                (y,),
            ))) ==> #[trigger] h.requires((x,)),
        forall|x: A, z: C|
            #[trigger] h.ensures((x,), z) ==> exists|y: B|
                #[trigger] f.ensures((x,), y) && g.ensures((y,), z),
{
    move |x: A| -> (z: C)
        requires
            f.requires((x,)),
            forall|y: B| #[trigger] f.ensures((x,), y) ==> g.requires((y,)),
        ensures
            exists|y: B| #[trigger] f.ensures((x,), y) && g.ensures((y,), z),
        {
            g(f(x))
        }
}

/// The position of the `n`-th odd number.
pub fn ln_nth(n: i32) -> (r: i32)
    requires
        -1073741823 <= n <= 1073741823,
    ensures
        r == 2 * n - 1,
{
    2 * n - 1
}

} // verus!
