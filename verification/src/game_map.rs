//! A tiny map-rendering demonstration built around a constrained trait:
//! only coordinates whose game map can be rendered get a `pretty`.

use vstd::prelude::*;
use crate::decimal::decimal_chars;

verus! {

/// A point on a byte-sized grid.
#[derive(Debug, PartialEq)]
pub struct Point {
    pub x: u8,
    pub y: u8,
}

impl Clone for Point {
    fn clone(&self) -> (r: Self)
        ensures
            r == *self,
    {
        Point { x: self.x, y: self.y }
    }
}

/// A second point type, identical in shape, deliberately without a
/// rendered game map.
#[derive(Debug, PartialEq)]
pub struct Point2 {
    pub x: u8,
    pub y: u8,
}

impl Clone for Point2 {
    fn clone(&self) -> (r: Self)
        ensures
            r == *self,
    {
        Point2 { x: self.x, y: self.y }
    }
}

/// A game map anchored at its origin.
#[derive(Debug, PartialEq)]
pub struct GameMap<T> {
    zero: T,
}

impl<T> GameMap<T> {
    /// The map's origin, at the specification level.
    pub closed spec fn spec_zero(&self) -> T {
        self.zero
    }
}

/// What rendering a point's game map produces.
pub open spec fn game_map_label(p: Point) -> Seq<char> {
    "GameMap<Point>(x: "@ + decimal_chars(p.x as nat) + ", y: "@ + decimal_chars(p.y as nat) + ")"@
}

impl GameMap<Point> {
    /// Renders the map around its origin.
    pub fn pretty(&self) -> (r: String)
        ensures
            r@ == game_map_label(self.spec_zero()),
    {
        let mut s = "GameMap<Point>(x: ".to_owned();
        let x = crate::decimal::u64_to_string(self.zero.x as u64);
        s.append(x.as_str());
        s.append(", y: ");
        let y = crate::decimal::u64_to_string(self.zero.y as u64);
        s.append(y.as_str());
        s.append(")");
        s
    }
}

/// Rendering for coordinates whose game map can itself be rendered; only
/// `Point` qualifies here.
pub trait OPrintable<T> {
    fn pretty(&self) -> String;
}

impl OPrintable<Point> for Point {
    /// Renders the game map anchored at this point.
    fn pretty(&self) -> (r: String)
        ensures
            r@ == game_map_label(*self),
    {
        let map = GameMap { zero: self.clone() };
        map.pretty()
    }
}

} // verus!
