//! Small pet types: a palette, a cat, a dog and a fish, each with a
//! greeting whose exact words stand in its contract.

use vstd::prelude::*;
use crate::decimal::decimal_chars;

verus! {

/// A fixed three-colour palette.
#[derive(Debug, Clone, Copy, PartialEq, Eq, Hash, Structural)]
pub enum Color {
    Red,
    Green,
    Blue,
}

impl Color {
    /// The colour's name.
    pub fn label(&self) -> (r: String)
        ensures
            r@ == (match *self {
                Color::Red => "Red"@,
                Color::Green => "Green"@,
                Color::Blue => "Blue"@,
            }),
    {
        match self {
            Color::Red => "Red".to_owned(),
            Color::Green => "Green".to_owned(),
            Color::Blue => "Blue".to_owned(),
        }
    }
}

/// What a pet says; a silent pet greets with `Silent pet`.
pub trait Greeting {
    /// The words this pet greets with.
    spec fn greeting(&self) -> Seq<char>;

    fn greet(&self) -> (r: String)
        ensures
            r@ == self.greeting(),
    ;
}

/// A colour given by its red, green and blue parts.
#[derive(Debug, PartialEq, Eq, Hash, Structural)]
pub struct RgbColor {
    pub red: u8,
    pub green: u8,
    pub blue: u8,
}

impl Clone for RgbColor {
    fn clone(&self) -> (r: Self)
        ensures
            r == *self,
    {
        RgbColor { red: self.red, green: self.green, blue: self.blue }
    }
}

/// The description `describe` gives an RGB colour: the two extremes have
/// names, anything else is spelled out.
pub open spec fn rgb_label(c: RgbColor) -> Seq<char> {
    if c.red == 0 && c.green == 0 && c.blue == 0 {
        "Black"@
    } else if c.red == 255 && c.green == 255 && c.blue == 255 {
        "White"@
    } else {
        "RGB color r:"@ + decimal_chars(c.red as nat) + ", g:"@ + decimal_chars(c.green as nat)
            + ", b:"@ + decimal_chars(c.blue as nat)
    }
}

impl RgbColor {
    /// Spells the colour out.
    pub fn describe(&self) -> (r: String)
        ensures
            r@ == rgb_label(*self),
    {
        if self.red == 0 && self.green == 0 && self.blue == 0 {
            "Black".to_owned()
        } else if self.red == 255 && self.green == 255 && self.blue == 255 {
            "White".to_owned()
        } else {
            let mut s = "RGB color r:".to_owned();
            let red = crate::decimal::u64_to_string(self.red as u64);
            s.append(red.as_str());
            s.append(", g:");
            let green = crate::decimal::u64_to_string(self.green as u64);
            s.append(green.as_str());
            s.append(", b:");
            let blue = crate::decimal::u64_to_string(self.blue as u64);
            s.append(blue.as_str());
            s
        }
    }
}

/// A cat with a name and a coat colour.
#[derive(Debug, PartialEq, Hash)]
pub struct Cat {
    name: String,
    color: RgbColor,
}

impl Clone for Cat {
    fn clone(&self) -> (r: Self)
        ensures
            r == *self,
    {
        Cat { name: self.name.clone(), color: self.color.clone() }
    }
}

impl Cat {
    /// The cat's name, at the specification level.
    pub closed spec fn spec_name(&self) -> Seq<char> {
        self.name@
    }

    /// The cat's colour, at the specification level.
    pub closed spec fn spec_color(&self) -> RgbColor {
        self.color
    }

    pub fn new(cname: &str, rgb: RgbColor) -> (r: Cat)
        ensures
            r.spec_name() == cname@,
            r.spec_color() == rgb,
    {
        Cat { name: cname.to_owned(), color: rgb }
    }

    pub fn name(&self) -> (r: &str)
        ensures
            r@ == self.spec_name(),
    {
        self.name.as_str()
    }

    pub fn color(&self) -> (r: RgbColor)
        ensures
            r == self.spec_color(),
    {
        self.color.clone()
    }
}

impl Greeting for Cat {
    open spec fn greeting(&self) -> Seq<char> {
        "Meow "@ + self.spec_name()
    }

    fn greet(&self) -> (r: String) {
        let mut s = "Meow ".to_owned();
        s.append(self.name.as_str());
        s
    }
}

/// A dog with a name.
#[derive(Debug, PartialEq, Hash)]
pub struct Dog {
    name: String,
}

impl Clone for Dog {
    fn clone(&self) -> (r: Self)
        ensures
            r == *self,
    {
        Dog { name: self.name.clone() }
    }
}

impl Dog {
    /// The dog's name, at the specification level.
    pub closed spec fn spec_name(&self) -> Seq<char> {
        self.name@
    }

    pub fn new(name: &str) -> (r: Dog)
        ensures
            r.spec_name() == name@,
    {
        Dog { name: name.to_owned() }
    }

    pub fn name(&self) -> (r: &str)
        ensures
            r@ == self.spec_name(),
    {
        self.name.as_str()
    }
}

impl Greeting for Dog {
    open spec fn greeting(&self) -> Seq<char> {
        "Gaw Gaw"@
    }

    fn greet(&self) -> (r: String) {
        "Gaw Gaw".to_owned()
    }
}

/// A fish with a palette colour; it greets with the silent default.
#[derive(Debug, Clone, Copy, PartialEq, Eq, Hash, Structural)]
pub struct Fish {
    color: Color,
}

impl Fish {
    /// The fish's colour, at the specification level.
    pub closed spec fn spec_color(&self) -> Color {
        self.color
    }

    pub fn new(c: Color) -> (r: Fish)
        ensures
            r.spec_color() == c,
    {
        Fish { color: c }
    }

    pub fn color(&self) -> (r: Color)
        ensures
            r == self.spec_color(),
    {
        self.color
    }
}

impl Greeting for Fish {
    open spec fn greeting(&self) -> Seq<char> {
        "Silent pet"@
    }

    fn greet(&self) -> (r: String) {
        "Silent pet".to_owned()
    }
}

} // verus!
