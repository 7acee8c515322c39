//! Display colors and color-tagged text.

use vstd::prelude::*;

verus! {

/// The closed set of display colors a tagged string can carry.
#[derive(Clone, Copy, Debug, PartialEq, Eq, Structural)]
pub enum Color {
    Yellow,
    Magenta,
    Default,
    Cyan,
    Black,
    White,
    Red,
    Blue,
    Green,
}

/// A piece of text paired with the color it should be displayed in.
#[derive(Clone, Debug)]
pub struct ColorString(pub Color, pub String);

impl ColorString {
    /// The color this string is tagged with.
    pub fn to_color(&self) -> (c: Color)
        ensures
            c == self.0,
    {
        let Self(color, _) = self;
        *color
    }

    /// The text carried by this string, without its color tag.
    pub fn text(&self) -> (s: String)
        ensures
            s@ == self.1@,
    {
        let Self(_, s) = self;
        s.clone()
    }
}

impl Default for ColorString {
    /// An empty string tagged with the default color.
    fn default() -> (r: Self)
        ensures
            r.0 == Color::Default,
            r.1@ == Seq::<char>::empty(),
    {
        Self(Color::Default, String::new())
    }
}

impl From<String> for ColorString {
    fn from(t: String) -> (r: Self) {
        Self(Color::Default, t)
    }
}

impl vstd::std_specs::convert::FromSpecImpl<String> for ColorString {
    open spec fn obeys_from_spec() -> bool {
        true
    }

    open spec fn from_spec(t: String) -> Self {
        ColorString(Color::Default, t)
    }
}

/// Tagging helpers: turn a plain textual value into a `ColorString`
/// carrying the chosen color and exactly the original text.
pub trait Colorize: Sized {
    /// The text this value renders to.
    spec fn render(self) -> Seq<char>;

    fn red(self) -> (r: ColorString)
        ensures
            r.0 == Color::Red,
            r.1@ == self.render(),
    ;

    fn blue(self) -> (r: ColorString)
        ensures
            r.0 == Color::Blue,
            r.1@ == self.render(),
    ;

    fn green(self) -> (r: ColorString)
        ensures
            r.0 == Color::Green,
            r.1@ == self.render(),
    ;

    fn yellow(self) -> (r: ColorString)
        ensures
            r.0 == Color::Yellow,
            r.1@ == self.render(),
    ;

    fn magenta(self) -> (r: ColorString)
        ensures
            r.0 == Color::Magenta,
            r.1@ == self.render(),
    ;

    fn cyan(self) -> (r: ColorString)
        ensures
            r.0 == Color::Cyan,
            r.1@ == self.render(),
    ;

    fn black(self) -> (r: ColorString)
        ensures
            r.0 == Color::Black,
            r.1@ == self.render(),
    ;

    fn white(self) -> (r: ColorString)
        ensures
            r.0 == Color::White,
            r.1@ == self.render(),
    ;

    fn default(self) -> (r: ColorString)
        ensures
            r.0 == Color::Default,
            r.1@ == self.render(),
    ;
}

impl Colorize for String {
    open spec fn render(self) -> Seq<char> {
        self@
    }

    fn red(self) -> ColorString {
        ColorString(Color::Red, self)
    }

    fn blue(self) -> ColorString {
        ColorString(Color::Blue, self)
    }

    fn green(self) -> ColorString {
        ColorString(Color::Green, self)
    }

    fn yellow(self) -> ColorString {
        ColorString(Color::Yellow, self)
    }

    fn magenta(self) -> ColorString {
        ColorString(Color::Magenta, self)
    }

    fn cyan(self) -> ColorString {
        ColorString(Color::Cyan, self)
    }

    fn black(self) -> ColorString {
        ColorString(Color::Black, self)
    }

    fn white(self) -> ColorString {
        ColorString(Color::White, self)
    }

    fn default(self) -> ColorString {
        ColorString(Color::Default, self)
    }
}

impl<'a> Colorize for &'a str {
    open spec fn render(self) -> Seq<char> {
        self@
    }

    fn red(self) -> ColorString {
        ColorString(Color::Red, self.to_owned())
    }

    fn blue(self) -> ColorString {
        ColorString(Color::Blue, self.to_owned())
    }

    fn green(self) -> ColorString {
        ColorString(Color::Green, self.to_owned())
    }

    fn yellow(self) -> ColorString {
        ColorString(Color::Yellow, self.to_owned())
    }

    fn magenta(self) -> ColorString {
        ColorString(Color::Magenta, self.to_owned())
    }

    fn cyan(self) -> ColorString {
        ColorString(Color::Cyan, self.to_owned())
    }

    fn black(self) -> ColorString {
        ColorString(Color::Black, self.to_owned())
    }

    fn white(self) -> ColorString {
        ColorString(Color::White, self.to_owned())
    }

    fn default(self) -> ColorString {
        ColorString(Color::Default, self.to_owned())
    }
}

} // verus!
