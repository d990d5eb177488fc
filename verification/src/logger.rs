//! The colours in which the request log shows methods and status codes.

use vstd::prelude::*;

verus! {

/// The eight colours of a terminal.
#[derive(Clone, Copy, Debug, PartialEq, Eq, Structural)]
pub enum Color {
    Black,
    Red,
    Green,
    Yellow,
    Blue,
    Magenta,
    Cyan,
    White,
}

/// The two intensities of a colour.
#[derive(Clone, Copy, Debug, PartialEq, Eq, Structural)]
pub enum Brightness {
    Dim,
    Bright,
}

/// A colour at an intensity.
#[derive(Clone, Copy, Debug, PartialEq, Eq, Structural)]
pub struct Ansi(pub Brightness, pub Color);

impl Color {
    /// The place of the colour among the eight.
    pub open spec fn spec_index(self) -> u8 {
        match self {
            Color::Black => 0,
            Color::Red => 1,
            Color::Green => 2,
            Color::Yellow => 3,
            Color::Blue => 4,
            Color::Magenta => 5,
            Color::Cyan => 6,
            Color::White => 7,
        }
    }

    #[verifier::when_used_as_spec(spec_index)]
    pub fn index(self) -> (i: u8)
        ensures
            i == self.spec_index(),
    {
        match self {
            Color::Black => 0,
            Color::Red => 1,
            Color::Green => 2,
            Color::Yellow => 3,
            Color::Blue => 4,
            Color::Magenta => 5,
            Color::Cyan => 6,
            Color::White => 7,
        }
    }
}

impl Brightness {
    /// The first foreground code of the intensity.
    pub open spec fn spec_base(self) -> u8 {
        match self {
            Brightness::Dim => 30,
            Brightness::Bright => 90,
        }
    }

    #[verifier::when_used_as_spec(spec_base)]
    pub fn base(self) -> (b: u8)
        ensures
            b == self.spec_base(),
    {
        match self {
            Brightness::Dim => 30,
            Brightness::Bright => 90,
        }
    }
}

impl Ansi {
    /// The number of the escape sequence that selects the colour: 30 to 37
    /// for the dim colours, 90 to 97 for the bright ones.
    pub fn code(&self) -> (c: u8)
        ensures
            c == self.0.spec_base() + self.1.spec_index(),
            30 <= c <= 37 || 90 <= c <= 97,
    {
        self.0.base() + self.1.index()
    }
}

/// The colour of each class of status codes; a code outside the five classes
/// has none.
pub open spec fn spec_status_color(code: u16) -> Option<Ansi> {
    if 200 <= code < 300 {
        Some(Ansi(Brightness::Bright, Color::Green))
    } else if 300 <= code < 400 {
        Some(Ansi(Brightness::Dim, Color::Yellow))
    } else if 400 <= code < 500 {
        Some(Ansi(Brightness::Bright, Color::Yellow))
    } else if 500 <= code < 600 {
        Some(Ansi(Brightness::Bright, Color::Red))
    } else if 100 <= code < 200 {
        Some(Ansi(Brightness::Bright, Color::Blue))
    } else {
        None
    }
}

/// The colour in which a status code is logged.
#[verifier::when_used_as_spec(spec_status_color)]
pub fn status_color(code: u16) -> (c: Option<Ansi>)
    ensures
        c == spec_status_color(code),
{
    if 200 <= code && code < 300 {
        Some(Ansi(Brightness::Bright, Color::Green))
    } else if 300 <= code && code < 400 {
        Some(Ansi(Brightness::Dim, Color::Yellow))
    } else if 400 <= code && code < 500 {
        Some(Ansi(Brightness::Bright, Color::Yellow))
    } else if 500 <= code && code < 600 {
        Some(Ansi(Brightness::Bright, Color::Red))
    } else if 100 <= code && code < 200 {
        Some(Ansi(Brightness::Bright, Color::Blue))
    } else {
        None
    }
}

/// The request methods that the log tells apart.
#[derive(Clone, Copy, Debug, PartialEq, Eq, Structural)]
pub enum Method {
    Get,
    Post,
    Put,
    Patch,
    Delete,
    Head,
    Options,
    Other,
}

/// The colour of each method.
pub open spec fn spec_method_color(m: Method) -> Ansi {
    match m {
        Method::Get => Ansi(Brightness::Bright, Color::Green),
        Method::Post => Ansi(Brightness::Bright, Color::Yellow),
        Method::Put => Ansi(Brightness::Bright, Color::Blue),
        Method::Patch => Ansi(Brightness::Dim, Color::Magenta),
        Method::Delete => Ansi(Brightness::Bright, Color::Red),
        Method::Head => Ansi(Brightness::Bright, Color::Green),
        Method::Options => Ansi(Brightness::Bright, Color::Magenta),
        Method::Other => Ansi(Brightness::Bright, Color::White),
    }
}

/// The colour in which a method is logged.
#[verifier::when_used_as_spec(spec_method_color)]
pub fn method_color(m: Method) -> (c: Ansi)
    ensures
        c == spec_method_color(m),
{
    match m {
        Method::Get => Ansi(Brightness::Bright, Color::Green),
        Method::Post => Ansi(Brightness::Bright, Color::Yellow),
        Method::Put => Ansi(Brightness::Bright, Color::Blue),
        Method::Patch => Ansi(Brightness::Dim, Color::Magenta),
        Method::Delete => Ansi(Brightness::Bright, Color::Red),
        Method::Head => Ansi(Brightness::Bright, Color::Green),
        Method::Options => Ansi(Brightness::Bright, Color::Magenta),
        Method::Other => Ansi(Brightness::Bright, Color::White),
    }
}

} // verus!
