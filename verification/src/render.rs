//! What the game asks a drawing surface to show: coloured rectangles, unit
//! blocks and lines of text, in playfield units. Putting them on a screen is
//! left to the surface.

use vstd::prelude::*;
use vstd::string::StringExecFns;
use crate::fixed::{whole, Fixed};
use crate::game::Owner;

verus! {

/// Model of a [`Color`]: the raw counts of its four channels.
pub struct ColorView {
    pub red: int,
    pub green: int,
    pub blue: int,
    pub alpha: int,
}

/// A colour with opacity. Each channel runs from zero to one.
#[derive(Copy, Clone, PartialEq, Eq, Debug)]
pub struct Color {
    pub red: Fixed,
    pub green: Fixed,
    pub blue: Fixed,
    pub alpha: Fixed,
}

impl View for Color {
    type V = ColorView;

    open spec fn view(&self) -> ColorView {
        ColorView {
            red: self.red@,
            green: self.green@,
            blue: self.blue@,
            alpha: self.alpha@,
        }
    }
}

/// Opaque white: paddles, ball and border.
pub open spec fn white() -> ColorView {
    ColorView { red: whole(1), green: whole(1), blue: whole(1), alpha: whole(1) }
}

/// Half-transparent red: the veil over a round that is over.
pub open spec fn veil() -> ColorView {
    ColorView { red: 800_000, green: 0, blue: 0, alpha: 500_000 }
}

impl Color {
    /// Opaque white.
    pub fn white() -> (r: Color)
        ensures
            r@ == white(),
    {
        Color { red: Fixed::one(), green: Fixed::one(), blue: Fixed::one(), alpha: Fixed::one() }
    }

    /// Half-transparent red.
    pub fn veil() -> (r: Color)
        ensures
            r@ == veil(),
    {
        Color {
            red: Fixed::from_micros(800_000),
            green: Fixed::zero(),
            blue: Fixed::zero(),
            alpha: Fixed::from_micros(500_000),
        }
    }
}

/// What a line of text says.
#[derive(Copy, Clone, PartialEq, Eq, Structural, Debug)]
pub enum Caption {
    /// The score.
    Score(i32),
    /// The paddle that touched the ball last.
    BallOwner(Owner),
}

/// The character that stands for the digit `d`.
pub open spec fn digit(d: int) -> char {
    if d == 0 {
        '0'
    } else if d == 1 {
        '1'
    } else if d == 2 {
        '2'
    } else if d == 3 {
        '3'
    } else if d == 4 {
        '4'
    } else if d == 5 {
        '5'
    } else if d == 6 {
        '6'
    } else if d == 7 {
        '7'
    } else if d == 8 {
        '8'
    } else {
        '9'
    }
}

/// The decimal digits of `n`, the most significant first, without leading
/// zeros.
pub open spec fn digits(n: nat) -> Seq<char>
    decreases n,
{
    if n < 10 {
        seq![digit(n as int)]
    } else {
        digits(n / 10).push(digit((n % 10) as int))
    }
}

/// The integer `n` written in decimal, with a minus sign if it is negative.
pub open spec fn decimal(n: int) -> Seq<char> {
    if n < 0 {
        seq!['-'] + digits((-n) as nat)
    } else {
        digits(n as nat)
    }
}

/// The name under which a paddle appears on the screen.
pub open spec fn owner_name(owner: Owner) -> Seq<char> {
    match owner {
        Owner::Player => "Player"@,
        Owner::Enemy => "Enemy"@,
    }
}

/// The words of a caption.
pub open spec fn caption_text(caption: Caption) -> Seq<char> {
    match caption {
        Caption::Score(score) => "SCORE: "@ + decimal(score as int),
        Caption::BallOwner(owner) => "BALL HIT BY: "@ + owner_name(owner),
    }
}

/// The one-character text of the digit `d`.
fn digit_text(d: u32) -> (r: &'static str)
    requires
        d < 10,
    ensures
        r@ == seq![digit(d as int)],
{
    proof {
        reveal_strlit("0");
        reveal_strlit("1");
        reveal_strlit("2");
        reveal_strlit("3");
        reveal_strlit("4");
        reveal_strlit("5");
        reveal_strlit("6");
        reveal_strlit("7");
        reveal_strlit("8");
        reveal_strlit("9");
    }
    let r = if d == 0 {
        "0"
    } else if d == 1 {
        "1"
    } else if d == 2 {
        "2"
    } else if d == 3 {
        "3"
    } else if d == 4 {
        "4"
    } else if d == 5 {
        "5"
    } else if d == 6 {
        "6"
    } else if d == 7 {
        "7"
    } else if d == 8 {
        "8"
    } else {
        "9"
    };
    assert(r@ =~= seq![digit(d as int)]);
    r
}

/// Writes the decimal digits of `n` at the end of `text`.
fn append_digits(text: &mut String, n: u32)
    ensures
        final(text)@ == old(text)@ + digits(n as nat),
    decreases n,
{
    if n >= 10 {
        append_digits(text, n / 10);
    }
    text.append(digit_text(n % 10));
    assert(final(text)@ =~= old(text)@ + digits(n as nat));
}

impl Owner {
    /// The name under which the paddle appears on the screen.
    pub fn name(self) -> (r: &'static str)
        ensures
            r@ == owner_name(self),
    {
        match self {
            Owner::Player => "Player",
            Owner::Enemy => "Enemy",
        }
    }
}

impl Caption {
    /// The words of the caption.
    pub fn text(self) -> (r: String)
        ensures
            r@ == caption_text(self),
    {
        match self {
            Caption::Score(score) => {
                let mut text = String::from_str("SCORE: ");
                if score < 0 {
                    proof {
                        reveal_strlit("-");
                    }
                    text.append("-");
                    let magnitude: i64 = -(score as i64);
                    append_digits(&mut text, magnitude as u32);
                    assert(text@ =~= "SCORE: "@ + decimal(score as int));
                } else {
                    append_digits(&mut text, score as u32);
                }
                text
            },
            Caption::BallOwner(owner) => {
                let mut text = String::from_str("BALL HIT BY: ");
                text.append(owner.name());
                text
            },
        }
    }
}

/// Model of a [`Shape`].
pub enum ShapeView {
    Rectangle { color: ColorView, x: int, y: int, width: int, height: int },
    Block { color: ColorView, x: int, y: int },
    Text { caption: Caption, y: int },
}

/// One request to the drawing surface.
#[derive(Copy, Clone, PartialEq, Eq, Debug)]
pub enum Shape {
    /// A filled rectangle with its top-left corner at (`x`, `y`), `width`
    /// units wide and `height` units tall.
    Rectangle { color: Color, x: Fixed, y: Fixed, width: i32, height: i32 },
    /// A filled unit square with its top-left corner at (`x`, `y`).
    Block { color: Color, x: Fixed, y: Fixed },
    /// A line of text at the height `y`.
    Text { caption: Caption, y: Fixed },
}

impl View for Shape {
    type V = ShapeView;

    open spec fn view(&self) -> ShapeView {
        match *self {
            Shape::Rectangle { color, x, y, width, height } => ShapeView::Rectangle {
                color: color@,
                x: x@,
                y: y@,
                width: width as int,
                height: height as int,
            },
            Shape::Block { color, x, y } => ShapeView::Block { color: color@, x: x@, y: y@ },
            Shape::Text { caption, y } => ShapeView::Text { caption, y: y@ },
        }
    }
}

} // verus!
