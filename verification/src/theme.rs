//! Color themes for the game.

use vstd::prelude::*;
use vstd::string::*;

verus! {

/// The terminal colors the game draws with.
#[derive(Debug, Clone, Copy, PartialEq, Eq, Structural)]
pub enum Color {
    White,
    Grey,
    DarkGrey,
    Red,
    DarkRed,
    Green,
    DarkGreen,
    Yellow,
    Blue,
    Magenta,
    Cyan,
}

/// A complete color palette for the game.
#[derive(Debug, Clone, Copy, PartialEq, Eq, Structural)]
pub struct Theme {
    pub wall: Color,
    pub head: Color,
    pub body: Color,
    pub food: Color,
    pub bonus: Color,
    pub title: Color,
    pub status_score: Color,
    pub status_best: Color,
    pub status_level: Color,
}

/// The default green-on-dark palette.
pub open spec fn classic_palette() -> Theme {
    Theme {
        wall: Color::DarkGrey,
        head: Color::Green,
        body: Color::DarkGreen,
        food: Color::Red,
        bonus: Color::Magenta,
        title: Color::Green,
        status_score: Color::Yellow,
        status_best: Color::Magenta,
        status_level: Color::Cyan,
    }
}

/// Bright, vibrant colors for a neon arcade look.
pub open spec fn neon_palette() -> Theme {
    Theme {
        wall: Color::White,
        head: Color::Cyan,
        body: Color::Blue,
        food: Color::Yellow,
        bonus: Color::Magenta,
        title: Color::Cyan,
        status_score: Color::Yellow,
        status_best: Color::Magenta,
        status_level: Color::Cyan,
    }
}

/// Greyscale palette for minimal terminals.
pub open spec fn monochrome_palette() -> Theme {
    Theme {
        wall: Color::DarkGrey,
        head: Color::White,
        body: Color::Grey,
        food: Color::White,
        bonus: Color::Grey,
        title: Color::White,
        status_score: Color::White,
        status_best: Color::Grey,
        status_level: Color::White,
    }
}

/// The classic palette is green on dark: a green head on a dark green body,
/// red food, a magenta bonus, grey walls.
pub proof fn lemma_classic_colors()
    ensures
        classic_palette().head == Color::Green,
        classic_palette().body == Color::DarkGreen,
        classic_palette().food == Color::Red,
        classic_palette().bonus == Color::Magenta,
        classic_palette().wall == Color::DarkGrey,
        classic_palette().title == Color::Green,
        classic_palette().status_score == Color::Yellow,
        classic_palette().status_best == Color::Magenta,
        classic_palette().status_level == Color::Cyan,
{
}

/// The neon palette: a cyan head on a blue body, yellow food, a magenta
/// bonus, white walls.
pub proof fn lemma_neon_colors()
    ensures
        neon_palette().head == Color::Cyan,
        neon_palette().body == Color::Blue,
        neon_palette().food == Color::Yellow,
        neon_palette().bonus == Color::Magenta,
        neon_palette().wall == Color::White,
        neon_palette().title == Color::Cyan,
        neon_palette().status_score == Color::Yellow,
        neon_palette().status_best == Color::Magenta,
        neon_palette().status_level == Color::Cyan,
{
}

/// The monochrome palette uses only white and greys.
pub proof fn lemma_monochrome_colors()
    ensures
        monochrome_palette().head == Color::White,
        monochrome_palette().body == Color::Grey,
        monochrome_palette().food == Color::White,
        monochrome_palette().bonus == Color::Grey,
        monochrome_palette().wall == Color::DarkGrey,
        monochrome_palette().title == Color::White,
        monochrome_palette().status_score == Color::White,
        monochrome_palette().status_best == Color::Grey,
        monochrome_palette().status_level == Color::White,
{
}

/// Whether two strings hold the same characters.
fn same_text(a: &str, b: &str) -> (r: bool)
    ensures
        r == (a@ == b@),
{
    let n = a.unicode_len();
    if n != b.unicode_len() {
        return false;
    }
    let mut i: usize = 0;
    while i < n
        invariant
            n == a@.len(),
            n == b@.len(),
            i <= n,
            forall|j: int| 0 <= j < i ==> a@[j] == b@[j],
        decreases n - i,
    {
        if a.get_char(i) != b.get_char(i) {
            return false;
        }
        i = i + 1;
    }
    assert(a@ =~= b@);
    true
}

impl Theme {
    /// The default green-on-dark palette.
    pub fn classic() -> (t: Self)
        ensures
            t == classic_palette(),
    {
        Self {
            wall: Color::DarkGrey,
            head: Color::Green,
            body: Color::DarkGreen,
            food: Color::Red,
            bonus: Color::Magenta,
            title: Color::Green,
            status_score: Color::Yellow,
            status_best: Color::Magenta,
            status_level: Color::Cyan,
        }
    }

    /// Bright, vibrant colors for a neon arcade look.
    pub fn neon() -> (t: Self)
        ensures
            t == neon_palette(),
    {
        Self {
            wall: Color::White,
            head: Color::Cyan,
            body: Color::Blue,
            food: Color::Yellow,
            bonus: Color::Magenta,
            title: Color::Cyan,
            status_score: Color::Yellow,
            status_best: Color::Magenta,
            status_level: Color::Cyan,
        }
    }

    /// Greyscale palette for minimal terminals.
    pub fn monochrome() -> (t: Self)
        ensures
            t == monochrome_palette(),
    {
        Self {
            wall: Color::DarkGrey,
            head: Color::White,
            body: Color::Grey,
            food: Color::White,
            bonus: Color::Grey,
            title: Color::White,
            status_score: Color::White,
            status_best: Color::Grey,
            status_level: Color::White,
        }
    }

    /// Resolves a theme name to a palette. Returns `None` for unknown names.
    pub fn from_name(name: &str) -> (t: Option<Self>)
        ensures
            t == if name@ == "classic"@ {
                Some(classic_palette())
            } else if name@ == "neon"@ {
                Some(neon_palette())
            } else if name@ == "monochrome"@ {
                Some(monochrome_palette())
            } else {
                None
            },
    {
        if same_text(name, "classic") {
            Some(Self::classic())
        } else if same_text(name, "neon") {
            Some(Self::neon())
        } else if same_text(name, "monochrome") {
            Some(Self::monochrome())
        } else {
            None
        }
    }
}

} // verus!
