//! Display styles and the theme pair applied on focus changes.
//!
//! A style is plain data: a foreground colour, a background colour, and a
//! bold flag. The dispatcher never computes styles, it only copies them;
//! the host maps them onto whatever the terminal backend expects.

use vstd::prelude::*;

verus! {

/// A terminal colour. `Reset` stands for the terminal's default.
#[derive(Clone, Copy, Debug, PartialEq, Eq, Structural)]
pub enum Color {
    Reset,
    Black,
    White,
    Grey,
    Red,
    Green,
    DarkGreen,
    Yellow,
    Blue,
    Cyan,
    DarkCyan,
}

/// A character style: colours and a bold flag, applied as given.
#[derive(Clone, Copy, Debug, PartialEq, Eq, Structural)]
pub struct Style {
    pub foreground: Color,
    pub background: Color,
    pub bold: bool,
}

impl Style {
    /// The terminal's default rendition.
    pub fn plain() -> (r: Style)
        ensures
            r == Style::spec_plain(),
    {
        Style { foreground: Color::Reset, background: Color::Reset, bold: false }
    }

    /// The style that `plain` builds.
    pub open spec fn spec_plain() -> Style {
        Style { foreground: Color::Reset, background: Color::Reset, bold: false }
    }

    /// The style of a successful completion summary.
    pub fn success() -> (r: Style)
        ensures
            r == Style::spec_success(),
    {
        Style { foreground: Color::Green, background: Color::Reset, bold: false }
    }

    /// The style that `success` builds: green foreground.
    pub open spec fn spec_success() -> Style {
        Style { foreground: Color::Green, background: Color::Reset, bold: false }
    }

    /// The style of a warning or lookup-failure message.
    pub fn warning() -> (r: Style)
        ensures
            r == Style::spec_warning(),
    {
        Style { foreground: Color::Yellow, background: Color::Reset, bold: false }
    }

    /// The style that `warning` builds: yellow foreground.
    pub open spec fn spec_warning() -> Style {
        Style { foreground: Color::Yellow, background: Color::Reset, bold: false }
    }
}

} // verus!
