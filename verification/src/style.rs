//! Text styles of the interface as plain values: colors, modifier flags, and
//! the builders and the patching that combine them. The terminal front end
//! draws a style with the Ratatui style of the same colors and flags.
use vstd::prelude::*;

verus! {

/// Terminal colors.
#[derive(Clone, Copy, Debug, PartialEq, Eq, Structural)]
pub enum Tint {
    Reset,
    Black,
    Red,
    Green,
    Yellow,
    Blue,
    Magenta,
    Cyan,
    Gray,
    DarkGray,
    LightRed,
    LightGreen,
    LightYellow,
    LightBlue,
    LightMagenta,
    LightCyan,
    White,
    /// A 24-bit color.
    Rgb(u8, u8, u8),
    /// A color of the terminal's palette.
    Indexed(u8),
}

/// Text modifiers used by the interface.
#[derive(Clone, Copy, Debug, PartialEq, Eq, Structural)]
pub enum Emphasis {
    Bold,
    Italic,
    Underlined,
    CrossedOut,
}

/// The flag of a modifier among the modifier bits (bold 1, dim 2, italic 4,
/// underlined 8, slow blink 16, rapid blink 32, reversed 64, hidden 128,
/// crossed out 256).
pub open spec fn emphasis_bit(e: Emphasis) -> u16 {
    match e {
        Emphasis::Bold => 1,
        Emphasis::Italic => 4,
        Emphasis::Underlined => 8,
        Emphasis::CrossedOut => 256,
    }
}

/// A text style: colors when set, the modifier flags it adds and those it
/// removes.
#[derive(Clone, Copy, Debug, PartialEq, Eq, Structural)]
pub struct Style {
    pub fg: Option<Tint>,
    pub bg: Option<Tint>,
    pub underline_color: Option<Tint>,
    pub add_modifier: u16,
    pub sub_modifier: u16,
}

/// The style that changes nothing.
pub open spec fn plain() -> Style {
    Style { fg: None, bg: None, underline_color: None, add_modifier: 0, sub_modifier: 0 }
}

/// `s` with foreground `t`.
pub open spec fn with_fg(s: Style, t: Tint) -> Style {
    Style { fg: Some(t), ..s }
}

/// `s` with background `t`.
pub open spec fn with_bg(s: Style, t: Tint) -> Style {
    Style { bg: Some(t), ..s }
}

/// `s` with the flags `m` added, and no longer removed.
pub open spec fn with_flags(s: Style, m: u16) -> Style {
    Style { add_modifier: s.add_modifier | m, sub_modifier: s.sub_modifier & !m, ..s }
}

/// `other` laid over `base`: the colors `other` sets replace those of
/// `base`; the flags `other` removes leave the added ones and those it adds
/// join them, and the other way round for the removed flags.
pub open spec fn patched(base: Style, other: Style) -> Style {
    Style {
        fg: if other.fg is Some { other.fg } else { base.fg },
        bg: if other.bg is Some { other.bg } else { base.bg },
        underline_color: if other.underline_color is Some {
            other.underline_color
        } else {
            base.underline_color
        },
        add_modifier: (base.add_modifier & !other.sub_modifier) | other.add_modifier,
        sub_modifier: (base.sub_modifier & !other.add_modifier) | other.sub_modifier,
    }
}

impl Style {
    /// The style that changes nothing.
    pub fn new() -> (s: Self)
        ensures
            s == plain(),
    {
        Style { fg: None, bg: None, underline_color: None, add_modifier: 0, sub_modifier: 0 }
    }

    /// This style with foreground `t`.
    pub fn fg(self, t: Tint) -> (s: Self)
        ensures
            s == with_fg(self, t),
    {
        Style { fg: Some(t), ..self }
    }

    /// This style with background `t`.
    pub fn bg(self, t: Tint) -> (s: Self)
        ensures
            s == with_bg(self, t),
    {
        Style { bg: Some(t), ..self }
    }

    /// This style with the modifier `e` added.
    pub fn add_modifier(self, e: Emphasis) -> (s: Self)
        ensures
            s == with_flags(self, emphasis_bit(e)),
    {
        let m: u16 = match e {
            Emphasis::Bold => 1,
            Emphasis::Italic => 4,
            Emphasis::Underlined => 8,
            Emphasis::CrossedOut => 256,
        };
        Style { add_modifier: self.add_modifier | m, sub_modifier: self.sub_modifier & !m, ..self }
    }

    /// `other` laid over this style (see `patched`).
    pub fn patch(self, other: Style) -> (s: Self)
        ensures
            s == patched(self, other),
    {
        Style {
            fg: if other.fg.is_some() { other.fg } else { self.fg },
            bg: if other.bg.is_some() { other.bg } else { self.bg },
            underline_color: if other.underline_color.is_some() {
                other.underline_color
            } else {
                self.underline_color
            },
            add_modifier: (self.add_modifier & !other.sub_modifier) | other.add_modifier,
            sub_modifier: (self.sub_modifier & !other.add_modifier) | other.sub_modifier,
        }
    }
}

impl Default for Style {
    fn default() -> (s: Self)
        ensures
            s == plain(),
    {
        Style::new()
    }
}

/// A style with foreground `t` over the plain style.
pub fn fg_style(t: Tint) -> (s: Style)
    ensures
        s == with_fg(plain(), t),
{
    Style::new().fg(t)
}

/// A style with foreground `t` and modifier `e` over the plain style.
pub fn fg_emphasis_style(t: Tint, e: Emphasis) -> (s: Style)
    ensures
        s == with_flags(with_fg(plain(), t), emphasis_bit(e)),
{
    fg_style(t).add_modifier(e)
}

/// A style with only modifier `e` over the plain style.
pub fn emphasis_style(e: Emphasis) -> (s: Style)
    ensures
        s == with_flags(plain(), emphasis_bit(e)),
{
    Style::new().add_modifier(e)
}

} // verus!
