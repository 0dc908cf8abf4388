//! The three built-in color themes and how the client cycles through them.
use vstd::prelude::*;

verus! {

/// The name of a built-in theme.
#[derive(Debug, Clone, Copy, PartialEq, Eq, Structural)]
pub enum ThemeName {
    Catppuccin,
    Nord,
    TokyoNight,
}

/// The theme that follows `name` in the cycle.
pub open spec fn next_theme(name: ThemeName) -> ThemeName {
    match name {
        ThemeName::Catppuccin => ThemeName::Nord,
        ThemeName::Nord => ThemeName::TokyoNight,
        ThemeName::TokyoNight => ThemeName::Catppuccin,
    }
}

/// The label shown for a theme.
pub open spec fn theme_label(name: ThemeName) -> Seq<char> {
    match name {
        ThemeName::Catppuccin => "Catppuccin"@,
        ThemeName::Nord => "Nord"@,
        ThemeName::TokyoNight => "Tokyo Night"@,
    }
}

impl ThemeName {
    /// The theme that follows this one.
    pub fn next(self) -> (r: ThemeName)
        ensures
            r == next_theme(self),
    {
        match self {
            ThemeName::Catppuccin => ThemeName::Nord,
            ThemeName::Nord => ThemeName::TokyoNight,
            ThemeName::TokyoNight => ThemeName::Catppuccin,
        }
    }

    /// The label shown for this theme.
    pub fn label(self) -> (r: &'static str)
        ensures
            r@ == theme_label(self),
    {
        match self {
            ThemeName::Catppuccin => "Catppuccin",
            ThemeName::Nord => "Nord",
            ThemeName::TokyoNight => "Tokyo Night",
        }
    }
}

/// Cycling through the themes comes back to the start after three steps, and
/// visits three different themes on the way.
pub proof fn law_theme_cycle(name: ThemeName)
    ensures
        next_theme(next_theme(next_theme(name))) == name,
        next_theme(name) != name,
        next_theme(next_theme(name)) != name,
{
}

/// A color, as red, green and blue.
#[derive(Debug, Clone, Copy, PartialEq, Eq, Structural)]
pub struct Rgb {
    pub red: u8,
    pub green: u8,
    pub blue: u8,
}

/// The colors of a theme.
#[derive(Debug, Clone, Copy, PartialEq, Eq, Structural)]
pub struct Theme {
    pub background: Rgb,
    pub connected: Rgb,
    pub disconnected: Rgb,
    pub connecting: Rgb,
    pub text: Rgb,
    pub dim: Rgb,
    pub rule: Rgb,
}

/// The color with the given components.
pub open spec fn rgb(red: u8, green: u8, blue: u8) -> Rgb {
    Rgb { red, green, blue }
}

/// The palette of each theme.
pub open spec fn palette(name: ThemeName) -> Theme {
    match name {
        ThemeName::Catppuccin => Theme {
            background: rgb(30, 30, 46),
            connected: rgb(166, 227, 161),
            disconnected: rgb(243, 139, 168),
            connecting: rgb(249, 226, 175),
            text: rgb(205, 214, 244),
            dim: rgb(108, 112, 134),
            rule: rgb(69, 71, 90),
        },
        ThemeName::Nord => Theme {
            background: rgb(46, 52, 64),
            connected: rgb(163, 190, 140),
            disconnected: rgb(191, 97, 106),
            connecting: rgb(235, 203, 139),
            text: rgb(216, 222, 233),
            dim: rgb(76, 86, 106),
            rule: rgb(59, 66, 82),
        },
        ThemeName::TokyoNight => Theme {
            background: rgb(26, 27, 38),
            connected: rgb(158, 206, 106),
            disconnected: rgb(247, 118, 142),
            connecting: rgb(224, 175, 104),
            text: rgb(192, 202, 245),
            dim: rgb(86, 95, 137),
            rule: rgb(59, 66, 97),
        },
    }
}

fn color(red: u8, green: u8, blue: u8) -> (r: Rgb)
    ensures
        r == rgb(red, green, blue),
{
    Rgb { red, green, blue }
}

/// The colors of the theme `name`.
pub fn theme_for(name: ThemeName) -> (r: Theme)
    ensures
        r == palette(name),
{
    match name {
        ThemeName::Catppuccin => Theme {
            background: color(30, 30, 46),
            connected: color(166, 227, 161),
            disconnected: color(243, 139, 168),
            connecting: color(249, 226, 175),
            text: color(205, 214, 244),
            dim: color(108, 112, 134),
            rule: color(69, 71, 90),
        },
        ThemeName::Nord => Theme {
            background: color(46, 52, 64),
            connected: color(163, 190, 140),
            disconnected: color(191, 97, 106),
            connecting: color(235, 203, 139),
            text: color(216, 222, 233),
            dim: color(76, 86, 106),
            rule: color(59, 66, 82),
        },
        ThemeName::TokyoNight => Theme {
            background: color(26, 27, 38),
            connected: color(158, 206, 106),
            disconnected: color(247, 118, 142),
            connecting: color(224, 175, 104),
            text: color(192, 202, 245),
            dim: color(86, 95, 137),
            rule: color(59, 66, 97),
        },
    }
}

/// The status dot is green while connected, red once disconnected and yellow while
/// connecting, in every theme: green leads in the connected color, red in the
/// disconnected one, and red and green both exceed blue in the connecting one. Text,
/// dimmed text and rules are each lighter than the background in every component.
pub proof fn law_status_colors_read_right(name: ThemeName)
    ensures
        palette(name).connected.green > palette(name).connected.red,
        palette(name).connected.green > palette(name).connected.blue,
        palette(name).disconnected.red > palette(name).disconnected.green,
        palette(name).disconnected.red > palette(name).disconnected.blue,
        palette(name).connecting.red > palette(name).connecting.blue,
        palette(name).connecting.green > palette(name).connecting.blue,
        palette(name).connected != palette(name).disconnected,
        palette(name).connected != palette(name).connecting,
        palette(name).disconnected != palette(name).connecting,
        palette(name).text.red > palette(name).background.red,
        palette(name).text.green > palette(name).background.green,
        palette(name).text.blue > palette(name).background.blue,
        palette(name).dim.red > palette(name).background.red,
        palette(name).dim.green > palette(name).background.green,
        palette(name).dim.blue > palette(name).background.blue,
        palette(name).rule.red > palette(name).background.red,
        palette(name).rule.green > palette(name).background.green,
        palette(name).rule.blue > palette(name).background.blue,
{
}

/// The status colors of each theme are those of its published palette: Catppuccin's
/// green, red and yellow, Nord's aurora green, red and yellow, and Tokyo Night's green,
/// red and orange.
pub proof fn law_status_colors_of_each_theme()
    ensures
        palette(ThemeName::Catppuccin).connected == (Rgb { red: 166, green: 227, blue: 161 }),
        palette(ThemeName::Catppuccin).disconnected == (Rgb { red: 243, green: 139, blue: 168 }),
        palette(ThemeName::Catppuccin).connecting == (Rgb { red: 249, green: 226, blue: 175 }),
        palette(ThemeName::Nord).connected == (Rgb { red: 163, green: 190, blue: 140 }),
        palette(ThemeName::Nord).disconnected == (Rgb { red: 191, green: 97, blue: 106 }),
        palette(ThemeName::Nord).connecting == (Rgb { red: 235, green: 203, blue: 139 }),
        palette(ThemeName::TokyoNight).connected == (Rgb { red: 158, green: 206, blue: 106 }),
        palette(ThemeName::TokyoNight).disconnected == (Rgb { red: 247, green: 118, blue: 142 }),
        palette(ThemeName::TokyoNight).connecting == (Rgb { red: 224, green: 175, blue: 104 }),
{
}

} // verus!
