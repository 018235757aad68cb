//! Theme selection: a fixed palette set, its cycle order, and the per-cell
//! paint decision each theme makes.

use vstd::prelude::*;

verus! {

use crate::cell::Cell;

/// A three-colour palette; each colour is packed as 0xRRGGBB.
#[derive(Clone, Copy, Debug, PartialEq, Eq, Structural)]
pub struct Style {
    pub bg: u32,
    pub fg: u32,
    pub accent: u32,
}

impl Style {
    /// The default palette: black background, white foreground, green accent.
    pub fn default() -> (r: Style)
        ensures
            r == (Style { bg: 0x000000, fg: 0xFFFFFF, accent: 0x00E330 }),
    {
        Style { bg: 0x000000, fg: 0xFFFFFF, accent: 0x00E330 }
    }

    pub fn new(bg: u32, fg: u32, accent: u32) -> (r: Style)
        ensures
            r == (Style { bg, fg, accent }),
    {
        Style { bg, fg, accent }
    }
}

/// The selectable themes. `Bolus` is a special entry that the normal cycle
/// skips; it can only be reached by its dedicated toggle.
#[derive(Clone, Copy, Debug, PartialEq, Eq, Structural)]
pub enum Theme {
    Default,
    Gruvbox,
    Matrix,
    Midnight,
    Bolus,
}

/// The palette each theme maps to.
pub open spec fn style_of(t: Theme) -> Style {
    match t {
        Theme::Default => Style { bg: 0x000000, fg: 0xFFFFFF, accent: 0x00E330 },
        Theme::Gruvbox => Style { bg: 0x282828, fg: 0xEBDBB2, accent: 0xCC241D },
        Theme::Matrix => Style { bg: 0x131721, fg: 0x32C603, accent: 0x0078F2 },
        Theme::Midnight => Style { bg: 0x0D1017, fg: 0xFFFFFF, accent: 0xD65D0E },
        Theme::Bolus => Style { bg: 0x000000, fg: 0xFFFFFF, accent: 0x00E330 },
    }
}

/// The successor of a theme in the normal cycle: declaration order, wrapping
/// from the last ordinary entry back to the first and skipping `Bolus`.
pub open spec fn cycled(t: Theme) -> Theme {
    match t {
        Theme::Default => Theme::Gruvbox,
        Theme::Gruvbox => Theme::Matrix,
        Theme::Matrix => Theme::Midnight,
        Theme::Midnight => Theme::Default,
        Theme::Bolus => Theme::Default,
    }
}

/// What the dedicated toggle leaves behind: it always resets to the default
/// theme, from `Bolus` and from every other theme alike.
pub open spec fn bolus_toggled(t: Theme) -> Theme {
    Theme::Default
}

impl Theme {
    /// The palette this theme maps to.
    pub fn to_style(&self) -> (r: Style)
        ensures
            r == style_of(*self),
    {
        match *self {
            Theme::Default => Style::default(),
            Theme::Gruvbox => Style::new(0x282828, 0xEBDBB2, 0xCC241D),
            Theme::Matrix => Style::new(0x131721, 0x32C603, 0x0078F2),
            Theme::Midnight => Style::new(0x0D1017, 0xFFFFFF, 0xD65D0E),
            Theme::Bolus => Style::default(),
        }
    }

    /// Advances to the next theme in the normal cycle.
    pub fn cycle(&mut self)
        ensures
            *final(self) == cycled(*old(self)),
    {
        *self = match *self {
            Theme::Default => Theme::Gruvbox,
            Theme::Gruvbox => Theme::Matrix,
            Theme::Matrix => Theme::Midnight,
            Theme::Midnight => Theme::Default,
            Theme::Bolus => Theme::Default,
        };
    }

    /// The dedicated toggle for the special theme. It resets to the default
    /// theme whatever the current theme is, so it never actually enters
    /// `Bolus`.
    pub fn toggle_bolus(&mut self)
        ensures
            *final(self) == bolus_toggled(*old(self)),
    {
        *self = match *self {
            Theme::Bolus => Theme::Default,
            _ => Theme::Default,
        };
    }
}

/// How one cell is painted: a solid colour packed as 0xRRGGBB, or the special
/// sprite.
#[derive(Clone, Copy, Debug, PartialEq, Eq, Structural)]
pub enum CellPaint {
    Rgb(u32),
    Sprite,
}

/// A colour channel for the position-dependent midnight palette: coordinates
/// above 255 saturate at full intensity.
pub open spec fn channel_of(v: u32) -> u32 {
    if v > 0xFF {
        0xFF
    } else {
        v
    }
}

/// The paint each theme gives the cell at `(x, y)`: the midnight theme
/// colours live cells by their position, the special theme draws them as a
/// sprite over a black board, and every other theme uses its foreground for
/// live cells and its background for dead ones.
pub open spec fn cell_paint_of(t: Theme, x: u32, y: u32, c: Cell) -> CellPaint {
    match t {
        Theme::Midnight => match c {
            Cell::Alive => CellPaint::Rgb(
                (channel_of(x) << 16) | (channel_of(y) << 8) | 0x64,
            ),
            Cell::Dead => CellPaint::Rgb(style_of(t).bg),
        },
        Theme::Bolus => match c {
            Cell::Alive => CellPaint::Sprite,
            Cell::Dead => CellPaint::Rgb(0x000000),
        },
        _ => match c {
            Cell::Alive => CellPaint::Rgb(style_of(t).fg),
            Cell::Dead => CellPaint::Rgb(style_of(t).bg),
        },
    }
}

/// Decides how the cell at `(x, y)` is painted under the given theme.
pub fn cell_paint(theme: Theme, x: u32, y: u32, cell: Cell) -> (r: CellPaint)
    ensures
        r == cell_paint_of(theme, x, y, cell),
{
    let style = theme.to_style();
    match theme {
        Theme::Midnight => match cell {
            Cell::Alive => {
                let rc = if x > 0xFF {
                    0xFF
                } else {
                    x
                };
                let gc = if y > 0xFF {
                    0xFF
                } else {
                    y
                };
                CellPaint::Rgb((rc << 16) | (gc << 8) | 0x64)
            },
            Cell::Dead => CellPaint::Rgb(style.bg),
        },
        Theme::Bolus => match cell {
            Cell::Alive => CellPaint::Sprite,
            Cell::Dead => CellPaint::Rgb(0x000000),
        },
        _ => match cell {
            Cell::Alive => CellPaint::Rgb(style.fg),
            Cell::Dead => CellPaint::Rgb(style.bg),
        },
    }
}

} // verus!
