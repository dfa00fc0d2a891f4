//! Colour themes: their names, how a name is read back, and the palette of each.

use vstd::prelude::*;

use crate::text::str_equal;

verus! {

/// One of the built-in colour themes.
#[derive(Debug, Clone, Copy, PartialEq, Eq, Structural)]
pub enum Theme {
    Dark,
    Light,
    Midnight,
    Ocean,
    Forest,
}

/// An opaque colour given by its red, green and blue channels.
#[derive(Debug, Clone, Copy, PartialEq, Eq, Structural)]
pub struct Rgb {
    pub r: u8,
    pub g: u8,
    pub b: u8,
}

/// The colour with the given channels.
pub open spec fn rgb(r: u8, g: u8, b: u8) -> Rgb {
    Rgb { r, g, b }
}

impl Rgb {
    pub fn new(r: u8, g: u8, b: u8) -> (c: Rgb)
        ensures
            c == rgb(r, g, b),
    {
        Rgb { r, g, b }
    }
}

/// The themes in the order in which they are offered.
pub open spec fn all_themes() -> Seq<Theme> {
    seq![Theme::Dark, Theme::Light, Theme::Midnight, Theme::Ocean, Theme::Forest]
}

/// The name under which a theme is shown and stored.
pub open spec fn theme_name(t: Theme) -> Seq<char> {
    match t {
        Theme::Dark => "Dark"@,
        Theme::Light => "Light"@,
        Theme::Midnight => "Midnight"@,
        Theme::Ocean => "Ocean"@,
        Theme::Forest => "Forest"@,
    }
}

/// The theme that a stored name selects: the theme of that exact name,
/// and the dark theme for any other text.
pub open spec fn theme_from_name(s: Seq<char>) -> Theme {
    if s == "Light"@ {
        Theme::Light
    } else if s == "Midnight"@ {
        Theme::Midnight
    } else if s == "Ocean"@ {
        Theme::Ocean
    } else if s == "Forest"@ {
        Theme::Forest
    } else {
        Theme::Dark
    }
}

/// Whether the interface is drawn in dark mode under `t`.
pub open spec fn is_dark_theme(t: Theme) -> bool {
    t != Theme::Light
}

impl Theme {
    /// Every theme, each once, in the order in which they are offered.
    pub fn all() -> (r: &'static [Theme])
        ensures
            r@ == all_themes(),
    {
        &[Theme::Dark, Theme::Light, Theme::Midnight, Theme::Ocean, Theme::Forest]
    }

    /// The name of the theme.
    pub fn name(&self) -> (r: &'static str)
        ensures
            r@ == theme_name(*self),
    {
        match self {
            Theme::Dark => "Dark",
            Theme::Light => "Light",
            Theme::Midnight => "Midnight",
            Theme::Ocean => "Ocean",
            Theme::Forest => "Forest",
        }
    }

    /// The theme of the given name; any name that is not one of the themes'
    /// exact names gives the dark theme.
    pub fn from_name(name: &str) -> (t: Theme)
        ensures
            t == theme_from_name(name@),
    {
        if str_equal(name, "Light") {
            Theme::Light
        } else if str_equal(name, "Midnight") {
            Theme::Midnight
        } else if str_equal(name, "Ocean") {
            Theme::Ocean
        } else if str_equal(name, "Forest") {
            Theme::Forest
        } else {
            Theme::Dark
        }
    }

    /// Whether the interface is drawn in dark mode under this theme.
    pub fn is_dark_mode(&self) -> (r: bool)
        ensures
            r == is_dark_theme(*self),
    {
        match self {
            Theme::Light => false,
            _ => true,
        }
    }

    /// The background of the playlist row at position `row` of the shown list:
    /// the current song's row is highlighted, the others alternate.
    pub fn row_background(&self, is_current: bool, row: usize) -> (c: Rgb)
        ensures
            c == (if is_current {
                palette(*self, ColorRole::BgRowCurrent)
            } else if row % 2 == 0 {
                palette(*self, ColorRole::BgRowEven)
            } else {
                palette(*self, ColorRole::BgRowOdd)
            }),
    {
        if is_current {
            self.bg_row_current()
        } else if row % 2 == 0 {
            self.bg_row_even()
        } else {
            self.bg_row_odd()
        }
    }
}

/// The places of the interface that a theme gives a colour.
#[derive(Debug, Clone, Copy, PartialEq, Eq, Structural)]
pub enum ColorRole {
    /// Background of the main window.
    BgMain,
    /// Background of panels and the mini player.
    BgSurface,
    /// Background of the player bar.
    BgPlayer,
    /// Background of even playlist rows.
    BgRowEven,
    /// Background of odd playlist rows.
    BgRowOdd,
    /// Background of the row of the current song.
    BgRowCurrent,
    /// Background of the playlist header.
    BgHeader,
    /// Accent colour.
    Accent,
    /// Dimmed accent colour.
    AccentDim,
    /// Primary text.
    TextPrimary,
    /// Secondary text.
    TextSecondary,
    /// Dimmed text.
    TextDim,
    /// Background of buttons.
    BtnBg,
    /// The play button.
    BtnPlay,
    /// Background of the search field.
    SearchBg,
    /// Background of the settings window.
    SettingsBg,
}

/// The colour that `theme` gives to `role`.
pub open spec fn palette(theme: Theme, role: ColorRole) -> Rgb {
    match role {
        ColorRole::BgMain => match theme {
            Theme::Dark => rgb(18, 18, 18),
            Theme::Light => rgb(245, 245, 245),
            Theme::Midnight => rgb(10, 10, 30),
            Theme::Ocean => rgb(15, 25, 35),
            Theme::Forest => rgb(15, 25, 15),
        },
        ColorRole::BgSurface => match theme {
            Theme::Dark => rgb(30, 30, 30),
            Theme::Light => rgb(220, 220, 220),
            Theme::Midnight => rgb(20, 20, 45),
            Theme::Ocean => rgb(20, 35, 50),
            Theme::Forest => rgb(20, 35, 20),
        },
        ColorRole::BgPlayer => match theme {
            Theme::Dark => rgb(40, 40, 40),
            Theme::Light => rgb(200, 200, 200),
            Theme::Midnight => rgb(25, 25, 55),
            Theme::Ocean => rgb(25, 45, 60),
            Theme::Forest => rgb(25, 45, 25),
        },
        ColorRole::BgRowEven => match theme {
            Theme::Dark => rgb(25, 25, 25),
            Theme::Light => rgb(235, 235, 235),
            Theme::Midnight => rgb(18, 18, 40),
            Theme::Ocean => rgb(22, 38, 52),
            Theme::Forest => rgb(22, 38, 22),
        },
        ColorRole::BgRowOdd => match theme {
            Theme::Dark => rgb(30, 30, 30),
            Theme::Light => rgb(225, 225, 225),
            Theme::Midnight => rgb(22, 22, 45),
            Theme::Ocean => rgb(26, 42, 56),
            Theme::Forest => rgb(26, 42, 26),
        },
        ColorRole::BgRowCurrent => match theme {
            Theme::Dark => rgb(0, 80, 60),
            Theme::Light => rgb(180, 230, 210),
            Theme::Midnight => rgb(0, 50, 80),
            Theme::Ocean => rgb(0, 60, 80),
            Theme::Forest => rgb(0, 70, 40),
        },
        ColorRole::BgHeader => match theme {
            Theme::Dark => rgb(35, 35, 35),
            Theme::Light => rgb(210, 210, 210),
            Theme::Midnight => rgb(28, 28, 50),
            Theme::Ocean => rgb(30, 48, 62),
            Theme::Forest => rgb(30, 48, 30),
        },
        ColorRole::Accent => match theme {
            Theme::Dark => rgb(0, 200, 150),
            Theme::Light => rgb(0, 150, 100),
            Theme::Midnight => rgb(80, 140, 255),
            Theme::Ocean => rgb(60, 180, 220),
            Theme::Forest => rgb(80, 200, 80),
        },
        ColorRole::AccentDim => match theme {
            Theme::Dark => rgb(0, 180, 130),
            Theme::Light => rgb(0, 130, 80),
            Theme::Midnight => rgb(60, 110, 220),
            Theme::Ocean => rgb(40, 150, 190),
            Theme::Forest => rgb(60, 170, 60),
        },
        ColorRole::TextPrimary => match theme {
            Theme::Dark => rgb(255, 255, 255),
            Theme::Light => rgb(0, 0, 0),
            Theme::Midnight => rgb(200, 210, 255),
            Theme::Ocean => rgb(200, 220, 240),
            Theme::Forest => rgb(200, 240, 200),
        },
        ColorRole::TextSecondary => match theme {
            Theme::Dark => rgb(140, 140, 140),
            Theme::Light => rgb(100, 100, 100),
            Theme::Midnight => rgb(130, 140, 190),
            Theme::Ocean => rgb(130, 160, 180),
            Theme::Forest => rgb(130, 180, 130),
        },
        ColorRole::TextDim => match theme {
            Theme::Dark => rgb(120, 120, 120),
            Theme::Light => rgb(140, 140, 140),
            Theme::Midnight => rgb(110, 120, 160),
            Theme::Ocean => rgb(110, 140, 160),
            Theme::Forest => rgb(110, 150, 110),
        },
        ColorRole::BtnBg => match theme {
            Theme::Dark => rgb(50, 50, 50),
            Theme::Light => rgb(180, 180, 180),
            Theme::Midnight => rgb(35, 35, 65),
            Theme::Ocean => rgb(40, 55, 70),
            Theme::Forest => rgb(40, 55, 40),
        },
        ColorRole::BtnPlay => match theme {
            Theme::Dark => rgb(0, 180, 130),
            Theme::Light => rgb(0, 150, 100),
            Theme::Midnight => rgb(60, 120, 230),
            Theme::Ocean => rgb(40, 160, 200),
            Theme::Forest => rgb(60, 180, 60),
        },
        ColorRole::SearchBg => match theme {
            Theme::Dark => rgb(50, 50, 50),
            Theme::Light => rgb(200, 200, 200),
            Theme::Midnight => rgb(35, 35, 60),
            Theme::Ocean => rgb(40, 55, 70),
            Theme::Forest => rgb(40, 55, 40),
        },
        ColorRole::SettingsBg => match theme {
            Theme::Dark => rgb(40, 40, 45),
            Theme::Light => rgb(230, 230, 235),
            Theme::Midnight => rgb(30, 30, 55),
            Theme::Ocean => rgb(30, 45, 60),
            Theme::Forest => rgb(30, 45, 30),
        },
    }
}

impl Theme {
    /// The colour that this theme gives to `role`.
    pub fn color(&self, role: ColorRole) -> (c: Rgb)
        ensures
            c == palette(*self, role),
    {
        let theme = *self;
        match role {
            ColorRole::BgMain => match theme {
                Theme::Dark => Rgb::new(18, 18, 18),
                Theme::Light => Rgb::new(245, 245, 245),
                Theme::Midnight => Rgb::new(10, 10, 30),
                Theme::Ocean => Rgb::new(15, 25, 35),
                Theme::Forest => Rgb::new(15, 25, 15),
            },
            ColorRole::BgSurface => match theme {
                Theme::Dark => Rgb::new(30, 30, 30),
                Theme::Light => Rgb::new(220, 220, 220),
                Theme::Midnight => Rgb::new(20, 20, 45),
                Theme::Ocean => Rgb::new(20, 35, 50),
                Theme::Forest => Rgb::new(20, 35, 20),
            },
            ColorRole::BgPlayer => match theme {
                Theme::Dark => Rgb::new(40, 40, 40),
                Theme::Light => Rgb::new(200, 200, 200),
                Theme::Midnight => Rgb::new(25, 25, 55),
                Theme::Ocean => Rgb::new(25, 45, 60),
                Theme::Forest => Rgb::new(25, 45, 25),
            },
            ColorRole::BgRowEven => match theme {
                Theme::Dark => Rgb::new(25, 25, 25),
                Theme::Light => Rgb::new(235, 235, 235),
                Theme::Midnight => Rgb::new(18, 18, 40),
                Theme::Ocean => Rgb::new(22, 38, 52),
                Theme::Forest => Rgb::new(22, 38, 22),
            },
            ColorRole::BgRowOdd => match theme {
                Theme::Dark => Rgb::new(30, 30, 30),
                Theme::Light => Rgb::new(225, 225, 225),
                Theme::Midnight => Rgb::new(22, 22, 45),
                Theme::Ocean => Rgb::new(26, 42, 56),
                Theme::Forest => Rgb::new(26, 42, 26),
            },
            ColorRole::BgRowCurrent => match theme {
                Theme::Dark => Rgb::new(0, 80, 60),
                Theme::Light => Rgb::new(180, 230, 210),
                Theme::Midnight => Rgb::new(0, 50, 80),
                Theme::Ocean => Rgb::new(0, 60, 80),
                Theme::Forest => Rgb::new(0, 70, 40),
            },
            ColorRole::BgHeader => match theme {
                Theme::Dark => Rgb::new(35, 35, 35),
                Theme::Light => Rgb::new(210, 210, 210),
                Theme::Midnight => Rgb::new(28, 28, 50),
                Theme::Ocean => Rgb::new(30, 48, 62),
                Theme::Forest => Rgb::new(30, 48, 30),
            },
            ColorRole::Accent => match theme {
                Theme::Dark => Rgb::new(0, 200, 150),
                Theme::Light => Rgb::new(0, 150, 100),
                Theme::Midnight => Rgb::new(80, 140, 255),
                Theme::Ocean => Rgb::new(60, 180, 220),
                Theme::Forest => Rgb::new(80, 200, 80),
            },
            ColorRole::AccentDim => match theme {
                Theme::Dark => Rgb::new(0, 180, 130),
                Theme::Light => Rgb::new(0, 130, 80),
                Theme::Midnight => Rgb::new(60, 110, 220),
                Theme::Ocean => Rgb::new(40, 150, 190),
                Theme::Forest => Rgb::new(60, 170, 60),
            },
            ColorRole::TextPrimary => match theme {
                Theme::Dark => Rgb::new(255, 255, 255),
                Theme::Light => Rgb::new(0, 0, 0),
                Theme::Midnight => Rgb::new(200, 210, 255),
                Theme::Ocean => Rgb::new(200, 220, 240),
                Theme::Forest => Rgb::new(200, 240, 200),
            },
            ColorRole::TextSecondary => match theme {
                Theme::Dark => Rgb::new(140, 140, 140),
                Theme::Light => Rgb::new(100, 100, 100),
                Theme::Midnight => Rgb::new(130, 140, 190),
                Theme::Ocean => Rgb::new(130, 160, 180),
                Theme::Forest => Rgb::new(130, 180, 130),
            },
            ColorRole::TextDim => match theme {
                Theme::Dark => Rgb::new(120, 120, 120),
                Theme::Light => Rgb::new(140, 140, 140),
                Theme::Midnight => Rgb::new(110, 120, 160),
                Theme::Ocean => Rgb::new(110, 140, 160),
                Theme::Forest => Rgb::new(110, 150, 110),
            },
            ColorRole::BtnBg => match theme {
                Theme::Dark => Rgb::new(50, 50, 50),
                Theme::Light => Rgb::new(180, 180, 180),
                Theme::Midnight => Rgb::new(35, 35, 65),
                Theme::Ocean => Rgb::new(40, 55, 70),
                Theme::Forest => Rgb::new(40, 55, 40),
            },
            ColorRole::BtnPlay => match theme {
                Theme::Dark => Rgb::new(0, 180, 130),
                Theme::Light => Rgb::new(0, 150, 100),
                Theme::Midnight => Rgb::new(60, 120, 230),
                Theme::Ocean => Rgb::new(40, 160, 200),
                Theme::Forest => Rgb::new(60, 180, 60),
            },
            ColorRole::SearchBg => match theme {
                Theme::Dark => Rgb::new(50, 50, 50),
                Theme::Light => Rgb::new(200, 200, 200),
                Theme::Midnight => Rgb::new(35, 35, 60),
                Theme::Ocean => Rgb::new(40, 55, 70),
                Theme::Forest => Rgb::new(40, 55, 40),
            },
            ColorRole::SettingsBg => match theme {
                Theme::Dark => Rgb::new(40, 40, 45),
                Theme::Light => Rgb::new(230, 230, 235),
                Theme::Midnight => Rgb::new(30, 30, 55),
                Theme::Ocean => Rgb::new(30, 45, 60),
                Theme::Forest => Rgb::new(30, 45, 30),
            },
        }
    }

    /// Background of the main window.
    pub fn bg_main(&self) -> (c: Rgb)
        ensures
            c == palette(*self, ColorRole::BgMain),
    {
        self.color(ColorRole::BgMain)
    }

    /// Background of panels and the mini player.
    pub fn bg_surface(&self) -> (c: Rgb)
        ensures
            c == palette(*self, ColorRole::BgSurface),
    {
        self.color(ColorRole::BgSurface)
    }

    /// Background of the player bar.
    pub fn bg_player(&self) -> (c: Rgb)
        ensures
            c == palette(*self, ColorRole::BgPlayer),
    {
        self.color(ColorRole::BgPlayer)
    }

    /// Background of even playlist rows.
    pub fn bg_row_even(&self) -> (c: Rgb)
        ensures
            c == palette(*self, ColorRole::BgRowEven),
    {
        self.color(ColorRole::BgRowEven)
    }

    /// Background of odd playlist rows.
    pub fn bg_row_odd(&self) -> (c: Rgb)
        ensures
            c == palette(*self, ColorRole::BgRowOdd),
    {
        self.color(ColorRole::BgRowOdd)
    }

    /// Background of the row of the current song.
    pub fn bg_row_current(&self) -> (c: Rgb)
        ensures
            c == palette(*self, ColorRole::BgRowCurrent),
    {
        self.color(ColorRole::BgRowCurrent)
    }

    /// Background of the playlist header.
    pub fn bg_header(&self) -> (c: Rgb)
        ensures
            c == palette(*self, ColorRole::BgHeader),
    {
        self.color(ColorRole::BgHeader)
    }

    /// Accent colour.
    pub fn accent(&self) -> (c: Rgb)
        ensures
            c == palette(*self, ColorRole::Accent),
    {
        self.color(ColorRole::Accent)
    }

    /// Dimmed accent colour.
    pub fn accent_dim(&self) -> (c: Rgb)
        ensures
            c == palette(*self, ColorRole::AccentDim),
    {
        self.color(ColorRole::AccentDim)
    }

    /// Primary text.
    pub fn text_primary(&self) -> (c: Rgb)
        ensures
            c == palette(*self, ColorRole::TextPrimary),
    {
        self.color(ColorRole::TextPrimary)
    }

    /// Secondary text.
    pub fn text_secondary(&self) -> (c: Rgb)
        ensures
            c == palette(*self, ColorRole::TextSecondary),
    {
        self.color(ColorRole::TextSecondary)
    }

    /// Dimmed text.
    pub fn text_dim(&self) -> (c: Rgb)
        ensures
            c == palette(*self, ColorRole::TextDim),
    {
        self.color(ColorRole::TextDim)
    }

    /// Background of buttons.
    pub fn btn_bg(&self) -> (c: Rgb)
        ensures
            c == palette(*self, ColorRole::BtnBg),
    {
        self.color(ColorRole::BtnBg)
    }

    /// The play button.
    pub fn btn_play(&self) -> (c: Rgb)
        ensures
            c == palette(*self, ColorRole::BtnPlay),
    {
        self.color(ColorRole::BtnPlay)
    }

    /// Background of the search field.
    pub fn search_bg(&self) -> (c: Rgb)
        ensures
            c == palette(*self, ColorRole::SearchBg),
    {
        self.color(ColorRole::SearchBg)
    }

    /// Background of the settings window.
    pub fn settings_bg(&self) -> (c: Rgb)
        ensures
            c == palette(*self, ColorRole::SettingsBg),
    {
        self.color(ColorRole::SettingsBg)
    }

}

/// Reading back the name of a theme gives that theme.
pub proof fn lemma_name_round_trip(t: Theme)
    ensures
        theme_from_name(theme_name(t)) == t,
{
    lemma_literal_names_distinct();
}

/// The five names differ pairwise.
proof fn lemma_literal_names_distinct()
    ensures
        "Dark"@ != "Light"@,
        "Dark"@ != "Midnight"@,
        "Dark"@ != "Ocean"@,
        "Dark"@ != "Forest"@,
        "Light"@ != "Midnight"@,
        "Light"@ != "Ocean"@,
        "Light"@ != "Forest"@,
        "Midnight"@ != "Ocean"@,
        "Midnight"@ != "Forest"@,
        "Ocean"@ != "Forest"@,
{
    reveal_strlit("Dark");
    reveal_strlit("Light");
    reveal_strlit("Midnight");
    reveal_strlit("Ocean");
    reveal_strlit("Forest");
    assert("Dark"@.len() == 4);
    assert("Light"@.len() == 5);
    assert("Midnight"@.len() == 8);
    assert("Ocean"@.len() == 5);
    assert("Forest"@.len() == 6);
    assert("Light"@[0] != "Ocean"@[0]);
}

/// Distinct themes have distinct names.
pub proof fn lemma_names_distinct(t1: Theme, t2: Theme)
    requires
        t1 != t2,
    ensures
        theme_name(t1) != theme_name(t2),
{
    lemma_name_round_trip(t1);
    lemma_name_round_trip(t2);
}

/// A text is read back as itself exactly when it is the name of a theme;
/// any other text selects the dark theme.
pub proof fn lemma_from_name_exact(s: Seq<char>)
    ensures
        (exists|t: Theme| theme_name(t) == s) <==> theme_name(theme_from_name(s)) == s,
        !(exists|t: Theme| theme_name(t) == s) ==> theme_from_name(s) == Theme::Dark,
{
    if exists|t: Theme| theme_name(t) == s {
        let t = choose|t: Theme| theme_name(t) == s;
        lemma_name_round_trip(t);
    }
    assert(theme_name(Theme::Light) == "Light"@);
    assert(theme_name(Theme::Midnight) == "Midnight"@);
    assert(theme_name(Theme::Ocean) == "Ocean"@);
    assert(theme_name(Theme::Forest) == "Forest"@);
}

/// The list of themes holds every theme exactly once.
pub proof fn lemma_all_themes_complete(t: Theme)
    ensures
        all_themes().contains(t),
        all_themes().len() == 5,
        forall|i: int, j: int|
            0 <= i < all_themes().len() && 0 <= j < all_themes().len() && i != j
                ==> all_themes()[i] != all_themes()[j],
{
    let s = all_themes();
    match t {
        Theme::Dark => assert(s[0] == t),
        Theme::Light => assert(s[1] == t),
        Theme::Midnight => assert(s[2] == t),
        Theme::Ocean => assert(s[3] == t),
        Theme::Forest => assert(s[4] == t),
    }
}

} // verus!
