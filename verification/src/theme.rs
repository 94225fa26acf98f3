use vstd::prelude::*;

verus! {

/// A terminal color: a small set of named colors, the terminal's own
/// default (`Reset`), or an exact RGB triple.
#[derive(Clone, Copy, Debug, PartialEq, Eq, Structural)]
pub enum Color {
    Reset,
    Black,
    Blue,
    LightBlue,
    Green,
    LightGreen,
    Red,
    Yellow,
    Gray,
    Rgb(u8, u8, u8),
}

/// The closed, ordered set of themes. The declaration order is the
/// cyclic navigation order and must stay stable across builds.
#[derive(Clone, Copy, Debug, PartialEq, Eq, Structural)]
pub enum Theme {
    Default,
    Compatible,
    CatppuccinMocha,
    Nord,
    Gruvbox,
    Solarized,
}

/// How many themes the ordering holds.
pub const THEME_COUNT: usize = 6;

/// The semantic color roles; every theme assigns each one a color.
#[derive(Clone, Copy, Debug, PartialEq, Eq, Structural)]
pub enum ColorRole {
    Directory,
    Command,
    Tab,
    Success,
    Fail,
    Focused,
    Unfocused,
    Background,
    Border,
    Text,
}

/// The icon roles; every theme assigns each one an icon string.
#[derive(Clone, Copy, Debug, PartialEq, Eq, Structural)]
pub enum IconRole {
    Directory,
    Command,
    Tab,
    MultiSelect,
}

/// Position of a theme in the fixed ordering.
pub open spec fn theme_index(t: Theme) -> int {
    match t {
        Theme::Default => 0,
        Theme::Compatible => 1,
        Theme::CatppuccinMocha => 2,
        Theme::Nord => 3,
        Theme::Gruvbox => 4,
        Theme::Solarized => 5,
    }
}

/// The theme standing at a position of the fixed ordering.
pub open spec fn theme_at(i: int) -> Theme {
    if i == 0 {
        Theme::Default
    } else if i == 1 {
        Theme::Compatible
    } else if i == 2 {
        Theme::CatppuccinMocha
    } else if i == 3 {
        Theme::Nord
    } else if i == 4 {
        Theme::Gruvbox
    } else {
        Theme::Solarized
    }
}

/// `theme_at` and `theme_index` are inverse over the ordering.
pub proof fn lemma_theme_at_index(t: Theme)
    ensures
        theme_at(theme_index(t)) == t,
{
}

/// Successor in the cyclic ordering.
pub open spec fn theme_next(t: Theme) -> Theme {
    theme_at((theme_index(t) + 1) % (THEME_COUNT as int))
}

/// Predecessor in the cyclic ordering.
pub open spec fn theme_prev(t: Theme) -> Theme {
    theme_at((theme_index(t) + (THEME_COUNT as int) - 1) % (THEME_COUNT as int))
}

/// The color a theme assigns to a role. Total by construction: every
/// variant of `Theme` defines every role.
pub open spec fn color_spec(t: Theme, role: ColorRole) -> Color {
    match role {
        ColorRole::Directory => match t {
            Theme::Default => Color::Blue,
            Theme::Compatible => Color::Blue,
            Theme::CatppuccinMocha => Color::Rgb(137, 180, 250),
            Theme::Nord => Color::Rgb(143, 188, 187),
            Theme::Gruvbox => Color::Rgb(184, 187, 38),
            Theme::Solarized => Color::Rgb(38, 139, 210),
        },
        ColorRole::Command => match t {
            Theme::Default => Color::Rgb(204, 224, 208),
            Theme::Compatible => Color::LightGreen,
            Theme::CatppuccinMocha => Color::Rgb(166, 227, 161),
            Theme::Nord => Color::Rgb(163, 190, 140),
            Theme::Gruvbox => Color::Rgb(215, 153, 33),
            Theme::Solarized => Color::Rgb(133, 153, 0),
        },
        ColorRole::Tab => match t {
            Theme::Default => Color::Rgb(255, 255, 85),
            Theme::Compatible => Color::Yellow,
            Theme::CatppuccinMocha => Color::Rgb(249, 226, 175),
            Theme::Nord => Color::Rgb(235, 203, 139),
            Theme::Gruvbox => Color::Rgb(250, 189, 47),
            Theme::Solarized => Color::Rgb(181, 137, 0),
        },
        ColorRole::Success => match t {
            Theme::Default => Color::Rgb(199, 55, 44),
            Theme::Compatible => Color::Green,
            Theme::CatppuccinMocha => Color::Rgb(166, 227, 161),
            Theme::Nord => Color::Rgb(163, 190, 140),
            Theme::Gruvbox => Color::Rgb(152, 151, 26),
            Theme::Solarized => Color::Rgb(133, 153, 0),
        },
        ColorRole::Fail => match t {
            Theme::Default => Color::Rgb(5, 255, 55),
            Theme::Compatible => Color::Red,
            Theme::CatppuccinMocha => Color::Rgb(243, 139, 168),
            Theme::Nord => Color::Rgb(191, 97, 106),
            Theme::Gruvbox => Color::Rgb(204, 36, 29),
            Theme::Solarized => Color::Rgb(220, 50, 47),
        },
        ColorRole::Focused => match t {
            Theme::Default => Color::LightBlue,
            Theme::Compatible => Color::LightBlue,
            Theme::CatppuccinMocha => Color::Rgb(137, 220, 235),
            Theme::Nord => Color::Rgb(136, 192, 208),
            Theme::Gruvbox => Color::Rgb(69, 133, 136),
            Theme::Solarized => Color::Rgb(42, 161, 152),
        },
        ColorRole::Unfocused => match t {
            Theme::Default => Color::Gray,
            Theme::Compatible => Color::Gray,
            Theme::CatppuccinMocha => Color::Rgb(108, 112, 134),
            Theme::Nord => Color::Rgb(76, 86, 106),
            Theme::Gruvbox => Color::Rgb(146, 131, 116),
            Theme::Solarized => Color::Rgb(88, 110, 117),
        },
        ColorRole::Background => match t {
            Theme::Default => Color::Reset,
            Theme::Compatible => Color::Reset,
            Theme::CatppuccinMocha => Color::Rgb(30, 30, 46),
            Theme::Nord => Color::Rgb(46, 52, 64),
            Theme::Gruvbox => Color::Rgb(40, 40, 40),
            Theme::Solarized => Color::Rgb(0, 43, 54),
        },
        ColorRole::Border => match t {
            Theme::Default => Color::Reset,
            Theme::Compatible => Color::Reset,
            Theme::CatppuccinMocha => Color::Rgb(88, 91, 112),
            Theme::Nord => Color::Rgb(76, 86, 106),
            Theme::Gruvbox => Color::Rgb(124, 111, 100),
            Theme::Solarized => Color::Rgb(7, 54, 66),
        },
        ColorRole::Text => match t {
            Theme::Default => Color::Reset,
            Theme::Compatible => Color::Reset,
            Theme::CatppuccinMocha => Color::Rgb(205, 214, 244),
            Theme::Nord => Color::Rgb(216, 222, 233),
            Theme::Gruvbox => Color::Rgb(235, 219, 178),
            Theme::Solarized => Color::Rgb(131, 148, 150),
        },
    }
}

/// The icon a theme assigns to a role: `Compatible` supplies textual
/// glyphs, every other theme the empty string ("rely on color alone").
pub open spec fn icon_spec(t: Theme, role: IconRole) -> Seq<char> {
    if t == Theme::Compatible {
        match role {
            IconRole::Directory => "[DIR]"@,
            IconRole::Command => "[CMD]"@,
            IconRole::Tab => ">> "@,
            IconRole::MultiSelect => "*"@,
        }
    } else {
        ""@
    }
}

/// The display name of a theme, as the selector list shows it.
pub open spec fn name_spec(t: Theme) -> Seq<char> {
    match t {
        Theme::Default => "Default"@,
        Theme::Compatible => "Compatible"@,
        Theme::CatppuccinMocha => "CatppuccinMocha"@,
        Theme::Nord => "Nord"@,
        Theme::Gruvbox => "Gruvbox"@,
        Theme::Solarized => "Solarized"@,
    }
}

impl Theme {
    /// Position of this theme in the fixed ordering.
    pub fn index(&self) -> (i: usize)
        ensures
            i == theme_index(*self),
            i < THEME_COUNT,
    {
        match self {
            Theme::Default => 0,
            Theme::Compatible => 1,
            Theme::CatppuccinMocha => 2,
            Theme::Nord => 3,
            Theme::Gruvbox => 4,
            Theme::Solarized => 5,
        }
    }

    /// The theme at a position of the fixed ordering.
    pub fn from_index(i: usize) -> (t: Theme)
        requires
            i < THEME_COUNT,
        ensures
            t == theme_at(i as int),
    {
        if i == 0 {
            Theme::Default
        } else if i == 1 {
            Theme::Compatible
        } else if i == 2 {
            Theme::CatppuccinMocha
        } else if i == 3 {
            Theme::Nord
        } else if i == 4 {
            Theme::Gruvbox
        } else {
            Theme::Solarized
        }
    }

    /// The color this theme assigns to a role; defined for every pair.
    pub fn color_for(&self, role: ColorRole) -> (c: Color)
        ensures
            c == color_spec(*self, role),
    {
        match role {
            ColorRole::Directory => self.dir_color(),
            ColorRole::Command => self.cmd_color(),
            ColorRole::Tab => self.tab_color(),
            ColorRole::Success => self.success_color(),
            ColorRole::Fail => self.fail_color(),
            ColorRole::Focused => self.focused_color(),
            ColorRole::Unfocused => self.unfocused_color(),
            ColorRole::Background => self.background_color(),
            ColorRole::Border => self.border_color(),
            ColorRole::Text => self.text_color(),
        }
    }

    /// The icon this theme assigns to a role; defined for every pair.
    pub fn icon_for(&self, role: IconRole) -> (r: &'static str)
        ensures
            r@ == icon_spec(*self, role),
    {
        match role {
            IconRole::Directory => self.dir_icon(),
            IconRole::Command => self.cmd_icon(),
            IconRole::Tab => self.tab_icon(),
            IconRole::MultiSelect => self.multi_select_icon(),
        }
    }

    pub fn dir_color(&self) -> (c: Color)
        ensures
            c == color_spec(*self, ColorRole::Directory),
    {
        match self {
            Theme::Default => Color::Blue,
            Theme::Compatible => Color::Blue,
            Theme::CatppuccinMocha => Color::Rgb(137, 180, 250),
            Theme::Nord => Color::Rgb(143, 188, 187),
            Theme::Gruvbox => Color::Rgb(184, 187, 38),
            Theme::Solarized => Color::Rgb(38, 139, 210),
        }
    }

    pub fn cmd_color(&self) -> (c: Color)
        ensures
            c == color_spec(*self, ColorRole::Command),
    {
        match self {
            Theme::Default => Color::Rgb(204, 224, 208),
            Theme::Compatible => Color::LightGreen,
            Theme::CatppuccinMocha => Color::Rgb(166, 227, 161),
            Theme::Nord => Color::Rgb(163, 190, 140),
            Theme::Gruvbox => Color::Rgb(215, 153, 33),
            Theme::Solarized => Color::Rgb(133, 153, 0),
        }
    }

    pub fn tab_color(&self) -> (c: Color)
        ensures
            c == color_spec(*self, ColorRole::Tab),
    {
        match self {
            Theme::Default => Color::Rgb(255, 255, 85),
            Theme::Compatible => Color::Yellow,
            Theme::CatppuccinMocha => Color::Rgb(249, 226, 175),
            Theme::Nord => Color::Rgb(235, 203, 139),
            Theme::Gruvbox => Color::Rgb(250, 189, 47),
            Theme::Solarized => Color::Rgb(181, 137, 0),
        }
    }

    pub fn success_color(&self) -> (c: Color)
        ensures
            c == color_spec(*self, ColorRole::Success),
    {
        match self {
            Theme::Default => Color::Rgb(199, 55, 44),
            Theme::Compatible => Color::Green,
            Theme::CatppuccinMocha => Color::Rgb(166, 227, 161),
            Theme::Nord => Color::Rgb(163, 190, 140),
            Theme::Gruvbox => Color::Rgb(152, 151, 26),
            Theme::Solarized => Color::Rgb(133, 153, 0),
        }
    }

    pub fn fail_color(&self) -> (c: Color)
        ensures
            c == color_spec(*self, ColorRole::Fail),
    {
        match self {
            Theme::Default => Color::Rgb(5, 255, 55),
            Theme::Compatible => Color::Red,
            Theme::CatppuccinMocha => Color::Rgb(243, 139, 168),
            Theme::Nord => Color::Rgb(191, 97, 106),
            Theme::Gruvbox => Color::Rgb(204, 36, 29),
            Theme::Solarized => Color::Rgb(220, 50, 47),
        }
    }

    pub fn focused_color(&self) -> (c: Color)
        ensures
            c == color_spec(*self, ColorRole::Focused),
    {
        match self {
            Theme::Default | Theme::Compatible => Color::LightBlue,
            Theme::CatppuccinMocha => Color::Rgb(137, 220, 235),
            Theme::Nord => Color::Rgb(136, 192, 208),
            Theme::Gruvbox => Color::Rgb(69, 133, 136),
            Theme::Solarized => Color::Rgb(42, 161, 152),
        }
    }

    pub fn unfocused_color(&self) -> (c: Color)
        ensures
            c == color_spec(*self, ColorRole::Unfocused),
    {
        match self {
            Theme::Default | Theme::Compatible => Color::Gray,
            Theme::CatppuccinMocha => Color::Rgb(108, 112, 134),
            Theme::Nord => Color::Rgb(76, 86, 106),
            Theme::Gruvbox => Color::Rgb(146, 131, 116),
            Theme::Solarized => Color::Rgb(88, 110, 117),
        }
    }

    pub fn background_color(&self) -> (c: Color)
        ensures
            c == color_spec(*self, ColorRole::Background),
    {
        match self {
            Theme::Default | Theme::Compatible => Color::Reset,
            Theme::CatppuccinMocha => Color::Rgb(30, 30, 46),
            Theme::Nord => Color::Rgb(46, 52, 64),
            Theme::Gruvbox => Color::Rgb(40, 40, 40),
            Theme::Solarized => Color::Rgb(0, 43, 54),
        }
    }

    pub fn border_color(&self) -> (c: Color)
        ensures
            c == color_spec(*self, ColorRole::Border),
    {
        match self {
            Theme::Default | Theme::Compatible => Color::Reset,
            Theme::CatppuccinMocha => Color::Rgb(88, 91, 112),
            Theme::Nord => Color::Rgb(76, 86, 106),
            Theme::Gruvbox => Color::Rgb(124, 111, 100),
            Theme::Solarized => Color::Rgb(7, 54, 66),
        }
    }

    pub fn text_color(&self) -> (c: Color)
        ensures
            c == color_spec(*self, ColorRole::Text),
    {
        match self {
            Theme::Default | Theme::Compatible => Color::Reset,
            Theme::CatppuccinMocha => Color::Rgb(205, 214, 244),
            Theme::Nord => Color::Rgb(216, 222, 233),
            Theme::Gruvbox => Color::Rgb(235, 219, 178),
            Theme::Solarized => Color::Rgb(131, 148, 150),
        }
    }

    pub fn dir_icon(&self) -> (r: &'static str)
        ensures
            r@ == icon_spec(*self, IconRole::Directory),
    {
        match self {
            Theme::Compatible => "[DIR]",
            _ => "",
        }
    }

    pub fn cmd_icon(&self) -> (r: &'static str)
        ensures
            r@ == icon_spec(*self, IconRole::Command),
    {
        match self {
            Theme::Compatible => "[CMD]",
            _ => "",
        }
    }

    pub fn tab_icon(&self) -> (r: &'static str)
        ensures
            r@ == icon_spec(*self, IconRole::Tab),
    {
        match self {
            Theme::Compatible => ">> ",
            _ => "",
        }
    }

    pub fn multi_select_icon(&self) -> (r: &'static str)
        ensures
            r@ == icon_spec(*self, IconRole::MultiSelect),
    {
        match self {
            Theme::Compatible => "*",
            _ => "",
        }
    }

    /// The display name of this theme.
    pub fn display_name(&self) -> (r: &'static str)
        ensures
            r@ == name_spec(*self),
    {
        match self {
            Theme::Default => "Default",
            Theme::Compatible => "Compatible",
            Theme::CatppuccinMocha => "CatppuccinMocha",
            Theme::Nord => "Nord",
            Theme::Gruvbox => "Gruvbox",
            Theme::Solarized => "Solarized",
        }
    }

    /// Step to the successor theme, wrapping at the end of the ordering.
    pub fn next(&mut self)
        ensures
            *final(self) == theme_next(*old(self)),
    {
        let i = self.index();
        *self = Theme::from_index((i + 1) % THEME_COUNT);
    }

    /// Step to the predecessor theme, wrapping at the start.
    pub fn prev(&mut self)
        ensures
            *final(self) == theme_prev(*old(self)),
    {
        let i = self.index();
        *self = Theme::from_index((i + THEME_COUNT - 1) % THEME_COUNT);
    }
}

impl Default for Theme {
    /// The theme active when none was chosen.
    fn default() -> (t: Theme)
        ensures
            t == Theme::Default,
    {
        Theme::Default
    }
}

/// Every theme, in the fixed ordering.
pub fn all_themes() -> (r: Vec<Theme>)
    ensures
        r@.len() == THEME_COUNT,
        forall|i: int| 0 <= i < THEME_COUNT ==> r@[i] == theme_at(i),
{
    let mut r: Vec<Theme> = Vec::new();
    r.push(Theme::Default);
    r.push(Theme::Compatible);
    r.push(Theme::CatppuccinMocha);
    r.push(Theme::Nord);
    r.push(Theme::Gruvbox);
    r.push(Theme::Solarized);
    r
}

/// Cyclic inverse law: one step forward undoes one step back, and the
/// other way round.
pub proof fn lemma_next_prev_inverse(t: Theme)
    ensures
        theme_next(theme_prev(t)) == t,
        theme_prev(theme_next(t)) == t,
{
}

/// Stepping forward `n` times from a theme.
pub open spec fn theme_next_n(t: Theme, n: nat) -> Theme
    decreases n,
{
    if n == 0 {
        t
    } else {
        theme_next(theme_next_n(t, (n - 1) as nat))
    }
}

/// Stepping back `n` times from a theme.
pub open spec fn theme_prev_n(t: Theme, n: nat) -> Theme
    decreases n,
{
    if n == 0 {
        t
    } else {
        theme_prev(theme_prev_n(t, (n - 1) as nat))
    }
}

/// A full cycle forward returns to the starting theme.
pub proof fn lemma_next_full_cycle(t: Theme)
    ensures
        theme_next_n(t, THEME_COUNT as nat) == t,
{
    reveal_with_fuel(theme_next_n, 7);
}

/// A full cycle back returns to the starting theme.
pub proof fn lemma_prev_full_cycle(t: Theme)
    ensures
        theme_prev_n(t, THEME_COUNT as nat) == t,
{
    reveal_with_fuel(theme_prev_n, 7);
}

/// Icon policy: `Compatible` assigns every icon role a non-empty glyph;
/// every other theme assigns every icon role the empty string.
pub proof fn lemma_icon_policy(t: Theme, role: IconRole)
    ensures
        icon_spec(Theme::Compatible, role).len() > 0,
        t != Theme::Compatible ==> icon_spec(t, role).len() == 0,
{
    reveal_strlit("[DIR]");
    reveal_strlit("[CMD]");
    reveal_strlit(">> ");
    reveal_strlit("*");
    reveal_strlit("");
}

} // verus!
