use vstd::prelude::*;

use crate::theme::{name_spec, theme_at, theme_index, Color, ColorRole, Theme, THEME_COUNT};

verus! {

/// A key press, reduced to what the selector distinguishes.
#[derive(Clone, Copy, Debug, PartialEq, Eq, Structural)]
pub enum Key {
    Up,
    Down,
    Enter,
    Esc,
    Char(char),
    Other,
}

/// One named action with the key labels that trigger it, for the help line.
pub struct Shortcut {
    pub description: &'static str,
    pub keys: Vec<&'static str>,
}

/// A labeled sample span of the preview region, colored by the
/// highlighted theme.
pub struct PreviewSpan {
    pub label: &'static str,
    pub color: Color,
}

/// The theme selector overlay: a cursor over the fixed theme ordering,
/// the theme it highlights, and the theme to fall back to on cancel.
pub struct ThemeSelector {
    pub cursor: usize,
    pub selected_theme: Theme,
    pub initial_theme: Theme,
}

/// While browsing, the cursor stays in range and the highlighted theme
/// is the one the cursor points at.
pub open spec fn selector_wf(s: ThemeSelector) -> bool {
    &&& s.cursor < THEME_COUNT
    &&& s.selected_theme == theme_at(s.cursor as int)
}

/// The selector as construction with a theme leaves it.
pub open spec fn initial_selector(t: Theme) -> ThemeSelector {
    ThemeSelector { cursor: theme_index(t) as usize, selected_theme: t, initial_theme: t }
}

/// Keys that move the cursor forward.
pub open spec fn key_is_next(k: Key) -> bool {
    k == Key::Down || k == Key::Char('j')
}

/// Keys that move the cursor back.
pub open spec fn key_is_previous(k: Key) -> bool {
    k == Key::Up || k == Key::Char('k')
}

/// Keys that end the overlay, by commit or by cancel.
pub open spec fn key_finishes(k: Key) -> bool {
    k == Key::Enter || k == Key::Esc
}

/// The selector after one move-next step.
pub open spec fn sel_next(s: ThemeSelector) -> ThemeSelector {
    let c = ((s.cursor as int) + 1) % (THEME_COUNT as int);
    ThemeSelector { cursor: c as usize, selected_theme: theme_at(c), initial_theme: s.initial_theme }
}

/// The selector after one move-previous step.
pub open spec fn sel_prev(s: ThemeSelector) -> ThemeSelector {
    let c = ((s.cursor as int) + (THEME_COUNT as int) - 1) % (THEME_COUNT as int);
    ThemeSelector { cursor: c as usize, selected_theme: theme_at(c), initial_theme: s.initial_theme }
}

/// The selector after cancel: the highlighted theme is rolled back to
/// the one the overlay opened with.
pub open spec fn sel_cancel(s: ThemeSelector) -> ThemeSelector {
    ThemeSelector { cursor: s.cursor, selected_theme: s.initial_theme, initial_theme: s.initial_theme }
}

/// How one key press transforms the selector. Commit and unrecognized
/// keys leave the state as it stands.
pub open spec fn sel_step(s: ThemeSelector, k: Key) -> ThemeSelector {
    if key_is_next(k) {
        sel_next(s)
    } else if key_is_previous(k) {
        sel_prev(s)
    } else if k == Key::Esc {
        sel_cancel(s)
    } else {
        s
    }
}

impl ThemeSelector {
    /// Open the selector on the currently active theme: the cursor
    /// points at it and it is highlighted.
    pub fn new(current_theme: Theme) -> (s: Self)
        ensures
            s == initial_selector(current_theme),
            selector_wf(s),
    {
        proof {
            crate::theme::lemma_theme_at_index(current_theme);
        }
        ThemeSelector {
            cursor: current_theme.index(),
            selected_theme: current_theme,
            initial_theme: current_theme,
        }
    }

    /// Open the selector on a bare position, as a host that stores the
    /// active theme by index would. A position outside the ordering
    /// falls back to the first theme instead of failing.
    pub fn from_position(position: usize) -> (s: Self)
        ensures
            selector_wf(s),
            position < THEME_COUNT ==> s.cursor == position,
            position >= THEME_COUNT ==> s.cursor == 0,
            s.selected_theme == theme_at(s.cursor as int),
            s.initial_theme == s.selected_theme,
    {
        let cursor: usize = if position < THEME_COUNT {
            position
        } else {
            0
        };
        let t = Theme::from_index(cursor);
        ThemeSelector { cursor, selected_theme: t, initial_theme: t }
    }

    /// Move the cursor to the next theme, wrapping at the end; the
    /// highlighted theme follows the cursor at once.
    pub fn next(&mut self)
        requires
            selector_wf(*old(self)),
        ensures
            *final(self) == sel_next(*old(self)),
            selector_wf(*final(self)),
    {
        let i = (self.cursor + 1) % THEME_COUNT;
        self.cursor = i;
        self.selected_theme = Theme::from_index(i);
    }

    /// Move the cursor to the previous theme, wrapping at the start.
    pub fn previous(&mut self)
        requires
            selector_wf(*old(self)),
        ensures
            *final(self) == sel_prev(*old(self)),
            selector_wf(*final(self)),
    {
        let i = (self.cursor + THEME_COUNT - 1) % THEME_COUNT;
        self.cursor = i;
        self.selected_theme = Theme::from_index(i);
    }

    /// Apply one key press: down or 'j' moves next, up or 'k' moves
    /// back, enter commits the highlighted theme, escape cancels and
    /// rolls the highlighted theme back. Any other key changes nothing.
    /// Returns whether the overlay is finished.
    pub fn handle_key_event(&mut self, key: &Key) -> (finished: bool)
        requires
            selector_wf(*old(self)),
        ensures
            *final(self) == sel_step(*old(self), *key),
            finished == key_finishes(*key),
            !key_finishes(*key) ==> selector_wf(*final(self)),
    {
        match key {
            Key::Down | Key::Char('j') => {
                self.next();
                false
            },
            Key::Up | Key::Char('k') => {
                self.previous();
                false
            },
            Key::Enter => true,
            Key::Esc => {
                self.selected_theme = self.initial_theme;
                true
            },
            _ => false,
        }
    }

    /// The selector never ends of its own accord; only a key press does.
    pub fn is_finished(&self) -> (r: bool)
        ensures
            !r,
    {
        false
    }

    /// The labeled sample spans of the preview region, every one colored
    /// by the highlighted theme, never by the initial one.
    pub fn preview_spans(&self) -> (r: Vec<PreviewSpan>)
        ensures
            r@.len() == 6,
            r@[0].label@ == "Directory"@ && r@[0].color == crate::theme::color_spec(
                self.selected_theme,
                ColorRole::Directory,
            ),
            r@[1].label@ == "Command"@ && r@[1].color == crate::theme::color_spec(
                self.selected_theme,
                ColorRole::Command,
            ),
            r@[2].label@ == "Tab"@ && r@[2].color == crate::theme::color_spec(
                self.selected_theme,
                ColorRole::Tab,
            ),
            r@[3].label@ == "Success"@ && r@[3].color == crate::theme::color_spec(
                self.selected_theme,
                ColorRole::Success,
            ),
            r@[4].label@ == "Fail"@ && r@[4].color == crate::theme::color_spec(
                self.selected_theme,
                ColorRole::Fail,
            ),
            r@[5].label@ == "Focused"@ && r@[5].color == crate::theme::color_spec(
                self.selected_theme,
                ColorRole::Focused,
            ),
    {
        let mut r: Vec<PreviewSpan> = Vec::new();
        r.push(PreviewSpan { label: "Directory", color: self.selected_theme.dir_color() });
        r.push(PreviewSpan { label: "Command", color: self.selected_theme.cmd_color() });
        r.push(PreviewSpan { label: "Tab", color: self.selected_theme.tab_color() });
        r.push(PreviewSpan { label: "Success", color: self.selected_theme.success_color() });
        r.push(PreviewSpan { label: "Fail", color: self.selected_theme.fail_color() });
        r.push(PreviewSpan { label: "Focused", color: self.selected_theme.focused_color() });
        r
    }

    /// The rows of the theme list: every theme's display name, with the
    /// cursor row marked as the one to highlight.
    pub fn list_rows(&self) -> (r: Vec<(&'static str, bool)>)
        ensures
            r@.len() == THEME_COUNT,
            forall|i: int|
                0 <= i < THEME_COUNT ==> (#[trigger] r@[i]).0@ == name_spec(theme_at(i)),
            forall|i: int|
                0 <= i < THEME_COUNT ==> (#[trigger] r@[i]).1 == (i == self.cursor as int),
    {
        let mut r: Vec<(&'static str, bool)> = Vec::new();
        let mut i: usize = 0;
        while i < THEME_COUNT
            invariant
                i <= THEME_COUNT,
                r@.len() == i,
                forall|j: int| 0 <= j < i ==> (#[trigger] r@[j]).0@ == name_spec(theme_at(j)),
                forall|j: int| 0 <= j < i ==> (#[trigger] r@[j]).1 == (j == self.cursor as int),
            decreases THEME_COUNT - i,
        {
            let t = Theme::from_index(i);
            r.push((t.display_name(), i == self.cursor));
            i = i + 1;
        }
        r
    }

    /// The descriptive list the host shows as help: the overlay's title
    /// and each action with its key labels.
    pub fn get_shortcut_list(&self) -> (r: (&'static str, Vec<Shortcut>))
        ensures
            r.0@ == "Theme Selector"@,
            r.1@.len() == 4,
            r.1@[0].description@ == "Next theme"@,
            r.1@[0].keys@.len() == 2 && r.1@[0].keys@[0]@ == "j"@ && r.1@[0].keys@[1]@ == "Down"@,
            r.1@[1].description@ == "Previous theme"@,
            r.1@[1].keys@.len() == 2 && r.1@[1].keys@[0]@ == "k"@ && r.1@[1].keys@[1]@ == "Up"@,
            r.1@[2].description@ == "Select theme"@,
            r.1@[2].keys@.len() == 1 && r.1@[2].keys@[0]@ == "Enter"@,
            r.1@[3].description@ == "Cancel"@,
            r.1@[3].keys@.len() == 1 && r.1@[3].keys@[0]@ == "Esc"@,
    {
        let mut shortcuts: Vec<Shortcut> = Vec::new();
        let mut next_keys: Vec<&'static str> = Vec::new();
        next_keys.push("j");
        next_keys.push("Down");
        shortcuts.push(Shortcut { description: "Next theme", keys: next_keys });
        let mut previous_keys: Vec<&'static str> = Vec::new();
        previous_keys.push("k");
        previous_keys.push("Up");
        shortcuts.push(Shortcut { description: "Previous theme", keys: previous_keys });
        let mut select_keys: Vec<&'static str> = Vec::new();
        select_keys.push("Enter");
        shortcuts.push(Shortcut { description: "Select theme", keys: select_keys });
        let mut cancel_keys: Vec<&'static str> = Vec::new();
        cancel_keys.push("Esc");
        shortcuts.push(Shortcut { description: "Cancel", keys: cancel_keys });
        ("Theme Selector", shortcuts)
    }
}

/// Stepping forward `n` times from a selector state.
pub open spec fn sel_next_n(s: ThemeSelector, n: nat) -> ThemeSelector
    decreases n,
{
    if n == 0 {
        s
    } else {
        sel_next(sel_next_n(s, (n - 1) as nat))
    }
}

/// Navigation never touches the theme the overlay opened with.
pub proof fn lemma_next_n_preserves_initial(s: ThemeSelector, n: nat)
    ensures
        sel_next_n(s, n).initial_theme == s.initial_theme,
    decreases n,
{
    if n > 0 {
        lemma_next_n_preserves_initial(s, (n - 1) as nat);
    }
}

/// Cancel restores the theme the selector was opened with, however many
/// move-next steps came before.
pub proof fn lemma_cancel_restores_initial(t: Theme, k: nat)
    ensures
        sel_step(sel_next_n(initial_selector(t), k), Key::Esc).selected_theme == t,
{
    lemma_next_n_preserves_initial(initial_selector(t), k);
}

/// Net-zero navigation commits the theme highlighted at the start: one
/// step forward, one step back, then commit.
pub proof fn lemma_next_previous_commit(s: ThemeSelector)
    requires
        selector_wf(s),
    ensures
        sel_step(sel_step(sel_step(s, Key::Down), Key::Up), Key::Enter).selected_theme
            == s.selected_theme,
{
}

/// A key outside the four recognized codes changes nothing and does not
/// finish the overlay.
pub proof fn lemma_unrecognized_key_ignored(s: ThemeSelector, k: Key)
    requires
        !key_is_next(k),
        !key_is_previous(k),
        k != Key::Enter,
        k != Key::Esc,
    ensures
        sel_step(s, k) == s,
        !key_finishes(k),
{
}

} // verus!
