use tui_theme::theme::{all_themes, Color, ColorRole, IconRole, Theme, THEME_COUNT};

fn color_roles() -> Vec<ColorRole> {
    vec![
        ColorRole::Directory,
        ColorRole::Command,
        ColorRole::Tab,
        ColorRole::Success,
        ColorRole::Fail,
        ColorRole::Focused,
        ColorRole::Unfocused,
        ColorRole::Background,
        ColorRole::Border,
        ColorRole::Text,
    ]
}

fn icon_roles() -> Vec<IconRole> {
    vec![
        IconRole::Directory,
        IconRole::Command,
        IconRole::Tab,
        IconRole::MultiSelect,
    ]
}

#[test]
fn ordering_is_fixed() {
    let themes = all_themes();
    assert_eq!(themes.len(), THEME_COUNT);
    assert_eq!(themes[0], Theme::Default);
    assert_eq!(themes[1], Theme::Compatible);
    assert_eq!(themes[2], Theme::CatppuccinMocha);
    assert_eq!(themes[3], Theme::Nord);
    assert_eq!(themes[4], Theme::Gruvbox);
    assert_eq!(themes[5], Theme::Solarized);
    for (i, t) in themes.iter().enumerate() {
        assert_eq!(t.index(), i);
        assert_eq!(Theme::from_index(i), *t);
    }
}

#[test]
fn default_is_first_theme() {
    assert_eq!(Theme::default(), Theme::Default);
}

#[test]
fn next_and_prev_wrap_around() {
    let mut t = Theme::Solarized;
    t.next();
    assert_eq!(t, Theme::Default);
    let mut u = Theme::Default;
    u.prev();
    assert_eq!(u, Theme::Solarized);
    let mut v = Theme::Nord;
    v.next();
    assert_eq!(v, Theme::Gruvbox);
    v.prev();
    assert_eq!(v, Theme::Nord);
}

#[test]
fn next_prev_inverse_for_every_theme() {
    for t in all_themes() {
        let mut a = t;
        a.next();
        a.prev();
        assert_eq!(a, t);
        let mut b = t;
        b.prev();
        b.next();
        assert_eq!(b, t);
    }
}

#[test]
fn full_cycle_returns_to_start() {
    for t in all_themes() {
        let mut a = t;
        for _ in 0..THEME_COUNT {
            a.next();
        }
        assert_eq!(a, t);
        let mut b = t;
        for _ in 0..THEME_COUNT {
            b.prev();
        }
        assert_eq!(b, t);
    }
}

#[test]
fn lookups_are_total() {
    for t in all_themes() {
        for role in color_roles() {
            let _ = t.color_for(role);
        }
        for role in icon_roles() {
            let _ = t.icon_for(role);
        }
    }
}

#[test]
fn named_lookups_agree_with_color_for() {
    for t in all_themes() {
        assert_eq!(t.color_for(ColorRole::Directory), t.dir_color());
        assert_eq!(t.color_for(ColorRole::Command), t.cmd_color());
        assert_eq!(t.color_for(ColorRole::Tab), t.tab_color());
        assert_eq!(t.color_for(ColorRole::Success), t.success_color());
        assert_eq!(t.color_for(ColorRole::Fail), t.fail_color());
        assert_eq!(t.color_for(ColorRole::Focused), t.focused_color());
        assert_eq!(t.color_for(ColorRole::Unfocused), t.unfocused_color());
        assert_eq!(t.color_for(ColorRole::Background), t.background_color());
        assert_eq!(t.color_for(ColorRole::Border), t.border_color());
        assert_eq!(t.color_for(ColorRole::Text), t.text_color());
        assert_eq!(t.icon_for(IconRole::Directory), t.dir_icon());
        assert_eq!(t.icon_for(IconRole::Command), t.cmd_icon());
        assert_eq!(t.icon_for(IconRole::Tab), t.tab_icon());
        assert_eq!(t.icon_for(IconRole::MultiSelect), t.multi_select_icon());
    }
}

#[test]
fn dir_color_values() {
    assert_eq!(Theme::Default.dir_color(), Color::Blue);
    assert_eq!(Theme::Compatible.dir_color(), Color::Blue);
    assert_eq!(Theme::CatppuccinMocha.dir_color(), Color::Rgb(137, 180, 250));
    assert_eq!(Theme::Nord.dir_color(), Color::Rgb(143, 188, 187));
    assert_eq!(Theme::Gruvbox.dir_color(), Color::Rgb(184, 187, 38));
    assert_eq!(Theme::Solarized.dir_color(), Color::Rgb(38, 139, 210));
}

#[test]
fn default_theme_palette() {
    assert_eq!(Theme::Default.cmd_color(), Color::Rgb(204, 224, 208));
    assert_eq!(Theme::Default.tab_color(), Color::Rgb(255, 255, 85));
    assert_eq!(Theme::Default.success_color(), Color::Rgb(199, 55, 44));
    assert_eq!(Theme::Default.fail_color(), Color::Rgb(5, 255, 55));
    assert_eq!(Theme::Default.focused_color(), Color::LightBlue);
    assert_eq!(Theme::Default.unfocused_color(), Color::Gray);
    assert_eq!(Theme::Default.background_color(), Color::Reset);
    assert_eq!(Theme::Default.border_color(), Color::Reset);
    assert_eq!(Theme::Default.text_color(), Color::Reset);
}

#[test]
fn compatible_theme_palette() {
    assert_eq!(Theme::Compatible.cmd_color(), Color::LightGreen);
    assert_eq!(Theme::Compatible.tab_color(), Color::Yellow);
    assert_eq!(Theme::Compatible.success_color(), Color::Green);
    assert_eq!(Theme::Compatible.fail_color(), Color::Red);
    assert_eq!(Theme::Compatible.focused_color(), Color::LightBlue);
    assert_eq!(Theme::Compatible.unfocused_color(), Color::Gray);
    assert_eq!(Theme::Compatible.background_color(), Color::Reset);
}

#[test]
fn nord_theme_palette() {
    assert_eq!(Theme::Nord.cmd_color(), Color::Rgb(163, 190, 140));
    assert_eq!(Theme::Nord.tab_color(), Color::Rgb(235, 203, 139));
    assert_eq!(Theme::Nord.success_color(), Color::Rgb(163, 190, 140));
    assert_eq!(Theme::Nord.fail_color(), Color::Rgb(191, 97, 106));
    assert_eq!(Theme::Nord.focused_color(), Color::Rgb(136, 192, 208));
    assert_eq!(Theme::Nord.unfocused_color(), Color::Rgb(76, 86, 106));
    assert_eq!(Theme::Nord.background_color(), Color::Rgb(46, 52, 64));
    assert_eq!(Theme::Nord.border_color(), Color::Rgb(76, 86, 106));
    assert_eq!(Theme::Nord.text_color(), Color::Rgb(216, 222, 233));
}

#[test]
fn solarized_and_gruvbox_palette() {
    assert_eq!(Theme::Solarized.background_color(), Color::Rgb(0, 43, 54));
    assert_eq!(Theme::Solarized.border_color(), Color::Rgb(7, 54, 66));
    assert_eq!(Theme::Solarized.focused_color(), Color::Rgb(42, 161, 152));
    assert_eq!(Theme::Gruvbox.background_color(), Color::Rgb(40, 40, 40));
    assert_eq!(Theme::Gruvbox.success_color(), Color::Rgb(152, 151, 26));
    assert_eq!(Theme::Gruvbox.fail_color(), Color::Rgb(204, 36, 29));
    assert_eq!(Theme::CatppuccinMocha.text_color(), Color::Rgb(205, 214, 244));
    assert_eq!(Theme::CatppuccinMocha.background_color(), Color::Rgb(30, 30, 46));
}

#[test]
fn compatible_icon_glyphs() {
    assert_eq!(Theme::Compatible.dir_icon(), "[DIR]");
    assert_eq!(Theme::Compatible.cmd_icon(), "[CMD]");
    assert_eq!(Theme::Compatible.tab_icon(), ">> ");
    assert_eq!(Theme::Compatible.multi_select_icon(), "*");
}

#[test]
fn only_compatible_has_icons() {
    for t in all_themes() {
        for role in icon_roles() {
            let icon = t.icon_for(role);
            if t == Theme::Compatible {
                assert!(!icon.is_empty());
            } else {
                assert!(icon.is_empty());
            }
        }
    }
}

#[test]
fn display_names() {
    assert_eq!(Theme::Default.display_name(), "Default");
    assert_eq!(Theme::Compatible.display_name(), "Compatible");
    assert_eq!(Theme::CatppuccinMocha.display_name(), "CatppuccinMocha");
    assert_eq!(Theme::Nord.display_name(), "Nord");
    assert_eq!(Theme::Gruvbox.display_name(), "Gruvbox");
    assert_eq!(Theme::Solarized.display_name(), "Solarized");
}
