pub mod theme;
pub mod theme_selector;
