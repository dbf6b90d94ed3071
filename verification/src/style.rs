//! Theme modes and the setting that records the current one.

use vstd::prelude::*;

verus! {

/// The application's colour theme.
#[derive(Debug, Clone, Copy, PartialEq, Eq, Structural)]
pub enum ThemeMode {
    Dark,
    Light,
}

impl ThemeMode {
    /// The theme's display label.
    pub fn label(&self) -> (r: &'static str)
        ensures
            r@ == (match *self {
                ThemeMode::Dark => "深色"@,
                ThemeMode::Light => "亮色"@,
            }),
    {
        match self {
            ThemeMode::Dark => "深色",
            ThemeMode::Light => "亮色",
        }
    }
}

/// The theme a stored code stands for: 0 is dark, any other code light.
pub open spec fn theme_of_code(code: u8) -> ThemeMode {
    if code == 0 {
        ThemeMode::Dark
    } else {
        ThemeMode::Light
    }
}

/// The code a theme is stored as: 0 for dark, 1 for light.
pub open spec fn code_of_theme(mode: ThemeMode) -> u8 {
    match mode {
        ThemeMode::Dark => 0,
        ThemeMode::Light => 1,
    }
}

/// Where the current theme is recorded, as its code.
#[derive(Debug)]
pub struct ThemeSetting {
    pub code: u8,
}

impl ThemeSetting {
    /// The setting at start-up: the dark theme.
    pub fn new() -> (r: ThemeSetting)
        ensures
            theme_of_code(r.code) == ThemeMode::Dark,
            r.code == code_of_theme(ThemeMode::Dark),
    {
        ThemeSetting { code: 0 }
    }
}

/// Records the current theme.
pub fn set_current_theme(setting: &mut ThemeSetting, mode: ThemeMode)
    ensures
        final(setting).code == code_of_theme(mode),
{
    setting.code = match mode {
        ThemeMode::Dark => 0,
        ThemeMode::Light => 1,
    };
}

/// The current theme.
pub fn current_theme(setting: &ThemeSetting) -> (r: ThemeMode)
    ensures
        r == theme_of_code(setting.code),
{
    match setting.code {
        0 => ThemeMode::Dark,
        _ => ThemeMode::Light,
    }
}

/// The current theme is the one last recorded.
pub proof fn lemma_theme_read_after_write(mode: ThemeMode)
    ensures
        theme_of_code(code_of_theme(mode)) == mode,
{
}

} // verus!
