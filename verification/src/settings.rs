//! The configuration of the client: plain values, each with a default.

use vstd::prelude::*;
use vstd::string::*;

verus! {

/// The whole configuration.
#[derive(Debug, Clone, PartialEq, Eq)]
pub struct Settings {
    pub theme: ThemeSettings,
    pub ui: UiSettings,
}

/// The colour theme, by name.
#[derive(Debug, Clone, PartialEq, Eq)]
pub struct ThemeSettings {
    pub name: String,
}

/// The sizes and switches of the user interface.
#[derive(Debug, Clone, Copy, PartialEq, Eq, Structural)]
pub struct UiSettings {
    /// Lines of context around each change of a diff.
    pub diff_context_lines: usize,
    /// Lines of a diff that are visible at once.
    pub visible_diff_lines: usize,
    /// How many commits the log shows.
    pub log_commits_count: usize,
    /// Whether a bookmark is tracked as soon as it is checked out.
    pub auto_track_on_checkout: bool,
}

/// What a `Settings` value stands for.
pub struct SettingsView {
    pub theme_name: Seq<char>,
    pub ui: UiSettings,
}

impl View for Settings {
    type V = SettingsView;

    open spec fn view(&self) -> SettingsView {
        SettingsView { theme_name: self.theme.name@, ui: self.ui }
    }
}

/// The name of the theme that is used where none is configured.
pub open spec fn default_theme() -> Seq<char> {
    "catppuccin-mocha"@
}

/// The user-interface settings that are used where none are configured.
pub open spec fn default_ui() -> UiSettings {
    UiSettings {
        diff_context_lines: 3,
        visible_diff_lines: 30,
        log_commits_count: 10,
        auto_track_on_checkout: true,
    }
}

/// The name of the default theme.
pub fn default_theme_name() -> (name: String)
    ensures
        name@ == default_theme(),
{
    String::from_str("catppuccin-mocha")
}

/// The default number of context lines of a diff.
pub fn default_diff_context_lines() -> (n: usize)
    ensures
        n == default_ui().diff_context_lines,
{
    3
}

/// The default number of visible lines of a diff.
pub fn default_visible_diff_lines() -> (n: usize)
    ensures
        n == default_ui().visible_diff_lines,
{
    30
}

/// The default number of commits in the log.
pub fn default_log_commits_count() -> (n: usize)
    ensures
        n == default_ui().log_commits_count,
{
    10
}

/// Whether a checked-out bookmark is tracked by default.
pub fn default_auto_track_on_checkout() -> (on: bool)
    ensures
        on == default_ui().auto_track_on_checkout,
{
    true
}

impl Default for UiSettings {
    fn default() -> (ui: UiSettings)
        ensures
            ui == default_ui(),
    {
        UiSettings {
            diff_context_lines: default_diff_context_lines(),
            visible_diff_lines: default_visible_diff_lines(),
            log_commits_count: default_log_commits_count(),
            auto_track_on_checkout: default_auto_track_on_checkout(),
        }
    }
}

impl Default for ThemeSettings {
    fn default() -> (theme: ThemeSettings)
        ensures
            theme.name@ == default_theme(),
    {
        ThemeSettings { name: default_theme_name() }
    }
}

impl Default for Settings {
    fn default() -> (settings: Settings)
        ensures
            settings@ == (SettingsView { theme_name: default_theme(), ui: default_ui() }),
    {
        Settings { theme: ThemeSettings::default(), ui: UiSettings::default() }
    }
}

} // verus!
