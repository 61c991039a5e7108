//! The tray applet's own settings: which two modes a left click toggles between.
use vstd::prelude::*;
use vstd::string::*;
use crate::mode::AppletMode;
use crate::text::{join_path, join_path_spec};

verus! {

/// The two modes that a left click on the tray icon switches between.
#[derive(Clone, Copy, Debug, PartialEq, Eq, Structural)]
pub struct AppletConfig {
    pub toggle_from: AppletMode,
    pub toggle_to: AppletMode,
}

/// A toggle pair is usable when its two modes differ.
pub open spec fn is_normalized(c: AppletConfig) -> bool {
    c.toggle_from != c.toggle_to
}

/// The settings used when none were saved: Integrated and Hybrid.
pub open spec fn default_config_spec() -> AppletConfig {
    AppletConfig { toggle_from: AppletMode::Integrated, toggle_to: AppletMode::Hybrid }
}

/// `c` with its target replaced when it equals its source.
pub open spec fn normalized_spec(c: AppletConfig) -> AppletConfig {
    if c.toggle_from == c.toggle_to {
        AppletConfig {
            toggle_from: c.toggle_from,
            toggle_to: AppletMode::first_except_spec(c.toggle_from),
        }
    } else {
        c
    }
}

/// `c` after `set_toggle_from(mode)`.
pub open spec fn with_toggle_from_spec(c: AppletConfig, mode: AppletMode) -> AppletConfig {
    AppletConfig {
        toggle_from: mode,
        toggle_to: if c.toggle_to == mode { AppletMode::first_except_spec(mode) } else { c.toggle_to },
    }
}

/// `c` after `set_toggle_to(mode)`.
pub open spec fn with_toggle_to_spec(c: AppletConfig, mode: AppletMode) -> AppletConfig {
    AppletConfig {
        toggle_from: if c.toggle_from == mode { AppletMode::first_except_spec(mode) } else { c.toggle_from },
        toggle_to: mode,
    }
}

/// The mode number that a toggle from `current` asks for.
pub open spec fn next_mode_spec(c: AppletConfig, current: u32) -> u32 {
    if current == c.toggle_from.spec_value() {
        c.toggle_to.spec_value()
    } else {
        c.toggle_from.spec_value()
    }
}

impl Default for AppletConfig {
    fn default() -> (c: Self)
        ensures
            c == default_config_spec(),
    {
        AppletConfig { toggle_from: AppletMode::Integrated, toggle_to: AppletMode::Hybrid }
    }
}

impl AppletConfig {
    /// Sets the source mode; a target equal to it is moved to the first other mode.
    pub fn set_toggle_from(&mut self, mode: AppletMode)
        ensures
            final(self).toggle_from == mode,
            final(self).toggle_to == (if old(self).toggle_to == mode {
                AppletMode::first_except_spec(mode)
            } else {
                old(self).toggle_to
            }),
            is_normalized(*final(self)),
            *final(self) == with_toggle_from_spec(*old(self), mode),
    {
        self.toggle_from = mode;
        if self.toggle_to == mode {
            self.toggle_to = AppletMode::first_except(mode);
        }
    }

    /// Sets the target mode; a source equal to it is moved to the first other mode.
    pub fn set_toggle_to(&mut self, mode: AppletMode)
        ensures
            final(self).toggle_to == mode,
            final(self).toggle_from == (if old(self).toggle_from == mode {
                AppletMode::first_except_spec(mode)
            } else {
                old(self).toggle_from
            }),
            is_normalized(*final(self)),
            *final(self) == with_toggle_to_spec(*old(self), mode),
    {
        self.toggle_to = mode;
        if self.toggle_from == mode {
            self.toggle_from = AppletMode::first_except(mode);
        }
    }

    /// The same pair, with a target equal to the source replaced by the first other mode.
    pub fn normalized(self) -> (c: Self)
        ensures
            c == normalized_spec(self),
            is_normalized(c),
    {
        let mut c = self;
        if c.toggle_from == c.toggle_to {
            c.toggle_to = AppletMode::first_except(c.toggle_from);
        }
        c
    }

    /// The mode number to switch to from the daemon's current mode `current_mode`.
    pub fn next_mode(self, current_mode: u32) -> (m: u32)
        ensures
            m == next_mode_spec(self, current_mode),
    {
        let from = self.toggle_from.value();
        let to = self.toggle_to.value();
        if current_mode == from {
            to
        } else {
            from
        }
    }
}

/// A toggle from the pair's source asks for its target, and from any other mode
/// asks for the source.
pub proof fn lemma_next_mode_direction(c: AppletConfig, current: u32)
    ensures
        current == c.toggle_from.spec_value() ==> next_mode_spec(c, current) == c.toggle_to.spec_value(),
        current != c.toggle_from.spec_value() ==> next_mode_spec(c, current) == c.toggle_from.spec_value(),
{
}

/// Normalizing is idempotent and leaves a usable pair as it is.
pub proof fn lemma_normalized_idempotent(c: AppletConfig)
    ensures
        normalized_spec(normalized_spec(c)) == normalized_spec(c),
        is_normalized(c) ==> normalized_spec(c) == c,
        normalized_spec(c).toggle_from == c.toggle_from,
{
}

/// A toggle always lands on one of the pair, and toggling twice from either mode of
/// the pair comes back to it.
pub proof fn lemma_toggle_round_trip(c: AppletConfig, current: u32)
    ensures
        next_mode_spec(c, current) == c.toggle_from.spec_value()
            || next_mode_spec(c, current) == c.toggle_to.spec_value(),
        next_mode_spec(c, next_mode_spec(c, c.toggle_from.spec_value()))
            == c.toggle_from.spec_value(),
        next_mode_spec(c, next_mode_spec(c, c.toggle_to.spec_value()))
            == c.toggle_to.spec_value(),
        is_normalized(c) ==> next_mode_spec(c, c.toggle_from.spec_value())
            == c.toggle_to.spec_value(),
{
    crate::mode::lemma_value_is_a_numbering(c.toggle_from, c.toggle_to, 0);
}

/// The single toggle setting that older versions of the applet saved.
#[derive(Clone, Copy, Debug, PartialEq, Eq, Structural)]
pub enum LegacyTrayToggleMode {
    IntegratedHybrid,
    SmartHybrid,
}

/// The applet's settings file as read: each key may be missing.
#[derive(Clone, Copy, Debug, PartialEq, Eq, Structural)]
pub struct AppletConfigFile {
    pub toggle_from: Option<AppletMode>,
    pub toggle_to: Option<AppletMode>,
    pub left_click_toggle: Option<LegacyTrayToggleMode>,
}

/// The settings a file stands for. A file with either of the new keys takes the
/// missing one from the defaults and is normalized; a file with neither falls back to
/// the old `left_click_toggle` key, where `SmartHybrid` means Smart and Hybrid and
/// anything else means the defaults.
pub open spec fn into_config_spec(f: AppletConfigFile) -> AppletConfig {
    let default = default_config_spec();
    if f.toggle_from is Some || f.toggle_to is Some {
        normalized_spec(AppletConfig {
            toggle_from: match f.toggle_from {
                Some(m) => m,
                None => default.toggle_from,
            },
            toggle_to: match f.toggle_to {
                Some(m) => m,
                None => default.toggle_to,
            },
        })
    } else {
        match f.left_click_toggle {
            Some(LegacyTrayToggleMode::SmartHybrid) => AppletConfig {
                toggle_from: AppletMode::Smart,
                toggle_to: AppletMode::Hybrid,
            },
            _ => default,
        }
    }
}

impl AppletConfigFile {
    /// The settings this file stands for; they are always usable.
    pub fn into_config(self) -> (c: AppletConfig)
        ensures
            c == into_config_spec(self),
            is_normalized(c),
    {
        let default = AppletConfig::default();
        if self.toggle_from.is_some() || self.toggle_to.is_some() {
            let toggle_from = match self.toggle_from {
                Some(m) => m,
                None => default.toggle_from,
            };
            let toggle_to = match self.toggle_to {
                Some(m) => m,
                None => default.toggle_to,
            };
            return AppletConfig { toggle_from, toggle_to }.normalized();
        }
        match self.left_click_toggle {
            Some(LegacyTrayToggleMode::SmartHybrid) => AppletConfig {
                toggle_from: AppletMode::Smart,
                toggle_to: AppletMode::Hybrid,
            },
            Some(LegacyTrayToggleMode::IntegratedHybrid) | None => default,
        }
    }
}

impl AppletConfig {
    /// The settings to start with, given the settings file if it could be read and
    /// parsed: what the file stands for, or the defaults.
    pub fn from_file(file: Option<AppletConfigFile>) -> (c: AppletConfig)
        ensures
            c == (match file {
                Some(f) => into_config_spec(f),
                None => default_config_spec(),
            }),
            is_normalized(c),
    {
        match file {
            Some(f) => f.into_config(),
            None => AppletConfig::default(),
        }
    }
}

/// The settings file record that saving `c` writes: both keys of the pair, and no
/// old key.
pub open spec fn to_file_spec(c: AppletConfig) -> AppletConfigFile {
    AppletConfigFile {
        toggle_from: Some(c.toggle_from),
        toggle_to: Some(c.toggle_to),
        left_click_toggle: None,
    }
}

impl AppletConfig {
    /// The settings file record for these settings.
    pub fn to_file(self) -> (f: AppletConfigFile)
        ensures
            f == to_file_spec(self),
    {
        AppletConfigFile {
            toggle_from: Some(self.toggle_from),
            toggle_to: Some(self.toggle_to),
            left_click_toggle: None,
        }
    }
}

/// Saving settings and reading the record back gives the normalized pair, so a
/// usable pair comes back unchanged.
pub proof fn lemma_saved_settings_read_back(c: AppletConfig)
    ensures
        into_config_spec(to_file_spec(c)) == normalized_spec(c),
        is_normalized(c) ==> into_config_spec(to_file_spec(c)) == c,
{
}

/// Where the settings file lives: under `$XDG_CONFIG_HOME` when it is set and not
/// empty, else under `$HOME/.config` when `$HOME` is set and not empty.
pub open spec fn applet_config_path_spec(
    xdg_config_home: Option<Seq<char>>,
    home: Option<Seq<char>>,
) -> Option<Seq<char>> {
    match xdg_config_home {
        Some(x) if x.len() > 0 => Some(join_path_spec(x, "cardwire-tray/config.toml"@)),
        _ => match home {
            Some(h) if h.len() > 0 => Some(join_path_spec(h, ".config/cardwire-tray/config.toml"@)),
            _ => None,
        },
    }
}

/// The view of an optional text.
pub open spec fn opt_text(s: Option<String>) -> Option<Seq<char>> {
    match s {
        Some(t) => Some(t@),
        None => None,
    }
}

/// The settings file's path, given the values of `XDG_CONFIG_HOME` and `HOME` (`None`
/// where the variable is unset or not valid Unicode).
pub fn applet_config_path(xdg_config_home: Option<String>, home: Option<String>) -> (p: Option<String>)
    ensures
        opt_text(p) == applet_config_path_spec(opt_text(xdg_config_home), opt_text(home)),
{
    if let Some(x) = &xdg_config_home {
        if !x.as_str().is_empty() {
            return Some(join_path(x.as_str(), "cardwire-tray/config.toml"));
        }
    }
    match &home {
        Some(h) => {
            if h.as_str().is_empty() {
                None
            } else {
                Some(join_path(h.as_str(), ".config/cardwire-tray/config.toml"))
            }
        },
        None => None,
    }
}

/// A file with either new key gives that key's mode (the default where the other
/// key is missing), a target equal to the source being moved to the first other
/// mode; a file with only the old key gives Smart and Hybrid for `smart-hybrid` and
/// the defaults otherwise.
pub proof fn lemma_file_keys_decide_the_pair(f: AppletConfigFile)
    ensures
        f.toggle_from matches Some(m) ==> into_config_spec(f).toggle_from == m,
        f.toggle_from is None && f.toggle_to is Some ==> into_config_spec(f).toggle_from == AppletMode::Integrated,
        f.toggle_to matches Some(m) ==> (into_config_spec(f).toggle_to == m
            || (into_config_spec(f).toggle_from == m && into_config_spec(f).toggle_to
                == AppletMode::first_except_spec(m))),
        f.toggle_to is None && f.toggle_from is Some ==> (into_config_spec(f).toggle_to == AppletMode::Hybrid
            || into_config_spec(f).toggle_from == AppletMode::Hybrid),
        f.toggle_from is None && f.toggle_to is None && f.left_click_toggle == Some(LegacyTrayToggleMode::SmartHybrid)
            ==> into_config_spec(f) == (AppletConfig { toggle_from: AppletMode::Smart, toggle_to: AppletMode::Hybrid }),
        f.toggle_from is None && f.toggle_to is None && f.left_click_toggle != Some(LegacyTrayToggleMode::SmartHybrid)
            ==> into_config_spec(f) == (AppletConfig { toggle_from: AppletMode::Integrated, toggle_to: AppletMode::Hybrid }),
{
}

/// Whatever a settings file holds, the settings drawn from it are usable.
pub proof fn lemma_loaded_config_is_usable(f: AppletConfigFile)
    ensures
        is_normalized(into_config_spec(f)),
        is_normalized(default_config_spec()),
{
}

} // verus!
