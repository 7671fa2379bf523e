//! The configuration snapshot the panel runs from.
//!
//! The snapshot is built once at startup, is never mutated afterwards, and
//! is handed by reference to every provider and to the renderer. Loading
//! and defaulting the on-disk document is the caller's business; the core
//! only consumes the resolved values below.

use vstd::prelude::*;

verus! {

/// Which icon set decorates the rows: emoji, plain text glyphs, or none.
///
/// A configuration that disables icons, or enables them with an
/// unrecognized set name, behaves identically everywhere; both collapse to
/// `Plain`.
#[derive(Clone, Copy, Debug, PartialEq, Eq, Structural)]
pub enum IconKind {
    Emoji,
    Normal,
    Plain,
}

/// The configured package manager(s): absent, a single name, or a list of
/// names whose counts are summed.
#[derive(Clone, Debug)]
pub enum ManagerSelection {
    Unset,
    One(String),
    Many(Vec<String>),
}

/// Weather provider settings. The provider only runs when it is enabled
/// and all four request fields are present.
#[derive(Clone, Debug)]
pub struct WeatherConfig {
    pub enabled: bool,
    pub api_key: Option<String>,
    pub location: Option<String>,
    pub lang: Option<String>,
    pub units: Option<String>,
}

/// Clock row settings; `kind` selects a 12-hour or 24-hour clock.
#[derive(Clone, Debug)]
pub struct TimeConfig {
    pub enabled: bool,
    pub kind: Option<String>,
}

/// Per-row switches for the host-facts providers.
#[derive(Clone, Copy, Debug)]
pub struct SystemConfig {
    pub release_enabled: bool,
    pub kernel_enabled: bool,
    pub mem_usage_enabled: bool,
    pub disk_usage_enabled: bool,
    pub desktop_env_enabled: bool,
}

/// Package counting settings.
#[derive(Clone, Debug)]
pub struct PackagesConfig {
    pub package_managers: ManagerSelection,
    pub package_count_enabled: bool,
    pub update_count_enabled: bool,
}

/// The resolved, immutable configuration for one run.
#[derive(Clone, Debug)]
pub struct Config {
    /// The panel's column width, the base of all border arithmetic.
    pub width: u32,
    /// Overrides the `user@host` header when present.
    pub hostname: Option<String>,
    /// Overrides the user's real name in the greeting when present.
    pub name: Option<String>,
    pub greeting_enabled: bool,
    pub icons: IconKind,
    pub time: TimeConfig,
    pub weather: WeatherConfig,
    pub system: SystemConfig,
    pub packages: PackagesConfig,
    pub song_enabled: bool,
}

impl Config {
    /// The weather provider has everything it needs: it is switched on and
    /// no request field is missing.
    pub open spec fn weather_ready(&self) -> bool {
        &&& self.weather.enabled
        &&& self.weather.api_key is Some
        &&& self.weather.location is Some
        &&& self.weather.lang is Some
        &&& self.weather.units is Some
    }

    /// The executable form of `weather_ready`.
    pub fn is_weather_ready(&self) -> (r: bool)
        ensures
            r == self.weather_ready(),
    {
        self.weather.enabled && self.weather.api_key.is_some() && self.weather.location.is_some()
            && self.weather.lang.is_some() && self.weather.units.is_some()
    }
}

} // verus!
