//! The user-facing configuration and the standard locations derived for
//! it. Reading and writing the file, and asking the platform for its
//! directories, happen with the host; the crate holds the resolved
//! values.

use vstd::prelude::*;

verus! {

use vstd::string::StringExecFns;

/// The palette a theme may pick from.
#[derive(Debug, Clone, Copy, PartialEq, Eq, Structural)]
pub enum AppColor {
    Black,
    Red,
    Green,
    Yellow,
    Blue,
    Magenta,
    Cyan,
    White,
}

/// The color after `c` when cycling through the palette.
pub open spec fn next_color(c: AppColor) -> AppColor {
    match c {
        AppColor::Black => AppColor::Red,
        AppColor::Red => AppColor::Green,
        AppColor::Green => AppColor::Yellow,
        AppColor::Yellow => AppColor::Blue,
        AppColor::Blue => AppColor::Magenta,
        AppColor::Magenta => AppColor::Cyan,
        AppColor::Cyan => AppColor::White,
        AppColor::White => AppColor::Black,
    }
}

impl AppColor {
    /// The next color of the cycle, as the settings key steps through it.
    pub fn next(self) -> (r: AppColor)
        ensures
            r == next_color(self),
    {
        match self {
            AppColor::Black => AppColor::Red,
            AppColor::Red => AppColor::Green,
            AppColor::Green => AppColor::Yellow,
            AppColor::Yellow => AppColor::Blue,
            AppColor::Blue => AppColor::Magenta,
            AppColor::Magenta => AppColor::Cyan,
            AppColor::Cyan => AppColor::White,
            AppColor::White => AppColor::Black,
        }
    }
}

/// The settings the configuration file carries.
#[derive(Debug, Clone, Copy, PartialEq, Eq, Structural)]
pub struct Config {
    pub background_color: AppColor,
    pub theme_color: AppColor,
    pub refresh_rate_ms: u64,
}

impl Default for Config {
    /// The configuration used when no file exists or it cannot be read.
    fn default() -> (r: Config)
        ensures
            r == (Config {
                background_color: AppColor::Black,
                theme_color: AppColor::White,
                refresh_rate_ms: 8,
            }),
    {
        Config { background_color: AppColor::Black, theme_color: AppColor::White, refresh_rate_ms: 8 }
    }
}

/// Abstract value of an [`AtlasPaths`].
pub struct AtlasPathsView {
    pub config_path: Seq<char>,
    pub data_dir: Seq<char>,
    pub cache_dir: Seq<char>,
}

/// The application's resolved standard locations: the configuration
/// file, the data directory and the cache directory, as the host
/// resolved them from the platform at startup.
#[derive(Debug, Clone, PartialEq)]
pub struct AtlasPaths {
    pub config_path: String,
    pub data_dir: String,
    pub cache_dir: String,
}

impl View for AtlasPaths {
    type V = AtlasPathsView;

    open spec fn view(&self) -> AtlasPathsView {
        AtlasPathsView {
            config_path: self.config_path@,
            data_dir: self.data_dir@,
            cache_dir: self.cache_dir@,
        }
    }
}

impl AtlasPaths {
    /// Resolved locations as the host found them; when the platform gave
    /// none, the host passes the relative fallbacks.
    pub fn new(config_path: String, data_dir: String, cache_dir: String) -> (r: AtlasPaths)
        ensures
            r@ == (AtlasPathsView {
                config_path: config_path@,
                data_dir: data_dir@,
                cache_dir: cache_dir@,
            }),
    {
        AtlasPaths { config_path, data_dir, cache_dir }
    }

    pub fn config(&self) -> (r: &String)
        ensures
            r@ == self@.config_path,
    {
        &self.config_path
    }

    pub fn data(&self) -> (r: &String)
        ensures
            r@ == self@.data_dir,
    {
        &self.data_dir
    }

    pub fn cache(&self) -> (r: &String)
        ensures
            r@ == self@.cache_dir,
    {
        &self.cache_dir
    }

    /// The configuration path to use: the override file beside the
    /// executable when the host found one there, else the standard
    /// location.
    pub fn resolve_config_path(exe_dir: &str, override_exists: bool, standard: String) -> (r:
        String)
        ensures
            override_exists ==> r@ == exe_dir@ + "/atlas_cfg_override.json"@,
            !override_exists ==> r@ == standard@,
    {
        if override_exists {
            let mut r = exe_dir.to_owned();
            r.append("/atlas_cfg_override.json");
            r
        } else {
            standard
        }
    }
}

} // verus!
