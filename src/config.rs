//! The plugin's settings and how loading them is resolved.

use vstd::prelude::*;

verus! {

/// The plugin's settings, kept in a file beside the library.
#[derive(Clone, Debug)]
pub struct Config {
    pub opt1: bool,
    pub opt2: String,
}

impl Config {
    /// Whether these are the default settings.
    pub open spec fn is_default(self) -> bool {
        !self.opt1 && self.opt2@ == Seq::<char>::empty()
    }

    /// Whether `r` is what loading comes to when the file holds `stored`
    /// (`None` when there is no file): settings that are there are taken
    /// unchanged; without a file the defaults are taken and written out.
    pub open spec fn resolves(stored: Option<Config>, r: LoadedConfig) -> bool {
        match stored {
            Some(c) => r.config == c && !r.persist,
            None => r.config.is_default() && r.persist,
        }
    }

    /// Resolves a load of the settings file from what it holds.
    pub fn resolve(stored: Option<Config>) -> (r: LoadedConfig)
        ensures
            Config::resolves(stored, r),
    {
        match stored {
            Some(config) => LoadedConfig { config, persist: false },
            None => LoadedConfig { config: Config::default(), persist: true },
        }
    }
}

impl Default for Config {
    fn default() -> (r: Self)
        ensures
            r.is_default(),
    {
        Config { opt1: false, opt2: String::new() }
    }
}

/// The settings a load comes to, and whether they must be written to the
/// file because there was none.
pub struct LoadedConfig {
    pub config: Config,
    pub persist: bool,
}

} // verus!
