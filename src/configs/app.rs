//! Locations of the application's files under its base directory.
use vstd::prelude::*;
use crate::text::{join_path, path_join};

verus! {

/// Settings that the application takes from its environment.
pub enum ConfigKey {
    BaseDir,
}

/// The base directory when `HBOX_DIR` is not set.
pub open spec fn default_base_dir() -> Seq<char> {
    "~/.hbox"@
}

/// The application's directories, all under `base_dir`.
pub struct AppConfig {
    pub base_dir: String,
}

impl AppConfig {
    /// Configuration rooted at the value of `HBOX_DIR` when it is set
    /// (`hbox_dir`), else at `~/.hbox`.
    pub fn load(hbox_dir: Option<String>) -> (r: Self)
        ensures
            r.base_dir@ == match hbox_dir {
                Some(d) => d@,
                None => default_base_dir(),
            },
    {
        let base_dir = Self::resolve_env(ConfigKey::BaseDir, hbox_dir);
        AppConfig { base_dir }
    }

    fn resolve_env(key: ConfigKey, value: Option<String>) -> (r: String)
        ensures
            r@ == match value {
                Some(d) => d@,
                None => default_base_dir(),
            },
    {
        match key {
            ConfigKey::BaseDir => match value {
                Some(d) => d,
                None => "~/.hbox".to_owned(),
            },
        }
    }

    /// The settings document.
    pub fn config_file_path(&self) -> (r: String)
        ensures
            r@ == path_join(self.base_dir@, "config.json"@),
    {
        join_path(self.base_dir.as_str(), "config.json")
    }

    /// The sharded base index of package descriptors.
    pub fn index_path(&self) -> (r: String)
        ensures
            r@ == path_join(self.base_dir@, "index"@),
    {
        join_path(self.base_dir.as_str(), "index")
    }

    /// The descriptors that take precedence over the index.
    pub fn overrides_path(&self) -> (r: String)
        ensures
            r@ == path_join(self.base_dir@, "overrides"@),
    {
        join_path(self.base_dir.as_str(), "overrides")
    }

    /// The per-package version states.
    pub fn versions_path(&self) -> (r: String)
        ensures
            r@ == path_join(self.base_dir@, "versions"@),
    {
        join_path(self.base_dir.as_str(), "versions")
    }

    /// The directory of generated shims.
    pub fn shims_path(&self) -> (r: String)
        ensures
            r@ == path_join(self.base_dir@, "shims"@),
    {
        join_path(self.base_dir.as_str(), "shims")
    }

    /// The log directory.
    pub fn logs_path(&self) -> (r: String)
        ensures
            r@ == path_join(self.base_dir@, "logs"@),
    {
        join_path(self.base_dir.as_str(), "logs")
    }
}

} // verus!
