//! Installed-version state of one package.
use vstd::prelude::*;
use crate::configs::index::{json_file, json_file_name};
use crate::text::{contains_str, join_path, path_join, strs};

verus! {

/// The mathematical view of a version state: the installed versions in
/// insertion order and the active one.
pub struct VersionState {
    pub versions: Seq<Seq<char>>,
    pub current: Seq<char>,
}

impl VersionState {
    /// Some version is installed, the active version is one of them, and no
    /// version is recorded twice. A package without versions has no state.
    pub open spec fn wf(self) -> bool {
        &&& self.versions.len() > 0
        &&& self.versions.contains(self.current)
        &&& self.versions.no_duplicates()
    }
}

/// Where version states are kept: one file per package.
pub struct VersionConfig {}

impl VersionConfig {
    /// The file holding the version state of `name` under `versions_path`.
    pub fn version_file(versions_path: &str, name: &str) -> (r: String)
        ensures
            r@ == path_join(versions_path@, json_file_name(name@)),
    {
        let file = json_file(name);
        join_path(versions_path, file.as_str())
    }
}

/// Persisted version state: `{versions, current}`.
#[derive(Debug, Clone)]
pub struct Package {
    pub versions: Vec<String>,
    pub current: String,
}

impl View for Package {
    type V = VersionState;

    open spec fn view(&self) -> VersionState {
        VersionState { versions: strs(self.versions@), current: self.current@ }
    }
}

impl Package {
    /// State holding a single version, which is also the active one.
    pub fn new(version: &str) -> (r: Self)
        ensures
            r@.versions == seq![version@],
            r@.current == version@,
            r@.wf(),
    {
        let mut versions: Vec<String> = Vec::new();
        versions.push(version.to_owned());
        let r = Package { versions, current: version.to_owned() };
        assert(r@.versions =~= seq![version@]);
        assert(r@.versions[0] == r@.current);
        r
    }

    /// Whether `version` is installed.
    pub fn has_version(&self, version: &str) -> (r: bool)
        ensures
            r == self@.versions.contains(version@),
    {
        contains_str(&self.versions, version)
    }
}

} // verus!
