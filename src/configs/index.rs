//! Package descriptors and their layered resolution.
use std::collections::HashMap;
use vstd::prelude::*;
use crate::text::{join_path, lower_of, path_join, push_str, to_lowercase};

verus! {

/// `name` followed by `.json`.
pub open spec fn json_file_name(name: Seq<char>) -> Seq<char> {
    name + ".json"@
}

/// Builds `name.json`.
pub fn json_file(name: &str) -> (r: String)
    ensures
        r@ == json_file_name(name@),
{
    let mut r = name.to_owned();
    push_str(&mut r, ".json");
    r
}

/// The registry reference of a package that has no descriptor.
pub open spec fn default_image_name(name: Seq<char>) -> Seq<char> {
    "docker.io/"@ + name
}

/// Resolves descriptors: an override by exact name wins, else the base
/// index entry, else a default built from the name.
pub struct IndexConfig {}

impl IndexConfig {
    /// The descriptor to use for `name`, given the override record and the
    /// base-index record that exist for it. Whichever layer is chosen is
    /// taken whole.
    pub fn load(name: &str, override_package: Option<Package>, index_package: Option<Package>) -> (r: Package)
        ensures
            match override_package {
                Some(p) => r == p,
                None => match index_package {
                    Some(p) => r == p,
                    None => r.is_default_for(name@),
                },
            },
    {
        match override_package {
            Some(p) => p,
            None => match index_package {
                Some(p) => p,
                None => Package::new(name),
            },
        }
    }

    /// The shard directory of `name`: its first character, lower-cased.
    pub fn shard_dir(name: &str) -> (r: String)
        requires
            name@.len() > 0,
        ensures
            r@ == lower_of(name@.subrange(0, 1)),
    {
        to_lowercase(name.substring_char(0, 1))
    }

    /// Where the base index keeps the descriptor of `name`.
    pub fn index_file(index_path: &str, name: &str) -> (r: String)
        requires
            name@.len() > 0,
        ensures
            r@ == path_join(
                path_join(index_path@, lower_of(name@.subrange(0, 1))),
                json_file_name(name@),
            ),
    {
        let shard = Self::shard_dir(name);
        let dir = join_path(index_path, shard.as_str());
        let file = json_file(name);
        join_path(dir.as_str(), file.as_str())
    }

    /// Where an override descriptor of `name` is kept.
    pub fn override_file(overrides_path: &str, name: &str) -> (r: String)
        ensures
            r@ == path_join(overrides_path@, json_file_name(name@)),
    {
        let file = json_file(name);
        join_path(overrides_path, file.as_str())
    }
}

/// How to run a package's container.
#[derive(Debug, Clone)]
pub struct Package {
    pub image: Image,
    pub volumes: Option<Vec<Volume>>,
    pub ports: Option<Vec<Port>>,
    pub current_directory: Option<String>,
    pub environment_variables: Option<Vec<EnvironmentVariable>>,
    pub binaries: Option<Vec<Binary>>,
    pub only_shim_binaries: bool,
}

impl Package {
    /// The descriptor synthesized for a package without one.
    pub open spec fn is_default_for(self, name: Seq<char>) -> bool {
        &&& self.image.name@ == default_image_name(name)
        &&& self.image.build is None
        &&& self.volumes is None
        &&& self.ports is None
        &&& self.current_directory is None
        &&& self.environment_variables is None
        &&& self.binaries is None
        &&& !self.only_shim_binaries
    }

    /// The declared volumes, none when absent.
    pub open spec fn volume_list(self) -> Seq<Volume> {
        match self.volumes {
            Some(v) => v@,
            None => Seq::empty(),
        }
    }

    /// The declared environment variables, none when absent.
    pub open spec fn env_list(self) -> Seq<EnvironmentVariable> {
        match self.environment_variables {
            Some(v) => v@,
            None => Seq::empty(),
        }
    }

    /// The declared binaries, none when absent.
    pub open spec fn binary_list(self) -> Seq<Binary> {
        match self.binaries {
            Some(v) => v@,
            None => Seq::empty(),
        }
    }

    /// Default descriptor: image `docker.io/<name>`, nothing else declared.
    pub fn new(name: &str) -> (r: Self)
        ensures
            r.is_default_for(name@),
    {
        let mut image_name = "docker.io/".to_owned();
        push_str(&mut image_name, name);
        Package {
            image: Image { name: image_name, build: None },
            volumes: None,
            ports: None,
            current_directory: None,
            environment_variables: None,
            binaries: None,
            only_shim_binaries: false,
        }
    }
}

/// Canonical image reference, optionally built locally.
#[derive(Debug, Clone)]
pub struct Image {
    pub name: String,
    pub build: Option<Build>,
}

impl Image {
    /// Whether the image comes from a local build rather than a registry.
    pub fn is_local(&self) -> (r: bool)
        ensures
            r == self.build is Some,
    {
        self.build.is_some()
    }
}

/// Local build of an image: context, file and build arguments.
#[derive(Debug, Clone)]
pub struct Build {
    pub context: String,
    pub dockerfile: String,
    pub args: Option<HashMap<String, String>>,
}

/// A host path mounted into the container.
#[derive(Debug, Clone)]
pub struct Volume {
    pub source: String,
    pub target: String,
}

/// A published port.
#[derive(Debug, Clone)]
pub struct Port {
    pub host: u16,
    pub container: u16,
}

/// A named entry point inside the container.
#[derive(Debug, Clone)]
pub struct Binary {
    pub name: String,
    pub path: String,
    pub cmd: Option<Vec<String>>,
    pub wrap_args: bool,
}

/// An environment variable set in the container.
#[derive(Debug, Clone)]
pub struct EnvironmentVariable {
    pub name: String,
    pub value: String,
}

} // verus!
