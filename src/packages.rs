//! A package as the commands see it: its name, descriptor and version state.
use vstd::prelude::*;
use crate::configs::index::Package as PackageIndex;
use crate::configs::index::{Binary, EnvironmentVariable, Port, Volume};
use crate::configs::version::Package as PackageVersion;
use crate::text::{concat3, decimal, extend_strings, push_decimal, push_str, push_string, strs};

verus! {

/// A resolved package.
#[derive(Debug, Clone)]
pub struct Package {
    pub name: String,
    pub index: PackageIndex,
    pub versions: PackageVersion,
}

impl Package {
    /// Pairs a freshly resolved descriptor with a version state.
    pub fn new(name: &str, versions_package: PackageVersion, index_package: PackageIndex) -> (r: Self)
        ensures
            r.name@ == name@,
            r.index == index_package,
            r.versions == versions_package,
    {
        Self::make_from(name, index_package, versions_package)
    }

    /// The installed package `name`: present exactly when it has a version
    /// state, paired then with its descriptor.
    pub fn load(name: &str, versions_package: Option<PackageVersion>, index_package: PackageIndex) -> (r: Option<Self>)
        ensures
            match versions_package {
                Some(v) => r matches Some(p) && p.name@ == name@ && p.index == index_package
                    && p.versions == v,
                None => r is None,
            },
    {
        match versions_package {
            Some(v) => Some(Self::make_from(name, index_package, v)),
            None => None,
        }
    }

    fn make_from(name: &str, index_package: PackageIndex, versions_package: PackageVersion) -> (r: Self)
        ensures
            r.name@ == name@,
            r.index == index_package,
            r.versions == versions_package,
    {
        Package { name: name.to_owned(), index: index_package, versions: versions_package }
    }
}

/// The listing line of a port.
pub open spec fn port_line(p: Port) -> Seq<char> {
    "    - "@ + decimal(p.host as nat) + ":"@ + decimal(p.container as nat)
}

/// The listing line of a volume.
pub open spec fn volume_line(v: Volume) -> Seq<char> {
    "    - "@ + v.source@ + ":"@ + v.target@
}

/// The listing line of an environment variable.
pub open spec fn env_line(e: EnvironmentVariable) -> Seq<char> {
    "    - "@ + e.name@ + "="@ + e.value@
}

/// The listing line of a binary.
pub open spec fn binary_line(b: Binary) -> Seq<char> {
    "    - "@ + b.name@ + " -> "@ + b.path@
}

/// The listing line of an installed version; the active one is ticked.
pub open spec fn version_line(v: Seq<char>, current: Seq<char>) -> Seq<char> {
    if v == current {
        "    - "@ + v + " \u{2714}"@
    } else {
        "    - "@ + v
    }
}

/// A titled block: the title followed by one line per item, or nothing
/// when the list is absent.
pub open spec fn block<T>(title: Seq<char>, items: Option<Vec<T>>, line: spec_fn(T) -> Seq<char>) -> Seq<Seq<char>> {
    match items {
        Some(v) => seq![title] + v@.map_values(line),
        None => Seq::empty(),
    }
}

/// The lines describing a descriptor.
pub open spec fn descriptor_lines(index: PackageIndex) -> Seq<Seq<char>> {
    seq!["  - image: "@ + index.image.name@]
        + block("  - ports:"@, index.ports, |x: Port| port_line(x))
        + block("  - volumes:"@, index.volumes, |x: Volume| volume_line(x))
        + block("  - environment variables:"@, index.environment_variables, |x: EnvironmentVariable| env_line(x))
        + block("  - binaries:"@, index.binaries, |x: Binary| binary_line(x))
        + seq!["  - only_shim_binaries: "@ + (if index.only_shim_binaries { "true"@ } else { "false"@ })]
        + match index.current_directory {
            Some(d) => seq!["  - current directory: "@ + d@],
            None => Seq::empty(),
        }
}

/// The lines listing the versions of a state.
pub open spec fn version_lines(v: PackageVersion) -> Seq<Seq<char>> {
    seq!["  - versions:"@] + strs(v.versions@).map_values(|x: Seq<char>| version_line(x, v.current@))
}

/// The lines listing `p`; the descriptor is shown only when `verbose`.
pub open spec fn print_lines(p: Package, verbose: bool) -> Seq<Seq<char>> {
    seq!["- ["@ + p.name@ + "]"@] + (if verbose {
        descriptor_lines(p.index)
    } else {
        Seq::empty()
    }) + version_lines(p.versions)
}

fn port_text(p: &Port) -> (r: String)
    ensures
        r@ == port_line(*p),
{
    let mut r = "    - ".to_owned();
    push_decimal(&mut r, p.host);
    push_str(&mut r, ":");
    push_decimal(&mut r, p.container);
    r
}

fn volume_text(v: &Volume) -> (r: String)
    ensures
        r@ == volume_line(*v),
{
    let mut r = "    - ".to_owned();
    push_str(&mut r, v.source.as_str());
    push_str(&mut r, ":");
    push_str(&mut r, v.target.as_str());
    r
}

fn env_text(e: &EnvironmentVariable) -> (r: String)
    ensures
        r@ == env_line(*e),
{
    let mut r = "    - ".to_owned();
    push_str(&mut r, e.name.as_str());
    push_str(&mut r, "=");
    push_str(&mut r, e.value.as_str());
    r
}

fn binary_text(b: &Binary) -> (r: String)
    ensures
        r@ == binary_line(*b),
{
    let mut r = "    - ".to_owned();
    push_str(&mut r, b.name.as_str());
    push_str(&mut r, " -> ");
    push_str(&mut r, b.path.as_str());
    r
}

fn version_text(v: &String, current: &String) -> (r: String)
    ensures
        r@ == version_line(v@, current@),
{
    let mut r = "    - ".to_owned();
    push_str(&mut r, v.as_str());
    if *v == *current {
        push_str(&mut r, " \u{2714}");
    }
    r
}


fn push_port_block(lines: &mut Vec<String>, items: &Option<Vec<Port>>)
    ensures
        strs(final(lines)@) == strs(old(lines)@) + block("  - ports:"@, *items, |x: Port| port_line(x)),
{
    match items {
        Some(v) => {
            push_string(lines, "  - ports:".to_owned());
            let ghost start = strs(lines@);
            let mut i: usize = 0;
            while i < v.len()
                invariant
                    0 <= i <= v.len(),
                    strs(lines@) == start + v@.subrange(0, i as int).map_values(|x: Port| port_line(x)),
                decreases v.len() - i,
            {
                push_string(lines, port_text(&v[i]));
                assert(v@.subrange(0, i + 1).map_values(|x: Port| port_line(x)) =~= v@.subrange(0, i as int).map_values(|x: Port| port_line(x)).push(port_line(v@[i as int])));
                i = i + 1;
            }
            assert(v@.subrange(0, v.len() as int) =~= v@);
            assert(strs(lines@) =~= strs(old(lines)@) + block("  - ports:"@, *items, |x: Port| port_line(x)));
        },
        None => {
            assert(strs(lines@) =~= strs(old(lines)@) + block("  - ports:"@, *items, |x: Port| port_line(x)));
        },
    }
}

fn push_volume_block(lines: &mut Vec<String>, items: &Option<Vec<Volume>>)
    ensures
        strs(final(lines)@) == strs(old(lines)@) + block("  - volumes:"@, *items, |x: Volume| volume_line(x)),
{
    match items {
        Some(v) => {
            push_string(lines, "  - volumes:".to_owned());
            let ghost start = strs(lines@);
            let mut i: usize = 0;
            while i < v.len()
                invariant
                    0 <= i <= v.len(),
                    strs(lines@) == start + v@.subrange(0, i as int).map_values(|x: Volume| volume_line(x)),
                decreases v.len() - i,
            {
                push_string(lines, volume_text(&v[i]));
                assert(v@.subrange(0, i + 1).map_values(|x: Volume| volume_line(x)) =~= v@.subrange(0, i as int).map_values(|x: Volume| volume_line(x)).push(volume_line(v@[i as int])));
                i = i + 1;
            }
            assert(v@.subrange(0, v.len() as int) =~= v@);
            assert(strs(lines@) =~= strs(old(lines)@) + block("  - volumes:"@, *items, |x: Volume| volume_line(x)));
        },
        None => {
            assert(strs(lines@) =~= strs(old(lines)@) + block("  - volumes:"@, *items, |x: Volume| volume_line(x)));
        },
    }
}

fn push_env_block(lines: &mut Vec<String>, items: &Option<Vec<EnvironmentVariable>>)
    ensures
        strs(final(lines)@) == strs(old(lines)@) + block("  - environment variables:"@, *items, |x: EnvironmentVariable| env_line(x)),
{
    match items {
        Some(v) => {
            push_string(lines, "  - environment variables:".to_owned());
            let ghost start = strs(lines@);
            let mut i: usize = 0;
            while i < v.len()
                invariant
                    0 <= i <= v.len(),
                    strs(lines@) == start + v@.subrange(0, i as int).map_values(|x: EnvironmentVariable| env_line(x)),
                decreases v.len() - i,
            {
                push_string(lines, env_text(&v[i]));
                assert(v@.subrange(0, i + 1).map_values(|x: EnvironmentVariable| env_line(x)) =~= v@.subrange(0, i as int).map_values(|x: EnvironmentVariable| env_line(x)).push(env_line(v@[i as int])));
                i = i + 1;
            }
            assert(v@.subrange(0, v.len() as int) =~= v@);
            assert(strs(lines@) =~= strs(old(lines)@) + block("  - environment variables:"@, *items, |x: EnvironmentVariable| env_line(x)));
        },
        None => {
            assert(strs(lines@) =~= strs(old(lines)@) + block("  - environment variables:"@, *items, |x: EnvironmentVariable| env_line(x)));
        },
    }
}

fn push_binary_block(lines: &mut Vec<String>, items: &Option<Vec<Binary>>)
    ensures
        strs(final(lines)@) == strs(old(lines)@) + block("  - binaries:"@, *items, |x: Binary| binary_line(x)),
{
    match items {
        Some(v) => {
            push_string(lines, "  - binaries:".to_owned());
            let ghost start = strs(lines@);
            let mut i: usize = 0;
            while i < v.len()
                invariant
                    0 <= i <= v.len(),
                    strs(lines@) == start + v@.subrange(0, i as int).map_values(|x: Binary| binary_line(x)),
                decreases v.len() - i,
            {
                push_string(lines, binary_text(&v[i]));
                assert(v@.subrange(0, i + 1).map_values(|x: Binary| binary_line(x)) =~= v@.subrange(0, i as int).map_values(|x: Binary| binary_line(x)).push(binary_line(v@[i as int])));
                i = i + 1;
            }
            assert(v@.subrange(0, v.len() as int) =~= v@);
            assert(strs(lines@) =~= strs(old(lines)@) + block("  - binaries:"@, *items, |x: Binary| binary_line(x)));
        },
        None => {
            assert(strs(lines@) =~= strs(old(lines)@) + block("  - binaries:"@, *items, |x: Binary| binary_line(x)));
        },
    }
}

/// The lines describing the descriptor `index`.
pub fn describe(index: &PackageIndex) -> (r: Vec<String>)
    ensures
        strs(r@) == descriptor_lines(*index),
{
    let mut lines: Vec<String> = Vec::new();
    let mut image = "  - image: ".to_owned();
    push_str(&mut image, index.image.name.as_str());
    push_string(&mut lines, image);
    push_port_block(&mut lines, &index.ports);
    push_volume_block(&mut lines, &index.volumes);
    push_env_block(&mut lines, &index.environment_variables);
    push_binary_block(&mut lines, &index.binaries);
    let mut flag = "  - only_shim_binaries: ".to_owned();
    if index.only_shim_binaries {
        push_str(&mut flag, "true");
    } else {
        push_str(&mut flag, "false");
    }
    push_string(&mut lines, flag);
    match &index.current_directory {
        Some(d) => {
            let mut dir = "  - current directory: ".to_owned();
            push_str(&mut dir, d.as_str());
            push_string(&mut lines, dir);
        },
        None => {},
    }
    assert(strs(lines@) =~= descriptor_lines(*index));
    lines
}

/// The lines listing the versions of `state`, the active one ticked.
pub fn list_versions(state: &PackageVersion) -> (r: Vec<String>)
    ensures
        strs(r@) == version_lines(*state),
{
    let mut lines: Vec<String> = Vec::new();
    push_string(&mut lines, "  - versions:".to_owned());
    let ghost start = strs(lines@);
    let ghost vs = strs(state.versions@);
    let mut i: usize = 0;
    while i < state.versions.len()
        invariant
            0 <= i <= state.versions.len(),
            vs == strs(state.versions@),
            strs(lines@) == start + vs.subrange(0, i as int).map_values(
                |v: Seq<char>| version_line(v, state.current@),
            ),
        decreases state.versions.len() - i,
    {
        push_string(&mut lines, version_text(&state.versions[i], &state.current));
        assert(vs.subrange(0, i + 1).map_values(|v: Seq<char>| version_line(v, state.current@)) =~= vs.subrange(0, i as int).map_values(|v: Seq<char>| version_line(v, state.current@)).push(version_line(vs[i as int], state.current@)));
        i = i + 1;
    }
    assert(vs.subrange(0, vs.len() as int) =~= vs);
    assert(strs(lines@) =~= version_lines(*state));
    lines
}

impl Package {
    /// The lines that list this package: its name, with `verbose` its
    /// descriptor, then its versions with the active one ticked.
    pub fn print(&self, verbose: bool) -> (r: Vec<String>)
        ensures
            strs(r@) == print_lines(*self, verbose),
    {
        let mut lines: Vec<String> = Vec::new();
        push_string(&mut lines, concat3("- [", self.name.as_str(), "]"));
        if verbose {
            let described = describe(&self.index);
            extend_strings(&mut lines, &described);
        }
        let versions = list_versions(&self.versions);
        extend_strings(&mut lines, &versions);
        assert(strs(lines@) =~= print_lines(*self, verbose));
        lines
    }
}

} // verus!
