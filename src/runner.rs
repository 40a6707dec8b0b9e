//! Builds container-engine command lines for a package.
use rand::Rng;
use vstd::prelude::*;
use crate::configs::index::{Binary, EnvironmentVariable, Volume};
use crate::configs::user::Root;
use crate::packages::Package;
use crate::text::{
    concat3, escape, escape_quotes, extend_strings, join_space, push_copy, push_str, push_string,
    strs,
};

verus! {

/// `image:version` of the package's active version.
pub open spec fn image_reference(package: Package) -> Seq<char> {
    package.index.image.name@ + ":"@ + package.versions.current@
}

/// Index of the first binary of `bins` called `name`, if any.
pub open spec fn first_binary(bins: Seq<Binary>, name: Seq<char>) -> Option<int>
    decreases bins.len(),
{
    if bins.len() == 0 {
        None
    } else {
        match first_binary(bins.drop_last(), name) {
            Some(i) => Some(i),
            None => if bins.last().name@ == name {
                Some(bins.len() - 1)
            } else {
                None
            },
        }
    }
}

/// The binary that `binary` selects: the first declared one of that name.
/// A name that no binary has selects none.
pub open spec fn selected_binary(package: Package, binary: Option<String>) -> Option<Binary> {
    match binary {
        None => None,
        Some(b) => match first_binary(package.index.binary_list(), b@) {
            Some(i) => Some(package.index.binary_list()[i]),
            None => None,
        },
    }
}

/// Container name: `hbox-<package>-<version>-<suffix>`.
pub open spec fn container_name_of(package: Package, suffix: Seq<char>) -> Seq<char> {
    "hbox-"@ + package.name@ + "-"@ + package.versions.current@ + "-"@ + suffix
}

/// Whether `c` is an ASCII letter or digit.
pub open spec fn is_alphanumeric(c: char) -> bool {
    ('a' <= c <= 'z') || ('A' <= c <= 'Z') || ('0' <= c <= '9')
}

/// Length of the random part of a container name.
pub const NAME_SUFFIX_LEN: usize = 10;

/// Flags that make the container ephemeral and name it.
pub open spec fn default_flags(name: Seq<char>) -> Seq<Seq<char>> {
    seq!["--rm"@, "--name"@, name]
}

/// The expanded source of volume `i` when it is present on the host; a
/// volume without an entry in `mounts` counts as absent.
pub open spec fn mount_at(mounts: Seq<Option<String>>, i: int) -> Option<String> {
    if 0 <= i < mounts.len() {
        mounts[i]
    } else {
        None
    }
}

/// Mount flags: one `-v source:target` pair for each volume whose expanded
/// source is present on the host, in declaration order.
pub open spec fn volume_flags(vols: Seq<Volume>, mounts: Seq<Option<String>>) -> Seq<Seq<char>>
    decreases vols.len(),
{
    if vols.len() == 0 {
        Seq::empty()
    } else {
        let prev = volume_flags(vols.drop_last(), mounts);
        match mount_at(mounts, vols.len() - 1) {
            Some(source) => prev + seq!["-v"@, source@ + ":"@ + vols.last().target@],
            None => prev,
        }
    }
}

/// `-w dir` when a working directory is declared.
pub open spec fn workdir_flags(dir: Option<String>) -> Seq<Seq<char>> {
    match dir {
        Some(d) => seq!["-w"@, d@],
        None => Seq::empty(),
    }
}

/// The expanded value of variable `i`; empty without an entry in `values`.
pub open spec fn value_at(values: Seq<String>, i: int) -> Seq<char> {
    if 0 <= i < values.len() {
        values[i]@
    } else {
        Seq::empty()
    }
}

/// `-e name=value` for each variable, with its expanded value.
pub open spec fn env_flags(vars: Seq<EnvironmentVariable>, values: Seq<String>) -> Seq<Seq<char>>
    decreases vars.len(),
{
    if vars.len() == 0 {
        Seq::empty()
    } else {
        env_flags(vars.drop_last(), values) + seq![
            "-e"@,
            vars.last().name@ + "="@ + value_at(values, vars.len() - 1),
        ]
    }
}

/// `--entrypoint path` when a binary is selected.
pub open spec fn entrypoint_flags(binary: Option<Binary>) -> Seq<Seq<char>> {
    match binary {
        Some(b) => seq!["--entrypoint"@, b.path@],
        None => Seq::empty(),
    }
}

/// The fixed command prefix of the selected binary.
pub open spec fn binary_cmd(binary: Option<Binary>) -> Seq<Seq<char>> {
    match binary {
        Some(b) => match b.cmd {
            Some(c) => strs(c@),
            None => Seq::empty(),
        },
        None => Seq::empty(),
    }
}

/// Whether the selected binary wants its arguments as one token.
pub open spec fn wraps_args(binary: Option<Binary>) -> bool {
    match binary {
        Some(b) => b.wrap_args,
        None => false,
    }
}

/// The user arguments as passed to the container: each on its own, or,
/// for a wrapping binary, escaped and joined into a single token.
pub open spec fn param_tokens(binary: Option<Binary>, params: Seq<Seq<char>>) -> Seq<Seq<char>> {
    if wraps_args(binary) {
        seq![join_space(params.map_values(|p: Seq<char>| escape_quotes(p)))]
    } else {
        params
    }
}

/// The whole command line of a run, from the `run` subcommand on: the
/// ephemeral-container and name flags, then `-i` when the caller's standard
/// input is not a terminal (`interactive`) or `-it` when it is, then mounts,
/// working directory, environment, entrypoint, image, fixed command and the
/// user's arguments.
pub open spec fn run_args(
    package: Package,
    binary: Option<Binary>,
    params: Seq<Seq<char>>,
    interactive: bool,
    container_name: Seq<char>,
    mounts: Seq<Option<String>>,
    env_values: Seq<String>,
) -> Seq<Seq<char>> {
    seq!["run"@]
        + default_flags(container_name)
        + seq![if interactive { "-i"@ } else { "-it"@ }]
        + volume_flags(package.index.volume_list(), mounts)
        + workdir_flags(package.index.current_directory)
        + env_flags(package.index.env_list(), env_values)
        + entrypoint_flags(binary)
        + seq![image_reference(package)]
        + binary_cmd(binary)
        + param_tokens(binary, params)
}

/// The command line that pulls `image:version`.
pub fn pull_command(image: &str, version: &str) -> (r: Vec<String>)
    ensures
        strs(r@) == seq!["pull"@, image@ + ":"@ + version@],
{
    let mut args: Vec<String> = Vec::new();
    push_copy(&mut args, "pull");
    push_string(&mut args, concat3(image, ":", version));
    assert(strs(args@) =~= seq!["pull"@, image@ + ":"@ + version@]);
    args
}

/// The command line that pulls the package's active version.
pub fn pull(package: &Package) -> (r: Vec<String>)
    ensures
        strs(r@) == seq!["pull"@, image_reference(*package)],
{
    pull_command(package.index.image.name.as_str(), package.versions.current.as_str())
}

/// Whether the selected binary wants its arguments as one token.
pub fn should_wrap_args(binary: Option<&Binary>) -> (r: bool)
    ensures
        r == match binary {
            Some(b) => b.wrap_args,
            None => false,
        },
{
    match binary {
        Some(bin) => bin.wrap_args,
        None => false,
    }
}

/// Relies on `rand::thread_rng` sampled through `rand::distributions::Alphanumeric`:
/// `len` characters, each an ASCII letter or digit.
#[verifier::external_body]
fn random_alphanumeric(len: usize) -> (r: String)
    ensures
        r@.len() == len,
        forall|i: int| 0 <= i < r@.len() ==> is_alphanumeric(#[trigger] r@[i]),
{
    rand::thread_rng().sample_iter(&rand::distributions::Alphanumeric).take(len).map(char::from).collect()
}

/// The container name for `package` with the given random `suffix`.
pub fn container_name(package: &Package, suffix: &str) -> (r: String)
    ensures
        r@ == container_name_of(*package, suffix@),
{
    let mut r = "hbox-".to_owned();
    push_str(&mut r, package.name.as_str());
    push_str(&mut r, "-");
    push_str(&mut r, package.versions.current.as_str());
    push_str(&mut r, "-");
    push_str(&mut r, suffix);
    r
}

/// A fresh container name with a random alphanumeric suffix, so that rapid
/// or concurrent runs do not collide.
pub fn generate_random_name(package: &Package) -> (r: String)
    ensures
        exists|suffix: Seq<char>|
            suffix.len() == NAME_SUFFIX_LEN && (forall|i: int|
                0 <= i < suffix.len() ==> is_alphanumeric(#[trigger] suffix[i])) && r@
                == container_name_of(*package, suffix),
{
    let suffix = random_alphanumeric(NAME_SUFFIX_LEN);
    container_name(package, suffix.as_str())
}

/// Appends `--rm --name <name>`.
pub fn add_default_flags(name: &str, args: &mut Vec<String>)
    ensures
        strs(final(args)@) == strs(old(args)@) + default_flags(name@),
{
    push_copy(args, "--rm");
    push_copy(args, "--name");
    push_copy(args, name);
    assert(strs(args@) =~= strs(old(args)@) + default_flags(name@));
}

/// Appends `image:version`.
pub fn add_container_image(package: &Package, args: &mut Vec<String>)
    ensures
        strs(final(args)@) == strs(old(args)@).push(image_reference(*package)),
{
    let image = concat3(package.index.image.name.as_str(), ":", package.versions.current.as_str());
    push_string(args, image);
}

/// Appends the mount flags of every volume whose source `mounts` gives as
/// present; the others are skipped.
pub fn add_volumes(package: &Package, mounts: &Vec<Option<String>>, args: &mut Vec<String>)
    ensures
        strs(final(args)@) == strs(old(args)@) + volume_flags(package.index.volume_list(), mounts@),
{
    let ghost start = strs(args@);
    match &package.index.volumes {
        None => {
            assert(strs(args@) =~= start + volume_flags(package.index.volume_list(), mounts@));
        },
        Some(volumes) => {
            let mut i: usize = 0;
            while i < volumes.len()
                invariant
                    0 <= i <= volumes.len(),
                    volumes@ == package.index.volume_list(),
                    strs(args@) == start + volume_flags(volumes@.subrange(0, i as int), mounts@),
                decreases volumes.len() - i,
            {
                assert(volumes@.subrange(0, i + 1).drop_last() =~= volumes@.subrange(0, i as int));
                if i < mounts.len() {
                    match &mounts[i] {
                        Some(source) => {
                            push_copy(args, "-v");
                            let spec_arg = concat3(source.as_str(), ":", volumes[i].target.as_str());
                            push_string(args, spec_arg);
                            assert(strs(args@) =~= start + volume_flags(
                                volumes@.subrange(0, i + 1),
                                mounts@,
                            ));
                        },
                        None => {},
                    }
                }
                i = i + 1;
            }
            assert(volumes@.subrange(0, volumes.len() as int) =~= volumes@);
        },
    }
}

/// Appends `-w dir` when a working directory is declared.
pub fn add_current_directory(package: &Package, args: &mut Vec<String>)
    ensures
        strs(final(args)@) == strs(old(args)@) + workdir_flags(package.index.current_directory),
{
    match &package.index.current_directory {
        Some(current_directory) => {
            push_copy(args, "-w");
            push_copy(args, current_directory.as_str());
        },
        None => {},
    }
    assert(strs(args@) =~= strs(old(args)@) + workdir_flags(package.index.current_directory));
}

/// Appends `-e name=value` for every declared variable, with the expanded
/// values `values`.
pub fn add_environment_variables(package: &Package, values: &Vec<String>, args: &mut Vec<String>)
    ensures
        strs(final(args)@) == strs(old(args)@) + env_flags(package.index.env_list(), values@),
{
    let ghost start = strs(args@);
    match &package.index.environment_variables {
        None => {
            assert(strs(args@) =~= start + env_flags(package.index.env_list(), values@));
        },
        Some(vars) => {
            let mut i: usize = 0;
            while i < vars.len()
                invariant
                    0 <= i <= vars.len(),
                    vars@ == package.index.env_list(),
                    strs(args@) == start + env_flags(vars@.subrange(0, i as int), values@),
                decreases vars.len() - i,
            {
                assert(vars@.subrange(0, i + 1).drop_last() =~= vars@.subrange(0, i as int));
                push_copy(args, "-e");
                let pair = if i < values.len() {
                    concat3(vars[i].name.as_str(), "=", values[i].as_str())
                } else {
                    concat3(vars[i].name.as_str(), "=", String::new().as_str())
                };
                push_string(args, pair);
                assert(strs(args@) =~= start + env_flags(vars@.subrange(0, i + 1), values@));
                i = i + 1;
            }
            assert(vars@.subrange(0, vars.len() as int) =~= vars@);
        },
    }
}

/// Appends `--entrypoint path` when a binary is selected.
pub fn add_binary_entrypoint(binary: Option<&Binary>, args: &mut Vec<String>)
    ensures
        strs(final(args)@) == strs(old(args)@) + entrypoint_flags(
            match binary {
                Some(b) => Some(*b),
                None => None,
            },
        ),
{
    match binary {
        Some(b) => {
            push_copy(args, "--entrypoint");
            push_copy(args, b.path.as_str());
        },
        None => {},
    }
    assert(strs(args@) =~= strs(old(args)@) + entrypoint_flags(
        match binary {
            Some(b) => Some(*b),
            None => None,
        },
    ));
}

/// Appends the fixed command prefix of the selected binary.
pub fn add_binary_cmd(binary: Option<&Binary>, args: &mut Vec<String>)
    ensures
        strs(final(args)@) == strs(old(args)@) + binary_cmd(
            match binary {
                Some(b) => Some(*b),
                None => None,
            },
        ),
{
    match binary {
        Some(b) => match &b.cmd {
            Some(cmd) => extend_strings(args, cmd),
            None => {
                assert(strs(args@) =~= strs(old(args)@) + Seq::<Seq<char>>::empty());
            },
        },
        None => {
            assert(strs(args@) =~= strs(old(args)@) + Seq::<Seq<char>>::empty());
        },
    }
}

/// Escapes each argument's double quotes and joins them with spaces.
pub fn wrap_params(params: &Vec<String>) -> (r: String)
    ensures
        r@ == join_space(strs(params@).map_values(|p: Seq<char>| escape_quotes(p))),
{
    let ghost escaped = strs(params@).map_values(|p: Seq<char>| escape_quotes(p));
    let mut r = String::new();
    let mut i: usize = 0;
    while i < params.len()
        invariant
            0 <= i <= params.len(),
            escaped.len() == params@.len(),
            escaped == strs(params@).map_values(|p: Seq<char>| escape_quotes(p)),
            r@ == join_space(escaped.subrange(0, i as int)),
        decreases params.len() - i,
    {
        let e = escape(params[i].as_str());
        assert(escaped.subrange(0, i + 1).drop_last() =~= escaped.subrange(0, i as int));
        if i > 0 {
            push_str(&mut r, " ");
            proof {
                reveal_strlit(" ");
            }
        } else {
            assert(r@ == Seq::<char>::empty());
        }
        push_str(&mut r, e.as_str());
        assert(escaped.subrange(0, i + 1).last() == escape_quotes(params@[i as int]@));
        assert(r@ =~= join_space(escaped.subrange(0, i + 1)));
        i = i + 1;
    }
    assert(escaped.subrange(0, params.len() as int) =~= escaped);
    r
}

/// Text in which the shell expander has nothing to expand: no `$` and no
/// leading `~`.
pub open spec fn is_plain(s: Seq<char>) -> bool {
    !s.contains('$') && !(s.len() > 0 && s[0] == '~')
}

/// Relies on `shellexpand::full`: expands a leading `~` and `$VAR` /
/// `${VAR}` from the process environment; `None` when a variable cannot
/// be read. Text without `$` or a leading `~` comes back unchanged.
#[verifier::external_body]
fn expand_full(s: &str) -> (r: Option<String>)
    ensures
        is_plain(s@) ==> r is Some,
        is_plain(s@) ==> r.unwrap()@ == s@,
{
    shellexpand::full(s).ok().map(|c| c.into_owned())
}

/// The expanded host source of every declared volume, `None` where
/// expansion failed. Plain sources are kept as written.
pub fn expand_mount_sources(package: &Package) -> (r: Vec<Option<String>>)
    ensures
        r@.len() == package.index.volume_list().len(),
        forall|i: int|
            0 <= i < r@.len() && is_plain(package.index.volume_list()[i].source@) ==> (
            #[trigger] r@[i] matches Some(x) && x@ == package.index.volume_list()[i].source@),
{
    let mut r: Vec<Option<String>> = Vec::new();
    match &package.index.volumes {
        None => {},
        Some(volumes) => {
            let mut i: usize = 0;
            while i < volumes.len()
                invariant
                    0 <= i <= volumes.len(),
                    volumes@ == package.index.volume_list(),
                    r@.len() == i,
                    forall|j: int|
                        0 <= j < i && is_plain(volumes@[j].source@) ==> (
                        #[trigger] r@[j] matches Some(x) && x@ == volumes@[j].source@),
                decreases volumes.len() - i,
            {
                r.push(expand_full(volumes[i].source.as_str()));
                i = i + 1;
            }
        },
    }
    r
}

/// An expanded value, or the empty string when expansion failed.
pub fn value_or_empty(e: Option<String>) -> (r: String)
    ensures
        r@ == match e {
            Some(v) => v@,
            None => Seq::<char>::empty(),
        },
{
    match e {
        Some(v) => v,
        None => String::new(),
    }
}

/// The expanded value of every declared environment variable; a value that
/// cannot be expanded becomes empty (see `value_or_empty`). Plain values are kept as written.
pub fn expand_environment_values(package: &Package) -> (r: Vec<String>)
    ensures
        r@.len() == package.index.env_list().len(),
        forall|i: int|
            0 <= i < r@.len() && is_plain(package.index.env_list()[i].value@) ==> #[trigger] r@[i]@
                == package.index.env_list()[i].value@,
{
    let mut r: Vec<String> = Vec::new();
    match &package.index.environment_variables {
        None => {},
        Some(vars) => {
            let mut i: usize = 0;
            while i < vars.len()
                invariant
                    0 <= i <= vars.len(),
                    vars@ == package.index.env_list(),
                    r@.len() == i,
                    forall|j: int|
                        0 <= j < i && is_plain(vars@[j].value@) ==> #[trigger] r@[j]@
                            == vars@[j].value@,
                decreases vars.len() - i,
            {
                r.push(value_or_empty(expand_full(vars[i].value.as_str())));
                i = i + 1;
            }
        },
    }
    r
}

/// The declared binary that `binary` names, if any: the first of that
/// name. An unknown name selects no binary.
pub fn get_binary<'a>(package: &'a Package, binary: &Option<String>) -> (r: Option<&'a Binary>)
    ensures
        match r {
            Some(b) => selected_binary(*package, *binary) == Some(*b),
            None => selected_binary(*package, *binary) is None,
        },
{
    match binary {
        None => None,
        Some(b) => match &package.index.binaries {
            None => None,
            Some(binaries) => {
                let mut i: usize = 0;
                while i < binaries.len()
                    invariant
                        0 <= i <= binaries.len(),
                        binaries@ == package.index.binary_list(),
                        *binary == Some(*b),
                        first_binary(binaries@.subrange(0, i as int), b@) is None,
                    decreases binaries.len() - i,
                {
                    assert(binaries@.subrange(0, i + 1).drop_last() =~= binaries@.subrange(
                        0,
                        i as int,
                    ));
                    if binaries[i].name == *b {
                        proof {
                            assert(binaries@.subrange(0, i + 1).last() == binaries@[i as int]);
                            assert(first_binary(binaries@.subrange(0, i + 1), b@) == Some(i as int));
                            lemma_first_binary_prefix(binaries@, b@, i as int);
                            assert(selected_binary(*package, *binary) == Some(binaries@[i as int]));
                        }
                        return Some(&binaries[i]);
                    }
                    i = i + 1;
                }
                assert(binaries@.subrange(0, binaries.len() as int) =~= binaries@);
                None
            },
        },
    }
}

/// A match found first in a prefix is the first match of the whole list.
proof fn lemma_first_binary_prefix(bins: Seq<Binary>, name: Seq<char>, i: int)
    requires
        0 <= i < bins.len(),
        first_binary(bins.subrange(0, i + 1), name) == Some(i),
    ensures
        first_binary(bins, name) == Some(i),
    decreases bins.len(),
{
    if bins.len() > i + 1 {
        assert(bins.drop_last().subrange(0, i + 1) =~= bins.subrange(0, i + 1));
        lemma_first_binary_prefix(bins.drop_last(), name, i);
    } else {
        assert(bins.subrange(0, i + 1) =~= bins);
    }
}

/// The full command line of a run: see `run_args`. `mounts` holds, for
/// each declared volume, its expanded source when that is present on the
/// host; `env_values` the expanded value of each declared variable. A
/// volume or variable past the end of these lists counts as absent or
/// empty.
pub fn build_run_args(
    package: &Package,
    binary: &Option<String>,
    params: &Vec<String>,
    interactive: bool,
    container_name: &str,
    mounts: &Vec<Option<String>>,
    env_values: &Vec<String>,
) -> (r: Vec<String>)
    ensures
        strs(r@) == run_args(
            *package,
            selected_binary(*package, *binary),
            strs(params@),
            interactive,
            container_name@,
            mounts@,
            env_values@,
        ),
{
    let mut args: Vec<String> = Vec::new();
    push_copy(&mut args, "run");
    add_default_flags(container_name, &mut args);
    if interactive {
        push_copy(&mut args, "-i");
    } else {
        push_copy(&mut args, "-it");
    }
    let ghost head = strs(args@);
    let selected = get_binary(package, binary);
    let ghost sel = selected_binary(*package, *binary);
    assert(sel == match selected {
        Some(b) => Some(*b),
        None => None::<Binary>,
    });
    add_volumes(package, mounts, &mut args);
    add_current_directory(package, &mut args);
    add_environment_variables(package, env_values, &mut args);
    add_binary_entrypoint(selected, &mut args);
    add_container_image(package, &mut args);
    add_binary_cmd(selected, &mut args);
    let ghost before_params = strs(args@);
    if should_wrap_args(selected) {
        let joined = wrap_params(params);
        push_string(&mut args, joined);
    } else {
        extend_strings(&mut args, params);
    }
    assert(strs(args@) == before_params + param_tokens(sel, strs(params@)));
    assert(head =~= seq!["run"@] + default_flags(container_name@) + seq![
        if interactive {
            "-i"@
        } else {
            "-it"@
        },
    ]);
    assert(strs(args@) =~= run_args(
        *package,
        sel,
        strs(params@),
        interactive,
        container_name@,
        mounts@,
        env_values@,
    ));
    args
}

/// A volume whose source is not present on the host adds no flags, and the
/// flags of the other volumes are those of a descriptor without it, in the
/// same order.
pub proof fn lemma_missing_mount_skipped(vols: Seq<Volume>, mounts: Seq<Option<String>>, i: int)
    requires
        vols.len() == mounts.len(),
        0 <= i < vols.len(),
        mounts[i] is None,
    ensures
        volume_flags(vols, mounts) == volume_flags(vols.remove(i), mounts.remove(i)),
    decreases vols.len(),
{
    if i == vols.len() - 1 {
        assert(vols.remove(i) =~= vols.drop_last());
        assert(mounts.remove(i) =~= mounts.drop_last());
        lemma_volume_flags_prefix(vols.drop_last(), mounts);
    } else {
        lemma_missing_mount_skipped(vols.drop_last(), mounts.drop_last(), i);
        assert(vols.remove(i).drop_last() =~= vols.drop_last().remove(i));
        assert(mounts.remove(i).drop_last() =~= mounts.drop_last().remove(i));
        assert(vols.remove(i).last() == vols.last());
        assert(mounts.remove(i).last() == mounts.last());
        lemma_volume_flags_prefix(vols.drop_last(), mounts);
        lemma_volume_flags_prefix(vols.remove(i).drop_last(), mounts.remove(i));
    }
}

/// The flags of volumes covered by `mounts.drop_last()` do not look at the
/// last entry of `mounts`.
proof fn lemma_volume_flags_prefix(vols: Seq<Volume>, mounts: Seq<Option<String>>)
    requires
        vols.len() < mounts.len(),
    ensures
        volume_flags(vols, mounts) == volume_flags(vols, mounts.drop_last()),
    decreases vols.len(),
{
    if vols.len() > 0 {
        lemma_volume_flags_prefix(vols.drop_last(), mounts);
    }
}

/// How one standard stream of the child is connected.
#[derive(Debug, Clone, Copy, PartialEq, Eq, Structural)]
pub enum StreamMode {
    /// Shared with this process.
    Inherit,
    /// A pipe this process writes or reads.
    Piped,
}

/// The connection of the child's three standard streams.
#[derive(Debug, Clone, Copy, PartialEq, Eq, Structural)]
pub struct StdioPlan {
    pub stdin: StreamMode,
    pub stdout: StreamMode,
    pub stderr: StreamMode,
}

/// Stdin is piped only when there is buffered input to forward; stdout and
/// stderr are piped only when their capture is enabled, and inherited
/// otherwise, so that no reader is started for them.
pub fn get_stdio(config: &Root, stdin_buffer: &Option<Vec<u8>>) -> (r: StdioPlan)
    ensures
        (r.stdin == StreamMode::Piped) == (stdin_buffer matches Some(b) && b@.len() > 0),
        (r.stdout == StreamMode::Piped) == config.experimental.capture_stdout,
        (r.stderr == StreamMode::Piped) == config.experimental.capture_stderr,
{
    let stdin = match stdin_buffer {
        Some(b) => if b.len() == 0 {
            StreamMode::Inherit
        } else {
            StreamMode::Piped
        },
        None => StreamMode::Inherit,
    };
    let stdout = if config.experimental.capture_stdout {
        StreamMode::Piped
    } else {
        StreamMode::Inherit
    };
    let stderr = if config.experimental.capture_stderr {
        StreamMode::Piped
    } else {
        StreamMode::Inherit
    };
    StdioPlan { stdin, stdout, stderr }
}

} // verus!
