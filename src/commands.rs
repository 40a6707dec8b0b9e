//! The decisions behind each command. Each function takes what was loaded
//! from storage and returns what to do next or the error to report; the
//! caller performs the reads, writes, pulls and shim changes.
use vstd::prelude::*;
use crate::configs::index::Package as PackageIndex;
use crate::configs::version::{Package as PackageVersion, VersionState};
use crate::configs::user::{read_outcome, write_outcome, Root, SettingError, UserConfig};
use crate::packages::{print_lines, Package};
use crate::shims::{invocation_key, shim_names, shim_names_for, shim_plan, shim_view, shims_for, Shim};
use crate::runner::pull_command;
use crate::text::{extend_strings, push_copy, push_str, strs};

verus! {

/// What went wrong in a command.
#[derive(Debug, Clone, Copy, PartialEq, Eq, Structural)]
pub enum ErrorKind {
    PackageNotFound,
    NoPackagesInstalled,
    VersionExists,
    ActiveVersion,
    VersionNotInstalled,
    PackageMissing,
    VersionNotFound,
    InvalidPackageName,
    AddFailed,
    InvalidConfigPath,
    InvalidConfigKey,
    InvalidConfigValue,
}

/// A command error, with the package and version it concerns.
#[derive(Debug, Clone)]
pub struct CommandError {
    pub kind: ErrorKind,
    pub name: String,
    pub version: String,
}

/// `r` is the error `kind` about `name` and `version`.
pub open spec fn is_error<T>(
    r: Result<T, CommandError>,
    kind: ErrorKind,
    name: Seq<char>,
    version: Seq<char>,
) -> bool {
    r matches Err(e) && e.kind == kind && e.name@ == name && e.version@ == version
}

impl CommandError {
    /// The error `kind` about `name` and `version`.
    pub fn new(kind: ErrorKind, name: &str, version: &str) -> (r: Self)
        ensures
            r.kind == kind,
            r.name@ == name@,
            r.version@ == version@,
    {
        CommandError { kind, name: name.to_owned(), version: version.to_owned() }
    }

    /// The error `kind` about package `name`, with no version.
    pub fn about_package(kind: ErrorKind, name: &str) -> (r: Self)
        ensures
            r.kind == kind,
            r.name@ == name@,
            r.version@ == Seq::<char>::empty(),
    {
        CommandError { kind, name: name.to_owned(), version: String::new() }
    }
}

/// `s` without any occurrence of `v`, order kept.
pub open spec fn without(s: Seq<Seq<char>>, v: Seq<char>) -> Seq<Seq<char>>
    decreases s.len(),
{
    if s.len() == 0 {
        s
    } else if s.last() == v {
        without(s.drop_last(), v)
    } else {
        without(s.drop_last(), v).push(s.last())
    }
}

/// The version state after adding `version`; `None` when it is already
/// installed. A package that had no state gets `version` alone, active.
pub open spec fn added_state(
    installed: Option<VersionState>,
    version: Seq<char>,
    set_default: bool,
) -> Option<VersionState> {
    match installed {
        None => Some(VersionState { versions: seq![version], current: version }),
        Some(s) => if s.versions.contains(version) {
            None
        } else {
            Some(
                VersionState {
                    versions: s.versions.push(version),
                    current: if set_default {
                        version
                    } else {
                        s.current
                    },
                },
            )
        },
    }
}

/// The view of a state that may be absent.
pub open spec fn state_of(installed: Option<PackageVersion>) -> Option<VersionState> {
    match installed {
        Some(s) => Some(s@),
        None => None,
    }
}

/// What removing does to an installed package's state.
pub enum Removal {
    /// All persisted state and every shim of the package go.
    Purge,
    /// The state is kept with these versions.
    Keep(VersionState),
    /// The version is the active one and others remain.
    ActiveVersion,
    /// The version is not installed.
    NotInstalled,
}

/// The outcome of removing `version` (the whole package when `None`) from
/// the state `s`.
pub open spec fn removal(s: VersionState, version: Option<Seq<char>>) -> Removal {
    match version {
        None => Removal::Purge,
        Some(v) => if s.current == v && s.versions.len() > 1 {
            Removal::ActiveVersion
        } else if s.versions.contains(v) {
            if without(s.versions, v).len() == 0 {
                Removal::Purge
            } else {
                Removal::Keep(VersionState { versions: without(s.versions, v), current: s.current })
            }
        } else {
            Removal::NotInstalled
        },
    }
}

/// The version state after making `version` active; `None` when it is not
/// installed.
pub open spec fn used_state(s: VersionState, version: Seq<char>) -> Option<VersionState> {
    if s.versions.contains(version) {
        Some(VersionState { versions: s.versions, current: version })
    } else {
        None
    }
}

/// What to do to add a version: pull `pull_args`, then place `shims`, then
/// persist the state of `package`.
pub struct AddPlan {
    pub package: Package,
    pub pull_args: Vec<String>,
    pub shims: Vec<Shim>,
}

/// What to do to remove.
pub enum RemovePlan {
    /// Delete the package's state and the shims of these file names.
    Purge(Vec<String>),
    /// Persist this state.
    Update(PackageVersion),
}

/// Plans adding `version` of `name`, given its installed state if any and
/// its descriptor. The image to pull is the added version's; with
/// `set_default` (or for a new package) the added version becomes active.
pub fn add_package(
    name: &str,
    version: &str,
    set_default: bool,
    installed: Option<PackageVersion>,
    index: PackageIndex,
) -> (r: Result<AddPlan, CommandError>)
    ensures
        match added_state(
            state_of(installed),
            version@,
            set_default,
        ) {
            None => is_error(r, ErrorKind::VersionExists, name@, version@),
            Some(s) => r matches Ok(plan) && plan.package.name@ == name@ && plan.package.index
                == index && plan.package.versions@ == s && strs(plan.pull_args@) == seq![
                "pull"@,
                index.image.name@ + ":"@ + version@,
            ] && plan.shims@.map_values(|x: Shim| shim_view(x)) == shim_plan(name@, index),
        },
{
    let state = match installed {
        Some(mut s) => {
            if s.has_version(version) {
                return Err(CommandError::new(ErrorKind::VersionExists, name, version));
            }
            let ghost before = s@;
            push_copy(&mut s.versions, version);
            if set_default {
                s.current = version.to_owned();
            }
            assert(s@.versions == before.versions.push(version@));
            s
        },
        None => PackageVersion::new(version),
    };
    let pull_args = pull_command(index.image.name.as_str(), version);
    let shims = shims_for(name, &index);
    Ok(AddPlan { package: Package::new(name, state, index), pull_args, shims })
}

/// Copies `v` without the strings equal to `version`.
fn retain_other(v: &Vec<String>, version: &str) -> (r: Vec<String>)
    ensures
        strs(r@) == without(strs(v@), version@),
{
    let target = version.to_owned();
    let mut r: Vec<String> = Vec::new();
    let mut i: usize = 0;
    while i < v.len()
        invariant
            0 <= i <= v.len(),
            target@ == version@,
            strs(r@) == without(strs(v@.subrange(0, i as int)), version@),
        decreases v.len() - i,
    {
        assert(strs(v@.subrange(0, i + 1)).drop_last() =~= strs(v@.subrange(0, i as int)));
        if v[i] != target {
            push_copy(&mut r, v[i].as_str());
        }
        i = i + 1;
    }
    assert(v@.subrange(0, v.len() as int) =~= v@);
    r
}

/// Plans removing `version` of `name`, or the whole package when `version`
/// is `None`, given the installed package if any. The active version
/// cannot be removed while others remain; removing the last version
/// removes the package with its shims.
pub fn remove_package(name: &str, version: Option<String>, installed: Option<Package>) -> (r: Result<
    RemovePlan,
    CommandError,
>)
    ensures
        match installed {
            None => is_error(r, ErrorKind::PackageMissing, name@, Seq::empty()),
            Some(p) => match removal(
                p.versions@,
                match version {
                    Some(v) => Some(v@),
                    None => None,
                },
            ) {
                Removal::Purge => r matches Ok(RemovePlan::Purge(shims)) && strs(shims@)
                    == shim_names(p.name@, p.index),
                Removal::Keep(s) => r matches Ok(RemovePlan::Update(n)) && n@ == s,
                Removal::ActiveVersion => is_error(
                    r,
                    ErrorKind::ActiveVersion,
                    name@,
                    version.unwrap()@,
                ),
                Removal::NotInstalled => is_error(
                    r,
                    ErrorKind::VersionNotInstalled,
                    name@,
                    version.unwrap()@,
                ),
            },
        },
{
    match installed {
        None => Err(CommandError::about_package(ErrorKind::PackageMissing, name)),
        Some(package) => match version {
            None => Ok(RemovePlan::Purge(shim_names_for(package.name.as_str(), &package.index))),
            Some(version) => {
                if package.versions.current == version && package.versions.versions.len() > 1 {
                    Err(CommandError::new(ErrorKind::ActiveVersion, name, version.as_str()))
                } else if package.versions.has_version(version.as_str()) {
                    let rest = retain_other(&package.versions.versions, version.as_str());
                    if rest.len() == 0 {
                        Ok(RemovePlan::Purge(shim_names_for(package.name.as_str(), &package.index)))
                    } else {
                        let current = package.versions.current;
                        Ok(RemovePlan::Update(PackageVersion { versions: rest, current }))
                    }
                } else {
                    Err(CommandError::new(ErrorKind::VersionNotInstalled, name, version.as_str()))
                }
            },
        },
    }
}

/// Makes `version` the active version of `name`, given its installed state.
pub fn use_package_version(name: &str, version: &str, installed: Option<PackageVersion>) -> (r:
    Result<PackageVersion, CommandError>)
    ensures
        match installed {
            None => is_error(r, ErrorKind::PackageMissing, name@, Seq::empty()),
            Some(s) => match used_state(s@, version@) {
                Some(n) => r matches Ok(p) && p@ == n,
                None => is_error(r, ErrorKind::VersionNotFound, name@, version@),
            },
        },
{
    match installed {
        None => Err(CommandError::about_package(ErrorKind::PackageMissing, name)),
        Some(mut s) => {
            if s.has_version(version) {
                s.current = version.to_owned();
                Ok(s)
            } else {
                Err(CommandError::new(ErrorKind::VersionNotFound, name, version))
            }
        },
    }
}

/// An element of `p.push(e)` is one of `p` or `e`.
proof fn lemma_push_contains(p: Seq<Seq<char>>, e: Seq<char>, x: Seq<char>)
    ensures
        p.push(e).contains(x) <==> (p.contains(x) || e == x),
{
    let q = p.push(e);
    if q.contains(x) {
        let k = choose|k: int| 0 <= k < q.len() && q[k] == x;
        if k < p.len() {
            assert(p[k] == x);
        }
    }
    if p.contains(x) {
        let k = choose|k: int| 0 <= k < p.len() && p[k] == x;
        assert(q[k] == x);
    }
    if e == x {
        assert(q[p.len() as int] == x);
    }
}

/// Removing `v` keeps every other string and drops `v`.
proof fn lemma_without_contains(s: Seq<Seq<char>>, v: Seq<char>, x: Seq<char>)
    ensures
        without(s, v).contains(x) <==> (s.contains(x) && x != v),
    decreases s.len(),
{
    if s.len() > 0 {
        let p = s.drop_last();
        lemma_without_contains(p, v, x);
        assert(s =~= p.push(s.last()));
        lemma_push_contains(p, s.last(), x);
        if s.last() != v {
            lemma_push_contains(without(p, v), s.last(), x);
        }
    }
}

/// Removing a string keeps the others distinct.
proof fn lemma_without_no_duplicates(s: Seq<Seq<char>>, v: Seq<char>)
    requires
        s.no_duplicates(),
    ensures
        without(s, v).no_duplicates(),
    decreases s.len(),
{
    if s.len() > 0 {
        assert(s.drop_last().no_duplicates());
        lemma_without_no_duplicates(s.drop_last(), v);
        if s.last() != v {
            lemma_without_contains(s.drop_last(), v, s.last());
            if s.drop_last().contains(s.last()) {
                let k = choose|k: int| 0 <= k < s.drop_last().len() && s.drop_last()[k] == s.last();
                assert(s[k] == s[s.len() - 1]);
            }
            let w = without(s, v);
            assert forall|i: int, j: int| 0 <= i < w.len() && 0 <= j < w.len() && i != j implies w[i]
                != w[j] by {
                if i == w.len() - 1 {
                    assert(without(s.drop_last(), v).contains(w[j]));
                } else if j == w.len() - 1 {
                    assert(without(s.drop_last(), v).contains(w[i]));
                }
            }
        }
    }
}

/// Every command that changes a version state keeps it well formed: the
/// active version stays installed whenever any version is, and versions
/// stay distinct. This covers adding to an installed or a new package,
/// removing a version (or the package), and switching the active version.
pub proof fn lemma_commands_keep_current_installed(
    s: VersionState,
    version: Seq<char>,
    set_default: bool,
    target: Option<Seq<char>>,
)
    requires
        s.wf(),
    ensures
        added_state(Some(s), version, set_default) matches Some(n) ==> n.wf(),
        added_state(None, version, set_default) matches Some(n) ==> n.wf(),
        removal(s, target) matches Removal::Keep(n) ==> n.wf(),
        used_state(s, version) matches Some(n) ==> n.wf(),
{
    if let Some(n) = added_state(Some(s), version, set_default) {
        assert(n.versions.last() == version);
        if !set_default && s.versions.len() > 0 {
            let k = choose|k: int| 0 <= k < s.versions.len() && s.versions[k] == s.current;
            assert(n.versions[k] == s.current);
        }
        if s.versions.len() == 0 {
            assert(n.versions =~= seq![version]);
        }
        assert forall|i: int, j: int| 0 <= i < n.versions.len() && 0 <= j < n.versions.len() && i
            != j implies n.versions[i] != n.versions[j] by {
            if i == n.versions.len() - 1 {
                assert(s.versions[j] == n.versions[j]);
            } else if j == n.versions.len() - 1 {
                assert(s.versions[i] == n.versions[i]);
            }
        }
    }
    let fresh = added_state(None, version, set_default).unwrap();
    assert(fresh.versions[0] == version);
    if let Removal::Keep(n) = removal(s, target) {
        let v = target.unwrap();
        lemma_without_no_duplicates(s.versions, v);
        lemma_without_contains(s.versions, v, s.current);
        if s.current == v {
            assert(s.versions.len() <= 1);
            assert(s.versions.len() == 1);
            assert(s.versions[0] == v);
            lemma_without_contains(s.versions, v, s.versions[0]);
            assert(without(s.versions.drop_last(), v) =~= Seq::<Seq<char>>::empty());
            assert(without(s.versions, v).len() == 0);
        }
    }
}

/// Removing the only installed version is the same as removing the whole
/// package: its state and all its shims go.
pub proof fn lemma_remove_last_version_purges(s: VersionState, version: Seq<char>)
    requires
        s.versions == seq![version],
    ensures
        removal(s, Some(version)) == removal(s, None),
        removal(s, None) == Removal::Purge,
{
    assert(s.versions[0] == version);
    assert(s.versions.last() == version);
    assert(s.versions.drop_last() =~= Seq::<Seq<char>>::empty());
    assert(without(s.versions.drop_last(), version) == s.versions.drop_last());
    assert(without(s.versions, version).len() == 0);
}

/// Removing the active version while other versions remain is refused;
/// nothing is to be written then.
pub proof fn lemma_remove_active_version_refused(s: VersionState, version: Seq<char>)
    requires
        s.current == version,
        s.versions.len() > 1,
    ensures
        removal(s, Some(version)) == Removal::ActiveVersion,
{
}

/// The first `::` of `s` starting at or after index `k`.
pub open spec fn sep_from(s: Seq<char>, k: int) -> Option<int>
    decreases s.len() - k,
{
    if k < 0 || k + 1 >= s.len() {
        None
    } else if s[k] == ':' && s[k + 1] == ':' {
        Some(k)
    } else {
        sep_from(s, k + 1)
    }
}

/// An invocation key cut at its `::` separators (found left to right,
/// without overlap): a bare package name, or a package and a binary. A key
/// with two or more separators has no reading (`None`).
pub open spec fn parse_key(key: Seq<char>) -> Option<(Seq<char>, Option<Seq<char>>)> {
    match sep_from(key, 0) {
        None => Some((key, None)),
        Some(i) => match sep_from(key, i + 2) {
            None => Some((key.subrange(0, i), Some(key.subrange(i + 2, key.len() as int)))),
            Some(_) => None,
        },
    }
}

/// A separator found from `k` lies at or after `k`, inside `s`.
proof fn lemma_sep_from_bounds(s: Seq<char>, k: int)
    ensures
        sep_from(s, k) matches Some(i) ==> k <= i && i + 1 < s.len() && s[i] == ':' && s[i + 1]
            == ':',
    decreases s.len() - k,
{
    if 0 <= k && k + 1 < s.len() && !(s[k] == ':' && s[k + 1] == ':') {
        lemma_sep_from_bounds(s, k + 1);
    }
}

/// Finds the first `::` of `s` at or after `from`.
fn find_sep(s: &str, from: usize) -> (r: Option<usize>)
    ensures
        match r {
            Some(i) => sep_from(s@, from as int) == Some(i as int),
            None => sep_from(s@, from as int) is None,
        },
{
    let n = s.unicode_len();
    let mut k: usize = from;
    while k < n && n - k >= 2
        invariant
            n == s@.len(),
            from <= k,
            sep_from(s@, from as int) == sep_from(s@, k as int),
        decreases n - k,
    {
        if s.get_char(k) == ':' && s.get_char(k + 1) == ':' {
            return Some(k);
        }
        k = k + 1;
    }
    None
}

/// A run request: the package and optional binary that an invocation key
/// names, and the arguments to pass on.
pub struct RunRequest {
    pub package: String,
    pub binary: Option<String>,
    pub args: Vec<String>,
}

/// Reads the invocation key `name` (`package` or `package::binary`) of a
/// run with arguments `subcommand`. A key with more than one `::` is an
/// invalid package name; no part of a key is dropped.
pub fn run_package(name: &str, subcommand: Vec<String>) -> (r: Result<RunRequest, CommandError>)
    ensures
        match parse_key(name@) {
            Some((p, b)) => r matches Ok(req) && req.package@ == p && match b {
                Some(x) => req.binary matches Some(y) && y@ == x,
                None => req.binary is None,
            } && req.args == subcommand,
            None => is_error(r, ErrorKind::InvalidPackageName, name@, Seq::empty()),
        },
{
    match find_sep(name, 0) {
        None => Ok(RunRequest { package: name.to_owned(), binary: None, args: subcommand }),
        Some(i) => {
            proof {
                lemma_sep_from_bounds(name@, 0);
            }
            let n = name.unicode_len();
            match find_sep(name, i + 2) {
                None => {
                    let package = name.substring_char(0, i).to_owned();
                    let binary = name.substring_char(i + 2, n).to_owned();
                    Ok(RunRequest { package, binary: Some(binary), args: subcommand })
                },
                Some(_) => Err(CommandError::about_package(ErrorKind::InvalidPackageName, name)),
            }
        },
    }
}

/// The text shown for an error.
pub open spec fn message_text(e: CommandError) -> Seq<char> {
    let n = e.name@;
    let v = e.version@;
    match e.kind {
        ErrorKind::PackageNotFound => "Package '"@ + n
            + "' was not found. Add the package first via 'add' command."@,
        ErrorKind::NoPackagesInstalled => "Could not find any packages installed."@,
        ErrorKind::VersionExists => "'"@ + n + "' version "@ + v + " already exists."@,
        ErrorKind::ActiveVersion => "Cannot remove the current active version '"@ + v + "' of '"@
            + n + "'."@,
        ErrorKind::VersionNotInstalled => "Version '"@ + v + "' of '"@ + n + "' does not exists."@,
        ErrorKind::PackageMissing => "Package '"@ + n + "' does not exists."@,
        ErrorKind::VersionNotFound => "Version '"@ + v + "' of package '"@ + n
            + "' not found. Add the version first via 'add' command."@,
        ErrorKind::InvalidPackageName => "Invalid package name '"@ + n + "'."@,
        ErrorKind::AddFailed => "Failed to add package '"@ + n + "' at version '"@ + v + "'."@,
        ErrorKind::InvalidConfigPath => "Invalid configuration path"@,
        ErrorKind::InvalidConfigKey => "Invalid configuration key: "@ + n,
        ErrorKind::InvalidConfigValue => "Invalid value '"@ + v + "' for configuration key: "@ + n,
    }
}

impl CommandError {
    /// The text shown for this error.
    pub fn message(&self) -> (r: String)
        ensures
            r@ == message_text(*self),
    {
        let n = self.name.as_str();
        let v = self.version.as_str();
        let mut r = String::new();
        match self.kind {
            ErrorKind::PackageNotFound => {
                push_str(&mut r, "Package '");
                push_str(&mut r, n);
                push_str(&mut r, "' was not found. Add the package first via 'add' command.");
            },
            ErrorKind::NoPackagesInstalled => {
                push_str(&mut r, "Could not find any packages installed.");
            },
            ErrorKind::VersionExists => {
                push_str(&mut r, "'");
                push_str(&mut r, n);
                push_str(&mut r, "' version ");
                push_str(&mut r, v);
                push_str(&mut r, " already exists.");
            },
            ErrorKind::ActiveVersion => {
                push_str(&mut r, "Cannot remove the current active version '");
                push_str(&mut r, v);
                push_str(&mut r, "' of '");
                push_str(&mut r, n);
                push_str(&mut r, "'.");
            },
            ErrorKind::VersionNotInstalled => {
                push_str(&mut r, "Version '");
                push_str(&mut r, v);
                push_str(&mut r, "' of '");
                push_str(&mut r, n);
                push_str(&mut r, "' does not exists.");
            },
            ErrorKind::PackageMissing => {
                push_str(&mut r, "Package '");
                push_str(&mut r, n);
                push_str(&mut r, "' does not exists.");
            },
            ErrorKind::VersionNotFound => {
                push_str(&mut r, "Version '");
                push_str(&mut r, v);
                push_str(&mut r, "' of package '");
                push_str(&mut r, n);
                push_str(&mut r, "' not found. Add the version first via 'add' command.");
            },
            ErrorKind::InvalidPackageName => {
                push_str(&mut r, "Invalid package name '");
                push_str(&mut r, n);
                push_str(&mut r, "'.");
            },
            ErrorKind::AddFailed => {
                push_str(&mut r, "Failed to add package '");
                push_str(&mut r, n);
                push_str(&mut r, "' at version '");
                push_str(&mut r, v);
                push_str(&mut r, "'.");
            },
            ErrorKind::InvalidConfigPath => {
                push_str(&mut r, "Invalid configuration path");
            },
            ErrorKind::InvalidConfigKey => {
                push_str(&mut r, "Invalid configuration key: ");
                push_str(&mut r, n);
            },
            ErrorKind::InvalidConfigValue => {
                push_str(&mut r, "Invalid value '");
                push_str(&mut r, v);
                push_str(&mut r, "' for configuration key: ");
                push_str(&mut r, n);
            },
        }
        r
    }
}

/// The command error kind of a settings error.
pub open spec fn setting_error_kind(e: SettingError) -> ErrorKind {
    match e {
        SettingError::InvalidPath => ErrorKind::InvalidConfigPath,
        SettingError::InvalidKey => ErrorKind::InvalidConfigKey,
        SettingError::InvalidValue => ErrorKind::InvalidConfigValue,
    }
}

fn setting_error(e: SettingError, path: &str, value: &str) -> (r: CommandError)
    ensures
        r.kind == setting_error_kind(e),
        r.name@ == path@,
        r.version@ == value@,
{
    let kind = match e {
        SettingError::InvalidPath => ErrorKind::InvalidConfigPath,
        SettingError::InvalidKey => ErrorKind::InvalidConfigKey,
        SettingError::InvalidValue => ErrorKind::InvalidConfigValue,
    };
    CommandError::new(kind, path, value)
}

/// Sets the setting at `path` to `value`, or, without a value, returns the
/// text of the setting to show. A failed write leaves `root` as it was.
pub fn configure_setting(root: &mut Root, path: &str, value: Option<String>) -> (r: Result<
    Option<String>,
    CommandError,
>)
    ensures
        match value {
            Some(v) => match write_outcome(*old(root), path@, v@) {
                Ok(n) => r matches Ok(None) && *final(root) == n,
                Err(e) => is_error(r, setting_error_kind(e), path@, v@) && *final(root) == *old(root),
            },
            None => *final(root) == *old(root) && match read_outcome(*old(root), path@) {
                Ok(t) => r matches Ok(Some(s)) && s@ == t,
                Err(e) => is_error(r, setting_error_kind(e), path@, Seq::empty()),
            },
        },
{
    match value {
        Some(v) => match UserConfig::write_config_value(root, path, v.as_str()) {
            Ok(()) => Ok(None),
            Err(e) => Err(setting_error(e, path, v.as_str())),
        },
        None => match UserConfig::read_config_value(root, path) {
            Ok(t) => Ok(Some(t)),
            Err(e) => Err(setting_error(e, path, String::new().as_str())),
        },
    }
}

/// The lines listing `packages`, one block each.
pub open spec fn listing(packages: Seq<Package>, verbose: bool) -> Seq<Seq<char>>
    decreases packages.len(),
{
    if packages.len() == 0 {
        Seq::empty()
    } else {
        listing(packages.drop_last(), verbose) + print_lines(packages.last(), verbose)
    }
}

/// Lists the packages found: those installed, or the one called `name`
/// when it is given. Finding none is an error.
pub fn list_packages(name: Option<&str>, found: &Vec<Package>, verbose: bool) -> (r: Result<
    Vec<String>,
    CommandError,
>)
    ensures
        found@.len() == 0 ==> match name {
            Some(n) => is_error(r, ErrorKind::PackageNotFound, n@, Seq::empty()),
            None => is_error(r, ErrorKind::NoPackagesInstalled, Seq::empty(), Seq::empty()),
        },
        found@.len() > 0 ==> (r matches Ok(lines) && strs(lines@) == listing(found@, verbose)),
{
    if found.len() == 0 {
        return match name {
            Some(n) => Err(CommandError::about_package(ErrorKind::PackageNotFound, n)),
            None => Err(CommandError::about_package(ErrorKind::NoPackagesInstalled, String::new().as_str())),
        };
    }
    let mut lines: Vec<String> = Vec::new();
    let mut i: usize = 0;
    while i < found.len()
        invariant
            0 <= i <= found.len(),
            strs(lines@) == listing(found@.subrange(0, i as int), verbose),
        decreases found.len() - i,
    {
        let block = found[i].print(verbose);
        extend_strings(&mut lines, &block);
        assert(found@.subrange(0, i + 1).drop_last() =~= found@.subrange(0, i as int));
        i = i + 1;
    }
    assert(found@.subrange(0, found.len() as int) =~= found@);
    Ok(lines)
}

/// Reading an invocation key loses nothing: the package and binary it is
/// read as spell the key again, joined by `::`.
pub proof fn lemma_parsed_key_rebuilds_key(key: Seq<char>)
    ensures
        parse_key(key) matches Some((p, b)) ==> invocation_key(p, b) == key,
{
    reveal_strlit("::");
    lemma_sep_from_bounds(key, 0);
    if let Some(i) = sep_from(key, 0) {
        assert(key.subrange(0, i) + "::"@ + key.subrange(i + 2, key.len() as int) =~= key);
    }
}

} // verus!
