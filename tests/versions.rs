use hbox::commands::{
    add_package, list_packages, remove_package, run_package, use_package_version, CommandError,
    ErrorKind, RemovePlan,
};
use hbox::configs::index::{Binary, Package as PackageIndex};
use hbox::configs::version::Package as PackageVersion;
use hbox::packages::Package;

fn s(v: &str) -> String {
    v.to_string()
}

fn state(versions: &[&str], current: &str) -> PackageVersion {
    PackageVersion { versions: versions.iter().map(|v| v.to_string()).collect(), current: s(current) }
}

fn installed(versions: &[&str], current: &str) -> Package {
    let mut index = PackageIndex::new("foo");
    index.binaries = Some(vec![Binary { name: s("bar"), path: s("/bar"), cmd: None, wrap_args: false }]);
    Package::new("foo", state(versions, current), index)
}

#[test]
fn add_new_package_creates_state_and_shim() {
    let plan = add_package("foo", "1.0", false, None, PackageIndex::new("foo")).ok().unwrap();
    assert_eq!(plan.package.versions.versions, vec![s("1.0")]);
    assert_eq!(plan.package.versions.current, "1.0");
    assert_eq!(plan.pull_args, vec![s("pull"), s("docker.io/foo:1.0")]);
    assert_eq!(plan.shims.len(), 1);
    assert_eq!(plan.shims[0].name, "foo");
    assert_eq!(plan.shims[0].command, "foo");
}

#[test]
fn add_version_without_default_keeps_current() {
    let plan = add_package("foo", "2.0", false, Some(state(&["1.0"], "1.0")), PackageIndex::new("foo"))
        .ok()
        .unwrap();
    assert_eq!(plan.package.versions.versions, vec![s("1.0"), s("2.0")]);
    assert_eq!(plan.package.versions.current, "1.0");
    assert_eq!(plan.pull_args, vec![s("pull"), s("docker.io/foo:2.0")]);
}

#[test]
fn add_version_as_default_switches_current() {
    let plan = add_package("foo", "2.0", true, Some(state(&["1.0"], "1.0")), PackageIndex::new("foo"))
        .ok()
        .unwrap();
    assert_eq!(plan.package.versions.current, "2.0");
}

#[test]
fn add_existing_version_fails() {
    let err = add_package("foo", "1.0", false, Some(state(&["1.0"], "1.0")), PackageIndex::new("foo"))
        .err()
        .unwrap();
    assert_eq!(err.kind, ErrorKind::VersionExists);
    assert_eq!(err.message(), "'foo' version 1.0 already exists.");
}

#[test]
fn add_places_binary_shims() {
    let mut index = PackageIndex::new("foo");
    index.only_shim_binaries = true;
    index.binaries = Some(vec![Binary { name: s("bar"), path: s("/bar"), cmd: None, wrap_args: false }]);
    let plan = add_package("foo", "1.0", false, None, index).ok().unwrap();
    assert_eq!(plan.shims.len(), 1);
    assert_eq!(plan.shims[0].name, "bar");
    assert_eq!(plan.shims[0].command, "foo::bar");
}

#[test]
fn remove_last_version_purges_package() {
    let by_version = remove_package("foo", Some(s("1.0")), Some(installed(&["1.0"], "1.0"))).ok().unwrap();
    let whole = remove_package("foo", None, Some(installed(&["1.0"], "1.0"))).ok().unwrap();
    match (by_version, whole) {
        (RemovePlan::Purge(a), RemovePlan::Purge(b)) => {
            assert_eq!(a, vec![s("foo"), s("bar")]);
            assert_eq!(a, b);
        }
        _ => panic!("expected both removals to purge"),
    }
}

#[test]
fn remove_active_version_with_others_fails() {
    let err = remove_package("foo", Some(s("1.0")), Some(installed(&["1.0", "2.0"], "1.0")))
        .err()
        .unwrap();
    assert_eq!(err.kind, ErrorKind::ActiveVersion);
    assert_eq!(err.message(), "Cannot remove the current active version '1.0' of 'foo'.");
}

#[test]
fn remove_other_version_keeps_current() {
    match remove_package("foo", Some(s("2.0")), Some(installed(&["1.0", "2.0"], "1.0"))).ok().unwrap() {
        RemovePlan::Update(st) => {
            assert_eq!(st.versions, vec![s("1.0")]);
            assert_eq!(st.current, "1.0");
        }
        _ => panic!("expected an update"),
    }
}

#[test]
fn remove_unknown_version_or_package_fails() {
    let err = remove_package("foo", Some(s("3.0")), Some(installed(&["1.0"], "1.0"))).err().unwrap();
    assert_eq!(err.message(), "Version '3.0' of 'foo' does not exists.");
    let err = remove_package("foo", None, None).err().unwrap();
    assert_eq!(err.message(), "Package 'foo' does not exists.");
}

#[test]
fn use_version_switches_current() {
    let st = use_package_version("foo", "2.0", Some(state(&["1.0", "2.0"], "1.0"))).ok().unwrap();
    assert_eq!(st.current, "2.0");
    let err = use_package_version("foo", "3.0", Some(state(&["1.0"], "1.0"))).err().unwrap();
    assert_eq!(
        err.message(),
        "Version '3.0' of package 'foo' not found. Add the version first via 'add' command."
    );
    let err = use_package_version("foo", "1.0", None).err().unwrap();
    assert_eq!(err.kind, ErrorKind::PackageMissing);
}

#[test]
fn current_stays_installed_through_commands() {
    let a = add_package("foo", "1.0", false, None, PackageIndex::new("foo")).ok().unwrap();
    let b = add_package("foo", "2.0", true, Some(a.package.versions), PackageIndex::new("foo")).ok().unwrap();
    let c = use_package_version("foo", "1.0", Some(b.package.versions)).ok().unwrap();
    assert!(c.versions.contains(&c.current));
    let pkg = Package::new("foo", c, PackageIndex::new("foo"));
    match remove_package("foo", Some(s("2.0")), Some(pkg)).ok().unwrap() {
        RemovePlan::Update(st) => assert!(st.versions.contains(&st.current)),
        _ => panic!("expected an update"),
    }
}

#[test]
fn invocation_key_parsing() {
    let r = run_package("foo", vec![s("x")]).ok().unwrap();
    assert_eq!(r.package, "foo");
    assert!(r.binary.is_none());
    assert_eq!(r.args, vec![s("x")]);
    let r = run_package("foo::bar", vec![]).ok().unwrap();
    assert_eq!(r.package, "foo");
    assert_eq!(r.binary, Some(s("bar")));
    let err = run_package("foo::bar::baz", vec![]).err().unwrap();
    assert_eq!(err.kind, ErrorKind::InvalidPackageName);
    assert_eq!(err.message(), "Invalid package name 'foo::bar::baz'.");
}

#[test]
fn invocation_key_with_single_colons() {
    let r = run_package("a:b", vec![]).ok().unwrap();
    assert_eq!(r.package, "a:b");
    assert!(r.binary.is_none());
    let r = run_package("a:::b", vec![]).ok().unwrap();
    assert_eq!(r.package, "a");
    assert_eq!(r.binary, Some(s(":b")));
}

#[test]
fn listing_requires_packages() {
    let err = list_packages(Some("foo"), &vec![], false).err().unwrap();
    assert_eq!(err.message(), "Package 'foo' was not found. Add the package first via 'add' command.");
    let err = list_packages(None, &vec![], false).err().unwrap();
    assert_eq!(err.message(), "Could not find any packages installed.");
    let lines = list_packages(None, &vec![installed(&["1.0"], "1.0")], false).ok().unwrap();
    assert_eq!(lines, vec![s("- [foo]"), s("  - versions:"), s("    - 1.0 \u{2714}")]);
}

#[test]
fn add_failure_message() {
    let err = CommandError::new(ErrorKind::AddFailed, "foo", "1.0");
    assert_eq!(err.message(), "Failed to add package 'foo' at version '1.0'.");
}
