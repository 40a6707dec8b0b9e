use hbox::configs::index::{Binary, EnvironmentVariable, Package as PackageIndex, Port, Volume};
use hbox::configs::user::Root;
use hbox::configs::version::Package as PackageVersion;
use hbox::packages::Package;
use hbox::runner::{
    build_run_args, container_name, expand_environment_values, expand_mount_sources,
    generate_random_name, get_binary, get_stdio, pull, should_wrap_args, value_or_empty,
    StreamMode,
};

fn s(v: &str) -> String {
    v.to_string()
}

fn strings(v: &[&str]) -> Vec<String> {
    v.iter().map(|x| x.to_string()).collect()
}

fn package_with(index: PackageIndex) -> Package {
    Package::new("foo", PackageVersion::new("1.0"), index)
}

fn binary(name: &str, path: &str, cmd: Option<Vec<String>>, wrap_args: bool) -> Binary {
    Binary { name: s(name), path: s(path), cmd, wrap_args }
}

#[test]
fn wrap_args_joins_and_escapes_quotes() {
    let mut index = PackageIndex::new("foo");
    index.binaries = Some(vec![binary("sh", "/bin/sh", None, true)]);
    let package = package_with(index);
    let params = strings(&["a", "b \"c\""]);
    let args = build_run_args(&package, &Some(s("sh")), &params, false, "n", &vec![], &vec![]);
    assert_eq!(
        args,
        strings(&[
            "run", "--rm", "--name", "n", "-it", "--entrypoint", "/bin/sh", "docker.io/foo:1.0",
            "a b \\\"c\\\"",
        ])
    );
}

#[test]
fn without_wrap_args_each_argument_is_a_token() {
    let package = package_with(PackageIndex::new("foo"));
    let params = strings(&["a", "b \"c\""]);
    let args = build_run_args(&package, &None, &params, false, "n", &vec![], &vec![]);
    assert_eq!(&args[args.len() - 2..], &strings(&["a", "b \"c\""])[..]);
}

#[test]
fn full_command_line_order() {
    let mut index = PackageIndex::new("foo");
    index.volumes = Some(vec![Volume { source: s("/src"), target: s("/dst") }]);
    index.current_directory = Some(s("/work"));
    index.environment_variables =
        Some(vec![EnvironmentVariable { name: s("K"), value: s("v") }]);
    index.binaries = Some(vec![binary("tool", "/usr/bin/tool", Some(strings(&["sub", "-x"])), false)]);
    let package = package_with(index);
    let args = build_run_args(
        &package,
        &Some(s("tool")),
        &strings(&["arg1", "arg2"]),
        true,
        "hbox-foo-1.0-abc",
        &vec![Some(s("/src"))],
        &strings(&["v"]),
    );
    assert_eq!(
        args,
        strings(&[
            "run", "--rm", "--name", "hbox-foo-1.0-abc", "-i", "-v", "/src:/dst", "-w", "/work",
            "-e", "K=v", "--entrypoint", "/usr/bin/tool", "docker.io/foo:1.0", "sub", "-x",
            "arg1", "arg2",
        ])
    );
}

#[test]
fn terminal_input_requests_tty() {
    let package = package_with(PackageIndex::new("foo"));
    let args = build_run_args(&package, &None, &vec![], false, "n", &vec![], &vec![]);
    assert_eq!(args, strings(&["run", "--rm", "--name", "n", "-it", "docker.io/foo:1.0"]));
}

#[test]
fn missing_mount_is_skipped_and_others_keep_order() {
    let mut index = PackageIndex::new("foo");
    index.volumes = Some(vec![
        Volume { source: s("/a"), target: s("/x") },
        Volume { source: s("/missing"), target: s("/y") },
        Volume { source: s("/c"), target: s("/z") },
    ]);
    let package = package_with(index);
    let mounts = vec![Some(s("/a")), None, Some(s("/c"))];
    let args = build_run_args(&package, &None, &vec![], true, "n", &mounts, &vec![]);
    assert_eq!(
        args,
        strings(&[
            "run", "--rm", "--name", "n", "-i", "-v", "/a:/x", "-v", "/c:/z", "docker.io/foo:1.0",
        ])
    );
}

#[test]
fn unknown_binary_falls_back_to_default_entrypoint() {
    let mut index = PackageIndex::new("foo");
    index.binaries = Some(vec![binary("tool", "/t", None, true)]);
    let package = package_with(index);
    assert!(get_binary(&package, &Some(s("other"))).is_none());
    assert!(!should_wrap_args(get_binary(&package, &Some(s("other")))));
    assert_eq!(get_binary(&package, &Some(s("tool"))).unwrap().path, "/t");
    let args = build_run_args(&package, &Some(s("other")), &strings(&["a"]), true, "n", &vec![], &vec![]);
    assert!(!args.contains(&s("--entrypoint")));
    assert_eq!(args.last().unwrap(), "a");
}

#[test]
fn first_binary_of_a_name_is_selected() {
    let mut index = PackageIndex::new("foo");
    index.binaries = Some(vec![binary("t", "/first", None, false), binary("t", "/second", None, false)]);
    let package = package_with(index);
    assert_eq!(get_binary(&package, &Some(s("t"))).unwrap().path, "/first");
}

#[test]
fn pull_uses_active_version() {
    let package = package_with(PackageIndex::new("foo"));
    assert_eq!(pull(&package), strings(&["pull", "docker.io/foo:1.0"]));
}

#[test]
fn container_name_format() {
    let package = package_with(PackageIndex::new("foo"));
    assert_eq!(container_name(&package, "abc"), "hbox-foo-1.0-abc");
    let name = generate_random_name(&package);
    assert!(name.starts_with("hbox-foo-1.0-"));
    let suffix = &name["hbox-foo-1.0-".len()..];
    assert_eq!(suffix.len(), 10);
    assert!(suffix.chars().all(|c| c.is_ascii_alphanumeric()));
}

#[test]
fn plain_sources_and_values_are_not_expanded() {
    let mut index = PackageIndex::new("foo");
    index.volumes = Some(vec![Volume { source: s("/plain/path"), target: s("/t") }]);
    index.environment_variables =
        Some(vec![EnvironmentVariable { name: s("A"), value: s("plain") }]);
    let package = package_with(index);
    assert_eq!(expand_mount_sources(&package), vec![Some(s("/plain/path"))]);
    assert_eq!(expand_environment_values(&package), strings(&["plain"]));
}

#[test]
fn variable_default_is_expanded() {
    let mut index = PackageIndex::new("foo");
    index.environment_variables = Some(vec![EnvironmentVariable {
        name: s("A"),
        value: s("x-${HBOX_VARIABLE_NOT_SET_ANYWHERE:-fallback}"),
    }]);
    let package = package_with(index);
    assert_eq!(expand_environment_values(&package), strings(&["x-fallback"]));
}

#[test]
fn volumes_without_a_mount_entry_are_skipped() {
    let mut index = PackageIndex::new("foo");
    index.volumes = Some(vec![
        Volume { source: s("/a"), target: s("/x") },
        Volume { source: s("/b"), target: s("/y") },
    ]);
    index.environment_variables =
        Some(vec![EnvironmentVariable { name: s("K"), value: s("v") }]);
    let package = package_with(index);
    let args = build_run_args(&package, &None, &vec![], true, "n", &vec![Some(s("/a"))], &vec![]);
    assert_eq!(
        args,
        strings(&["run", "--rm", "--name", "n", "-i", "-v", "/a:/x", "-e", "K=", "docker.io/foo:1.0"])
    );
}

#[test]
fn tilde_source_is_expanded() {
    let mut index = PackageIndex::new("foo");
    index.volumes = Some(vec![Volume { source: s("~/data"), target: s("/t") }]);
    let package = package_with(index);
    let sources = expand_mount_sources(&package);
    assert_eq!(sources.len(), 1);
    if let Some(src) = &sources[0] {
        assert!(src.ends_with("/data"));
    }
}

#[test]
fn capture_disabled_inherits_output() {
    let config = Root::default();
    let plan = get_stdio(&config, &None);
    assert_eq!(plan.stdin, StreamMode::Inherit);
    assert_eq!(plan.stdout, StreamMode::Inherit);
    assert_eq!(plan.stderr, StreamMode::Inherit);
    let plan = get_stdio(&config, &Some(vec![]));
    assert_eq!(plan.stdin, StreamMode::Inherit);
}

#[test]
fn capture_enabled_pipes_output_and_input() {
    let mut config = Root::default();
    config.experimental.capture_stdout = true;
    let plan = get_stdio(&config, &Some(vec![1, 2]));
    assert_eq!(plan.stdin, StreamMode::Piped);
    assert_eq!(plan.stdout, StreamMode::Piped);
    assert_eq!(plan.stderr, StreamMode::Inherit);
}

#[test]
fn print_lists_descriptor_and_versions() {
    let mut index = PackageIndex::new("foo");
    index.ports = Some(vec![Port { host: 8080, container: 80 }]);
    index.binaries = Some(vec![binary("b", "/bin/b", None, false)]);
    let mut versions = PackageVersion::new("1.0");
    versions.versions.push(s("2.0"));
    let package = Package::new("foo", versions, index);
    assert_eq!(package.print(false), strings(&["- [foo]", "  - versions:", "    - 1.0 \u{2714}", "    - 2.0"]));
    assert_eq!(
        package.print(true),
        strings(&[
            "- [foo]",
            "  - image: docker.io/foo",
            "  - ports:",
            "    - 8080:80",
            "  - binaries:",
            "    - b -> /bin/b",
            "  - only_shim_binaries: false",
            "  - versions:",
            "    - 1.0 \u{2714}",
            "    - 2.0",
        ])
    );
}

#[test]
fn failed_expansion_becomes_empty() {
    assert_eq!(value_or_empty(None), "");
    assert_eq!(value_or_empty(Some(s("x"))), "x");
}
