use hbox::commands::{configure_setting, ErrorKind};
use hbox::configs::app::AppConfig;
use hbox::configs::context::Context;
use hbox::configs::index::{IndexConfig, Package as PackageIndex};
use hbox::configs::user::{Engine, Level, LevelFilter, Root, Strategy, UserConfig};
use hbox::configs::version::{Package as PackageVersion, VersionConfig};
use hbox::packages::Package;
use hbox::shims::{get_shims_path, shim_command, shim_script};

fn s(v: &str) -> String {
    v.to_string()
}

#[test]
fn read_settings() {
    let mut root = Root::default();
    assert_eq!(configure_setting(&mut root, "logs.level", None).ok().unwrap(), Some(s("\"info\"")));
    assert_eq!(configure_setting(&mut root, "engine", None).ok().unwrap(), Some(s("\"docker\"")));
    assert_eq!(
        configure_setting(&mut root, "experimental.capture_stdout", None).ok().unwrap(),
        Some(s("false"))
    );
    assert_eq!(
        configure_setting(&mut root, "logs", None).ok().unwrap(),
        Some(s("{\n  \"enabled\": false,\n  \"level\": \"info\",\n  \"strategy\": \"append\"\n}"))
    );
    assert_eq!(
        UserConfig::read_config_value(&root, "experimental").ok().unwrap(),
        "{\n  \"capture_stderr\": false,\n  \"capture_stdout\": false\n}"
    );
}

#[test]
fn write_settings() {
    let mut root = Root::default();
    assert!(configure_setting(&mut root, "engine", Some(s("podman"))).ok().unwrap().is_none());
    assert_eq!(root.engine, Engine::Podman);
    configure_setting(&mut root, "logs.level", Some(s("debug"))).ok().unwrap();
    assert_eq!(root.logs.level, Level::Debug);
    configure_setting(&mut root, "logs.strategy", Some(s("truncate"))).ok().unwrap();
    assert_eq!(root.logs.strategy, Strategy::Truncate);
    configure_setting(&mut root, "experimental.capture_stderr", Some(s("true"))).ok().unwrap();
    assert!(root.experimental.capture_stderr);
}

#[test]
fn setting_errors() {
    let mut root = Root::default();
    let err = configure_setting(&mut root, "foo.bar", Some(s("1"))).err().unwrap();
    assert_eq!(err.kind, ErrorKind::InvalidConfigPath);
    assert_eq!(err.message(), "Invalid configuration path");
    let err = configure_setting(&mut root, "logs.foo", None).err().unwrap();
    assert_eq!(err.message(), "Invalid configuration key: logs.foo");
    let err = configure_setting(&mut root, "logs.enabled", Some(s("TRUE"))).err().unwrap();
    assert_eq!(err.kind, ErrorKind::InvalidConfigValue);
    let err = configure_setting(&mut root, "engine", Some(s("lxc"))).err().unwrap();
    assert_eq!(err.message(), "Invalid value 'lxc' for configuration key: engine");
    let err = configure_setting(&mut root, "engine.x", Some(s("a"))).err().unwrap();
    assert_eq!(err.kind, ErrorKind::InvalidConfigPath);
    let err = configure_setting(&mut root, "logs", Some(s("a"))).err().unwrap();
    assert_eq!(err.kind, ErrorKind::InvalidConfigValue);
    let err = configure_setting(&mut root, "", None).err().unwrap();
    assert_eq!(err.kind, ErrorKind::InvalidConfigKey);
    assert_eq!(root, Root::default());
}

#[test]
fn levels_and_engines() {
    assert_eq!(Engine::Docker.as_str(), "docker");
    assert_eq!(Engine::Podman.as_str(), "podman");
    assert_eq!(Level::Error.to_level_filter(), LevelFilter::Info);
    assert_eq!(Level::Trace.to_level_filter(), LevelFilter::Trace);
    assert_eq!(UserConfig::load(None), Root::default());
}

#[test]
fn application_paths() {
    let config = AppConfig::load(None);
    assert_eq!(config.base_dir, "~/.hbox");
    assert_eq!(config.config_file_path(), "~/.hbox/config.json");
    assert_eq!(config.index_path(), "~/.hbox/index");
    assert_eq!(config.overrides_path(), "~/.hbox/overrides");
    assert_eq!(config.versions_path(), "~/.hbox/versions");
    assert_eq!(config.shims_path(), "~/.hbox/shims");
    assert_eq!(config.logs_path(), "~/.hbox/logs");
    let config = AppConfig::load(Some(s("/opt/h/")));
    assert_eq!(config.shims_path(), "/opt/h/shims");
    assert_eq!(VersionConfig::version_file("/v", "foo"), "/v/foo.json");
}

#[test]
fn descriptor_layers() {
    let mut over = PackageIndex::new("over");
    over.only_shim_binaries = true;
    let base = PackageIndex::new("base");
    let chosen = IndexConfig::load("foo", Some(over), Some(base.clone()));
    assert!(chosen.only_shim_binaries);
    assert_eq!(IndexConfig::load("foo", None, Some(base)).image.name, "docker.io/base");
    let fallback = IndexConfig::load("foo", None, None);
    assert_eq!(fallback.image.name, "docker.io/foo");
    assert!(!fallback.image.is_local());
    assert!(fallback.binaries.is_none());
}

#[test]
fn descriptor_files() {
    assert_eq!(IndexConfig::index_file("/idx", "Foo"), "/idx/f/Foo.json");
    assert_eq!(IndexConfig::shard_dir("Ünix"), "ü");
    assert_eq!(IndexConfig::override_file("/ov", "foo"), "/ov/foo.json");
}

#[test]
fn shim_contents() {
    assert_eq!(shim_command("foo", None), "foo");
    assert_eq!(shim_command("foo", Some("bar")), "foo::bar");
    assert_eq!(shim_script("foo::bar", false), "#!/bin/sh\nhbox run foo::bar \"$@\"\n");
    assert_eq!(shim_script("foo", true), "@echo off\nhbox.exe run foo %*\n");
    assert_eq!(get_shims_path("/s", "foo", true), "/s/foo.bat");
    assert_eq!(get_shims_path("/s", "foo", false), "/s/foo");
}

#[test]
fn context_placeholders() {
    let package = Package::new("foo", PackageVersion::new("1.2"), PackageIndex::new("foo"));
    let ctx = Context::from(&package);
    assert_eq!(
        ctx.apply(s("/data/${hbox_package_name}/${hbox_package_version}/${hbox_package_name}")),
        "/data/foo/1.2/foo"
    );
}
