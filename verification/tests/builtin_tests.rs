use node_compat::builtins::is_builtin_module;
use node_compat::builtins::try_resolve_builtin_module;
use node_compat::config::CompatConfig;

const SUPPORTED: [&str; 42] = [
    "assert",
    "assert/strict",
    "async_hooks",
    "buffer",
    "child_process",
    "cluster",
    "console",
    "constants",
    "crypto",
    "dgram",
    "dns",
    "domain",
    "events",
    "fs",
    "fs/promises",
    "http",
    "https",
    "module",
    "net",
    "os",
    "path",
    "path/posix",
    "path/win32",
    "perf_hooks",
    "process",
    "querystring",
    "readline",
    "stream",
    "stream/promises",
    "stream/web",
    "string_decoder",
    "sys",
    "timers",
    "timers/promises",
    "tls",
    "tty",
    "url",
    "util",
    "util/types",
    "v8",
    "vm",
    "zlib",
];

#[test]
fn every_supported_name_resolves_under_the_base() {
    let config = CompatConfig::resolve(None).expect("default base must resolve");
    let base = config.base_location().to_string();
    for name in SUPPORTED {
        let location = try_resolve_builtin_module(&config, name)
            .unwrap_or_else(|| panic!("{name} must resolve"));
        assert!(location.starts_with(&base));
        assert!(location.ends_with(&format!("node/{name}.ts")));
        assert_eq!(location, format!("{base}node/{name}.ts"));
    }
}

#[test]
fn unknown_names_do_not_resolve() {
    let config = CompatConfig::resolve(None).expect("default base must resolve");
    for name in [
        "",
        "FS",
        "Fs",
        "f",
        "ssert",
        "fs/prom",
        "fs/promises/extra",
        "node:fs",
        "assert/",
        " http",
        "http ",
    ] {
        assert_eq!(try_resolve_builtin_module(&config, name), None);
        assert!(!is_builtin_module(name));
    }
}

#[test]
fn membership_is_exact_string() {
    assert!(is_builtin_module("fs"));
    assert!(is_builtin_module("assert/strict"));
    assert!(is_builtin_module("v8"));
    assert!(!is_builtin_module("v9"));
}
