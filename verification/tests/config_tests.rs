use node_compat::builtins::try_resolve_builtin_module;
use node_compat::config::CompatConfig;
use node_compat::config::ConfigError;
use node_compat::config::default_base_location;

#[test]
fn default_base_is_the_pinned_release() {
    assert_eq!(default_base_location(), "https://deno.land/std@0.113.0/");
}

#[test]
fn unset_override_yields_the_default_base() {
    let config = CompatConfig::resolve(None).expect("default base must resolve");
    assert_eq!(config.base_location(), "https://deno.land/std@0.113.0/");
    assert_eq!(
        try_resolve_builtin_module(&config, "http").as_deref(),
        Some("https://deno.land/std@0.113.0/node/http.ts")
    );
    assert_eq!(try_resolve_builtin_module(&config, "not-a-module"), None);
}

#[test]
fn set_override_replaces_the_base() {
    let config = CompatConfig::resolve(Some("https://example.test/std/".to_string()))
        .expect("well-formed override must resolve");
    assert_eq!(config.base_location(), "https://example.test/std/");
    assert_eq!(
        try_resolve_builtin_module(&config, "fs").as_deref(),
        Some("https://example.test/std/node/fs.ts")
    );
}

#[test]
fn malformed_override_is_rejected() {
    let result = CompatConfig::resolve(Some("not a url".to_string()));
    assert!(matches!(result, Err(ConfigError::InvalidBaseLocation)));
}

#[test]
fn derived_shim_urls_follow_the_base() {
    let config = CompatConfig::resolve(None).expect("default base must resolve");
    assert_eq!(
        config.global_url(),
        "https://deno.land/std@0.113.0/node/global.ts"
    );
    assert_eq!(
        config.module_url(),
        "https://deno.land/std@0.113.0/node/module.ts"
    );
}
