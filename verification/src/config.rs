//! Resolution of the base location from which all compatibility shim
//! modules are derived.

use vstd::prelude::*;
use vstd::string::StringExecFns;

verus! {

/// Whether `url::Url::parse` accepts a string as an absolute URL.
pub uninterp spec fn url_parse_ok(s: Seq<char>) -> bool;

/// Relies on url::Url::parse: it returns Ok exactly on the strings it can
/// parse as an absolute URL, and its outcome depends on the input alone.
#[verifier::external_body]
fn url_is_parseable(s: &str) -> (r: bool)
    ensures
        r == url_parse_ok(s@),
{
    url::Url::parse(s).is_ok()
}

/// The pinned default base location for shim modules.
pub open spec fn default_base_location_spec() -> Seq<char> {
    "https://deno.land/std@0.113.0/"@
}

/// The pinned default base location, used whenever no override is given.
pub fn default_base_location() -> (r: &'static str)
    ensures
        r@ == default_base_location_spec(),
{
    "https://deno.land/std@0.113.0/"
}

/// The base location chosen from an optional external override: the
/// override when present, else the pinned default.
pub open spec fn chosen_base_location(override_value: Option<String>) -> Seq<char> {
    match override_value {
        Some(s) => s@,
        None => default_base_location_spec(),
    }
}

/// The location of the global-scope bootstrap shim under a base location.
pub open spec fn global_url_spec(base: Seq<char>) -> Seq<char> {
    base + "node/global.ts"@
}

/// The location of the "module" shim, which carries the CommonJS
/// machinery, under a base location.
pub open spec fn module_url_spec(base: Seq<char>) -> Seq<char> {
    base + "node/module.ts"@
}

/// Why the configuration could not be established.
#[derive(Clone, Copy, PartialEq, Eq, Structural, Debug)]
pub enum ConfigError {
    /// The chosen base location does not yield parseable URLs for the
    /// global and module shims.
    InvalidBaseLocation,
}

/// The resolved process-wide configuration: the single base location from
/// which every shim module location is derived. Computed once at startup
/// and immutable afterwards.
pub struct CompatConfig {
    base: String,
}

impl View for CompatConfig {
    type V = Seq<char>;

    closed spec fn view(&self) -> Seq<char> {
        self.base@
    }
}

impl CompatConfig {
    /// Both shim URLs derived from the base are known to parse.
    pub open spec fn wf(&self) -> bool {
        url_parse_ok(global_url_spec(self@)) && url_parse_ok(module_url_spec(self@))
    }

    /// Resolves the configuration from an optional external override of
    /// the base location. Fails fast when the chosen base does not yield
    /// parseable shim URLs, so that no later step runs on a malformed base.
    pub fn resolve(override_value: Option<String>) -> (r: Result<CompatConfig, ConfigError>)
        ensures
            r is Ok <==> (url_parse_ok(global_url_spec(chosen_base_location(override_value)))
                && url_parse_ok(module_url_spec(chosen_base_location(override_value)))),
            match r {
                Ok(c) => c@ == chosen_base_location(override_value) && c.wf(),
                Err(e) => e == ConfigError::InvalidBaseLocation,
            },
    {
        let base = match override_value {
            Some(s) => s,
            None => String::from_str(default_base_location()),
        };
        let global_url = base.clone().concat("node/global.ts");
        let module_url = base.clone().concat("node/module.ts");
        if url_is_parseable(global_url.as_str()) && url_is_parseable(module_url.as_str()) {
            Ok(CompatConfig { base })
        } else {
            Err(ConfigError::InvalidBaseLocation)
        }
    }

    /// The resolved base location itself.
    pub fn base_location(&self) -> (r: &str)
        ensures
            r@ == self@,
    {
        self.base.as_str()
    }

    /// The URL of the global-scope bootstrap shim.
    pub fn global_url(&self) -> (r: String)
        ensures
            r@ == global_url_spec(self@),
    {
        self.base.clone().concat("node/global.ts")
    }

    /// The URL of the "module" shim.
    pub fn module_url(&self) -> (r: String)
        ensures
            r@ == module_url_spec(self@),
    {
        self.base.clone().concat("node/module.ts")
    }
}

} // verus!
