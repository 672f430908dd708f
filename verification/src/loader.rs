//! The loader-mode decision gate and the CommonJS load invocation: the
//! generated bootstrap expressions, and the decisions taken on what the
//! engine reports back.

use vstd::prelude::*;
use vstd::string::StringExecFns;
use crate::config::CompatConfig;
use crate::config::module_url_spec;
use crate::escape::escape_for_single_quote_string;
use crate::escape::escaped;

verus! {

/// Which loading model an entry module runs under.
#[derive(Clone, Copy, PartialEq, Eq, Structural, Debug)]
pub enum LoaderMode {
    Esm,
    Cjs,
}

/// What the engine's value reader reports for a resolved detection value:
/// a clean boolean, or anything else.
#[derive(Clone, Copy, PartialEq, Eq, Structural, Debug)]
pub enum DetectionValue {
    Boolean(bool),
    NotBoolean,
}

/// The bootstrap expression that asks the "module" shim whether the entry
/// path should load under the ESM loader.
pub open spec fn esm_detection_expression_spec(base: Seq<char>, main_module: Seq<char>) -> Seq<
    char,
> {
    "(async function checkIfEsm(main) {\n      const { resolveMainPath, shouldUseESMLoader } = await import(\""@
        + module_url_spec(base)
        + "\");\n      const resolvedMain = resolveMainPath(main);\n      const useESMLoader = shouldUseESMLoader(resolvedMain);\n      return useESMLoader;\n    })('"@
        + escaped(main_module) + "');"@
}

/// The bootstrap expression that invokes the "module" shim's internal
/// `_load` entry point on the entry path, with no parent module and the
/// is-main-module flag set.
pub open spec fn cjs_load_expression_spec(base: Seq<char>, main_module: Seq<char>) -> Seq<char> {
    "(async function loadCjsModule(main) {\n      const Module = await import(\""@
        + module_url_spec(base) + "\");\n      Module.default._load(main, null, true);\n    })('"@
        + escaped(main_module) + "');"@
}

/// Builds the loader-mode detection expression for `main_module`. The
/// path is escaped before it is spliced into the single-quoted literal, so
/// it can neither end the literal early nor inject further script.
pub fn build_esm_detection_expression(config: &CompatConfig, main_module: &str) -> (r: String)
    ensures
        r@ == esm_detection_expression_spec(config@, main_module@),
{
    let mut source = String::from_str(
        "(async function checkIfEsm(main) {\n      const { resolveMainPath, shouldUseESMLoader } = await import(\"",
    );
    let module_url = config.module_url();
    source.append(module_url.as_str());
    source.append(
        "\");\n      const resolvedMain = resolveMainPath(main);\n      const useESMLoader = shouldUseESMLoader(resolvedMain);\n      return useESMLoader;\n    })('",
    );
    let escaped_main = escape_for_single_quote_string(main_module);
    source.append(escaped_main.as_str());
    source.append("');");
    source
}

/// Builds the CommonJS loading expression for `main_module`, escaping the
/// path exactly as the detection expression does.
pub fn build_cjs_load_expression(config: &CompatConfig, main_module: &str) -> (r: String)
    ensures
        r@ == cjs_load_expression_spec(config@, main_module@),
{
    let mut source = String::from_str(
        "(async function loadCjsModule(main) {\n      const Module = await import(\"",
    );
    let module_url = config.module_url();
    source.append(module_url.as_str());
    source.append("\");\n      Module.default._load(main, null, true);\n    })('");
    let escaped_main = escape_for_single_quote_string(main_module);
    source.append(escaped_main.as_str());
    source.append("');");
    source
}

/// The loader mode implied by a resolved detection value: a clean `true`
/// selects the ESM loader; `false` — and, as a deliberate conservative
/// policy, any non-boolean value — selects the CJS loader.
pub open spec fn mode_of_detection_value(v: DetectionValue) -> LoaderMode {
    if v == DetectionValue::Boolean(true) {
        LoaderMode::Esm
    } else {
        LoaderMode::Cjs
    }
}

/// The decision gate after the engine has (or has not) resolved the
/// detection expression: a resolved value yields a loader mode, and any
/// engine failure is passed through untouched. No mode is ever produced
/// from a failed detection, so a broken run never falls back to the wrong
/// loader.
pub fn detect_loader_mode<E>(outcome: Result<DetectionValue, E>) -> (r: Result<LoaderMode, E>)
    ensures
        r is Ok <==> outcome is Ok,
        match (outcome, r) {
            (Ok(v), Ok(mode)) => mode == mode_of_detection_value(v),
            (Err(e), Err(passed)) => passed == e,
            _ => false,
        },
{
    match outcome {
        Ok(DetectionValue::Boolean(true)) => Ok(LoaderMode::Esm),
        Ok(_) => Ok(LoaderMode::Cjs),
        Err(e) => Err(e),
    }
}

/// The CommonJS load invocation is fire-and-return: the engine's handle
/// for the submitted script is discarded, success is success of the
/// submission alone, and any engine failure is passed through untouched so
/// that the caller aborts the load — there is no fallback loader.
pub fn cjs_load_outcome<T, E>(submission: Result<T, E>) -> (r: Result<(), E>)
    ensures
        r is Ok <==> submission is Ok,
        match (submission, r) {
            (Err(e), Err(passed)) => passed == e,
            _ => true,
        },
{
    match submission {
        Ok(_) => Ok(()),
        Err(e) => Err(e),
    }
}

} // verus!
