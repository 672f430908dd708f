use node_compat::config::CompatConfig;
use node_compat::loader::DetectionValue;
use node_compat::loader::LoaderMode;
use node_compat::loader::build_cjs_load_expression;
use node_compat::loader::build_esm_detection_expression;
use node_compat::loader::cjs_load_outcome;
use node_compat::loader::detect_loader_mode;

#[test]
fn engine_true_selects_esm() {
    let r = detect_loader_mode::<String>(Ok(DetectionValue::Boolean(true)));
    assert_eq!(r, Ok(LoaderMode::Esm));
}

#[test]
fn engine_false_selects_cjs() {
    let r = detect_loader_mode::<String>(Ok(DetectionValue::Boolean(false)));
    assert_eq!(r, Ok(LoaderMode::Cjs));
}

#[test]
fn non_boolean_value_falls_back_to_cjs() {
    let r = detect_loader_mode::<String>(Ok(DetectionValue::NotBoolean));
    assert_eq!(r, Ok(LoaderMode::Cjs));
}

#[test]
fn engine_failure_yields_no_mode() {
    let r = detect_loader_mode::<String>(Err("shim threw".to_string()));
    assert_eq!(r, Err("shim threw".to_string()));
}

#[test]
fn cjs_submission_failure_aborts_the_load() {
    let r = cjs_load_outcome::<u32, String>(Err("parse failure".to_string()));
    assert_eq!(r, Err("parse failure".to_string()));
}

#[test]
fn cjs_submission_success_discards_the_handle() {
    let r = cjs_load_outcome::<u32, String>(Ok(17));
    assert_eq!(r, Ok(()));
}

#[test]
fn detection_expression_embeds_the_escaped_path() {
    let config = CompatConfig::resolve(None).expect("default base must resolve");
    let source = build_esm_detection_expression(&config, "/tmp/it's main.js");
    let expected = format!(
        "(async function checkIfEsm(main) {{\n      const {{ resolveMainPath, shouldUseESMLoader }} = await import(\"{}\");\n      const resolvedMain = resolveMainPath(main);\n      const useESMLoader = shouldUseESMLoader(resolvedMain);\n      return useESMLoader;\n    }})('{}');",
        "https://deno.land/std@0.113.0/node/module.ts",
        "/tmp/it\\'s main.js",
    );
    assert_eq!(source, expected);
}

#[test]
fn load_expression_embeds_the_escaped_path() {
    let config = CompatConfig::resolve(Some("https://example.test/std/".to_string()))
        .expect("well-formed override must resolve");
    let source = build_cjs_load_expression(&config, "C:\\apps\\main.js");
    let expected = format!(
        "(async function loadCjsModule(main) {{\n      const Module = await import(\"{}\");\n      Module.default._load(main, null, true);\n    }})('{}');",
        "https://example.test/std/node/module.ts",
        "C:\\\\apps\\\\main.js",
    );
    assert_eq!(source, expected);
}
