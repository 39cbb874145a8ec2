use escheck::rule_exec_env_ffi::Registry;
use escheck::rule_executor::{
    file_module_name, load_failure, next_phase, parse_module_name, scheme_is_file,
    strip_bom, LoadPhase, NetModuleLoader, RuleExecutorError,
};

#[test]
fn resolves_relative_references_against_referrer() {
    let loader = NetModuleLoader;
    let locator = loader
        .resolve("./rules/no-void.js", "file:///project/main.js")
        .unwrap();
    assert_eq!(locator, "file:///project/rules/no-void.js");
    let up = loader
        .resolve("../shared/util.js", "file:///project/rules/no-void.js")
        .unwrap();
    assert_eq!(up, "file:///project/shared/util.js");
}

#[test]
fn resolves_absolute_specifiers_as_themselves() {
    let loader = NetModuleLoader;
    let locator = loader
        .resolve("file:///abs/mod.js", "file:///elsewhere/main.js")
        .unwrap();
    assert_eq!(locator, "file:///abs/mod.js");
}

#[test]
fn bare_specifiers_are_bad_module_names() {
    let loader = NetModuleLoader;
    let err = loader
        .resolve("no-prefix", "file:///project/main.js")
        .unwrap_err();
    assert!(matches!(
        err,
        RuleExecutorError::BadModuleName { module_name, .. } if module_name == "no-prefix"
    ));
}

#[test]
fn unsupported_scheme_fails_and_adds_no_rules() {
    let registry = Registry::new();
    let loader = NetModuleLoader;
    let err = loader
        .prepare("https://example.com/mod.js", b"export {};".to_vec())
        .unwrap_err();
    assert!(matches!(
        err,
        RuleExecutorError::ModuleResolutionError { module_name, .. }
            if module_name == "https://example.com/mod.js"
    ));
    assert_eq!(registry.len(), 0);
}

#[test]
fn file_scheme_is_the_only_supported_scheme() {
    assert!(scheme_is_file("file:///a/b.js"));
    assert!(!scheme_is_file("https://example.com/a.js"));
    assert!(!scheme_is_file("data:text/javascript,1"));
}

#[test]
fn bom_prefixed_source_loads_identically() {
    let plain = b"export const x = 1;".to_vec();
    let mut prefixed = vec![0xef, 0xbb, 0xbf];
    prefixed.extend_from_slice(&plain);

    assert_eq!(strip_bom(prefixed.clone()), plain);
    assert_eq!(strip_bom(plain.clone()), plain);

    let loader = NetModuleLoader;
    let from_prefixed = loader.prepare("file:///m.js", prefixed).unwrap();
    let from_plain = loader.prepare("file:///m.js", plain.clone()).unwrap();
    assert_eq!(from_prefixed.code, from_plain.code);
    assert_eq!(from_prefixed.specifier, from_plain.specifier);
    assert_eq!(from_prefixed.code, plain);
}

#[test]
fn module_names_parse_to_locators() {
    assert_eq!(
        parse_module_name("file:///project/main.js").unwrap(),
        "file:///project/main.js"
    );
    let err = parse_module_name("not a url").unwrap_err();
    assert!(matches!(
        err,
        RuleExecutorError::BadModuleName { module_name, .. } if module_name == "not a url"
    ));
}

#[test]
fn file_module_names_use_the_file_scheme() {
    let name = file_module_name("/project/rules/no-void.js");
    assert_eq!(name, "file:///project/rules/no-void.js");
    assert!(scheme_is_file(&name));
}

#[test]
fn load_phases_follow_the_documented_order() {
    assert_eq!(next_phase(LoadPhase::Fetch), Some(LoadPhase::Evaluate));
    assert_eq!(next_phase(LoadPhase::Evaluate), Some(LoadPhase::Drain));
    assert_eq!(next_phase(LoadPhase::Drain), Some(LoadPhase::Outcome));
    assert_eq!(next_phase(LoadPhase::Outcome), Some(LoadPhase::Namespace));
    assert_eq!(next_phase(LoadPhase::Namespace), None);
}

#[test]
fn fetch_failures_are_resolution_errors() {
    let err = load_failure(
        LoadPhase::Fetch,
        "file:///m.js".to_string(),
        "missing import".to_string(),
    );
    assert!(matches!(
        err,
        RuleExecutorError::ModuleResolutionError { module_name, reason }
            if module_name == "file:///m.js" && reason == "missing import"
    ));
}

#[test]
fn evaluation_failures_are_evaluation_errors() {
    for phase in [
        LoadPhase::Evaluate,
        LoadPhase::Drain,
        LoadPhase::Outcome,
        LoadPhase::Namespace,
    ] {
        let err = load_failure(phase, "file:///m.js".to_string(), "threw".to_string());
        assert!(matches!(err, RuleExecutorError::ModuleEvaluationError { .. }));
    }
}
