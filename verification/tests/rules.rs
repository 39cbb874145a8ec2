use escheck::json::JsonValue;
use escheck::rule::{parse_rule, rule_to_json, RuleError, RuleFixability, RuleId, RuleType, Schema};
use escheck::rule_exec_env_ffi::{op_escheck_rule_new, InnerState, Registry};

fn s(text: &str) -> JsonValue {
    JsonValue::Str(text.to_string())
}

fn obj(fields: Vec<(&str, JsonValue)>) -> JsonValue {
    JsonValue::Obj(
        fields.into_iter().map(|(k, v)| (k.to_string(), v)).collect(),
    )
}

fn no_void_value() -> JsonValue {
    obj(vec![
        ("name", s("no-void")),
        (
            "meta",
            obj(vec![
                ("type", s("problem")),
                (
                    "docs",
                    obj(vec![
                        ("description", s("disallow void")),
                        ("recommended", JsonValue::Bool(true)),
                        ("url", s("https://example.com/no-void")),
                    ]),
                ),
            ]),
        ),
    ])
}

#[test]
fn parses_no_void() {
    let rule = parse_rule(&no_void_value()).unwrap();
    assert_eq!(rule.name, "no-void");
    assert!(matches!(rule.meta.kind, RuleType::Problem));
    let docs = rule.meta.docs.as_ref().unwrap();
    assert_eq!(docs.description, "disallow void");
    assert!(docs.recommended);
    assert_eq!(docs.url.as_deref(), Some("https://example.com/no-void"));
    assert!(rule.meta.fixable.is_none());
    assert!(!rule.meta.has_suggestions);
    assert!(!rule.meta.deprecated);
    assert!(rule.meta.schema.is_empty());
    assert!(rule.meta.replaced_by.is_empty());
}

#[test]
fn registration_yields_one_no_void_entry() {
    let mut state = InnerState::new(Registry::new());
    op_escheck_rule_new(&mut state, &no_void_value()).unwrap();
    let entries = state.rule_map.iterate();
    assert_eq!(entries.len(), 1);
    let rule = &entries[0].1;
    assert_eq!(rule.name, "no-void");
    assert!(matches!(rule.meta.kind, RuleType::Problem));
    let docs = rule.meta.docs.as_ref().unwrap();
    assert_eq!(docs.description, "disallow void");
    assert!(docs.recommended);
}

#[test]
fn round_trip_preserves_every_field() {
    let value = obj(vec![
        ("name", s("full-rule")),
        (
            "meta",
            obj(vec![
                ("type", s("suggestion")),
                (
                    "docs",
                    obj(vec![
                        ("description", s("checks things")),
                        ("recommended", JsonValue::Bool(false)),
                        ("url", s("https://example.com/full")),
                    ]),
                ),
                ("fixable", s("Whitespace")),
                ("hasSuggestions", JsonValue::Bool(true)),
                ("deprecated", JsonValue::Bool(true)),
                (
                    "schema",
                    JsonValue::Arr(vec![obj(vec![("type", s("object"))])]),
                ),
                ("replacedBy", JsonValue::Arr(vec![s("other-rule")])),
            ]),
        ),
    ]);
    let first = parse_rule(&value).unwrap();
    let written = rule_to_json(&first);
    let second = parse_rule(&written).unwrap();
    assert_eq!(first.name, second.name);
    assert!(matches!(second.meta.kind, RuleType::Suggestion));
    assert!(matches!(second.meta.fixable, Some(RuleFixability::Whitespace)));
    assert_eq!(first.meta.has_suggestions, second.meta.has_suggestions);
    assert_eq!(first.meta.deprecated, second.meta.deprecated);
    let d1 = first.meta.docs.as_ref().unwrap();
    let d2 = second.meta.docs.as_ref().unwrap();
    assert_eq!(d1.description, d2.description);
    assert_eq!(d1.recommended, d2.recommended);
    assert_eq!(d1.url, d2.url);
    assert_eq!(first.meta.schema.len(), second.meta.schema.len());
    assert_eq!(
        first.meta.schema[0].raw_document(),
        second.meta.schema[0].raw_document()
    );
    assert_eq!(first.meta.replaced_by[0].0, second.meta.replaced_by[0].0);
    // writing the reparsed rule again yields the identical value
    assert_eq!(written, rule_to_json(&second));
}

#[test]
fn generated_identifiers_are_distinct() {
    let mut seen = std::collections::HashSet::new();
    for _ in 0..10_000 {
        assert!(seen.insert(RuleId::next()));
    }
    assert_eq!(seen.len(), 10_000);
}

#[test]
fn registering_k_rules_grows_registry_by_k() {
    let mut state = InnerState::new(Registry::new());
    assert_eq!(state.rule_map.len(), 0);
    for k in 1..=5usize {
        let value = obj(vec![
            ("name", s(&format!("rule-{}", k))),
            ("meta", obj(vec![("type", s("layout"))])),
        ]);
        op_escheck_rule_new(&mut state, &value).unwrap();
        assert_eq!(state.rule_map.len(), k);
    }
}

#[test]
fn invalid_schema_fails_and_leaves_earlier_rules() {
    let mut state = InnerState::new(Registry::new());
    let good = obj(vec![
        ("name", s("good-rule")),
        (
            "meta",
            obj(vec![
                ("type", s("problem")),
                (
                    "schema",
                    JsonValue::Arr(vec![obj(vec![("type", s("object"))])]),
                ),
            ]),
        ),
    ]);
    op_escheck_rule_new(&mut state, &good).unwrap();
    assert_eq!(state.rule_map.len(), 1);

    // "type" must be a type name or a list of them, so this entry is not
    // a valid JSON Schema document
    let bad = obj(vec![
        ("name", s("bad-rule")),
        (
            "meta",
            obj(vec![
                ("type", s("problem")),
                (
                    "schema",
                    JsonValue::Arr(vec![obj(vec![(
                        "type",
                        JsonValue::Num("123".to_string()),
                    )])]),
                ),
            ]),
        ),
    ]);
    let err = op_escheck_rule_new(&mut state, &bad).unwrap_err();
    assert!(matches!(err, RuleError::InvalidSchema(_)));
    assert_eq!(state.rule_map.len(), 1);
    let entries = state.rule_map.iterate();
    assert_eq!(entries[0].1.name, "good-rule");
}

#[test]
fn missing_type_is_malformed() {
    let value = obj(vec![("name", s("x")), ("meta", obj(vec![]))]);
    assert!(matches!(parse_rule(&value).unwrap_err(), RuleError::Malformed));
}

#[test]
fn missing_name_is_malformed() {
    let value = obj(vec![("meta", obj(vec![("type", s("problem"))]))]);
    assert!(matches!(parse_rule(&value).unwrap_err(), RuleError::Malformed));
}

#[test]
fn unknown_kind_is_malformed() {
    let value = obj(vec![
        ("name", s("x")),
        ("meta", obj(vec![("type", s("mystery"))])),
    ]);
    assert!(matches!(parse_rule(&value).unwrap_err(), RuleError::Malformed));
}

#[test]
fn invalid_documentation_url_is_malformed() {
    let value = obj(vec![
        ("name", s("x")),
        (
            "meta",
            obj(vec![
                ("type", s("problem")),
                ("docs", obj(vec![("url", s("not an absolute url"))])),
            ]),
        ),
    ]);
    assert!(matches!(parse_rule(&value).unwrap_err(), RuleError::Malformed));
}

#[test]
fn defaults_fill_absent_fields() {
    let value = obj(vec![
        ("name", s("bare")),
        ("meta", obj(vec![("type", s("suggestion"))])),
    ]);
    let rule = parse_rule(&value).unwrap();
    assert!(rule.meta.docs.is_none());
    assert!(rule.meta.fixable.is_none());
    assert!(!rule.meta.has_suggestions);
    assert!(!rule.meta.deprecated);
    assert!(rule.meta.schema.is_empty());
    assert!(rule.meta.replaced_by.is_empty());
}

#[test]
fn unknown_fields_are_ignored() {
    let value = obj(vec![
        ("name", s("extra")),
        ("somethingElse", JsonValue::Bool(true)),
        ("meta", obj(vec![("type", s("problem")), ("custom", s("x"))])),
    ]);
    let rule = parse_rule(&value).unwrap();
    assert_eq!(rule.name, "extra");
}

#[test]
fn schema_validates_conforming_instances_only() {
    let doc = obj(vec![
        ("type", s("object")),
        (
            "properties",
            obj(vec![("allow", obj(vec![("type", s("array"))]))]),
        ),
    ]);
    let schema = Schema::new(doc).unwrap();
    let conforming = obj(vec![("allow", JsonValue::Arr(vec![]))]);
    let violating = obj(vec![("allow", s("x"))]);
    assert!(schema.is_valid(&conforming));
    assert!(!schema.is_valid(&violating));
}

#[test]
fn schema_sees_escaped_strings_and_numbers_exactly() {
    // a constant containing a quote, a backslash, and a control character
    let tricky = "a\"b\\c\u{0001}";
    let doc = obj(vec![("const", s(tricky))]);
    let schema = Schema::new(doc).unwrap();
    assert!(schema.is_valid(&s(tricky)));
    assert!(!schema.is_valid(&s("a")));

    let numeric = obj(vec![("minimum", JsonValue::Num("3".to_string()))]);
    let bound = Schema::new(numeric).unwrap();
    assert!(bound.is_valid(&JsonValue::Num("5".to_string())));
    assert!(!bound.is_valid(&JsonValue::Num("2".to_string())));
}

#[test]
fn schema_compile_rejects_bad_documents() {
    let bad = obj(vec![("type", JsonValue::Num("123".to_string()))]);
    assert!(matches!(
        Schema::new(bad).unwrap_err(),
        RuleError::InvalidSchema(_)
    ));
    let good = obj(vec![("type", s("string"))]);
    assert!(Schema::compile(&good).is_ok());
}

#[test]
fn documentation_urls_are_normalized() {
    let value = obj(vec![
        ("name", s("norm")),
        (
            "meta",
            obj(vec![
                ("type", s("problem")),
                ("docs", obj(vec![("url", s("HTTPS://EXAMPLE.com/Path"))])),
            ]),
        ),
    ]);
    let rule = parse_rule(&value).unwrap();
    let docs = rule.meta.docs.as_ref().unwrap();
    assert_eq!(docs.url.as_deref(), Some("https://example.com/Path"));
}

#[test]
fn duplicating_a_schema_keeps_its_document_and_verdicts() {
    let doc = obj(vec![("type", s("array"))]);
    let schema = Schema::new(doc).unwrap();
    let copy = schema.clone();
    assert_eq!(schema.raw_document(), copy.raw_document());
    let instance = JsonValue::Arr(vec![]);
    assert_eq!(schema.is_valid(&instance), copy.is_valid(&instance));
    assert!(copy.is_valid(&instance));
    assert!(!copy.is_valid(&s("not an array")));
}
