use tsconfig::paths::normalize_path;
use tsconfig::{
    merge, normalize, parse_to_value, ConfigError, JsonValue, Lib, Module, ModuleResolutionMode,
    References, Resolution, ResolveStep, Target, TsConfig, TypeAcquisition,
};

fn s(t: &str) -> String {
    t.to_string()
}

fn obj(entries: Vec<(&str, JsonValue)>) -> JsonValue {
    JsonValue::Object(entries.into_iter().map(|(k, v)| (s(k), v)).collect())
}

fn num(t: &str) -> JsonValue {
    JsonValue::Number(s(t))
}

fn lookup<'a>(v: &'a JsonValue, k: &str) -> Option<&'a JsonValue> {
    match v {
        JsonValue::Object(es) => es.iter().find(|(key, _)| key == k).map(|(_, v)| v),
        _ => None,
    }
}

fn number_text(v: Option<&JsonValue>) -> Option<String> {
    match v {
        Some(JsonValue::Number(t)) => Some(t.clone()),
        _ => None,
    }
}

/// Runs a resolution over in-memory files.
fn resolve(start: &str, files: &[(&str, &str)]) -> Result<JsonValue, ConfigError> {
    let mut r = Resolution::new(start);
    let mut text = files.iter().find(|(p, _)| *p == start).map(|(_, t)| *t);
    loop {
        let t = match text {
            Some(t) => t,
            None => return Err(ConfigError::CouldNotFindFile(r.pending_path().clone())),
        };
        match r.feed(t) {
            ResolveStep::Read(p) => {
                text = files.iter().find(|(q, _)| *q == p.as_str()).map(|(_, t)| *t);
            }
            ResolveStep::Done(v) => return Ok(v),
            ResolveStep::Failed(e) => return Err(e),
        }
    }
}

#[test]
fn merge_is_recursive_and_right_biased() {
    let base = obj(vec![("a", obj(vec![("x", num("1")), ("y", num("2"))]))]);
    let over = obj(vec![("a", obj(vec![("y", num("3")), ("z", num("4"))]))]);
    let m = merge(base, over);
    let a = lookup(&m, "a").unwrap();
    assert_eq!(number_text(lookup(a, "x")), Some(s("1")));
    assert_eq!(number_text(lookup(a, "y")), Some(s("3")));
    assert_eq!(number_text(lookup(a, "z")), Some(s("4")));
    match a {
        JsonValue::Object(es) => assert_eq!(es.len(), 3),
        _ => panic!("not an object"),
    }
}

#[test]
fn merge_replaces_object_with_array() {
    let base = obj(vec![("a", obj(vec![("x", num("1"))]))]);
    let over = obj(vec![("a", JsonValue::Array(vec![num("1"), num("2")]))]);
    let m = merge(base, over);
    match lookup(&m, "a") {
        Some(JsonValue::Array(items)) => {
            assert_eq!(items.len(), 2);
            assert_eq!(number_text(items.get(0)), Some(s("1")));
            assert_eq!(number_text(items.get(1)), Some(s("2")));
        }
        _ => panic!("expected the array"),
    }
}

#[test]
fn merge_with_empty_object_keeps_base() {
    let base = obj(vec![("k", JsonValue::Bool(true))]);
    let m = merge(base, obj(vec![]));
    assert!(matches!(lookup(&m, "k"), Some(JsonValue::Bool(true))));
}

#[test]
fn normalize_keeps_comment_text_in_strings() {
    let raw = r#"{"a": "// not a comment /* nor this */", /* gone */ "b": 1 // gone
}"#;
    let n = normalize(raw).unwrap();
    assert!(n.contains(r#""// not a comment /* nor this */""#));
    assert!(!n.contains("gone"));
    let v = parse_to_value(raw).unwrap();
    match lookup(&v, "a") {
        Some(JsonValue::String(t)) => assert_eq!(t, "// not a comment /* nor this */"),
        _ => panic!("expected a string"),
    }
}

#[test]
fn normalize_blanks_comments_keeping_length() {
    assert_eq!(normalize("{/* c */}").unwrap(), "{       }");
    assert_eq!(normalize("[1] # note").unwrap(), "[1]       ");
}

#[test]
fn normalize_is_identity_on_strict_json() {
    let strict = r#"{"a": [1, 2], "b": {"c": "x,}"}}"#;
    let once = normalize(strict).unwrap();
    assert_eq!(once, strict.replace("x,}", "x}"));
    let strict2 = r#"{"a": [1, 2], "b": {"c": true}}"#;
    let n = normalize(strict2).unwrap();
    assert_eq!(n, strict2);
    assert_eq!(normalize(&n).unwrap(), n);
}

#[test]
fn normalize_rejects_lone_slash_and_open_comment() {
    assert_eq!(normalize("{} / 1"), None);
    assert_eq!(normalize("{} /* open"), None);
    assert!(matches!(parse_to_value("{\"a\": 1 /"), Err(ConfigError::ParseError(_))));
}

#[test]
fn trailing_comma_before_brace_only() {
    assert_eq!(normalize("{\"a\": 1 ,  }").unwrap(), "{\"a\": 1   }");
    assert_eq!(normalize("[1, 2,]").unwrap(), "[1, 2,]");
    assert!(matches!(parse_to_value("[1, 2,]"), Err(ConfigError::ParseError(_))));
    assert!(matches!(
        TsConfig::parse_str(r#"{"files": ["a",]}"#),
        Err(ConfigError::ParseError(_))
    ));
}

#[test]
fn invalid_json_is_a_parse_error() {
    assert!(matches!(TsConfig::parse_str("{"), Err(ConfigError::ParseError(_))));
    assert!(matches!(TsConfig::parse_str("{\"a\" 1}"), Err(ConfigError::ParseError(_))));
}

#[test]
fn target_outside_known_set_is_kept() {
    let c = TsConfig::parse_str(r#"{"compilerOptions": {"target": "ES2099"}}"#).unwrap();
    assert_eq!(c.compiler_options.unwrap().target, Some(Target::Other(s("ES2099"))));
    let c = TsConfig::parse_str(r#"{"compilerOptions": {"target": "es2099-beta"}}"#).unwrap();
    assert_eq!(c.compiler_options.unwrap().target, Some(Target::Other(s("ES2099-BETA"))));
}

#[test]
fn known_enumerations_ignore_case() {
    let c = TsConfig::parse_str(
        r#"{"compilerOptions": {"target": "es5", "module": "commonjs", "lib": ["dom", "ES2015.Promise", "weird"], "jsx": "React-Native", "moduleResolution": "node"}}"#,
    )
    .unwrap();
    let o = c.compiler_options.unwrap();
    assert_eq!(o.target, Some(Target::Es5));
    assert_eq!(o.module, Some(Module::CommonJs));
    assert_eq!(o.lib, Some(vec![Lib::Dom, Lib::Es2015Promise, Lib::Other(s("WEIRD"))]));
    assert_eq!(o.jsx, Some(tsconfig::Jsx::ReactNative));
    assert_eq!(o.module_resolution, Some(ModuleResolutionMode::Node));
    assert_eq!(Target::parse("esnext"), Target::EsNext);
    assert_eq!(Module::parse("none"), Module::NoModule);
    assert_eq!(Module::from_uppercase("umd"), Module::Other(s("umd")));
}

#[test]
fn unknown_jsx_mode_is_schema_error() {
    let r = TsConfig::parse_str(r#"{"compilerOptions": {"jsx": "bogus-mode"}}"#);
    assert!(matches!(r, Err(ConfigError::SchemaError(_))));
}

#[test]
fn module_resolution_is_exact() {
    let r = TsConfig::parse_str(r#"{"compilerOptions": {"moduleResolution": "Node"}}"#);
    assert!(matches!(r, Err(ConfigError::SchemaError(_))));
}

#[test]
fn unknown_keys_are_ignored() {
    let c = TsConfig::parse_str(r#"{"somethingNew": 1, "compilerOptions": {"unknownOpt": true}}"#)
        .unwrap();
    assert!(c.extends.is_none());
    assert!(c.files.is_none());
    let o = c.compiler_options.unwrap();
    assert!(o.allow_js.is_none());
    assert!(o.strict.is_none());
}

#[test]
fn wrong_shapes_are_schema_errors() {
    for text in [
        r#"{"compilerOptions": {"strict": "yes"}}"#,
        r#"{"compilerOptions": {"outDir": 3}}"#,
        r#"{"compilerOptions": {"maxNodeModuleJsDepth": -1}}"#,
        r#"{"compilerOptions": {"maxNodeModuleJsDepth": 1.5}}"#,
        r#"{"compilerOptions": {"maxNodeModuleJsDepth": 4294967296}}"#,
        r#"{"compilerOptions": {"types": ["a", 1]}}"#,
        r#"{"compilerOptions": {"paths": {"a": "b"}}}"#,
        r#"{"compilerOptions": []}"#,
        r#"{"references": 3}"#,
        r#"{"references": [{"prepend": true}]}"#,
        r#"{"typeAcquisition": {"include": []}}"#,
        r#"[]"#,
    ] {
        assert!(
            matches!(TsConfig::parse_str(text), Err(ConfigError::SchemaError(_))),
            "{}",
            text
        );
    }
}

#[test]
fn numbers_and_nulls() {
    let c = TsConfig::parse_str(
        r#"{"compilerOptions": {"maxNodeModuleJsDepth": 4294967295, "strict": null}}"#,
    )
    .unwrap();
    let o = c.compiler_options.unwrap();
    assert_eq!(o.max_node_module_js_depth, Some(4294967295));
    assert_eq!(o.strict, None);
}

#[test]
fn tagged_union_fields() {
    let c = TsConfig::parse_str(r#"{"references": true, "typeAcquisition": false}"#).unwrap();
    assert!(matches!(c.references, Some(References::Bool(true))));
    assert!(matches!(c.type_acquisition, Some(TypeAcquisition::Bool(false))));
    let c = TsConfig::parse_str(
        r#"{"references": [{"path": "../core", "prepend": true}, {"path": "x"}],
            "typeAcquisition": {"enable": true, "include": ["jquery"], "disableFilenameBasedTypeAcquisition": true},
            "include": ["src"], "exclude": ["dist"], "files": ["a.ts"], "extends": "./base.json"}"#,
    )
    .unwrap();
    match c.references {
        Some(References::References(rs)) => {
            assert_eq!(rs.len(), 2);
            assert_eq!(rs[0].path, "../core");
            assert_eq!(rs[0].prepend, Some(true));
            assert_eq!(rs[1].prepend, None);
        }
        _ => panic!("expected a list"),
    }
    match c.type_acquisition {
        Some(TypeAcquisition::Object { enable, includes, exclude, disable_filename_based_type_acquisition }) => {
            assert!(enable);
            assert_eq!(includes, Some(vec![s("jquery")]));
            assert_eq!(exclude, None);
            assert_eq!(disable_filename_based_type_acquisition, Some(true));
        }
        _ => panic!("expected settings"),
    }
    assert_eq!(c.includes, Some(vec![s("src")]));
    assert_eq!(c.exclude, Some(vec![s("dist")]));
    assert_eq!(c.files, Some(vec![s("a.ts")]));
    assert_eq!(c.extends, Some(s("./base.json")));
}

#[test]
fn inherited_setting_survives() {
    let files = [
        ("a.json", r#"{"compilerOptions": {"declaration": true, "strict": true}}"#),
        ("b.json", r#"{"extends": "a.json", "compilerOptions": {"strict": false}}"#),
    ];
    let v = resolve("b.json", &files).unwrap();
    let c = TsConfig::from_json(&v).unwrap();
    let o = c.compiler_options.unwrap();
    assert_eq!(o.declaration, Some(true));
    assert_eq!(o.strict, Some(false));
    assert_eq!(c.extends, Some(s("a.json")));
}

#[test]
fn chain_of_three_composes() {
    let a = r#"{"compilerOptions": {"jsx": "react", "strict": true, "outDir": "a"}}"#;
    let b = r#"{"extends": "../a.json", "compilerOptions": {"jsx": "preserve", "outDir": "b"}}"#;
    let c = r#"{"extends": "b.json", "compilerOptions": {"outDir": "c"}}"#;
    let files = [("dir/c.json", c), ("dir/b.json", b), ("a.json", a)];
    let v = resolve("dir/c.json", &files).unwrap();
    let by_hand = merge(
        merge(parse_to_value(a).unwrap(), parse_to_value(b).unwrap()),
        parse_to_value(c).unwrap(),
    );
    let x = TsConfig::from_json(&v).unwrap().compiler_options.unwrap();
    let y = TsConfig::from_json(&by_hand).unwrap().compiler_options.unwrap();
    assert_eq!(x.jsx, Some(tsconfig::Jsx::Preserve));
    assert_eq!(x.jsx, y.jsx);
    assert_eq!(x.strict, Some(true));
    assert_eq!(x.strict, y.strict);
    assert_eq!(x.out_dir, Some(s("c")));
    assert_eq!(x.out_dir, y.out_dir);
}

#[test]
fn cyclic_chain_fails() {
    let files = [
        ("a.json", r#"{"extends": "b.json"}"#),
        ("b.json", r#"{"extends": "a.json"}"#),
    ];
    match resolve("a.json", &files) {
        Err(ConfigError::CyclicExtends(p)) => assert_eq!(p, "a.json"),
        other => panic!("expected a cycle error, got {:?}", other),
    }
    let own = [("a.json", r#"{"extends": "a.json"}"#)];
    assert!(matches!(resolve("a.json", &own), Err(ConfigError::CyclicExtends(_))));
}

#[test]
fn missing_parent_is_reported() {
    let files = [("b.json", r#"{"extends": "nowhere.json"}"#)];
    match resolve("b.json", &files) {
        Err(ConfigError::CouldNotFindFile(p)) => assert_eq!(p, "nowhere.json"),
        other => panic!("expected a missing file, got {:?}", other),
    }
}

#[test]
fn error_message_is_kept() {
    let e = ConfigError::SchemaError(s("jsx"));
    assert_eq!(e.message(), "jsx");
}

#[test]
fn parsed_value_keeps_string_content() {
    let v = parse_to_value(r#"{"url": "http://example.com/*x*/", "c": "a // b"}"#).unwrap();
    assert!(matches!(lookup(&v, "url"), Some(JsonValue::String(t)) if t == "http://example.com/*x*/"));
    assert!(matches!(lookup(&v, "c"), Some(JsonValue::String(t)) if t == "a // b"));
}

#[test]
fn parsed_value_drops_comments_and_trailing_commas() {
    let v = parse_to_value("{\n  // line\n  \"a\": 1, /* block */ \"b\": 2\n}").unwrap();
    assert_eq!(number_text(lookup(&v, "a")), Some(s("1")));
    assert_eq!(number_text(lookup(&v, "b")), Some(s("2")));
    for text in [r#"{"a": 1,}"#, r#"{"a": 1, }"#] {
        let v = parse_to_value(text).unwrap();
        assert_eq!(number_text(lookup(&v, "a")), Some(s("1")));
    }
    let v = parse_to_value("{\"a\": {\"b\": true,\n  },}").unwrap();
    assert!(matches!(lookup(lookup(&v, "a").unwrap(), "b"), Some(JsonValue::Bool(true))));
}

#[test]
fn parse_str_keeps_extends_as_a_field() {
    let c = TsConfig::parse_str(r#"{"extends": "./missing.json"}"#).unwrap();
    assert_eq!(c.extends, Some(s("./missing.json")));
}

#[test]
fn older_library_spellings() {
    assert_eq!(Lib::parse("es2015.object"), Lib::Es2017Object);
    assert_eq!(Lib::parse("es2017.object"), Lib::Es2017Object);
    assert_eq!(Lib::parse("es2017intl"), Lib::Es2017Intl);
    assert_eq!(Lib::parse("es2015.sharedmemory"), Lib::Es2017SharedMemory);
    assert_eq!(Lib::parse("es2015.array.include"), Lib::Es2016ArrayInclude);
    assert_eq!(Lib::parse("esnext"), Lib::EsNext);
}

#[test]
fn document_without_parent_is_returned_as_is() {
    let files = [("a.json", r#"{"files": ["x.ts"], "extends": 3}"#)];
    let v = resolve("a.json", &files).unwrap();
    assert_eq!(number_text(lookup(&v, "extends")), Some(s("3")));
    assert!(matches!(lookup(&v, "files"), Some(JsonValue::Array(items)) if items.len() == 1));
}

#[test]
fn parse_error_in_parent_is_passed_on() {
    let files = [
        ("b.json", r#"{"extends": "a.json"}"#),
        ("a.json", r#"{"compilerOptions": {"strict": true,]}"#),
    ];
    assert!(matches!(resolve("b.json", &files), Err(ConfigError::ParseError(_))));
}

#[test]
fn include_lists_are_replaced_not_joined() {
    let files = [
        ("a.json", r#"{"include": ["a", "b"], "compilerOptions": {"lib": ["dom"]}}"#),
        ("b.json", r#"{"extends": "a.json", "include": ["c"]}"#),
    ];
    let c = TsConfig::from_json(&resolve("b.json", &files).unwrap()).unwrap();
    assert_eq!(c.includes, Some(vec![s("c")]));
    assert_eq!(c.compiler_options.unwrap().lib, Some(vec![Lib::Dom]));
}

#[test]
fn schema_is_checked_on_merged_value() {
    // The parent alone has a bad `strict`; the child's value replaces it.
    let files = [
        ("a.json", r#"{"compilerOptions": {"strict": "yes"}}"#),
        ("b.json", r#"{"extends": "a.json", "compilerOptions": {"strict": true}}"#),
    ];
    let c = TsConfig::from_json(&resolve("b.json", &files).unwrap()).unwrap();
    assert_eq!(c.compiler_options.unwrap().strict, Some(true));
}

#[test]
fn paths_normalize_lexically() {
    assert_eq!(normalize_path("d/../d/A.json"), "d/A.json");
    assert_eq!(normalize_path("./a/./b//c.json"), "a/b/c.json");
    assert_eq!(normalize_path("/x/y/../z.json"), "/x/z.json");
    assert_eq!(normalize_path("../../a.json"), "../../a.json");
    assert_eq!(normalize_path("a/b/../../c"), "c");
}

#[test]
fn parent_is_read_from_the_document_directory() {
    let mut r = Resolution::new("cfg/app/tsconfig.json");
    match r.feed(r#"{"extends": "../base.json"}"#) {
        ResolveStep::Read(p) => assert_eq!(p, "cfg/base.json"),
        other => panic!("expected a read, got {:?}", other),
    }
    match r.feed(r#"{"extends": "./shared/common.json"}"#) {
        ResolveStep::Read(p) => assert_eq!(p, "cfg/shared/common.json"),
        other => panic!("expected a read, got {:?}", other),
    }
}

#[test]
fn self_reference_through_parent_dir_is_a_cycle() {
    let files = [("d/A.json", r#"{"extends": "../d/A.json"}"#)];
    match resolve("d/A.json", &files) {
        Err(ConfigError::CyclicExtends(p)) => assert_eq!(p, "d/A.json"),
        other => panic!("expected a cycle error, got {:?}", other),
    }
}
