use tsconfig::{merge, parse_to_value, Jsx, TsConfig};

#[test]
fn parse_jsx() {
    let json = r#"{"compilerOptions": {"jsx": "react-jsx"}}"#;

    let config = TsConfig::parse_str(json).unwrap();
    assert_eq!(config.compiler_options.unwrap().jsx, Some(Jsx::ReactJsx));
}

#[test]
fn parse_paths() {
    let json = r#"{
        "compilerOptions": {
            "baseUrl": "src",
            "paths": {
                "tests/*": ["tests/*"],
                "blah": ["bloop"]
            }
        }
    }
        
        "#;

    let config = TsConfig::parse_str(json).unwrap();
    let paths = config.compiler_options.unwrap().paths.unwrap();
    let found = paths.iter().find(|(k, _)| k == "tests/*").map(|(_, v)| v);
    assert_eq!(found, Some(&vec!["tests/*".to_string()]));
}

#[test]
fn parse_empty() {
    TsConfig::parse_str("{}").unwrap();
    TsConfig::parse_str(r#"{"compilerOptions": {}}"#).unwrap();
}

#[test]
fn ignores_invalid_fields() {
    let json = r#"{"bleep": true, "compilerOptions": {"someNewUnsupportedProperty": false}}"#;
    TsConfig::parse_str(json).unwrap();
}

#[test]
fn ignores_dangling_commas() {
    let json = r#"{"compilerOptions": {"noImplicitAny": false,"explainFiles": true,}}"#;
    let cfg = TsConfig::parse_str(json).unwrap();
    assert_eq!(cfg.compiler_options.unwrap().explain_files.unwrap(), true);

    let json = r#"{"compilerOptions": {"noImplicitAny": false,"explainFiles": true, }}"#;
    let cfg = TsConfig::parse_str(json).unwrap();
    assert_eq!(cfg.compiler_options.unwrap().explain_files.unwrap(), true);

    let json = r#"{"compilerOptions": {"noImplicitAny": false,"explainFiles": true,
    }}"#;
    let cfg = TsConfig::parse_str(json).unwrap();
    assert_eq!(cfg.compiler_options.unwrap().explain_files.unwrap(), true);
}

#[test]
fn merge_two_configs() {
    let json_1 = r#"{"compilerOptions": {"jsx": "react", "noEmit": true,}}"#;
    let json_2 = r#"{"compilerOptions": {"jsx": "preserve", "removeComments": true}}"#;

    let value1 = parse_to_value(json_1).unwrap();
    let value2 = parse_to_value(json_2).unwrap();

    // The first document is layered over the second, its parent.
    let merged = merge(value2, value1);

    let value = TsConfig::from_json(&merged).unwrap();

    assert_eq!(
        value.clone().compiler_options.unwrap().jsx,
        Some(Jsx::React)
    );
    assert_eq!(value.clone().compiler_options.unwrap().no_emit, Some(true));
    assert_eq!(value.compiler_options.unwrap().remove_comments, Some(true));
}
