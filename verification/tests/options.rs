use serde_json::Value;
use ucm_bootstrap::options::{
    explicit, keep_texts, parse_options, read_config, resolve, resolve_version, ConfigFields,
    LaunchOptions, DEFAULT_VERSION,
};

fn config(json: &str) -> Option<Value> {
    Some(serde_json::from_str(json).unwrap())
}

fn texts(items: &[&str]) -> Vec<String> {
    items.iter().map(|s| s.to_string()).collect()
}

#[test]
fn default_version_is_the_fixed_release() {
    assert_eq!(DEFAULT_VERSION, "release/M4i");
}

#[test]
fn no_configuration_gives_the_defaults() {
    let options = parse_options(&None);
    assert_eq!(
        options,
        LaunchOptions { version: texts(&["release/M4i"]).remove(0), server_args: vec![], server_path: None }
    );
}

#[test]
fn configuration_without_volt_gives_the_defaults() {
    for json in ["{}", "null", "[]", "3", "\"volt\"", r#"{"other": {"serverPath": "/x"}}"#] {
        let options = parse_options(&config(json));
        assert_eq!(options.version, "release/M4i", "{}", json);
        assert!(options.server_args.is_empty(), "{}", json);
        assert_eq!(options.server_path, None, "{}", json);
    }
}

#[test]
fn volt_of_another_type_gives_the_defaults() {
    for json in [r#"{"volt": null}"#, r#"{"volt": []}"#, r#"{"volt": "serverPath"}"#, r#"{"volt": 1}"#] {
        let options = parse_options(&config(json));
        assert_eq!(options.version, "release/M4i", "{}", json);
        assert!(options.server_args.is_empty(), "{}", json);
        assert_eq!(options.server_path, None, "{}", json);
    }
}

#[test]
fn server_args_are_taken_in_order() {
    let options = parse_options(&config(r#"{"volt": {"serverArgs": ["--lsp", "5757", "-v"]}}"#));
    assert_eq!(options.server_args, texts(&["--lsp", "5757", "-v"]));
}

#[test]
fn server_args_that_are_no_strings_are_skipped() {
    let options = parse_options(&config(
        r#"{"volt": {"serverArgs": ["a", 1, null, "b", true, ["c"], {"d": "e"}, "", "f"]}}"#,
    ));
    assert_eq!(options.server_args, texts(&["a", "b", "", "f"]));
}

#[test]
fn server_args_that_are_no_array_are_none() {
    for json in [
        r#"{"volt": {"serverArgs": "--lsp"}}"#,
        r#"{"volt": {"serverArgs": {"0": "--lsp"}}}"#,
        r#"{"volt": {"serverArgs": null}}"#,
        r#"{"volt": {"serverArgs": []}}"#,
        r#"{"volt": {}}"#,
    ] {
        assert!(parse_options(&config(json)).server_args.is_empty(), "{}", json);
    }
}

#[test]
fn server_path_is_taken_as_it_stands() {
    let options = parse_options(&config(r#"{"volt": {"serverPath": " /usr/local/bin/ucm "}}"#));
    assert_eq!(options.server_path, Some(" /usr/local/bin/ucm ".to_string()));
}

#[test]
fn empty_server_path_is_no_server_path() {
    let options = parse_options(&config(r#"{"volt": {"serverPath": ""}}"#));
    assert_eq!(options.server_path, None);
}

#[test]
fn server_path_that_is_no_string_is_no_server_path() {
    for json in [
        r#"{"volt": {"serverPath": 7}}"#,
        r#"{"volt": {"serverPath": null}}"#,
        r#"{"volt": {"serverPath": ["/usr/bin/ucm"]}}"#,
        r#"{"volt": {"serverPath": true}}"#,
    ] {
        assert_eq!(parse_options(&config(json)).server_path, None, "{}", json);
    }
}

#[test]
fn server_path_outside_volt_is_not_read() {
    let options = parse_options(&config(r#"{"serverPath": "/usr/bin/ucm", "volt": {}}"#));
    assert_eq!(options.server_path, None);
}

#[test]
fn version_is_taken_without_the_white_space_around_it() {
    let options = parse_options(&config(r#"{"volt": {"ucmVersion": "  X  "}}"#));
    assert_eq!(options.version, "X");
    let options = parse_options(&config(r#"{"volt": {"ucmVersion": "\t release/M5 \n"}}"#));
    assert_eq!(options.version, "release/M5");
    let options = parse_options(&config(r#"{"volt": {"ucmVersion": "a b"}}"#));
    assert_eq!(options.version, "a b");
}

#[test]
fn blank_version_is_the_default() {
    for json in [
        r#"{"volt": {"ucmVersion": ""}}"#,
        r#"{"volt": {"ucmVersion": " "}}"#,
        r#"{"volt": {"ucmVersion": " \t\r\n "}}"#,
        r#"{"volt": {"ucmVersion": " 　"}}"#,
    ] {
        assert_eq!(parse_options(&config(json)).version, "release/M4i", "{}", json);
    }
}

#[test]
fn missing_version_is_the_default() {
    for json in [
        r#"{"volt": {}}"#,
        r#"{"volt": {"ucmVersion": null}}"#,
        r#"{"volt": {"ucmVersion": 4}}"#,
        r#"{"volt": {"ucmVersion": ["release/M5"]}}"#,
        r#"{"volt": {"serverArgs": ["-v"]}}"#,
    ] {
        assert_eq!(parse_options(&config(json)).version, "release/M4i", "{}", json);
    }
}

#[test]
fn version_outside_volt_is_not_read() {
    let options = parse_options(&config(r#"{"ucmVersion": "release/M5", "volt": {}}"#));
    assert_eq!(options.version, "release/M4i");
    let options = parse_options(&config(r#"{"ucmVersion": "release/M5"}"#));
    assert_eq!(options.version, "release/M4i");
}

#[test]
fn all_three_fields_together() {
    let options = parse_options(&config(
        r#"{"volt": {"serverArgs": ["-a", 2, "-b"], "serverPath": "/opt/ucm", "ucmVersion": " v9 "}, "x": 1}"#,
    ));
    assert_eq!(
        options,
        LaunchOptions {
            version: "v9".to_string(),
            server_args: texts(&["-a", "-b"]),
            server_path: Some("/opt/ucm".to_string()),
        }
    );
}

#[test]
fn read_config_keeps_the_place_of_what_is_no_string() {
    let fields = read_config(&config(
        r#"{"volt": {"serverArgs": ["a", 1, "b"], "serverPath": "", "ucmVersion": "  "}}"#,
    ));
    assert_eq!(
        fields,
        ConfigFields {
            server_args: vec![Some("a".to_string()), None, Some("b".to_string())],
            server_path: Some(String::new()),
            ucm_version: Some("  ".to_string()),
        }
    );
}

#[test]
fn read_config_of_nothing_is_empty() {
    let empty = ConfigFields { server_args: vec![], server_path: None, ucm_version: None };
    assert_eq!(read_config(&None), empty);
    assert_eq!(read_config(&config("{}")), empty);
    assert_eq!(read_config(&config(r#"{"volt": 3}"#)), empty);
}

#[test]
fn resolve_works_on_plain_fields() {
    let options = resolve(ConfigFields {
        server_args: vec![None, Some("x".to_string()), None, Some("y".to_string())],
        server_path: Some("p".to_string()),
        ucm_version: Some(" 1.0 ".to_string()),
    });
    assert_eq!(
        options,
        LaunchOptions {
            version: "1.0".to_string(),
            server_args: texts(&["x", "y"]),
            server_path: Some("p".to_string()),
        }
    );
}

#[test]
fn resolve_version_examples() {
    assert_eq!(resolve_version(None), "release/M4i");
    assert_eq!(resolve_version(Some("")), "release/M4i");
    assert_eq!(resolve_version(Some("   ")), "release/M4i");
    assert_eq!(resolve_version(Some("  X  ")), "X");
    assert_eq!(resolve_version(Some("release/M5")), "release/M5");
    assert_eq!(resolve_version(Some("\u{3000}é\u{3000}")), "é");
}

#[test]
fn resolved_version_is_never_empty() {
    for raw in [None, Some(""), Some(" "), Some("a"), Some(" a "), Some("\n")] {
        assert!(!resolve_version(raw).is_empty(), "{:?}", raw);
    }
}

#[test]
fn keep_texts_skips_what_is_no_text() {
    assert_eq!(keep_texts(&vec![]), Vec::<String>::new());
    assert_eq!(keep_texts(&vec![None, None]), Vec::<String>::new());
    assert_eq!(
        keep_texts(&vec![Some("b".to_string()), None, Some("a".to_string()), Some("b".to_string())]),
        texts(&["b", "a", "b"])
    );
}

#[test]
fn explicit_drops_the_empty_path() {
    assert_eq!(explicit(None), None);
    assert_eq!(explicit(Some(String::new())), None);
    assert_eq!(explicit(Some(" ".to_string())), Some(" ".to_string()));
    assert_eq!(explicit(Some("/usr/bin/ucm".to_string())), Some("/usr/bin/ucm".to_string()));
}
