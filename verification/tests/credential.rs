use provider_registry::config::{AuthType, ProviderConfig};
use provider_registry::credential::{
    api_key_from_text, credential_file, load_api_key_from_file, resolve_api_key,
    resolve_credential,
};
use provider_registry::error::ProviderError;
use provider_registry::files::{expand_home, LocalFiles};
use provider_registry::json::{extract_api_key_from_json, Json};

fn keyed(api_key: Option<&str>, api_key_path: Option<&str>) -> ProviderConfig {
    ProviderConfig {
        name: "backend".to_string(),
        provider_type: "openai".to_string(),
        auth_type: AuthType::ApiKey,
        api_key: api_key.map(|k| k.to_string()),
        api_key_path: api_key_path.map(|p| p.to_string()),
        base_url: None,
        models: Vec::new(),
        oauth_provider: None,
        enabled: None,
    }
}

fn home_with(path: &str, content: Result<&str, &str>) -> LocalFiles {
    let mut files = LocalFiles::new(Some("/home/user".to_string()));
    files.record(
        path.to_string(),
        content.map(|t| t.to_string()).map_err(|e| e.to_string()),
    );
    files
}

fn config_error(message: &str) -> ProviderError {
    ProviderError::ConfigError(message.to_string())
}

fn text(s: &str) -> Json {
    Json::Text(s.to_string())
}

fn object(members: Vec<(&str, Json)>) -> Json {
    Json::Object(members.into_iter().map(|(k, v)| (k.to_string(), v)).collect())
}

#[test]
fn inline_key_wins_over_key_file() {
    let config = keyed(Some("sk-inline"), Some("~/key.txt"));
    let files = home_with("/home/user/key.txt", Ok("sk-from-file"));
    assert_eq!(resolve_api_key(&config, &files), Ok("sk-inline".to_string()));
    assert_eq!(resolve_credential(&config, &files), Ok("sk-inline".to_string()));
    let unreadable = home_with("/home/user/key.txt", Err("gone"));
    assert_eq!(resolve_api_key(&config, &unreadable), Ok("sk-inline".to_string()));
    assert_eq!(resolve_api_key(&config, &LocalFiles::new(None)), Ok("sk-inline".to_string()));
    assert_eq!(credential_file(&config, &files), None);
}

#[test]
fn inline_key_is_returned_as_it_stands() {
    let config = keyed(Some("  sk-padded \n"), None);
    assert_eq!(
        resolve_api_key(&config, &LocalFiles::new(None)),
        Ok("  sk-padded \n".to_string())
    );
}

#[test]
fn blank_inline_key_falls_back_to_key_file() {
    for blank in ["", " ", "\t\n", "\u{a0}\u{2003}\u{3000}"] {
        let config = keyed(Some(blank), Some("~/key.txt"));
        let files = home_with("/home/user/key.txt", Ok("sk-from-file\n"));
        assert_eq!(resolve_api_key(&config, &files), Ok("sk-from-file".to_string()));
        assert_eq!(credential_file(&config, &files), Some("/home/user/key.txt".to_string()));
    }
}

#[test]
fn entry_without_key_and_key_file_fails() {
    let expected =
        config_error("Provider 'backend' requires api_key or api_key_path for ApiKey auth");
    let files = LocalFiles::new(Some("/home/user".to_string()));
    assert_eq!(resolve_api_key(&keyed(None, None), &files), Err(expected.clone()));
    assert_eq!(resolve_api_key(&keyed(Some("  "), None), &files), Err(expected));
    assert_eq!(credential_file(&keyed(None, None), &files), None);
}

#[test]
fn oauth_entry_resolves_to_its_reference() {
    let mut config = keyed(None, Some("~/key.txt"));
    config.auth_type = AuthType::OAuth;
    let files = LocalFiles::new(None);
    assert_eq!(resolve_credential(&config, &files), Ok("backend".to_string()));
    config.oauth_provider = Some("anthropic-max".to_string());
    assert_eq!(resolve_credential(&config, &files), Ok("anthropic-max".to_string()));
    assert_eq!(credential_file(&config, &files), None);
}

#[test]
fn disabled_entry_consults_no_file() {
    let mut config = keyed(None, Some("~/key.txt"));
    let files = LocalFiles::new(Some("/home/user".to_string()));
    assert_eq!(credential_file(&config, &files), Some("/home/user/key.txt".to_string()));
    config.enabled = Some(false);
    assert_eq!(credential_file(&config, &files), None);
}

#[test]
fn home_prefix_expands_against_the_home_directory() {
    let files = LocalFiles::new(Some("/home/user".to_string()));
    assert_eq!(
        expand_home("~/secret.json", &files),
        Some("/home/user/secret.json".to_string())
    );
    assert_eq!(
        expand_home("~/.config/mux/key", &files),
        Some("/home/user/.config/mux/key".to_string())
    );
}

#[test]
fn path_without_home_prefix_passes_through_unchanged() {
    let files = LocalFiles::new(Some("/home/user".to_string()));
    for path in ["/etc/secret.json", "secret.json", "./~/x", "~", "~user/x", " ~/x", ""] {
        assert_eq!(expand_home(path, &files), Some(path.to_string()));
        assert_eq!(expand_home(path, &LocalFiles::new(None)), Some(path.to_string()));
    }
}

#[test]
fn home_prefix_without_home_directory_expands_to_nothing() {
    let files = LocalFiles::new(None);
    assert_eq!(expand_home("~/secret.json", &files), None);
    assert_eq!(
        load_api_key_from_file("~/secret.json", &files),
        Err(config_error("Invalid api_key_path: ~/secret.json"))
    );
    assert_eq!(
        resolve_api_key(&keyed(None, Some("~/secret.json")), &files),
        Err(config_error(
            "Provider 'backend' failed to read api_key from ~/secret.json: \
             Configuration error: Invalid api_key_path: ~/secret.json"
        ))
    );
}

#[test]
fn current_user_has_the_home_directory_of_the_system() {
    let files = LocalFiles::for_current_user();
    let expected = dirs::home_dir().and_then(|h| h.to_str().map(|s| s.to_string()));
    assert_eq!(files.home(), expected.as_ref());
    assert_eq!(
        expand_home("~/secret.json", &files),
        dirs::home_dir().map(|h| h.join("secret.json").to_string_lossy().into_owned())
    );
    assert_eq!(files.content("/etc/hostname"), Err("the file was not read".to_string()));
}

#[test]
fn first_record_of_a_file_is_what_is_known_of_it() {
    let mut files = LocalFiles::new(None);
    assert_eq!(files.content("/a"), Err("the file was not read".to_string()));
    files.record("/a".to_string(), Ok("one".to_string()));
    files.record("/b".to_string(), Err("denied".to_string()));
    files.record("/a".to_string(), Ok("two".to_string()));
    assert_eq!(files.content("/a"), Ok("one".to_string()));
    assert_eq!(files.content("/b"), Err("denied".to_string()));
    assert_eq!(files.content("/c"), Err("the file was not read".to_string()));
    assert_eq!(files.home(), None);
}

#[test]
fn plain_text_file_is_the_key_without_surrounding_white_space() {
    assert_eq!(api_key_from_text("/k", "sk-plain"), Ok("sk-plain".to_string()));
    assert_eq!(api_key_from_text("/k", "  sk-plain\r\n"), Ok("sk-plain".to_string()));
    assert_eq!(
        api_key_from_text("/k", "\u{a0}\u{1680}sk plain\u{2028}\u{3000}"),
        Ok("sk plain".to_string())
    );
    assert_eq!(api_key_from_text("/k", "[\"token\"]"), Ok("[\"token\"]".to_string()));
    assert_eq!(api_key_from_text("/k", "\u{200b}x"), Ok("\u{200b}x".to_string()));
}

#[test]
fn empty_or_blank_file_holds_no_key() {
    let expected = Err(config_error("No api_key found in /k: the file is empty"));
    for blank in ["", " ", " \n\t", "\r\n", "\u{a0}\u{3000}"] {
        assert_eq!(api_key_from_text("/k", blank), expected);
    }
    assert_eq!(
        load_api_key_from_file("~/k.txt", &home_with("/home/user/k.txt", Ok("\n"))),
        Err(config_error("No api_key found in /home/user/k.txt: the file is empty"))
    );
    assert_eq!(
        resolve_api_key(&keyed(None, Some("~/k.txt")), &home_with("/home/user/k.txt", Ok("  "))),
        Err(config_error(
            "Provider 'backend' failed to read api_key from ~/k.txt: Configuration error: \
             No api_key found in /home/user/k.txt: the file is empty"
        ))
    );
    assert_eq!(
        resolve_api_key(&keyed(Some(" "), Some("/k")), &home_with("/k", Ok(""))),
        Err(config_error(
            "Provider 'backend' failed to read api_key from /k: Configuration error: \
             No api_key found in /k: the file is empty"
        ))
    );
}

#[test]
fn resolved_key_is_never_blank() {
    let files = home_with("/k", Ok("  sk \n"));
    for config in [keyed(Some(" a "), None), keyed(None, Some("/k")), keyed(Some(""), Some("/k"))] {
        let key = resolve_api_key(&config, &files).unwrap();
        assert!(!key.trim().is_empty());
    }
    let json = home_with("/k", Ok("{\"x\": {\"token\": \"  t  \"}}"));
    assert_eq!(resolve_api_key(&keyed(None, Some("/k")), &json), Ok("t".to_string()));
}

#[test]
fn nested_token_is_found() {
    assert_eq!(
        api_key_from_text("/k", "{\"outer\": {\"inner\": {\"access_token\": \"abc\"}}}"),
        Ok("abc".to_string())
    );
}

#[test]
fn blank_values_are_skipped() {
    assert_eq!(
        api_key_from_text("/k", "{\"api_key\": \"\", \"token\": \"xyz\"}"),
        Ok("xyz".to_string())
    );
    assert_eq!(
        api_key_from_text("/k", "{\"api_key\": \"  \\n\", \"key\": \" k \"}"),
        Ok("k".to_string())
    );
}

#[test]
fn document_without_token_fails() {
    let expected = Err(config_error("No api_key/access_token/token field found in /k"));
    assert_eq!(api_key_from_text("/k", "{}"), expected);
    assert_eq!(api_key_from_text("/k", " {\"api_key\": \"\", \"token\": \"   \"} "), expected);
    assert_eq!(api_key_from_text("/k", "{\"api_key\": 12, \"token\": null, \"key\": true}"), expected);
    assert_eq!(api_key_from_text("/k", "{\"secret\": \"abc\", \"list\": [1, \"token\", {}]}"), expected);
}

#[test]
fn malformed_document_fails_with_the_parser_complaint() {
    for broken in ["{", "{\"api_key\": }", "{\"api_key\": \"abc\"} trailing", "{'api_key': 'abc'}"] {
        match api_key_from_text("/home/user/k.json", broken) {
            Err(ProviderError::ConfigError(message)) => {
                assert!(
                    message.starts_with("Failed to parse JSON from /home/user/k.json: "),
                    "{}",
                    message
                );
                assert!(message.contains("line 1 column "), "{}", message);
            }
            other => panic!("{:?}", other),
        }
    }
    assert_eq!(
        api_key_from_text("/k", "{"),
        Err(config_error(
            "Failed to parse JSON from /k: EOF while parsing an object at line 1 column 1"
        ))
    );
}

#[test]
fn document_is_parsed_without_the_white_space_around_it() {
    assert_eq!(
        api_key_from_text("/k", "\n\n  {\"token\": \"t\"}\n"),
        Ok("t".to_string())
    );
}

#[test]
fn own_member_wins_over_nested_one_and_keys_are_tried_in_order() {
    assert_eq!(
        api_key_from_text("/k", "{\"nested\": {\"api_key\": \"deep\"}, \"bearer_token\": \"own\"}"),
        Ok("own".to_string())
    );
    assert_eq!(
        api_key_from_text(
            "/k",
            "{\"bearer_token\": \"6\", \"oauth_token\": \"5\", \"key\": \"4\", \
             \"access_token\": \"3\", \"token\": \"2\", \"api_key\": \"1\"}"
        ),
        Ok("1".to_string())
    );
    assert_eq!(
        api_key_from_text("/k", "{\"bearer_token\": \"6\", \"oauth_token\": \"5\", \"key\": \"4\"}"),
        Ok("4".to_string())
    );
    assert_eq!(
        api_key_from_text("/k", "{\"api_key\": {\"token\": \"inner\"}, \"oauth_token\": \"5\"}"),
        Ok("5".to_string())
    );
}

#[test]
fn members_are_searched_in_the_order_of_the_document() {
    assert_eq!(
        api_key_from_text("/k", "{\"zulu\": {\"token\": \"first\"}, \"alpha\": {\"token\": \"second\"}}"),
        Ok("first".to_string())
    );
    assert_eq!(
        api_key_from_text("/k", "{\"list\": [1, [], {\"x\": 1}, {\"key\": \"in-array\"}], \"z\": {\"key\": \"late\"}}"),
        Ok("in-array".to_string())
    );
    assert_eq!(
        api_key_from_text("/k", "{\"a\": {\"b\": {\"c\": 1}}, \"d\": [{\"e\": {\"oauth_token\": \"deep\"}}]}"),
        Ok("deep".to_string())
    );
}

#[test]
fn search_works_on_documents_built_by_hand() {
    assert_eq!(extract_api_key_from_json(&Json::Null), None);
    assert_eq!(extract_api_key_from_json(&Json::Bool(true)), None);
    assert_eq!(extract_api_key_from_json(&Json::Number("1".to_string())), None);
    assert_eq!(extract_api_key_from_json(&text("token")), None);
    assert_eq!(extract_api_key_from_json(&Json::Array(Vec::new())), None);
    assert_eq!(extract_api_key_from_json(&object(Vec::new())), None);
    assert_eq!(
        extract_api_key_from_json(&Json::Array(vec![text("x"), object(vec![("token", text(" t "))])])),
        Some("t".to_string())
    );
    assert_eq!(
        extract_api_key_from_json(&object(vec![
            ("token", Json::Number("7".to_string())),
            ("inner", object(vec![("key", text("k1"))])),
            ("other", object(vec![("api_key", text("k2"))])),
        ])),
        Some("k1".to_string())
    );
    assert_eq!(
        extract_api_key_from_json(&object(vec![("token", text("one")), ("token", text("two"))])),
        Some("one".to_string())
    );
    assert_eq!(
        extract_api_key_from_json(&object(vec![("token", text("")), ("token", text("two"))])),
        None
    );
}

#[test]
fn key_file_failures_name_the_file() {
    assert_eq!(
        load_api_key_from_file("~/k.json", &home_with("/home/user/k.json", Err("No such file"))),
        Err(config_error("Failed to read /home/user/k.json: No such file"))
    );
    assert_eq!(
        load_api_key_from_file("~/k.json", &home_with("/home/user/other.json", Ok("sk"))),
        Err(config_error("Failed to read /home/user/k.json: the file was not read"))
    );
    assert_eq!(
        load_api_key_from_file("~/k.json", &home_with("/home/user/k.json", Ok("{\"a\": 1}"))),
        Err(config_error("No api_key/access_token/token field found in /home/user/k.json"))
    );
    assert_eq!(
        load_api_key_from_file("/abs/k", &home_with("/abs/k", Ok(" sk \n"))),
        Ok("sk".to_string())
    );
}

#[test]
fn key_file_failure_names_the_backend_and_the_cause() {
    let config = keyed(None, Some("~/k.json"));
    assert_eq!(
        resolve_api_key(&config, &home_with("/home/user/k.json", Err("No such file"))),
        Err(config_error(
            "Provider 'backend' failed to read api_key from ~/k.json: Configuration error: \
             Failed to read /home/user/k.json: No such file"
        ))
    );
    assert_eq!(
        resolve_api_key(&config, &home_with("/home/user/k.json", Ok("{}"))),
        Err(config_error(
            "Provider 'backend' failed to read api_key from ~/k.json: Configuration error: \
             No api_key/access_token/token field found in /home/user/k.json"
        ))
    );
}

#[test]
fn white_space_is_what_the_standard_library_trims() {
    let listed = |c: char| {
        let n = c as u32;
        (0x09..=0x0d).contains(&n)
            || n == 0x20
            || n == 0x85
            || n == 0xa0
            || n == 0x1680
            || (0x2000..=0x200a).contains(&n)
            || n == 0x2028
            || n == 0x2029
            || n == 0x202f
            || n == 0x205f
            || n == 0x3000
    };
    for n in 0..=0x10ffff_u32 {
        if let Some(c) = char::from_u32(n) {
            assert_eq!(c.is_whitespace(), listed(c), "U+{:04X}", n);
            if listed(c) {
                let padded = format!("{}key{}", c, c);
                assert_eq!(api_key_from_text("/k", &padded), Ok("key".to_string()));
            }
        }
    }
}
