use nebulosus::config::{
    bootstrap, config_file, config_from_document, get_config, parse_vault_config, parsed_config,
    resolve, Config, VaultConfig, DEFAULT_CONFIG_FILE,
};
use nebulosus::error::ConfigError;
use nebulosus::level::LogLevel;
use nebulosus::tree::Tree;
use nebulosus::vault::extract_backend_section;

fn text(s: &str) -> Tree {
    Tree::Text(s.to_string())
}

fn table(entries: Vec<(&str, Tree)>) -> Tree {
    Tree::Table(entries.into_iter().map(|(key, value)| (key.to_string(), value)).collect())
}

#[test]
fn it_parses_yaml_into_config() {
    let config_input = r#"
[vault]
hosts = ["http://localhost:8200"]
token = "test12345"
        "#;

    let config = parsed_config(config_input).unwrap();
    let vault = config.vault.unwrap();
    assert_eq!(vault.hosts, vec!["http://localhost:8200".to_string()])
}

#[test]
fn it_ignores_empty_entries_in_hosts() {
    let config_input = r#"
[vault]
hosts = ["http://localhost:8200", ""]
token = "test12345"
        "#;

    let config = parsed_config(config_input).unwrap();
    let vault = config.vault.unwrap();
    assert_eq!(vault.hosts, vec!["http://localhost:8200".to_string()])
}

#[test]
fn parsed_config_reads_hosts_and_token() {
    let config = parsed_config(
        "[vault]\nhosts = [\"http://host1:8200\", \"http://host2:8200\"]\ntoken = \"s.xxxxxxxx\"\n",
    )
    .unwrap();
    assert_eq!(
        config,
        Config {
            vault: Some(VaultConfig {
                hosts: vec!["http://host1:8200".to_string(), "http://host2:8200".to_string()],
                token: "s.xxxxxxxx".to_string(),
            }),
            log_level: LogLevel::Warn,
        }
    );
}

#[test]
fn parsed_config_keeps_order_and_duplicates() {
    let config =
        parsed_config("[vault]\nhosts = [\"b\", \"\", \"a\", \"b\", \"\"]\ntoken = \"t\"\n").unwrap();
    let vault = config.vault.unwrap();
    assert_eq!(vault.hosts, vec!["b".to_string(), "a".to_string(), "b".to_string()]);
    assert_eq!(vault.token, "t");
}

#[test]
fn parsed_config_without_hosts_has_no_vault() {
    let config = parsed_config("[vault]\ntoken = \"test12345\"\n").unwrap();
    assert_eq!(config, Config { vault: None, log_level: LogLevel::Warn });
}

#[test]
fn parsed_config_without_token_has_no_vault() {
    let config = parsed_config("[vault]\nhosts = [\"http://localhost:8200\"]\n").unwrap();
    assert_eq!(config, Config { vault: None, log_level: LogLevel::Warn });
}

#[test]
fn parsed_config_without_section_has_no_vault() {
    let config = parsed_config("[other]\nhosts = [\"http://localhost:8200\"]\ntoken = \"t\"\n")
        .unwrap();
    assert_eq!(config, Config { vault: None, log_level: LogLevel::Warn });
    assert_eq!(parsed_config("").unwrap(), Config { vault: None, log_level: LogLevel::Warn });
}

#[test]
fn parsed_config_with_scalar_section_has_no_vault() {
    let config = parsed_config("vault = \"hosts\"\n").unwrap();
    assert_eq!(config.vault, None);
    let config = parsed_config("vault = [\"hosts\", \"token\"]\n").unwrap();
    assert_eq!(config.vault, None);
}

#[test]
fn parsed_config_coerces_a_token_that_is_no_string() {
    let config = parsed_config("[vault]\nhosts = [\"http://localhost:8200\"]\ntoken = 12345\n")
        .unwrap();
    let vault = config.vault.unwrap();
    assert_eq!(vault.hosts, vec!["http://localhost:8200".to_string()]);
    assert_eq!(vault.token, "");
}

#[test]
fn parsed_config_coerces_hosts_that_are_no_array() {
    let config =
        parsed_config("[vault]\nhosts = \"http://localhost:8200\"\ntoken = \"t\"\n").unwrap();
    let vault = config.vault.unwrap();
    assert_eq!(vault.hosts, Vec::<String>::new());
    assert_eq!(vault.token, "t");
}

#[test]
fn parsed_config_drops_hosts_that_are_no_strings() {
    let config = parsed_config("[vault]\nhosts = [1, 2, 3]\ntoken = \"t\"\n").unwrap();
    let vault = config.vault.unwrap();
    assert_eq!(vault.hosts, Vec::<String>::new());
    let config = parsed_config("[vault]\nhosts = []\ntoken = \"t\"\n").unwrap();
    assert_eq!(config.vault.unwrap().hosts, Vec::<String>::new());
}

#[test]
fn parsed_config_rejects_malformed_text() {
    match parsed_config("[vault\nhosts = ") {
        Err(ConfigError::SyntaxInvalid { errors }) => assert!(errors >= 1),
        other => panic!("expected a syntax error, got {:?}", other),
    }
    assert_eq!(
        parsed_config("a = 1\na = 2\n"),
        Err(ConfigError::SyntaxInvalid { errors: 1 })
    );
}

#[test]
fn parsing_twice_gives_the_same_config() {
    let input = "[vault]\nhosts = [\"http://a:8200\", \"\", \"http://b:8200\"]\ntoken = \"tok\"\n";
    assert_eq!(parsed_config(input), parsed_config(input));
    let broken = "hosts = [";
    assert_eq!(parsed_config(broken), parsed_config(broken));
}

#[test]
fn section_with_hosts_and_token_is_extracted() {
    let section = table(vec![
        ("hosts", Tree::List(vec![text("http://a"), text(""), Tree::Other, text("http://b")])),
        ("token", text("secret")),
    ]);
    assert_eq!(
        parse_vault_config(&section),
        Some(VaultConfig {
            hosts: vec!["http://a".to_string(), "http://b".to_string()],
            token: "secret".to_string(),
        })
    );
}

#[test]
fn section_with_nested_values_in_hosts_drops_them() {
    let section = table(vec![
        ("token", Tree::Other),
        (
            "hosts",
            Tree::List(vec![
                Tree::List(vec![text("http://inner")]),
                table(vec![("hosts", text("http://nested"))]),
                text("http://kept"),
            ]),
        ),
    ]);
    assert_eq!(
        parse_vault_config(&section),
        Some(VaultConfig { hosts: vec!["http://kept".to_string()], token: String::new() })
    );
}

#[test]
fn section_without_hosts_is_absent() {
    let section = table(vec![("token", text("secret"))]);
    assert_eq!(parse_vault_config(&section), None);
    let section = table(vec![("host", Tree::List(vec![text("http://a")])), ("token", text("t"))]);
    assert_eq!(parse_vault_config(&section), None);
}

#[test]
fn section_without_token_is_absent() {
    let section = table(vec![("hosts", Tree::List(vec![text("http://a")]))]);
    assert_eq!(parse_vault_config(&section), None);
    assert_eq!(parse_vault_config(&table(vec![])), None);
}

#[test]
fn section_that_is_no_table_is_absent() {
    assert_eq!(parse_vault_config(&text("hosts")), None);
    assert_eq!(parse_vault_config(&Tree::Other), None);
    assert_eq!(parse_vault_config(&Tree::List(vec![text("hosts"), text("token")])), None);
}

#[test]
fn section_with_wrong_types_is_read_leniently() {
    let section = table(vec![("hosts", text("http://a")), ("token", Tree::List(vec![]))]);
    assert_eq!(
        parse_vault_config(&section),
        Some(VaultConfig { hosts: vec![], token: String::new() })
    );
}

#[test]
fn section_with_a_repeated_key_reads_the_first() {
    let section = table(vec![
        ("hosts", Tree::List(vec![text("http://first")])),
        ("token", text("one")),
        ("hosts", Tree::List(vec![text("http://second")])),
        ("token", text("two")),
    ]);
    assert_eq!(
        parse_vault_config(&section),
        Some(VaultConfig { hosts: vec!["http://first".to_string()], token: "one".to_string() })
    );
}

#[test]
fn default_config_has_no_vault_and_warns() {
    assert_eq!(Config::default(), Config { vault: None, log_level: LogLevel::Warn });
}

#[test]
fn document_without_vault_gives_the_default() {
    assert_eq!(config_from_document(&table(vec![])), Config::default());
    assert_eq!(config_from_document(&Tree::Other), Config::default());
    assert_eq!(config_from_document(&table(vec![("vault", table(vec![]))])), Config::default());
}

#[test]
fn document_with_vault_gives_its_section() {
    let document = table(vec![
        ("log", text("trace")),
        ("vault", table(vec![("token", text("t")), ("hosts", Tree::List(vec![text("h")]))])),
    ]);
    assert_eq!(
        config_from_document(&document),
        Config {
            vault: Some(VaultConfig { hosts: vec!["h".to_string()], token: "t".to_string() }),
            log_level: LogLevel::Warn,
        }
    );
}

#[test]
fn resolve_without_document_takes_the_level_from_the_flags() {
    assert_eq!(resolve(0, None), Config { vault: None, log_level: LogLevel::Warn });
    assert_eq!(resolve(1, None), Config { vault: None, log_level: LogLevel::Info });
    assert_eq!(resolve(2, None), Config { vault: None, log_level: LogLevel::Debug });
    assert_eq!(resolve(7, None), Config { vault: None, log_level: LogLevel::Trace });
}

#[test]
fn resolve_overrides_the_level_of_the_document() {
    let document = table(vec![(
        "vault",
        table(vec![("hosts", Tree::List(vec![text("h")])), ("token", text("t"))]),
    )]);
    let config = resolve(3, Some(&document));
    assert_eq!(config.log_level, LogLevel::Trace);
    assert_eq!(
        config.vault,
        Some(VaultConfig { hosts: vec!["h".to_string()], token: "t".to_string() })
    );
}

#[test]
fn get_config_without_a_file_gives_defaults_at_the_flag_level() {
    assert_eq!(get_config(0, None), Ok(Config { vault: None, log_level: LogLevel::Warn }));
    assert_eq!(get_config(2, None), Ok(Config { vault: None, log_level: LogLevel::Debug }));
    assert_eq!(get_config(100, None), Ok(Config { vault: None, log_level: LogLevel::Trace }));
}

#[test]
fn get_config_with_a_file_and_two_flags_is_debug_with_vault() {
    let file = "[vault]\nhosts = [\"http://host1:8200\", \"http://host2:8200\"]\ntoken = \"s.xxxxxxxx\"\n";
    let config = get_config(2, Some(file)).unwrap();
    assert_eq!(config.log_level, LogLevel::Debug);
    assert_eq!(
        config.vault,
        Some(VaultConfig {
            hosts: vec!["http://host1:8200".to_string(), "http://host2:8200".to_string()],
            token: "s.xxxxxxxx".to_string(),
        })
    );
}

#[test]
fn get_config_with_a_file_and_no_flag_warns() {
    let config = get_config(0, Some("[vault]\nhosts = []\ntoken = \"\"\n")).unwrap();
    assert_eq!(
        config,
        Config {
            vault: Some(VaultConfig { hosts: vec![], token: String::new() }),
            log_level: LogLevel::Warn,
        }
    );
}

#[test]
fn get_config_with_malformed_text_is_a_syntax_error() {
    match get_config(3, Some("token = ")) {
        Err(ConfigError::SyntaxInvalid { errors }) => assert!(errors >= 1),
        other => panic!("expected a syntax error, got {:?}", other),
    }
}

#[test]
fn bootstrap_hands_out_the_vault_section() {
    let vault = VaultConfig { hosts: vec!["http://a".to_string()], token: "t".to_string() };
    let config = Config {
        vault: Some(VaultConfig { hosts: vec!["http://a".to_string()], token: "t".to_string() }),
        log_level: LogLevel::Info,
    };
    assert_eq!(bootstrap(config), Ok(vault));
}

#[test]
fn bootstrap_refuses_a_config_without_vault() {
    assert_eq!(bootstrap(Config::default()), Err(ConfigError::BackendSectionMissing));
    let config = get_config(3, None).unwrap();
    assert_eq!(bootstrap(config), Err(ConfigError::BackendSectionMissing));
}

#[test]
fn config_file_defaults_to_the_system_path() {
    assert_eq!(DEFAULT_CONFIG_FILE, "/etc/nebulosus/nebulosus.conf");
    assert_eq!(config_file(None), "/etc/nebulosus/nebulosus.conf");
    assert_eq!(config_file(Some("./local.conf")), "./local.conf");
    assert_eq!(config_file(Some("")), "");
}

#[test]
fn error_messages_name_the_cause() {
    assert_eq!(ConfigError::SyntaxInvalid { errors: 2 }.message(), "Bad config format");
    assert_eq!(ConfigError::BackendSectionMissing.message(), "Nebulosus requires vault to run!");
}

#[test]
fn backend_section_is_looked_up_under_vault() {
    let section = table(vec![("hosts", Tree::List(vec![text("h")])), ("token", text("t"))]);
    let document = table(vec![("vault", section)]);
    assert_eq!(
        extract_backend_section(&document),
        Some(VaultConfig { hosts: vec!["h".to_string()], token: "t".to_string() })
    );
    let elsewhere = table(vec![(
        "Vault",
        table(vec![("hosts", Tree::List(vec![text("h")])), ("token", text("t"))]),
    )]);
    assert_eq!(extract_backend_section(&elsewhere), None);
    assert_eq!(extract_backend_section(&table(vec![("vault", text("t"))])), None);
}

#[test]
fn only_the_empty_string_is_dropped_from_hosts() {
    let config = parsed_config("[vault]\nhosts = [\" \", \"\", \"0\"]\ntoken = \"\"\n").unwrap();
    let vault = config.vault.unwrap();
    assert_eq!(vault.hosts, vec![" ".to_string(), "0".to_string()]);
    assert_eq!(vault.token, "");
}

#[test]
fn get_config_saturates_at_trace() {
    let config = get_config(u64::MAX, Some("[vault]\nhosts = [\"h\"]\ntoken = \"t\"\n")).unwrap();
    assert_eq!(config.log_level, LogLevel::Trace);
    assert_eq!(get_config(3, None).unwrap().log_level, LogLevel::Trace);
}
