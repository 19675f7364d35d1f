use cram::aliases::AliasTable;
use cram::config::{
    cram_home, is_update_check_disabled, resolve, ConfigError, ConfigFile, CredentialsFile,
    Environment, GatewayCredentials, UpdateSection, VertexCredentials, VertexSection,
};

fn text(s: &str) -> Option<String> {
    Some(s.to_string())
}

#[test]
fn precedence_env_overrides_config() {
    let mut env = Environment::empty();
    env.gcp_project_id = text("env-project");
    env.gcp_location = text("asia-east1");
    env.gateway_api_key = text("env-key");

    let config_file = ConfigFile {
        port: Some(9999),
        vertex: Some(VertexSection {
            project: Some("config-project".into()),
            location: Some("us-central1".into()),
        }),
        models: None,
        update: None,
    };
    let credentials_file = CredentialsFile {
        vertex: None,
        gateway: Some(GatewayCredentials {
            api_key: Some("config-key".into()),
        }),
    };

    let res = resolve(None, Some(config_file), Some(credentials_file), &env, AliasTable::new()).unwrap();
    assert_eq!(res.vertex.project(), "env-project");
    assert_eq!(res.vertex.location(), "asia-east1");
    assert_eq!(res.vertex.gateway_key(), "env-key");
    assert_eq!(res.port, 9999);
}

#[test]
fn update_check_disabled_via_env() {
    let mut env = Environment::empty();
    env.cram_no_update_check = text("1");
    assert!(is_update_check_disabled(&env, None));
}

#[test]
fn update_check_disabled_via_config() {
    let env = Environment::empty();
    let cfg = ConfigFile {
        update: Some(UpdateSection { check: Some(false) }),
        ..Default::default()
    };
    assert!(is_update_check_disabled(&env, Some(&cfg)));
}

#[test]
fn precedence_flag_overrides_env_and_config() {
    let mut env = Environment::empty();
    env.gcp_project_id = text("p");
    env.bind_addr = text("127.0.0.1:8888");

    let config_file = ConfigFile {
        port: Some(7777),
        vertex: None,
        models: None,
        update: None,
    };
    let res = resolve(Some(9000), Some(config_file), None, &env, AliasTable::new()).unwrap();
    assert_eq!(res.port, 9000);
}

#[test]
fn missing_config_file_falls_back_to_env() {
    let mut env = Environment::empty();
    env.gcp_project_id = text("fallback-project");

    let res = resolve(None, None, None, &env, AliasTable::new()).unwrap();
    assert_eq!(res.vertex.project(), "fallback-project");
    assert_eq!(res.vertex.location(), "global");
    assert_eq!(res.vertex.gateway_key(), "");
    assert_eq!(res.port, 8787);
}

#[test]
fn bind_addr_port_overrides_config_port() {
    let mut env = Environment::empty();
    env.gcp_project_id = text("p");
    env.bind_addr = text("127.0.0.1:8888");
    let cfg = ConfigFile { port: Some(7777), ..Default::default() };
    let res = resolve(None, Some(cfg), None, &env, AliasTable::new()).unwrap();
    assert_eq!(res.port, 8888);
}

#[test]
fn unparsable_bind_addr_port_falls_back_to_config_port() {
    let mut env = Environment::empty();
    env.gcp_project_id = text("p");
    env.bind_addr = text("localhost:http");
    let cfg = ConfigFile { port: Some(7777), ..Default::default() };
    let res = resolve(None, Some(cfg), None, &env, AliasTable::new()).unwrap();
    assert_eq!(res.port, 7777);

    env.bind_addr = text("127.0.0.1:70000");
    let res = resolve(None, None, None, &env, AliasTable::new()).unwrap();
    assert_eq!(res.port, 8787);

    env.bind_addr = text("[::1]:+0900");
    let res = resolve(None, None, None, &env, AliasTable::new()).unwrap();
    assert_eq!(res.port, 900);
}

#[test]
fn blank_env_project_falls_back_to_config() {
    let mut env = Environment::empty();
    env.gcp_project_id = text("   ");
    env.gcp_location = text("\t");
    let cfg = ConfigFile {
        vertex: Some(VertexSection {
            project: Some("config-project".into()),
            location: None,
        }),
        ..Default::default()
    };
    let res = resolve(None, Some(cfg), None, &env, AliasTable::new()).unwrap();
    assert_eq!(res.vertex.project(), "config-project");
    assert_eq!(res.vertex.location(), "global");
}

#[test]
fn missing_project_is_an_error() {
    let mut env = Environment::empty();
    env.gcp_project_id = text(" ");
    let err = resolve(None, None, None, &env, AliasTable::new()).err().unwrap();
    assert_eq!(err, ConfigError::MissingProject);
    assert!(err.message().starts_with("missing GCP_PROJECT_ID\nSet it in ~/.cram/config.toml"));
}

#[test]
fn empty_gateway_key_in_env_still_wins() {
    let mut env = Environment::empty();
    env.gcp_project_id = text("p");
    env.gateway_api_key = text("");
    let creds = CredentialsFile {
        vertex: None,
        gateway: Some(GatewayCredentials { api_key: Some("file-key".into()) }),
    };
    let res = resolve(None, None, Some(creds.clone()), &env, AliasTable::new()).unwrap();
    assert_eq!(res.vertex.gateway_key(), "");

    env.gateway_api_key = None;
    let res = resolve(None, None, Some(creds), &env, AliasTable::new()).unwrap();
    assert_eq!(res.vertex.gateway_key(), "file-key");
}

#[test]
fn key_file_is_exported_only_when_env_has_none() {
    let mut env = Environment::empty();
    env.gcp_project_id = text("p");
    let creds = CredentialsFile {
        vertex: Some(VertexCredentials { key_file: Some("/keys/sa.json".into()) }),
        gateway: None,
    };
    let res = resolve(None, None, Some(creds.clone()), &env, AliasTable::new()).unwrap();
    assert_eq!(res.export_credentials, Some("/keys/sa.json".to_string()));

    env.google_application_credentials = text("  ");
    let res = resolve(None, None, Some(creds.clone()), &env, AliasTable::new()).unwrap();
    assert_eq!(res.export_credentials, Some("/keys/sa.json".to_string()));

    env.google_application_credentials = text("/other.json");
    let res = resolve(None, None, Some(creds), &env, AliasTable::new()).unwrap();
    assert_eq!(res.export_credentials, None);

    let blank = CredentialsFile {
        vertex: Some(VertexCredentials { key_file: Some(" ".into()) }),
        gateway: None,
    };
    env.google_application_credentials = None;
    let res = resolve(None, None, Some(blank), &env, AliasTable::new()).unwrap();
    assert_eq!(res.export_credentials, None);
}

#[test]
fn aliases_layer_defaults_config_and_env() {
    let mut env = Environment::empty();
    env.gcp_project_id = text("p");
    env.model_aliases = text(r#"{"fast": "google/env-fast", "new": "google/env-new"}"#);
    let defaults = AliasTable::from_pairs(vec![
        ("pro".to_string(), "google/default-pro".to_string()),
        ("fast".to_string(), "google/default-fast".to_string()),
        ("old".to_string(), "google/default-old".to_string()),
    ]);
    let cfg = ConfigFile {
        models: Some(vec![
            ("pro".to_string(), "google/config-pro".to_string()),
            ("fast".to_string(), "google/config-fast".to_string()),
        ]),
        ..Default::default()
    };
    let res = resolve(None, Some(cfg), None, &env, defaults).unwrap();
    let aliases = &res.vertex.aliases;
    assert_eq!(aliases.get("pro"), Some("google/config-pro".to_string()));
    assert_eq!(aliases.get("fast"), Some("google/env-fast".to_string()));
    assert_eq!(aliases.get("old"), Some("google/default-old".to_string()));
    assert_eq!(aliases.get("new"), Some("google/env-new".to_string()));
    assert_eq!(aliases.get("missing"), None);
    assert_eq!(aliases.entries().len(), 4);
}

#[test]
fn invalid_model_aliases_is_an_error() {
    let mut env = Environment::empty();
    env.gcp_project_id = text("p");
    env.model_aliases = text("not json");
    let err = resolve(None, None, None, &env, AliasTable::new()).err().unwrap();
    match &err {
        ConfigError::InvalidModelAliases { detail, export_credentials } => {
            let expected = serde_json::from_str::<std::collections::HashMap<String, String>>("not json")
                .unwrap_err()
                .to_string();
            assert_eq!(*detail, expected);
            assert_eq!(*export_credentials, None);
        }
        other => panic!("unexpected error {:?}", other),
    }
    assert!(err.message().starts_with("MODEL_ALIASES is not valid JSON: "));

    env.model_aliases = text(r#"{"a": 1}"#);
    assert!(resolve(None, None, None, &env, AliasTable::new()).is_err());

    env.model_aliases = text("   ");
    assert!(resolve(None, None, None, &env, AliasTable::new()).is_ok());
}

#[test]
fn key_file_is_exported_even_when_model_aliases_fail() {
    let mut env = Environment::empty();
    env.gcp_project_id = text("p");
    env.model_aliases = text("[1, 2]");
    let creds = CredentialsFile {
        vertex: Some(VertexCredentials { key_file: Some("/keys/sa.json".into()) }),
        gateway: None,
    };
    match resolve(None, None, Some(creds.clone()), &env, AliasTable::new()) {
        Err(ConfigError::InvalidModelAliases { export_credentials, .. }) => {
            assert_eq!(export_credentials, Some("/keys/sa.json".to_string()));
        }
        _ => panic!("expected an alias error"),
    }
    env.google_application_credentials = text("/env.json");
    match resolve(None, None, Some(creds), &env, AliasTable::new()) {
        Err(ConfigError::InvalidModelAliases { export_credentials, .. }) => {
            assert_eq!(export_credentials, None);
        }
        _ => panic!("expected an alias error"),
    }
}

#[test]
fn update_check_env_values() {
    let mut env = Environment::empty();
    for value in [" 1 ", "TRUE", "true", "Yes", "\tyEs\n"] {
        env.cram_no_update_check = text(value);
        assert!(is_update_check_disabled(&env, None), "{value:?}");
    }
    for value in ["0", "no", "false", "", "truee", "y", "11"] {
        env.cram_no_update_check = text(value);
        assert!(!is_update_check_disabled(&env, None), "{value:?}");
    }
    env.cram_no_update_check = None;
    let enabled = ConfigFile { update: Some(UpdateSection { check: Some(true) }), ..Default::default() };
    assert!(!is_update_check_disabled(&env, Some(&enabled)));
    let unset = ConfigFile { update: Some(UpdateSection { check: None }), ..Default::default() };
    assert!(!is_update_check_disabled(&env, Some(&unset)));
}

#[test]
fn cram_home_choices() {
    let mut env = Environment::empty();
    assert_eq!(cram_home(&env), ".cram");
    env.home = text("/home/alice");
    assert_eq!(cram_home(&env), "/home/alice/.cram");
    env.home = text("/home/alice/");
    assert_eq!(cram_home(&env), "/home/alice/.cram");
    env.cram_home = text("  ");
    assert_eq!(cram_home(&env), "/home/alice/.cram");
    env.cram_home = text("/srv/cram");
    assert_eq!(cram_home(&env), "/srv/cram");
    env.cram_home = None;
    env.home = text(" ");
    assert_eq!(cram_home(&env), ".cram");
}
