use cram::banner::banner_lines;
use cram::cli::{Cli, Commands};
use cram::config::{CredentialsFile, Environment, GatewayCredentials, VertexCredentials};
use cram::dashboard::{DashboardEvent, DashboardUsage, RecentEvents, HISTORY_CAPACITY};
use cram::startup::{
    check_key_file, credentials_mode_warning, dash_command_url, dashboard_url,
    is_missing_credentials_error, listen_address, local_url, next_port_suggestion, with_vertex_key_file,
    KeyFileError, CREDENTIALS_FILE_MODE,
};

#[test]
fn default_command_is_serve() {
    match (Cli { command: None }).command_or_default() {
        Commands::Serve { port, no_open, quiet } => {
            assert_eq!(port, None);
            assert!(!no_open);
            assert!(!quiet);
        }
        _ => panic!("expected serve"),
    }
    match (Cli { command: Some(Commands::Dash) }).command_or_default() {
        Commands::Dash => {}
        _ => panic!("expected dash"),
    }
}

#[test]
fn key_file_checks() {
    assert_eq!(check_key_file(r#"{"type": "service_account"}"#), Ok(()));
    assert_eq!(check_key_file(r#"{"client_email": "a@b"}"#), Ok(()));
    assert_eq!(check_key_file(r#"{"type": "authorized_user"}"#), Err(KeyFileError::NotServiceAccount));
    assert_eq!(check_key_file(r#"{"type": 3}"#), Err(KeyFileError::NotServiceAccount));
    assert!(matches!(check_key_file("{"), Err(KeyFileError::InvalidJson { .. })));
}

#[test]
fn storing_key_file_keeps_gateway_key() {
    let creds = CredentialsFile {
        vertex: Some(VertexCredentials { key_file: Some("/old.json".into()) }),
        gateway: Some(GatewayCredentials { api_key: Some("secret".into()) }),
    };
    let updated = with_vertex_key_file(Some(creds), "/new.json".into());
    assert_eq!(updated.vertex.unwrap().key_file, Some("/new.json".to_string()));
    assert_eq!(updated.gateway.unwrap().api_key, Some("secret".to_string()));
    let fresh = with_vertex_key_file(None, "/k.json".into());
    assert_eq!(fresh.vertex.unwrap().key_file, Some("/k.json".to_string()));
    assert!(fresh.gateway.is_none());
}

#[test]
fn addresses() {
    let mut env = Environment::empty();
    assert_eq!(listen_address(&env, 8787), "127.0.0.1:8787");
    assert_eq!(local_url(9000), "http://127.0.0.1:9000");
    assert_eq!(dashboard_url("127.0.0.1:9000"), "http://127.0.0.1:9000/_cram/");
    assert_eq!(dash_command_url(&env), "http://127.0.0.1:8787/_cram/");
    env.bind_addr = Some("0.0.0.0:1234".into());
    assert_eq!(listen_address(&env, 8787), "0.0.0.0:1234");
    assert_eq!(dash_command_url(&env), "http://0.0.0.0:1234/_cram/");
}

#[test]
fn credential_messages_and_modes() {
    assert!(is_missing_credentials_error("x: no available authentication method found"));
    assert!(!is_missing_credentials_error("permission denied"));
    assert_eq!(credentials_mode_warning(CREDENTIALS_FILE_MODE), None);
    assert_eq!(CREDENTIALS_FILE_MODE, 0o600);
    assert_eq!(credentials_mode_warning(0o100644), Some(0o644));
    assert_eq!(credentials_mode_warning(0o100400), None);
}

#[test]
fn narrow_banner() {
    let lines = banner_lines("0.1.2", "my-project", "global", 8787, Some(60), &None);
    assert_eq!(lines, vec!["cram 0.1.2 · vertex · global · http://127.0.0.1:8787".to_string()]);
    let lines = banner_lines(
        "0.1.2",
        "p",
        "global",
        8787,
        None,
        &Some(("0.2.0".to_string(), "https://r".to_string())),
    );
    assert_eq!(lines.len(), 2);
    assert_eq!(lines[1], "  update     0.2.0 available → https://r");
}

#[test]
fn wide_banner() {
    let lines = banner_lines("0.1.2", "my-project", "global", 8787, Some(120), &None);
    assert_eq!(lines.len(), 11);
    assert_eq!(lines[0], "");
    assert_eq!(lines[1], "   \u{1b}[38;2;234;88;12m╭─────────╮\u{1b}[39m");
    assert_eq!(lines[2], "   │  \u{1b}[1m\u{1b}[38;2;234;88;12mc r a m\u{1b}[39m\u{1b}[0m │  0.1.2");
    assert_eq!(lines[3], "   \u{1b}[38;2;234;88;12m╰─────────╯\u{1b}[39m");
    assert_eq!(lines[4], "");
    assert_eq!(lines[5], "  \u{1b}[1mgateway  \u{1b}[0m  http://127.0.0.1:8787");
    assert_eq!(lines[6], "  \u{1b}[1mdashboard\u{1b}[0m  http://127.0.0.1:8787/_cram/");
    assert_eq!(lines[7], "  \u{1b}[1mupstream \u{1b}[0m  vertex · my-project · global");
    assert_eq!(lines[9], "  waiting for requests… (ctrl-c to stop)");
    let with_notice = banner_lines(
        "0.1.2",
        "my-project",
        "global",
        8787,
        Some(80),
        &Some(("0.2.0".to_string(), "https://r".to_string())),
    );
    assert_eq!(with_notice.len(), 12);
    assert_eq!(with_notice[8], "  \u{1b}[1mupdate   \u{1b}[0m  0.2.0 available → https://r");
}

#[test]
fn key_file_parse_error_is_the_parsers_message() {
    let expected = serde_json::from_str::<serde_json::Value>("{").unwrap_err().to_string();
    assert_eq!(check_key_file("{"), Err(KeyFileError::InvalidJson { detail: expected }));
}

#[test]
fn port_suggestion() {
    assert_eq!(next_port_suggestion(8787), 8788);
    assert_eq!(next_port_suggestion(65535), 65536);
}

fn event(i: u64) -> DashboardEvent {
    DashboardEvent {
        timestamp: i,
        model: format!("m{i}"),
        status: 200,
        streamed: i % 2 == 0,
        duration_ms: 10,
        ttfb_ms: Some(3),
        usage: Some(DashboardUsage {
            prompt_tokens: 1,
            completion_tokens: 2,
            reasoning_tokens: 0,
            cached_tokens: None,
        }),
    }
}

#[test]
fn history_keeps_latest_events() {
    let mut recent = RecentEvents::new();
    assert_eq!(recent.len(), 0);
    for i in 0..250u64 {
        recent.record(event(i));
    }
    assert_eq!(recent.len(), HISTORY_CAPACITY);
    let history = recent.history();
    assert_eq!(history.len(), 200);
    assert_eq!(history[0].timestamp, 50);
    assert_eq!(history[199].timestamp, 249);
    assert_eq!(history[199].model, "m249");
}
