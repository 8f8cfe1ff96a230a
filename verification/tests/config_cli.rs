use canvas_graph::cli::{cli_validate, CliInput};
use canvas_graph::config::{config_validate, ConfigFromFile, ConfigServerFromFile};
use canvas_graph::error::AppError;

fn sample_file() -> ConfigFromFile {
    ConfigFromFile {
        default_server: "school".to_owned(),
        servers: vec![
            (
                "school".to_owned(),
                ConfigServerFromFile {
                    host_url: "https://canvas.school.test".to_owned(),
                    token_eval: "'SECRET-REDACTED'".to_owned(),
                },
            ),
            (
                "sandbox".to_owned(),
                ConfigServerFromFile {
                    host_url: "https://canvas.sandbox.test".to_owned(),
                    token_eval: "pass show canvas-sandbox".to_owned(),
                },
            ),
        ],
    }
}

#[test]
fn config_validate_pairs_servers_with_tokens_in_order() {
    let parsed = config_validate(
        sample_file(),
        vec!["tok-school".to_owned(), "tok-sandbox".to_owned()],
    )
    .expect("token count matches server count");
    assert_eq!(parsed.default_server.as_str(), "school");
    assert_eq!(parsed.servers.len(), 2);
    assert_eq!(parsed.servers[0].name.as_str(), "school");
    assert_eq!(parsed.servers[0].host_url.as_str(), "https://canvas.school.test");
    assert_eq!(parsed.servers[0].api_token.as_str(), "tok-school");
    assert_eq!(parsed.servers[1].name.as_str(), "sandbox");
    assert_eq!(parsed.servers[1].api_token.as_str(), "tok-sandbox");
}

#[test]
fn config_validate_refuses_mismatched_token_count() {
    assert!(config_validate(sample_file(), vec!["only-one".to_owned()]).is_none());
}

#[test]
fn cli_validate_picks_the_named_server() {
    let config = config_validate(
        sample_file(),
        vec!["tok-school".to_owned(), "tok-sandbox".to_owned()],
    )
    .unwrap();
    let cli = CliInput { api_token: None, server: "sandbox".to_owned(), verbosity: 2 };
    let valid = cli_validate(cli, config).expect("the sandbox server is configured");
    assert_eq!(valid.verbosity, 2);
    assert_eq!(valid.server.name.as_str(), "sandbox");
    assert_eq!(valid.server.api_token.as_str(), "tok-sandbox");
}

#[test]
fn cli_validate_falls_back_to_the_default_server() {
    let config = config_validate(
        sample_file(),
        vec!["tok-school".to_owned(), "tok-sandbox".to_owned()],
    )
    .unwrap();
    let cli = CliInput { api_token: None, server: "default".to_owned(), verbosity: 0 };
    let valid = cli_validate(cli, config).expect("the default server is configured");
    assert_eq!(valid.server.name.as_str(), "school");
    assert_eq!(valid.server.host_url.as_str(), "https://canvas.school.test");
}

#[test]
fn cli_validate_reports_a_missing_server() {
    let config = config_validate(
        sample_file(),
        vec!["tok-school".to_owned(), "tok-sandbox".to_owned()],
    )
    .unwrap();
    let cli = CliInput { api_token: None, server: "nowhere".to_owned(), verbosity: 0 };
    match cli_validate(cli, config) {
        Err(AppError::CliConfigServerMissingError(msg)) => {
            assert_eq!(msg.as_str(), "Could not find server 'nowhere' in configuration.");
        },
        _ => panic!("an unknown server name must be refused"),
    }
}
