use backend::config::{parse_port, split_at_char, Config, ConfigError};
use backend::response::ApiResponse;

fn config_with(environment: &str) -> Config {
    Config {
        database_url: "mysql://x".to_string(),
        jwt_secret: "s".to_string(),
        port: 8080,
        allowed_origins: vec![],
        environment: environment.to_string(),
    }
}

#[test]
fn production_is_detected() {
    assert!(config_with("production").is_production());
    assert!(!config_with("development").is_production());
    assert!(!config_with("Production").is_production());
}

#[test]
fn defaults_apply() {
    let c = Config::from_values("db".to_string(), "secret".to_string(), None, None, None).unwrap();
    assert_eq!(c.port, 8080);
    assert_eq!(c.allowed_origins, vec!["http://localhost:3000".to_string()]);
    assert_eq!(c.environment, "development");
    assert_eq!(c.database_url, "db");
    assert_eq!(c.jwt_secret, "secret");
}

#[test]
fn origins_are_split_and_trimmed() {
    let c = Config::from_values(
        "db".to_string(),
        "s".to_string(),
        Some("3000".to_string()),
        Some(" https://a.example , https://b.example,".to_string()),
        Some("production".to_string()),
    )
    .unwrap();
    assert_eq!(c.port, 3000);
    assert_eq!(
        c.allowed_origins,
        vec!["https://a.example".to_string(), "https://b.example".to_string(), "".to_string()]
    );
    assert!(c.is_production());
}

#[test]
fn bad_port_is_refused() {
    let r = Config::from_values("db".to_string(), "s".to_string(), Some("80a".to_string()), None, None);
    assert_eq!(r.err(), Some(ConfigError::InvalidPort));
}

#[test]
fn port_parsing_matches_std() {
    for s in ["0", "80", "+80", "065535", "65535", "65536", "", "+", "-1", " 80", "80 ", "99999999999", "٣"] {
        assert_eq!(parse_port(s), s.parse::<u16>().ok(), "input {:?}", s);
    }
}

#[test]
fn splitting_matches_std() {
    for s in ["", ",", "a", "a,b", ",a,", "a,,b", "é,ü"] {
        let want: Vec<String> = s.split(',').map(|p| p.to_string()).collect();
        assert_eq!(split_at_char(s, ','), want);
    }
}

#[test]
fn api_response_envelopes() {
    let ok = ApiResponse::success(5);
    assert!(ok.success);
    assert_eq!(ok.data, 5);
    assert!(ok.error.is_none());
    let err = ApiResponse::error("nope".to_string(), ());
    assert!(!err.success);
    assert_eq!(err.error, Some("nope".to_string()));
}
