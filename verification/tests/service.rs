use tracking_pixel::service::{ServiceConfig, DEFAULT_PORT};

#[test]
fn default_port_is_3033() {
    assert_eq!(DEFAULT_PORT, 3033);
    assert_eq!(ServiceConfig::new("pixel", "0.1.0").port, 3033);
}

#[test]
fn config_keeps_name_and_version() {
    let config = ServiceConfig::new("tracking-pixel", "1.2.3");
    assert_eq!(config.name, "tracking-pixel");
    assert_eq!(config.version, "1.2.3");
}

#[test]
fn identity_is_name_space_version() {
    let config = ServiceConfig::new("tracking-pixel", "1.2.3");
    assert_eq!(config.identity(), "tracking-pixel 1.2.3");
}

#[test]
fn identity_is_never_empty() {
    let text = ServiceConfig::new("", "").identity();
    assert_eq!(text, " ");
    assert!(!text.is_empty());
}

#[test]
fn identity_holds_name_and_version_tokens() {
    let text = ServiceConfig::new("svc", "9.9").identity();
    let tokens: Vec<&str> = text.split(' ').collect();
    assert_eq!(tokens, vec!["svc", "9.9"]);
}

#[test]
fn identity_does_not_depend_on_port() {
    let mut config = ServiceConfig::new("svc", "2.0");
    config.port = 8080;
    assert_eq!(config.identity(), "svc 2.0");
}
