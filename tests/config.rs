use tailscale::config::{has_terminator, Config, Setting};
use tailscale::error::{BridgeError, ConfigField};
use tailscale::network::TSNetwork;

#[test]
fn network_names() {
    assert_eq!(TSNetwork::TCP.to_string(), "tcp");
    assert_eq!(TSNetwork::UDP.to_string(), "udp");
}

#[test]
fn empty_config_makes_no_setter_call() {
    assert_eq!(Config::empty().settings(), Ok(vec![]));
}

#[test]
fn settings_follow_field_order() {
    let c = Config {
        dir: Some("/var/lib/ts".to_string()),
        hostname: Some("box".to_string()),
        auth_key: Some("SECRET-REDACTED".to_string()),
        control_url: Some(String::new()),
        ephemeral: Some(true),
    };
    assert_eq!(
        c.settings(),
        Ok(vec![
            Setting::Dir("/var/lib/ts".to_string()),
            Setting::Hostname("box".to_string()),
            Setting::AuthKey("SECRET-REDACTED".to_string()),
            Setting::ControlUrl(String::new()),
            Setting::Ephemeral(true),
        ])
    );
}

#[test]
fn unset_fields_are_skipped() {
    let mut c = Config::empty();
    c.hostname = Some("box".to_string());
    c.ephemeral = Some(false);
    assert_eq!(
        c.settings(),
        Ok(vec![Setting::Hostname("box".to_string()), Setting::Ephemeral(false)])
    );
}

#[test]
fn terminator_in_field_is_configuration_error() {
    let mut c = Config::empty();
    c.auth_key = Some("ab\0cd".to_string());
    assert_eq!(c.settings(), Err(BridgeError::ConfigurationError(ConfigField::AuthKey)));
}

#[test]
fn first_bad_field_is_reported() {
    let mut c = Config::empty();
    c.hostname = Some("\0".to_string());
    c.control_url = Some("x\0".to_string());
    assert_eq!(c.settings(), Err(BridgeError::ConfigurationError(ConfigField::Hostname)));
    let mut c = Config::empty();
    c.dir = Some("d\0".to_string());
    assert_eq!(c.settings(), Err(BridgeError::ConfigurationError(ConfigField::Dir)));
    let mut c = Config::empty();
    c.control_url = Some("https://\0".to_string());
    assert_eq!(c.settings(), Err(BridgeError::ConfigurationError(ConfigField::ControlUrl)));
}

#[test]
fn terminator_detection() {
    assert!(has_terminator("a\0"));
    assert!(has_terminator("\0"));
    assert!(!has_terminator(""));
    assert!(!has_terminator("héllo"));
}
