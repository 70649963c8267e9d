use dino_aiss::config::load_document;
use dino_aiss::{
    CredentialsScanner, GatewayScanner, OpenClawConfig, PluginScanner, SandboxScanner, Scanner,
    ToolsScanner,
};

fn config_of(text: &str) -> OpenClawConfig {
    OpenClawConfig::from_dict(load_document(text).unwrap()).unwrap()
}

#[test]
fn test_gateway_auth_none_critical() {
    let config = config_of(r#"{"gateway": {"bind": "loopback", "auth": {"mode": "none"}}}"#);
    let scanner = GatewayScanner;
    let findings = scanner.scan(&config);

    assert!(!findings.is_empty());
}

#[test]
fn test_gateway_bind_public_critical() {
    let config = config_of(
        r#"{"gateway": {"bind": "0.0.0.0", "auth": {"mode": "token", "token": "test_token_12345678901234567890123"}}}"#,
    );
    let scanner = GatewayScanner;
    let findings = scanner.scan(&config);

    assert!(!findings.is_empty());
}

#[test]
fn test_sandbox_mode_off_critical() {
    let config = config_of(r#"{"agents": {"defaults": {"sandbox": {"mode": "off"}}}}"#);
    let scanner = SandboxScanner;
    let findings = scanner.scan(&config);

    assert!(!findings.is_empty());
}

#[test]
fn test_tools_elevated_enabled() {
    let config = config_of(r#"{"tools": {"elevated": {"enabled": true}}}"#);
    let scanner = ToolsScanner;
    let findings = scanner.scan(&config);

    assert!(!findings.is_empty());
}

#[test]
fn test_credentials_token_in_config() {
    let config = config_of(r#"{"gateway": {"auth": {"token": "my_secret_token_12345678901234567890"}}}"#);
    let scanner = CredentialsScanner;
    let findings = scanner.scan(&config);

    assert!(!findings.is_empty());
}

#[test]
fn test_plugins_allow_unverified() {
    let config = config_of(r#"{"plugins": {"allowUnverified": true}}"#);
    let scanner = PluginScanner;
    let findings = scanner.scan(&config);

    assert!(!findings.is_empty());
}
