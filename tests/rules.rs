use dino_aiss::config::load_document;
use dino_aiss::fixer::{generate_fix_suggestions, generate_fixes, preview_fixes, split_path};
use dino_aiss::knowledge::get_knowledge_base;
use dino_aiss::scanner::credentials::find_secret_marker;
use dino_aiss::{
    BrowserScanner, ChannelScanner, ControlPlaneScanner, CredentialsScanner, Finding,
    GatewayScanner, MemoryScanner, NodeScanner, OpenClawConfig, PluginScanner,
    PromptInjectionScanner, Scanner, SessionScanner, Severity, ToolsScanner,
};

fn config_of(text: &str) -> OpenClawConfig {
    OpenClawConfig::from_text(text).unwrap()
}

fn ids(fs: &[Finding]) -> Vec<&str> {
    fs.iter().map(|f| f.id.as_str()).collect()
}

#[test]
fn gateway_lan_without_token_and_weak_token() {
    let c = config_of(r#"{"gateway":{"bind":"lan","discovery":{"mdns":{"mode":"full"}},"http":{"noAuth":true},"tailscale":{"funnel":true}}}"#);
    let fs = GatewayScanner.scan(&c);
    assert_eq!(
        ids(&fs),
        vec![
            "gateway.lan_no_auth",
            "gateway.tailscale_funnel",
            "gateway.mdns_full",
            "gateway.control_ui_no_origins",
            "gateway.http_no_auth",
            "gateway.no_trusted_proxies"
        ]
    );
    let c = config_of(r#"{"gateway":{"bind":"loopback","auth":{"token":"abcde"}}}"#);
    let fs = GatewayScanner.scan(&c);
    assert_eq!(ids(&fs), vec!["gateway.weak_token"]);
    assert_eq!(fs[0].severity, Severity::High);
    assert_eq!(fs[0].description, "Gateway token is only 5 characters (recommended: 32+)");
    assert_eq!(GatewayScanner.name(), "gateway");
}

#[test]
fn yaml_document_is_read_when_json_fails() {
    let c = config_of("gateway:\n  bind: \"0.0.0.0\"\n  port: 8080\n");
    assert_eq!(c.gateway.bind.as_deref(), Some("0.0.0.0"));
    assert_eq!(c.gateway.port, Some(8080));
    assert!(ids(&GatewayScanner.scan(&c)).contains(&"gateway.bind_public"));
}

#[test]
fn undecodable_text_is_an_error() {
    let err = load_document("{ not: [valid").unwrap_err();
    assert!(err.starts_with("Failed to parse config: "));
    assert!(OpenClawConfig::from_text("{ not: [valid").is_err());
}

#[test]
fn mistyped_values_are_unset() {
    let c = config_of(r#"{"gateway":{"bind":7,"auth":"none","trustedProxies":["a",3,"b"]},"channels":{"slack":{"enabled":true},"discord":5}}"#);
    assert_eq!(c.gateway.bind, None);
    assert_eq!(c.gateway.auth_mode, None);
    assert_eq!(c.gateway.trusted_proxies, Some(vec!["a".to_string(), "b".to_string()]));
    assert_eq!(c.channels.len(), 1);
    assert_eq!(c.channels[0].0, "slack");
}

#[test]
fn sandbox_deny_list_incomplete() {
    let c = config_of(r#"{"agents":{"defaults":{"sandbox":{"mode":"docker","workspaceAccess":"rw","scope":"shared"}}},"tools":{"deny":["gateway","sessions_send"]}}"#);
    let fs = dino_aiss::SandboxScanner.scan(&c);
    assert_eq!(
        ids(&fs),
        vec!["sandbox.workspace_rw", "sandbox.scope_shared", "sandbox.tools_deny_incomplete"]
    );
    assert_eq!(fs[2].title, "tools.deny Missing: cron, sessions_spawn");
}

#[test]
fn tools_shell_bins_and_ssrf() {
    let c = config_of(r#"{"tools":{"exec":{"safeBins":["/usr/bin/env","/bin/sh"],"security":"deny"},"fs":{"workspaceOnly":false},"webFetch":{"ssrfPolicy":"strict"},"webSearch":{"ssrfPolicy":"lax"}}}"#);
    let fs = ToolsScanner.scan(&c);
    assert_eq!(
        ids(&fs),
        vec![
            "tools.fs_workspace_only_disabled",
            "tools.exec_security_deny",
            "tools.web_search_no_ssrf",
            "tools.safe_bins_dangerous./bin/sh",
            "tools.safe_bins_dangerous./usr/bin/env"
        ]
    );
    assert_eq!(fs[2].description, "web_search ssrfPolicy is 'lax'");
    assert_eq!(fs[3].title, "Dangerous bin in safeBins: /bin/sh");
    assert_eq!(fs[4].config_path, "tools.exec.safeBins[/usr/bin/env]");
}

#[test]
fn session_and_channels() {
    let c = config_of(r#"{"session":{"dmScope":"main"},"channels":{"telegram":{"enabled":true,"dmPolicy":"open","allowFrom":["*"]},"discord":{"enabled":true,"dmPolicy":"disabled","groupPolicy":"open"},"slack":{"enabled":false,"dmPolicy":"open"}}}"#);
    assert_eq!(ids(&SessionScanner.scan(&c)), vec!["session.dm_scope_main_multi_channel"]);
    assert_eq!(
        ids(&ChannelScanner.scan(&c)),
        vec![
            "channel.telegram.dm_policy_open",
            "channel.telegram.allow_from_wildcard",
            "channel.discord.dm_disabled",
            "channel.discord.group_policy_open"
        ]
    );
    let d = config_of("{}");
    let fs = SessionScanner.scan(&d);
    assert_eq!(ids(&fs), vec!["session.dm_scope_default"]);
    assert_eq!(fs[0].severity, Severity::Info);
}

#[test]
fn credentials_tokens_and_secrets() {
    let c = config_of(r#"{"gateway":{"auth":{"token":"REDACTED_abcdefghij"}}}"#);
    assert_eq!(ids(&CredentialsScanner.scan(&c)), vec!["credentials.potential_secret_found"]);
    let c = config_of(r#"{"gateway":{"auth":{"mode":"x","token":"abcdefghijkl"}}}"#);
    assert_eq!(
        ids(&CredentialsScanner.scan(&c)),
        vec!["credentials.weak_gateway_token", "credentials.potential_secret_found"]
    );
    let c = config_of(r#"{"Service":{"APIKEY":"q"}}"#);
    let fs = CredentialsScanner.scan(&c);
    assert_eq!(fs[0].description, "Found potential secret pattern 'apikey' in configuration");
    assert!(CredentialsScanner.scan(&config_of(r#"{"a":"b"}"#)).is_empty());
    assert_eq!(find_secret_marker("my sk-123 token"), Some("sk-"));
    assert_eq!(find_secret_marker("nothing here"), None);
}

#[test]
fn nodes_commands_and_capabilities() {
    let c = config_of(r#"{"nodes":{"phone":{"allowCommands":["ls","all"],"capabilities":["sms","wifi","camera"]},"pi":{"allowCommands":["ls"]},"x":3},"tools":{"exec":{"allowNodeExec":true}}}"#);
    let fs = NodeScanner.scan(&c);
    assert_eq!(
        ids(&fs),
        vec![
            "nodes.phone.unrestricted_commands",
            "nodes.phone.sensitive_capabilities",
            "nodes.exec_allowed"
        ]
    );
    assert_eq!(fs[1].description, "Node 'phone' has access to: sms, camera");
    assert_eq!(fs[0].config_path, "nodes.phone.allowCommands");
}

#[test]
fn browser_exposure_and_profile() {
    let c = config_of(r#"{"tools":{"browser":{"relay":{"bind":"0.0.0.0"},"cdp":{"enabled":true,"bind":"127.0.0.1"},"downloadDir":"/","profile":"MY-DEFAULT"}}}"#);
    assert_eq!(
        ids(&BrowserScanner.scan(&c)),
        vec!["browser.relay_public", "browser.download_root", "browser.default_profile"]
    );
    let c = config_of(r#"{"tools":{"browser":{"cdp":{"enabled":true,"bind":"lan"},"downloadDir":"","profile":"work"}}}"#);
    assert_eq!(ids(&BrowserScanner.scan(&c)), vec!["browser.cdp_public", "browser.download_root"]);
}

#[test]
fn memory_and_injection_chains() {
    let c = config_of(r#"{"memory":{"backend":"qmd","transcriptRetention":"forever","embeddingModel":"openai:x","searchProvider":"fuse"},"agents":{"defaults":{"sandbox":{"mode":"off"}}},"tools":{"webFetch":{"ssrfPolicy":"x"},"exec":{"host":"sandbox"}}}"#);
    assert_eq!(
        ids(&MemoryScanner.scan(&c)),
        vec!["memory.qmd_backend", "memory.transcript_forever", "memory.external_embedding"]
    );
    assert_eq!(
        ids(&PromptInjectionScanner.scan(&c)),
        vec![
            "injection.sandbox_off_plus_web",
            "injection.workspace_plus_exec",
            "injection.sessions_spawn_plus_memory",
            "injection.info"
        ]
    );
    let d = config_of(r#"{"memory":{"embeddingModel":"ollama:nomic"}}"#);
    assert!(MemoryScanner.scan(&d).is_empty());
}

#[test]
fn control_plane_tools_and_profile() {
    let c = config_of(r#"{"tools":{"deny":["cron","sessions_send"],"profile":"full"}}"#);
    let fs = ControlPlaneScanner.scan(&c);
    assert_eq!(
        ids(&fs),
        vec![
            "control_plane.gateway_not_denied",
            "control_plane.sessions_spawn_not_denied",
            "control_plane.unrestricted_profile"
        ]
    );
    assert_eq!(fs[2].severity, Severity::Critical);
}

#[test]
fn plugins_skills_extensions() {
    let c = config_of(r#"{"plugins":{"installed":[{"source":"https://github.com/evil/x"},{"version":"1.0","source":"github.com/openclaw/y"}]},"skills":{"installed":[{"url":"https://hub/a/%2e%2e/b","source":"clawhub"},{"source":"ftp://x"}]},"extensions":{"enabled":[1,2,3,4,5,6]}}"#);
    let fs = PluginScanner.scan(&c);
    assert_eq!(
        ids(&fs),
        vec![
            "plugins.0.unpinned_version",
            "plugins.0.untrusted_source",
            "skills.0.path_traversal",
            "skills.1.untrusted_source",
            "extensions.too_many"
        ]
    );
    assert_eq!(fs[2].cve.as_deref(), Some("CVE-2026-XXXXX"));
    assert_eq!(fs[4].description, "6 extensions are enabled");
    assert_eq!(fs[1].config_path, "plugins.installed[0].source");
    assert_eq!(fs[3].config_path, "skills.installed[1].source");
}

#[test]
fn knowledge_base_lookups() {
    let kb = get_knowledge_base();
    assert_eq!(kb.cves.len(), 4);
    assert_eq!(
        kb.get_mitigation("CVE-2026-25593"),
        Some("Validate cliPath, use absolute paths only, enable sandbox mode")
    );
    assert_eq!(kb.get_mitigation("CVE-1999-0001"), None);
    assert!(kb.is_affected("CVE-2026-24763", "2026.1.1"));
    assert!(!kb.is_affected("CVE-2025-XXXXX", "2026.1.1"));
    assert!(!kb.is_affected("CVE-1999-0001", "1"));
}

#[test]
fn fixes_preview_and_suggestions() {
    let c = config_of(r#"{"tools":{"elevated":{"enabled":true}},"agents":{"defaults":{"sandbox":{"mode":"docker"}}}}"#);
    let mut fs = ToolsScanner.scan(&c);
    fs.extend(SessionScanner.scan(&c));
    let fixes = generate_fixes(&fs);
    let targets: Vec<(&str, &str)> = fixes.iter().map(|f| (f.path.as_str(), f.key.as_str())).collect();
    assert_eq!(
        targets,
        vec![
            ("tools.elevated", "enabled"),
            ("tools.webFetch", "ssrfPolicy"),
            ("tools.webSearch", "ssrfPolicy"),
            ("session", "dmScope")
        ]
    );
    let preview = preview_fixes(&fs);
    assert!(preview.starts_with("Automatic fixes available:\n\n1. tools.elevated: Set enabled to false\n   Disable elevated mode\n\n2. "));
    assert!(preview.contains("4. session: Set dmScope to \"per-channel-peer\"\n"));
    assert_eq!(preview_fixes(&[]), "No automatic fixes available for these findings.");
    let lines = generate_fix_suggestions(&fs);
    assert_eq!(lines[0], "[CRITICAL] Elevated Mode Enabled: Set tools.elevated.enabled to false");
    assert_eq!(lines[3], "[INFO] DM Scope Not Explicitly Set: Review and fix: session.dmScope");
}

#[test]
fn dotted_paths_split_like_str_split() {
    assert_eq!(split_path("agents.defaults.sandbox"), vec!["agents", "defaults", "sandbox"]);
    assert_eq!(split_path(""), vec![""]);
    assert_eq!(split_path("a..b."), vec!["a", "", "b", ""]);
}

#[test]
fn each_unpinned_plugin_has_its_own_id() {
    let c = config_of(r#"{"plugins":{"installed":[{"source":"a"},{"source":"b"},{"version":"1"}]}}"#);
    let fs = PluginScanner.scan(&c);
    assert_eq!(ids(&fs), vec!["plugins.0.unpinned_version", "plugins.1.unpinned_version"]);
    assert_eq!(fs[1].config_path, "plugins.installed[1].version");
}

#[test]
fn upper_case_encoded_traversal_is_caught() {
    let c = config_of(r#"{"skills":{"installed":[{"url":"https://h/%2E%2E/x","source":"clawhub"},{"url":"https://h/%2e./x","source":"clawhub"},{"url":"https://h/ok","source":"clawhub"}]}}"#);
    let fs = PluginScanner.scan(&c);
    assert_eq!(ids(&fs), vec!["skills.0.path_traversal", "skills.1.path_traversal"]);
    assert_eq!(fs[0].severity, Severity::Critical);
}

#[test]
fn out_of_range_port_is_unset() {
    assert_eq!(config_of(r#"{"gateway":{"port":70000}}"#).gateway.port, None);
    assert_eq!(config_of(r#"{"gateway":{"port":65535}}"#).gateway.port, Some(65535));
    assert_eq!(config_of(r#"{"gateway":{"port":-1}}"#).gateway.port, None);
}

#[test]
fn each_dangerous_bin_has_its_own_id() {
    let c = config_of(r#"{"tools":{"exec":{"safeBins":["/bin/sh","/bin/bash"]},"webFetch":{"ssrfPolicy":"strict"},"webSearch":{"ssrfPolicy":"strict"}}}"#);
    let fs = ToolsScanner.scan(&c);
    assert_eq!(
        ids(&fs),
        vec!["tools.safe_bins_dangerous./bin/sh", "tools.safe_bins_dangerous./bin/bash"]
    );
}
