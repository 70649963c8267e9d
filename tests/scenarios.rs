use dino_aiss::config::load_document;
use dino_aiss::fixer::{fix_document, generate_fixes, plan_fix};
use dino_aiss::{
    scan_config, Finding, GatewayScanner, OpenClawConfig, PluginScanner, SandboxScanner,
    ScanResult, Scanner, Severity, SeverityFilter, ToolsScanner,
};

fn config_of(text: &str) -> OpenClawConfig {
    OpenClawConfig::from_dict(load_document(text).unwrap()).unwrap()
}

fn score_of_critical(findings: Vec<Finding>) -> (Vec<String>, i32) {
    let mut result = ScanResult::new();
    for f in findings {
        if f.severity == Severity::Critical {
            result.add_finding(f);
        }
    }
    let ids = result.findings.iter().map(|f| f.id.clone()).collect();
    (ids, result.health_score)
}

#[test]
fn scenario_gateway_auth_none() {
    let config = config_of(r#"{"gateway":{"bind":"loopback","auth":{"mode":"none"}}}"#);
    let findings = GatewayScanner.scan(&config);
    assert_eq!(findings.len(), 1);
    assert_eq!(findings[0].id, "gateway.auth_none");
    assert_eq!(findings[0].severity, Severity::Critical);
    assert_eq!(findings[0].cve.as_deref(), Some("CVE-2026-26322"));
    let (ids, score) = score_of_critical(findings);
    assert_eq!(ids, vec!["gateway.auth_none".to_string()]);
    assert_eq!(score, 75);
}

#[test]
fn scenario_gateway_bind_public() {
    let token = "x".repeat(32);
    let text = format!(
        r#"{{"gateway":{{"bind":"0.0.0.0","auth":{{"mode":"token","token":"{}"}}}}}}"#,
        token
    );
    let config = config_of(&text);
    let findings = GatewayScanner.scan(&config);
    assert!(findings
        .iter()
        .any(|f| f.id == "gateway.bind_public" && f.severity == Severity::Critical));
    assert!(!findings.iter().any(|f| f.id == "gateway.weak_token"));
    let (ids, score) = score_of_critical(findings);
    assert_eq!(ids, vec!["gateway.bind_public".to_string()]);
    assert_eq!(score, 75);
}

#[test]
fn scenario_sandbox_off_exec_on_host() {
    let config = config_of(r#"{"agents":{"defaults":{"sandbox":{"mode":"off"}}}}"#);
    let mut all = SandboxScanner.scan(&config);
    all.extend(ToolsScanner.scan(&config));
    let (ids, score) = score_of_critical(all);
    assert_eq!(
        ids,
        vec!["sandbox.mode_off".to_string(), "tools.exec_no_sandbox".to_string()]
    );
    assert_eq!(score, 50);
}

#[test]
fn scenario_tools_elevated() {
    let config = config_of(r#"{"tools":{"elevated":{"enabled":true}}}"#);
    let (ids, score) = score_of_critical(ToolsScanner.scan(&config));
    assert_eq!(ids, vec!["tools.elevated_enabled".to_string()]);
    assert_eq!(score, 75);
}

#[test]
fn scenario_plugins_allow_unverified_has_no_fix() {
    let config = config_of(r#"{"plugins":{"allowUnverified":true}}"#);
    let findings = PluginScanner.scan(&config);
    assert_eq!(findings.len(), 1);
    assert_eq!(findings[0].id, "plugins.allow_unverified");
    assert_eq!(findings[0].severity, Severity::Critical);
    assert!(generate_fixes(&findings).is_empty());
}

#[test]
fn scenario_fixes_applied_twice_are_identical() {
    let before_fix = r#"{"agents":{"defaults":{"sandbox":{"mode":"off"}}},"gateway":{"bind":"0.0.0.0"}}"#;
    let config = config_of(before_fix);
    let mut findings = SandboxScanner.scan(&config);
    findings.extend(GatewayScanner.scan(&config));
    let ids: Vec<&str> = findings.iter().map(|f| f.id.as_str()).collect();
    assert!(ids.contains(&"sandbox.mode_off") && ids.contains(&"gateway.bind_public"));

    let first = fix_document(before_fix, generate_fixes(&findings)).unwrap();
    let plan = plan_fix("cfg.json", before_fix, &first, false);
    assert_eq!(plan.writes.len(), 2);
    assert_eq!(plan.writes[0], ("cfg.json.bak".to_string(), before_fix.to_string()));
    assert_eq!(plan.writes[1], ("cfg.json".to_string(), first.clone()));

    let second = fix_document(&first, generate_fixes(&findings)).unwrap();
    assert_eq!(first, second);
    let plan2 = plan_fix("cfg.json", &first, &second, false);
    assert_eq!(plan2.writes[0], ("cfg.json.bak".to_string(), first.clone()));

    let fixed = config_of(&second);
    assert_eq!(fixed.sandbox.mode.as_deref(), Some("docker"));
    assert_eq!(fixed.gateway.bind.as_deref(), Some("loopback"));
}

#[test]
fn full_scan_scores_what_it_keeps() {
    let config = config_of(r#"{"gateway":{"bind":"loopback","auth":{"mode":"none"}}}"#);
    let result = scan_config(&config, SeverityFilter::CriticalOnly);
    let ids: Vec<&str> = result.findings.iter().map(|f| f.id.as_str()).collect();
    assert_eq!(ids, vec!["gateway.auth_none", "sandbox.mode_off"]);
    assert_eq!(result.health_score, 50);
    assert_eq!(result.critical_count(), 2);
    assert_eq!(result.high_count(), 0);

    let all = scan_config(&config, SeverityFilter::All);
    let sum: i32 = all.findings.iter().map(|f| f.severity.score()).sum();
    assert_eq!(all.health_score, (100 + sum).clamp(0, 100));
    assert!(all.findings.iter().any(|f| f.id == "injection.info"));

    let high = scan_config(&config, SeverityFilter::HighOnly);
    assert!(high
        .findings
        .iter()
        .all(|f| f.severity == Severity::Critical || f.severity == Severity::High));
    assert!(high.findings.iter().any(|f| f.id == "control_plane.gateway_not_denied"));
}
