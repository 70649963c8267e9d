use dino_aiss::config::load_document;
use dino_aiss::engine::run_rules;
use dino_aiss::fixer::{apply_all, fix_document, ConfigFix};
use dino_aiss::Scanner;
use dino_aiss::{
    get_all_scanners, Finding, JsonValue, OpenClawConfig, RuleKind, ScanResult, Severity,
};

fn config_of(text: &str) -> OpenClawConfig {
    OpenClawConfig::from_dict(load_document(text).unwrap()).unwrap()
}

fn finding(sev: Severity) -> Finding {
    Finding::new("x.y", "x", sev, "t", "d", "i", "r", "x.y")
}

fn score_in_order(sevs: &[Severity]) -> i32 {
    let mut r = ScanResult::new();
    for s in sevs {
        r.add_finding(finding(*s));
    }
    r.health_score
}

#[test]
fn score_stays_within_bounds() {
    assert_eq!(score_in_order(&[]), 100);
    assert_eq!(score_in_order(&[Severity::Critical; 5]), 0);
    assert_eq!(score_in_order(&[Severity::Critical; 9]), 0);
    assert_eq!(score_in_order(&[Severity::Info]), 98);
}

#[test]
fn adding_a_finding_never_raises_the_score() {
    let base = [Severity::High, Severity::Low];
    let before = score_in_order(&base);
    for s in [Severity::Critical, Severity::High, Severity::Medium, Severity::Low, Severity::Info] {
        let mut more = base.to_vec();
        more.push(s);
        assert!(score_in_order(&more) <= before);
    }
    assert_eq!(before, 80);
}

#[test]
fn incremental_score_equals_one_pass_for_any_order() {
    let sevs = [
        Severity::Critical,
        Severity::Critical,
        Severity::Critical,
        Severity::High,
        Severity::Low,
        Severity::Info,
    ];
    let one_pass = (100 + sevs.iter().map(|s| s.score()).sum::<i32>()).clamp(0, 100);
    assert_eq!(one_pass, 3);
    let mut order = sevs.to_vec();
    for _ in 0..order.len() {
        order.rotate_left(1);
        assert_eq!(score_in_order(&order), one_pass);
    }
    order.reverse();
    assert_eq!(score_in_order(&order), one_pass);
}

fn fixes() -> Vec<ConfigFix> {
    vec![
        ConfigFix {
            path: "agents.defaults.sandbox".to_string(),
            key: "mode".to_string(),
            value: JsonValue::Str("docker".to_string()),
            description: "Enable sandbox mode".to_string(),
        },
        ConfigFix {
            path: "gateway".to_string(),
            key: "bind".to_string(),
            value: JsonValue::Str("loopback".to_string()),
            description: "Bind to loopback only".to_string(),
        },
        ConfigFix {
            path: "tools.fs".to_string(),
            key: "workspaceOnly".to_string(),
            value: JsonValue::Bool(true),
            description: "Enable file system workspace isolation".to_string(),
        },
    ]
}

#[test]
fn applying_fixes_twice_changes_nothing_more() {
    let doc = r#"{"gateway":{"bind":"lan","port":18789},"tools":{"fs":{"workspaceOnly":false}},"list":[1,2.5,-3]}"#;
    let once = fix_document(doc, fixes()).unwrap();
    let twice = fix_document(&once, fixes()).unwrap();
    assert_eq!(once, twice);
    assert!(once.contains("\"workspaceOnly\": true"));
    assert!(once.contains("2.5"));
    assert!(once.contains("18789"));
}

#[test]
fn fix_through_a_scalar_fails() {
    let doc = load_document(r#"{"gateway":"loopback"}"#).unwrap();
    let fix = vec![ConfigFix {
        path: "gateway.auth".to_string(),
        key: "mode".to_string(),
        value: JsonValue::Str("token".to_string()),
        description: "Enable token authentication".to_string(),
    }];
    assert_eq!(apply_all(doc, fix).err(), Some(0));
    let err = fix_document(r#"{"gateway":"loopback"}"#, fixes()).unwrap_err();
    assert!(err.starts_with("Failed to apply fixes"));
}

#[test]
fn a_rule_reports_the_same_alone_or_with_others() {
    let config = config_of(
        r#"{"gateway":{"bind":"lan"},"channels":{"telegram":{"enabled":true,"dmPolicy":"open"}},"memory":{"backend":"qmd"}}"#,
    );
    let all = get_all_scanners();
    let together = run_rules(&config, &all);
    for (i, kind) in all.iter().enumerate() {
        let alone = run_rules(&config, &vec![*kind]);
        let a: Vec<&str> = alone[0].iter().map(|f| f.id.as_str()).collect();
        let b: Vec<&str> = together[i].iter().map(|f| f.id.as_str()).collect();
        assert_eq!(a, b);
    }
    let pair = run_rules(&config, &vec![RuleKind::Memory, RuleKind::Gateway]);
    let gw: Vec<&str> = pair[1].iter().map(|f| f.id.as_str()).collect();
    assert_eq!(
        gw,
        vec!["gateway.lan_no_auth", "gateway.control_ui_no_origins", "gateway.no_trusted_proxies"]
    );
}

#[test]
fn fixing_reads_json_only() {
    let err = fix_document("gateway:\n  bind: lan\n", fixes()).unwrap_err();
    assert!(err.starts_with("Failed to parse config: "));
    let dry = dino_aiss::fixer::plan_fix("c.json", "{}", "{\n  \"a\": 1\n}", true);
    assert!(dry.writes.is_empty());
    assert_eq!(dry.message, "DRY RUN - Would apply fixes:\n{\n  \"a\": 1\n}");
    let real = dino_aiss::fixer::plan_fix("c.json", "{}", "{}", false);
    assert_eq!(real.message, "Applied fixes. Backup saved to: c.json.bak");
}

#[test]
fn an_overridden_node_entry_is_not_reported() {
    let nodes = JsonValue::Object(vec![
        (
            "n".to_string(),
            JsonValue::Object(vec![(
                "allowCommands".to_string(),
                JsonValue::Array(vec![JsonValue::Str("*".to_string())]),
            )]),
        ),
        ("n".to_string(), JsonValue::Object(vec![])),
    ]);
    let raw = JsonValue::Object(vec![("nodes".to_string(), nodes)]);
    let config = OpenClawConfig::from_dict(raw).unwrap();
    assert!(dino_aiss::NodeScanner.scan(&config).is_empty());
}

#[test]
fn undecodable_fix_input_names_the_step() {
    let err = fix_document("[", fixes()).unwrap_err();
    assert!(err.starts_with("Failed to parse config: "));
}
