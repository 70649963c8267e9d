//! Configurations that turn a prompt injection into a bypass or an
//! exfiltration path. Injection alone is not flagged.

use vstd::prelude::*;
use crate::config::{at1, OpenClawConfig};
use crate::models::{finding_view, views, Finding, FindingView, Severity};
use crate::scanner::{add_when, present_if, Scanner};
use crate::scanner::control_plane::denied;
use crate::text::{is_text, opt_is};
use crate::tree::{child, opt_list_has};

verus! {

pub struct PromptInjectionScanner;

pub open spec fn injection_rule(c: OpenClawConfig) -> Seq<FindingView> {
    let m = "prompt_injection"@;
    present_if(
        is_text(c.sandbox.mode, "off"@) && (c.tools.web_fetch_ssrf_policy is Some
            || c.tools.web_search_ssrf_policy is Some),
        finding_view(
            "injection.sandbox_off_plus_web"@,
            m,
            Severity::Medium,
            "Sandbox Disabled with Web Tools"@,
            "Sandbox is off and web tools are enabled"@,
            "Prompt injection could lead to SSRF via web content"@,
            "Enable sandbox or disable web tools"@,
            "agents.defaults.sandbox.mode + tools.webFetch"@,
        ),
    ) + present_if(
        !is_text(c.sandbox.workspace_access, "none"@) && c.tools.exec_host is Some,
        finding_view(
            "injection.workspace_plus_exec"@,
            m,
            Severity::Medium,
            "Workspace Access with Exec Enabled"@,
            "Sandbox has workspace access and exec is enabled"@,
            "Injected content could be executed"@,
            "Restrict workspace access or disable exec"@,
            "agents.defaults.sandbox.workspaceAccess + tools.exec.host"@,
        ),
    ) + present_if(
        !denied(c, "sessions_spawn"@) && at1(c.raw, "memory") is Some,
        finding_view(
            "injection.sessions_spawn_plus_memory"@,
            m,
            Severity::Medium,
            "Session Spawn + Memory Access"@,
            "Can spawn new sessions and has memory access"@,
            "Could inject persistent instructions into memory"@,
            "Deny sessions_spawn tool or restrict memory access"@,
            "tools.deny + memory"@,
        ),
    ) + seq![finding_view(
        "injection.info"@,
        m,
        Severity::Info,
        "Prompt Injection Detection Informational"@,
        "This scanner detects configuration paths that could amplify injection impact, not injection itself"@,
        "Prompt injection alone is expected behavior - we only flag chains to bypass"@,
        "See docs for hardening guidance"@,
        "N/A"@,
    )]
}

impl Scanner for PromptInjectionScanner {
    open spec fn rule(&self, config: OpenClawConfig) -> Seq<FindingView> {
        injection_rule(config)
    }

    open spec fn module_name(&self) -> Seq<char> {
        "prompt_injection"@
    }

    fn name(&self) -> (r: &str) {
        "prompt_injection"
    }

    fn description(&self) -> &str {
        "Prompt injection chain detection"
    }

    fn scan(&self, config: &OpenClawConfig) -> (r: Vec<Finding>) {
        let m = self.name();
        let mut out: Vec<Finding> = Vec::new();
        add_when(
            &mut out,
            opt_is(&config.sandbox.mode, "off") && (config.tools.web_fetch_ssrf_policy.is_some()
                || config.tools.web_search_ssrf_policy.is_some()),
            Finding::new(
                "injection.sandbox_off_plus_web",
                m,
                Severity::Medium,
                "Sandbox Disabled with Web Tools",
                "Sandbox is off and web tools are enabled",
                "Prompt injection could lead to SSRF via web content",
                "Enable sandbox or disable web tools",
                "agents.defaults.sandbox.mode + tools.webFetch",
            ),
        );
        add_when(
            &mut out,
            !opt_is(&config.sandbox.workspace_access, "none") && config.tools.exec_host.is_some(),
            Finding::new(
                "injection.workspace_plus_exec",
                m,
                Severity::Medium,
                "Workspace Access with Exec Enabled",
                "Sandbox has workspace access and exec is enabled",
                "Injected content could be executed",
                "Restrict workspace access or disable exec",
                "agents.defaults.sandbox.workspaceAccess + tools.exec.host",
            ),
        );
        add_when(
            &mut out,
            !opt_list_has(&config.tools.deny, "sessions_spawn") && child(
                Some(&config.raw),
                "memory",
            ).is_some(),
            Finding::new(
                "injection.sessions_spawn_plus_memory",
                m,
                Severity::Medium,
                "Session Spawn + Memory Access",
                "Can spawn new sessions and has memory access",
                "Could inject persistent instructions into memory",
                "Deny sessions_spawn tool or restrict memory access",
                "tools.deny + memory",
            ),
        );
        add_when(
            &mut out,
            true,
            Finding::new(
                "injection.info",
                m,
                Severity::Info,
                "Prompt Injection Detection Informational",
                "This scanner detects configuration paths that could amplify injection impact, not injection itself",
                "Prompt injection alone is expected behavior - we only flag chains to bypass",
                "See docs for hardening guidance",
                "N/A",
            ),
        );
        assert(views(out@) =~= injection_rule(*config));
        out
    }
}

} // verus!
