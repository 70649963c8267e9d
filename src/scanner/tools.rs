//! Tool policy: exec without sandbox, elevated mode, file-system reach, SSRF
//! policy of the web tools and shells among the safe binaries.

use vstd::prelude::*;
use crate::config::OpenClawConfig;
use crate::models::{cited, finding_view, views, Finding, FindingView, Severity};
use crate::scanner::{add_when, present_if, Scanner};
use crate::text::{concat2, concat3, is_text, opt_is};
use crate::tree::{opt_list_has, texts_view};

verus! {

pub struct ToolsScanner;

pub open spec fn has_bin(c: OpenClawConfig, b: Seq<char>) -> bool {
    c.tools.exec_safe_bins matches Some(l) && texts_view(l).contains(b)
}

/// The policy as the description shows it.
pub open spec fn policy_text(p: Option<String>) -> Seq<char> {
    match p {
        Some(s) => s@,
        None => "default"@,
    }
}

/// The finding for one shell binary `b` among the safe binaries.
pub open spec fn shell_bin_view(m: Seq<char>, b: Seq<char>) -> FindingView {
    finding_view(
        "tools.safe_bins_dangerous."@ + b,
        m,
        Severity::High,
        "Dangerous bin in safeBins: "@ + b,
        b + " in safeBins allows shell execution"@,
        "Can execute arbitrary shell commands"@,
        "Remove "@ + b + " from safeBins"@,
        "tools.exec.safeBins["@ + b + "]"@,
    )
}

pub open spec fn tools_rule(c: OpenClawConfig) -> Seq<FindingView> {
    let t = c.tools;
    let m = "tools"@;
    let cve = "CVE-2026-26322"@;
    present_if(
        is_text(c.sandbox.mode, "off"@) && (is_text(t.exec_host, "gateway"@) || t.exec_host is None),
        finding_view(
            "tools.exec_no_sandbox"@,
            m,
            Severity::Critical,
            "Exec Tool Without Sandbox"@,
            "exec tool enabled with sandbox disabled - runs on host"@,
            "Command execution can modify host system"@,
            "Enable sandbox or restrict exec allowlist"@,
            "agents.defaults.sandbox.mode + tools.exec.host"@,
        ),
    ) + present_if(
        t.elevated_enabled == Some(true),
        finding_view(
            "tools.elevated_enabled"@,
            m,
            Severity::Critical,
            "Elevated Mode Enabled"@,
            "tools.elevated.enabled is true - allows host sudo"@,
            "Agents can execute commands with elevated privileges"@,
            "Disable tools.elevated.enabled unless required"@,
            "tools.elevated.enabled"@,
        ),
    ) + present_if(
        t.fs_workspace_only == Some(false),
        finding_view(
            "tools.fs_workspace_only_disabled"@,
            m,
            Severity::High,
            "File System Workspace Only Disabled"@,
            "tools.fs.workspaceOnly is false - can access any file"@,
            "Agents can read/write files outside workspace"@,
            "Set tools.fs.workspaceOnly: true"@,
            "tools.fs.workspaceOnly"@,
        ),
    ) + present_if(
        is_text(t.exec_security, "deny"@),
        finding_view(
            "tools.exec_security_deny"@,
            m,
            Severity::Low,
            "Exec Security Set to Deny"@,
            "tools.exec.security is 'deny' - blocks exec entirely"@,
            "May prevent legitimate exec usage"@,
            "Consider 'ask' or 'allowlist' for controlled exec"@,
            "tools.exec.security"@,
        ),
    ) + present_if(
        !is_text(t.web_fetch_ssrf_policy, "strict"@),
        cited(finding_view(
            "tools.web_fetch_no_ssrf"@,
            m,
            Severity::Medium,
            "Web Fetch SSRF Protection Not Strict"@,
            "web_fetch ssrfPolicy is '"@ + policy_text(t.web_fetch_ssrf_policy) + "'"@,
            "May allow access to internal network resources"@,
            "Set tools.webFetch.ssrfPolicy: 'strict'"@,
            "tools.webFetch.ssrfPolicy"@,
        ), cve),
    ) + present_if(
        !is_text(t.web_search_ssrf_policy, "strict"@),
        cited(finding_view(
            "tools.web_search_no_ssrf"@,
            m,
            Severity::Medium,
            "Web Search SSRF Protection Not Strict"@,
            "web_search ssrfPolicy is '"@ + policy_text(t.web_search_ssrf_policy) + "'"@,
            "May allow access to internal network resources"@,
            "Set tools.webSearch.ssrfPolicy: 'strict'"@,
            "tools.webSearch.ssrfPolicy"@,
        ), cve),
    ) + present_if(has_bin(c, "/bin/sh"@), shell_bin_view(m, "/bin/sh"@)) + present_if(
        has_bin(c, "/bin/bash"@),
        shell_bin_view(m, "/bin/bash"@),
    ) + present_if(has_bin(c, "/usr/bin/env"@), shell_bin_view(m, "/usr/bin/env"@))
}

/// The finding for one shell binary listed among the safe binaries.
fn dangerous_bin(m: &str, bin: &str) -> (f: Finding)
    ensures
        f.as_view() == shell_bin_view(m@, bin@),
{
    let title = concat2("Dangerous bin in safeBins: ", bin);
    let desc = concat2(bin, " in safeBins allows shell execution");
    let fix = concat3("Remove ", bin, " from safeBins");
    let id = concat2("tools.safe_bins_dangerous.", bin);
    let path = concat3("tools.exec.safeBins[", bin, "]");
    Finding::new(
        id.as_str(),
        m,
        Severity::High,
        title.as_str(),
        desc.as_str(),
        "Can execute arbitrary shell commands",
        fix.as_str(),
        path.as_str(),
    )
}

fn policy_or_default(p: &Option<String>) -> (r: &str)
    ensures
        r@ == policy_text(*p),
{
    match p {
        Some(s) => s.as_str(),
        None => "default",
    }
}

impl Scanner for ToolsScanner {
    open spec fn rule(&self, config: OpenClawConfig) -> Seq<FindingView> {
        tools_rule(config)
    }

    open spec fn module_name(&self) -> Seq<char> {
        "tools"@
    }

    fn name(&self) -> (r: &str) {
        "tools"
    }

    fn description(&self) -> &str {
        "Tool configuration and policy security"
    }

    fn scan(&self, config: &OpenClawConfig) -> (r: Vec<Finding>) {
        let t = &config.tools;
        let m = self.name();
        let mut out: Vec<Finding> = Vec::new();
        add_when(
            &mut out,
            opt_is(&config.sandbox.mode, "off") && (opt_is(&t.exec_host, "gateway")
                || t.exec_host.is_none()),
            Finding::new(
                "tools.exec_no_sandbox",
                m,
                Severity::Critical,
                "Exec Tool Without Sandbox",
                "exec tool enabled with sandbox disabled - runs on host",
                "Command execution can modify host system",
                "Enable sandbox or restrict exec allowlist",
                "agents.defaults.sandbox.mode + tools.exec.host",
            ),
        );
        add_when(
            &mut out,
            t.elevated_enabled == Some(true),
            Finding::new(
                "tools.elevated_enabled",
                m,
                Severity::Critical,
                "Elevated Mode Enabled",
                "tools.elevated.enabled is true - allows host sudo",
                "Agents can execute commands with elevated privileges",
                "Disable tools.elevated.enabled unless required",
                "tools.elevated.enabled",
            ),
        );
        add_when(
            &mut out,
            t.fs_workspace_only == Some(false),
            Finding::new(
                "tools.fs_workspace_only_disabled",
                m,
                Severity::High,
                "File System Workspace Only Disabled",
                "tools.fs.workspaceOnly is false - can access any file",
                "Agents can read/write files outside workspace",
                "Set tools.fs.workspaceOnly: true",
                "tools.fs.workspaceOnly",
            ),
        );
        add_when(
            &mut out,
            opt_is(&t.exec_security, "deny"),
            Finding::new(
                "tools.exec_security_deny",
                m,
                Severity::Low,
                "Exec Security Set to Deny",
                "tools.exec.security is 'deny' - blocks exec entirely",
                "May prevent legitimate exec usage",
                "Consider 'ask' or 'allowlist' for controlled exec",
                "tools.exec.security",
            ),
        );
        let fetch_desc = concat3(
            "web_fetch ssrfPolicy is '",
            policy_or_default(&t.web_fetch_ssrf_policy),
            "'",
        );
        add_when(
            &mut out,
            !opt_is(&t.web_fetch_ssrf_policy, "strict"),
            Finding::new(
                "tools.web_fetch_no_ssrf",
                m,
                Severity::Medium,
                "Web Fetch SSRF Protection Not Strict",
                fetch_desc.as_str(),
                "May allow access to internal network resources",
                "Set tools.webFetch.ssrfPolicy: 'strict'",
                "tools.webFetch.ssrfPolicy",
            ).with_cve("CVE-2026-26322"),
        );
        let search_desc = concat3(
            "web_search ssrfPolicy is '",
            policy_or_default(&t.web_search_ssrf_policy),
            "'",
        );
        add_when(
            &mut out,
            !opt_is(&t.web_search_ssrf_policy, "strict"),
            Finding::new(
                "tools.web_search_no_ssrf",
                m,
                Severity::Medium,
                "Web Search SSRF Protection Not Strict",
                search_desc.as_str(),
                "May allow access to internal network resources",
                "Set tools.webSearch.ssrfPolicy: 'strict'",
                "tools.webSearch.ssrfPolicy",
            ).with_cve("CVE-2026-26322"),
        );
        add_when(
            &mut out,
            opt_list_has(&t.exec_safe_bins, "/bin/sh"),
            dangerous_bin(m, "/bin/sh"),
        );
        add_when(
            &mut out,
            opt_list_has(&t.exec_safe_bins, "/bin/bash"),
            dangerous_bin(m, "/bin/bash"),
        );
        add_when(
            &mut out,
            opt_list_has(&t.exec_safe_bins, "/usr/bin/env"),
            dangerous_bin(m, "/usr/bin/env"),
        );
        assert(views(out@) =~= tools_rule(*config));
        out
    }
}

} // verus!
