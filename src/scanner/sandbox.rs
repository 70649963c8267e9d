//! Sandbox mode, workspace access, scope and the control-plane deny-list.

use vstd::prelude::*;
use crate::config::OpenClawConfig;
use crate::models::{finding_view, views, Finding, FindingView, Severity};
use crate::scanner::{add_when, present_if, Scanner};
use crate::text::{concat2, is_text, join_texts, joined, opt_is};
use crate::tree::{list_has, texts_view};

verus! {

pub struct SandboxScanner;

/// The deny-list holds all four control-plane tools.
pub open spec fn denies_control_plane(l: Seq<Seq<char>>) -> bool {
    &&& l.contains("gateway"@)
    &&& l.contains("cron"@)
    &&& l.contains("sessions_spawn"@)
    &&& l.contains("sessions_send"@)
}

/// The control-plane tools that the deny-list leaves out, in fixed order.
pub open spec fn missing_tools(l: Seq<Seq<char>>) -> Seq<Seq<char>> {
    (if l.contains("gateway"@) {
        Seq::empty()
    } else {
        seq!["gateway"@]
    }) + (if l.contains("cron"@) {
        Seq::empty()
    } else {
        seq!["cron"@]
    }) + (if l.contains("sessions_spawn"@) {
        Seq::empty()
    } else {
        seq!["sessions_spawn"@]
    }) + (if l.contains("sessions_send"@) {
        Seq::empty()
    } else {
        seq!["sessions_send"@]
    })
}

/// The missing tools as the finding lists them.
pub open spec fn missing_text(c: OpenClawConfig) -> Seq<char> {
    match c.tools.deny {
        Some(l) => joined(missing_tools(texts_view(l)), ", "@),
        None => Seq::empty(),
    }
}

pub open spec fn sandbox_rule(c: OpenClawConfig) -> Seq<FindingView> {
    let s = c.sandbox;
    let m = "sandbox"@;
    present_if(
        is_text(s.mode, "off"@) || s.mode is None,
        finding_view(
            "sandbox.mode_off"@,
            m,
            Severity::Critical,
            "Sandbox Mode Disabled"@,
            "Sandbox mode is disabled, tools run directly on host"@,
            "Tool execution can access and modify the host system"@,
            "Enable sandbox mode: agents.defaults.sandbox.mode: 'docker'"@,
            "agents.defaults.sandbox.mode"@,
        ),
    ) + present_if(
        is_text(s.workspace_access, "rw"@),
        finding_view(
            "sandbox.workspace_rw"@,
            m,
            Severity::High,
            "Sandbox Workspace Read-Write Access"@,
            "Sandbox has read-write access to agent workspace"@,
            "Agent can modify files in the workspace"@,
            "Set agents.defaults.sandbox.workspaceAccess to 'ro' or 'none'"@,
            "agents.defaults.sandbox.workspaceAccess"@,
        ),
    ) + present_if(
        is_text(s.scope, "shared"@),
        finding_view(
            "sandbox.scope_shared"@,
            m,
            Severity::Medium,
            "Sandbox Scope Set to Shared"@,
            "All agents share the same sandbox workspace"@,
            "One agent can access another agent's files"@,
            "Set agents.defaults.sandbox.scope to 'agent' or 'session'"@,
            "agents.defaults.sandbox.scope"@,
        ),
    ) + present_if(
        c.tools.deny matches Some(l) && !denies_control_plane(texts_view(l)),
        finding_view(
            "sandbox.tools_deny_incomplete"@,
            m,
            Severity::High,
            "tools.deny Missing: "@ + missing_text(c),
            "Control plane tools not in deny list: "@ + missing_text(c),
            "Agents can make persistent config changes or spawn subagents"@,
            "Add to tools.deny: "@ + missing_text(c),
            "tools.deny"@,
        ),
    )
}

impl Scanner for SandboxScanner {
    open spec fn rule(&self, config: OpenClawConfig) -> Seq<FindingView> {
        sandbox_rule(config)
    }

    open spec fn module_name(&self) -> Seq<char> {
        "sandbox"@
    }

    fn name(&self) -> (r: &str) {
        "sandbox"
    }

    fn description(&self) -> &str {
        "Sandbox configuration and container isolation"
    }

    fn scan(&self, config: &OpenClawConfig) -> (r: Vec<Finding>) {
        let s = &config.sandbox;
        let m = self.name();
        let mut out: Vec<Finding> = Vec::new();
        add_when(
            &mut out,
            opt_is(&s.mode, "off") || s.mode.is_none(),
            Finding::new(
                "sandbox.mode_off",
                m,
                Severity::Critical,
                "Sandbox Mode Disabled",
                "Sandbox mode is disabled, tools run directly on host",
                "Tool execution can access and modify the host system",
                "Enable sandbox mode: agents.defaults.sandbox.mode: 'docker'",
                "agents.defaults.sandbox.mode",
            ),
        );
        add_when(
            &mut out,
            opt_is(&s.workspace_access, "rw"),
            Finding::new(
                "sandbox.workspace_rw",
                m,
                Severity::High,
                "Sandbox Workspace Read-Write Access",
                "Sandbox has read-write access to agent workspace",
                "Agent can modify files in the workspace",
                "Set agents.defaults.sandbox.workspaceAccess to 'ro' or 'none'",
                "agents.defaults.sandbox.workspaceAccess",
            ),
        );
        add_when(
            &mut out,
            opt_is(&s.scope, "shared"),
            Finding::new(
                "sandbox.scope_shared",
                m,
                Severity::Medium,
                "Sandbox Scope Set to Shared",
                "All agents share the same sandbox workspace",
                "One agent can access another agent's files",
                "Set agents.defaults.sandbox.scope to 'agent' or 'session'",
                "agents.defaults.sandbox.scope",
            ),
        );
        match &config.tools.deny {
            Some(deny) => {
                let mut missing: Vec<&str> = Vec::new();
                let has_gateway = list_has(deny, "gateway");
                let has_cron = list_has(deny, "cron");
                let has_spawn = list_has(deny, "sessions_spawn");
                let has_send = list_has(deny, "sessions_send");
                if !has_gateway {
                    missing.push("gateway");
                }
                if !has_cron {
                    missing.push("cron");
                }
                if !has_spawn {
                    missing.push("sessions_spawn");
                }
                if !has_send {
                    missing.push("sessions_send");
                }
                assert(missing@.map_values(|p: &str| p@) =~= missing_tools(texts_view(*deny)));
                let listed = join_texts(&missing, ", ");
                let title = concat2("tools.deny Missing: ", listed.as_str());
                let desc = concat2("Control plane tools not in deny list: ", listed.as_str());
                let fix = concat2("Add to tools.deny: ", listed.as_str());
                add_when(
                    &mut out,
                    !(has_gateway && has_cron && has_spawn && has_send),
                    Finding::new(
                        "sandbox.tools_deny_incomplete",
                        m,
                        Severity::High,
                        title.as_str(),
                        desc.as_str(),
                        "Agents can make persistent config changes or spawn subagents",
                        fix.as_str(),
                        "tools.deny",
                    ),
                );
            },
            None => {},
        }
        assert(views(out@) =~= sandbox_rule(*config));
        out
    }
}

} // verus!
