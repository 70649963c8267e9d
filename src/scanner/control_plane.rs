//! Control-plane tools that the deny-list leaves reachable, and profiles that
//! allow every tool.

use vstd::prelude::*;
use crate::config::OpenClawConfig;
use crate::models::{finding_view, opt_text, views, Finding, FindingView, Severity};
use crate::scanner::{add_when, present_if, Scanner};
use crate::text::{concat3, is_text, opt_is, or_empty, shown};
use crate::tree::{opt_list_has, texts_view};

verus! {

pub struct ControlPlaneScanner;

/// The deny-list names `tool`; a missing deny-list names nothing.
pub open spec fn denied(c: OpenClawConfig, tool: Seq<char>) -> bool {
    c.tools.deny matches Some(l) && texts_view(l).contains(tool)
}

pub open spec fn not_denied_view(tool: Seq<char>, desc: Seq<char>) -> FindingView {
    finding_view(
        "control_plane."@ + tool + "_not_denied"@,
        "control_plane"@,
        Severity::High,
        "Tool '"@ + tool + "' Not in Deny List"@,
        desc,
        "Agent can use this powerful tool"@,
        "Add '"@ + tool + "' to tools.deny"@,
        "tools.deny"@,
    )
}

pub open spec fn control_plane_rule(c: OpenClawConfig) -> Seq<FindingView> {
    present_if(
        !denied(c, "gateway"@),
        not_denied_view("gateway"@, "Gateway tool - can modify config, run updates"@),
    ) + present_if(
        !denied(c, "cron"@),
        not_denied_view("cron"@, "Cron tool - can schedule jobs"@),
    ) + present_if(
        !denied(c, "sessions_spawn"@),
        not_denied_view("sessions_spawn"@, "Sessions spawn - can create subagents"@),
    ) + present_if(
        !denied(c, "sessions_send"@),
        not_denied_view("sessions_send"@, "Sessions send - can send cross-session messages"@),
    ) + present_if(
        is_text(c.tools.profile, "admin"@) || is_text(c.tools.profile, "full"@) || is_text(
            c.tools.profile,
            "*"@,
        ),
        finding_view(
            "control_plane.unrestricted_profile"@,
            "control_plane"@,
            Severity::Critical,
            "Unrestricted Tool Profile"@,
            "Tools profile is '"@ + or_empty(opt_text(c.tools.profile)) + "' - allows all tools"@,
            "No tool restrictions in place"@,
            "Use a restricted profile or explicitly deny dangerous tools"@,
            "tools.profile"@,
        ),
    )
}

fn check_tool(out: &mut Vec<Finding>, config: &OpenClawConfig, m: &str, tool: &str, desc: &str)
    requires
        m@ == "control_plane"@,
    ensures
        views(final(out)@) == views(old(out)@) + present_if(
            !denied(*config, tool@),
            not_denied_view(tool@, desc@),
        ),
{
    let id = concat3("control_plane.", tool, "_not_denied");
    let title = concat3("Tool '", tool, "' Not in Deny List");
    let fix = concat3("Add '", tool, "' to tools.deny");
    add_when(
        out,
        !opt_list_has(&config.tools.deny, tool),
        Finding::new(
            id.as_str(),
            m,
            Severity::High,
            title.as_str(),
            desc,
            "Agent can use this powerful tool",
            fix.as_str(),
            "tools.deny",
        ),
    );
}

impl Scanner for ControlPlaneScanner {
    open spec fn rule(&self, config: OpenClawConfig) -> Seq<FindingView> {
        control_plane_rule(config)
    }

    open spec fn module_name(&self) -> Seq<char> {
        "control_plane"@
    }

    fn name(&self) -> (r: &str) {
        "control_plane"
    }

    fn description(&self) -> &str {
        "Control plane tools access control"
    }

    fn scan(&self, config: &OpenClawConfig) -> (r: Vec<Finding>) {
        let m = self.name();
        let mut out: Vec<Finding> = Vec::new();
        check_tool(&mut out, config, m, "gateway", "Gateway tool - can modify config, run updates");
        check_tool(&mut out, config, m, "cron", "Cron tool - can schedule jobs");
        check_tool(&mut out, config, m, "sessions_spawn", "Sessions spawn - can create subagents");
        check_tool(
            &mut out,
            config,
            m,
            "sessions_send",
            "Sessions send - can send cross-session messages",
        );
        let p = &config.tools.profile;
        let desc = concat3("Tools profile is '", shown(p), "' - allows all tools");
        add_when(
            &mut out,
            opt_is(p, "admin") || opt_is(p, "full") || opt_is(p, "*"),
            Finding::new(
                "control_plane.unrestricted_profile",
                m,
                Severity::Critical,
                "Unrestricted Tool Profile",
                desc.as_str(),
                "No tool restrictions in place",
                "Use a restricted profile or explicitly deny dangerous tools",
                "tools.profile",
            ),
        );
        assert(views(out@) =~= control_plane_rule(*config));
        out
    }
}

} // verus!
