//! DM scope of sessions.

use vstd::prelude::*;
use crate::config::{ChannelConfig, OpenClawConfig};
use crate::models::{finding_view, views, Finding, FindingView, Severity};
use crate::scanner::{add_when, present_if, Scanner};
use crate::text::{is_text, opt_is};

verus! {

pub struct SessionScanner;

/// How many of the channels are enabled.
pub open spec fn enabled_count(chs: Seq<(String, ChannelConfig)>) -> nat
    decreases chs.len(),
{
    if chs.len() == 0 {
        0
    } else {
        enabled_count(chs.drop_last()) + if chs.last().1.enabled == Some(true) {
            1nat
        } else {
            0nat
        }
    }
}

pub open spec fn session_rule(c: OpenClawConfig) -> Seq<FindingView> {
    let m = "session"@;
    present_if(
        is_text(c.session.dm_scope, "main"@) && enabled_count(c.channels@) > 1,
        finding_view(
            "session.dm_scope_main_multi_channel"@,
            m,
            Severity::Medium,
            "DM Scope 'main' With Multiple Channels"@,
            "All DMs route to main session across multiple channels"@,
            "Messages from different channels/users mix in same context"@,
            "Set session.dmScope to 'per-channel-peer'"@,
            "session.dmScope"@,
        ),
    ) + present_if(
        c.session.dm_scope is None,
        finding_view(
            "session.dm_scope_default"@,
            m,
            Severity::Info,
            "DM Scope Not Explicitly Set"@,
            "session.dmScope defaults to 'main'"@,
            "May expose messages to wrong context"@,
            "Set session.dmScope explicitly to 'per-channel-peer'"@,
            "session.dmScope"@,
        ),
    )
}

proof fn lemma_enabled_count_bounded(chs: Seq<(String, ChannelConfig)>)
    ensures
        enabled_count(chs) <= chs.len(),
    decreases chs.len(),
{
    if chs.len() > 0 {
        lemma_enabled_count_bounded(chs.drop_last());
    }
}

/// Number of enabled channels.
pub fn count_enabled(chs: &Vec<(String, ChannelConfig)>) -> (r: usize)
    ensures
        r == enabled_count(chs@),
{
    let mut n: usize = 0;
    let mut i: usize = 0;
    while i < chs.len()
        invariant
            i <= chs@.len(),
            n == enabled_count(chs@.subrange(0, i as int)),
        decreases chs@.len() - i,
    {
        proof {
            assert(chs@.subrange(0, i as int + 1).drop_last() =~= chs@.subrange(0, i as int));
            lemma_enabled_count_bounded(chs@.subrange(0, i as int));
        }
        if chs[i].1.enabled == Some(true) {
            n = n + 1;
        }
        i = i + 1;
    }
    assert(chs@.subrange(0, chs@.len() as int) =~= chs@);
    n
}

impl Scanner for SessionScanner {
    open spec fn rule(&self, config: OpenClawConfig) -> Seq<FindingView> {
        session_rule(config)
    }

    open spec fn module_name(&self) -> Seq<char> {
        "session"@
    }

    fn name(&self) -> (r: &str) {
        "session"
    }

    fn description(&self) -> &str {
        "Session handling and identity management"
    }

    fn scan(&self, config: &OpenClawConfig) -> (r: Vec<Finding>) {
        let s = &config.session;
        let m = self.name();
        let mut out: Vec<Finding> = Vec::new();
        add_when(
            &mut out,
            opt_is(&s.dm_scope, "main") && count_enabled(&config.channels) > 1,
            Finding::new(
                "session.dm_scope_main_multi_channel",
                m,
                Severity::Medium,
                "DM Scope 'main' With Multiple Channels",
                "All DMs route to main session across multiple channels",
                "Messages from different channels/users mix in same context",
                "Set session.dmScope to 'per-channel-peer'",
                "session.dmScope",
            ),
        );
        add_when(
            &mut out,
            s.dm_scope.is_none(),
            Finding::new(
                "session.dm_scope_default",
                m,
                Severity::Info,
                "DM Scope Not Explicitly Set",
                "session.dmScope defaults to 'main'",
                "May expose messages to wrong context",
                "Set session.dmScope explicitly to 'per-channel-peer'",
                "session.dmScope",
            ),
        );
        assert(views(out@) =~= session_rule(*config));
        out
    }
}

} // verus!
