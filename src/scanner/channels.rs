//! Per-channel DM and group policies of the enabled channels.

use vstd::prelude::*;
use crate::config::{ChannelConfig, OpenClawConfig};
use crate::models::{finding_view, views, Finding, FindingView, Severity};
use crate::scanner::{add_when, present_if, Scanner};
use crate::text::{concat2, concat3, is_text, opt_is};
use crate::tree::{opt_list_has, texts_view};

verus! {

pub struct ChannelScanner;

/// The findings for one channel `n`.
pub open spec fn channel_rule(n: Seq<char>, ch: ChannelConfig) -> Seq<FindingView> {
    let m = "channels"@;
    if ch.enabled != Some(true) {
        Seq::empty()
    } else {
        present_if(
            is_text(ch.dm_policy, "open"@),
            finding_view(
                "channel."@ + n + ".dm_policy_open"@,
                m,
                Severity::Critical,
                n + " DM Policy 'open'"@,
                "Anyone can DM the bot on "@ + n,
                "Untrusted users can send messages to the agent"@,
                "Set channels."@ + n + ".dmPolicy to 'pairing' or 'allowlist'"@,
                "channels."@ + n + ".dmPolicy"@,
            ),
        ) + present_if(
            is_text(ch.dm_policy, "disabled"@),
            finding_view(
                "channel."@ + n + ".dm_disabled"@,
                m,
                Severity::Info,
                n + " DMs Disabled"@,
                "DMs are disabled for "@ + n,
                "Cannot receive direct messages on this channel"@,
                "Enable if DMs are needed"@,
                "channels."@ + n + ".dmPolicy"@,
            ),
        ) + present_if(
            is_text(ch.group_policy, "open"@),
            finding_view(
                "channel."@ + n + ".group_policy_open"@,
                m,
                Severity::High,
                n + " Group Policy 'open'"@,
                "Anyone in group can trigger the bot on "@ + n,
                "Any group member can interact with agent"@,
                "Set channels."@ + n + ".groupPolicy to 'allowlist'"@,
                "channels."@ + n + ".groupPolicy"@,
            ),
        ) + present_if(
            ch.allow_from matches Some(l) && texts_view(l).contains("*"@),
            finding_view(
                "channel."@ + n + ".allow_from_wildcard"@,
                m,
                Severity::Medium,
                n + " allowFrom Uses Wildcard"@,
                "allowFrom includes '*' - allows everyone"@,
                "Any user on the channel can interact with agent"@,
                "Use specific user IDs instead of '*'"@,
                "channels."@ + n + ".allowFrom"@,
            ),
        )
    }
}

pub open spec fn channel_list_rule(chs: Seq<(String, ChannelConfig)>) -> Seq<FindingView>
    decreases chs.len(),
{
    if chs.len() == 0 {
        Seq::empty()
    } else {
        channel_list_rule(chs.drop_last()) + channel_rule(chs.last().0@, chs.last().1)
    }
}

pub open spec fn channels_rule(c: OpenClawConfig) -> Seq<FindingView> {
    channel_list_rule(c.channels@)
}

fn scan_channel(out: &mut Vec<Finding>, m: &str, n: &str, ch: &ChannelConfig)
    requires
        m@ == "channels"@,
    ensures
        views(final(out)@) == views(old(out)@) + channel_rule(n@, *ch),
{
    if ch.enabled != Some(true) {
        assert(views(old(out)@) + channel_rule(n@, *ch) =~= views(old(out)@));
        return;
    }
    let dm_path = concat3("channels.", n, ".dmPolicy");
    let id = concat3("channel.", n, ".dm_policy_open");
    let title = concat2(n, " DM Policy 'open'");
    let desc = concat2("Anyone can DM the bot on ", n);
    let fix = concat3("Set channels.", n, ".dmPolicy to 'pairing' or 'allowlist'");
    add_when(
        out,
        opt_is(&ch.dm_policy, "open"),
        Finding::new(
            id.as_str(),
            m,
            Severity::Critical,
            title.as_str(),
            desc.as_str(),
            "Untrusted users can send messages to the agent",
            fix.as_str(),
            dm_path.as_str(),
        ),
    );
    let id = concat3("channel.", n, ".dm_disabled");
    let title = concat2(n, " DMs Disabled");
    let desc = concat2("DMs are disabled for ", n);
    add_when(
        out,
        opt_is(&ch.dm_policy, "disabled"),
        Finding::new(
            id.as_str(),
            m,
            Severity::Info,
            title.as_str(),
            desc.as_str(),
            "Cannot receive direct messages on this channel",
            "Enable if DMs are needed",
            dm_path.as_str(),
        ),
    );
    let id = concat3("channel.", n, ".group_policy_open");
    let title = concat2(n, " Group Policy 'open'");
    let desc = concat2("Anyone in group can trigger the bot on ", n);
    let fix = concat3("Set channels.", n, ".groupPolicy to 'allowlist'");
    let path = concat3("channels.", n, ".groupPolicy");
    add_when(
        out,
        opt_is(&ch.group_policy, "open"),
        Finding::new(
            id.as_str(),
            m,
            Severity::High,
            title.as_str(),
            desc.as_str(),
            "Any group member can interact with agent",
            fix.as_str(),
            path.as_str(),
        ),
    );
    let id = concat3("channel.", n, ".allow_from_wildcard");
    let title = concat2(n, " allowFrom Uses Wildcard");
    let path = concat3("channels.", n, ".allowFrom");
    add_when(
        out,
        opt_list_has(&ch.allow_from, "*"),
        Finding::new(
            id.as_str(),
            m,
            Severity::Medium,
            title.as_str(),
            "allowFrom includes '*' - allows everyone",
            "Any user on the channel can interact with agent",
            "Use specific user IDs instead of '*'",
            path.as_str(),
        ),
    );
    assert(views(final(out)@) =~= views(old(out)@) + channel_rule(n@, *ch));
}

impl Scanner for ChannelScanner {
    open spec fn rule(&self, config: OpenClawConfig) -> Seq<FindingView> {
        channels_rule(config)
    }

    open spec fn module_name(&self) -> Seq<char> {
        "channels"@
    }

    fn name(&self) -> (r: &str) {
        "channels"
    }

    fn description(&self) -> &str {
        "Per-channel security configuration"
    }

    fn scan(&self, config: &OpenClawConfig) -> (r: Vec<Finding>) {
        let m = self.name();
        let chs = &config.channels;
        let mut out: Vec<Finding> = Vec::new();
        let mut i: usize = 0;
        while i < chs.len()
            invariant
                m@ == "channels"@,
                i <= chs@.len(),
                views(out@) == channel_list_rule(chs@.subrange(0, i as int)),
            decreases chs@.len() - i,
        {
            assert(chs@.subrange(0, i as int + 1).drop_last() =~= chs@.subrange(0, i as int));
            scan_channel(&mut out, m, chs[i].0.as_str(), &chs[i].1);
            i = i + 1;
        }
        assert(chs@.subrange(0, chs@.len() as int) =~= chs@);
        out
    }
}

} // verus!
