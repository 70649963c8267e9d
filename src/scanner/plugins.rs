//! Plugins, skills and extensions: pinning, provenance, path traversal.

use vstd::prelude::*;
use crate::config::{at2, OpenClawConfig};
use crate::models::{cited, finding_view, views, Finding, FindingView, Severity};
use crate::scanner::{add_when, present_if, Scanner};
use crate::text::{concat2, concat3, contains_text, decimal, or_empty, starts_with_text, text_contains, text_eq, text_starts_with, usize_text};
use crate::tree::{as_flag, as_text, child, flag_of, get, items, items_of, text_of, JsonValue};

verus! {

pub struct PluginScanner;

/// Findings for the installed plugin at index `i`; the index stands in the
/// id and the path.
pub open spec fn plugin_item_rule(i: nat, v: JsonValue) -> Seq<FindingView> {
    let m = "plugins"@;
    if v is Object {
        let source = as_text(get(Some(v), "source"@));
        present_if(
            get(Some(v), "version"@) is None,
            finding_view(
                "plugins."@ + decimal(i) + ".unpinned_version"@,
                m,
                Severity::High,
                "Plugin Version Not Pinned"@,
                "A plugin does not have a pinned version"@,
                "Plugin could auto-update to vulnerable version"@,
                "Pin plugin versions to specific versions"@,
                "plugins.installed["@ + decimal(i) + "].version"@,
            ),
        ) + present_if(
            source matches Some(s) && text_contains(s, "github.com"@) && !text_contains(s, "openclaw"@),
            finding_view(
                "plugins."@ + decimal(i) + ".untrusted_source"@,
                m,
                Severity::Medium,
                "Plugin From Untrusted Source"@,
                "Plugin from: "@ + or_empty(source),
                "Plugin code may not be vetted"@,
                "Use verified plugins from ClawHub or trusted sources"@,
                "plugins.installed["@ + decimal(i) + "].source"@,
            ),
        )
    } else {
        Seq::empty()
    }
}

/// URL text that climbs out of a directory: `..`, or a dot written as `%2e`
/// (in either case) next to another dot.
pub open spec fn is_traversal(u: Seq<char>) -> bool {
    ||| text_contains(u, ".."@)
    ||| text_contains(u, "%2e%2e"@)
    ||| text_contains(u, "%2e%2E"@)
    ||| text_contains(u, "%2E%2e"@)
    ||| text_contains(u, "%2E%2E"@)
    ||| text_contains(u, ".%2e"@)
    ||| text_contains(u, ".%2E"@)
    ||| text_contains(u, "%2e."@)
    ||| text_contains(u, "%2E."@)
}

pub fn has_traversal(u: &str) -> (r: bool)
    ensures
        r == is_traversal(u@),
{
    contains_text(u, "..") || contains_text(u, "%2e%2e") || contains_text(u, "%2e%2E")
        || contains_text(u, "%2E%2e") || contains_text(u, "%2E%2E") || contains_text(u, ".%2e")
        || contains_text(u, ".%2E") || contains_text(u, "%2e.") || contains_text(u, "%2E.")
}

/// Findings for the installed skill at index `i`; the index stands in the
/// id and the path.
pub open spec fn skill_item_rule(i: nat, v: JsonValue) -> Seq<FindingView> {
    let m = "plugins"@;
    if v is Object {
        let url = as_text(get(Some(v), "url"@));
        let source = as_text(get(Some(v), "source"@));
        present_if(
            url matches Some(u) && is_traversal(u),
            cited(finding_view(
                "skills."@ + decimal(i) + ".path_traversal"@,
                m,
                Severity::Critical,
                "Skill Path Traversal Detected"@,
                "Skill URL contains path traversal: "@ + or_empty(url),
                "Could install skill from arbitrary path"@,
                "Use verified skill URLs from ClawHub"@,
                "skills.installed["@ + decimal(i) + "].url"@,
            ), "CVE-2026-XXXXX"@),
        ) + present_if(
            source matches Some(s) && s != "clawhub"@ && !text_starts_with(s, "https://"@),
            finding_view(
                "skills."@ + decimal(i) + ".untrusted_source"@,
                m,
                Severity::High,
                "Skill From Untrusted Source"@,
                "Skill source: "@ + or_empty(source),
                "Skill code may be malicious"@,
                "Use skills from verified ClawHub registry"@,
                "skills.installed["@ + decimal(i) + "].source"@,
            ),
        )
    } else {
        Seq::empty()
    }
}

pub open spec fn plugin_list_rule(vs: Seq<JsonValue>) -> Seq<FindingView>
    decreases vs.len(),
{
    if vs.len() == 0 {
        Seq::empty()
    } else {
        plugin_list_rule(vs.drop_last()) + plugin_item_rule((vs.len() - 1) as nat, vs.last())
    }
}

pub open spec fn skill_list_rule(vs: Seq<JsonValue>) -> Seq<FindingView>
    decreases vs.len(),
{
    if vs.len() == 0 {
        Seq::empty()
    } else {
        skill_list_rule(vs.drop_last()) + skill_item_rule((vs.len() - 1) as nat, vs.last())
    }
}

/// The number of enabled extensions in decimal, empty when there is no list.
pub open spec fn count_text(o: Option<Seq<JsonValue>>) -> Seq<char> {
    match o {
        Some(vs) => decimal(vs.len()),
        None => Seq::empty(),
    }
}

pub open spec fn plugins_rule(c: OpenClawConfig) -> Seq<FindingView> {
    let installed = items(at2(c.raw, "plugins", "installed"));
    let skills = items(at2(c.raw, "skills", "installed"));
    let enabled = items(at2(c.raw, "extensions", "enabled"));
    (match installed {
        Some(vs) => plugin_list_rule(vs),
        None => Seq::empty(),
    }) + present_if(
        as_flag(at2(c.raw, "plugins", "allowUnverified")) == Some(true),
        finding_view(
            "plugins.allow_unverified"@,
            "plugins"@,
            Severity::Critical,
            "Unverified Plugins Allowed"@,
            "Configuration allows installing unverified plugins"@,
            "Malicious plugins could be installed"@,
            "Set plugins.allowUnverified to false"@,
            "plugins.allowUnverified"@,
        ),
    ) + (match skills {
        Some(vs) => skill_list_rule(vs),
        None => Seq::empty(),
    }) + present_if(
        enabled matches Some(vs) && vs.len() > 5,
        finding_view(
            "extensions.too_many"@,
            "plugins"@,
            Severity::Low,
            "Many Extensions Enabled"@,
            count_text(enabled) + " extensions are enabled"@,
            "Larger attack surface"@,
            "Review and disable unused extensions"@,
            "extensions.enabled"@,
        ),
    )
}

fn scan_plugin(out: &mut Vec<Finding>, m: &str, i: usize, v: &JsonValue)
    requires
        m@ == "plugins"@,
    ensures
        views(final(out)@) == views(old(out)@) + plugin_item_rule(i as nat, *v),
{
    match v {
        JsonValue::Object(_) => {},
        _ => {
            assert(views(old(out)@) + plugin_item_rule(i as nat, *v) =~= views(old(out)@));
            return;
        },
    }
    let idx = usize_text(i);
    let id = concat3("plugins.", idx.as_str(), ".unpinned_version");
    let path = concat3("plugins.installed[", idx.as_str(), "].version");
    add_when(
        out,
        child(Some(v), "version").is_none(),
        Finding::new(
            id.as_str(),
            m,
            Severity::High,
            "Plugin Version Not Pinned",
            "A plugin does not have a pinned version",
            "Plugin could auto-update to vulnerable version",
            "Pin plugin versions to specific versions",
            path.as_str(),
        ),
    );
    let source = text_of(child(Some(v), "source"));
    let (untrusted, desc) = match &source {
        Some(s) => (
            contains_text(s.as_str(), "github.com") && !contains_text(s.as_str(), "openclaw"),
            concat2("Plugin from: ", s.as_str()),
        ),
        None => (false, String::new()),
    };
    let id = concat3("plugins.", idx.as_str(), ".untrusted_source");
    let path = concat3("plugins.installed[", idx.as_str(), "].source");
    add_when(
        out,
        untrusted,
        Finding::new(
            id.as_str(),
            m,
            Severity::Medium,
            "Plugin From Untrusted Source",
            desc.as_str(),
            "Plugin code may not be vetted",
            "Use verified plugins from ClawHub or trusted sources",
            path.as_str(),
        ),
    );
    assert(views(final(out)@) =~= views(old(out)@) + plugin_item_rule(i as nat, *v));
}

fn scan_skill(out: &mut Vec<Finding>, m: &str, i: usize, v: &JsonValue)
    requires
        m@ == "plugins"@,
    ensures
        views(final(out)@) == views(old(out)@) + skill_item_rule(i as nat, *v),
{
    match v {
        JsonValue::Object(_) => {},
        _ => {
            assert(views(old(out)@) + skill_item_rule(i as nat, *v) =~= views(old(out)@));
            return;
        },
    }
    let url = text_of(child(Some(v), "url"));
    let (traversal, desc) = match &url {
        Some(u) => (
            has_traversal(u.as_str()),
            concat2("Skill URL contains path traversal: ", u.as_str()),
        ),
        None => (false, String::new()),
    };
    let idx = usize_text(i);
    let id = concat3("skills.", idx.as_str(), ".path_traversal");
    let path = concat3("skills.installed[", idx.as_str(), "].url");
    add_when(
        out,
        traversal,
        Finding::new(
            id.as_str(),
            m,
            Severity::Critical,
            "Skill Path Traversal Detected",
            desc.as_str(),
            "Could install skill from arbitrary path",
            "Use verified skill URLs from ClawHub",
            path.as_str(),
        ).with_cve("CVE-2026-XXXXX"),
    );
    let source = text_of(child(Some(v), "source"));
    let (untrusted, desc) = match &source {
        Some(s) => (
            !text_eq(s.as_str(), "clawhub") && !starts_with_text(s.as_str(), "https://"),
            concat2("Skill source: ", s.as_str()),
        ),
        None => (false, String::new()),
    };
    let id = concat3("skills.", idx.as_str(), ".untrusted_source");
    let path = concat3("skills.installed[", idx.as_str(), "].source");
    add_when(
        out,
        untrusted,
        Finding::new(
            id.as_str(),
            m,
            Severity::High,
            "Skill From Untrusted Source",
            desc.as_str(),
            "Skill code may be malicious",
            "Use skills from verified ClawHub registry",
            path.as_str(),
        ),
    );
    assert(views(final(out)@) =~= views(old(out)@) + skill_item_rule(i as nat, *v));
}

impl Scanner for PluginScanner {
    open spec fn rule(&self, config: OpenClawConfig) -> Seq<FindingView> {
        plugins_rule(config)
    }

    open spec fn module_name(&self) -> Seq<char> {
        "plugins"@
    }

    fn name(&self) -> (r: &str) {
        "plugins"
    }

    fn description(&self) -> &str {
        "Plugin and extension security"
    }

    fn scan(&self, config: &OpenClawConfig) -> (r: Vec<Finding>) {
        let m = self.name();
        let root = Some(&config.raw);
        let plugins = child(root, "plugins");
        let mut out: Vec<Finding> = Vec::new();
        match items_of(child(plugins, "installed")) {
            Some(vs) => {
                let mut i: usize = 0;
                while i < vs.len()
                    invariant
                        m@ == "plugins"@,
                        i <= vs@.len(),
                        views(out@) == plugin_list_rule(vs@.subrange(0, i as int)),
                    decreases vs@.len() - i,
                {
                    assert(vs@.subrange(0, i as int + 1).drop_last() =~= vs@.subrange(0, i as int));
                    scan_plugin(&mut out, m, i, &vs[i]);
                    i = i + 1;
                }
                assert(vs@.subrange(0, vs@.len() as int) =~= vs@);
            },
            None => {},
        }
        let ghost after_plugins = out@;
        add_when(
            &mut out,
            flag_of(child(plugins, "allowUnverified")) == Some(true),
            Finding::new(
                "plugins.allow_unverified",
                m,
                Severity::Critical,
                "Unverified Plugins Allowed",
                "Configuration allows installing unverified plugins",
                "Malicious plugins could be installed",
                "Set plugins.allowUnverified to false",
                "plugins.allowUnverified",
            ),
        );
        let ghost before_skills = out@;
        match items_of(child(child(root, "skills"), "installed")) {
            Some(vs) => {
                let mut i: usize = 0;
                while i < vs.len()
                    invariant
                        m@ == "plugins"@,
                        i <= vs@.len(),
                        views(out@) == views(before_skills) + skill_list_rule(vs@.subrange(0, i as int)),
                    decreases vs@.len() - i,
                {
                    assert(vs@.subrange(0, i as int + 1).drop_last() =~= vs@.subrange(0, i as int));
                    scan_skill(&mut out, m, i, &vs[i]);
                    assert(views(out@) =~= views(before_skills) + skill_list_rule(vs@.subrange(0, i as int + 1)));
                    i = i + 1;
                }
                assert(vs@.subrange(0, vs@.len() as int) =~= vs@);
            },
            None => {
                assert(views(out@) =~= views(before_skills) + Seq::<FindingView>::empty());
            },
        }
        let (many, count_text) = match items_of(child(child(root, "extensions"), "enabled")) {
            Some(vs) => (vs.len() > 5, usize_text(vs.len())),
            None => (false, String::new()),
        };
        let desc = concat2(count_text.as_str(), " extensions are enabled");
        add_when(
            &mut out,
            many,
            Finding::new(
                "extensions.too_many",
                m,
                Severity::Low,
                "Many Extensions Enabled",
                desc.as_str(),
                "Larger attack surface",
                "Review and disable unused extensions",
                "extensions.enabled",
            ),
        );
        assert(views(out@) =~= plugins_rule(*config));
        out
    }
}

} // verus!
