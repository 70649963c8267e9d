//! Paired nodes: unrestricted commands, sensitive capabilities, exec on nodes.

use vstd::prelude::*;
use crate::config::{at3, OpenClawConfig};
use crate::models::{finding_view, views, Finding, FindingView, Severity};
use crate::scanner::{add_when, present_if, Scanner};
use crate::text::{concat2, concat3, join_texts, joined};
use crate::tree::{
    as_flag, as_texts, child, entries, entries_of, find_key, key_index, flag_of, get, list_has, texts_of,
    texts_view, JsonValue,
};

verus! {

pub struct NodeScanner;

pub open spec fn is_sensitive_cap(s: Seq<char>) -> bool {
    s == "camera"@ || s == "screen"@ || s == "contacts"@ || s == "sms"@ || s == "location"@
}

/// The sensitive capabilities of a list, in order.
pub open spec fn sensitive_in(l: Seq<Seq<char>>) -> Seq<Seq<char>>
    decreases l.len(),
{
    if l.len() == 0 {
        Seq::empty()
    } else if is_sensitive_cap(l.last()) {
        sensitive_in(l.drop_last()).push(l.last())
    } else {
        sensitive_in(l.drop_last())
    }
}

pub open spec fn or_none(o: Option<Seq<Seq<char>>>) -> Seq<Seq<char>> {
    match o {
        Some(l) => l,
        None => Seq::empty(),
    }
}

/// The findings for node `n` with settings `v`.
pub open spec fn node_rule(n: Seq<char>, v: JsonValue) -> Seq<FindingView> {
    let m = "nodes"@;
    if v is Object {
        let cmds = as_texts(get(Some(v), "allowCommands"@));
        let caps = as_texts(get(Some(v), "capabilities"@));
        present_if(
            cmds matches Some(l) && (l.contains("*"@) || l.contains("all"@)),
            finding_view(
                "nodes."@ + n + ".unrestricted_commands"@,
                m,
                Severity::Critical,
                "Node '"@ + n + "' Has Unrestricted Commands"@,
                "Node '"@ + n + "' allows all commands (*)"@,
                "Any command can be executed on the node"@,
                "Restrict allowCommands to specific needed commands"@,
                "nodes."@ + n + ".allowCommands"@,
            ),
        ) + present_if(
            caps matches Some(l) && exists|i: int| 0 <= i < l.len() && is_sensitive_cap(#[trigger] l[i]),
            finding_view(
                "nodes."@ + n + ".sensitive_capabilities"@,
                m,
                Severity::Medium,
                "Node '"@ + n + "' Has Sensitive Capabilities"@,
                "Node '"@ + n + "' has access to: "@ + joined(
                    sensitive_in(or_none(caps)),
                    ", "@,
                ),
                "Node can access sensitive device features"@,
                "Review if these capabilities are necessary"@,
                "nodes."@ + n + ".capabilities"@,
            ),
        )
    } else {
        Seq::empty()
    }
}

/// The findings for the first `n` members of `es`, in order. A member that a
/// later member of the same name overrides is passed over.
pub open spec fn node_list_rule(es: Seq<(String, JsonValue)>, n: nat) -> Seq<FindingView>
    decreases n,
{
    if n == 0 || n > es.len() {
        Seq::empty()
    } else {
        let i = n - 1;
        node_list_rule(es, i as nat) + if key_index(es, es[i].0@) == Some(i) {
            node_rule(es[i].0@, es[i].1)
        } else {
            Seq::empty()
        }
    }
}

pub open spec fn nodes_rule(c: OpenClawConfig) -> Seq<FindingView> {
    let es = entries(get(Some(c.raw), "nodes"@));
    (match es {
        Some(es) => node_list_rule(es, es.len()),
        None => Seq::empty(),
    }) + present_if(
        as_flag(at3(c.raw, "tools", "exec", "allowNodeExec")) == Some(true),
        finding_view(
            "nodes.exec_allowed"@,
            "nodes"@,
            Severity::High,
            "Node Execution Enabled"@,
            "Tools are allowed to execute commands on paired nodes"@,
            "Commands can be run on remote nodes"@,
            "Disable allowNodeExec unless strictly needed"@,
            "tools.exec.allowNodeExec"@,
        ),
    )
}

/// The sensitive capabilities among `caps`, in their order there.
fn sensitive_among(caps: &Vec<String>) -> (r: (bool, Vec<&str>))
    ensures
        r.0 == exists|i: int| 0 <= i < caps@.len() && is_sensitive_cap(#[trigger] caps@[i]@),
        r.1@.map_values(|p: &str| p@) == sensitive_in(texts_view(*caps)),
{
    let mut found: Vec<&str> = Vec::new();
    let mut any = false;
    let mut i: usize = 0;
    while i < caps.len()
        invariant
            i <= caps@.len(),
            any == exists|j: int| 0 <= j < i && is_sensitive_cap(#[trigger] caps@[j]@),
            found@.map_values(|p: &str| p@) == sensitive_in(texts_view(*caps).subrange(0, i as int)),
        decreases caps@.len() - i,
    {
        let ghost before = found@;
        assert(texts_view(*caps).subrange(0, i as int + 1).drop_last() =~= texts_view(*caps).subrange(
            0,
            i as int,
        ));
        assert(texts_view(*caps).subrange(0, i as int + 1).last() == caps@[i as int]@);
        let c = caps[i].as_str();
        let hit = crate::text::text_eq(c, "camera") || crate::text::text_eq(c, "screen")
            || crate::text::text_eq(c, "contacts") || crate::text::text_eq(c, "sms")
            || crate::text::text_eq(c, "location");
        if hit {
            found.push(c);
            any = true;
            assert(found@.map_values(|p: &str| p@) =~= before.map_values(|p: &str| p@).push(c@));
        }
        i = i + 1;
    }
    assert(texts_view(*caps).subrange(0, caps@.len() as int) =~= texts_view(*caps));
    (any, found)
}

fn scan_node(out: &mut Vec<Finding>, m: &str, n: &str, v: &JsonValue)
    requires
        m@ == "nodes"@,
    ensures
        views(final(out)@) == views(old(out)@) + node_rule(n@, *v),
{
    match v {
        JsonValue::Object(_) => {},
        _ => {
            assert(views(old(out)@) + node_rule(n@, *v) =~= views(old(out)@));
            return;
        },
    }
    let cmds = texts_of(child(Some(v), "allowCommands"));
    let wildcard = match &cmds {
        Some(l) => list_has(l, "*") || list_has(l, "all"),
        None => false,
    };
    let id = concat3("nodes.", n, ".unrestricted_commands");
    let title = concat3("Node '", n, "' Has Unrestricted Commands");
    let desc = concat3("Node '", n, "' allows all commands (*)");
    let path = concat3("nodes.", n, ".allowCommands");
    add_when(
        out,
        wildcard,
        Finding::new(
            id.as_str(),
            m,
            Severity::Critical,
            title.as_str(),
            desc.as_str(),
            "Any command can be executed on the node",
            "Restrict allowCommands to specific needed commands",
            path.as_str(),
        ),
    );
    let caps = texts_of(child(Some(v), "capabilities"));
    let (any, listed) = match &caps {
        Some(l) => {
            let (any, found) = sensitive_among(l);
            proof {
                assert forall|i: int| 0 <= i < l@.len() implies texts_view(*l)[i] == #[trigger] l@[i]@ by {}
                if any {
                    let j = choose|j: int| 0 <= j < l@.len() && is_sensitive_cap(#[trigger] l@[j]@);
                    assert(is_sensitive_cap(texts_view(*l)[j]));
                }
            }
            (any, join_texts(&found, ", "))
        },
        None => (false, String::new()),
    };
    let id = concat3("nodes.", n, ".sensitive_capabilities");
    let title = concat3("Node '", n, "' Has Sensitive Capabilities");
    let lead = concat3("Node '", n, "' has access to: ");
    let desc = concat2(lead.as_str(), listed.as_str());
    let path = concat3("nodes.", n, ".capabilities");
    add_when(
        out,
        any,
        Finding::new(
            id.as_str(),
            m,
            Severity::Medium,
            title.as_str(),
            desc.as_str(),
            "Node can access sensitive device features",
            "Review if these capabilities are necessary",
            path.as_str(),
        ),
    );
    assert(views(final(out)@) =~= views(old(out)@) + node_rule(n@, *v));
}

impl Scanner for NodeScanner {
    open spec fn rule(&self, config: OpenClawConfig) -> Seq<FindingView> {
        nodes_rule(config)
    }

    open spec fn module_name(&self) -> Seq<char> {
        "nodes"@
    }

    fn name(&self) -> (r: &str) {
        "nodes"
    }

    fn description(&self) -> &str {
        "Paired node and remote execution security"
    }

    fn scan(&self, config: &OpenClawConfig) -> (r: Vec<Finding>) {
        let m = self.name();
        let mut out: Vec<Finding> = Vec::new();
        match entries_of(child(Some(&config.raw), "nodes")) {
            Some(es) => {
                let mut i: usize = 0;
                while i < es.len()
                    invariant
                        m@ == "nodes"@,
                        i <= es@.len(),
                        views(out@) == node_list_rule(es@, i as nat),
                    decreases es@.len() - i,
                {
                    let last = find_key(es, es[i].0.as_str());
                    if last == Some(i) {
                        scan_node(&mut out, m, es[i].0.as_str(), &es[i].1);
                    } else {
                        assert(key_index(es@, es@[i as int].0@) != Some(i as int));
                        assert(views(out@) + Seq::<FindingView>::empty() =~= views(out@));
                    }
                    i = i + 1;
                }
            },
            None => {},
        }
        let exec = child(child(Some(&config.raw), "tools"), "exec");
        add_when(
            &mut out,
            flag_of(child(exec, "allowNodeExec")) == Some(true),
            Finding::new(
                "nodes.exec_allowed",
                m,
                Severity::High,
                "Node Execution Enabled",
                "Tools are allowed to execute commands on paired nodes",
                "Commands can be run on remote nodes",
                "Disable allowNodeExec unless strictly needed",
                "tools.exec.allowNodeExec",
            ),
        );
        assert(views(out@) =~= nodes_rule(*config));
        out
    }
}

} // verus!
