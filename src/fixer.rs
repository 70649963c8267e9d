//! Remediation: declarative edits derived from finding ids, applied to a
//! decoded document. Each edit sets `tree[path][key] = value`, creating the
//! missing objects along `path`; an edit whose path runs through a value that
//! is not an object fails rather than overwrite it.

use vstd::prelude::*;
use crate::config::names_parse_failure;
use crate::models::{Finding, Severity};
use crate::text::{concat2, concat3, decimal, text_eq, usize_text};
use crate::tree::{
    compact_text, decode_json, encode_compact, encode_pretty, find_key, json_decoded, key_index,
    pretty_text, JsonValue,
};

verus! {

/// A declarative edit: set `tree[path][key] = value`, `path` being dotted.
#[derive(Debug)]
pub struct ConfigFix {
    pub path: String,
    pub key: String,
    pub value: JsonValue,
    pub description: String,
}

/// The segments of a dotted path, as `str::split('.')` gives them.
pub open spec fn split_dots(s: Seq<char>) -> Seq<Seq<char>>
    decreases s.len(),
{
    if s.len() == 0 {
        seq![Seq::empty()]
    } else {
        let r = split_dots(s.drop_last());
        if s.last() == '.' {
            r.push(Seq::empty())
        } else {
            r.update(r.len() - 1, r.last().push(s.last()))
        }
    }
}

pub proof fn lemma_split_nonempty(s: Seq<char>)
    ensures
        split_dots(s).len() >= 1,
    decreases s.len(),
{
    if s.len() > 0 {
        lemma_split_nonempty(s.drop_last());
    }
}

pub open spec fn segs(parts: Seq<&str>) -> Seq<Seq<char>> {
    parts.map_values(|p: &str| p@)
}

/// Splits a dotted path at each `.`.
pub fn split_path(s: &str) -> (r: Vec<&str>)
    ensures
        segs(r@) == split_dots(s@),
{
    let n = s.unicode_len();
    let mut parts: Vec<&str> = Vec::new();
    let mut start: usize = 0;
    let mut i: usize = 0;
    assert(s@.subrange(0, 0) =~= Seq::<char>::empty());
    assert(segs(parts@).push(s@.subrange(0, 0)) =~= split_dots(s@.subrange(0, 0)));
    while i < n
        invariant
            n == s@.len(),
            start <= i <= n,
            segs(parts@).push(s@.subrange(start as int, i as int)) == split_dots(
                s@.subrange(0, i as int),
            ),
        decreases n - i,
    {
        let c = s.get_char(i);
        let ghost before = segs(parts@);
        proof {
            let pre = s@.subrange(0, i as int + 1);
            assert(pre.drop_last() =~= s@.subrange(0, i as int));
            assert(pre.last() == c);
            lemma_split_nonempty(s@.subrange(0, i as int));
        }
        if c == '.' {
            parts.push(s.substring_char(start, i));
            assert(segs(parts@) =~= before.push(s@.subrange(start as int, i as int)));
            start = i + 1;
            assert(s@.subrange(start as int, i as int + 1) =~= Seq::<char>::empty());
        } else {
            assert(s@.subrange(start as int, i as int + 1) =~= s@.subrange(start as int, i as int).push(c));
            assert(before.push(s@.subrange(start as int, i as int + 1)) =~= before.push(
                s@.subrange(start as int, i as int),
            ).update(before.len() as int, s@.subrange(start as int, i as int).push(c)));
        }
        i = i + 1;
    }
    let last = s.substring_char(start, n);
    let ghost before = segs(parts@);
    parts.push(last);
    assert(segs(parts@) =~= before.push(last@));
    assert(s@.subrange(0, n as int) =~= s@);
    parts
}

/// `after` is a chain of new single-member objects along `path` that ends
/// in member `key` holding `val`.
pub open spec fn fresh(after: JsonValue, path: Seq<Seq<char>>, key: Seq<char>, val: JsonValue) -> bool
    decreases path.len(),
{
    match after {
        JsonValue::Object(es) => es@.len() == 1 && if path.len() == 0 {
            es@[0].0@ == key && es@[0].1 == val
        } else {
            es@[0].0@ == path[0] && fresh(es@[0].1, path.drop_first(), key, val)
        },
        _ => false,
    }
}

/// `after` is `before` with member `key` of the object at `path` set to
/// `val`: an existing member keeps its place, a new one goes last, and a
/// missing object on the way is created. All else is unchanged.
pub open spec fn sets(
    before: JsonValue,
    after: JsonValue,
    path: Seq<Seq<char>>,
    key: Seq<char>,
    val: JsonValue,
) -> bool
    decreases path.len(),
{
    match before {
        JsonValue::Object(es) => match after {
            JsonValue::Object(es2) => {
                let t = if path.len() == 0 {
                    key
                } else {
                    path[0]
                };
                match key_index(es@, t) {
                    Some(j) => {
                        &&& es2@.len() == es@.len()
                        &&& forall|i: int| 0 <= i < es@.len() && i != j ==> #[trigger] es2@[i] == es@[i]
                        &&& es2@[j].0 == es@[j].0
                        &&& if path.len() == 0 {
                            es2@[j].1 == val
                        } else {
                            sets(es@[j].1, es2@[j].1, path.drop_first(), key, val)
                        }
                    },
                    None => {
                        &&& es2@.len() == es@.len() + 1
                        &&& es2@.drop_last() == es@
                        &&& es2@.last().0@ == t
                        &&& if path.len() == 0 {
                            es2@.last().1 == val
                        } else {
                            fresh(es2@.last().1, path.drop_first(), key, val)
                        }
                    },
                }
            },
            _ => false,
        },
        _ => false,
    }
}

/// Some value met along `path` (the start included) is not an object.
pub open spec fn blocked(v: JsonValue, path: Seq<Seq<char>>) -> bool
    decreases path.len(),
{
    match v {
        JsonValue::Object(es) => if path.len() == 0 {
            false
        } else {
            match key_index(es@, path[0]) {
                Some(j) => blocked(es@[j].1, path.drop_first()),
                None => false,
            }
        },
        _ => true,
    }
}

/// A new chain of objects along `path[i..]` ending in `key: val`.
fn fresh_at(path: &Vec<&str>, i: usize, key: &str, val: JsonValue) -> (r: JsonValue)
    requires
        i <= path@.len(),
    ensures
        fresh(r, segs(path@).subrange(i as int, path@.len() as int), key@, val),
    decreases path@.len() - i,
{
    let ghost p = segs(path@).subrange(i as int, path@.len() as int);
    let mut es: Vec<(String, JsonValue)> = Vec::new();
    if i == path.len() {
        es.push((String::from_str(key), val));
    } else {
        let inner = fresh_at(path, i + 1, key, val);
        assert(p.drop_first() =~= segs(path@).subrange(i as int + 1, path@.len() as int));
        es.push((String::from_str(path[i]), inner));
    }
    JsonValue::Object(es)
}

/// Sets `key: val` in the object at `path[i..]` below `v`.
pub fn set_at(v: JsonValue, path: &Vec<&str>, i: usize, key: &str, val: JsonValue) -> (r: Result<
    JsonValue,
    (),
>)
    requires
        i <= path@.len(),
    ensures
        match r {
            Ok(a) => sets(v, a, segs(path@).subrange(i as int, path@.len() as int), key@, val),
            Err(_) => blocked(v, segs(path@).subrange(i as int, path@.len() as int)),
        },
    decreases path@.len() - i,
{
    let ghost p = segs(path@).subrange(i as int, path@.len() as int);
    let ghost v0 = v;
    match v {
        JsonValue::Object(mut es) => {
            let ghost es0 = es@;
            let t = if i == path.len() {
                key
            } else {
                path[i]
            };
            match find_key(&es, t) {
                Some(j) => {
                    let (k, c) = es.remove(j);
                    if i == path.len() {
                        es.insert(j, (k, val));
                        assert(es@ =~= es0.update(j as int, (es0[j as int].0, val)));
                        Ok(JsonValue::Object(es))
                    } else {
                        assert(p.drop_first() =~= segs(path@).subrange(i as int + 1, path@.len() as int));
                        match set_at(c, path, i + 1, key, val) {
                            Ok(c2) => {
                                es.insert(j, (k, c2));
                                assert(es@ =~= es0.update(j as int, (es0[j as int].0, c2)));
                                Ok(JsonValue::Object(es))
                            },
                            Err(e) => Err(e),
                        }
                    }
                },
                None => {
                    if i == path.len() {
                        es.push((String::from_str(key), val));
                    } else {
                        assert(p.drop_first() =~= segs(path@).subrange(i as int + 1, path@.len() as int));
                        let inner = fresh_at(path, i + 1, key, val);
                        es.push((String::from_str(path[i]), inner));
                    }
                    assert(es@.drop_last() =~= es0);
                    Ok(JsonValue::Object(es))
                },
            }
        },
        _ => Err(()),
    }
}

/// The tree that a fix's segments and key address.
pub open spec fn fix_path(f: ConfigFix) -> Seq<Seq<char>> {
    split_dots(f.path@)
}

/// Applies one fix.
pub fn apply_fix(v: JsonValue, fix: ConfigFix) -> (r: Result<JsonValue, ()>)
    ensures
        match r {
            Ok(a) => sets(v, a, fix_path(fix), fix.key@, fix.value),
            Err(_) => blocked(v, fix_path(fix)),
        },
{
    let ConfigFix { path, key, value, description: _ } = fix;
    let parts = split_path(path.as_str());
    assert(segs(parts@).subrange(0, parts@.len() as int) =~= segs(parts@));
    set_at(v, &parts, 0, key.as_str(), value)
}

/// `after` is what applying `fixes` in order makes of `before`.
pub open spec fn applies(before: JsonValue, fixes: Seq<ConfigFix>, after: JsonValue) -> bool
    decreases fixes.len(),
{
    if fixes.len() == 0 {
        after == before
    } else {
        exists|mid: JsonValue|
            applies(before, fixes.drop_last(), mid) && #[trigger] sets(
                mid,
                after,
                fix_path(fixes.last()),
                fixes.last().key@,
                fixes.last().value,
            )
    }
}

/// Fix `i` is the first that cannot be applied: the fixes before it apply,
/// and its path runs through a value that is not an object.
pub open spec fn failed_at(v: JsonValue, fixes: Seq<ConfigFix>, i: int) -> bool {
    &&& 0 <= i < fixes.len()
    &&& exists|mid: JsonValue|
        applies(v, fixes.subrange(0, i), mid) && #[trigger] blocked(mid, fix_path(fixes[i]))
}

/// Applies the fixes in order. Fails with the index of the first fix whose
/// path runs through a value that is not an object.
pub fn apply_all(v: JsonValue, fixes: Vec<ConfigFix>) -> (r: Result<JsonValue, usize>)
    ensures
        r matches Ok(a) ==> applies(v, fixes@, a),
        r is Err ==> failed_at(v, fixes@, r->Err_0 as int),
{
    let ghost all = fixes@;
    let ghost v0 = v;
    let mut rest = fixes;
    let total = rest.len();
    let mut cur = v;
    let mut i: usize = 0;
    assert(all.subrange(0, 0) =~= Seq::<ConfigFix>::empty());
    while rest.len() > 0
        invariant
            all == fixes@,
            v0 == v,
            total == all.len(),
            i + rest@.len() == all.len(),
            rest@ == all.subrange(i as int, all.len() as int),
            applies(v0, all.subrange(0, i as int), cur),
        decreases rest@.len(),
    {
        let f = rest.remove(0);
        let ghost prev = cur;
        proof {
            assert(f == all[i as int]);
            assert(rest@ =~= all.subrange(i as int + 1, all.len() as int));
            assert(all.subrange(0, i as int + 1).drop_last() =~= all.subrange(0, i as int));
            assert(all.subrange(0, i as int + 1).last() == f);
        }
        match apply_fix(cur, f) {
            Ok(next) => {
                cur = next;
                assert(sets(prev, cur, fix_path(f), f.key@, f.value));
            },
            Err(_) => {
                assert(applies(v0, all.subrange(0, i as int), prev) && blocked(
                    prev,
                    fix_path(all[i as int]),
                ));
                return Err(i);
            },
        }
        i = i + 1;
    }
    assert(all.subrange(0, all.len() as int) =~= all);
    Ok(cur)
}

/// The replacement value of a fix in the table.
pub enum FixValue {
    Text(Seq<char>),
    Flag(bool),
}

pub open spec fn value_is(v: JsonValue, fv: FixValue) -> bool {
    match fv {
        FixValue::Text(t) => v matches JsonValue::Str(s) && s@ == t,
        FixValue::Flag(b) => v == JsonValue::Bool(b),
    }
}

/// The fix mapped to a finding id: container path, key and value.
pub open spec fn fix_table(id: Seq<char>) -> Option<(Seq<char>, Seq<char>, FixValue, Seq<char>)> {
    if id == "sandbox.mode_off"@ {
        Some(
            (
                "agents.defaults.sandbox"@,
                "mode"@,
                FixValue::Text("docker"@),
                "Enable sandbox mode"@,
            ),
        )
    } else if id == "sandbox.workspace_rw"@ {
        Some(
            (
                "agents.defaults.sandbox"@,
                "workspaceAccess"@,
                FixValue::Text("none"@),
                "Remove workspace write access"@,
            ),
        )
    } else if id == "sandbox.scope_shared"@ {
        Some(
            (
                "agents.defaults.sandbox"@,
                "scope"@,
                FixValue::Text("agent"@),
                "Set sandbox scope to agent isolation"@,
            ),
        )
    } else if id == "tools.fs_workspace_only_disabled"@ {
        Some(
            (
                "tools.fs"@,
                "workspaceOnly"@,
                FixValue::Flag(true),
                "Enable file system workspace isolation"@,
            ),
        )
    } else if id == "tools.web_fetch_no_ssrf"@ {
        Some(
            (
                "tools.webFetch"@,
                "ssrfPolicy"@,
                FixValue::Text("strict"@),
                "Enable strict SSRF protection for web fetch"@,
            ),
        )
    } else if id == "tools.web_search_no_ssrf"@ {
        Some(
            (
                "tools.webSearch"@,
                "ssrfPolicy"@,
                FixValue::Text("strict"@),
                "Enable strict SSRF protection for web search"@,
            ),
        )
    } else if id == "tools.elevated_enabled"@ {
        Some(
            (
                "tools.elevated"@,
                "enabled"@,
                FixValue::Flag(false),
                "Disable elevated mode"@,
            ),
        )
    } else if id == "gateway.auth_none"@ {
        Some(
            (
                "gateway.auth"@,
                "mode"@,
                FixValue::Text("token"@),
                "Enable token authentication"@,
            ),
        )
    } else if id == "gateway.bind_public"@ {
        Some(
            (
                "gateway"@,
                "bind"@,
                FixValue::Text("loopback"@),
                "Bind to loopback only"@,
            ),
        )
    } else if id == "gateway.tailscale_funnel"@ {
        Some(
            (
                "gateway.tailscale"@,
                "funnel"@,
                FixValue::Flag(false),
                "Disable Tailscale Funnel"@,
            ),
        )
    } else if id == "session.dm_scope_main_multi_channel"@ || id == "session.dm_scope_default"@ {
        Some(
            (
                "session"@,
                "dmScope"@,
                FixValue::Text("per-channel-peer"@),
                "Set DM scope to per-channel-peer"@,
            ),
        )
    } else {
        None
    }
}

pub open spec fn fix_matches(f: ConfigFix, t: (Seq<char>, Seq<char>, FixValue, Seq<char>)) -> bool {
    f.path@ == t.0 && f.key@ == t.1 && value_is(f.value, t.2) && f.description@ == t.3
}

/// The fixes for a list of findings, in order; unmapped ids are skipped.
pub open spec fn fixes_for(fs: Seq<Finding>) -> Seq<(Seq<char>, Seq<char>, FixValue, Seq<char>)>
    decreases fs.len(),
{
    if fs.len() == 0 {
        Seq::empty()
    } else {
        match fix_table(fs.last().id@) {
            Some(t) => fixes_for(fs.drop_last()).push(t),
            None => fixes_for(fs.drop_last()),
        }
    }
}

fn text_fix(path: &str, key: &str, value: &str, description: &str) -> (f: ConfigFix)
    ensures
        fix_matches(f, (path@, key@, FixValue::Text(value@), description@)),
{
    ConfigFix {
        path: String::from_str(path),
        key: String::from_str(key),
        value: JsonValue::Str(String::from_str(value)),
        description: String::from_str(description),
    }
}

fn flag_fix(path: &str, key: &str, value: bool, description: &str) -> (f: ConfigFix)
    ensures
        fix_matches(f, (path@, key@, FixValue::Flag(value), description@)),
{
    ConfigFix {
        path: String::from_str(path),
        key: String::from_str(key),
        value: JsonValue::Bool(value),
        description: String::from_str(description),
    }
}

/// The fix mapped to one finding id.
pub fn fix_for_id(id: &str) -> (r: Option<ConfigFix>)
    ensures
        match fix_table(id@) {
            Some(t) => r matches Some(f) && fix_matches(f, t),
            None => r is None,
        },
{
    if text_eq(id, "sandbox.mode_off") {
        Some(text_fix("agents.defaults.sandbox", "mode", "docker", "Enable sandbox mode"))
    } else if text_eq(id, "sandbox.workspace_rw") {
        Some(
            text_fix(
                "agents.defaults.sandbox",
                "workspaceAccess",
                "none",
                "Remove workspace write access",
            ),
        )
    } else if text_eq(id, "sandbox.scope_shared") {
        Some(
            text_fix(
                "agents.defaults.sandbox",
                "scope",
                "agent",
                "Set sandbox scope to agent isolation",
            ),
        )
    } else if text_eq(id, "tools.fs_workspace_only_disabled") {
        Some(flag_fix("tools.fs", "workspaceOnly", true, "Enable file system workspace isolation"))
    } else if text_eq(id, "tools.web_fetch_no_ssrf") {
        Some(
            text_fix(
                "tools.webFetch",
                "ssrfPolicy",
                "strict",
                "Enable strict SSRF protection for web fetch",
            ),
        )
    } else if text_eq(id, "tools.web_search_no_ssrf") {
        Some(
            text_fix(
                "tools.webSearch",
                "ssrfPolicy",
                "strict",
                "Enable strict SSRF protection for web search",
            ),
        )
    } else if text_eq(id, "tools.elevated_enabled") {
        Some(flag_fix("tools.elevated", "enabled", false, "Disable elevated mode"))
    } else if text_eq(id, "gateway.auth_none") {
        Some(text_fix("gateway.auth", "mode", "token", "Enable token authentication"))
    } else if text_eq(id, "gateway.bind_public") {
        Some(text_fix("gateway", "bind", "loopback", "Bind to loopback only"))
    } else if text_eq(id, "gateway.tailscale_funnel") {
        Some(flag_fix("gateway.tailscale", "funnel", false, "Disable Tailscale Funnel"))
    } else if text_eq(id, "session.dm_scope_main_multi_channel") || text_eq(
        id,
        "session.dm_scope_default",
    ) {
        Some(
            text_fix(
                "session",
                "dmScope",
                "per-channel-peer",
                "Set DM scope to per-channel-peer",
            ),
        )
    } else {
        None
    }
}

/// The fixes for the findings, in order, at most one per finding.
pub fn generate_fixes(findings: &[Finding]) -> (r: Vec<ConfigFix>)
    ensures
        r@.len() == fixes_for(findings@).len(),
        forall|i: int| 0 <= i < r@.len() ==> fix_matches(#[trigger] r@[i], fixes_for(findings@)[i]),
{
    let mut out: Vec<ConfigFix> = Vec::new();
    let mut i: usize = 0;
    while i < findings.len()
        invariant
            i <= findings@.len(),
            out@.len() == fixes_for(findings@.subrange(0, i as int)).len(),
            forall|j: int|
                0 <= j < out@.len() ==> fix_matches(
                    #[trigger] out@[j],
                    fixes_for(findings@.subrange(0, i as int))[j],
                ),
        decreases findings@.len() - i,
    {
        assert(findings@.subrange(0, i as int + 1).drop_last() =~= findings@.subrange(0, i as int));
        match fix_for_id(findings[i].id.as_str()) {
            Some(f) => {
                out.push(f);
            },
            None => {},
        }
        i = i + 1;
    }
    assert(findings@.subrange(0, findings@.len() as int) =~= findings@);
    out
}

/// The error when a fix path runs through a value that is not an object.
pub open spec fn apply_failure_text() -> Seq<char> {
    "Failed to apply fixes: a fix path runs through a value that is not an object"@
}

/// Decodes a document (JSON only), applies the fixes and renders the result
/// pretty-printed.
pub fn fix_document(content: &str, fixes: Vec<ConfigFix>) -> (r: Result<String, String>)
    ensures
        json_decoded(content@) is None ==> (r matches Err(e) && names_parse_failure(e@)),
        json_decoded(content@) is Some && r is Err ==> r->Err_0@ == apply_failure_text() && exists|
            i: int,
        | #[trigger] failed_at(json_decoded(content@)->0, fixes@, i),
        r matches Ok(t) ==> exists|a: JsonValue|
            #[trigger] applies(json_decoded(content@)->0, fixes@, a) && t@ == pretty_text(a),
{
    let ghost fs = fixes@;
    let doc = match decode_json(content) {
        Ok(d) => d,
        Err(e) => {
            let msg = concat2("Failed to parse config: ", e.as_str());
            assert(msg@ == "Failed to parse config: "@ + e@);
            return Err(msg);
        },
    };
    let ghost d0 = doc;
    match apply_all(doc, fixes) {
        Ok(a) => {
            let t = encode_pretty(&a);
            assert(d0 == json_decoded(content@)->0);
            assert(fs == fixes@);
            assert(applies(d0, fs, a) && t@ == pretty_text(a));
            Ok(t)
        },
        Err(i) => {
            assert(d0 == json_decoded(content@)->0);
            assert(fs == fixes@);
            assert(failed_at(d0, fs, i as int));
            Err(
                String::from_str(
                    "Failed to apply fixes: a fix path runs through a value that is not an object",
                ),
            )
        },
    }
}

/// The files a fix run writes, in order, and the message it reports.
#[derive(Debug)]
pub struct FixPlan {
    pub writes: Vec<(String, String)>,
    pub message: String,
}

/// What a fix run does with its output: unless it is a dry run, first the
/// content read before fixing goes to `<path>.bak`, then the fixed content to `path`.
pub fn plan_fix(config_path: &str, before: &str, fixed: &str, dry_run: bool) -> (r: FixPlan)
    ensures
        dry_run ==> r.writes@.len() == 0 && r.message@ == "DRY RUN - Would apply fixes:\n"@ + fixed@,
        !dry_run ==> {
            &&& r.writes@.len() == 2
            &&& r.writes@[0].0@ == config_path@ + ".bak"@
            &&& r.writes@[0].1@ == before@
            &&& r.writes@[1].0@ == config_path@
            &&& r.writes@[1].1@ == fixed@
            &&& r.message@ == "Applied fixes. Backup saved to: "@ + config_path@ + ".bak"@
        },
{
    if dry_run {
        FixPlan {
            writes: Vec::new(),
            message: concat2("DRY RUN - Would apply fixes:\n", fixed),
        }
    } else {
        let mut writes: Vec<(String, String)> = Vec::new();
        writes.push((concat2(config_path, ".bak"), String::from_str(before)));
        writes.push((String::from_str(config_path), String::from_str(fixed)));
        FixPlan { writes, message: concat3("Applied fixes. Backup saved to: ", config_path, ".bak") }
    }
}

/// One entry of the fix preview, numbered from 1.
pub open spec fn preview_entry(n: nat, f: ConfigFix) -> Seq<char> {
    decimal(n) + ". "@ + f.path@ + ": Set "@ + f.key@ + " to "@ + compact_text(f.value)
        + "\n   "@ + f.description@ + "\n\n"@
}

pub open spec fn preview_body(fs: Seq<ConfigFix>) -> Seq<char>
    decreases fs.len(),
{
    if fs.len() == 0 {
        Seq::empty()
    } else {
        preview_body(fs.drop_last()) + preview_entry(fs.len(), fs.last())
    }
}

/// The preview text for a list of fixes.
pub open spec fn preview_text(fs: Seq<ConfigFix>) -> Seq<char> {
    if fs.len() == 0 {
        "No automatic fixes available for these findings."@
    } else {
        "Automatic fixes available:\n\n"@ + preview_body(fs)
    }
}

fn preview_line(n: usize, f: &ConfigFix) -> (r: String)
    ensures
        r@ == preview_entry(n as nat, *f),
{
    let num = usize_text(n);
    let v = encode_compact(&f.value);
    let mut s = String::new();
    s.append(num.as_str());
    s.append(". ");
    s.append(f.path.as_str());
    s.append(": Set ");
    s.append(f.key.as_str());
    s.append(" to ");
    s.append(v.as_str());
    s.append("\n   ");
    s.append(f.description.as_str());
    s.append("\n\n");
    assert(s@ =~= preview_entry(n as nat, *f));
    s
}

/// Describes the fixes that the findings would get, without applying them.
pub fn preview_fixes(findings: &[Finding]) -> (r: String)
    ensures
        exists|fs: Seq<ConfigFix>|
            #[trigger] preview_text(fs) == r@ && fs.len() == fixes_for(findings@).len() && forall|
                i: int,
            | 0 <= i < fs.len() ==> fix_matches(#[trigger] fs[i], fixes_for(findings@)[i]),
{
    let fixes = generate_fixes(findings);
    if fixes.len() == 0 {
        let r = String::from_str("No automatic fixes available for these findings.");
        assert(preview_text(fixes@) == r@);
        return r;
    }
    let mut s = String::from_str("Automatic fixes available:\n\n");
    let mut i: usize = 0;
    while i < fixes.len()
        invariant
            i <= fixes@.len(),
            s@ == "Automatic fixes available:\n\n"@ + preview_body(fixes@.subrange(0, i as int)),
        decreases fixes@.len() - i,
    {
        let line = preview_line(i + 1, &fixes[i]);
        s.append(line.as_str());
        proof {
            let pre = fixes@.subrange(0, i as int + 1);
            assert(pre.drop_last() =~= fixes@.subrange(0, i as int));
            assert(s@ =~= "Automatic fixes available:\n\n"@ + preview_body(pre));
        }
        i = i + 1;
    }
    assert(fixes@.subrange(0, fixes@.len() as int) =~= fixes@);
    assert(preview_text(fixes@) == s@);
    s
}

proof fn lemma_key_index_same_keys(
    a: Seq<(String, JsonValue)>,
    b: Seq<(String, JsonValue)>,
    t: Seq<char>,
)
    requires
        a.len() == b.len(),
        forall|i: int| 0 <= i < a.len() ==> #[trigger] a[i].0 == b[i].0,
    ensures
        key_index(a, t) == key_index(b, t),
    decreases a.len(),
{
    if a.len() > 0 {
        assert(a.last().0 == b.last().0);
        lemma_key_index_same_keys(a.drop_last(), b.drop_last(), t);
    }
}

/// A chain that a fix created already holds the fix.
proof fn lemma_fresh_holds(x: JsonValue, p: Seq<Seq<char>>, k: Seq<char>, v: JsonValue)
    requires
        fresh(x, p, k, v),
    ensures
        sets(x, x, p, k, v),
    decreases p.len(),
{
    match x {
        JsonValue::Object(es) => {
            let t = if p.len() == 0 {
                k
            } else {
                p[0]
            };
            assert(es@.last() == es@[0]);
            assert(key_index(es@, t) == Some(0int));
            if p.len() > 0 {
                lemma_fresh_holds(es@[0].1, p.drop_first(), k, v);
            }
        },
        _ => {},
    }
}

/// A fix is idempotent: where setting `tree[path][key] = val` turns `a`
/// into `b`, setting it again on `b` gives `b` back unchanged.
pub proof fn lemma_set_idempotent(
    a: JsonValue,
    b: JsonValue,
    p: Seq<Seq<char>>,
    k: Seq<char>,
    v: JsonValue,
)
    requires
        sets(a, b, p, k, v),
    ensures
        sets(b, b, p, k, v),
    decreases p.len(),
{
    match a {
        JsonValue::Object(es) => match b {
            JsonValue::Object(es2) => {
                let t = if p.len() == 0 {
                    k
                } else {
                    p[0]
                };
                match key_index(es@, t) {
                    Some(j) => {
                        assert forall|i: int| 0 <= i < es@.len() implies #[trigger] es@[i].0
                            == es2@[i].0 by {
                            if i != j {
                                assert(es2@[i] == es@[i]);
                            }
                        }
                        lemma_key_index_same_keys(es@, es2@, t);
                        if p.len() > 0 {
                            lemma_set_idempotent(es@[j].1, es2@[j].1, p.drop_first(), k, v);
                        }
                    },
                    None => {
                        assert(key_index(es2@, t) == Some(es2@.len() - 1));
                        if p.len() > 0 {
                            lemma_fresh_holds(es2@.last().1, p.drop_first(), k, v);
                        }
                    },
                }
            },
            _ => {},
        },
        _ => {},
    }
}

/// The segments and key that a fix writes to.
pub open spec fn target(f: ConfigFix) -> Seq<Seq<char>> {
    fix_path(f).push(f.key@)
}

/// Two writes that cannot disturb each other: the same place with the same
/// value, or places that part ways at some segment.
pub open spec fn compatible(x: Seq<Seq<char>>, vx: JsonValue, y: Seq<Seq<char>>, vy: JsonValue) -> bool {
    (x == y && vx == vy) || exists|i: int| 0 <= i < x.len() && 0 <= i < y.len() && x[i] != y[i]
}

pub open spec fn pairwise_compatible(fs: Seq<ConfigFix>) -> bool {
    forall|i: int, j: int|
        0 <= i < fs.len() && 0 <= j < fs.len() ==> compatible(
            target(#[trigger] fs[i]),
            fs[i].value,
            target(#[trigger] fs[j]),
            fs[j].value,
        )
}

/// A write leaves in place every compatible write that already holds.
proof fn lemma_set_preserves(
    a: JsonValue,
    b: JsonValue,
    p: Seq<Seq<char>>,
    k: Seq<char>,
    v: JsonValue,
    q: Seq<Seq<char>>,
    kq: Seq<char>,
    vq: JsonValue,
)
    requires
        sets(a, b, p, k, v),
        sets(a, a, q, kq, vq),
        compatible(p.push(k), v, q.push(kq), vq),
    ensures
        sets(b, b, q, kq, vq),
    decreases p.len(),
{
    match a {
        JsonValue::Object(es) => match b {
            JsonValue::Object(es2) => {
                let t = if p.len() == 0 {
                    k
                } else {
                    p[0]
                };
                let tq = if q.len() == 0 {
                    kq
                } else {
                    q[0]
                };
                assert(p.push(k)[0] == t);
                assert(q.push(kq)[0] == tq);
                let jq = key_index(es@, tq)->0;
                match key_index(es@, t) {
                    Some(j) => {
                        assert forall|i: int| 0 <= i < es@.len() implies #[trigger] es@[i].0
                            == es2@[i].0 by {
                            if i != j {
                                assert(es2@[i] == es@[i]);
                            }
                        }
                        lemma_key_index_same_keys(es@, es2@, tq);
                        lemma_key_index_found(es@, t);
                        lemma_key_index_found(es@, tq);
                        if t != tq {
                            assert(jq != j);
                            assert(es2@[jq] == es@[jq]);
                        } else {
                            assert(jq == j);
                            if p.len() == 0 && q.len() == 0 {
                                if !(p.push(k) == q.push(kq) && v == vq) {
                                    let i = choose|i: int|
                                        0 <= i < p.push(k).len() && 0 <= i < q.push(kq).len()
                                            && p.push(k)[i] != q.push(kq)[i];
                                    assert(i == 0);
                                }
                            } else if p.len() == 0 {
                                assert(p.push(k) != q.push(kq));
                                let i = choose|i: int|
                                    0 <= i < p.push(k).len() && 0 <= i < q.push(kq).len() && p.push(
                                        k,
                                    )[i] != q.push(kq)[i];
                                assert(i == 0);
                            } else if q.len() == 0 {
                                assert(p.push(k) != q.push(kq));
                                let i = choose|i: int|
                                    0 <= i < p.push(k).len() && 0 <= i < q.push(kq).len() && p.push(
                                        k,
                                    )[i] != q.push(kq)[i];
                                assert(i == 0);
                            } else {
                                let p1 = p.drop_first();
                                let q1 = q.drop_first();
                                assert(p.push(k).drop_first() =~= p1.push(k));
                                assert(q.push(kq).drop_first() =~= q1.push(kq));
                                if p.push(k) == q.push(kq) && v == vq {
                                    assert(p1.push(k) == q1.push(kq));
                                } else {
                                    let i = choose|i: int|
                                        0 <= i < p.push(k).len() && 0 <= i < q.push(kq).len()
                                            && p.push(k)[i] != q.push(kq)[i];
                                    assert(i > 0);
                                    assert(p1.push(k)[i - 1] != q1.push(kq)[i - 1]);
                                }
                                lemma_set_preserves(es@[j].1, es2@[j].1, p1, k, v, q1, kq, vq);
                            }
                        }
                    },
                    None => {
                        lemma_key_index_found(es@, tq);
                        assert(t != tq);
                        assert(es2@.drop_last() == es@);
                        assert(key_index(es2@, tq) == key_index(es@, tq));
                        assert(es2@[jq] == es@[jq]);
                    },
                }
            },
            _ => {},
        },
        _ => {},
    }
}

proof fn lemma_key_index_found(es: Seq<(String, JsonValue)>, t: Seq<char>)
    ensures
        key_index(es, t) matches Some(j) ==> 0 <= j < es.len() && es[j].0@ == t,
    decreases es.len(),
{
    if es.len() > 0 && es.last().0@ != t {
        lemma_key_index_found(es.drop_last(), t);
    }
}

/// After a pairwise compatible list of fixes applies, each of them holds.
proof fn lemma_applied_hold(a: JsonValue, fs: Seq<ConfigFix>, b: JsonValue)
    requires
        applies(a, fs, b),
        pairwise_compatible(fs),
    ensures
        forall|i: int|
            0 <= i < fs.len() ==> sets(b, b, fix_path(#[trigger] fs[i]), fs[i].key@, fs[i].value),
    decreases fs.len(),
{
    if fs.len() > 0 {
        let f = fs.last();
        let mid = choose|mid: JsonValue|
            applies(a, fs.drop_last(), mid) && #[trigger] sets(
                mid,
                b,
                fix_path(f),
                f.key@,
                f.value,
            );
        let rest = fs.drop_last();
        assert forall|i: int, j: int|
            0 <= i < rest.len() && 0 <= j < rest.len() implies compatible(
            target(#[trigger] rest[i]),
            rest[i].value,
            target(#[trigger] rest[j]),
            rest[j].value,
        ) by {
            assert(rest[i] == fs[i] && rest[j] == fs[j]);
        }
        lemma_applied_hold(a, rest, mid);
        assert forall|i: int| 0 <= i < fs.len() implies sets(
            b,
            b,
            fix_path(#[trigger] fs[i]),
            fs[i].key@,
            fs[i].value,
        ) by {
            if i == fs.len() - 1 {
                lemma_set_idempotent(mid, b, fix_path(f), f.key@, f.value);
            } else {
                assert(rest[i] == fs[i]);
                assert(compatible(target(fs[fs.len() - 1]), f.value, target(fs[i]), fs[i].value));
                lemma_set_preserves(
                    mid,
                    b,
                    fix_path(f),
                    f.key@,
                    f.value,
                    fix_path(fs[i]),
                    fs[i].key@,
                    fs[i].value,
                );
            }
        }
    }
}

proof fn lemma_all_hold_applies(b: JsonValue, fs: Seq<ConfigFix>)
    requires
        forall|i: int|
            0 <= i < fs.len() ==> sets(b, b, fix_path(#[trigger] fs[i]), fs[i].key@, fs[i].value),
    ensures
        applies(b, fs, b),
    decreases fs.len(),
{
    if fs.len() > 0 {
        let rest = fs.drop_last();
        assert forall|i: int| 0 <= i < rest.len() implies sets(
            b,
            b,
            fix_path(#[trigger] rest[i]),
            rest[i].key@,
            rest[i].value,
        ) by {
            assert(rest[i] == fs[i]);
        }
        lemma_all_hold_applies(b, rest);
        let f = fs.last();
        assert(sets(b, b, fix_path(fs[fs.len() - 1]), fs[fs.len() - 1].key@, fs[fs.len() - 1].value));
        assert(applies(b, rest, b) && sets(b, b, fix_path(f), f.key@, f.value));
    }
}

/// Applying a list of fixes twice gives the same document as applying it
/// once, provided no two fixes write to places where one could disturb the
/// other: where the list turns `a` into `b`, it turns `b` into `b`.
pub proof fn lemma_fixes_idempotent(a: JsonValue, fs: Seq<ConfigFix>, b: JsonValue)
    requires
        applies(a, fs, b),
        pairwise_compatible(fs),
    ensures
        applies(b, fs, b),
{
    lemma_applied_hold(a, fs, b);
    lemma_all_hold_applies(b, fs);
}

/// The advice shown for a finding id that has advice of its own.
pub open spec fn advice_table(id: Seq<char>) -> Option<Seq<char>> {
    if id == "sandbox.mode_off"@ {
        Some("Set agents.defaults.sandbox.mode to 'docker'"@)
    } else if id == "sandbox.workspace_rw"@ {
        Some("Set agents.defaults.sandbox.workspaceAccess to 'none' or 'ro'"@)
    } else if id == "sandbox.scope_shared"@ {
        Some("Set agents.defaults.sandbox.scope to 'agent'"@)
    } else if id == "sandbox.tools_deny_incomplete"@ {
        Some("Add control plane tools to tools.deny: gateway, cron, sessions_spawn, sessions_send"@)
    } else if id == "tools.exec_no_sandbox"@ {
        Some("Enable sandbox mode or restrict exec allowlist"@)
    } else if id == "tools.elevated_enabled"@ {
        Some("Set tools.elevated.enabled to false"@)
    } else if id == "tools.fs_workspace_only_disabled"@ {
        Some("Set tools.fs.workspaceOnly to true"@)
    } else if id == "tools.web_fetch_no_ssrf"@ {
        Some("Set tools.webFetch.ssrfPolicy to 'strict'"@)
    } else if id == "tools.web_search_no_ssrf"@ {
        Some("Set tools.webSearch.ssrfPolicy to 'strict'"@)
    } else if id == "gateway.auth_none"@ {
        Some("Set gateway.auth.mode to 'token' or 'password'"@)
    } else if id == "gateway.bind_public"@ {
        Some("Set gateway.bind to 'loopback'"@)
    } else if id == "gateway.weak_token"@ {
        Some("Use a token with at least 32 random characters"@)
    } else if id == "gateway.tailscale_funnel"@ {
        Some("Set gateway.tailscale.funnel to false"@)
    } else if id == "session.dm_scope_main_multi_channel"@ {
        Some("Set session.dmScope to 'per-channel-peer'"@)
    } else if id == "channel.telegram.dm_policy_open"@ {
        Some("Set channels.telegram.dmPolicy to 'pairing' or 'allowlist'"@)
    } else if id == "channel.discord.group_policy_open"@ {
        Some("Set channels.discord.groupPolicy to 'allowlist'"@)
    } else if id == "control_plane.gateway_not_denied"@ {
        Some("Add 'gateway' to tools.deny"@)
    } else if id == "control_plane.cron_not_denied"@ {
        Some("Add 'cron' to tools.deny"@)
    } else if id == "control_plane.sessions_spawn_not_denied"@ {
        Some("Add 'sessions_spawn' to tools.deny"@)
    } else if id == "control_plane.sessions_send_not_denied"@ {
        Some("Add 'sessions_send' to tools.deny"@)
    } else {
        None
    }
}

fn advice_for_id(id: &str) -> (r: Option<&'static str>)
    ensures
        match advice_table(id@) {
            Some(a) => r matches Some(s) && s@ == a,
            None => r is None,
        },
{
    if text_eq(id, "sandbox.mode_off") {
        Some("Set agents.defaults.sandbox.mode to 'docker'")
    } else if text_eq(id, "sandbox.workspace_rw") {
        Some("Set agents.defaults.sandbox.workspaceAccess to 'none' or 'ro'")
    } else if text_eq(id, "sandbox.scope_shared") {
        Some("Set agents.defaults.sandbox.scope to 'agent'")
    } else if text_eq(id, "sandbox.tools_deny_incomplete") {
        Some("Add control plane tools to tools.deny: gateway, cron, sessions_spawn, sessions_send")
    } else if text_eq(id, "tools.exec_no_sandbox") {
        Some("Enable sandbox mode or restrict exec allowlist")
    } else if text_eq(id, "tools.elevated_enabled") {
        Some("Set tools.elevated.enabled to false")
    } else if text_eq(id, "tools.fs_workspace_only_disabled") {
        Some("Set tools.fs.workspaceOnly to true")
    } else if text_eq(id, "tools.web_fetch_no_ssrf") {
        Some("Set tools.webFetch.ssrfPolicy to 'strict'")
    } else if text_eq(id, "tools.web_search_no_ssrf") {
        Some("Set tools.webSearch.ssrfPolicy to 'strict'")
    } else if text_eq(id, "gateway.auth_none") {
        Some("Set gateway.auth.mode to 'token' or 'password'")
    } else if text_eq(id, "gateway.bind_public") {
        Some("Set gateway.bind to 'loopback'")
    } else if text_eq(id, "gateway.weak_token") {
        Some("Use a token with at least 32 random characters")
    } else if text_eq(id, "gateway.tailscale_funnel") {
        Some("Set gateway.tailscale.funnel to false")
    } else if text_eq(id, "session.dm_scope_main_multi_channel") {
        Some("Set session.dmScope to 'per-channel-peer'")
    } else if text_eq(id, "channel.telegram.dm_policy_open") {
        Some("Set channels.telegram.dmPolicy to 'pairing' or 'allowlist'")
    } else if text_eq(id, "channel.discord.group_policy_open") {
        Some("Set channels.discord.groupPolicy to 'allowlist'")
    } else if text_eq(id, "control_plane.gateway_not_denied") {
        Some("Add 'gateway' to tools.deny")
    } else if text_eq(id, "control_plane.cron_not_denied") {
        Some("Add 'cron' to tools.deny")
    } else if text_eq(id, "control_plane.sessions_spawn_not_denied") {
        Some("Add 'sessions_spawn' to tools.deny")
    } else if text_eq(id, "control_plane.sessions_send_not_denied") {
        Some("Add 'sessions_send' to tools.deny")
    } else {
        None
    }
}

/// Severity names as the suggestions print them.
pub open spec fn severity_label(s: Severity) -> Seq<char> {
    match s {
        Severity::Critical => "CRITICAL"@,
        Severity::High => "HIGH"@,
        Severity::Medium => "MEDIUM"@,
        Severity::Low => "LOW"@,
        Severity::Info => "INFO"@,
    }
}

fn severity_label_of(s: Severity) -> (r: &'static str)
    ensures
        r@ == severity_label(s),
{
    match s {
        Severity::Critical => "CRITICAL",
        Severity::High => "HIGH",
        Severity::Medium => "MEDIUM",
        Severity::Low => "LOW",
        Severity::Info => "INFO",
    }
}

/// The suggestion line for one finding.
pub open spec fn suggestion_line(f: Finding) -> Seq<char> {
    let advice = match advice_table(f.id@) {
        Some(a) => a,
        None => "Review and fix: "@ + f.config_path@,
    };
    "["@ + severity_label(f.severity) + "] "@ + f.title@ + ": "@ + advice
}

fn suggestion_for(f: &Finding) -> (r: String)
    ensures
        r@ == suggestion_line(*f),
{
    let advice = match advice_for_id(f.id.as_str()) {
        Some(a) => String::from_str(a),
        None => concat2("Review and fix: ", f.config_path.as_str()),
    };
    let mut s = String::from_str("[");
    s.append(severity_label_of(f.severity));
    s.append("] ");
    s.append(f.title.as_str());
    s.append(": ");
    s.append(advice.as_str());
    s
}

/// One suggestion line per finding, in order.
pub fn generate_fix_suggestions(findings: &[Finding]) -> (r: Vec<String>)
    ensures
        r@.len() == findings@.len(),
        forall|i: int| 0 <= i < r@.len() ==> #[trigger] r@[i]@ == suggestion_line(findings@[i]),
{
    let mut out: Vec<String> = Vec::new();
    let mut i: usize = 0;
    while i < findings.len()
        invariant
            i <= findings@.len(),
            out@.len() == i,
            forall|j: int| 0 <= j < i ==> #[trigger] out@[j]@ == suggestion_line(findings@[j]),
        decreases findings@.len() - i,
    {
        out.push(suggestion_for(&findings[i]));
        i = i + 1;
    }
    out
}

/// `x` and `y` are the same tree down to depth `d`: objects hold the same
/// keys in the same order with children that are the same to depth `d - 1`,
/// and below that (or for any other value) the values are equal.
pub open spec fn same_below(x: JsonValue, y: JsonValue, d: nat) -> bool
    decreases d,
{
    if d == 0 {
        x == y
    } else {
        match x {
            JsonValue::Object(a) => match y {
                JsonValue::Object(b) => a@.len() == b@.len() && forall|i: int|
                    #![trigger a@[i]]
                    0 <= i < a@.len() ==> a@[i].0 == b@[i].0 && same_below(
                        a@[i].1,
                        b@[i].1,
                        (d - 1) as nat,
                    ),
                _ => false,
            },
            _ => x == y,
        }
    }
}

proof fn lemma_same_refl(x: JsonValue, d: nat)
    ensures
        same_below(x, x, d),
    decreases d,
{
    if d > 0 {
        match x {
            JsonValue::Object(a) => {
                let e = (d - 1) as nat;
                assert forall|i: int| #![trigger a@[i]] 0 <= i < a@.len() implies a@[i].0 == a@[i].0
                    && same_below(a@[i].1, a@[i].1, e) by {
                    lemma_same_refl(a@[i].1, e);
                }
                assert(same_below(x, x, d));
            },
            _ => {},
        }
    }
}

/// A write that has been made leaves no value on its way that is not an object.
proof fn lemma_sets_not_blocked(a: JsonValue, b: JsonValue, p: Seq<Seq<char>>, k: Seq<char>, v: JsonValue)
    requires
        sets(a, b, p, k, v),
    ensures
        !blocked(a, p),
    decreases p.len(),
{
    match a {
        JsonValue::Object(es) => match b {
            JsonValue::Object(es2) => {
                if p.len() > 0 {
                    match key_index(es@, p[0]) {
                        Some(j) => lemma_sets_not_blocked(es@[j].1, es2@[j].1, p.drop_first(), k, v),
                        None => {},
                    }
                }
            },
            _ => {},
        },
        _ => {},
    }
}

/// Where a write already holds in `b` and `m` is the same tree as `b`, the
/// write cannot fail on `m`, and what it makes of `m` is still the same tree
/// as `b`.
proof fn lemma_holding_write_keeps_same(
    b: JsonValue,
    m: JsonValue,
    c: JsonValue,
    p: Seq<Seq<char>>,
    k: Seq<char>,
    v: JsonValue,
    d: nat,
)
    requires
        sets(b, b, p, k, v),
        same_below(b, m, d),
        p.len() + 1 <= d,
    ensures
        !blocked(m, p),
        sets(m, c, p, k, v) ==> same_below(b, c, d),
    decreases p.len(),
{
    match b {
        JsonValue::Object(es) => match m {
            JsonValue::Object(ms) => {
                let t = if p.len() == 0 {
                    k
                } else {
                    p[0]
                };
                assert forall|i: int| 0 <= i < es@.len() implies #[trigger] es@[i].0 == ms@[i].0 by {
                    assert(es@[i] == es@[i]);
                }
                lemma_key_index_same_keys(es@, ms@, t);
                lemma_key_index_found(es@, t);
                let j = key_index(es@, t)->0;
                assert(es@[j] == es@[j]);
                assert(same_below(es@[j].1, ms@[j].1, (d - 1) as nat));
                if p.len() > 0 {
                    lemma_holding_write_keeps_same(
                        es@[j].1,
                        ms@[j].1,
                        ms@[j].1,
                        p.drop_first(),
                        k,
                        v,
                        (d - 1) as nat,
                    );
                }
                if sets(m, c, p, k, v) {
                    match c {
                        JsonValue::Object(cs) => {
                            if p.len() > 0 {
                                lemma_holding_write_keeps_same(
                                    es@[j].1,
                                    ms@[j].1,
                                    cs@[j].1,
                                    p.drop_first(),
                                    k,
                                    v,
                                    (d - 1) as nat,
                                );
                            } else {
                                lemma_same_refl(es@[j].1, (d - 1) as nat);
                            }
                            assert forall|i: int| 0 <= i < es@.len() implies #[trigger] es@[i].0
                                == cs@[i].0 && same_below(es@[i].1, cs@[i].1, (d - 1) as nat) by {
                                assert(es@[i] == es@[i]);
                                if i != j {
                                    assert(cs@[i] == ms@[i]);
                                } else if p.len() == 0 {
                                    assert(cs@[j].1 == es@[j].1);
                                }
                            }
                        },
                        _ => {},
                    }
                }
            },
            _ => {},
        },
        _ => {},
    }
}

/// Every fix of the list holds in `b`, and `d` bounds the depth of their targets.
pub open spec fn all_hold(b: JsonValue, fs: Seq<ConfigFix>, d: nat) -> bool {
    forall|i: int|
        0 <= i < fs.len() ==> sets(b, b, fix_path(#[trigger] fs[i]), fs[i].key@, fs[i].value)
            && target(fs[i]).len() <= d
}

proof fn lemma_rerun_prefix(b: JsonValue, fs: Seq<ConfigFix>, n: int, m: JsonValue, d: nat)
    requires
        all_hold(b, fs, d),
        0 <= n <= fs.len(),
        applies(b, fs.subrange(0, n), m),
    ensures
        same_below(b, m, d),
    decreases n,
{
    if n == 0 {
        lemma_same_refl(b, d);
    } else {
        let pre = fs.subrange(0, n);
        let f = pre.last();
        assert(f == fs[n - 1]);
        assert(pre.drop_last() =~= fs.subrange(0, n - 1));
        let mid = choose|mid: JsonValue|
            applies(b, pre.drop_last(), mid) && #[trigger] sets(mid, m, fix_path(f), f.key@, f.value);
        lemma_rerun_prefix(b, fs, n - 1, mid, d);
        assert(sets(b, b, fix_path(fs[n - 1]), fs[n - 1].key@, fs[n - 1].value));
        lemma_holding_write_keeps_same(b, mid, m, fix_path(f), f.key@, f.value, d);
    }
}

/// Running a list of fixes a second time changes nothing: where a pairwise
/// compatible list turns `a` into `b`, running it on `b` cannot fail at any
/// fix, and whatever it yields is the same tree as `b` (to any depth `d` that
/// bounds the fixes' targets).
pub proof fn lemma_second_run_same(a: JsonValue, fs: Seq<ConfigFix>, b: JsonValue, d: nat)
    requires
        applies(a, fs, b),
        pairwise_compatible(fs),
        forall|i: int| 0 <= i < fs.len() ==> target(#[trigger] fs[i]).len() <= d,
    ensures
        forall|i: int| !(#[trigger] failed_at(b, fs, i)),
        forall|c: JsonValue| #[trigger] applies(b, fs, c) ==> same_below(b, c, d),
{
    lemma_applied_hold(a, fs, b);
    assert(all_hold(b, fs, d));
    assert forall|i: int| !(#[trigger] failed_at(b, fs, i)) by {
        if failed_at(b, fs, i) {
            let mid = choose|mid: JsonValue|
                applies(b, fs.subrange(0, i), mid) && #[trigger] blocked(mid, fix_path(fs[i]));
            lemma_rerun_prefix(b, fs, i, mid, d);
            assert(sets(b, b, fix_path(fs[i]), fs[i].key@, fs[i].value));
            lemma_holding_write_keeps_same(b, mid, mid, fix_path(fs[i]), fs[i].key@, fs[i].value, d);
        }
    }
    assert forall|c: JsonValue| #[trigger] applies(b, fs, c) implies same_below(b, c, d) by {
        assert(fs.subrange(0, fs.len() as int) =~= fs);
        lemma_rerun_prefix(b, fs, fs.len() as int, c, d);
    }
}

/// Applying one fix a second time changes nothing: where setting
/// `tree[path][key] = val` turns `a` into `b`, setting it again cannot fail
/// on `b`, and whatever it yields is the same tree as `b`.
pub proof fn lemma_fix_twice_same(
    a: JsonValue,
    b: JsonValue,
    c: JsonValue,
    p: Seq<Seq<char>>,
    k: Seq<char>,
    v: JsonValue,
)
    requires
        sets(a, b, p, k, v),
    ensures
        !blocked(b, p),
        sets(b, c, p, k, v) ==> same_below(b, c, p.len() + 1),
{
    lemma_set_idempotent(a, b, p, k, v);
    lemma_same_refl(b, p.len() + 1);
    lemma_holding_write_keeps_same(b, b, c, p, k, v, p.len() + 1);
}

} // verus!
