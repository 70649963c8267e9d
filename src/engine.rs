//! Runs the registry over a configuration, keeps the findings that meet the
//! severity filter and scores them as they are appended.

use vstd::prelude::*;
use crate::config::OpenClawConfig;
use crate::models::{health_score, views, lemma_views_push, lemma_running_is_one_pass, Finding, FindingView, ScanResult, Severity};
use crate::scanner::{get_all_scanners, registry, rule_of, RuleKind};

verus! {

/// Which findings a scan keeps.
#[derive(Debug, Clone, Copy, PartialEq, Eq, Structural)]
pub enum SeverityFilter {
    CriticalOnly,
    HighOnly,
    All,
}

pub open spec fn passes(flt: SeverityFilter, s: Severity) -> bool {
    match flt {
        SeverityFilter::CriticalOnly => s == Severity::Critical,
        SeverityFilter::HighOnly => s == Severity::Critical || s == Severity::High,
        SeverityFilter::All => true,
    }
}

pub fn keeps(flt: SeverityFilter, s: Severity) -> (r: bool)
    ensures
        r == passes(flt, s),
{
    match flt {
        SeverityFilter::CriticalOnly => s == Severity::Critical,
        SeverityFilter::HighOnly => s == Severity::Critical || s == Severity::High,
        SeverityFilter::All => true,
    }
}

/// The keys that pass the filter, in order.
pub open spec fn filtered(ks: Seq<FindingView>, flt: SeverityFilter) -> Seq<FindingView>
    decreases ks.len(),
{
    if ks.len() == 0 {
        Seq::empty()
    } else if passes(flt, ks.last().severity) {
        filtered(ks.drop_last(), flt).push(ks.last())
    } else {
        filtered(ks.drop_last(), flt)
    }
}

/// What each rule of a selection reports, rule by rule.
pub open spec fn run_rules_spec(c: OpenClawConfig, rules: Seq<RuleKind>) -> Seq<Seq<FindingView>> {
    rules.map_values(|k: RuleKind| rule_of(k, c))
}

/// All findings of a selection, in its order.
pub open spec fn concat_all(parts: Seq<Seq<FindingView>>) -> Seq<FindingView>
    decreases parts.len(),
{
    if parts.len() == 0 {
        Seq::empty()
    } else {
        concat_all(parts.drop_last()) + parts.last()
    }
}

/// What a full scan keeps of a configuration.
pub open spec fn scan_keys(c: OpenClawConfig, flt: SeverityFilter) -> Seq<FindingView> {
    filtered(concat_all(run_rules_spec(c, registry())), flt)
}

/// A rule's findings on a document are the same whichever other rules run
/// with it, and wherever it stands in the selection.
pub proof fn lemma_rule_independent(
    c: OpenClawConfig,
    a: Seq<RuleKind>,
    b: Seq<RuleKind>,
    i: int,
    j: int,
)
    requires
        0 <= i < a.len(),
        0 <= j < b.len(),
        a[i] == b[j],
    ensures
        run_rules_spec(c, a)[i] == run_rules_spec(c, b)[j],
        run_rules_spec(c, a)[i] == rule_of(a[i], c),
{
}

/// Runs each rule of a selection on the configuration.
pub fn run_rules(config: &OpenClawConfig, rules: &Vec<RuleKind>) -> (r: Vec<Vec<Finding>>)
    ensures
        r@.len() == rules@.len(),
        forall|i: int| 0 <= i < r@.len() ==> views(#[trigger] r@[i]@) == run_rules_spec(*config, rules@)[i],
{
    let mut out: Vec<Vec<Finding>> = Vec::new();
    let mut i: usize = 0;
    while i < rules.len()
        invariant
            i <= rules@.len(),
            out@.len() == i,
            forall|j: int| 0 <= j < i ==> views(#[trigger] out@[j]@) == run_rules_spec(*config, rules@)[j],
        decreases rules@.len() - i,
    {
        let fs = rules[i].scan(config);
        out.push(fs);
        i = i + 1;
    }
    out
}

/// Appends to `result` those of `fs` that pass the filter, in order.
fn keep_passing(result: &mut ScanResult, fs: Vec<Finding>, flt: SeverityFilter)
    requires
        old(result).wf(),
    ensures
        final(result).wf(),
        views(final(result).findings@) == views(old(result).findings@) + filtered(views(fs@), flt),
{
    let ghost base = views(result.findings@);
    let ghost all = fs@;
    let mut rest = fs;
    let total = rest.len();
    let mut i: usize = 0;
    while rest.len() > 0
        invariant
            total == all.len(),
            result.wf(),
            i + rest@.len() == all.len(),
            rest@ == all.subrange(i as int, all.len() as int),
            views(result.findings@) == base + filtered(views(all.subrange(0, i as int)), flt),
        decreases rest@.len(),
    {
        let f = rest.remove(0);
        proof {
            assert(all.subrange(0, i as int + 1) =~= all.subrange(0, i as int).push(f));
            lemma_views_push(all.subrange(0, i as int), f);
            assert(views(all.subrange(0, i as int)).push(f.as_view()).drop_last() =~= views(all.subrange(0, i as int)));
            assert(rest@ =~= all.subrange(i as int + 1, all.len() as int));
        }
        if keeps(flt, f.severity) {
            let ghost before = result.findings@;
            result.add_finding(f);
            proof {
                lemma_views_push(before, f);
            }
        }
        i = i + 1;
    }
    assert(all.subrange(0, all.len() as int) =~= all);
}

proof fn lemma_filtered_concat(a: Seq<FindingView>, b: Seq<FindingView>, flt: SeverityFilter)
    ensures
        filtered(a + b, flt) == filtered(a, flt) + filtered(b, flt),
    decreases b.len(),
{
    if b.len() == 0 {
        assert(a + b =~= a);
        assert(filtered(a, flt) + filtered(b, flt) =~= filtered(a, flt));
    } else {
        assert((a + b).drop_last() =~= a + b.drop_last());
        lemma_filtered_concat(a, b.drop_last(), flt);
        if passes(flt, b.last().severity) {
            assert(filtered(a, flt) + filtered(b, flt) =~= (filtered(a, flt) + filtered(
                b.drop_last(),
                flt,
            )).push(b.last()));
        }
    }
}

/// Runs every rule of the registry, keeps what passes the filter and scores it.
pub fn scan_config(config: &OpenClawConfig, flt: SeverityFilter) -> (r: ScanResult)
    ensures
        r.wf(),
        views(r.findings@) == scan_keys(*config, flt),
        r.health_score as int == health_score(r.findings@),
        0 <= r.health_score <= 100,
{
    let rules = get_all_scanners();
    let mut per_rule = run_rules(config, &rules);
    let ghost parts = run_rules_spec(*config, rules@);
    let ghost orig = per_rule@;
    let mut result = ScanResult::new();
    let mut i: usize = 0;
    let n = per_rule.len();
    while per_rule.len() > 0
        invariant
            n == rules@.len(),
            parts == run_rules_spec(*config, rules@),
            parts.len() == n,
            orig.len() == n,
            i + per_rule@.len() == n,
            per_rule@ == orig.subrange(i as int, n as int),
            forall|j: int| 0 <= j < n ==> views(#[trigger] orig[j]@) == parts[j],
            result.wf(),
            views(result.findings@) == filtered(concat_all(parts.subrange(0, i as int)), flt),
        decreases per_rule@.len(),
    {
        let fs = per_rule.remove(0);
        proof {
            assert(fs == orig[i as int]);
            assert(parts.subrange(0, i as int + 1).drop_last() =~= parts.subrange(0, i as int));
            lemma_filtered_concat(concat_all(parts.subrange(0, i as int)), parts[i as int], flt);
            assert(per_rule@ =~= orig.subrange(i as int + 1, n as int));
        }
        keep_passing(&mut result, fs, flt);
        i = i + 1;
    }
    assert(parts.subrange(0, n as int) =~= parts);
    proof {
        lemma_running_is_one_pass(result.findings@);
    }
    result
}

} // verus!
