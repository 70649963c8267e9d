//! Findings, severities and the health score.

use vstd::prelude::*;
use vstd::seq_lib::*;

verus! {

/// Severity of a finding, from most to least severe.
#[derive(Debug, Clone, Copy, PartialEq, Eq, Structural)]
pub enum Severity {
    Critical,
    High,
    Medium,
    Low,
    Info,
}

/// What a finding of this severity takes off the health score.
pub open spec fn weight(s: Severity) -> int {
    match s {
        Severity::Critical => -25,
        Severity::High => -15,
        Severity::Medium => -10,
        Severity::Low => -5,
        Severity::Info => -2,
    }
}

impl Severity {
    pub fn score(&self) -> (r: i32)
        ensures
            r as int == weight(*self),
    {
        match self {
            Severity::Critical => -25,
            Severity::High => -15,
            Severity::Medium => -10,
            Severity::Low => -5,
            Severity::Info => -2,
        }
    }

    pub fn as_str(&self) -> (r: &'static str)
        ensures
            r@ == severity_name(*self),
    {
        match self {
            Severity::Critical => "critical",
            Severity::High => "high",
            Severity::Medium => "medium",
            Severity::Low => "low",
            Severity::Info => "info",
        }
    }
}

pub open spec fn severity_name(s: Severity) -> Seq<char> {
    match s {
        Severity::Critical => "critical"@,
        Severity::High => "high"@,
        Severity::Medium => "medium"@,
        Severity::Low => "low"@,
        Severity::Info => "info"@,
    }
}

/// One detected configuration condition.
#[derive(Debug, Clone)]
pub struct Finding {
    pub id: String,
    pub module: String,
    pub severity: Severity,
    pub title: String,
    pub description: String,
    pub impact: String,
    pub remediation: String,
    pub config_path: String,
    pub openclaw_aligned: bool,
    pub cve: Option<String>,
}

/// Everything a finding states, as plain text.
pub struct FindingView {
    pub id: Seq<char>,
    pub module: Seq<char>,
    pub severity: Severity,
    pub title: Seq<char>,
    pub description: Seq<char>,
    pub impact: Seq<char>,
    pub remediation: Seq<char>,
    pub config_path: Seq<char>,
    pub cve: Option<Seq<char>>,
}

/// A finding with no CVE reference.
pub open spec fn finding_view(
    id: Seq<char>,
    module: Seq<char>,
    severity: Severity,
    title: Seq<char>,
    description: Seq<char>,
    impact: Seq<char>,
    remediation: Seq<char>,
    config_path: Seq<char>,
) -> FindingView {
    FindingView {
        id,
        module,
        severity,
        title,
        description,
        impact,
        remediation,
        config_path,
        cve: None,
    }
}

/// The same finding with a CVE reference.
pub open spec fn cited(v: FindingView, cve: Seq<char>) -> FindingView {
    FindingView { cve: Some(cve), ..v }
}

pub open spec fn opt_text(o: Option<String>) -> Option<Seq<char>> {
    match o {
        Some(s) => Some(s@),
        None => None,
    }
}

impl Finding {
    pub open spec fn as_view(self) -> FindingView {
        FindingView {
            id: self.id@,
            module: self.module@,
            severity: self.severity,
            title: self.title@,
            description: self.description@,
            impact: self.impact@,
            remediation: self.remediation@,
            config_path: self.config_path@,
            cve: opt_text(self.cve),
        }
    }

    pub fn new(
        id: &str,
        module: &str,
        severity: Severity,
        title: &str,
        description: &str,
        impact: &str,
        remediation: &str,
        config_path: &str,
    ) -> (r: Self)
        ensures
            r.as_view() == finding_view(
                id@,
                module@,
                severity,
                title@,
                description@,
                impact@,
                remediation@,
                config_path@,
            ),
            r.openclaw_aligned,
    {
        Finding {
            id: String::from_str(id),
            module: String::from_str(module),
            severity,
            title: String::from_str(title),
            description: String::from_str(description),
            impact: String::from_str(impact),
            remediation: String::from_str(remediation),
            config_path: String::from_str(config_path),
            openclaw_aligned: true,
            cve: None,
        }
    }

    pub fn with_cve(self, cve: &str) -> (r: Self)
        ensures
            r.as_view() == cited(self.as_view(), cve@),
            r.openclaw_aligned == self.openclaw_aligned,
    {
        let mut f = self;
        f.cve = Some(String::from_str(cve));
        f
    }
}

pub open spec fn views(fs: Seq<Finding>) -> Seq<FindingView> {
    fs.map_values(|f: Finding| f.as_view())
}

pub proof fn lemma_views_push(fs: Seq<Finding>, f: Finding)
    ensures
        views(fs.push(f)) == views(fs).push(f.as_view()),
{
    assert(views(fs.push(f)) =~= views(fs).push(f.as_view()));
}

pub open spec fn clamp_score(x: int) -> int {
    if x < 0 {
        0
    } else if x > 100 {
        100
    } else {
        x
    }
}

/// Sum of the weights of a sequence of findings.
pub open spec fn total_weight(fs: Seq<Finding>) -> int
    decreases fs.len(),
{
    if fs.len() == 0 {
        0
    } else {
        total_weight(fs.drop_last()) + weight(fs.last().severity)
    }
}

/// The health score in one pass: the sum of the weights, then clamped.
pub open spec fn health_score(fs: Seq<Finding>) -> int {
    clamp_score(100 + total_weight(fs))
}

/// The health score as findings are appended one at a time, clamping after each.
pub open spec fn running_score(fs: Seq<Finding>) -> int
    decreases fs.len(),
{
    if fs.len() == 0 {
        100
    } else {
        clamp_score(running_score(fs.drop_last()) + weight(fs.last().severity))
    }
}

pub proof fn lemma_total_weight_nonpositive(fs: Seq<Finding>)
    ensures
        total_weight(fs) <= 0,
    decreases fs.len(),
{
    if fs.len() > 0 {
        lemma_total_weight_nonpositive(fs.drop_last());
    }
}

/// The score is always within 0 and 100.
pub proof fn lemma_score_in_range(fs: Seq<Finding>)
    ensures
        0 <= health_score(fs) <= 100,
        0 <= running_score(fs) <= 100,
{
    lemma_running_is_one_pass(fs);
}

/// Appending findings one at a time, clamping after each, gives the same
/// score as summing all weights and clamping once: no weight is positive, so
/// once the score reaches 0 it stays there.
pub proof fn lemma_running_is_one_pass(fs: Seq<Finding>)
    ensures
        running_score(fs) == health_score(fs),
    decreases fs.len(),
{
    if fs.len() > 0 {
        lemma_running_is_one_pass(fs.drop_last());
        lemma_total_weight_nonpositive(fs.drop_last());
    }
}

pub proof fn lemma_total_weight_remove(fs: Seq<Finding>, i: int)
    requires
        0 <= i < fs.len(),
    ensures
        total_weight(fs) == total_weight(fs.remove(i)) + weight(fs[i].severity),
    decreases fs.len(),
{
    if i < fs.len() - 1 {
        lemma_total_weight_remove(fs.drop_last(), i);
        assert(fs.remove(i).drop_last() =~= fs.drop_last().remove(i));
        assert(fs.remove(i).last() == fs.last());
    } else {
        assert(fs.remove(i) =~= fs.drop_last());
    }
}

/// Reordering findings does not change their total weight.
pub proof fn lemma_total_weight_permutation(a: Seq<Finding>, b: Seq<Finding>)
    requires
        a.to_multiset() == b.to_multiset(),
    ensures
        total_weight(a) == total_weight(b),
    decreases a.len(),
{
    lemma_same_multiset_same_len(a, b);
    if a.len() > 0 {
        let x = a.last();
        assert(a.to_multiset().contains(x)) by {
            to_multiset_contains(a, x);
        }
        to_multiset_contains_witness(b, x);
        let j = choose|j: int| 0 <= j < b.len() && b[j] == x;
        to_multiset_remove(b, j);
        to_multiset_remove(a, a.len() - 1);
        assert(a.remove(a.len() - 1) =~= a.drop_last());
        lemma_total_weight_permutation(a.drop_last(), b.remove(j));
        lemma_total_weight_remove(b, j);
    }
}

proof fn lemma_same_multiset_same_len(a: Seq<Finding>, b: Seq<Finding>)
    requires
        a.to_multiset() == b.to_multiset(),
    ensures
        a.len() == b.len(),
{
    to_multiset_len(a);
    to_multiset_len(b);
}

proof fn to_multiset_contains_witness(b: Seq<Finding>, x: Finding)
    requires
        b.to_multiset().contains(x),
    ensures
        exists|j: int| 0 <= j < b.len() && b[j] == x,
{
    to_multiset_contains(b, x);
}

/// Scoring is order-insensitive: for any reordering of a set of findings the
/// incremental score equals the one-pass score of the first order.
pub proof fn lemma_score_order_insensitive(a: Seq<Finding>, b: Seq<Finding>)
    requires
        a.to_multiset() == b.to_multiset(),
    ensures
        running_score(b) == health_score(a),
        running_score(a) == running_score(b),
{
    lemma_total_weight_permutation(a, b);
    lemma_running_is_one_pass(a);
    lemma_running_is_one_pass(b);
}

/// Adding a finding never raises the score.
pub proof fn lemma_adding_never_raises(fs: Seq<Finding>, f: Finding)
    ensures
        health_score(fs.push(f)) <= health_score(fs),
        running_score(fs.push(f)) <= running_score(fs),
{
    assert(fs.push(f).drop_last() =~= fs);
    lemma_running_is_one_pass(fs);
    lemma_running_is_one_pass(fs.push(f));
}

/// Result of a scan: the kept findings in order and the health score.
#[derive(Debug, Clone)]
pub struct ScanResult {
    pub findings: Vec<Finding>,
    pub health_score: i32,
}

impl ScanResult {
    /// The score always matches the findings and lies within 0 and 100.
    pub open spec fn wf(&self) -> bool {
        &&& self.health_score as int == running_score(self.findings@)
        &&& 0 <= self.health_score <= 100
    }

    pub fn new() -> (r: Self)
        ensures
            r.wf(),
            r.findings@.len() == 0,
            r.health_score == 100,
    {
        ScanResult { findings: Vec::new(), health_score: 100 }
    }

    pub fn add_finding(&mut self, finding: Finding)
        requires
            old(self).wf(),
        ensures
            final(self).wf(),
            final(self).findings@ == old(self).findings@.push(finding),
            final(self).health_score as int == clamp_score(
                old(self).health_score + weight(finding.severity),
            ),
    {
        let ghost before = self.findings@;
        let w = finding.severity.score();
        let raw = self.health_score + w;
        self.health_score = if raw < 0 {
            0
        } else if raw > 100 {
            100
        } else {
            raw
        };
        self.findings.push(finding);
        assert(self.findings@.drop_last() =~= before);
    }

    pub fn critical_count(&self) -> (r: usize)
        ensures
            r == count_severity(self.findings@, Severity::Critical),
    {
        count_of(&self.findings, Severity::Critical)
    }

    pub fn high_count(&self) -> (r: usize)
        ensures
            r == count_severity(self.findings@, Severity::High),
    {
        count_of(&self.findings, Severity::High)
    }
}

impl Default for ScanResult {
    fn default() -> (r: Self)
        ensures
            r.wf(),
            r.findings@.len() == 0,
    {
        Self::new()
    }
}

/// How many findings have the given severity.
pub open spec fn count_severity(fs: Seq<Finding>, s: Severity) -> nat
    decreases fs.len(),
{
    if fs.len() == 0 {
        0
    } else {
        count_severity(fs.drop_last(), s) + if fs.last().severity == s { 1nat } else { 0nat }
    }
}

proof fn lemma_count_bounded(fs: Seq<Finding>, s: Severity)
    ensures
        count_severity(fs, s) <= fs.len(),
    decreases fs.len(),
{
    if fs.len() > 0 {
        lemma_count_bounded(fs.drop_last(), s);
    }
}

fn count_of(fs: &Vec<Finding>, s: Severity) -> (r: usize)
    ensures
        r == count_severity(fs@, s),
{
    let mut n: usize = 0;
    let mut i: usize = 0;
    while i < fs.len()
        invariant
            i <= fs@.len(),
            n == count_severity(fs@.subrange(0, i as int), s),
        decreases fs@.len() - i,
    {
        proof {
            assert(fs@.subrange(0, i as int + 1).drop_last() =~= fs@.subrange(0, i as int));
            lemma_count_bounded(fs@.subrange(0, i as int), s);
        }
        if fs[i].severity == s {
            n = n + 1;
        }
        i = i + 1;
    }
    assert(fs@.subrange(0, fs@.len() as int) =~= fs@);
    n
}

} // verus!
