//! Static reference data: known CVEs and insecure configuration patterns.

use vstd::prelude::*;
use crate::text::{starts_with_text, text_eq, text_starts_with};

verus! {

#[derive(Debug, Clone)]
pub struct CveEntry {
    pub title: String,
    pub severity: String,
    pub description: String,
    pub mitigation: String,
    pub affected_versions: String,
}

#[derive(Debug, Clone)]
pub struct PatternEntry {
    pub description: String,
    pub severity: String,
    pub remediation: String,
}

/// CVE records and pattern records, each keyed by its identifier.
#[derive(Debug, Clone)]
pub struct KnowledgeBase {
    pub cves: Vec<(String, CveEntry)>,
    pub patterns: Vec<(String, PatternEntry)>,
}

/// The record of the last entry with identifier `id`.
pub open spec fn cve_lookup(es: Seq<(String, CveEntry)>, id: Seq<char>) -> Option<CveEntry>
    decreases es.len(),
{
    if es.len() == 0 {
        None
    } else if es.last().0@ == id {
        Some(es.last().1)
    } else {
        cve_lookup(es.drop_last(), id)
    }
}

pub open spec fn cve_row(
    row: (String, CveEntry),
    id: Seq<char>,
    title: Seq<char>,
    severity: Seq<char>,
    description: Seq<char>,
    mitigation: Seq<char>,
    affected: Seq<char>,
) -> bool {
    &&& row.0@ == id
    &&& row.1.title@ == title
    &&& row.1.severity@ == severity
    &&& row.1.description@ == description
    &&& row.1.mitigation@ == mitigation
    &&& row.1.affected_versions@ == affected
}

pub open spec fn pattern_row(
    row: (String, PatternEntry),
    id: Seq<char>,
    description: Seq<char>,
    severity: Seq<char>,
    remediation: Seq<char>,
) -> bool {
    &&& row.0@ == id
    &&& row.1.description@ == description
    &&& row.1.severity@ == severity
    &&& row.1.remediation@ == remediation
}

/// The built-in reference data.
pub open spec fn is_builtin(kb: KnowledgeBase) -> bool {
    &&& kb.cves@.len() == 4
    &&& cve_row(
        kb.cves@[0],
        "CVE-2026-26322"@,
        "OpenClaw SSRF Vulnerability"@,
        "high"@,
        "Server-side request forgery in gatewayUrl validation allowing unauthorized WebSocket triggers"@,
        "Upgrade to 2026.2.14+, enforce strict gatewayUrl validation (loopback only, no overrides)"@,
        "<2026.2.14"@,
    )
    &&& cve_row(
        kb.cves@[1],
        "CVE-2026-25593"@,
        "OpenClaw RCE via cliPath"@,
        "critical"@,
        "Command injection through unsafe cliPath"@,
        "Validate cliPath, use absolute paths only, enable sandbox mode"@,
        "<2026.2.15"@,
    )
    &&& cve_row(
        kb.cves@[2],
        "CVE-2026-24763"@,
        "OpenClaw PATH Injection"@,
        "high"@,
        "PATH injection in container exec, unsafe Docker options"@,
        "Sanitize PATH in container exec, avoid unsafe Docker options, enable sandbox"@,
        "<2026.2.13"@,
    )
    &&& cve_row(
        kb.cves@[3],
        "CVE-2025-XXXXX"@,
        "Multiple OpenClaw CVEs"@,
        "varies"@,
        "Multiple CVEs affecting open-source personal AI assistants"@,
        "Keep updated, follow security advisories regularly"@,
        "various"@,
    )
    &&& kb.patterns@.len() == 4
    &&& pattern_row(
        kb.patterns@[0],
        "unsafe_cliPath"@,
        "Unrestricted cliPath can lead to command injection"@,
        "critical"@,
        "Use absolute paths, enable sandbox mode"@,
    )
    &&& pattern_row(
        kb.patterns@[1],
        "sandbox_mode_off"@,
        "Sandbox disabled with dangerous tools enabled"@,
        "critical"@,
        "Enable sandbox mode or disable exec/web tools"@,
    )
    &&& pattern_row(
        kb.patterns@[2],
        "lan_bind_no_auth"@,
        "LAN-bound gateway without authentication"@,
        "critical"@,
        "Use loopback bind or enable authentication"@,
    )
    &&& pattern_row(
        kb.patterns@[3],
        "weak_token"@,
        "Weak authentication token"@,
        "high"@,
        "Use 32+ character random token"@,
    )
}

fn cve(
    id: &str,
    title: &str,
    severity: &str,
    description: &str,
    mitigation: &str,
    affected: &str,
) -> (r: (String, CveEntry))
    ensures
        cve_row(r, id@, title@, severity@, description@, mitigation@, affected@),
{
    (
        String::from_str(id),
        CveEntry {
            title: String::from_str(title),
            severity: String::from_str(severity),
            description: String::from_str(description),
            mitigation: String::from_str(mitigation),
            affected_versions: String::from_str(affected),
        },
    )
}

fn pattern(id: &str, description: &str, severity: &str, remediation: &str) -> (r: (
    String,
    PatternEntry,
))
    ensures
        pattern_row(r, id@, description@, severity@, remediation@),
{
    (
        String::from_str(id),
        PatternEntry {
            description: String::from_str(description),
            severity: String::from_str(severity),
            remediation: String::from_str(remediation),
        },
    )
}

impl Default for KnowledgeBase {
    fn default() -> (r: Self)
        ensures
            is_builtin(r),
    {
        let mut cves: Vec<(String, CveEntry)> = Vec::new();
        cves.push(
            cve(
                "CVE-2026-26322",
                "OpenClaw SSRF Vulnerability",
                "high",
                "Server-side request forgery in gatewayUrl validation allowing unauthorized WebSocket triggers",
                "Upgrade to 2026.2.14+, enforce strict gatewayUrl validation (loopback only, no overrides)",
                "<2026.2.14",
            ),
        );
        cves.push(
            cve(
                "CVE-2026-25593",
                "OpenClaw RCE via cliPath",
                "critical",
                "Command injection through unsafe cliPath",
                "Validate cliPath, use absolute paths only, enable sandbox mode",
                "<2026.2.15",
            ),
        );
        cves.push(
            cve(
                "CVE-2026-24763",
                "OpenClaw PATH Injection",
                "high",
                "PATH injection in container exec, unsafe Docker options",
                "Sanitize PATH in container exec, avoid unsafe Docker options, enable sandbox",
                "<2026.2.13",
            ),
        );
        cves.push(
            cve(
                "CVE-2025-XXXXX",
                "Multiple OpenClaw CVEs",
                "varies",
                "Multiple CVEs affecting open-source personal AI assistants",
                "Keep updated, follow security advisories regularly",
                "various",
            ),
        );
        let mut patterns: Vec<(String, PatternEntry)> = Vec::new();
        patterns.push(
            pattern(
                "unsafe_cliPath",
                "Unrestricted cliPath can lead to command injection",
                "critical",
                "Use absolute paths, enable sandbox mode",
            ),
        );
        patterns.push(
            pattern(
                "sandbox_mode_off",
                "Sandbox disabled with dangerous tools enabled",
                "critical",
                "Enable sandbox mode or disable exec/web tools",
            ),
        );
        patterns.push(
            pattern(
                "lan_bind_no_auth",
                "LAN-bound gateway without authentication",
                "critical",
                "Use loopback bind or enable authentication",
            ),
        );
        patterns.push(
            pattern("weak_token", "Weak authentication token", "high", "Use 32+ character random token"),
        );
        KnowledgeBase { cves, patterns }
    }
}

impl KnowledgeBase {
    /// Index of the last CVE record with identifier `id`.
    fn find_cve(&self, id: &str) -> (r: Option<usize>)
        ensures
            match r {
                Some(i) => i < self.cves@.len() && cve_lookup(self.cves@, id@) == Some(
                    self.cves@[i as int].1,
                ),
                None => cve_lookup(self.cves@, id@) is None,
            },
    {
        let es = &self.cves;
        let mut found: Option<usize> = None;
        let mut i: usize = 0;
        while i < es.len()
            invariant
                es == &self.cves,
                i <= es@.len(),
                match found {
                    Some(j) => j < i && cve_lookup(es@.subrange(0, i as int), id@) == Some(
                        es@[j as int].1,
                    ),
                    None => cve_lookup(es@.subrange(0, i as int), id@) is None,
                },
            decreases es@.len() - i,
        {
            assert(es@.subrange(0, i as int + 1).drop_last() =~= es@.subrange(0, i as int));
            if text_eq(es[i].0.as_str(), id) {
                found = Some(i);
            }
            i = i + 1;
        }
        assert(es@.subrange(0, es@.len() as int) =~= es@);
        found
    }

    /// The mitigation text of a CVE, if the CVE is known.
    pub fn get_mitigation(&self, cve: &str) -> (r: Option<&str>)
        ensures
            match cve_lookup(self.cves@, cve@) {
                Some(e) => r matches Some(m) && m@ == e.mitigation@,
                None => r is None,
            },
    {
        match self.find_cve(cve) {
            Some(i) => Some(self.cves[i].1.mitigation.as_str()),
            None => None,
        }
    }

    /// Whether a CVE is known and has a `<version` predicate. The version
    /// itself is not compared.
    pub fn is_affected(&self, cve: &str, _version: &str) -> (r: bool)
        ensures
            r == (cve_lookup(self.cves@, cve@) matches Some(e) && text_starts_with(
                e.affected_versions@,
                "<"@,
            )),
    {
        match self.find_cve(cve) {
            Some(i) => starts_with_text(self.cves[i].1.affected_versions.as_str(), "<"),
            None => false,
        }
    }
}

/// The reference data, built anew on each call.
pub fn get_knowledge_base() -> (r: KnowledgeBase)
    ensures
        is_builtin(r),
{
    KnowledgeBase::default()
}

} // verus!
