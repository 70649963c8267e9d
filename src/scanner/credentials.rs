//! Tokens stored in the configuration and secret-looking text anywhere in it.

use vstd::prelude::*;
use crate::config::OpenClawConfig;
use crate::models::{finding_view, views, Finding, FindingView, Severity};
use crate::scanner::{add_when, present_if, Scanner};
use crate::text::{byte_len, concat3, or_empty, contains_text, starts_with_text, text_contains, text_eq, text_len, text_starts_with};
use crate::tree::{compact_text, encode_compact, lower_of, lowercase};

verus! {

pub struct CredentialsScanner;

/// A token that is a placeholder rather than a secret.
pub open spec fn is_redacted(t: Seq<char>) -> bool {
    text_starts_with(t, "REDACTED"@) || text_starts_with(t, "***"@) || t == "YOUR_TOKEN_HERE"@
        || byte_len(t) < 10
}

/// The first secret marker, in the fixed order, that occurs in a lower-cased text.
pub open spec fn secret_marker(s: Seq<char>) -> Option<Seq<char>> {
    if text_contains(s, "sk-"@) {
        Some("sk-"@)
    } else if text_contains(s, "api_"@) {
        Some("api_"@)
    } else if text_contains(s, "apikey"@) {
        Some("apikey"@)
    } else if text_contains(s, "secret"@) {
        Some("secret"@)
    } else if text_contains(s, "token"@) {
        Some("token"@)
    } else {
        None
    }
}

pub open spec fn token_rule(token: Option<String>) -> Seq<FindingView> {
    let m = "credentials"@;
    match token {
        Some(t) => if is_redacted(t@) {
            Seq::empty()
        } else if byte_len(t@) < 32 {
            seq![finding_view(
                "credentials.weak_gateway_token"@,
                m,
                Severity::High,
                "Weak Gateway Token in Config"@,
                "Gateway token is present and appears weak or unredacted"@,
                "Token could be exposed in config file"@,
                "Use a strong token (32+ chars) or ensure config is properly secured"@,
                "gateway.auth.token"@,
            )]
        } else {
            seq![finding_view(
                "credentials.token_in_config"@,
                m,
                Severity::Medium,
                "Gateway Token in Configuration File"@,
                "Gateway token is stored directly in config file"@,
                "Config file should be protected with appropriate permissions"@,
                "Ensure config file has restricted permissions (600)"@,
                "gateway.auth.token"@,
            )]
        },
        None => Seq::empty(),
    }
}

pub open spec fn secret_rule(lowered: Seq<char>) -> Seq<FindingView> {
    present_if(
        secret_marker(lowered) is Some,
        finding_view(
            "credentials.potential_secret_found"@,
            "credentials"@,
            Severity::High,
            "Potential Secret Detected in Config"@,
            "Found potential secret pattern '"@ + or_empty(secret_marker(lowered)) + "' in configuration"@,
            "Sensitive credentials may be exposed"@,
            "Review and ensure secrets are properly secured or redacted"@,
            "config"@,
        ),
    )
}

/// The text is searched in serde_json's compact form, lower-cased.
pub open spec fn credentials_rule(c: OpenClawConfig) -> Seq<FindingView> {
    token_rule(c.gateway.token) + secret_rule(lower_of(compact_text(c.raw)))
}

pub fn is_redacted_token(t: &str) -> (r: bool)
    ensures
        r == is_redacted(t@),
{
    starts_with_text(t, "REDACTED") || starts_with_text(t, "***") || text_eq(t, "YOUR_TOKEN_HERE")
        || text_len(t) < 10
}

/// The first secret marker that occurs in `lowered`, a lower-cased text.
pub fn find_secret_marker(lowered: &str) -> (r: Option<&'static str>)
    ensures
        match r {
            Some(p) => secret_marker(lowered@) == Some(p@),
            None => secret_marker(lowered@) is None,
        },
{
    if contains_text(lowered, "sk-") {
        Some("sk-")
    } else if contains_text(lowered, "api_") {
        Some("api_")
    } else if contains_text(lowered, "apikey") {
        Some("apikey")
    } else if contains_text(lowered, "secret") {
        Some("secret")
    } else if contains_text(lowered, "token") {
        Some("token")
    } else {
        None
    }
}

/// Findings on the gateway token alone.
pub fn scan_token(out: &mut Vec<Finding>, token: &Option<String>)
    ensures
        views(final(out)@) == views(old(out)@) + token_rule(*token),
{
    let m = "credentials";
    match token {
        Some(t) => {
            let redacted = is_redacted_token(t.as_str());
            let short = text_len(t.as_str()) < 32;
            add_when(
                out,
                !redacted && short,
                Finding::new(
                    "credentials.weak_gateway_token",
                    m,
                    Severity::High,
                    "Weak Gateway Token in Config",
                    "Gateway token is present and appears weak or unredacted",
                    "Token could be exposed in config file",
                    "Use a strong token (32+ chars) or ensure config is properly secured",
                    "gateway.auth.token",
                ),
            );
            add_when(
                out,
                !redacted && !short,
                Finding::new(
                    "credentials.token_in_config",
                    m,
                    Severity::Medium,
                    "Gateway Token in Configuration File",
                    "Gateway token is stored directly in config file",
                    "Config file should be protected with appropriate permissions",
                    "Ensure config file has restricted permissions (600)",
                    "gateway.auth.token",
                ),
            );
        },
        None => {},
    }
    assert(views(final(out)@) =~= views(old(out)@) + token_rule(*token));
}

/// The secret-pattern finding for a lower-cased serialized document, if any.
pub fn scan_secret_text(out: &mut Vec<Finding>, lowered: &str)
    ensures
        views(final(out)@) == views(old(out)@) + secret_rule(lowered@),
{
    let marker = find_secret_marker(lowered);
    let found = match marker {
        Some(p) => p,
        None => {
            proof {
                reveal_strlit("");
            }
            assert(""@ =~= Seq::<char>::empty());
            ""
        },
    };
    let desc = concat3("Found potential secret pattern '", found, "' in configuration");
    add_when(
        out,
        marker.is_some(),
        Finding::new(
            "credentials.potential_secret_found",
            "credentials",
            Severity::High,
            "Potential Secret Detected in Config",
            desc.as_str(),
            "Sensitive credentials may be exposed",
            "Review and ensure secrets are properly secured or redacted",
            "config",
        ),
    );
}

impl Scanner for CredentialsScanner {
    open spec fn rule(&self, config: OpenClawConfig) -> Seq<FindingView> {
        credentials_rule(config)
    }

    open spec fn module_name(&self) -> Seq<char> {
        "credentials"@
    }

    fn name(&self) -> (r: &str) {
        "credentials"
    }

    fn description(&self) -> &str {
        "Credential and secret detection"
    }

    fn scan(&self, config: &OpenClawConfig) -> (r: Vec<Finding>) {
        let mut out: Vec<Finding> = Vec::new();
        scan_token(&mut out, &config.gateway.token);
        let text = encode_compact(&config.raw);
        let lowered = lowercase(text.as_str());
        scan_secret_text(&mut out, lowered.as_str());
        assert(views(out@) =~= credentials_rule(*config));
        out
    }
}

} // verus!
