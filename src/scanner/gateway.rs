//! Gateway exposure and authentication.

use vstd::prelude::*;
use crate::config::OpenClawConfig;
use crate::models::{cited, finding_view, views, Finding, FindingView, Severity};
use crate::scanner::{add_when, present_if, Scanner};
use crate::text::{byte_len, concat3, decimal, is_text, opt_is, text_len, usize_text};

verus! {

pub struct GatewayScanner;

/// Byte length of the token, 0 when there is none.
pub open spec fn token_bytes(t: Option<String>) -> nat {
    match t {
        Some(s) => byte_len(s@),
        None => 0,
    }
}

/// The gateway rule.
pub open spec fn gateway_rule(c: OpenClawConfig) -> Seq<FindingView> {
    let g = c.gateway;
    let m = "gateway"@;
    present_if(
        is_text(g.auth_mode, "none"@),
        cited(finding_view(
            "gateway.auth_none"@,
            m,
            Severity::Critical,
            "Gateway Authentication Disabled"@,
            "Gateway auth mode is set to 'none', allowing unauthenticated access"@,
            "Anyone can access your gateway without authentication"@,
            "Set gateway.auth.mode to 'token' or 'password'"@,
            "gateway.auth.mode"@,
        ), "CVE-2026-26322"@),
    ) + present_if(
        is_text(g.bind, "0.0.0.0"@) || is_text(g.bind, "0.0.0.0:0"@),
        finding_view(
            "gateway.bind_public"@,
            m,
            Severity::Critical,
            "Gateway Bound to All Interfaces"@,
            "Gateway is bound to 0.0.0.0, making it publicly accessible"@,
            "Anyone on the network can access your gateway"@,
            "Set gateway.bind to 'loopback' for local-only access"@,
            "gateway.bind"@,
        ),
    ) + present_if(
        is_text(g.bind, "lan"@) && g.token is None,
        finding_view(
            "gateway.lan_no_auth"@,
            m,
            Severity::Critical,
            "LAN-Bound Gateway Without Authentication"@,
            "Gateway is accessible on LAN without authentication token"@,
            "Anyone on your local network can access the gateway"@,
            "Set gateway.auth.token to a strong token (32+ characters)"@,
            "gateway.bind"@,
        ),
    ) + present_if(
        g.token matches Some(t) && byte_len(t@) < 32,
        finding_view(
            "gateway.weak_token"@,
            m,
            Severity::High,
            "Weak Gateway Token"@,
            "Gateway token is only "@ + decimal(token_bytes(g.token)) + " characters (recommended: 32+)"@,
            "Token may be vulnerable to brute force attacks"@,
            "Use a token with at least 32 random characters"@,
            "gateway.auth.token"@,
        ),
    ) + present_if(
        g.tailscale_funnel == Some(true),
        cited(finding_view(
            "gateway.tailscale_funnel"@,
            m,
            Severity::Critical,
            "Tailscale Funnel Enabled"@,
            "Gateway is exposed via Tailscale Funnel, making it publicly accessible"@,
            "Your gateway is exposed to the public internet via Tailscale"@,
            "Disable Tailscale Funnel unless you need public access"@,
            "gateway.tailscale.funnel"@,
        ), "CVE-2026-26322"@),
    ) + present_if(
        is_text(g.mdns_mode, "full"@),
        finding_view(
            "gateway.mdns_full"@,
            m,
            Severity::Medium,
            "mDNS Full Mode Enabled"@,
            "mDNS is in full mode, exposing cliPath and sshPort"@,
            "Reveals filesystem path and SSH availability to local network"@,
            "Set discovery.mdns.mode to 'minimal' or 'off'"@,
            "discovery.mdns.mode"@,
        ),
    ) + present_if(
        !is_text(g.bind, "loopback"@) && g.control_ui_origins is None,
        finding_view(
            "gateway.control_ui_no_origins"@,
            m,
            Severity::High,
            "Control UI Missing allowedOrigins"@,
            "Non-loopback Control UI requires explicit allowedOrigins"@,
            "Control UI may be accessible to unauthorized origins"@,
            "Set gateway.controlUi.allowedOrigins to explicit origin list"@,
            "gateway.controlUi.allowedOrigins"@,
        ),
    ) + present_if(
        g.http_no_auth == Some(true),
        finding_view(
            "gateway.http_no_auth"@,
            m,
            Severity::Critical,
            "Gateway HTTP APIs Without Auth"@,
            "Gateway HTTP APIs are reachable without authentication"@,
            "Unauthenticated access to gateway HTTP endpoints"@,
            "Set gateway.auth.mode to 'token' or 'password'"@,
            "gateway.http.noAuth"@,
        ),
    ) + present_if(
        is_text(g.bind, "lan"@) && g.trusted_proxies is None,
        finding_view(
            "gateway.no_trusted_proxies"@,
            m,
            Severity::Low,
            "No Trusted Proxies Configured"@,
            "LAN-bound gateway without trusted proxies may have IP detection issues"@,
            "Client IP may not be correctly detected behind proxy"@,
            "Configure gateway.trustedProxies with proxy IPs"@,
            "gateway.trustedProxies"@,
        ),
    )
}

impl Scanner for GatewayScanner {
    open spec fn rule(&self, config: OpenClawConfig) -> Seq<FindingView> {
        gateway_rule(config)
    }

    open spec fn module_name(&self) -> Seq<char> {
        "gateway"@
    }

    fn name(&self) -> (r: &str) {
        "gateway"
    }

    fn description(&self) -> &str {
        "Gateway authentication and authorization security"
    }

    fn scan(&self, config: &OpenClawConfig) -> (r: Vec<Finding>) {
        let g = &config.gateway;
        let m = self.name();
        let mut out: Vec<Finding> = Vec::new();
        add_when(
            &mut out,
            opt_is(&g.auth_mode, "none"),
            Finding::new(
                "gateway.auth_none",
                m,
                Severity::Critical,
                "Gateway Authentication Disabled",
                "Gateway auth mode is set to 'none', allowing unauthenticated access",
                "Anyone can access your gateway without authentication",
                "Set gateway.auth.mode to 'token' or 'password'",
                "gateway.auth.mode",
            ).with_cve("CVE-2026-26322"),
        );
        add_when(
            &mut out,
            opt_is(&g.bind, "0.0.0.0") || opt_is(&g.bind, "0.0.0.0:0"),
            Finding::new(
                "gateway.bind_public",
                m,
                Severity::Critical,
                "Gateway Bound to All Interfaces",
                "Gateway is bound to 0.0.0.0, making it publicly accessible",
                "Anyone on the network can access your gateway",
                "Set gateway.bind to 'loopback' for local-only access",
                "gateway.bind",
            ),
        );
        add_when(
            &mut out,
            opt_is(&g.bind, "lan") && g.token.is_none(),
            Finding::new(
                "gateway.lan_no_auth",
                m,
                Severity::Critical,
                "LAN-Bound Gateway Without Authentication",
                "Gateway is accessible on LAN without authentication token",
                "Anyone on your local network can access the gateway",
                "Set gateway.auth.token to a strong token (32+ characters)",
                "gateway.bind",
            ),
        );
        let token_len: usize = match &g.token {
            Some(t) => text_len(t.as_str()),
            None => 0,
        };
        let len_text = usize_text(token_len);
        let weak_desc = concat3(
            "Gateway token is only ",
            len_text.as_str(),
            " characters (recommended: 32+)",
        );
        add_when(
            &mut out,
            g.token.is_some() && token_len < 32,
            Finding::new(
                "gateway.weak_token",
                m,
                Severity::High,
                "Weak Gateway Token",
                weak_desc.as_str(),
                "Token may be vulnerable to brute force attacks",
                "Use a token with at least 32 random characters",
                "gateway.auth.token",
            ),
        );
        add_when(
            &mut out,
            g.tailscale_funnel == Some(true),
            Finding::new(
                "gateway.tailscale_funnel",
                m,
                Severity::Critical,
                "Tailscale Funnel Enabled",
                "Gateway is exposed via Tailscale Funnel, making it publicly accessible",
                "Your gateway is exposed to the public internet via Tailscale",
                "Disable Tailscale Funnel unless you need public access",
                "gateway.tailscale.funnel",
            ).with_cve("CVE-2026-26322"),
        );
        add_when(
            &mut out,
            opt_is(&g.mdns_mode, "full"),
            Finding::new(
                "gateway.mdns_full",
                m,
                Severity::Medium,
                "mDNS Full Mode Enabled",
                "mDNS is in full mode, exposing cliPath and sshPort",
                "Reveals filesystem path and SSH availability to local network",
                "Set discovery.mdns.mode to 'minimal' or 'off'",
                "discovery.mdns.mode",
            ),
        );
        add_when(
            &mut out,
            !opt_is(&g.bind, "loopback") && g.control_ui_origins.is_none(),
            Finding::new(
                "gateway.control_ui_no_origins",
                m,
                Severity::High,
                "Control UI Missing allowedOrigins",
                "Non-loopback Control UI requires explicit allowedOrigins",
                "Control UI may be accessible to unauthorized origins",
                "Set gateway.controlUi.allowedOrigins to explicit origin list",
                "gateway.controlUi.allowedOrigins",
            ),
        );
        add_when(
            &mut out,
            g.http_no_auth == Some(true),
            Finding::new(
                "gateway.http_no_auth",
                m,
                Severity::Critical,
                "Gateway HTTP APIs Without Auth",
                "Gateway HTTP APIs are reachable without authentication",
                "Unauthenticated access to gateway HTTP endpoints",
                "Set gateway.auth.mode to 'token' or 'password'",
                "gateway.http.noAuth",
            ),
        );
        add_when(
            &mut out,
            opt_is(&g.bind, "lan") && g.trusted_proxies.is_none(),
            Finding::new(
                "gateway.no_trusted_proxies",
                m,
                Severity::Low,
                "No Trusted Proxies Configured",
                "LAN-bound gateway without trusted proxies may have IP detection issues",
                "Client IP may not be correctly detected behind proxy",
                "Configure gateway.trustedProxies with proxy IPs",
                "gateway.trustedProxies",
            ),
        );
        assert(views(out@) =~= gateway_rule(*config));
        out
    }
}

} // verus!
