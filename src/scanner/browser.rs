//! Browser automation: relay and CDP exposure, download directory, profile.

use vstd::prelude::*;
use crate::config::{at3, at4, OpenClawConfig};
use crate::models::{finding_view, views, Finding, FindingView, Severity};
use crate::scanner::{add_when, present_if, Scanner};
use crate::text::{concat3, contains_text, opt_is, or_empty, shown, text_contains};
use crate::tree::{as_flag, as_text, child, flag_of, lower_of, lowercase, text_of};

verus! {

pub struct BrowserScanner;

pub open spec fn is_loopback(b: Seq<char>) -> bool {
    b == "loopback"@ || b == "127.0.0.1"@
}

pub open spec fn browser_rule(c: OpenClawConfig) -> Seq<FindingView> {
    let m = "browser"@;
    let relay_bind = as_text(at4(c.raw, "tools", "browser", "relay", "bind"));
    let cdp_enabled = as_flag(at4(c.raw, "tools", "browser", "cdp", "enabled"));
    let cdp_bind = as_text(at4(c.raw, "tools", "browser", "cdp", "bind"));
    let dir = as_text(at3(c.raw, "tools", "browser", "downloadDir"));
    let profile = as_text(at3(c.raw, "tools", "browser", "profile"));
    present_if(
        relay_bind matches Some(b) && !is_loopback(b),
        finding_view(
            "browser.relay_public"@,
            m,
            Severity::Critical,
            "Browser Relay Bound to Non-Localhost"@,
            "Browser relay bind is '"@ + or_empty(relay_bind) + "' (not loopback)"@,
            "Browser automation could be accessed from network"@,
            "Set browser.relay.bind to 'loopback'"@,
            "tools.browser.relay.bind"@,
        ),
    ) + present_if(
        cdp_enabled == Some(true) && (cdp_bind matches Some(b) && !is_loopback(b)),
        finding_view(
            "browser.cdp_public"@,
            m,
            Severity::Critical,
            "Chrome DevTools Protocol Enabled and Exposed"@,
            "CDP is enabled and may be accessible from network"@,
            "Remote attackers could control browser"@,
            "Set browser.cdp.bind to 'loopback' or disable CDP"@,
            "tools.browser.cdp"@,
        ),
    ) + present_if(
        dir == Some(""@) || dir == Some("/"@) || dir == Some("C:\\"@),
        finding_view(
            "browser.download_root"@,
            m,
            Severity::High,
            "Browser Download Directory is Root"@,
            "Download directory is '"@ + or_empty(dir) + "'"@,
            "Downloaded files could overwrite system files"@,
            "Set a specific downloads folder"@,
            "tools.browser.downloadDir"@,
        ),
    ) + present_if(
        profile matches Some(p) && text_contains(lower_of(p), "default"@),
        finding_view(
            "browser.default_profile"@,
            m,
            Severity::Medium,
            "Using Default Browser Profile"@,
            "Browser uses the default user profile"@,
            "Could access bookmarks, passwords, cookies"@,
            "Use a dedicated profile for automation"@,
            "tools.browser.profile"@,
        ),
    )
}

fn non_loopback(o: &Option<String>) -> (r: bool)
    ensures
        r == (crate::models::opt_text(*o) matches Some(b) && !is_loopback(b)),
{
    o.is_some() && !opt_is(o, "loopback") && !opt_is(o, "127.0.0.1")
}

impl Scanner for BrowserScanner {
    open spec fn rule(&self, config: OpenClawConfig) -> Seq<FindingView> {
        browser_rule(config)
    }

    open spec fn module_name(&self) -> Seq<char> {
        "browser"@
    }

    fn name(&self) -> (r: &str) {
        "browser"
    }

    fn description(&self) -> &str {
        "Browser automation security"
    }

    fn scan(&self, config: &OpenClawConfig) -> (r: Vec<Finding>) {
        let m = self.name();
        let browser = child(child(Some(&config.raw), "tools"), "browser");
        let relay_bind = text_of(child(child(browser, "relay"), "bind"));
        let cdp = child(browser, "cdp");
        let cdp_enabled = flag_of(child(cdp, "enabled"));
        let cdp_bind = text_of(child(cdp, "bind"));
        let dir = text_of(child(browser, "downloadDir"));
        let profile = text_of(child(browser, "profile"));
        let mut out: Vec<Finding> = Vec::new();
        let desc = concat3("Browser relay bind is '", shown(&relay_bind), "' (not loopback)");
        add_when(
            &mut out,
            non_loopback(&relay_bind),
            Finding::new(
                "browser.relay_public",
                m,
                Severity::Critical,
                "Browser Relay Bound to Non-Localhost",
                desc.as_str(),
                "Browser automation could be accessed from network",
                "Set browser.relay.bind to 'loopback'",
                "tools.browser.relay.bind",
            ),
        );
        add_when(
            &mut out,
            cdp_enabled == Some(true) && non_loopback(&cdp_bind),
            Finding::new(
                "browser.cdp_public",
                m,
                Severity::Critical,
                "Chrome DevTools Protocol Enabled and Exposed",
                "CDP is enabled and may be accessible from network",
                "Remote attackers could control browser",
                "Set browser.cdp.bind to 'loopback' or disable CDP",
                "tools.browser.cdp",
            ),
        );
        let desc = concat3("Download directory is '", shown(&dir), "'");
        add_when(
            &mut out,
            opt_is(&dir, "") || opt_is(&dir, "/") || opt_is(&dir, "C:\\"),
            Finding::new(
                "browser.download_root",
                m,
                Severity::High,
                "Browser Download Directory is Root",
                desc.as_str(),
                "Downloaded files could overwrite system files",
                "Set a specific downloads folder",
                "tools.browser.downloadDir",
            ),
        );
        let default_profile = match &profile {
            Some(p) => {
                let lowered = lowercase(p.as_str());
                contains_text(lowered.as_str(), "default")
            },
            None => false,
        };
        add_when(
            &mut out,
            default_profile,
            Finding::new(
                "browser.default_profile",
                m,
                Severity::Medium,
                "Using Default Browser Profile",
                "Browser uses the default user profile",
                "Could access bookmarks, passwords, cookies",
                "Use a dedicated profile for automation",
                "tools.browser.profile",
            ),
        );
        assert(views(out@) =~= browser_rule(*config));
        out
    }
}

} // verus!
