//! The rules. Each is a pure function of the configuration to an ordered list
//! of findings; the registry runs all twelve in a fixed order.

use vstd::prelude::*;
use crate::config::OpenClawConfig;
use crate::models::{views, Finding, FindingView};

pub mod browser;
pub mod channels;
pub mod control_plane;
pub mod credentials;
pub mod gateway;
pub mod memory;
pub mod nodes;
pub mod plugins;
pub mod prompt_injection;
pub mod sandbox;
pub mod session;
pub mod tools;

pub use browser::BrowserScanner;
pub use channels::ChannelScanner;
pub use control_plane::ControlPlaneScanner;
pub use credentials::CredentialsScanner;
pub use gateway::GatewayScanner;
pub use memory::MemoryScanner;
pub use nodes::NodeScanner;
pub use plugins::PluginScanner;
pub use prompt_injection::PromptInjectionScanner;
pub use sandbox::SandboxScanner;
pub use session::SessionScanner;
pub use tools::ToolsScanner;

verus! {

/// `k` alone when `b` holds, else nothing.
pub open spec fn present_if(b: bool, k: FindingView) -> Seq<FindingView> {
    if b {
        seq![k]
    } else {
        Seq::empty()
    }
}

/// Appends `f` when `cond` holds.
pub fn add_when(out: &mut Vec<Finding>, cond: bool, f: Finding)
    ensures
        views(final(out)@) == views(old(out)@) + present_if(cond, f.as_view()),
{
    if cond {
        out.push(f);
        assert(views(final(out)@) =~= views(old(out)@) + seq![f.as_view()]);
    } else {
        assert(views(old(out)@) + present_if(cond, f.as_view()) =~= views(old(out)@));
    }
}

/// A security rule over the configuration.
pub trait Scanner {
    /// The keys of the findings that the rule reports on a configuration.
    spec fn rule(&self, config: OpenClawConfig) -> Seq<FindingView>;

    /// The module name that the rule's findings carry.
    spec fn module_name(&self) -> Seq<char>;

    fn name(&self) -> (r: &str)
        ensures
            r@ == self.module_name(),
    ;

    fn description(&self) -> &str;

    fn scan(&self, config: &OpenClawConfig) -> (r: Vec<Finding>)
        ensures
            views(r@) == self.rule(*config),
    ;
}

/// The twelve built-in rules.
#[derive(Debug, Clone, Copy, PartialEq, Eq, Structural)]
pub enum RuleKind {
    Gateway,
    Sandbox,
    Tools,
    Session,
    Channels,
    Credentials,
    Nodes,
    Browser,
    ControlPlane,
    Memory,
    PromptInjection,
    Plugins,
}

/// The registry, in its fixed order.
pub open spec fn registry() -> Seq<RuleKind> {
    seq![
        RuleKind::Gateway,
        RuleKind::Sandbox,
        RuleKind::Tools,
        RuleKind::Session,
        RuleKind::Channels,
        RuleKind::Credentials,
        RuleKind::Nodes,
        RuleKind::Browser,
        RuleKind::ControlPlane,
        RuleKind::Memory,
        RuleKind::PromptInjection,
        RuleKind::Plugins,
    ]
}

/// What a rule reports on a configuration.
pub open spec fn rule_of(k: RuleKind, c: OpenClawConfig) -> Seq<FindingView> {
    match k {
        RuleKind::Gateway => gateway::gateway_rule(c),
        RuleKind::Sandbox => sandbox::sandbox_rule(c),
        RuleKind::Tools => tools::tools_rule(c),
        RuleKind::Session => session::session_rule(c),
        RuleKind::Channels => channels::channels_rule(c),
        RuleKind::Credentials => credentials::credentials_rule(c),
        RuleKind::Nodes => nodes::nodes_rule(c),
        RuleKind::Browser => browser::browser_rule(c),
        RuleKind::ControlPlane => control_plane::control_plane_rule(c),
        RuleKind::Memory => memory::memory_rule(c),
        RuleKind::PromptInjection => prompt_injection::injection_rule(c),
        RuleKind::Plugins => plugins::plugins_rule(c),
    }
}

/// All rules, in registry order.
pub fn get_all_scanners() -> (r: Vec<RuleKind>)
    ensures
        r@ == registry(),
{
    let r = vec![
        RuleKind::Gateway,
        RuleKind::Sandbox,
        RuleKind::Tools,
        RuleKind::Session,
        RuleKind::Channels,
        RuleKind::Credentials,
        RuleKind::Nodes,
        RuleKind::Browser,
        RuleKind::ControlPlane,
        RuleKind::Memory,
        RuleKind::PromptInjection,
        RuleKind::Plugins,
    ];
    assert(r@ =~= registry());
    r
}

/// The module name that a rule's findings carry.
pub open spec fn rule_name(k: RuleKind) -> Seq<char> {
    match k {
        RuleKind::Gateway => "gateway"@,
        RuleKind::Sandbox => "sandbox"@,
        RuleKind::Tools => "tools"@,
        RuleKind::Session => "session"@,
        RuleKind::Channels => "channels"@,
        RuleKind::Credentials => "credentials"@,
        RuleKind::Nodes => "nodes"@,
        RuleKind::Browser => "browser"@,
        RuleKind::ControlPlane => "control_plane"@,
        RuleKind::Memory => "memory"@,
        RuleKind::PromptInjection => "prompt_injection"@,
        RuleKind::Plugins => "plugins"@,
    }
}

impl RuleKind {
    pub fn name(&self) -> (r: &'static str)
        ensures
            r@ == rule_name(*self),
    {
        match self {
            RuleKind::Gateway => "gateway",
            RuleKind::Sandbox => "sandbox",
            RuleKind::Tools => "tools",
            RuleKind::Session => "session",
            RuleKind::Channels => "channels",
            RuleKind::Credentials => "credentials",
            RuleKind::Nodes => "nodes",
            RuleKind::Browser => "browser",
            RuleKind::ControlPlane => "control_plane",
            RuleKind::Memory => "memory",
            RuleKind::PromptInjection => "prompt_injection",
            RuleKind::Plugins => "plugins",
        }
    }

    /// Runs this rule.
    pub fn scan(&self, config: &OpenClawConfig) -> (r: Vec<Finding>)
        ensures
            views(r@) == rule_of(*self, *config),
    {
        match self {
            RuleKind::Gateway => GatewayScanner.scan(config),
            RuleKind::Sandbox => SandboxScanner.scan(config),
            RuleKind::Tools => ToolsScanner.scan(config),
            RuleKind::Session => SessionScanner.scan(config),
            RuleKind::Channels => ChannelScanner.scan(config),
            RuleKind::Credentials => CredentialsScanner.scan(config),
            RuleKind::Nodes => NodeScanner.scan(config),
            RuleKind::Browser => BrowserScanner.scan(config),
            RuleKind::ControlPlane => ControlPlaneScanner.scan(config),
            RuleKind::Memory => MemoryScanner.scan(config),
            RuleKind::PromptInjection => PromptInjectionScanner.scan(config),
            RuleKind::Plugins => PluginScanner.scan(config),
        }
    }
}

} // verus!
