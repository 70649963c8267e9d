//! Security audit of an AI-assistant gateway configuration: a typed view of
//! the configuration tree, independent rules that report findings, a health
//! score over those findings, and declarative remediation edits.

pub mod text;
pub mod models;
pub mod tree;
pub mod config;
pub mod scanner;
pub mod engine;
pub mod knowledge;
pub mod fixer;

pub use config::OpenClawConfig;
pub use engine::{scan_config, SeverityFilter};
pub use models::{Finding, ScanResult, Severity};
pub use scanner::{
    get_all_scanners, BrowserScanner, ChannelScanner, ControlPlaneScanner, CredentialsScanner,
    GatewayScanner, MemoryScanner, NodeScanner, PluginScanner, PromptInjectionScanner, RuleKind,
    SandboxScanner, Scanner, SessionScanner, ToolsScanner,
};
pub use tree::{JsonNumber, JsonValue};
