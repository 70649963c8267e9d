//! The semantic view of a configuration document: typed optional fields read
//! from known paths, next to the raw tree that schema-free sections are read
//! from. A missing or mis-typed value leaves its field unset; it is never an
//! error.

use vstd::prelude::*;
use crate::models::opt_text;
use crate::text::concat2;
use crate::tree::{
    as_flag, as_text, as_texts, as_u64, child, decode_json, decode_yaml, flag_of, get,
    is_object, json_decoded, opt_texts_view, text_of, texts_of, u64_of, yaml_decoded, JsonValue,
};

verus! {

#[derive(Debug, Clone, Default)]
pub struct GatewayConfig {
    pub mode: Option<String>,
    pub bind: Option<String>,
    pub port: Option<u16>,
    pub auth_mode: Option<String>,
    pub token: Option<String>,
    pub tailscale_funnel: Option<bool>,
    pub mdns_mode: Option<String>,
    pub control_ui_origins: Option<Vec<String>>,
    pub trusted_proxies: Option<Vec<String>>,
    pub http_no_auth: Option<bool>,
}

#[derive(Debug, Clone, Default)]
pub struct ToolsConfig {
    pub profile: Option<String>,
    pub deny: Option<Vec<String>>,
    pub exec_host: Option<String>,
    pub exec_security: Option<String>,
    pub exec_ask: Option<String>,
    pub exec_safe_bins: Option<Vec<String>>,
    pub elevated_enabled: Option<bool>,
    pub fs_workspace_only: Option<bool>,
    pub web_fetch_ssrf_policy: Option<String>,
    pub web_search_ssrf_policy: Option<String>,
}

#[derive(Debug, Clone, Default)]
pub struct SandboxConfig {
    pub mode: Option<String>,
    pub workspace_access: Option<String>,
    pub scope: Option<String>,
}

#[derive(Debug, Clone, Default)]
pub struct SessionConfig {
    pub dm_scope: Option<String>,
}

#[derive(Debug, Clone, Default)]
pub struct ChannelConfig {
    pub enabled: Option<bool>,
    pub dm_policy: Option<String>,
    pub group_policy: Option<String>,
    pub allow_from: Option<Vec<String>>,
}

/// The semantic view and the raw tree it was read from. Channels come in the
/// fixed order of the known channel names, each name at most once.
#[derive(Debug)]
pub struct OpenClawConfig {
    pub gateway: GatewayConfig,
    pub tools: ToolsConfig,
    pub sandbox: SandboxConfig,
    pub session: SessionConfig,
    pub channels: Vec<(String, ChannelConfig)>,
    pub raw: JsonValue,
}

/// Member `a` of the root, and so on down the keys.
pub open spec fn at1(raw: JsonValue, a: &str) -> Option<JsonValue> {
    get(Some(raw), a@)
}

pub open spec fn at2(raw: JsonValue, a: &str, b: &str) -> Option<JsonValue> {
    get(at1(raw, a), b@)
}

pub open spec fn at3(raw: JsonValue, a: &str, b: &str, c: &str) -> Option<JsonValue> {
    get(at2(raw, a, b), c@)
}

pub open spec fn at4(raw: JsonValue, a: &str, b: &str, c: &str, d: &str) -> Option<JsonValue> {
    get(at3(raw, a, b, c), d@)
}

/// A port number; one that does not fit in 16 bits is left unset.
pub open spec fn port_of(o: Option<JsonValue>) -> Option<u16> {
    match as_u64(o) {
        Some(n) => if n <= 65535 {
            Some(n as u16)
        } else {
            None
        },
        None => None,
    }
}

pub open spec fn gateway_read(g: GatewayConfig, raw: JsonValue) -> bool {
    &&& opt_text(g.mode) == as_text(at2(raw, "gateway", "mode"))
    &&& opt_text(g.bind) == as_text(at2(raw, "gateway", "bind"))
    &&& g.port == port_of(at2(raw, "gateway", "port"))
    &&& opt_text(g.auth_mode) == as_text(at3(raw, "gateway", "auth", "mode"))
    &&& opt_text(g.token) == as_text(at3(raw, "gateway", "auth", "token"))
    &&& g.tailscale_funnel == as_flag(at3(raw, "gateway", "tailscale", "funnel"))
    &&& opt_text(g.mdns_mode) == as_text(at4(raw, "gateway", "discovery", "mdns", "mode"))
    &&& opt_texts_view(g.control_ui_origins) == as_texts(
        at3(raw, "gateway", "controlUi", "allowedOrigins"),
    )
    &&& opt_texts_view(g.trusted_proxies) == as_texts(at2(raw, "gateway", "trustedProxies"))
    &&& g.http_no_auth == as_flag(at3(raw, "gateway", "http", "noAuth"))
}

pub open spec fn tools_read(t: ToolsConfig, raw: JsonValue) -> bool {
    &&& opt_text(t.profile) == as_text(at2(raw, "tools", "profile"))
    &&& opt_texts_view(t.deny) == as_texts(at2(raw, "tools", "deny"))
    &&& opt_text(t.exec_host) == as_text(at3(raw, "tools", "exec", "host"))
    &&& opt_text(t.exec_security) == as_text(at3(raw, "tools", "exec", "security"))
    &&& opt_text(t.exec_ask) == as_text(at3(raw, "tools", "exec", "ask"))
    &&& opt_texts_view(t.exec_safe_bins) == as_texts(at3(raw, "tools", "exec", "safeBins"))
    &&& t.elevated_enabled == as_flag(at3(raw, "tools", "elevated", "enabled"))
    &&& t.fs_workspace_only == as_flag(at3(raw, "tools", "fs", "workspaceOnly"))
    &&& opt_text(t.web_fetch_ssrf_policy) == as_text(at3(raw, "tools", "webFetch", "ssrfPolicy"))
    &&& opt_text(t.web_search_ssrf_policy) == as_text(
        at3(raw, "tools", "webSearch", "ssrfPolicy"),
    )
}

pub open spec fn sandbox_read(s: SandboxConfig, raw: JsonValue) -> bool {
    &&& opt_text(s.mode) == as_text(at4(raw, "agents", "defaults", "sandbox", "mode"))
    &&& opt_text(s.workspace_access) == as_text(
        at4(raw, "agents", "defaults", "sandbox", "workspaceAccess"),
    )
    &&& opt_text(s.scope) == as_text(at4(raw, "agents", "defaults", "sandbox", "scope"))
}

pub open spec fn channel_read(c: ChannelConfig, node: Option<JsonValue>) -> bool {
    &&& c.enabled == as_flag(get(node, "enabled"@))
    &&& opt_text(c.dm_policy) == as_text(get(node, "dmPolicy"@))
    &&& opt_text(c.group_policy) == as_text(get(node, "groupPolicy"@))
    &&& opt_texts_view(c.allow_from) == as_texts(get(node, "allowFrom"@))
}

/// `name` when the document has an object for that channel.
pub open spec fn present_channel(raw: JsonValue, name: &str) -> Seq<Seq<char>> {
    if is_object(at2(raw, "channels", name)) {
        seq![name@]
    } else {
        Seq::empty()
    }
}

/// The known channels that the document configures, in their fixed order.
pub open spec fn present_channels(raw: JsonValue) -> Seq<Seq<char>> {
    present_channel(raw, "telegram") + present_channel(raw, "discord") + present_channel(
        raw,
        "whatsapp",
    ) + present_channel(raw, "slack") + present_channel(raw, "imessage") + present_channel(
        raw,
        "signal",
    )
}

pub open spec fn channel_names(chs: Seq<(String, ChannelConfig)>) -> Seq<Seq<char>> {
    chs.map_values(|c: (String, ChannelConfig)| c.0@)
}

pub open spec fn channels_read(chs: Seq<(String, ChannelConfig)>, raw: JsonValue) -> bool {
    &&& channel_names(chs) == present_channels(raw)
    &&& forall|i: int|
        0 <= i < chs.len() ==> channel_read(
            #[trigger] chs[i].1,
            get(at1(raw, "channels"), chs[i].0@),
        )
}

/// `c` is the semantic view of `raw`, and keeps `raw` itself.
pub open spec fn normalized(c: OpenClawConfig, raw: JsonValue) -> bool {
    &&& c.raw == raw
    &&& gateway_read(c.gateway, raw)
    &&& tools_read(c.tools, raw)
    &&& sandbox_read(c.sandbox, raw)
    &&& opt_text(c.session.dm_scope) == as_text(at2(raw, "session", "dmScope"))
    &&& channels_read(c.channels@, raw)
}

fn read_gateway(raw: &JsonValue) -> (g: GatewayConfig)
    ensures
        gateway_read(g, *raw),
{
    let gw = child(Some(raw), "gateway");
    let auth = child(gw, "auth");
    let port = match u64_of(child(gw, "port")) {
        Some(n) => if n <= 65535 {
            Some(n as u16)
        } else {
            None
        },
        None => None,
    };
    GatewayConfig {
        mode: text_of(child(gw, "mode")),
        bind: text_of(child(gw, "bind")),
        port,
        auth_mode: text_of(child(auth, "mode")),
        token: text_of(child(auth, "token")),
        tailscale_funnel: flag_of(child(child(gw, "tailscale"), "funnel")),
        mdns_mode: text_of(child(child(child(gw, "discovery"), "mdns"), "mode")),
        control_ui_origins: texts_of(child(child(gw, "controlUi"), "allowedOrigins")),
        trusted_proxies: texts_of(child(gw, "trustedProxies")),
        http_no_auth: flag_of(child(child(gw, "http"), "noAuth")),
    }
}

fn read_tools(raw: &JsonValue) -> (t: ToolsConfig)
    ensures
        tools_read(t, *raw),
{
    let tl = child(Some(raw), "tools");
    let exec = child(tl, "exec");
    ToolsConfig {
        profile: text_of(child(tl, "profile")),
        deny: texts_of(child(tl, "deny")),
        exec_host: text_of(child(exec, "host")),
        exec_security: text_of(child(exec, "security")),
        exec_ask: text_of(child(exec, "ask")),
        exec_safe_bins: texts_of(child(exec, "safeBins")),
        elevated_enabled: flag_of(child(child(tl, "elevated"), "enabled")),
        fs_workspace_only: flag_of(child(child(tl, "fs"), "workspaceOnly")),
        web_fetch_ssrf_policy: text_of(child(child(tl, "webFetch"), "ssrfPolicy")),
        web_search_ssrf_policy: text_of(child(child(tl, "webSearch"), "ssrfPolicy")),
    }
}

fn read_sandbox(raw: &JsonValue) -> (s: SandboxConfig)
    ensures
        sandbox_read(s, *raw),
{
    let sb = child(child(child(Some(raw), "agents"), "defaults"), "sandbox");
    SandboxConfig {
        mode: text_of(child(sb, "mode")),
        workspace_access: text_of(child(sb, "workspaceAccess")),
        scope: text_of(child(sb, "scope")),
    }
}

/// Appends channel `name` when the document has an object for it.
fn read_channel(chs: &mut Vec<(String, ChannelConfig)>, raw: &JsonValue, name: &str)
    requires
        forall|i: int|
            0 <= i < old(chs)@.len() ==> channel_read(
                #[trigger] old(chs)@[i].1,
                get(at1(*raw, "channels"), old(chs)@[i].0@),
            ),
    ensures
        channel_names(final(chs)@) == channel_names(old(chs)@) + present_channel(*raw, name),
        forall|i: int|
            0 <= i < final(chs)@.len() ==> channel_read(
                #[trigger] final(chs)@[i].1,
                get(at1(*raw, "channels"), final(chs)@[i].0@),
            ),
{
    let node = child(child(Some(raw), "channels"), name);
    match node {
        Some(JsonValue::Object(_)) => {
            let c = ChannelConfig {
                enabled: flag_of(child(node, "enabled")),
                dm_policy: text_of(child(node, "dmPolicy")),
                group_policy: text_of(child(node, "groupPolicy")),
                allow_from: texts_of(child(node, "allowFrom")),
            };
            chs.push((String::from_str(name), c));
            assert(channel_names(final(chs)@) =~= channel_names(old(chs)@) + seq![name@]);
        },
        _ => {
            assert(channel_names(old(chs)@) + present_channel(*raw, name) =~= channel_names(
                old(chs)@,
            ));
        },
    }
}

impl OpenClawConfig {
    /// Projects a decoded document into the semantic view. Never fails.
    pub fn from_dict(data: JsonValue) -> (r: Result<Self, String>)
        ensures
            r matches Ok(c) && normalized(c, data),
    {
        let gateway = read_gateway(&data);
        let tools = read_tools(&data);
        let sandbox = read_sandbox(&data);
        let session = SessionConfig {
            dm_scope: text_of(child(child(Some(&data), "session"), "dmScope")),
        };
        let mut channels: Vec<(String, ChannelConfig)> = Vec::new();
        read_channel(&mut channels, &data, "telegram");
        read_channel(&mut channels, &data, "discord");
        read_channel(&mut channels, &data, "whatsapp");
        read_channel(&mut channels, &data, "slack");
        read_channel(&mut channels, &data, "imessage");
        read_channel(&mut channels, &data, "signal");
        Ok(OpenClawConfig { gateway, tools, sandbox, session, channels, raw: data })
    }

    /// Decodes a document's text and projects it.
    pub fn from_text(text: &str) -> (r: Result<Self, String>)
        ensures
            match decoded_document(text@) {
                Some(d) => r matches Ok(c) && normalized(c, d),
                None => r matches Err(e) && names_parse_failure(e@),
            },
    {
        match load_document(text) {
            Ok(d) => Self::from_dict(d),
            Err(e) => Err(e),
        }
    }
}

/// The document a text holds: read as JSON first, and as YAML where it is not JSON.
pub open spec fn decoded_document(s: Seq<char>) -> Option<JsonValue> {
    match json_decoded(s) {
        Some(d) => Some(d),
        None => yaml_decoded(s),
    }
}

/// An error that says decoding failed, followed by the decoder's own words.
pub open spec fn names_parse_failure(e: Seq<char>) -> bool {
    exists|cause: Seq<char>| e == "Failed to parse config: "@ + cause
}

/// Decodes a document's text: JSON first, then YAML; when neither accepts the
/// text the error names the cause.
pub fn load_document(text: &str) -> (r: Result<JsonValue, String>)
    ensures
        match decoded_document(text@) {
            Some(d) => r == Ok::<JsonValue, String>(d),
            None => r matches Err(e) && names_parse_failure(e@),
        },
{
    match decode_json(text) {
        Ok(v) => Ok(v),
        Err(_) => match decode_yaml(text) {
            Ok(v) => Ok(v),
            Err(e) => {
                let msg = concat2("Failed to parse config: ", e.as_str());
                assert(msg@ == "Failed to parse config: "@ + e@);
                Err(msg)
            },
        },
    }
}

} // verus!
