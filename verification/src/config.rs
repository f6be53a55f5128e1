//! Gateway configuration: the parsed shape of the TOML file, its
//! defaults, the TLS mode selection, and the settings handed to the
//! Zenoh session.

use vstd::prelude::*;

use crate::error::GatewayError;
use crate::text::{push_char, push_str};

verus! {

/// The whole configuration file.
#[derive(Debug)]
pub struct GatewayConfig {
    pub listen: Option<String>,
    /// Optional public HTTP host-routing listener.
    pub http_listen: Option<String>,
    pub database: Option<String>,
    pub zenoh: ZenohConfig,
    pub tunnels: Vec<TunnelEntry>,
    pub log: LogConfig,
    /// Optional TLS termination block.
    pub tls: Option<TlsConfig>,
}

/// The `[zenoh]` block.
#[derive(Debug)]
pub struct ZenohConfig {
    pub mode: String,
    pub listen: Vec<String>,
    pub connect: Vec<String>,
    pub tls: Option<ZenohTlsConfig>,
}

/// TLS settings for the Zenoh transport.
#[derive(Debug)]
pub struct ZenohTlsConfig {
    /// CA certificate used to verify the peer's certificate.
    pub root_ca_certificate: String,
    /// Server certificate (router/peer mode).
    pub server_certificate: Option<String>,
    /// Server private key (router/peer mode).
    pub server_private_key: Option<String>,
    /// Client certificate (client mode).
    pub client_certificate: Option<String>,
    /// Client private key (client mode).
    pub client_private_key: Option<String>,
    /// Require connecting peers to present a valid client cert.
    pub client_auth: bool,
    /// Verify the peer's certificate name on connect.
    pub verify_name_on_connect: bool,
}

/// A statically configured tunnel.
#[derive(Debug, Clone)]
pub struct TunnelEntry {
    pub zid: String,
    pub device_port: u16,
    pub listen_port: u16,
}

/// The `[log]` block.
#[derive(Debug)]
pub struct LogConfig {
    pub level: String,
    pub format: String,
}

impl Default for LogConfig {
    fn default() -> (r: Self)
        ensures
            r.level@ == "info"@,
            r.format@ == "pretty"@,
    {
        LogConfig { level: default_log_level(), format: default_log_format() }
    }
}

/// TLS termination settings. Exactly one of three modes must be
/// selected: ACME (`acme_domain` + `acme_email`), manual certificates
/// (`cert_path` + `key_path`) or a throwaway self-signed certificate.
#[derive(Debug, Clone)]
pub struct TlsConfig {
    pub acme_domain: Option<String>,
    pub acme_email: Option<String>,
    pub acme_staging: bool,
    pub acme_cache_dir: Option<String>,
    pub acme_renew_before_days: u32,
    pub acme_check_interval_secs: u64,
    pub cert_path: Option<String>,
    pub key_path: Option<String>,
    pub self_signed: bool,
}

/// The TLS mode a configuration selects.
#[derive(Debug, Clone, Copy, PartialEq, Eq, Structural)]
pub enum TlsMode {
    Acme,
    Manual,
    SelfSigned,
}

impl TlsConfig {
    /// The mode selected, or the message of the configuration error.
    pub open spec fn spec_mode(&self) -> Result<TlsMode, Seq<char>> {
        let has_acme = self.acme_domain is Some;
        let has_manual = self.cert_path is Some || self.key_path is Some;
        let has_self = self.self_signed;
        if has_acme && !has_manual && !has_self {
            if self.acme_email is None {
                Err("[tls] acme_domain requires acme_email"@)
            } else {
                Ok(TlsMode::Acme)
            }
        } else if !has_acme && has_manual && !has_self {
            if self.cert_path is None || self.key_path is None {
                Err("[tls] manual mode requires both cert_path and key_path"@)
            } else {
                Ok(TlsMode::Manual)
            }
        } else if !has_acme && !has_manual && has_self {
            Ok(TlsMode::SelfSigned)
        } else if !has_acme && !has_manual && !has_self {
            Err("[tls] block present but no mode configured"@)
        } else {
            Err("[tls] ambiguous: set exactly one of acme_domain, cert_path/key_path, or self_signed"@)
        }
    }

    /// Which TLS mode the configuration selects. Errors when the
    /// combination is ambiguous or incomplete.
    pub fn mode(&self) -> (r: Result<TlsMode, GatewayError>)
        ensures
            match (r, self.spec_mode()) {
                (Ok(m), Ok(n)) => m == n,
                (Err(GatewayError::Config(msg)), Err(expected)) => msg@ == expected,
                _ => false,
            },
    {
        let has_acme = self.acme_domain.is_some();
        let has_manual = self.cert_path.is_some() || self.key_path.is_some();
        let has_self = self.self_signed;
        if has_acme && !has_manual && !has_self {
            if self.acme_email.is_none() {
                return Err(GatewayError::Config("[tls] acme_domain requires acme_email".to_owned()));
            }
            Ok(TlsMode::Acme)
        } else if !has_acme && has_manual && !has_self {
            if self.cert_path.is_none() || self.key_path.is_none() {
                return Err(
                    GatewayError::Config(
                        "[tls] manual mode requires both cert_path and key_path".to_owned(),
                    ),
                );
            }
            Ok(TlsMode::Manual)
        } else if !has_acme && !has_manual && has_self {
            Ok(TlsMode::SelfSigned)
        } else if !has_acme && !has_manual && !has_self {
            Err(GatewayError::Config("[tls] block present but no mode configured".to_owned()))
        } else {
            Err(
                GatewayError::Config(
                    "[tls] ambiguous: set exactly one of acme_domain, cert_path/key_path, or self_signed".to_owned(),
                ),
            )
        }
    }
}

/// Default Zenoh mode.
pub fn default_mode() -> (r: String)
    ensures
        r@ == "client"@,
{
    "client".to_owned()
}

/// Default log level.
pub fn default_log_level() -> (r: String)
    ensures
        r@ == "info"@,
{
    "info".to_owned()
}

/// Default log format.
pub fn default_log_format() -> (r: String)
    ensures
        r@ == "pretty"@,
{
    "pretty".to_owned()
}

/// Peer certificate names are verified unless configured otherwise.
pub fn default_verify_name() -> (r: bool)
    ensures
        r,
{
    true
}

/// Renew an ACME certificate this many days before it expires.
pub fn default_renew_before_days() -> (r: u32)
    ensures
        r == 30,
{
    30
}

/// Seconds between two checks of the ACME certificate (12 hours).
pub fn default_renew_check_secs() -> (r: u64)
    ensures
        r == 43200,
{
    12 * 60 * 60
}

} // verus!

verus! {

/// JSON escaping of one character as `serde_json` writes it: quote and
/// backslash are backslash-escaped, the control characters below 0x20
/// use their short escape where JSON has one and `\u00XX` otherwise.
pub open spec fn json_escape(c: char) -> Seq<char> {
    if c == '"' {
        seq!['\\', '"']
    } else if c == '\\' {
        seq!['\\', '\\']
    } else if c == '\x08' {
        seq!['\\', 'b']
    } else if c == '\t' {
        seq!['\\', 't']
    } else if c == '\n' {
        seq!['\\', 'n']
    } else if c == '\x0c' {
        seq!['\\', 'f']
    } else if c == '\r' {
        seq!['\\', 'r']
    } else if (c as u32) < 0x20 {
        seq![
            '\\',
            'u',
            '0',
            '0',
            crate::auth::token::hex_digit((c as u32) as int / 16),
            crate::auth::token::hex_digit((c as u32) as int % 16),
        ]
    } else {
        seq![c]
    }
}

/// Escapes every character of `s`.
pub open spec fn json_escape_all(s: Seq<char>) -> Seq<char>
    decreases s.len(),
{
    if s.len() == 0 {
        Seq::empty()
    } else {
        json_escape(s[0]) + json_escape_all(s.drop_first())
    }
}

/// A JSON string literal holding `s`.
pub open spec fn json_string(s: Seq<char>) -> Seq<char> {
    seq!['"'] + json_escape_all(s) + seq!['"']
}

/// The elements of a JSON array of strings, separated by commas.
pub open spec fn json_string_items(items: Seq<Seq<char>>) -> Seq<char>
    decreases items.len(),
{
    if items.len() == 0 {
        Seq::empty()
    } else if items.len() == 1 {
        json_string(items[0])
    } else {
        json_string_items(items.drop_last()) + seq![','] + json_string(items.last())
    }
}

/// A compact JSON array of strings, as `serde_json::to_string` writes
/// a `Vec<String>`.
pub open spec fn json_string_array(items: Seq<Seq<char>>) -> Seq<char> {
    seq!['['] + json_string_items(items) + seq![']']
}

/// `s` wrapped in double quotes, without escaping.
pub open spec fn quoted(s: Seq<char>) -> Seq<char> {
    seq!['"'] + s + seq!['"']
}

/// The character views of a list of strings.
pub open spec fn string_views(v: Seq<String>) -> Seq<Seq<char>> {
    v.map_values(|s: String| s@)
}

/// `serde_json::to_string` of a list of strings: the compact JSON
/// array of the strings. It writes into memory and a list of strings
/// holds nothing it refuses, so it always succeeds; the error's
/// display text would be handed back otherwise.
#[verifier::external_body]
fn json_array_of_strings(items: &Vec<String>) -> (r: Result<String, String>)
    ensures
        r is Ok,
        r->Ok_0@ == json_string_array(string_views(items@)),
{
    serde_json::to_string(items).map_err(|e| e.to_string())
}

/// One setting for the Zenoh session: a configuration path, its JSON5
/// value, and the label used when the session rejects it.
#[derive(Debug)]
pub struct ZenohSetting {
    pub key: String,
    pub json5: String,
    pub context: String,
}

impl View for ZenohSetting {
    type V = (Seq<char>, Seq<char>, Seq<char>);

    open spec fn view(&self) -> (Seq<char>, Seq<char>, Seq<char>) {
        (self.key@, self.json5@, self.context@)
    }
}

/// Settings for an optional certificate/key path.
pub open spec fn optional_path_setting(
    value: Option<String>,
    key: Seq<char>,
    context: Seq<char>,
) -> Seq<(Seq<char>, Seq<char>, Seq<char>)> {
    match value {
        Some(v) => seq![(key, quoted(v@), context)],
        None => Seq::empty(),
    }
}

/// Settings derived from the optional Zenoh TLS block.
pub open spec fn zenoh_tls_settings(tls: Option<ZenohTlsConfig>) -> Seq<(Seq<char>, Seq<char>, Seq<char>)> {
    match tls {
        None => Seq::empty(),
        Some(t) => seq![(
            "transport/link/tls/root_ca_certificate"@,
            quoted(t.root_ca_certificate@),
            "zenoh tls root_ca"@,
        )] + optional_path_setting(
            t.server_certificate,
            "transport/link/tls/listen_certificate"@,
            "zenoh tls server_cert"@,
        ) + optional_path_setting(
            t.server_private_key,
            "transport/link/tls/listen_private_key"@,
            "zenoh tls server_key"@,
        ) + optional_path_setting(
            t.client_certificate,
            "transport/link/tls/connect_certificate"@,
            "zenoh tls client_cert"@,
        ) + optional_path_setting(
            t.client_private_key,
            "transport/link/tls/connect_private_key"@,
            "zenoh tls client_key"@,
        ) + (if t.client_auth {
            seq![("transport/link/tls/enable_mtls"@, "true"@, "zenoh tls client_auth"@)]
        } else {
            Seq::empty()
        }) + (if !t.verify_name_on_connect {
            seq![(
                "transport/link/tls/verify_name_on_connect"@,
                "false"@,
                "zenoh tls verify_name"@,
            )]
        } else {
            Seq::empty()
        }),
    }
}

/// The ordered settings applied to a default Zenoh configuration: the
/// mode, the listen and connect endpoints when any are given,
/// multicast scouting switched off, then the TLS transport settings.
pub open spec fn zenoh_settings_spec(z: ZenohConfig) -> Seq<(Seq<char>, Seq<char>, Seq<char>)> {
    seq![("mode"@, quoted(z.mode@), "zenoh mode"@)] + (if z.listen@.len() > 0 {
        seq![(
            "listen/endpoints"@,
            json_string_array(string_views(z.listen@)),
            "zenoh listen"@,
        )]
    } else {
        Seq::empty()
    }) + (if z.connect@.len() > 0 {
        seq![(
            "connect/endpoints"@,
            json_string_array(string_views(z.connect@)),
            "zenoh connect"@,
        )]
    } else {
        Seq::empty()
    }) + seq![("scouting/multicast/enabled"@, "false"@, "zenoh scouting"@)] + zenoh_tls_settings(
        z.tls,
    )
}

/// The views of a list of settings.
pub open spec fn settings_view(v: Seq<ZenohSetting>) -> Seq<(Seq<char>, Seq<char>, Seq<char>)> {
    v.map_values(|s: ZenohSetting| s@)
}

fn setting(key: &str, json5: String, context: &str) -> (r: ZenohSetting)
    ensures
        r@ == (key@, json5@, context@),
{
    ZenohSetting { key: key.to_owned(), json5, context: context.to_owned() }
}

fn quote(s: &str) -> (r: String)
    ensures
        r@ == quoted(s@),
{
    let mut out = String::new();
    push_char(&mut out, '"');
    push_str(&mut out, s);
    push_char(&mut out, '"');
    proof {
        assert(out@ =~= quoted(s@));
    }
    out
}

fn push_setting(
    v: &mut Vec<ZenohSetting>,
    s: ZenohSetting,
)
    ensures
        settings_view(final(v)@) == settings_view(old(v)@).push(s@),
{
    v.push(s);
    proof {
        assert(settings_view(final(v)@) =~= settings_view(old(v)@).push(s@));
    }
}

fn push_optional_path(
    v: &mut Vec<ZenohSetting>,
    value: &Option<String>,
    key: &str,
    context: &str,
)
    ensures
        settings_view(final(v)@) == settings_view(old(v)@) + optional_path_setting(*value, key@, context@),
{
    match value {
        Some(p) => {
            let s = setting(key, quote(p.as_str()), context);
            push_setting(v, s);
            proof {
                assert(settings_view(final(v)@) =~= settings_view(old(v)@) + optional_path_setting(*value, key@, context@));
            }
        },
        None => {
            assert(settings_view(old(v)@) =~= settings_view(old(v)@) + optional_path_setting(*value, key@, context@));
        },
    }
}

fn with_prefix(prefix: &str, detail: String) -> (r: String)
    ensures
        r@ == prefix@ + ": "@ + detail@,
{
    let mut s = prefix.to_owned();
    push_str(&mut s, ": ");
    push_str(&mut s, detail.as_str());
    s
}

fn push_tls_settings(v: &mut Vec<ZenohSetting>, tls: &Option<ZenohTlsConfig>)
    ensures
        settings_view(final(v)@) == settings_view(old(v)@) + zenoh_tls_settings(*tls),
{
    let ghost start = settings_view(v@);
    match tls {
        Some(t) => {
            push_setting(
                v,
                setting("transport/link/tls/root_ca_certificate", quote(t.root_ca_certificate.as_str()), "zenoh tls root_ca"),
            );
            push_optional_path(v, &t.server_certificate, "transport/link/tls/listen_certificate", "zenoh tls server_cert");
            push_optional_path(v, &t.server_private_key, "transport/link/tls/listen_private_key", "zenoh tls server_key");
            push_optional_path(v, &t.client_certificate, "transport/link/tls/connect_certificate", "zenoh tls client_cert");
            push_optional_path(v, &t.client_private_key, "transport/link/tls/connect_private_key", "zenoh tls client_key");
            if t.client_auth {
                push_setting(v, setting("transport/link/tls/enable_mtls", "true".to_owned(), "zenoh tls client_auth"));
            }
            if !t.verify_name_on_connect {
                push_setting(v, setting("transport/link/tls/verify_name_on_connect", "false".to_owned(), "zenoh tls verify_name"));
            }
            proof {
                assert(settings_view(v@) =~= start + zenoh_tls_settings(*tls));
            }
        },
        None => {
            assert(settings_view(v@) =~= start + zenoh_tls_settings(*tls));
        },
    }
}

impl GatewayConfig {
    /// The settings to apply, in order, to a default Zenoh session
    /// configuration. Encoding the endpoint lists as JSON cannot fail,
    /// so this always succeeds; a failure would be reported with a
    /// message naming the list.
    pub fn zenoh_settings(&self) -> (r: Result<Vec<ZenohSetting>, GatewayError>)
        ensures
            r is Ok,
            settings_view(r->Ok_0@) == zenoh_settings_spec(self.zenoh),
    {
        let z = &self.zenoh;
        let mut v: Vec<ZenohSetting> = Vec::new();
        push_setting(&mut v, setting("mode", quote(z.mode.as_str()), "zenoh mode"));
        let ghost mid1 = settings_view(v@);
        if z.listen.len() > 0 {
            match json_array_of_strings(&z.listen) {
                Ok(json) => push_setting(&mut v, setting("listen/endpoints", json, "zenoh listen")),
                Err(e) => return Err(GatewayError::Config(with_prefix("zenoh listen", e))),
            }
        }
        let ghost mid2 = settings_view(v@);
        if z.connect.len() > 0 {
            match json_array_of_strings(&z.connect) {
                Ok(json) => push_setting(&mut v, setting("connect/endpoints", json, "zenoh connect")),
                Err(e) => return Err(GatewayError::Config(with_prefix("zenoh connect", e))),
            }
        }
        push_setting(&mut v, setting("scouting/multicast/enabled", "false".to_owned(), "zenoh scouting"));
        let ghost before_tls = settings_view(v@);
        push_tls_settings(&mut v, &z.tls);
        proof {
            assert(settings_view(v@) =~= zenoh_settings_spec(self.zenoh));
        }
        Ok(v)
    }
}

} // verus!
