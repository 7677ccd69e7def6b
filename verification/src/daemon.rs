use vstd::prelude::*;

use crate::numbers::{parse_u64_text, spec_int_error_text, spec_parse_u64};
use crate::selector::{debug_quoted, debug_text, is_one_of, non_empty_string, one_of, spec_non_empty};
use crate::text::{chars_of, is_ws, lemma_trim_unchanged, lower_chars, lower_seq, opt_text, str_eq, texts, trim, trim_chars};

verus! {

/// The address the gRPC server listens on unless told otherwise.
pub const DEFAULT_GRPC_ADDR: &'static str = "127.0.0.1:47777";

/// How long a semantic tree read from AT-SPI stays fresh, in milliseconds.
pub const DEFAULT_ACCESSIBILITY_CACHE_TTL_MS: u64 = 500;

/// What the daemon lets its clients do.
#[derive(Debug, Clone, Copy, PartialEq, Eq, Structural)]
pub enum DaemonPolicyProfile {
    /// Read only: no input, no plugins, no vision fallback.
    Observe,
    /// Reading, with the vision fallback for element lookups.
    Assist,
    /// Everything, input and plugins included.
    Operator,
}

/// How the daemon confines itself at start.
#[derive(Debug, Clone, Copy, PartialEq, Eq, Structural)]
pub enum SandboxProfile {
    Off,
    Basic,
    Strict,
}

/// Maps `_` to `-`.
pub open spec fn dashes(s: Seq<char>) -> Seq<char> {
    s.map_values(|c: char| if c == '_' { '-' } else { c })
}

/// A profile name as it is looked up: trimmed, lower-cased, `_` read as `-`.
pub open spec fn profile_key(value: Seq<char>) -> Seq<char> {
    dashes(lower_seq(trim(value)))
}

fn profile_key_chars(value: &str) -> (r: Vec<char>)
    ensures
        r@ == profile_key(value@),
{
    let all = chars_of(value);
    let t = trim_chars(&all);
    let l = lower_chars(&t);
    let mut r: Vec<char> = Vec::new();
    let mut i: usize = 0;
    while i < l.len()
        invariant
            i <= l@.len(),
            l@ == lower_seq(trim(value@)),
            r@ == dashes(l@).subrange(0, i as int),
        decreases l@.len() - i,
    {
        let c = l[i];
        r.push(if c == '_' { '-' } else { c });
        assert(dashes(l@).subrange(0, i + 1) =~= dashes(l@).subrange(0, i as int).push(
            dashes(l@)[i as int],
        ));
        i = i + 1;
    }
    assert(dashes(l@).subrange(0, l@.len() as int) =~= dashes(l@));
    r
}

/// The policy profile a name selects, or why none does.
pub open spec fn spec_parse_policy_profile(value: Seq<char>) -> Result<DaemonPolicyProfile, Seq<char>> {
    let k = profile_key(value);
    if one_of(k, seq!["observe", "locked", "read-only", "readonly"]) {
        Ok(DaemonPolicyProfile::Observe)
    } else if one_of(k, seq!["assist", "inspect"]) {
        Ok(DaemonPolicyProfile::Assist)
    } else if one_of(k, seq!["operator", "trusted", "full"]) {
        Ok(DaemonPolicyProfile::Operator)
    } else {
        Err(
            "unknown daemon profile "@ + debug_quoted(k) + "; expected one of: "@
                + "observe, assist, operator"@,
        )
    }
}

/// The sandbox profile a name selects, or why none does.
pub open spec fn spec_parse_sandbox_profile(value: Seq<char>) -> Result<SandboxProfile, Seq<char>> {
    let k = profile_key(value);
    if one_of(k, seq!["off", "none", "disabled"]) {
        Ok(SandboxProfile::Off)
    } else if one_of(k, seq!["basic", "no-new-privileges"]) {
        Ok(SandboxProfile::Basic)
    } else if one_of(k, seq!["strict", "namespace", "namespaces"]) {
        Ok(SandboxProfile::Strict)
    } else {
        Err(
            "unknown sandbox profile "@ + debug_quoted(k) + "; expected one of: "@
                + "off, basic, strict"@,
        )
    }
}

/// The canonical name of a policy profile.
pub open spec fn spec_policy_profile_name(p: DaemonPolicyProfile) -> Seq<char> {
    match p {
        DaemonPolicyProfile::Observe => "observe"@,
        DaemonPolicyProfile::Assist => "assist"@,
        DaemonPolicyProfile::Operator => "operator"@,
    }
}

/// The canonical name of a sandbox profile.
pub open spec fn spec_sandbox_profile_name(p: SandboxProfile) -> Seq<char> {
    match p {
        SandboxProfile::Off => "off"@,
        SandboxProfile::Basic => "basic"@,
        SandboxProfile::Strict => "strict"@,
    }
}

/// The profile lets clients send input.
pub open spec fn spec_allows_input(p: DaemonPolicyProfile) -> bool {
    p == DaemonPolicyProfile::Operator
}

/// The profile lets clients run plugins.
pub open spec fn spec_allows_plugins(p: DaemonPolicyProfile) -> bool {
    p == DaemonPolicyProfile::Operator
}

/// The profile turns the vision fallback on.
pub open spec fn spec_vision_fallback(p: DaemonPolicyProfile) -> bool {
    p != DaemonPolicyProfile::Observe
}

fn unknown_profile_error(prefix: &str, key: &[char], expected: &str) -> (r: String)
    ensures
        r@ == prefix@ + debug_quoted(key@) + "; expected one of: "@ + expected@,
{
    let mut m = String::from_str(prefix);
    let q = debug_text(key);
    m.append(q.as_str());
    m.append("; expected one of: ");
    m.append(expected);
    m
}

impl DaemonPolicyProfile {
    /// Reads a profile name (see [`spec_parse_policy_profile`]).
    pub fn parse(value: &str) -> (r: Result<Self, String>)
        ensures
            match spec_parse_policy_profile(value@) {
                Ok(p) => r == Ok::<Self, String>(p),
                Err(m) => r matches Err(e) && e@ == m,
            },
    {
        let k = profile_key_chars(value);
        let observe: [&str; 4] = ["observe", "locked", "read-only", "readonly"];
        assert(observe@ =~= seq!["observe", "locked", "read-only", "readonly"]);
        let assist: [&str; 2] = ["assist", "inspect"];
        assert(assist@ =~= seq!["assist", "inspect"]);
        let operator: [&str; 3] = ["operator", "trusted", "full"];
        assert(operator@ =~= seq!["operator", "trusted", "full"]);
        if is_one_of(&k, &observe) {
            Ok(DaemonPolicyProfile::Observe)
        } else if is_one_of(&k, &assist) {
            Ok(DaemonPolicyProfile::Assist)
        } else if is_one_of(&k, &operator) {
            Ok(DaemonPolicyProfile::Operator)
        } else {
            let m = unknown_profile_error(
                "unknown daemon profile ",
                &k,
                "observe, assist, operator",
            );
            Err(m)
        }
    }

    /// The profile's canonical name.
    pub fn as_str(self) -> (s: &'static str)
        ensures
            s@ == spec_policy_profile_name(self),
    {
        match self {
            DaemonPolicyProfile::Observe => "observe",
            DaemonPolicyProfile::Assist => "assist",
            DaemonPolicyProfile::Operator => "operator",
        }
    }

    /// Whether the profile lets clients send input.
    pub fn allow_input(self) -> (b: bool)
        ensures
            b == spec_allows_input(self),
    {
        match self {
            DaemonPolicyProfile::Operator => true,
            _ => false,
        }
    }

    /// Whether the profile lets clients run plugins.
    pub fn allow_plugins(self) -> (b: bool)
        ensures
            b == spec_allows_plugins(self),
    {
        match self {
            DaemonPolicyProfile::Operator => true,
            _ => false,
        }
    }

    /// Whether the profile turns the vision fallback on.
    pub fn vision_fallback(self) -> (b: bool)
        ensures
            b == spec_vision_fallback(self),
    {
        match self {
            DaemonPolicyProfile::Observe => false,
            _ => true,
        }
    }
}

impl SandboxProfile {
    /// Reads a sandbox profile name (see [`spec_parse_sandbox_profile`]).
    pub fn parse(value: &str) -> (r: Result<Self, String>)
        ensures
            match spec_parse_sandbox_profile(value@) {
                Ok(p) => r == Ok::<Self, String>(p),
                Err(m) => r matches Err(e) && e@ == m,
            },
    {
        let k = profile_key_chars(value);
        let off: [&str; 3] = ["off", "none", "disabled"];
        assert(off@ =~= seq!["off", "none", "disabled"]);
        let basic: [&str; 2] = ["basic", "no-new-privileges"];
        assert(basic@ =~= seq!["basic", "no-new-privileges"]);
        let strict: [&str; 3] = ["strict", "namespace", "namespaces"];
        assert(strict@ =~= seq!["strict", "namespace", "namespaces"]);
        if is_one_of(&k, &off) {
            Ok(SandboxProfile::Off)
        } else if is_one_of(&k, &basic) {
            Ok(SandboxProfile::Basic)
        } else if is_one_of(&k, &strict) {
            Ok(SandboxProfile::Strict)
        } else {
            let m = unknown_profile_error("unknown sandbox profile ", &k, "off, basic, strict");
            Err(m)
        }
    }

    /// The profile's canonical name.
    pub fn as_str(self) -> (s: &'static str)
        ensures
            s@ == spec_sandbox_profile_name(self),
    {
        match self {
            SandboxProfile::Off => "off",
            SandboxProfile::Basic => "basic",
            SandboxProfile::Strict => "strict",
        }
    }
}

/// What the daemon's environment says, read by the caller: the default socket
/// and audit log paths, and the values of the `PEEKABOOX_*` variables
/// (`None` when unset or not Unicode).
#[derive(Debug, Clone, PartialEq, Eq)]
pub struct DaemonEnvironment {
    pub socket: String,
    pub audit_log: String,
    pub daemon_profile: Option<String>,
    pub daemon_sandbox: Option<String>,
    pub allow_input: Option<String>,
    pub allow_plugins: Option<String>,
    pub vision_fallback: Option<String>,
    pub grpc_token: Option<String>,
    pub emergency_hotkey: Option<String>,
}

/// How the daemon runs.
#[derive(Debug, Clone, PartialEq, Eq)]
pub struct ServerConfig {
    pub socket: String,
    pub once: bool,
    pub audit_log: String,
    pub policy_profile: DaemonPolicyProfile,
    pub sandbox_profile: SandboxProfile,
    pub allow_input: bool,
    pub allow_plugins: bool,
    pub vision_fallback: bool,
    /// The gRPC listen address as written; the caller reads it as a socket
    /// address.
    pub grpc_addr: Option<String>,
    pub grpc_token: Option<String>,
    pub accessibility_cache_ttl_ms: u64,
    pub accessibility_events: bool,
    pub emergency_hotkey: bool,
    pub plugin_paths: Vec<String>,
}

/// The mathematical form of a [`ServerConfig`].
pub struct ServerConfigView {
    pub socket: Seq<char>,
    pub once: bool,
    pub audit_log: Seq<char>,
    pub policy_profile: DaemonPolicyProfile,
    pub sandbox_profile: SandboxProfile,
    pub allow_input: bool,
    pub allow_plugins: bool,
    pub vision_fallback: bool,
    pub grpc_addr: Option<Seq<char>>,
    pub grpc_token: Option<Seq<char>>,
    pub accessibility_cache_ttl_ms: u64,
    pub accessibility_events: bool,
    pub emergency_hotkey: bool,
    pub plugin_paths: Seq<Seq<char>>,
}

impl View for ServerConfig {
    type V = ServerConfigView;

    open spec fn view(&self) -> ServerConfigView {
        ServerConfigView {
            socket: self.socket@,
            once: self.once,
            audit_log: self.audit_log@,
            policy_profile: self.policy_profile,
            sandbox_profile: self.sandbox_profile,
            allow_input: self.allow_input,
            allow_plugins: self.allow_plugins,
            vision_fallback: self.vision_fallback,
            grpc_addr: opt_text(self.grpc_addr),
            grpc_token: opt_text(self.grpc_token),
            accessibility_cache_ttl_ms: self.accessibility_cache_ttl_ms,
            accessibility_events: self.accessibility_events,
            emergency_hotkey: self.emergency_hotkey,
            plugin_paths: texts(self.plugin_paths@),
        }
    }
}

/// An environment flag that is on: `1`, `true`, `TRUE`, `yes` or `YES`.
pub open spec fn spec_flag_on(value: Option<String>) -> bool {
    match value {
        Some(v) => one_of(v@, seq!["1", "true", "TRUE", "yes", "YES"]),
        None => false,
    }
}

/// An environment flag that is not switched off by `0`, `false`, `FALSE`,
/// `no` or `NO`; an unset flag is on.
pub open spec fn spec_flag_not_off(value: Option<String>) -> bool {
    match value {
        Some(v) => !one_of(v@, seq!["0", "false", "FALSE", "no", "NO"]),
        None => true,
    }
}

/// Whether an environment flag is on (see [`spec_flag_on`]).
pub fn env_flag_on(value: &Option<String>) -> (b: bool)
    ensures
        b == spec_flag_on(*value),
{
    match value {
        Some(v) => {
            let c = chars_of(v.as_str());
            let t: [&str; 5] = ["1", "true", "TRUE", "yes", "YES"];
            assert(t@ =~= seq!["1", "true", "TRUE", "yes", "YES"]);
            is_one_of(&c, &t)
        },
        None => false,
    }
}

/// Whether an environment flag is not switched off (see [`spec_flag_not_off`]).
pub fn env_flag_not_off(value: &Option<String>) -> (b: bool)
    ensures
        b == spec_flag_not_off(*value),
{
    match value {
        Some(v) => {
            let c = chars_of(v.as_str());
            let t: [&str; 5] = ["0", "false", "FALSE", "no", "NO"];
            assert(t@ =~= seq!["0", "false", "FALSE", "no", "NO"]);
            !is_one_of(&c, &t)
        },
        None => true,
    }
}

/// The gRPC token an environment value gives: trimmed, unless blank.
pub open spec fn spec_env_token(value: Option<String>) -> Option<Seq<char>> {
    match value {
        Some(v) => spec_non_empty(v@),
        None => None,
    }
}

fn env_token(value: &Option<String>) -> (r: Option<String>)
    ensures
        opt_text(r) == spec_env_token(*value),
{
    match value {
        Some(v) => non_empty_string(v.as_str()),
        None => None,
    }
}

/// The configuration a policy profile starts from.
pub open spec fn spec_config_for_profile(p: DaemonPolicyProfile, env: DaemonEnvironment) -> ServerConfigView {
    ServerConfigView {
        socket: env.socket@,
        once: false,
        audit_log: env.audit_log@,
        policy_profile: p,
        sandbox_profile: SandboxProfile::Off,
        allow_input: spec_allows_input(p),
        allow_plugins: spec_allows_plugins(p),
        vision_fallback: spec_vision_fallback(p),
        grpc_addr: Some(DEFAULT_GRPC_ADDR@),
        grpc_token: spec_env_token(env.grpc_token),
        accessibility_cache_ttl_ms: DEFAULT_ACCESSIBILITY_CACHE_TTL_MS,
        accessibility_events: true,
        emergency_hotkey: spec_flag_not_off(env.emergency_hotkey),
        plugin_paths: Seq::empty(),
    }
}

fn copy_text(s: &String) -> (r: String)
    ensures
        r@ == s@,
{
    s.clone()
}

/// The configuration a policy profile starts from (see
/// [`spec_config_for_profile`]).
pub fn server_config_for_profile(policy_profile: DaemonPolicyProfile, env: &DaemonEnvironment) -> (c:
    ServerConfig)
    ensures
        c@ == spec_config_for_profile(policy_profile, *env),
{
    let c = ServerConfig {
        socket: copy_text(&env.socket),
        once: false,
        audit_log: copy_text(&env.audit_log),
        policy_profile,
        sandbox_profile: SandboxProfile::Off,
        allow_input: policy_profile.allow_input(),
        allow_plugins: policy_profile.allow_plugins(),
        vision_fallback: policy_profile.vision_fallback(),
        grpc_addr: Some(String::from_str(DEFAULT_GRPC_ADDR)),
        grpc_token: env_token(&env.grpc_token),
        accessibility_cache_ttl_ms: DEFAULT_ACCESSIBILITY_CACHE_TTL_MS,
        accessibility_events: true,
        emergency_hotkey: env_flag_not_off(&env.emergency_hotkey),
        plugin_paths: Vec::new(),
    };
    assert(texts(c.plugin_paths@) =~= Seq::<Seq<char>>::empty());
    c
}

/// The configuration with a policy profile and the gates it sets.
pub open spec fn spec_apply_profile(c: ServerConfigView, p: DaemonPolicyProfile) -> ServerConfigView {
    ServerConfigView {
        policy_profile: p,
        allow_input: spec_allows_input(p),
        allow_plugins: spec_allows_plugins(p),
        vision_fallback: spec_vision_fallback(p),
        ..c
    }
}

/// Switches to a policy profile: its gates replace the current ones.
pub fn apply_daemon_policy_profile(config: &mut ServerConfig, policy_profile: DaemonPolicyProfile)
    ensures
        final(config)@ == spec_apply_profile(old(config)@, policy_profile),
{
    config.policy_profile = policy_profile;
    config.allow_input = policy_profile.allow_input();
    config.allow_plugins = policy_profile.allow_plugins();
    config.vision_fallback = policy_profile.vision_fallback();
}

/// The policy profile the environment selects; `observe` when unset.
pub open spec fn spec_env_policy_profile(value: Option<String>) -> Result<DaemonPolicyProfile, Seq<char>> {
    match value {
        Some(v) => spec_parse_policy_profile(v@),
        None => Ok(DaemonPolicyProfile::Observe),
    }
}

/// The sandbox profile the environment selects; `off` when unset.
pub open spec fn spec_env_sandbox_profile(value: Option<String>) -> Result<SandboxProfile, Seq<char>> {
    match value {
        Some(v) => spec_parse_sandbox_profile(v@),
        None => Ok(SandboxProfile::Off),
    }
}

/// The configuration the environment gives: the profile's, with the
/// environment's sandbox, and each gate also opened by its flag.
pub open spec fn spec_default_config(env: DaemonEnvironment) -> Result<ServerConfigView, Seq<char>> {
    match spec_env_policy_profile(env.daemon_profile) {
        Err(m) => Err(m),
        Ok(p) => match spec_env_sandbox_profile(env.daemon_sandbox) {
            Err(m) => Err(m),
            Ok(s) => {
                let c = spec_config_for_profile(p, env);
                Ok(
                    ServerConfigView {
                        sandbox_profile: s,
                        allow_input: c.allow_input || spec_flag_on(env.allow_input),
                        allow_plugins: c.allow_plugins || spec_flag_on(env.allow_plugins),
                        vision_fallback: c.vision_fallback || spec_flag_on(env.vision_fallback),
                        ..c
                    },
                )
            },
        },
    }
}

/// The configuration the environment gives (see [`spec_default_config`]).
pub fn default_server_config(env: &DaemonEnvironment) -> (r: Result<ServerConfig, String>)
    ensures
        match spec_default_config(*env) {
            Ok(c) => r matches Ok(x) && x@ == c,
            Err(m) => r matches Err(e) && e@ == m,
        },
{
    let profile = match &env.daemon_profile {
        Some(v) => DaemonPolicyProfile::parse(v.as_str())?,
        None => DaemonPolicyProfile::Observe,
    };
    let sandbox = match &env.daemon_sandbox {
        Some(v) => SandboxProfile::parse(v.as_str())?,
        None => SandboxProfile::Off,
    };
    let mut config = server_config_for_profile(profile, env);
    config.sandbox_profile = sandbox;
    config.allow_input = config.allow_input || env_flag_on(&env.allow_input);
    config.allow_plugins = config.allow_plugins || env_flag_on(&env.allow_plugins);
    config.vision_fallback = config.vision_fallback || env_flag_on(&env.vision_fallback);
    Ok(config)
}

/// What the daemon's command line asks for.
#[derive(Debug, Clone, PartialEq, Eq)]
pub enum DaemonCommand {
    Version,
    Run { config: ServerConfig },
    Help,
}

/// The mathematical form of a [`DaemonCommand`].
pub enum DaemonCommandView {
    Version,
    Run(ServerConfigView),
    Help,
}

impl View for DaemonCommand {
    type V = DaemonCommandView;

    open spec fn view(&self) -> DaemonCommandView {
        match self {
            DaemonCommand::Version => DaemonCommandView::Version,
            DaemonCommand::Run { config } => DaemonCommandView::Run(config@),
            DaemonCommand::Help => DaemonCommandView::Help,
        }
    }
}

/// The error for an option given last, without its value.
pub open spec fn msg_missing(option: Seq<char>) -> Seq<char> {
    "missing value for "@ + option
}

/// The error for a cache lifetime that is not a number of milliseconds.
pub open spec fn msg_bad_ttl(value: Seq<char>, kind: crate::numbers::IntErrorKind) -> Seq<char> {
    "invalid --accessibility-cache-ttl-ms "@ + debug_quoted(value) + ": "@ + spec_int_error_text(
        kind,
    )
}

/// The options `peekabooxd run` knows.
#[derive(Debug, Clone, Copy, PartialEq, Eq, Structural)]
pub enum RunOption {
    Socket,
    AuditLog,
    Profile,
    Sandbox,
    AllowInput,
    AllowPlugins,
    VisionFallback,
    GrpcAddr,
    GrpcToken,
    NoGrpc,
    AccessibilityCacheTtl,
    NoAccessibilityEvents,
    NoEmergencyHotkey,
    PluginPath,
    Once,
    Help,
}

/// The option an argument names, if any.
pub open spec fn spec_run_option(a: Seq<char>) -> Option<RunOption> {
    if a == "--socket"@ {
        Some(RunOption::Socket)
    } else if a == "--audit-log"@ {
        Some(RunOption::AuditLog)
    } else if a == "--profile"@ {
        Some(RunOption::Profile)
    } else if a == "--sandbox"@ {
        Some(RunOption::Sandbox)
    } else if a == "--allow-input"@ {
        Some(RunOption::AllowInput)
    } else if a == "--allow-plugins"@ || a == "--allow-plugin-exec"@ {
        Some(RunOption::AllowPlugins)
    } else if a == "--vision-fallback"@ {
        Some(RunOption::VisionFallback)
    } else if a == "--grpc-addr"@ {
        Some(RunOption::GrpcAddr)
    } else if a == "--grpc-token"@ {
        Some(RunOption::GrpcToken)
    } else if a == "--no-grpc"@ {
        Some(RunOption::NoGrpc)
    } else if a == "--accessibility-cache-ttl-ms"@ {
        Some(RunOption::AccessibilityCacheTtl)
    } else if a == "--no-accessibility-events"@ {
        Some(RunOption::NoAccessibilityEvents)
    } else if a == "--no-emergency-hotkey"@ {
        Some(RunOption::NoEmergencyHotkey)
    } else if a == "--plugin-path"@ {
        Some(RunOption::PluginPath)
    } else if a == "--once"@ {
        Some(RunOption::Once)
    } else if a == "--help"@ || a == "-h"@ {
        Some(RunOption::Help)
    } else {
        None
    }
}

/// Whether the option is followed by a value.
pub open spec fn takes_value(o: RunOption) -> bool {
    match o {
        RunOption::Socket | RunOption::AuditLog | RunOption::Profile | RunOption::Sandbox
        | RunOption::GrpcAddr | RunOption::GrpcToken | RunOption::AccessibilityCacheTtl
        | RunOption::PluginPath => true,
        _ => false,
    }
}

/// What one `run` option does to a configuration.
pub enum RunStep {
    /// The option (and its value, if it takes one) is read: the new
    /// configuration and the index of the next option.
    Next(ServerConfigView, int),
    /// Help was asked for.
    Help,
    /// The option is malformed.
    Fail(Seq<char>),
}

/// An option that takes no value applied to a configuration; `None` for help.
pub open spec fn spec_apply_flag(c: ServerConfigView, o: RunOption) -> Option<ServerConfigView> {
    match o {
        RunOption::AllowInput => Some(ServerConfigView { allow_input: true, ..c }),
        RunOption::AllowPlugins => Some(ServerConfigView { allow_plugins: true, ..c }),
        RunOption::VisionFallback => Some(ServerConfigView { vision_fallback: true, ..c }),
        RunOption::NoGrpc => Some(ServerConfigView { grpc_addr: None, ..c }),
        RunOption::NoAccessibilityEvents => Some(ServerConfigView { accessibility_events: false, ..c }),
        RunOption::NoEmergencyHotkey => Some(ServerConfigView { emergency_hotkey: false, ..c }),
        RunOption::Once => Some(ServerConfigView { once: true, ..c }),
        _ => None,
    }
}

/// What reading an argument as a socket address reported: the error's text
/// for an argument that is none, nothing for one that is (or is not given).
pub open spec fn addr_error_at(addr_errors: Seq<Option<String>>, i: int) -> Option<Seq<char>> {
    if 0 <= i < addr_errors.len() {
        opt_text(addr_errors[i])
    } else {
        None
    }
}

/// An option that takes a value applied to a configuration with value `v`;
/// `addr_error` is what reading `v` as a socket address reported.
pub open spec fn spec_apply_valued(
    c: ServerConfigView,
    o: RunOption,
    v: Seq<char>,
    addr_error: Option<Seq<char>>,
) -> Result<ServerConfigView, Seq<char>> {
    match o {
        RunOption::Socket => Ok(ServerConfigView { socket: v, ..c }),
        RunOption::AuditLog => Ok(ServerConfigView { audit_log: v, ..c }),
        RunOption::Profile => match spec_parse_policy_profile(v) {
            Ok(p) => Ok(spec_apply_profile(c, p)),
            Err(m) => Err(m),
        },
        RunOption::Sandbox => match spec_parse_sandbox_profile(v) {
            Ok(s) => Ok(ServerConfigView { sandbox_profile: s, ..c }),
            Err(m) => Err(m),
        },
        RunOption::GrpcAddr => match addr_error {
            Some(e) => Err("invalid --grpc-addr "@ + debug_quoted(v) + ": "@ + e),
            None => Ok(ServerConfigView { grpc_addr: Some(v), ..c }),
        },
        RunOption::GrpcToken => if trim(v).len() == 0 {
            Err("--grpc-token must not be empty"@)
        } else {
            Ok(ServerConfigView { grpc_token: Some(trim(v)), ..c })
        },
        RunOption::AccessibilityCacheTtl => match spec_parse_u64(v) {
            Ok(n) => Ok(ServerConfigView { accessibility_cache_ttl_ms: n as u64, ..c }),
            Err(kind) => Err(msg_bad_ttl(v, kind)),
        },
        _ => Ok(ServerConfigView { plugin_paths: c.plugin_paths.push(v), ..c }),
    }
}

/// Reads the `run` option at index `i` (which exists).
pub open spec fn spec_run_step(
    c: ServerConfigView,
    args: Seq<Seq<char>>,
    addr_errors: Seq<Option<String>>,
    i: int,
) -> RunStep {
    let a = args[i];
    match spec_run_option(a) {
        None => RunStep::Fail("unknown run argument: "@ + a),
        Some(o) => if takes_value(o) {
            if i + 1 < args.len() {
                match spec_apply_valued(c, o, args[i + 1], addr_error_at(addr_errors, i + 1)) {
                    Ok(next) => RunStep::Next(next, i + 2),
                    Err(m) => RunStep::Fail(m),
                }
            } else {
                RunStep::Fail(msg_missing(a))
            }
        } else {
            match spec_apply_flag(c, o) {
                Some(next) => RunStep::Next(next, i + 1),
                None => RunStep::Help,
            }
        },
    }
}

/// The `run` options from index `i` on applied to `c`, in order: `Ok(None)`
/// asks for help, and the first malformed option is the error.
pub open spec fn spec_run_args(
    c: ServerConfigView,
    args: Seq<Seq<char>>,
    addr_errors: Seq<Option<String>>,
    i: int,
) -> Result<Option<ServerConfigView>, Seq<char>>
    decreases args.len() - i,
{
    if i < 0 || i >= args.len() {
        Ok(Some(c))
    } else {
        match spec_run_step(c, args, addr_errors, i) {
            RunStep::Next(next, j) => if i < j {
                spec_run_args(next, args, addr_errors, j)
            } else {
                Ok(Some(next))
            },
            RunStep::Help => Ok(None),
            RunStep::Fail(m) => Err(m),
        }
    }
}

/// The command the `run` options from index `start` on ask for, on top of
/// the environment's configuration.
pub open spec fn spec_parse_run_args(
    args: Seq<Seq<char>>,
    start: int,
    env: DaemonEnvironment,
    addr_errors: Seq<Option<String>>,
) -> Result<DaemonCommandView, Seq<char>> {
    match spec_default_config(env) {
        Err(m) => Err(m),
        Ok(c) => match spec_run_args(c, args, addr_errors, start) {
            Err(m) => Err(m),
            Ok(None) => Ok(DaemonCommandView::Help),
            Ok(Some(c)) => Ok(DaemonCommandView::Run(c)),
        },
    }
}

fn missing_value(option: &str) -> (r: String)
    ensures
        r@ == msg_missing(option@),
{
    let mut m = String::from_str("missing value for ");
    m.append(option);
    m
}

/// Reads the options of `peekabooxd run` (see [`spec_parse_run_args`]);
/// `addr_errors[i]` is what reading `args[i]` as a socket address reported.
pub fn parse_run_args(
    args: &[String],
    env: &DaemonEnvironment,
    addr_errors: &[Option<String>],
) -> (r: Result<DaemonCommand, String>)
    ensures
        match spec_parse_run_args(texts(args@), 0, *env, addr_errors@) {
            Ok(c) => r matches Ok(x) && x@ == c,
            Err(m) => r matches Err(e) && e@ == m,
        },
{
    parse_run_args_from(args, 0, env, addr_errors)
}

/// Names the option an argument is (see [`spec_run_option`]).
pub fn run_option(arg: &str) -> (r: Option<RunOption>)
    ensures
        r == spec_run_option(arg@),
{
    if str_eq(arg, "--socket") {
        Some(RunOption::Socket)
    } else if str_eq(arg, "--audit-log") {
        Some(RunOption::AuditLog)
    } else if str_eq(arg, "--profile") {
        Some(RunOption::Profile)
    } else if str_eq(arg, "--sandbox") {
        Some(RunOption::Sandbox)
    } else if str_eq(arg, "--allow-input") {
        Some(RunOption::AllowInput)
    } else if str_eq(arg, "--allow-plugins") || str_eq(arg, "--allow-plugin-exec") {
        Some(RunOption::AllowPlugins)
    } else if str_eq(arg, "--vision-fallback") {
        Some(RunOption::VisionFallback)
    } else if str_eq(arg, "--grpc-addr") {
        Some(RunOption::GrpcAddr)
    } else if str_eq(arg, "--grpc-token") {
        Some(RunOption::GrpcToken)
    } else if str_eq(arg, "--no-grpc") {
        Some(RunOption::NoGrpc)
    } else if str_eq(arg, "--accessibility-cache-ttl-ms") {
        Some(RunOption::AccessibilityCacheTtl)
    } else if str_eq(arg, "--no-accessibility-events") {
        Some(RunOption::NoAccessibilityEvents)
    } else if str_eq(arg, "--no-emergency-hotkey") {
        Some(RunOption::NoEmergencyHotkey)
    } else if str_eq(arg, "--plugin-path") {
        Some(RunOption::PluginPath)
    } else if str_eq(arg, "--once") {
        Some(RunOption::Once)
    } else if str_eq(arg, "--help") || str_eq(arg, "-h") {
        Some(RunOption::Help)
    } else {
        None
    }
}

fn apply_flag(config: &mut ServerConfig, option: RunOption) -> (applied: bool)
    requires
        !takes_value(option),
    ensures
        match spec_apply_flag(old(config)@, option) {
            Some(c) => applied && final(config)@ == c,
            None => !applied,
        },
{
    match option {
        RunOption::AllowInput => config.allow_input = true,
        RunOption::AllowPlugins => config.allow_plugins = true,
        RunOption::VisionFallback => config.vision_fallback = true,
        RunOption::NoGrpc => config.grpc_addr = None,
        RunOption::NoAccessibilityEvents => config.accessibility_events = false,
        RunOption::NoEmergencyHotkey => config.emergency_hotkey = false,
        RunOption::Once => config.once = true,
        _ => return false,
    }
    true
}

fn apply_valued(
    config: &mut ServerConfig,
    option: RunOption,
    value: &String,
    addr_error: &Option<String>,
) -> (r: Result<(), String>)
    requires
        takes_value(option),
    ensures
        match spec_apply_valued(old(config)@, option, value@, opt_text(*addr_error)) {
            Ok(c) => r is Ok && final(config)@ == c,
            Err(m) => r matches Err(e) && e@ == m,
        },
{
    match option {
        RunOption::Socket => config.socket = copy_text(value),
        RunOption::AuditLog => config.audit_log = copy_text(value),
        RunOption::Profile => {
            let p = DaemonPolicyProfile::parse(value.as_str())?;
            apply_daemon_policy_profile(config, p);
        },
        RunOption::Sandbox => config.sandbox_profile = SandboxProfile::parse(value.as_str())?,
        RunOption::GrpcAddr => match addr_error {
            Some(e) => {
                let mut m = String::from_str("invalid --grpc-addr ");
                let q = debug_text(&chars_of(value.as_str()));
                m.append(q.as_str());
                m.append(": ");
                m.append(e.as_str());
                return Err(m);
            },
            None => config.grpc_addr = Some(copy_text(value)),
        },
        RunOption::GrpcToken => match non_empty_string(value.as_str()) {
            Some(t) => config.grpc_token = Some(t),
            None => return Err(String::from_str("--grpc-token must not be empty")),
        },
        RunOption::AccessibilityCacheTtl => {
            let chars = chars_of(value.as_str());
            match parse_u64_text(&chars) {
                Ok(n) => config.accessibility_cache_ttl_ms = n,
                Err(kind) => {
                    let mut m = String::from_str("invalid --accessibility-cache-ttl-ms ");
                    let q = debug_text(&chars);
                    m.append(q.as_str());
                    m.append(": ");
                    m.append(kind.text());
                    return Err(m);
                },
            }
        },
        _ => {
            let ghost before = config@.plugin_paths;
            config.plugin_paths.push(copy_text(value));
            assert(texts(config.plugin_paths@) =~= before.push(value@));
        },
    }
    Ok(())
}

fn run_arg_step(
    config: &mut ServerConfig,
    args: &[String],
    addr_errors: &[Option<String>],
    index: usize,
) -> (r: Result<Option<usize>, String>)
    requires
        index < args@.len(),
    ensures
        match spec_run_step(old(config)@, texts(args@), addr_errors@, index as int) {
            RunStep::Next(c, j) => r matches Ok(Some(n)) && n == j && final(config)@ == c && index
                < n <= args@.len(),
            RunStep::Help => r matches Ok(None),
            RunStep::Fail(m) => r matches Err(e) && e@ == m,
        },
{
    let ghost a = texts(args@);
    let arg = args[index].as_str();
    assert(a[index as int] == arg@);
    assert(a.len() == args@.len());
    match run_option(arg) {
        None => {
            let mut m = String::from_str("unknown run argument: ");
            m.append(arg);
            Err(m)
        },
        Some(option) => {
            let valued = match option {
                RunOption::Socket | RunOption::AuditLog | RunOption::Profile | RunOption::Sandbox
                | RunOption::GrpcAddr | RunOption::GrpcToken | RunOption::AccessibilityCacheTtl
                | RunOption::PluginPath => true,
                _ => false,
            };
            if valued {
                if index + 1 >= args.len() {
                    return Err(missing_value(arg));
                }
                assert(a[index + 1] == args@[index + 1]@);
                let none: Option<String> = None;
                let addr_error = if index + 1 < addr_errors.len() {
                    &addr_errors[index + 1]
                } else {
                    &none
                };
                apply_valued(config, option, &args[index + 1], addr_error)?;
                Ok(Some(index + 2))
            } else if apply_flag(config, option) {
                Ok(Some(index + 1))
            } else {
                Ok(None)
            }
        },
    }
}

fn parse_run_args_from(
    args: &[String],
    start: usize,
    env: &DaemonEnvironment,
    addr_errors: &[Option<String>],
) -> (r: Result<DaemonCommand, String>)
    requires
        start <= args@.len(),
    ensures
        match spec_parse_run_args(texts(args@), start as int, *env, addr_errors@) {
            Ok(c) => r matches Ok(x) && x@ == c,
            Err(m) => r matches Err(e) && e@ == m,
        },
{
    let mut config = default_server_config(env)?;
    let ghost a = texts(args@);
    let ghost initial = config@;
    let mut index: usize = start;
    while index < args.len()
        invariant
            a == texts(args@),
            start <= index <= args@.len(),
            spec_default_config(*env) == Ok::<ServerConfigView, Seq<char>>(initial),
            spec_run_args(initial, a, addr_errors@, start as int) == spec_run_args(
                config@,
                a,
                addr_errors@,
                index as int,
            ),
        decreases args@.len() - index,
    {
        match run_arg_step(&mut config, args, addr_errors, index) {
            Ok(Some(next)) => index = next,
            Ok(None) => return Ok(DaemonCommand::Help),
            Err(e) => return Err(e),
        }
    }
    Ok(DaemonCommand::Run { config })
}

/// The command a `peekabooxd` command line asks for: no arguments run the
/// daemon with the environment's configuration.
pub open spec fn spec_parse_args(
    args: Seq<Seq<char>>,
    env: DaemonEnvironment,
    addr_errors: Seq<Option<String>>,
) -> Result<DaemonCommandView, Seq<char>> {
    if args.len() == 0 {
        match spec_default_config(env) {
            Ok(c) => Ok(DaemonCommandView::Run(c)),
            Err(m) => Err(m),
        }
    } else if args[0] == "--version"@ || args[0] == "-V"@ {
        Ok(DaemonCommandView::Version)
    } else if args[0] == "--help"@ || args[0] == "-h"@ {
        Ok(DaemonCommandView::Help)
    } else if args[0] == "run"@ {
        spec_parse_run_args(args, 1, env, addr_errors)
    } else {
        Err("unknown peekabooxd command: "@ + args[0])
    }
}

/// Reads a `peekabooxd` command line (see [`spec_parse_args`]);
/// `addr_errors[i]` is what reading `args[i]` as a socket address reported.
pub fn parse_args(
    args: Vec<String>,
    env: &DaemonEnvironment,
    addr_errors: &[Option<String>],
) -> (r: Result<DaemonCommand, String>)
    ensures
        match spec_parse_args(texts(args@), *env, addr_errors@) {
            Ok(c) => r matches Ok(x) && x@ == c,
            Err(m) => r matches Err(e) && e@ == m,
        },
{
    if args.len() == 0 {
        let config = default_server_config(env)?;
        return Ok(DaemonCommand::Run { config });
    }
    let first = args[0].as_str();
    if str_eq(first, "--version") || str_eq(first, "-V") {
        Ok(DaemonCommand::Version)
    } else if str_eq(first, "--help") || str_eq(first, "-h") {
        Ok(DaemonCommand::Help)
    } else if str_eq(first, "run") {
        parse_run_args_from(args.as_slice(), 1, env, addr_errors)
    } else {
        let mut m = String::from_str("unknown peekabooxd command: ");
        m.append(first);
        Err(m)
    }
}

/// Refuses input actions unless the configuration allows them.
pub fn ensure_input_allowed(config: &ServerConfig) -> (r: Result<(), String>)
    ensures
        config.allow_input <==> r is Ok,
        r matches Err(e) ==> e@
            == "permission denied: non-dry-run input actions require peekabooxd --profile operator, --allow-input, or PEEKABOOX_ALLOW_INPUT=1"@,
{
    if config.allow_input {
        return Ok(());
    }
    Err(
        String::from_str(
            "permission denied: non-dry-run input actions require peekabooxd --profile operator, --allow-input, or PEEKABOOX_ALLOW_INPUT=1",
        ),
    )
}

/// Refuses plugin execution unless the configuration allows it.
pub fn ensure_plugin_execution_allowed(config: &ServerConfig) -> (r: Result<(), String>)
    ensures
        config.allow_plugins <==> r is Ok,
        r matches Err(e) ==> e@
            == "permission denied: plugin execution requires peekabooxd --profile operator, --allow-plugins, or PEEKABOOX_ALLOW_PLUGINS=1"@,
{
    if config.allow_plugins {
        return Ok(());
    }
    Err(
        String::from_str(
            "permission denied: plugin execution requires peekabooxd --profile operator, --allow-plugins, or PEEKABOOX_ALLOW_PLUGINS=1",
        ),
    )
}

proof fn lemma_plain_name_key(s: Seq<char>)
    requires
        forall|i: int| 0 <= i < s.len() ==> 'a' <= #[trigger] s[i] <= 'z' || s[i] == '-',
    ensures
        profile_key(s) == s,
{
    if s.len() > 0 {
        assert(!is_ws(s[0]) && !is_ws(s.last()));
    }
    lemma_trim_unchanged(s);
    assert(lower_seq(s) =~= s);
    assert(dashes(s) =~= s);
}

/// Each policy profile is read back from its canonical name: as
/// `as_str` gives that name, `DaemonPolicyProfile::parse(p.as_str()) == Ok(p)`.
pub proof fn lemma_policy_profile_name_round_trip(p: DaemonPolicyProfile)
    ensures
        spec_parse_policy_profile(spec_policy_profile_name(p)) == Ok::<DaemonPolicyProfile, Seq<char>>(p),
{
    reveal_strlit("observe");
    reveal_strlit("assist");
    reveal_strlit("operator");
    lemma_plain_name_key(spec_policy_profile_name(p));
    let k = spec_policy_profile_name(p);
    let observe = seq!["observe", "locked", "read-only", "readonly"];
    let assist = seq!["assist", "inspect"];
    let operator = seq!["operator", "trusted", "full"];
    match p {
        DaemonPolicyProfile::Observe => {
            assert(k == observe[0]@);
        },
        DaemonPolicyProfile::Assist => {
            reveal_strlit("locked");
            reveal_strlit("read-only");
            reveal_strlit("readonly");
            assert(k == assist[0]@);
            assert(!one_of(k, observe));
        },
        DaemonPolicyProfile::Operator => {
            reveal_strlit("locked");
            reveal_strlit("read-only");
            reveal_strlit("readonly");
            reveal_strlit("inspect");
            assert(k == operator[0]@);
            assert(!one_of(k, observe));
            assert(!one_of(k, assist));
        },
    }
}

/// Each sandbox profile is read back from its canonical name: as
/// `as_str` gives that name, `SandboxProfile::parse(p.as_str()) == Ok(p)`.
pub proof fn lemma_sandbox_profile_name_round_trip(p: SandboxProfile)
    ensures
        spec_parse_sandbox_profile(spec_sandbox_profile_name(p)) == Ok::<SandboxProfile, Seq<char>>(p),
{
    reveal_strlit("off");
    reveal_strlit("basic");
    reveal_strlit("strict");
    lemma_plain_name_key(spec_sandbox_profile_name(p));
    let k = spec_sandbox_profile_name(p);
    let off = seq!["off", "none", "disabled"];
    let basic = seq!["basic", "no-new-privileges"];
    let strict = seq!["strict", "namespace", "namespaces"];
    match p {
        SandboxProfile::Off => {
            assert(k == off[0]@);
        },
        SandboxProfile::Basic => {
            reveal_strlit("none");
            reveal_strlit("disabled");
            assert(k == basic[0]@);
            assert(!one_of(k, off));
        },
        SandboxProfile::Strict => {
            reveal_strlit("none");
            reveal_strlit("disabled");
            reveal_strlit("no-new-privileges");
            assert(k == strict[0]@);
            assert(!one_of(k, off));
            assert(!one_of(k, basic));
        },
    }
}

/// Each profile allows at least what the profile before it allows:
/// `observe`, then `assist`, then `operator`.
pub proof fn lemma_policy_profiles_widen()
    ensures
        !spec_allows_input(DaemonPolicyProfile::Observe) && !spec_allows_plugins(
            DaemonPolicyProfile::Observe,
        ) && !spec_vision_fallback(DaemonPolicyProfile::Observe),
        !spec_allows_input(DaemonPolicyProfile::Assist) && !spec_allows_plugins(
            DaemonPolicyProfile::Assist,
        ) && spec_vision_fallback(DaemonPolicyProfile::Assist),
        spec_allows_input(DaemonPolicyProfile::Operator) && spec_allows_plugins(
            DaemonPolicyProfile::Operator,
        ) && spec_vision_fallback(DaemonPolicyProfile::Operator),
{
}

proof fn lemma_run_args_keep_input_denied(
    c: ServerConfigView,
    args: Seq<Seq<char>>,
    addr_errors: Seq<Option<String>>,
    i: int,
)
    requires
        !c.allow_input,
        forall|j: int| 0 <= j < args.len() ==> args[j] != "--allow-input"@ && args[j] != "--profile"@,
    ensures
        spec_run_args(c, args, addr_errors, i) matches Ok(Some(d)) ==> !d.allow_input,
    decreases args.len() - i,
{
    if 0 <= i < args.len() {
        match spec_run_step(c, args, addr_errors, i) {
            RunStep::Next(next, j) => {
                if i < j {
                    lemma_run_args_keep_input_denied(next, args, addr_errors, j);
                }
            },
            _ => {},
        }
    }
}

/// Real input stays denied unless something asks for it: an operator profile
/// or the input flag in the environment, or `--allow-input` or `--profile`
/// on the command line.
pub proof fn lemma_input_denied_by_default(
    args: Seq<Seq<char>>,
    env: DaemonEnvironment,
    addr_errors: Seq<Option<String>>,
)
    requires
        spec_env_policy_profile(env.daemon_profile) != Ok::<DaemonPolicyProfile, Seq<char>>(
            DaemonPolicyProfile::Operator,
        ),
        !spec_flag_on(env.allow_input),
        forall|j: int| 0 <= j < args.len() ==> args[j] != "--allow-input"@ && args[j] != "--profile"@,
    ensures
        spec_parse_run_args(args, 0, env, addr_errors) matches Ok(DaemonCommandView::Run(c))
            ==> !c.allow_input,
{
    match spec_default_config(env) {
        Ok(c) => lemma_run_args_keep_input_denied(c, args, addr_errors, 0),
        Err(_) => {},
    }
}

/// A request carries the token: the `x-peekaboox-token` header holds it, or
/// the `authorization` header holds `Bearer ` and the token.
pub open spec fn spec_has_token(
    token_header: Option<Seq<char>>,
    authorization: Option<Seq<char>>,
    expected: Seq<char>,
) -> bool {
    ||| token_header == Some(expected)
    ||| authorization matches Some(a) && a == "Bearer "@ + expected
}

/// A request must speak the daemon's API version; otherwise it is refused with
/// both versions named.
pub fn check_api_version(version: &str, expected: &str) -> (r: Result<(), String>)
    ensures
        version@ == expected@ ==> r is Ok,
        version@ != expected@ ==> (r matches Err(m) && m@ == "unsupported API version "@
            + debug_quoted(version@) + "; expected "@ + expected@),
{
    if str_eq(version, expected) {
        return Ok(());
    }
    let mut m = String::from_str("unsupported API version ");
    let quoted = debug_text(&chars_of(version));
    m.append(quoted.as_str());
    m.append("; expected ");
    m.append(expected);
    Err(m)
}

/// Whether a gRPC request carries the expected token, given the text of its
/// `x-peekaboox-token` and `authorization` headers (`None` when absent or not
/// text).
pub fn request_has_token(
    token_header: Option<&str>,
    authorization: Option<&str>,
    expected_token: &str,
) -> (r: bool)
    ensures
        r == spec_has_token(
            match token_header {
                Some(t) => Some(t@),
                None => None,
            },
            match authorization {
                Some(a) => Some(a@),
                None => None,
            },
            expected_token@,
        ),
{
    let direct = match token_header {
        Some(t) => str_eq(t, expected_token),
        None => false,
    };
    if direct {
        return true;
    }
    match authorization {
        Some(a) => {
            let mut bearer = String::from_str("Bearer ");
            bearer.append(expected_token);
            str_eq(a, bearer.as_str())
        },
        None => false,
    }
}

/// The gRPC server may listen on a loopback address, or elsewhere when a
/// token guards it.
pub fn check_grpc_exposure(is_loopback: bool, has_token: bool) -> (r: Result<(), String>)
    ensures
        r is Ok <==> (is_loopback || has_token),
        r matches Err(e) ==> e@
            == "refusing to expose unauthenticated gRPC on a non-loopback address; set --grpc-token or PEEKABOOX_GRPC_TOKEN"@,
{
    if !is_loopback && !has_token {
        return Err(
            String::from_str(
                "refusing to expose unauthenticated gRPC on a non-loopback address; set --grpc-token or PEEKABOOX_GRPC_TOKEN",
            ),
        );
    }
    Ok(())
}

/// Names an AT-SPI event by its interface and member: `interface.member`,
/// with `unknown-interface` or `unknown-member` for a part the message lacks.
pub fn atspi_event_reason(interface: Option<&str>, member: Option<&str>) -> (r: String)
    ensures
        r@ == match interface {
            Some(i) => i@,
            None => "unknown-interface"@,
        } + "."@ + match member {
            Some(m) => m@,
            None => "unknown-member"@,
        },
{
    let mut r = match interface {
        Some(i) => String::from_str(i),
        None => String::from_str("unknown-interface"),
    };
    r.append(".");
    match member {
        Some(m) => r.append(m),
        None => r.append("unknown-member"),
    }
    r
}

/// The steps a sandbox profile takes, in order.
#[derive(Debug, Clone, Copy, PartialEq, Eq, Structural)]
pub enum SandboxStep {
    NoNewPrivileges,
    NonDumpable,
    PrivateFileCreationMask,
    UserNamespace,
    UserNamespaceIdMap,
    MountAndIpcNamespaces,
    PrivateMountPropagation,
}

/// The steps of a sandbox profile: none when off; the basic three; and the
/// namespaces after them when strict.
pub open spec fn spec_sandbox_plan(profile: SandboxProfile) -> Seq<SandboxStep> {
    match profile {
        SandboxProfile::Off => Seq::empty(),
        SandboxProfile::Basic => seq![
            SandboxStep::NoNewPrivileges,
            SandboxStep::NonDumpable,
            SandboxStep::PrivateFileCreationMask,
        ],
        SandboxProfile::Strict => seq![
            SandboxStep::NoNewPrivileges,
            SandboxStep::NonDumpable,
            SandboxStep::PrivateFileCreationMask,
            SandboxStep::UserNamespace,
            SandboxStep::UserNamespaceIdMap,
            SandboxStep::MountAndIpcNamespaces,
            SandboxStep::PrivateMountPropagation,
        ],
    }
}

/// The steps of a sandbox profile (see [`spec_sandbox_plan`]).
pub fn sandbox_plan(profile: SandboxProfile) -> (r: Vec<SandboxStep>)
    ensures
        r@ == spec_sandbox_plan(profile),
{
    let mut r: Vec<SandboxStep> = Vec::new();
    match profile {
        SandboxProfile::Off => {},
        SandboxProfile::Basic => {
            r.push(SandboxStep::NoNewPrivileges);
            r.push(SandboxStep::NonDumpable);
            r.push(SandboxStep::PrivateFileCreationMask);
        },
        SandboxProfile::Strict => {
            r.push(SandboxStep::NoNewPrivileges);
            r.push(SandboxStep::NonDumpable);
            r.push(SandboxStep::PrivateFileCreationMask);
            r.push(SandboxStep::UserNamespace);
            r.push(SandboxStep::UserNamespaceIdMap);
            r.push(SandboxStep::MountAndIpcNamespaces);
            r.push(SandboxStep::PrivateMountPropagation);
        },
    }
    assert(r@ =~= spec_sandbox_plan(profile));
    r
}

impl SandboxStep {
    /// The names a completed step is recorded under.
    pub fn labels(self) -> (r: Vec<&'static str>)
        ensures
            r@.len() == if self == SandboxStep::MountAndIpcNamespaces {
                2nat
            } else {
                1nat
            },
            self == SandboxStep::NoNewPrivileges ==> r@[0]@ == "no_new_privileges"@,
            self == SandboxStep::NonDumpable ==> r@[0]@ == "non_dumpable"@,
            self == SandboxStep::PrivateFileCreationMask ==> r@[0]@ == "umask_077"@,
            self == SandboxStep::UserNamespace ==> r@[0]@ == "user_namespace"@,
            self == SandboxStep::UserNamespaceIdMap ==> r@[0]@ == "user_namespace_id_map"@,
            self == SandboxStep::MountAndIpcNamespaces ==> r@[0]@ == "mount_namespace"@ && r@[1]@
                == "ipc_namespace"@,
            self == SandboxStep::PrivateMountPropagation ==> r@[0]@ == "private_mount_propagation"@,
    {
        let mut r: Vec<&'static str> = Vec::new();
        match self {
            SandboxStep::NoNewPrivileges => r.push("no_new_privileges"),
            SandboxStep::NonDumpable => r.push("non_dumpable"),
            SandboxStep::PrivateFileCreationMask => r.push("umask_077"),
            SandboxStep::UserNamespace => r.push("user_namespace"),
            SandboxStep::UserNamespaceIdMap => r.push("user_namespace_id_map"),
            SandboxStep::MountAndIpcNamespaces => {
                r.push("mount_namespace");
                r.push("ipc_namespace");
            },
            SandboxStep::PrivateMountPropagation => r.push("private_mount_propagation"),
        }
        r
    }
}

/// A stricter sandbox takes every step of a laxer one first, in the same
/// order.
pub proof fn lemma_sandbox_plans_extend()
    ensures
        spec_sandbox_plan(SandboxProfile::Basic).len() < spec_sandbox_plan(SandboxProfile::Strict).len(),
        spec_sandbox_plan(SandboxProfile::Off).is_prefix_of(spec_sandbox_plan(SandboxProfile::Basic)),
        spec_sandbox_plan(SandboxProfile::Basic).is_prefix_of(spec_sandbox_plan(SandboxProfile::Strict)),
{
    assert(spec_sandbox_plan(SandboxProfile::Basic) =~= spec_sandbox_plan(
        SandboxProfile::Strict,
    ).subrange(0, 3));
}

} // verus!
