//! The server's configuration: the security policy that governs tools, the
//! environment switches and TOML config file that shape it, the command line,
//! and the dashboard's editor for the config file.
//!
//! Paths are held as strings. Reading the environment and the config file,
//! canonicalizing paths and parsing socket addresses are left to the caller.

use vstd::prelude::*;

use crate::http::split_char;
use crate::text::{
    chars_of, clone_opt_string, clone_strings, eq_ignore_ascii_case, lower_seq, owned, str_eq,
    spec_decimal, strs_view, sv, trim_seq, trim_str,
};

verus! {

/// What the server lets tools do.
#[derive(Debug, Clone, PartialEq)]
pub struct SecurityPolicy {
    pub filesystem_roots: Vec<String>,
    pub artifact_dir: Option<String>,
    pub enable_filesystem_mutation: bool,
    pub enable_clipboard_write: bool,
    pub enable_registry_mutation: bool,
    pub allow_private_network: bool,
    pub memory_mutation_enabled: bool,
    pub macro_execution_enabled: bool,
    pub macro_destructive_tools_allowed: bool,
    pub max_macro_runtime_ms: Option<u64>,
    pub max_macro_steps: Option<usize>,
    pub screenshot_retention_count: Option<usize>,
    pub embedding_model_path: Option<String>,
    pub embedding_dimension: Option<usize>,
    pub tool_allowlist: Vec<String>,
    pub tool_denylist: Vec<String>,
}

/// The view of a security policy.
pub struct PolicyView {
    pub filesystem_roots: Seq<Seq<char>>,
    pub artifact_dir: Option<Seq<char>>,
    pub enable_filesystem_mutation: bool,
    pub enable_clipboard_write: bool,
    pub enable_registry_mutation: bool,
    pub allow_private_network: bool,
    pub memory_mutation_enabled: bool,
    pub macro_execution_enabled: bool,
    pub macro_destructive_tools_allowed: bool,
    pub max_macro_runtime_ms: Option<u64>,
    pub max_macro_steps: Option<usize>,
    pub screenshot_retention_count: Option<usize>,
    pub embedding_model_path: Option<Seq<char>>,
    pub embedding_dimension: Option<usize>,
    pub tool_allowlist: Seq<Seq<char>>,
    pub tool_denylist: Seq<Seq<char>>,
}

impl View for SecurityPolicy {
    type V = PolicyView;

    open spec fn view(&self) -> PolicyView {
        PolicyView {
            filesystem_roots: strs_view(self.filesystem_roots@),
            artifact_dir: sv(self.artifact_dir),
            enable_filesystem_mutation: self.enable_filesystem_mutation,
            enable_clipboard_write: self.enable_clipboard_write,
            enable_registry_mutation: self.enable_registry_mutation,
            allow_private_network: self.allow_private_network,
            memory_mutation_enabled: self.memory_mutation_enabled,
            macro_execution_enabled: self.macro_execution_enabled,
            macro_destructive_tools_allowed: self.macro_destructive_tools_allowed,
            max_macro_runtime_ms: self.max_macro_runtime_ms,
            max_macro_steps: self.max_macro_steps,
            screenshot_retention_count: self.screenshot_retention_count,
            embedding_model_path: sv(self.embedding_model_path),
            embedding_dimension: self.embedding_dimension,
            tool_allowlist: strs_view(self.tool_allowlist@),
            tool_denylist: strs_view(self.tool_denylist@),
        }
    }
}

/// Some entry of `list` equals `name`, ignoring ASCII case.
pub open spec fn listed_ignoring_case(list: Seq<Seq<char>>, name: Seq<char>) -> bool {
    exists|i: int| 0 <= i < list.len() && lower_seq(#[trigger] list[i]) == lower_seq(name)
}

/// A tool is denied when the denylist names it, or when there is an allowlist
/// that does not (names compared ignoring ASCII case).
pub open spec fn policy_denies(p: PolicyView, tool_name: Seq<char>) -> bool {
    listed_ignoring_case(p.tool_denylist, tool_name) || (p.tool_allowlist.len() > 0
        && !listed_ignoring_case(p.tool_allowlist, tool_name))
}

fn list_contains_ignoring_case(list: &Vec<String>, name: &str) -> (r: bool)
    ensures
        r == listed_ignoring_case(strs_view(list@), name@),
{
    let mut i: usize = 0;
    while i < list.len()
        invariant
            i <= list@.len(),
            forall|j: int| 0 <= j < i ==> lower_seq(#[trigger] strs_view(list@)[j]) != lower_seq(name@),
        decreases list.len() - i,
    {
        if eq_ignore_ascii_case(list[i].as_str(), name) {
            assert(strs_view(list@)[i as int] == list@[i as int]@);
            return true;
        }
        i += 1;
    }
    false
}

impl SecurityPolicy {
    /// Whether the policy refuses the tool `tool_name`.
    pub fn denies_tool(&self, tool_name: &str) -> (r: bool)
        ensures
            r == policy_denies(self@, tool_name@),
    {
        list_contains_ignoring_case(&self.tool_denylist, tool_name) || (self.tool_allowlist.len() > 0
            && !list_contains_ignoring_case(&self.tool_allowlist, tool_name))
    }
}

/// A tool on the denylist is denied, whatever the allowlist says.
pub proof fn lemma_denylist_wins(p: PolicyView, tool_name: Seq<char>, i: int)
    requires
        0 <= i < p.tool_denylist.len(),
        lower_seq(p.tool_denylist[i]) == lower_seq(tool_name),
    ensures
        policy_denies(p, tool_name),
{
}

/// With both lists empty no tool is denied; with an allowlist, a tool not on
/// the denylist is allowed exactly when the allowlist names it.
pub proof fn lemma_allowlist_gates(p: PolicyView, tool_name: Seq<char>)
    ensures
        p.tool_denylist.len() == 0 && p.tool_allowlist.len() == 0 ==> !policy_denies(p, tool_name),
        p.tool_allowlist.len() > 0 && !listed_ignoring_case(p.tool_denylist, tool_name) ==> (policy_denies(p, tool_name)
            <==> !listed_ignoring_case(p.tool_allowlist, tool_name)),
{
}

/// The values an environment switch turns on with.
pub open spec fn flag_value_enabled(value: Option<Seq<char>>) -> bool {
    match value {
        Some(v) => v == "1"@ || v == "true"@ || v == "TRUE"@ || v == "yes"@ || v == "YES"@,
        None => false,
    }
}

/// Whether an environment switch with the given value (if set) is on.
pub fn env_flag_value(value: Option<&str>) -> (r: bool)
    ensures
        r == flag_value_enabled(
            match value {
                Some(v) => Some(v@),
                None => None,
            },
        ),
{
    match value {
        Some(v) => str_eq(v, "1") || str_eq(v, "true") || str_eq(v, "TRUE") || str_eq(v, "yes")
            || str_eq(v, "YES"),
        None => false,
    }
}

/// The non-empty trimmed pieces, in order.
pub open spec fn nonblank_trimmed(pieces: Seq<Seq<char>>) -> Seq<Seq<char>>
    decreases pieces.len(),
{
    if pieces.len() == 0 {
        Seq::empty()
    } else {
        let prev = nonblank_trimmed(pieces.drop_last());
        if trim_seq(pieces.last()).len() > 0 {
            prev.push(trim_seq(pieces.last()))
        } else {
            prev
        }
    }
}

/// The paths of a `;`-separated list: each piece trimmed, empty ones dropped.
pub open spec fn path_list(value: Option<Seq<char>>) -> Seq<Seq<char>> {
    match value {
        Some(v) => nonblank_trimmed(split_char(v, ';')),
        None => Seq::empty(),
    }
}

/// The paths of an environment path list with the given value (if set).
pub fn env_path_list(value: Option<&str>) -> (r: Vec<String>)
    ensures
        strs_view(r@) == path_list(
            match value {
                Some(v) => Some(v@),
                None => None,
            },
        ),
{
    let v = match value {
        Some(v) => v,
        None => return Vec::new(),
    };
    let chars = chars_of(v);
    let ghost s = chars@;
    let ghost mut done: Seq<Seq<char>> = Seq::empty();
    let mut out: Vec<String> = Vec::new();
    let mut current: Vec<char> = Vec::new();
    let mut i: usize = 0;
    while i < chars.len()
        invariant
            s == chars@,
            i <= s.len(),
            split_char(s.take(i as int), ';') == done.push(current@),
            strs_view(out@) == nonblank_trimmed(done),
        decreases chars.len() - i,
    {
        assert(s.take(i + 1).drop_last() =~= s.take(i as int));
        assert(s.take(i + 1).last() == chars@[i as int]);
        if chars[i] == ';' {
            let piece = crate::text::trim_chars(&current);
            let ghost old_done = done;
            proof {
                done = done.push(current@);
            }
            assert(done.drop_last() =~= old_done);
            if !piece.as_str().is_empty() {
                assert(piece@.len() > 0);
                let ghost before = out@;
                out.push(piece);
                assert(strs_view(out@) =~= strs_view(before).push(piece@));
            } else {
                assert(piece@.len() == 0);
            }
            current = Vec::new();
            assert(split_char(s.take(i + 1), ';') =~= done.push(current@));
        } else {
            current.push(chars[i]);
            assert(split_char(s.take(i + 1), ';') =~= done.push(current@));
        }
        i += 1;
    }
    assert(s.take(s.len() as int) =~= s);
    let piece = crate::text::trim_chars(&current);
    let ghost all = done.push(current@);
    assert(all.drop_last() =~= done);
    if !piece.as_str().is_empty() {
        assert(piece@.len() > 0);
        let ghost before = out@;
        out.push(piece);
        assert(strs_view(out@) =~= strs_view(before).push(piece@));
    } else {
        assert(piece@.len() == 0);
    }
    out
}

/// The values of the environment variables that shape the default policy,
/// each `None` when unset: `WINCTL_FS_ROOTS`, `WINCTL_ARTIFACT_DIR`,
/// `WINCTL_ENABLE_FILESYSTEM_MUTATION`, `WINCTL_ENABLE_CLIPBOARD_WRITE`,
/// `WINCTL_ENABLE_REGISTRY_MUTATION` and `WINCTL_ALLOW_PRIVATE_NETWORK`.
#[derive(Debug, Clone, Default, PartialEq)]
pub struct PolicyEnvironment {
    pub fs_roots: Option<String>,
    pub artifact_dir: Option<String>,
    pub enable_filesystem_mutation: Option<String>,
    pub enable_clipboard_write: Option<String>,
    pub enable_registry_mutation: Option<String>,
    pub allow_private_network: Option<String>,
}

/// The vector size of the default embedding model.
pub const DEFAULT_EMBEDDING_DIM: usize = 384;

impl SecurityPolicy {
    /// The default policy: filesystem roots, artifact directory and the four
    /// mutation and network switches from the environment; memory mutation and
    /// macro execution on; destructive macro tools off; no limits; the default
    /// embedding dimension (`DEFAULT_EMBEDDING_DIM`); no allowlist or denylist.
    pub fn from_environment(env: &PolicyEnvironment) -> (r: SecurityPolicy)
        ensures
            r@ == (PolicyView {
                filesystem_roots: path_list(sv(env.fs_roots)),
                artifact_dir: sv(env.artifact_dir),
                enable_filesystem_mutation: flag_value_enabled(sv(env.enable_filesystem_mutation)),
                enable_clipboard_write: flag_value_enabled(sv(env.enable_clipboard_write)),
                enable_registry_mutation: flag_value_enabled(sv(env.enable_registry_mutation)),
                allow_private_network: flag_value_enabled(sv(env.allow_private_network)),
                memory_mutation_enabled: true,
                macro_execution_enabled: true,
                macro_destructive_tools_allowed: false,
                max_macro_runtime_ms: None,
                max_macro_steps: None,
                screenshot_retention_count: None,
                embedding_model_path: None,
                embedding_dimension: Some(DEFAULT_EMBEDDING_DIM),
                tool_allowlist: Seq::empty(),
                tool_denylist: Seq::empty(),
            }),
    {
        let r = SecurityPolicy {
            filesystem_roots: env_path_list(opt_str(&env.fs_roots)),
            artifact_dir: clone_opt_string(&env.artifact_dir),
            enable_filesystem_mutation: env_flag_value(opt_str(&env.enable_filesystem_mutation)),
            enable_clipboard_write: env_flag_value(opt_str(&env.enable_clipboard_write)),
            enable_registry_mutation: env_flag_value(opt_str(&env.enable_registry_mutation)),
            allow_private_network: env_flag_value(opt_str(&env.allow_private_network)),
            memory_mutation_enabled: true,
            macro_execution_enabled: true,
            macro_destructive_tools_allowed: false,
            max_macro_runtime_ms: None,
            max_macro_steps: None,
            screenshot_retention_count: None,
            embedding_model_path: None,
            embedding_dimension: Some(DEFAULT_EMBEDDING_DIM),
            tool_allowlist: Vec::new(),
            tool_denylist: Vec::new(),
        };
        assert(strs_view(r.tool_allowlist@) =~= Seq::<Seq<char>>::empty());
        assert(strs_view(r.tool_denylist@) =~= Seq::<Seq<char>>::empty());
        r
    }
}

/// The string slice in an optional string.
fn opt_str(o: &Option<String>) -> (r: Option<&str>)
    ensures
        match r {
            Some(s) => sv(*o) == Some(s@),
            None => o is None,
        },
{
    match o {
        Some(s) => Some(s.as_str()),
        None => None,
    }
}

/// A copy of a security policy.
pub fn clone_policy(p: &SecurityPolicy) -> (r: SecurityPolicy)
    ensures
        r@ == p@,
{
    SecurityPolicy {
        filesystem_roots: clone_strings(&p.filesystem_roots),
        artifact_dir: clone_opt_string(&p.artifact_dir),
        enable_filesystem_mutation: p.enable_filesystem_mutation,
        enable_clipboard_write: p.enable_clipboard_write,
        enable_registry_mutation: p.enable_registry_mutation,
        allow_private_network: p.allow_private_network,
        memory_mutation_enabled: p.memory_mutation_enabled,
        macro_execution_enabled: p.macro_execution_enabled,
        macro_destructive_tools_allowed: p.macro_destructive_tools_allowed,
        max_macro_runtime_ms: p.max_macro_runtime_ms,
        max_macro_steps: p.max_macro_steps,
        screenshot_retention_count: p.screenshot_retention_count,
        embedding_model_path: clone_opt_string(&p.embedding_model_path),
        embedding_dimension: p.embedding_dimension,
        tool_allowlist: clone_strings(&p.tool_allowlist),
        tool_denylist: clone_strings(&p.tool_denylist),
    }
}

/// A process the server launched and keeps track of.
#[derive(Debug, Clone, PartialEq)]
pub struct TrackedProcess {
    pub launch_id: String,
    pub pid: u32,
    pub exe: String,
    pub executable_path: Option<String>,
    pub process_name: Option<String>,
    pub args: Vec<String>,
    pub cwd: Option<String>,
    pub launch_time_unix_ms: u64,
    pub command_line: String,
}

// ---------------------------------------------------------------------------
// The config file
// ---------------------------------------------------------------------------

/// The `[transport]` section.
#[derive(Debug, Clone, Default, PartialEq)]
pub struct TransportFileConfig {
    pub mode: Option<String>,
    pub listen: Option<String>,
}

/// The `[auth]` section.
#[derive(Debug, Clone, Default, PartialEq)]
pub struct AuthFileConfig {
    pub token: Option<String>,
}

/// The `[logging]` section.
#[derive(Debug, Clone, Default, PartialEq)]
pub struct LoggingFileConfig {
    pub log_file: Option<String>,
}

/// The `[paths]` section.
#[derive(Debug, Clone, Default, PartialEq)]
pub struct PathsFileConfig {
    pub capture_dir: Option<String>,
    pub artifact_dir: Option<String>,
    pub filesystem_roots: Option<Vec<String>>,
    pub memory_db: Option<String>,
}

/// The `[policy]` section.
#[derive(Debug, Clone, Default, PartialEq)]
pub struct PolicyFileConfig {
    pub enable_filesystem_mutation: Option<bool>,
    pub enable_clipboard_write: Option<bool>,
    pub enable_registry_mutation: Option<bool>,
    pub allow_private_network: Option<bool>,
    pub memory_mutation_enabled: Option<bool>,
    pub macro_execution_enabled: Option<bool>,
    pub macro_destructive_tools_allowed: Option<bool>,
    pub max_macro_runtime_ms: Option<u64>,
    pub max_macro_steps: Option<usize>,
    pub screenshot_retention_count: Option<usize>,
    pub tool_allowlist: Option<Vec<String>>,
    pub tool_denylist: Option<Vec<String>>,
}

/// The `[embedding]` section.
#[derive(Debug, Clone, Default, PartialEq)]
pub struct EmbeddingFileConfig {
    pub model_path: Option<String>,
    pub dimension: Option<usize>,
}

/// The `[macro_execution]` section.
#[derive(Debug, Clone, Default, PartialEq)]
pub struct MacroExecutionFileConfig {
    pub enabled: Option<bool>,
    pub allow_destructive_tools: Option<bool>,
    pub max_runtime_ms: Option<u64>,
    pub max_steps: Option<usize>,
}

/// The server's TOML config file; every section is optional.
#[derive(Debug, Clone, Default, PartialEq)]
pub struct WinctlConfigFile {
    pub transport: Option<TransportFileConfig>,
    pub auth: Option<AuthFileConfig>,
    pub logging: Option<LoggingFileConfig>,
    pub paths: Option<PathsFileConfig>,
    pub policy: Option<PolicyFileConfig>,
    pub embedding: Option<EmbeddingFileConfig>,
    pub macro_execution: Option<MacroExecutionFileConfig>,
}

/// How the server talks to its client.
#[derive(Debug, Clone, Copy, PartialEq, Eq, Structural)]
pub enum TransportMode {
    Stdio,
    Http,
}

/// The transport a name selects, if it is `stdio` or `http`.
pub open spec fn transport_named(value: Seq<char>) -> Option<TransportMode> {
    if value == "stdio"@ {
        Some(TransportMode::Stdio)
    } else if value == "http"@ {
        Some(TransportMode::Http)
    } else {
        None
    }
}

/// Exactly two transports are known, `stdio` and `http`, by those exact names.
pub proof fn lemma_transport_names(value: Seq<char>)
    ensures
        transport_named(value) is Some <==> value == "stdio"@ || value == "http"@,
        value == "stdio"@ ==> transport_named(value) == Some(TransportMode::Stdio),
        value == "http"@ ==> transport_named(value) == Some(TransportMode::Http),
{
    reveal_strlit("stdio");
    reveal_strlit("http");
    assert("stdio"@.len() != "http"@.len());
}

/// Why a configuration or command line was refused.
#[derive(Debug, Clone, PartialEq, Eq)]
pub enum ConfigError {
    /// A transport other than `stdio` or `http`; holds the name given.
    UnsupportedTransport(String),
    /// A `[transport].listen` that is not a socket address; holds it as written.
    InvalidListen(String),
}

impl ConfigError {
    /// The message the server reports.
    pub fn message(&self) -> (r: String)
        ensures
            match self {
                ConfigError::UnsupportedTransport(name) => r@ == "unsupported transport "@ + name@
                    + "; expected stdio or http"@,
                ConfigError::InvalidListen(listen) => r@ == "invalid configured listen address "@ + listen@,
            },
    {
        match self {
            ConfigError::UnsupportedTransport(name) => crate::text::concat3(
                "unsupported transport ",
                name.as_str(),
                "; expected stdio or http",
            ),
            ConfigError::InvalidListen(listen) => crate::text::concat2(
                "invalid configured listen address ",
                listen.as_str(),
            ),
        }
    }
}

/// Parses a transport name: `stdio` or `http`.
pub fn parse_transport_str(value: &str) -> (r: Result<TransportMode, ConfigError>)
    ensures
        match transport_named(value@) {
            Some(mode) => r == Ok::<TransportMode, ConfigError>(mode),
            None => r matches Err(ConfigError::UnsupportedTransport(name)) && name@ == value@,
        },
{
    if str_eq(value, "stdio") {
        Ok(TransportMode::Stdio)
    } else if str_eq(value, "http") {
        Ok(TransportMode::Http)
    } else {
        Err(ConfigError::UnsupportedTransport(owned(value)))
    }
}

/// The address the HTTP transport listens on unless told otherwise.
pub const DEFAULT_HTTP_LISTEN: &'static str = "127.0.0.1:8765";

/// How to serve: the transport, where HTTP listens (as written, to be parsed as
/// a socket address by the caller), the token, the capture and memory paths,
/// the policy, and the config file it was read from.
#[derive(Debug, Clone, PartialEq)]
pub struct ServeConfig {
    pub transport: TransportMode,
    pub listen: String,
    pub auth_token: Option<String>,
    pub capture_dir: Option<String>,
    pub memory_db_path: Option<String>,
    pub policy: SecurityPolicy,
    pub config_file: Option<String>,
}

/// The view of a serve configuration.
pub struct ServeView {
    pub transport: TransportMode,
    pub listen: Seq<char>,
    pub auth_token: Option<Seq<char>>,
    pub capture_dir: Option<Seq<char>>,
    pub memory_db_path: Option<Seq<char>>,
    pub policy: PolicyView,
    pub config_file: Option<Seq<char>>,
}

impl View for ServeConfig {
    type V = ServeView;

    open spec fn view(&self) -> ServeView {
        ServeView {
            transport: self.transport,
            listen: self.listen@,
            auth_token: sv(self.auth_token),
            capture_dir: sv(self.capture_dir),
            memory_db_path: sv(self.memory_db_path),
            policy: self.policy@,
            config_file: sv(self.config_file),
        }
    }
}

/// `o`'s value if it has one, else `d`.
pub open spec fn or_keep<T>(o: Option<T>, d: T) -> T {
    match o {
        Some(v) => v,
        None => d,
    }
}

/// `o`'s value if it has one, else `d`.
pub open spec fn or_keep_some<T>(o: Option<T>, d: Option<T>) -> Option<T> {
    match o {
        Some(v) => Some(v),
        None => d,
    }
}

/// The view of an optional list of strings.
pub open spec fn strs_opt(o: Option<Vec<String>>) -> Option<Seq<Seq<char>>> {
    match o {
        Some(v) => Some(strs_view(v@)),
        None => None,
    }
}

/// The policy with a `[paths]` section applied.
pub open spec fn policy_with_paths(p: PolicyView, paths: PathsFileConfig) -> PolicyView {
    PolicyView {
        artifact_dir: or_keep_some(sv(paths.artifact_dir), p.artifact_dir),
        filesystem_roots: or_keep(strs_opt(paths.filesystem_roots), p.filesystem_roots),
        ..p
    }
}

/// The policy with the switches of a `[policy]` section applied.
pub open spec fn policy_with_switches(p: PolicyView, q: PolicyFileConfig) -> PolicyView {
    PolicyView {
        enable_filesystem_mutation: or_keep(q.enable_filesystem_mutation, p.enable_filesystem_mutation),
        enable_clipboard_write: or_keep(q.enable_clipboard_write, p.enable_clipboard_write),
        enable_registry_mutation: or_keep(q.enable_registry_mutation, p.enable_registry_mutation),
        allow_private_network: or_keep(q.allow_private_network, p.allow_private_network),
        memory_mutation_enabled: or_keep(q.memory_mutation_enabled, p.memory_mutation_enabled),
        macro_execution_enabled: or_keep(q.macro_execution_enabled, p.macro_execution_enabled),
        macro_destructive_tools_allowed: or_keep(q.macro_destructive_tools_allowed, p.macro_destructive_tools_allowed),
        ..p
    }
}

/// The policy with the limits and tool lists of a `[policy]` section applied.
pub open spec fn policy_with_limits(p: PolicyView, q: PolicyFileConfig) -> PolicyView {
    PolicyView {
        max_macro_runtime_ms: or_keep_some(q.max_macro_runtime_ms, p.max_macro_runtime_ms),
        max_macro_steps: or_keep_some(q.max_macro_steps, p.max_macro_steps),
        screenshot_retention_count: or_keep_some(q.screenshot_retention_count, p.screenshot_retention_count),
        tool_allowlist: or_keep(strs_opt(q.tool_allowlist), p.tool_allowlist),
        tool_denylist: or_keep(strs_opt(q.tool_denylist), p.tool_denylist),
        ..p
    }
}

/// The policy with a `[policy]` section applied.
pub open spec fn policy_with_section(p: PolicyView, q: PolicyFileConfig) -> PolicyView {
    policy_with_limits(policy_with_switches(p, q), q)
}

/// The policy with an `[embedding]` section applied.
pub open spec fn policy_with_embedding(p: PolicyView, e: EmbeddingFileConfig) -> PolicyView {
    PolicyView {
        embedding_model_path: or_keep_some(sv(e.model_path), p.embedding_model_path),
        embedding_dimension: or_keep_some(e.dimension, p.embedding_dimension),
        ..p
    }
}

/// The policy with a `[macro_execution]` section applied.
pub open spec fn policy_with_macros(p: PolicyView, m: MacroExecutionFileConfig) -> PolicyView {
    PolicyView {
        macro_execution_enabled: or_keep(m.enabled, p.macro_execution_enabled),
        macro_destructive_tools_allowed: or_keep(m.allow_destructive_tools, p.macro_destructive_tools_allowed),
        max_macro_runtime_ms: or_keep_some(m.max_runtime_ms, p.max_macro_runtime_ms),
        max_macro_steps: or_keep_some(m.max_steps, p.max_macro_steps),
        ..p
    }
}

/// The policy after the `[paths]`, `[policy]`, `[embedding]` and
/// `[macro_execution]` sections of `f` are applied to `p`, in that order: each
/// setting the file gives replaces the one before.
pub open spec fn policy_from_file(p: PolicyView, f: WinctlConfigFile) -> PolicyView {
    let p1 = match f.paths {
        Some(paths) => policy_with_paths(p, paths),
        None => p,
    };
    let p2 = match f.policy {
        Some(q) => policy_with_section(p1, q),
        None => p1,
    };
    let p3 = match f.embedding {
        Some(e) => policy_with_embedding(p2, e),
        None => p2,
    };
    match f.macro_execution {
        Some(m) => policy_with_macros(p3, m),
        None => p3,
    }
}

fn apply_paths_section(p: SecurityPolicy, paths: &PathsFileConfig) -> (r: SecurityPolicy)
    ensures
        r@ == policy_with_paths(p@, *paths),
{
    SecurityPolicy {
        artifact_dir: match &paths.artifact_dir {
            Some(path) => Some(path.clone()),
            None => p.artifact_dir,
        },
        filesystem_roots: match &paths.filesystem_roots {
            Some(roots) => clone_strings(roots),
            None => p.filesystem_roots,
        },
        ..p
    }
}

fn keep_or<T: Copy>(o: Option<T>, d: T) -> (r: T)
    ensures
        r == or_keep(o, d),
{
    match o {
        Some(v) => v,
        None => d,
    }
}

fn keep_or_some<T: Copy>(o: Option<T>, d: Option<T>) -> (r: Option<T>)
    ensures
        r == or_keep_some(o, d),
{
    match o {
        Some(v) => Some(v),
        None => d,
    }
}

fn apply_policy_switches(p: SecurityPolicy, q: &PolicyFileConfig) -> (r: SecurityPolicy)
    ensures
        r@ == policy_with_switches(p@, *q),
{
    SecurityPolicy {
        enable_filesystem_mutation: keep_or(q.enable_filesystem_mutation, p.enable_filesystem_mutation),
        enable_clipboard_write: keep_or(q.enable_clipboard_write, p.enable_clipboard_write),
        enable_registry_mutation: keep_or(q.enable_registry_mutation, p.enable_registry_mutation),
        allow_private_network: keep_or(q.allow_private_network, p.allow_private_network),
        memory_mutation_enabled: keep_or(q.memory_mutation_enabled, p.memory_mutation_enabled),
        macro_execution_enabled: keep_or(q.macro_execution_enabled, p.macro_execution_enabled),
        macro_destructive_tools_allowed: keep_or(q.macro_destructive_tools_allowed, p.macro_destructive_tools_allowed),
        ..p
    }
}

fn apply_policy_limits(p: SecurityPolicy, q: &PolicyFileConfig) -> (r: SecurityPolicy)
    ensures
        r@ == policy_with_limits(p@, *q),
{
    SecurityPolicy {
        max_macro_runtime_ms: keep_or_some(q.max_macro_runtime_ms, p.max_macro_runtime_ms),
        max_macro_steps: keep_or_some(q.max_macro_steps, p.max_macro_steps),
        screenshot_retention_count: keep_or_some(q.screenshot_retention_count, p.screenshot_retention_count),
        tool_allowlist: match &q.tool_allowlist {
            Some(v) => clone_strings(v),
            None => p.tool_allowlist,
        },
        tool_denylist: match &q.tool_denylist {
            Some(v) => clone_strings(v),
            None => p.tool_denylist,
        },
        ..p
    }
}

fn apply_policy_section(p: SecurityPolicy, q: &PolicyFileConfig) -> (r: SecurityPolicy)
    ensures
        r@ == policy_with_section(p@, *q),
{
    apply_policy_limits(apply_policy_switches(p, q), q)
}

fn apply_embedding_section(p: SecurityPolicy, e: &EmbeddingFileConfig) -> (r: SecurityPolicy)
    ensures
        r@ == policy_with_embedding(p@, *e),
{
    SecurityPolicy {
        embedding_model_path: match &e.model_path {
            Some(path) => Some(path.clone()),
            None => p.embedding_model_path,
        },
        embedding_dimension: keep_or_some(e.dimension, p.embedding_dimension),
        ..p
    }
}

fn apply_macro_section(p: SecurityPolicy, m: &MacroExecutionFileConfig) -> (r: SecurityPolicy)
    ensures
        r@ == policy_with_macros(p@, *m),
{
    SecurityPolicy {
        macro_execution_enabled: keep_or(m.enabled, p.macro_execution_enabled),
        macro_destructive_tools_allowed: keep_or(m.allow_destructive_tools, p.macro_destructive_tools_allowed),
        max_macro_runtime_ms: keep_or_some(m.max_runtime_ms, p.max_macro_runtime_ms),
        max_macro_steps: keep_or_some(m.max_steps, p.max_macro_steps),
        ..p
    }
}

/// A policy with the sections of a config file applied.
fn apply_policy_sections(p: SecurityPolicy, file: &WinctlConfigFile) -> (r: SecurityPolicy)
    ensures
        r@ == policy_from_file(p@, *file),
{
    let p1 = match &file.paths {
        Some(paths) => apply_paths_section(p, paths),
        None => p,
    };
    let p2 = match &file.policy {
        Some(q) => apply_policy_section(p1, q),
        None => p1,
    };
    let p3 = match &file.embedding {
        Some(e) => apply_embedding_section(p2, e),
        None => p2,
    };
    match &file.macro_execution {
        Some(m) => apply_macro_section(p3, m),
        None => p3,
    }
}

/// The transport name the file gives, if any.
pub open spec fn file_transport_mode(f: WinctlConfigFile) -> Option<Seq<char>> {
    match f.transport {
        Some(t) => sv(t.mode),
        None => None,
    }
}

/// The listen address the file gives, if any.
pub open spec fn file_listen(f: WinctlConfigFile) -> Option<Seq<char>> {
    match f.transport {
        Some(t) => sv(t.listen),
        None => None,
    }
}

/// The serve configuration `base` with the settings of `f` applied (when the
/// transport the file names, if any, is a known one).
pub open spec fn serve_from_file(base: ServeView, f: WinctlConfigFile) -> ServeView {
    let (mode, listen) = match f.transport {
        Some(t) => (sv(t.mode), sv(t.listen)),
        None => (None, None),
    };
    let paths = match f.paths {
        Some(p) => (sv(p.capture_dir), sv(p.memory_db)),
        None => (None, None),
    };
    ServeView {
        transport: match mode {
            Some(m) => or_keep(transport_named(m), base.transport),
            None => base.transport,
        },
        listen: or_keep(listen, base.listen),
        auth_token: match f.auth {
            Some(a) => or_keep_some(sv(a.token), base.auth_token),
            None => base.auth_token,
        },
        capture_dir: or_keep_some(paths.0, base.capture_dir),
        memory_db_path: or_keep_some(paths.1, base.memory_db_path),
        policy: policy_from_file(base.policy, f),
        config_file: base.config_file,
    }
}

impl ServeConfig {
    /// The standard-I/O configuration: HTTP would listen on `DEFAULT_HTTP_LISTEN`,
    /// no token, no capture directory, the memory database and policy given
    /// (from the environment), no config file.
    pub fn stdio(memory_db_path: Option<String>, policy: SecurityPolicy) -> (r: ServeConfig)
        ensures
            r@ == (ServeView {
                transport: TransportMode::Stdio,
                listen: DEFAULT_HTTP_LISTEN@,
                auth_token: None,
                capture_dir: None,
                memory_db_path: sv(memory_db_path),
                policy: policy@,
                config_file: None,
            }),
    {
        ServeConfig {
            transport: TransportMode::Stdio,
            listen: owned(DEFAULT_HTTP_LISTEN),
            auth_token: None,
            capture_dir: None,
            memory_db_path,
            policy,
            config_file: None,
        }
    }

    /// `base` with the settings of a config file applied. Fails when the file
    /// names a transport other than `stdio` or `http`, and else when it gives a
    /// listen address that is not a socket address: `listen_parses` is whether
    /// the file's listen address, if it gives one, parses as one.
    pub fn from_file(file: &WinctlConfigFile, base: &ServeConfig, listen_parses: bool) -> (r: Result<ServeConfig, ConfigError>)
        ensures
            match file_transport_mode(*file) {
                Some(m) if transport_named(m) is None => r matches Err(ConfigError::UnsupportedTransport(name))
                    && name@ == m,
                _ => match file_listen(*file) {
                    Some(l) if !listen_parses => r matches Err(ConfigError::InvalidListen(given)) && given@ == l,
                    _ => r matches Ok(c) && c@ == serve_from_file(base@, *file),
                },
            },
    {
        let mut transport = base.transport;
        let mut listen = base.listen.clone();
        if let Some(t) = &file.transport {
            if let Some(mode) = &t.mode {
                match parse_transport_str(mode.as_str()) {
                    Ok(m) => {
                        transport = m;
                    },
                    Err(e) => {
                        return Err(e);
                    },
                }
            }
            if let Some(l) = &t.listen {
                if !listen_parses {
                    return Err(ConfigError::InvalidListen(l.clone()));
                }
                listen = l.clone();
            }
        }
        let auth_token = match &file.auth {
            Some(a) => match &a.token {
                Some(token) => Some(token.clone()),
                None => clone_opt_string(&base.auth_token),
            },
            None => clone_opt_string(&base.auth_token),
        };
        let (capture_dir, memory_db_path) = match &file.paths {
            Some(p) => (
                match &p.capture_dir {
                    Some(d) => Some(d.clone()),
                    None => clone_opt_string(&base.capture_dir),
                },
                match &p.memory_db {
                    Some(d) => Some(d.clone()),
                    None => clone_opt_string(&base.memory_db_path),
                },
            ),
            None => (clone_opt_string(&base.capture_dir), clone_opt_string(&base.memory_db_path)),
        };
        let policy = apply_policy_sections(clone_policy(&base.policy), file);
        Ok(ServeConfig {
            transport,
            listen,
            auth_token,
            capture_dir,
            memory_db_path,
            policy,
            config_file: clone_opt_string(&base.config_file),
        })
    }
}

/// Each setting a config file gives is the one served: the transport it names
/// (when known), its listen address and token, its capture, memory, artifact
/// and filesystem paths, each `[policy]` switch, limit and tool list (the macro
/// ones unless `[macro_execution]` gives its own), and the embedding model and
/// dimension; and the config file served from stays the base's.
pub proof fn lemma_config_file_settings_apply(base: ServeView, f: WinctlConfigFile)
    ensures
        ({
            let r = serve_from_file(base, f);
            let tr = f.transport->Some_0;
            let pa = f.paths->Some_0;
            let po = f.policy->Some_0;
            let em = f.embedding->Some_0;
            let mx = f.macro_execution->Some_0;
            let no_macro_override = |g: bool| f.macro_execution is None || !g;
            &&& (f.transport is Some && tr.mode is Some && transport_named(tr.mode->Some_0@) is Some)
                ==> r.transport == transport_named(tr.mode->Some_0@)->Some_0
            &&& (f.transport is Some && tr.listen is Some) ==> r.listen == tr.listen->Some_0@
            &&& (f.auth is Some && f.auth->Some_0.token is Some) ==> r.auth_token == sv(f.auth->Some_0.token)
            &&& (f.paths is Some && pa.capture_dir is Some) ==> r.capture_dir == sv(pa.capture_dir)
            &&& (f.paths is Some && pa.memory_db is Some) ==> r.memory_db_path == sv(pa.memory_db)
            &&& (f.paths is Some && pa.artifact_dir is Some) ==> r.policy.artifact_dir == sv(pa.artifact_dir)
            &&& (f.paths is Some && pa.filesystem_roots is Some) ==> r.policy.filesystem_roots == strs_view(
                pa.filesystem_roots->Some_0@,
            )
            &&& (f.policy is Some && po.enable_filesystem_mutation is Some) ==> r.policy.enable_filesystem_mutation
                == po.enable_filesystem_mutation->Some_0
            &&& (f.policy is Some && po.enable_clipboard_write is Some) ==> r.policy.enable_clipboard_write
                == po.enable_clipboard_write->Some_0
            &&& (f.policy is Some && po.enable_registry_mutation is Some) ==> r.policy.enable_registry_mutation
                == po.enable_registry_mutation->Some_0
            &&& (f.policy is Some && po.allow_private_network is Some) ==> r.policy.allow_private_network
                == po.allow_private_network->Some_0
            &&& (f.policy is Some && po.memory_mutation_enabled is Some) ==> r.policy.memory_mutation_enabled
                == po.memory_mutation_enabled->Some_0
            &&& (f.policy is Some && po.macro_execution_enabled is Some && no_macro_override(mx.enabled is Some))
                ==> r.policy.macro_execution_enabled == po.macro_execution_enabled->Some_0
            &&& (f.policy is Some && po.macro_destructive_tools_allowed is Some && no_macro_override(
                mx.allow_destructive_tools is Some,
            )) ==> r.policy.macro_destructive_tools_allowed == po.macro_destructive_tools_allowed->Some_0
            &&& (f.policy is Some && po.max_macro_runtime_ms is Some && no_macro_override(mx.max_runtime_ms is Some))
                ==> r.policy.max_macro_runtime_ms == po.max_macro_runtime_ms
            &&& (f.policy is Some && po.max_macro_steps is Some && no_macro_override(mx.max_steps is Some))
                ==> r.policy.max_macro_steps == po.max_macro_steps
            &&& (f.policy is Some && po.screenshot_retention_count is Some) ==> r.policy.screenshot_retention_count
                == po.screenshot_retention_count
            &&& (f.policy is Some && po.tool_allowlist is Some) ==> r.policy.tool_allowlist == strs_view(
                po.tool_allowlist->Some_0@,
            )
            &&& (f.policy is Some && po.tool_denylist is Some) ==> r.policy.tool_denylist == strs_view(
                po.tool_denylist->Some_0@,
            )
            &&& (f.embedding is Some && em.model_path is Some) ==> r.policy.embedding_model_path == sv(em.model_path)
            &&& (f.embedding is Some && em.dimension is Some) ==> r.policy.embedding_dimension == em.dimension
            &&& r.config_file == base.config_file
        }),
{
}

/// A config file without sections changes nothing, and `[macro_execution]`
/// settings win over the `[policy]` ones for macro execution, destructive
/// tools, the runtime limit and the step limit.
pub proof fn lemma_config_file_rules(base: ServeView, f: WinctlConfigFile)
    ensures
        (f.transport is None && f.auth is None && f.paths is None && f.policy is None && f.embedding is None
            && f.macro_execution is None) ==> serve_from_file(base, f) == base,
        f.macro_execution matches Some(m) ==> ({
            let p = serve_from_file(base, f).policy;
            &&& (m.enabled matches Some(e) ==> p.macro_execution_enabled == e)
            &&& (m.allow_destructive_tools matches Some(d) ==> p.macro_destructive_tools_allowed == d)
            &&& (m.max_runtime_ms matches Some(t) ==> p.max_macro_runtime_ms == Some(t))
            &&& (m.max_steps matches Some(n) ==> p.max_macro_steps == Some(n))
        }),
{
}

// ---------------------------------------------------------------------------
// The dashboard's config editor
// ---------------------------------------------------------------------------

/// The sections of the config file the dashboard may edit.
#[derive(Debug, Clone, Default, PartialEq)]
pub struct ConfigSaveBody {
    pub policy: Option<PolicyFileConfig>,
    pub paths: Option<PathsFileConfig>,
    pub logging: Option<LoggingFileConfig>,
    pub embedding: Option<EmbeddingFileConfig>,
    pub macro_execution: Option<MacroExecutionFileConfig>,
}

/// A problem with one field of an edited config file.
#[derive(Debug, Clone, PartialEq)]
pub struct FieldError {
    pub field: String,
    pub message: String,
}

/// The config file with each editable section the edits give replaced as a
/// whole; `[transport]` and `[auth]`, and every section the edits leave out, stay.
pub fn merge_editable(existing: WinctlConfigFile, edits: ConfigSaveBody) -> (r: WinctlConfigFile)
    ensures
        r == (WinctlConfigFile {
            transport: existing.transport,
            auth: existing.auth,
            logging: if edits.logging is Some { edits.logging } else { existing.logging },
            paths: if edits.paths is Some { edits.paths } else { existing.paths },
            policy: if edits.policy is Some { edits.policy } else { existing.policy },
            embedding: if edits.embedding is Some { edits.embedding } else { existing.embedding },
            macro_execution: if edits.macro_execution is Some { edits.macro_execution } else { existing.macro_execution },
        }),
{
    WinctlConfigFile {
        transport: existing.transport,
        auth: existing.auth,
        logging: if edits.logging.is_some() { edits.logging } else { existing.logging },
        paths: if edits.paths.is_some() { edits.paths } else { existing.paths },
        policy: if edits.policy.is_some() { edits.policy } else { existing.policy },
        embedding: if edits.embedding.is_some() { edits.embedding } else { existing.embedding },
        macro_execution: if edits.macro_execution.is_some() { edits.macro_execution } else { existing.macro_execution },
    }
}

/// The message for an empty filesystem root.
pub open spec fn empty_root_message() -> Seq<char> {
    "filesystem root must not be empty"@
}

/// The errors for the empty filesystem roots, in order: field
/// `paths.filesystem_roots[<index>]`.
pub open spec fn empty_root_errors(roots: Seq<Seq<char>>) -> Seq<(Seq<char>, Seq<char>)>
    decreases roots.len(),
{
    if roots.len() == 0 {
        Seq::empty()
    } else {
        let prev = empty_root_errors(roots.drop_last());
        if roots.last().len() == 0 {
            prev.push(
                (
                    "paths.filesystem_roots["@ + spec_decimal((roots.len() - 1) as nat) + "]"@,
                    empty_root_message(),
                ),
            )
        } else {
            prev
        }
    }
}

/// The problems with an edited config file, as (field, message) pairs, in
/// order: a zero embedding dimension, each empty filesystem root, and the file
/// not giving a valid serve configuration (`listen_error` being what parsing its
/// listen address as a socket address reported, if it failed).
pub open spec fn editable_errors(file: WinctlConfigFile, listen_error: Option<Seq<char>>) -> Seq<(Seq<char>, Seq<char>)> {
    let dimension = match file.embedding {
        Some(e) => if e.dimension == Some(0usize) {
            seq![("embedding.dimension"@, "embedding dimension must be greater than zero"@)]
        } else {
            Seq::empty()
        },
        None => Seq::empty(),
    };
    let roots = match file.paths {
        Some(p) => match p.filesystem_roots {
            Some(r) => empty_root_errors(strs_view(r@)),
            None => Seq::empty(),
        },
        None => Seq::empty(),
    };
    let whole = match file_transport_mode(file) {
        Some(m) if transport_named(m) is None => seq![
            ("config"@, "unsupported transport "@ + m + "; expected stdio or http"@),
        ],
        _ => match (file_listen(file), listen_error) {
            (Some(l), Some(e)) => seq![("config"@, "invalid configured listen address "@ + l + ": "@ + e)],
            _ => Seq::empty(),
        },
    };
    dimension + roots + whole
}

/// The views of field errors.
pub open spec fn field_errors_view(v: Seq<FieldError>) -> Seq<(Seq<char>, Seq<char>)> {
    v.map_values(|e: FieldError| (e.field@, e.message@))
}

fn push_error(errors: &mut Vec<FieldError>, field: String, message: String)
    ensures
        field_errors_view(final(errors)@) == field_errors_view(old(errors)@).push((field@, message@)),
{
    let ghost before = errors@;
    errors.push(FieldError { field, message });
    assert(field_errors_view(errors@) =~= field_errors_view(before).push((field@, message@)));
}

/// Checks an edited config file. `base` is the serve configuration the file
/// would be applied to, and `listen_error` what parsing the file's listen
/// address as a socket address reported, if it failed. No errors means the
/// file may be saved.
pub fn validate_editable(file: &WinctlConfigFile, base: &ServeConfig, listen_error: Option<String>) -> (r: Vec<FieldError>)
    ensures
        field_errors_view(r@) == editable_errors(*file, sv(listen_error)),
{
    let mut errors: Vec<FieldError> = Vec::new();
    if let Some(embedding) = &file.embedding {
        if embedding.dimension == Some(0usize) {
            push_error(
                &mut errors,
                owned("embedding.dimension"),
                owned("embedding dimension must be greater than zero"),
            );
        }
    }
    let ghost after_dimension = field_errors_view(errors@);
    if let Some(paths) = &file.paths {
        if let Some(roots) = &paths.filesystem_roots {
            let ghost rv = strs_view(roots@);
            let mut idx: usize = 0;
            while idx < roots.len()
                invariant
                    rv == strs_view(roots@),
                    idx <= roots@.len(),
                    field_errors_view(errors@) == after_dimension + empty_root_errors(rv.take(idx as int)),
                decreases roots.len() - idx,
            {
                assert(rv.take(idx + 1).drop_last() =~= rv.take(idx as int));
                assert(rv.take(idx + 1).last() == roots@[idx as int]@);
                if roots[idx].as_str().is_empty() {
                    let mut field = owned("paths.filesystem_roots[");
                    crate::text::push_decimal(&mut field, idx as u64);
                    crate::text::push_str(&mut field, "]");
                    push_error(&mut errors, field, owned("filesystem root must not be empty"));
                }
                assert(field_errors_view(errors@) =~= after_dimension + empty_root_errors(rv.take(idx + 1)));
                idx += 1;
            }
            assert(rv.take(roots@.len() as int) =~= rv);
        }
    }
    let ghost after_roots = field_errors_view(errors@);
    match ServeConfig::from_file(file, base, listen_error.is_none()) {
        Err(error) => {
            let message = match (&error, &listen_error) {
                (ConfigError::InvalidListen(_), Some(detail)) => crate::text::concat3(
                    error.message().as_str(),
                    ": ",
                    detail.as_str(),
                ),
                _ => error.message(),
            };
            push_error(&mut errors, owned("config"), message);
        },
        Ok(_) => {},
    }
    proof {
        let e = editable_errors(*file, sv(listen_error));
        assert(field_errors_view(errors@) =~= e);
    }
    errors
}

/// The editable sections as they follow from the running policy, for showing
/// when the server has no config file. The two macro switches appear both in
/// `[policy]` and in `[macro_execution]`, as the file carries them.
pub fn sections_from_policy(policy: &SecurityPolicy, capture_dir: &str) -> (r: (
    PolicyFileConfig,
    PathsFileConfig,
    EmbeddingFileConfig,
    MacroExecutionFileConfig,
))
    ensures
        r.0.enable_filesystem_mutation == Some(policy.enable_filesystem_mutation),
        r.0.enable_clipboard_write == Some(policy.enable_clipboard_write),
        r.0.enable_registry_mutation == Some(policy.enable_registry_mutation),
        r.0.allow_private_network == Some(policy.allow_private_network),
        r.0.memory_mutation_enabled == Some(policy.memory_mutation_enabled),
        r.0.macro_execution_enabled == Some(policy.macro_execution_enabled),
        r.0.macro_destructive_tools_allowed == Some(policy.macro_destructive_tools_allowed),
        r.0.max_macro_runtime_ms == policy.max_macro_runtime_ms,
        r.0.max_macro_steps == policy.max_macro_steps,
        r.0.screenshot_retention_count == policy.screenshot_retention_count,
        strs_opt(r.0.tool_allowlist) == Some(policy@.tool_allowlist),
        strs_opt(r.0.tool_denylist) == Some(policy@.tool_denylist),
        sv(r.1.capture_dir) == Some(capture_dir@),
        sv(r.1.artifact_dir) == policy@.artifact_dir,
        strs_opt(r.1.filesystem_roots) == Some(policy@.filesystem_roots),
        r.1.memory_db is None,
        sv(r.2.model_path) == policy@.embedding_model_path,
        r.2.dimension == policy.embedding_dimension,
        r.3.enabled == Some(policy.macro_execution_enabled),
        r.3.allow_destructive_tools == Some(policy.macro_destructive_tools_allowed),
        r.3.max_runtime_ms == policy.max_macro_runtime_ms,
        r.3.max_steps == policy.max_macro_steps,
{
    let policy_section = PolicyFileConfig {
        enable_filesystem_mutation: Some(policy.enable_filesystem_mutation),
        enable_clipboard_write: Some(policy.enable_clipboard_write),
        enable_registry_mutation: Some(policy.enable_registry_mutation),
        allow_private_network: Some(policy.allow_private_network),
        memory_mutation_enabled: Some(policy.memory_mutation_enabled),
        macro_execution_enabled: Some(policy.macro_execution_enabled),
        macro_destructive_tools_allowed: Some(policy.macro_destructive_tools_allowed),
        max_macro_runtime_ms: policy.max_macro_runtime_ms,
        max_macro_steps: policy.max_macro_steps,
        screenshot_retention_count: policy.screenshot_retention_count,
        tool_allowlist: Some(clone_strings(&policy.tool_allowlist)),
        tool_denylist: Some(clone_strings(&policy.tool_denylist)),
    };
    let paths_section = PathsFileConfig {
        capture_dir: Some(owned(capture_dir)),
        artifact_dir: clone_opt_string(&policy.artifact_dir),
        filesystem_roots: Some(clone_strings(&policy.filesystem_roots)),
        memory_db: None,
    };
    let embedding_section = EmbeddingFileConfig {
        model_path: clone_opt_string(&policy.embedding_model_path),
        dimension: policy.embedding_dimension,
    };
    let macro_section = MacroExecutionFileConfig {
        enabled: Some(policy.macro_execution_enabled),
        allow_destructive_tools: Some(policy.macro_destructive_tools_allowed),
        max_runtime_ms: policy.max_macro_runtime_ms,
        max_steps: policy.max_macro_steps,
    };
    (policy_section, paths_section, embedding_section, macro_section)
}

// ---------------------------------------------------------------------------
// The command line
// ---------------------------------------------------------------------------

/// The self-tests the server can run instead of serving.
#[derive(Debug, Clone, Copy, PartialEq, Eq, Structural)]
pub enum SelfTestCommand {
    Basic,
    WindowsList,
}

/// What the command line asks for.
#[derive(Debug, Clone, PartialEq)]
pub enum Command {
    Serve(ServeConfig),
    SelfTest(SelfTestCommand),
}

/// A parsed command line.
#[derive(Debug, Clone, PartialEq)]
pub struct Cli {
    pub command: Command,
    pub log_file: Option<String>,
    pub config_file: Option<String>,
}

/// A config file the caller has read and parsed, with the path it came from
/// and whether its `[transport].listen`, if it gives one, parses as a socket
/// address.
#[derive(Debug, Clone, PartialEq)]
pub struct LoadedConfig {
    pub path: String,
    pub file: WinctlConfigFile,
    pub listen_parses: bool,
}

/// What parsing a command line comes to: the command line, or the config file
/// that must be read before it can be parsed (parse again with it loaded).
#[derive(Debug, Clone, PartialEq)]
pub enum CliParse {
    Done(Cli),
    LoadConfig(String),
}

/// Why a command line was refused.
#[derive(Debug, Clone, PartialEq, Eq)]
pub enum CliError {
    LogFileRequiresPath,
    ConfigRequiresPath,
    OnlyOneCommand,
    SelfTestRequiresCommand,
    UnsupportedSelfTest(String),
    UnknownArgument(String),
    TransportRequiresValue,
    ListenRequiresAddress,
    /// A `--listen` value that is not a socket address.
    InvalidListen(String),
    AuthTokenRequiresValue,
    CaptureDirRequiresPath,
    UnknownServeArgument(String),
    Config(ConfigError),
}

/// The view of a command-line error.
pub enum CliErrorView {
    LogFileRequiresPath,
    ConfigRequiresPath,
    OnlyOneCommand,
    SelfTestRequiresCommand,
    UnsupportedSelfTest(Seq<char>),
    UnknownArgument(Seq<char>),
    TransportRequiresValue,
    ListenRequiresAddress,
    InvalidListen(Seq<char>),
    AuthTokenRequiresValue,
    CaptureDirRequiresPath,
    UnknownServeArgument(Seq<char>),
    UnsupportedTransport(Seq<char>),
    InvalidConfiguredListen(Seq<char>),
}

impl View for CliError {
    type V = CliErrorView;

    open spec fn view(&self) -> CliErrorView {
        match self {
            CliError::LogFileRequiresPath => CliErrorView::LogFileRequiresPath,
            CliError::ConfigRequiresPath => CliErrorView::ConfigRequiresPath,
            CliError::OnlyOneCommand => CliErrorView::OnlyOneCommand,
            CliError::SelfTestRequiresCommand => CliErrorView::SelfTestRequiresCommand,
            CliError::UnsupportedSelfTest(s) => CliErrorView::UnsupportedSelfTest(s@),
            CliError::UnknownArgument(s) => CliErrorView::UnknownArgument(s@),
            CliError::TransportRequiresValue => CliErrorView::TransportRequiresValue,
            CliError::ListenRequiresAddress => CliErrorView::ListenRequiresAddress,
            CliError::InvalidListen(s) => CliErrorView::InvalidListen(s@),
            CliError::AuthTokenRequiresValue => CliErrorView::AuthTokenRequiresValue,
            CliError::CaptureDirRequiresPath => CliErrorView::CaptureDirRequiresPath,
            CliError::UnknownServeArgument(s) => CliErrorView::UnknownServeArgument(s@),
            CliError::Config(ConfigError::UnsupportedTransport(s)) => CliErrorView::UnsupportedTransport(s@),
            CliError::Config(ConfigError::InvalidListen(s)) => CliErrorView::InvalidConfiguredListen(s@),
        }
    }
}

impl CliError {
    /// The message the server reports.
    pub fn message(&self) -> (r: String)
        ensures
            r@ == cli_error_message(self@),
    {
        match self {
            CliError::LogFileRequiresPath => owned("--log-file requires a path"),
            CliError::ConfigRequiresPath => owned("--config requires a path"),
            CliError::OnlyOneCommand => owned("only one command may be provided"),
            CliError::SelfTestRequiresCommand => owned(
                "self-test requires a command, for example: self-test windows-list",
            ),
            CliError::UnsupportedSelfTest(s) => crate::text::concat3(
                "unsupported self-test ",
                s.as_str(),
                "; expected windows-list",
            ),
            CliError::UnknownArgument(s) => crate::text::concat2("unknown argument: ", s.as_str()),
            CliError::TransportRequiresValue => owned("--transport requires stdio or http"),
            CliError::ListenRequiresAddress => owned("--listen requires an address"),
            CliError::InvalidListen(s) => crate::text::concat2("invalid listen address ", s.as_str()),
            CliError::AuthTokenRequiresValue => owned("--auth-token requires a value"),
            CliError::CaptureDirRequiresPath => owned("--capture-dir requires a path"),
            CliError::UnknownServeArgument(s) => crate::text::concat2("unknown serve argument: ", s.as_str()),
            CliError::Config(e) => e.message(),
        }
    }
}

/// The message for a command-line error.
pub open spec fn cli_error_message(e: CliErrorView) -> Seq<char> {
    match e {
        CliErrorView::LogFileRequiresPath => "--log-file requires a path"@,
        CliErrorView::ConfigRequiresPath => "--config requires a path"@,
        CliErrorView::OnlyOneCommand => "only one command may be provided"@,
        CliErrorView::SelfTestRequiresCommand => "self-test requires a command, for example: self-test windows-list"@,
        CliErrorView::UnsupportedSelfTest(s) => "unsupported self-test "@ + s + "; expected windows-list"@,
        CliErrorView::UnknownArgument(s) => "unknown argument: "@ + s,
        CliErrorView::TransportRequiresValue => "--transport requires stdio or http"@,
        CliErrorView::ListenRequiresAddress => "--listen requires an address"@,
        CliErrorView::InvalidListen(s) => "invalid listen address "@ + s,
        CliErrorView::AuthTokenRequiresValue => "--auth-token requires a value"@,
        CliErrorView::CaptureDirRequiresPath => "--capture-dir requires a path"@,
        CliErrorView::UnknownServeArgument(s) => "unknown serve argument: "@ + s,
        CliErrorView::UnsupportedTransport(s) => "unsupported transport "@ + s + "; expected stdio or http"@,
        CliErrorView::InvalidConfiguredListen(s) => "invalid configured listen address "@ + s,
    }
}

/// The view of a command.
pub enum CommandView {
    Serve(ServeView),
    SelfTest(SelfTestCommand),
}

/// The view of a command line.
pub struct CliView {
    pub command: CommandView,
    pub log_file: Option<Seq<char>>,
    pub config_file: Option<Seq<char>>,
}

impl View for Cli {
    type V = CliView;

    open spec fn view(&self) -> CliView {
        CliView {
            command: match self.command {
                Command::Serve(c) => CommandView::Serve(c@),
                Command::SelfTest(t) => CommandView::SelfTest(t),
            },
            log_file: sv(self.log_file),
            config_file: sv(self.config_file),
        }
    }
}

/// The view of a parse outcome.
pub enum CliParseView {
    Done(CliView),
    LoadConfig(Seq<char>),
}

/// The path after the first `--config` at or after position `i`, if that flag
/// has a value; scanning stops at the first `--config`.
pub open spec fn config_flag_value(args: Seq<Seq<char>>, i: int) -> Option<Seq<char>>
    decreases args.len() - i,
{
    if i < 0 || i >= args.len() {
        None
    } else if args[i] == "--config"@ {
        if i + 1 < args.len() {
            Some(args[i + 1])
        } else {
            None
        }
    } else {
        config_flag_value(args, i + 1)
    }
}

/// Whether the argument at position `i` parses as a socket address, by the
/// outcomes `addr_ok` gives (an argument it gives none for does not).
pub open spec fn parses_at(addr_ok: Seq<bool>, i: int) -> bool {
    0 <= i < addr_ok.len() && addr_ok[i]
}

/// The `serve` flags from position `i` on, applied to `c` and the log file:
/// `--transport`, `--listen` (whose value must be a socket address),
/// `--auth-token`, `--config` (already read), `--capture-dir` and
/// `--log-file`, each with a value.
pub open spec fn serve_flags(
    args: Seq<Seq<char>>,
    addr_ok: Seq<bool>,
    i: int,
    c: ServeView,
    log: Option<Seq<char>>,
) -> Result<(ServeView, Option<Seq<char>>), CliErrorView>
    decreases args.len() - i,
{
    if i < 0 || i >= args.len() {
        Ok((c, log))
    } else {
        let a = args[i];
        let has_value = i + 1 < args.len();
        let v = args[i + 1];
        if a == "--transport"@ {
            if !has_value {
                Err(CliErrorView::TransportRequiresValue)
            } else {
                match transport_named(v) {
                    Some(m) => serve_flags(args, addr_ok, i + 2, ServeView { transport: m, ..c }, log),
                    None => Err(CliErrorView::UnsupportedTransport(v)),
                }
            }
        } else if a == "--listen"@ {
            if !has_value {
                Err(CliErrorView::ListenRequiresAddress)
            } else if !parses_at(addr_ok, i + 1) {
                Err(CliErrorView::InvalidListen(v))
            } else {
                serve_flags(args, addr_ok, i + 2, ServeView { listen: v, ..c }, log)
            }
        } else if a == "--auth-token"@ {
            if !has_value {
                Err(CliErrorView::AuthTokenRequiresValue)
            } else {
                serve_flags(args, addr_ok, i + 2, ServeView { auth_token: Some(v), ..c }, log)
            }
        } else if a == "--config"@ {
            if !has_value {
                Err(CliErrorView::ConfigRequiresPath)
            } else {
                serve_flags(args, addr_ok, i + 2, c, log)
            }
        } else if a == "--capture-dir"@ {
            if !has_value {
                Err(CliErrorView::CaptureDirRequiresPath)
            } else {
                serve_flags(args, addr_ok, i + 2, ServeView { capture_dir: Some(v), ..c }, log)
            }
        } else if a == "--log-file"@ {
            if !has_value {
                Err(CliErrorView::LogFileRequiresPath)
            } else {
                serve_flags(args, addr_ok, i + 2, c, Some(v))
            }
        } else {
            Err(CliErrorView::UnknownServeArgument(a))
        }
    }
}

/// A `serve` command without a config file serves the defaults with its flags
/// applied: its outcome is that of the serve flags, with the log file they give.
pub proof fn lemma_serve_command_applies_flags(
    args: Seq<Seq<char>>,
    addr_ok: Seq<bool>,
    defaults: ServeView,
    loaded: Option<(Seq<char>, WinctlConfigFile, bool)>,
)
    requires
        args.len() >= 1,
        args[0] == "serve"@,
        config_flag_value(args, 1) is None,
    ensures
        cli_parse_from(
            args,
            addr_ok,
            0,
            CliView { command: CommandView::Serve(defaults), log_file: None, config_file: None },
            false,
            defaults,
            loaded,
        ) == match serve_flags(args, addr_ok, 1, defaults, None) {
            Ok((c, log)) => Ok::<CliParseView, CliErrorView>(
                CliParseView::Done(CliView { command: CommandView::Serve(c), log_file: log, config_file: None }),
            ),
            Err(e) => Err::<CliParseView, CliErrorView>(e),
        },
{
    reveal_strlit("serve");
    reveal_strlit("--log-file");
    reveal_strlit("--config");
    reveal_strlit("--self-test");
    reveal_strlit("self-test");
    assert("serve"@.len() == 5 && "--log-file"@.len() == 10 && "--config"@.len() == 8);
    assert("--self-test"@.len() == 11 && "self-test"@.len() == 9);
}

/// A `serve` command with `--config path` first asks for that file; once it is
/// loaded (and names a known transport and a listen address that parses, if
/// any), the file's settings are applied to the defaults, then the flags, with
/// the file's log file unless a flag gives another, and the config file
/// recorded; a bad transport or listen address in the file refuses the
/// command.
pub proof fn lemma_serve_command_uses_config_file(
    args: Seq<Seq<char>>,
    addr_ok: Seq<bool>,
    defaults: ServeView,
    loaded: Option<(Seq<char>, WinctlConfigFile, bool)>,
)
    requires
        args.len() >= 1,
        args[0] == "serve"@,
        config_flag_value(args, 1) is Some,
    ensures
        ({
            let path = config_flag_value(args, 1)->Some_0;
            let init = CliView { command: CommandView::Serve(defaults), log_file: None, config_file: None };
            let out = cli_parse_from(args, addr_ok, 0, init, false, defaults, loaded);
            &&& !(loaded matches Some((p, _, _)) && p == path) ==> out == Ok::<CliParseView, CliErrorView>(
                CliParseView::LoadConfig(path),
            )
            &&& (loaded matches Some((p, f, listen_parses)) && p == path) ==> {
                let (_, f, listen_parses) = loaded->Some_0;
                let log = match f.logging {
                    Some(l) => sv(l.log_file),
                    None => None,
                };
                let base = ServeView { config_file: Some(path), ..serve_from_file(defaults, f) };
                if file_transport_mode(f) is Some && transport_named(file_transport_mode(f)->Some_0) is None {
                    out == Err::<CliParseView, CliErrorView>(
                        CliErrorView::UnsupportedTransport(file_transport_mode(f)->Some_0),
                    )
                } else if file_listen(f) is Some && !listen_parses {
                    out == Err::<CliParseView, CliErrorView>(
                        CliErrorView::InvalidConfiguredListen(file_listen(f)->Some_0),
                    )
                } else {
                    out == match serve_flags(args, addr_ok, 1, base, log) {
                        Ok((c, l)) => Ok::<CliParseView, CliErrorView>(
                            CliParseView::Done(
                                CliView { command: CommandView::Serve(c), log_file: l, config_file: Some(path) },
                            ),
                        ),
                        Err(e) => Err::<CliParseView, CliErrorView>(e),
                    }
                }
            }
        }),
{
    reveal_strlit("serve");
    reveal_strlit("--log-file");
    reveal_strlit("--config");
    reveal_strlit("--self-test");
    reveal_strlit("self-test");
    assert("serve"@.len() == 5 && "--log-file"@.len() == 10 && "--config"@.len() == 8);
    assert("--self-test"@.len() == 11 && "self-test"@.len() == 9);
}

/// Parsing flags that run to the end of `args` is unaffected by more arguments
/// after them: parsing the longer list goes on from where the shorter one ended.
proof fn lemma_serve_flags_extend(
    args: Seq<Seq<char>>,
    more: Seq<Seq<char>>,
    addr_ok: Seq<bool>,
    i: int,
    c: ServeView,
    log: Option<Seq<char>>,
)
    requires
        0 <= i <= args.len(),
        serve_flags(args, addr_ok, i, c, log) is Ok,
    ensures
        ({
            let (c1, l1) = serve_flags(args, addr_ok, i, c, log)->Ok_0;
            serve_flags(args + more, addr_ok, i, c, log) == serve_flags(args + more, addr_ok, args.len() as int, c1, l1)
        }),
    decreases args.len() - i,
{
    let ext = args + more;
    if i < args.len() {
        assert(ext[i] == args[i]);
        if i + 1 < args.len() {
            assert(ext[i + 1] == args[i + 1]);
            let a = args[i];
            let v = args[i + 1];
            if a == "--transport"@ {
                if let Some(m) = transport_named(v) {
                    lemma_serve_flags_extend(args, more, addr_ok, i + 2, ServeView { transport: m, ..c }, log);
                }
            } else if a == "--listen"@ {
                if parses_at(addr_ok, i + 1) {
                    lemma_serve_flags_extend(args, more, addr_ok, i + 2, ServeView { listen: v, ..c }, log);
                }
            } else if a == "--auth-token"@ {
                lemma_serve_flags_extend(args, more, addr_ok, i + 2, ServeView { auth_token: Some(v), ..c }, log);
            } else if a == "--config"@ {
                lemma_serve_flags_extend(args, more, addr_ok, i + 2, c, log);
            } else if a == "--capture-dir"@ {
                lemma_serve_flags_extend(args, more, addr_ok, i + 2, ServeView { capture_dir: Some(v), ..c }, log);
            } else if a == "--log-file"@ {
                lemma_serve_flags_extend(args, more, addr_ok, i + 2, c, Some(v));
            }
        }
    } else {
        assert(i == args.len());
    }
}

/// Each serve flag sets its own setting: appending one flag with its value to
/// serve flags that parse gives the same configuration and log file with just
/// that setting replaced (`--transport` by the transport named, when it is
/// `stdio` or `http`; `--listen` by the address, when it parses as a socket
/// address; `--capture-dir` by the directory; `--log-file` by the log file).
pub proof fn lemma_serve_flag_sets_its_setting(
    args: Seq<Seq<char>>,
    addr_ok: Seq<bool>,
    i: int,
    c: ServeView,
    log: Option<Seq<char>>,
    v: Seq<char>,
)
    requires
        0 <= i <= args.len(),
        serve_flags(args, addr_ok, i, c, log) is Ok,
    ensures
        ({
            let (c1, l1) = serve_flags(args, addr_ok, i, c, log)->Ok_0;
            &&& transport_named(v) matches Some(m) ==> serve_flags(args + seq!["--transport"@, v], addr_ok, i, c, log)
                == Ok::<(ServeView, Option<Seq<char>>), CliErrorView>((ServeView { transport: m, ..c1 }, l1))
            &&& transport_named(v) is None ==> serve_flags(args + seq!["--transport"@, v], addr_ok, i, c, log)
                == Err::<(ServeView, Option<Seq<char>>), CliErrorView>(CliErrorView::UnsupportedTransport(v))
            &&& parses_at(addr_ok, args.len() + 1int) ==> serve_flags(args + seq!["--listen"@, v], addr_ok, i, c, log)
                == Ok::<(ServeView, Option<Seq<char>>), CliErrorView>((ServeView { listen: v, ..c1 }, l1))
            &&& !parses_at(addr_ok, args.len() + 1int) ==> serve_flags(args + seq!["--listen"@, v], addr_ok, i, c, log)
                == Err::<(ServeView, Option<Seq<char>>), CliErrorView>(CliErrorView::InvalidListen(v))
            &&& serve_flags(args + seq!["--capture-dir"@, v], addr_ok, i, c, log) == Ok::<
                (ServeView, Option<Seq<char>>),
                CliErrorView,
            >((ServeView { capture_dir: Some(v), ..c1 }, l1))
            &&& serve_flags(args + seq!["--log-file"@, v], addr_ok, i, c, log) == Ok::<
                (ServeView, Option<Seq<char>>),
                CliErrorView,
            >((c1, Some(v)))
        }),
{
    let (c1, l1) = serve_flags(args, addr_ok, i, c, log)->Ok_0;
    let n = args.len() as int;
    reveal_strlit("--auth-token");
    reveal_strlit("--transport");
    reveal_strlit("--listen");
    reveal_strlit("--config");
    reveal_strlit("--capture-dir");
    reveal_strlit("--log-file");
    assert("--transport"@.len() == 11 && "--listen"@.len() == 8 && "--auth-token"@.len() == 12);
    assert("--config"@.len() == 8 && "--capture-dir"@.len() == 13 && "--log-file"@.len() == 10);
    assert("--listen"@[2] != "--config"@[2]);
    let more = seq!["--transport"@, v];
    lemma_serve_flags_extend(args, more, addr_ok, i, c, log);
    assert((args + more)[n] == "--transport"@ && (args + more)[n + 1] == v);
    if let Some(m) = transport_named(v) {
        assert(serve_flags(args + more, addr_ok, n + 2, ServeView { transport: m, ..c1 }, l1) == Ok::<
            (ServeView, Option<Seq<char>>),
            CliErrorView,
        >((ServeView { transport: m, ..c1 }, l1)));
    }
    let more = seq!["--listen"@, v];
    lemma_serve_flags_extend(args, more, addr_ok, i, c, log);
    assert((args + more)[n] == "--listen"@ && (args + more)[n + 1] == v);
    assert(serve_flags(args + more, addr_ok, n + 2, ServeView { listen: v, ..c1 }, l1) == Ok::<
        (ServeView, Option<Seq<char>>),
        CliErrorView,
    >((ServeView { listen: v, ..c1 }, l1)));
    let more = seq!["--capture-dir"@, v];
    lemma_serve_flags_extend(args, more, addr_ok, i, c, log);
    assert((args + more)[n] == "--capture-dir"@ && (args + more)[n + 1] == v);
    assert(serve_flags(args + more, addr_ok, n + 2, ServeView { capture_dir: Some(v), ..c1 }, l1) == Ok::<
        (ServeView, Option<Seq<char>>),
        CliErrorView,
    >((ServeView { capture_dir: Some(v), ..c1 }, l1)));
    let more = seq!["--log-file"@, v];
    lemma_serve_flags_extend(args, more, addr_ok, i, c, log);
    assert((args + more)[n] == "--log-file"@ && (args + more)[n + 1] == v);
    assert(serve_flags(args + more, addr_ok, n + 2, c1, Some(v)) == Ok::<
        (ServeView, Option<Seq<char>>),
        CliErrorView,
    >((c1, Some(v))));
}

/// `--auth-token` sets the token: appending `--auth-token v` to serve flags that
/// parse gives the same configuration with the auth token `v`, and the same
/// log file.
pub proof fn lemma_auth_token_flag_sets_token(
    args: Seq<Seq<char>>,
    addr_ok: Seq<bool>,
    i: int,
    c: ServeView,
    log: Option<Seq<char>>,
    v: Seq<char>,
)
    requires
        0 <= i <= args.len(),
        serve_flags(args, addr_ok, i, c, log) is Ok,
    ensures
        ({
            let (c1, l1) = serve_flags(args, addr_ok, i, c, log)->Ok_0;
            serve_flags(args + seq!["--auth-token"@, v], addr_ok, i, c, log) == Ok::<
                (ServeView, Option<Seq<char>>),
                CliErrorView,
            >((ServeView { auth_token: Some(v), ..c1 }, l1))
        }),
{
    let more = seq!["--auth-token"@, v];
    let ext = args + more;
    lemma_serve_flags_extend(args, more, addr_ok, i, c, log);
    let (c1, l1) = serve_flags(args, addr_ok, i, c, log)->Ok_0;
    let n = args.len() as int;
    assert(ext[n] == "--auth-token"@ && ext[n + 1] == v);
    reveal_strlit("--auth-token");
    reveal_strlit("--transport");
    reveal_strlit("--listen");
    assert("--auth-token"@.len() != "--transport"@.len());
    assert("--auth-token"@.len() != "--listen"@.len());
    assert(serve_flags(ext, addr_ok, n + 2, ServeView { auth_token: Some(v), ..c1 }, l1) == Ok::<
        (ServeView, Option<Seq<char>>),
        CliErrorView,
    >((ServeView { auth_token: Some(v), ..c1 }, l1)));
}

/// What a `serve` command comes to.
pub enum ServeParseView {
    /// The config file at this path must be loaded first.
    NeedFile(Seq<char>),
    Failed(CliErrorView),
    /// The configuration, the log file and the config file.
    Parsed(ServeView, Option<Seq<char>>, Option<Seq<char>>),
}

/// The config file a loaded file stands for, and whether its listen address
/// parses, if it is the one at `path`.
pub open spec fn loaded_file_at(loaded: Option<(Seq<char>, WinctlConfigFile, bool)>, path: Seq<char>) -> Option<(WinctlConfigFile, bool)> {
    match loaded {
        Some((p, f, ok)) => if p == path {
            Some((f, ok))
        } else {
            None
        },
        None => None,
    }
}

/// A `serve` command whose flags start at position `i`: the config file is the
/// one its own `--config` names, else the one given before `serve`; its settings
/// are applied to the defaults, its log file taken, and then the flags.
pub open spec fn serve_parse(
    args: Seq<Seq<char>>,
    addr_ok: Seq<bool>,
    i: int,
    inherited: Option<Seq<char>>,
    defaults: ServeView,
    loaded: Option<(Seq<char>, WinctlConfigFile, bool)>,
) -> ServeParseView {
    let config_file = match config_flag_value(args, i) {
        Some(p) => Some(p),
        None => inherited,
    };
    match config_file {
        Some(path) => match loaded_file_at(loaded, path) {
            None => ServeParseView::NeedFile(path),
            Some((f, listen_parses)) => match file_transport_mode(f) {
                Some(m) if transport_named(m) is None => ServeParseView::Failed(CliErrorView::UnsupportedTransport(m)),
                _ if file_listen(f) is Some && !listen_parses => ServeParseView::Failed(
                    CliErrorView::InvalidConfiguredListen(file_listen(f)->Some_0),
                ),
                _ => {
                    let base = ServeView { config_file: config_file, ..serve_from_file(defaults, f) };
                    let log = match f.logging {
                        Some(l) => sv(l.log_file),
                        None => None,
                    };
                    match serve_flags(args, addr_ok, i, base, log) {
                        Ok((c, log)) => ServeParseView::Parsed(c, log, config_file),
                        Err(e) => ServeParseView::Failed(e),
                    }
                },
            },
        },
        None => match serve_flags(args, addr_ok, i, defaults, None) {
            Ok((c, log)) => ServeParseView::Parsed(c, log, None),
            Err(e) => ServeParseView::Failed(e),
        },
    }
}

/// The command line from position `i` on, with `cli` parsed so far and
/// `seen` whether a command was already given.
pub open spec fn cli_parse_from(
    args: Seq<Seq<char>>,
    addr_ok: Seq<bool>,
    i: int,
    cli: CliView,
    seen: bool,
    defaults: ServeView,
    loaded: Option<(Seq<char>, WinctlConfigFile, bool)>,
) -> Result<CliParseView, CliErrorView>
    decreases args.len() - i,
{
    if i < 0 || i >= args.len() {
        Ok(CliParseView::Done(cli))
    } else {
        let a = args[i];
        let has_value = i + 1 < args.len();
        let v = args[i + 1];
        if a == "--log-file"@ {
            if !has_value {
                Err(CliErrorView::LogFileRequiresPath)
            } else {
                cli_parse_from(args, addr_ok, i + 2, CliView { log_file: Some(v), ..cli }, seen, defaults, loaded)
            }
        } else if a == "--config"@ {
            if !has_value {
                Err(CliErrorView::ConfigRequiresPath)
            } else {
                cli_parse_from(args, addr_ok, i + 2, CliView { config_file: Some(v), ..cli }, seen, defaults, loaded)
            }
        } else if a == "--self-test"@ {
            cli_parse_from(
                args,
                addr_ok,
                i + 1,
                CliView { command: CommandView::SelfTest(SelfTestCommand::Basic), ..cli },
                true,
                defaults,
                loaded,
            )
        } else if a == "self-test"@ {
            if seen {
                Err(CliErrorView::OnlyOneCommand)
            } else if !has_value {
                Err(CliErrorView::SelfTestRequiresCommand)
            } else if v == "windows-list"@ {
                cli_parse_from(
                    args,
                    addr_ok,
                    i + 2,
                    CliView { command: CommandView::SelfTest(SelfTestCommand::WindowsList), ..cli },
                    true,
                    defaults,
                    loaded,
                )
            } else {
                Err(CliErrorView::UnsupportedSelfTest(v))
            }
        } else if a == "serve"@ {
            if seen {
                Err(CliErrorView::OnlyOneCommand)
            } else {
                match serve_parse(args, addr_ok, i + 1, cli.config_file, defaults, loaded) {
                    ServeParseView::NeedFile(p) => Ok(CliParseView::LoadConfig(p)),
                    ServeParseView::Failed(e) => Err(e),
                    ServeParseView::Parsed(c, log, config_file) => Ok(
                        CliParseView::Done(
                            CliView {
                                command: CommandView::Serve(c),
                                log_file: if log is Some { log } else { cli.log_file },
                                config_file: if config_file is Some { config_file } else { cli.config_file },
                            },
                        ),
                    ),
                }
            }
        } else {
            Err(CliErrorView::UnknownArgument(a))
        }
    }
}

/// The path after the first `--config` at or after position `index`, if that
/// flag has a value.
pub fn scan_config_file(args: &Vec<String>, index: usize) -> (r: Option<String>)
    ensures
        sv(r) == config_flag_value(strs_view(args@), index as int),
{
    let ghost a = strs_view(args@);
    let mut i = index;
    while i < args.len()
        invariant
            a == strs_view(args@),
            index <= i,
            config_flag_value(a, index as int) == config_flag_value(a, i as int),
        decreases args.len() - i,
    {
        assert(a[i as int] == args@[i as int]@);
        if str_eq(args[i].as_str(), "--config") {
            if i + 1 < args.len() {
                assert(a[i + 1] == args@[i + 1]@);
                return Some(args[i + 1].clone());
            }
            return None;
        }
        i += 1;
    }
    None
}

/// A copy of a serve configuration.
pub fn clone_serve_config(c: &ServeConfig) -> (r: ServeConfig)
    ensures
        r@ == c@,
{
    ServeConfig {
        transport: c.transport,
        listen: c.listen.clone(),
        auth_token: clone_opt_string(&c.auth_token),
        capture_dir: clone_opt_string(&c.capture_dir),
        memory_db_path: clone_opt_string(&c.memory_db_path),
        policy: clone_policy(&c.policy),
        config_file: clone_opt_string(&c.config_file),
    }
}

/// The view of a loaded config file.
pub open spec fn loaded_view(loaded: Option<&LoadedConfig>) -> Option<(Seq<char>, WinctlConfigFile, bool)> {
    match loaded {
        Some(l) => Some((l.path@, l.file, l.listen_parses)),
        None => None,
    }
}

/// What parsing a `serve` command comes to.
pub enum ServeParse {
    NeedFile(String),
    /// The configuration, the log file and the config file.
    Parsed(ServeConfig, Option<String>, Option<String>),
}

/// Applies the `serve` flags from position `index` on.
fn parse_serve_flags(
    args: &Vec<String>,
    addr_ok: &Vec<bool>,
    index: usize,
    config: &mut ServeConfig,
    log_file: &mut Option<String>,
) -> (r: Result<(), CliError>)
    ensures
        match serve_flags(strs_view(args@), addr_ok@, index as int, old(config)@, sv(*old(log_file))) {
            Ok((c, log)) => r is Ok && final(config)@ == c && sv(*final(log_file)) == log,
            Err(e) => r matches Err(err) && err@ == e,
        },
    decreases args.len() - index,
{
    let ghost a = strs_view(args@);
    if index >= args.len() {
        return Ok(());
    }
    let arg = args[index].as_str();
    assert(a[index as int] == arg@);
    let has_value = index + 1 < args.len();
    if has_value {
        assert(a[index + 1] == args@[index + 1]@);
    }
    if str_eq(arg, "--transport") {
        if !has_value {
            return Err(CliError::TransportRequiresValue);
        }
        match parse_transport_str(args[index + 1].as_str()) {
            Ok(m) => {
                config.transport = m;
            },
            Err(e) => {
                return Err(CliError::Config(e));
            },
        }
    } else if str_eq(arg, "--listen") {
        if !has_value {
            return Err(CliError::ListenRequiresAddress);
        }
        if !(index + 1 < addr_ok.len() && addr_ok[index + 1]) {
            return Err(CliError::InvalidListen(args[index + 1].clone()));
        }
        config.listen = args[index + 1].clone();
    } else if str_eq(arg, "--auth-token") {
        if !has_value {
            return Err(CliError::AuthTokenRequiresValue);
        }
        config.auth_token = Some(args[index + 1].clone());
    } else if str_eq(arg, "--config") {
        if !has_value {
            return Err(CliError::ConfigRequiresPath);
        }
    } else if str_eq(arg, "--capture-dir") {
        if !has_value {
            return Err(CliError::CaptureDirRequiresPath);
        }
        config.capture_dir = Some(args[index + 1].clone());
    } else if str_eq(arg, "--log-file") {
        if !has_value {
            return Err(CliError::LogFileRequiresPath);
        }
        *log_file = Some(args[index + 1].clone());
    } else {
        return Err(CliError::UnknownServeArgument(owned(arg)));
    }
    parse_serve_flags(args, addr_ok, index + 2, config, log_file)
}

/// Parses a `serve` command whose flags start at position `index`. The config
/// file is the one its own `--config` names, else `inherited_config_file`;
/// when there is one it must be the `loaded` one, else the caller is asked to
/// load it first. `addr_ok` gives, for each argument, whether it parses as a
/// socket address.
pub fn parse_serve_args(
    args: &Vec<String>,
    addr_ok: &Vec<bool>,
    index: usize,
    inherited_config_file: Option<String>,
    defaults: &ServeConfig,
    loaded: Option<&LoadedConfig>,
) -> (r: Result<ServeParse, CliError>)
    ensures
        match serve_parse(strs_view(args@), addr_ok@, index as int, sv(inherited_config_file), defaults@, loaded_view(loaded)) {
            ServeParseView::NeedFile(p) => r matches Ok(ServeParse::NeedFile(q)) && q@ == p,
            ServeParseView::Failed(e) => r matches Err(err) && err@ == e,
            ServeParseView::Parsed(c, log, f) => r matches Ok(ServeParse::Parsed(c2, log2, f2)) && c2@ == c
                && sv(log2) == log && sv(f2) == f,
        },
{
    let config_file = match scan_config_file(args, index) {
        Some(p) => Some(p),
        None => inherited_config_file,
    };
    let (mut config, mut log_file) = match &config_file {
        Some(path) => {
            let (file, listen_parses) = match loaded {
                Some(l) => {
                    if str_eq(l.path.as_str(), path.as_str()) {
                        (&l.file, l.listen_parses)
                    } else {
                        return Ok(ServeParse::NeedFile(path.clone()));
                    }
                },
                None => {
                    return Ok(ServeParse::NeedFile(path.clone()));
                },
            };
            let mut config = match ServeConfig::from_file(file, defaults, listen_parses) {
                Ok(c) => c,
                Err(e) => {
                    return Err(CliError::Config(e));
                },
            };
            config.config_file = clone_opt_string(&config_file);
            let log_file = match &file.logging {
                Some(l) => clone_opt_string(&l.log_file),
                None => None,
            };
            (config, log_file)
        },
        None => (clone_serve_config(defaults), None),
    };
    match parse_serve_flags(args, addr_ok, index, &mut config, &mut log_file) {
        Ok(()) => Ok(ServeParse::Parsed(config, log_file, config_file)),
        Err(e) => Err(e),
    }
}

impl Cli {
    /// The command line before any argument is read: serve with the defaults.
    pub fn initial(defaults: &ServeConfig) -> (r: Cli)
        ensures
            r@ == (CliView { command: CommandView::Serve(defaults@), log_file: None, config_file: None }),
    {
        Cli { command: Command::Serve(clone_serve_config(defaults)), log_file: None, config_file: None }
    }

    /// Parses the server's arguments (without the program name). `defaults` is
    /// the standard-I/O configuration from the environment. When a `serve`
    /// command uses a config file that `loaded` does not hold, the outcome asks
    /// for that file; parse again with it loaded. `addr_ok` gives, for each
    /// argument, whether it parses as a socket address (a `--listen` value must).
    pub fn parse(
        args: &Vec<String>,
        addr_ok: &Vec<bool>,
        defaults: &ServeConfig,
        loaded: Option<&LoadedConfig>,
    ) -> (r: Result<CliParse, CliError>)
        ensures
            match cli_parse_from(
                strs_view(args@),
                addr_ok@,
                0,
                CliView { command: CommandView::Serve(defaults@), log_file: None, config_file: None },
                false,
                defaults@,
                loaded_view(loaded),
            ) {
                Ok(CliParseView::Done(c)) => r matches Ok(CliParse::Done(cli)) && cli@ == c,
                Ok(CliParseView::LoadConfig(p)) => r matches Ok(CliParse::LoadConfig(q)) && q@ == p,
                Err(e) => r matches Err(err) && err@ == e,
            },
    {
        let ghost a = strs_view(args@);
        let ghost init = CliView { command: CommandView::Serve(defaults@), log_file: None, config_file: None };
        let mut cli = Cli::initial(defaults);
        let mut command_seen = false;
        let mut index: usize = 0;
        while index < args.len()
            invariant
                a == strs_view(args@),
                init == (CliView { command: CommandView::Serve(defaults@), log_file: None, config_file: None }),
                cli_parse_from(a, addr_ok@, 0, init, false, defaults@, loaded_view(loaded))
                    == cli_parse_from(a, addr_ok@, index as int, cli@, command_seen, defaults@, loaded_view(loaded)),
            decreases args.len() - index,
        {
            let arg = args[index].as_str();
            assert(a[index as int] == arg@);
            let has_value = index + 1 < args.len();
            if has_value {
                assert(a[index + 1] == args@[index + 1]@);
            }
            if str_eq(arg, "--log-file") {
                if !has_value {
                    return Err(CliError::LogFileRequiresPath);
                }
                cli.log_file = Some(args[index + 1].clone());
                index += 2;
            } else if str_eq(arg, "--config") {
                if !has_value {
                    return Err(CliError::ConfigRequiresPath);
                }
                cli.config_file = Some(args[index + 1].clone());
                index += 2;
            } else if str_eq(arg, "--self-test") {
                cli.command = Command::SelfTest(SelfTestCommand::Basic);
                command_seen = true;
                index += 1;
            } else if str_eq(arg, "self-test") {
                if command_seen {
                    return Err(CliError::OnlyOneCommand);
                }
                if !has_value {
                    return Err(CliError::SelfTestRequiresCommand);
                }
                if str_eq(args[index + 1].as_str(), "windows-list") {
                    cli.command = Command::SelfTest(SelfTestCommand::WindowsList);
                } else {
                    return Err(CliError::UnsupportedSelfTest(args[index + 1].clone()));
                }
                command_seen = true;
                index += 2;
            } else if str_eq(arg, "serve") {
                if command_seen {
                    return Err(CliError::OnlyOneCommand);
                }
                let inherited = clone_opt_string(&cli.config_file);
                match parse_serve_args(args, addr_ok, index + 1, inherited, defaults, loaded) {
                    Ok(ServeParse::NeedFile(p)) => {
                        return Ok(CliParse::LoadConfig(p));
                    },
                    Ok(ServeParse::Parsed(serve, log_file, config_file)) => {
                        cli.command = Command::Serve(serve);
                        if log_file.is_some() {
                            cli.log_file = log_file;
                        }
                        if config_file.is_some() {
                            cli.config_file = config_file;
                        }
                        return Ok(CliParse::Done(cli));
                    },
                    Err(e) => {
                        return Err(e);
                    },
                }
            } else {
                return Err(CliError::UnknownArgument(owned(arg)));
            }
        }
        Ok(CliParse::Done(cli))
    }
}

} // verus!
