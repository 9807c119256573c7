//! Server configuration: the resolved description of one logical server
//! (command, arguments, environment, optional repository and build
//! command), the name-to-server table, and the authentication settings.
//!
//! Reading configuration files and environment variables is the caller's
//! business; this module models the resolved values and the lookups and
//! overlays performed on them. An association list is read as a map in
//! which a later entry wins over an earlier one with the same key.

use vstd::prelude::*;

use crate::error::{ErrorKind, McpCoreError};
use crate::text::str_eq;

verus! {

/// Configuration for a single server.
#[derive(Debug, Clone)]
pub struct McpServerConfig {
    /// Repository URL to clone into the working tree (optional).
    pub repository: Option<String>,
    /// Build command to run after cloning (optional).
    pub build_command: Option<String>,
    /// Executable that runs the server.
    pub command: String,
    /// Arguments for the command, in order.
    pub args: Vec<String>,
    /// Environment entries declared for the process; these win over the
    /// ambient environment on key collision.
    pub env: Vec<(String, String)>,
    /// Runtime-specific knobs.
    pub runtime_config: RuntimeConfig,
}

/// Runtime-specific configuration.
#[derive(Debug, Clone, Default)]
pub struct RuntimeConfig {
    pub node: Option<NodeConfig>,
    pub python: Option<PythonConfig>,
    pub go: Option<GoConfig>,
}

/// Node.js runtime configuration.
#[derive(Debug, Clone)]
pub struct NodeConfig {
    pub version: Option<String>,
    pub package_manager: Option<String>,
    pub install_flags: Option<Vec<String>>,
}

/// Python runtime configuration.
#[derive(Debug, Clone)]
pub struct PythonConfig {
    pub version: Option<String>,
    pub venv_path: Option<String>,
    pub requirements_file: Option<String>,
}

/// Go runtime configuration.
#[derive(Debug, Clone)]
pub struct GoConfig {
    pub version: Option<String>,
    pub module_dir: Option<String>,
    pub build_flags: Option<Vec<String>>,
}

/// The table of configured servers, keyed by logical name.
#[derive(Debug, Clone)]
pub struct McpServersConfig {
    /// Version of the configuration format.
    pub version: String,
    /// Server name to server configuration; on a repeated name the later
    /// entry wins.
    pub servers: Vec<(String, McpServerConfig)>,
}

/// Authentication settings for the request handler.
#[derive(Debug, Clone)]
pub struct AuthConfig {
    /// API key expected as a bearer token.
    pub api_key: Option<String>,
    /// Whether authentication is enforced.
    pub enabled: bool,
}

/// Configuration format version used when none is given.
pub fn default_version() -> (v: String)
    ensures
        v@ == "1.0"@,
{
    String::from_str("1.0")
}

impl Default for McpServersConfig {
    /// An empty table with the default format version.
    fn default() -> (c: McpServersConfig)
        ensures
            c.version@ == "1.0"@,
            c.servers@ == Seq::<(String, McpServerConfig)>::empty(),
    {
        McpServersConfig { version: default_version(), servers: Vec::new() }
    }
}

/// The map an association list denotes: entries applied left to right, so
/// a later entry overrides an earlier one with the same key.
pub open spec fn assoc_map<V>(entries: Seq<(String, V)>) -> Map<Seq<char>, V>
    decreases entries.len(),
{
    if entries.len() == 0 {
        Map::empty()
    } else {
        assoc_map(entries.drop_last()).insert(entries.last().0@, entries.last().1)
    }
}

/// Concatenating association lists overlays their maps, the right side
/// winning.
pub proof fn lemma_assoc_map_append<V>(a: Seq<(String, V)>, b: Seq<(String, V)>)
    ensures
        assoc_map(a + b) == assoc_map(a).union_prefer_right(assoc_map(b)),
    decreases b.len(),
{
    if b.len() == 0 {
        assert(a + b =~= a);
        assert(assoc_map(a).union_prefer_right(assoc_map(b)) =~= assoc_map(a));
    } else {
        lemma_assoc_map_append(a, b.drop_last());
        assert((a + b).drop_last() =~= a + b.drop_last());
        assert(assoc_map(a).union_prefer_right(assoc_map(b)) =~= assoc_map(a).union_prefer_right(
            assoc_map(b.drop_last()),
        ).insert(b.last().0@, b.last().1));
    }
}

/// If entry `k` holds the key and no later entry does, the map holds its
/// value.
proof fn lemma_assoc_map_found<V>(entries: Seq<(String, V)>, key: Seq<char>, k: int)
    requires
        0 <= k < entries.len(),
        entries[k].0@ == key,
        forall|j: int| k < j < entries.len() ==> entries[j].0@ != key,
    ensures
        assoc_map(entries).contains_key(key),
        assoc_map(entries)[key] == entries[k].1,
    decreases entries.len(),
{
    if k == entries.len() - 1 {
    } else {
        lemma_assoc_map_found(entries.drop_last(), key, k);
    }
}

/// A key no entry holds is absent from the map.
proof fn lemma_assoc_map_absent<V>(entries: Seq<(String, V)>, key: Seq<char>)
    requires
        forall|j: int| 0 <= j < entries.len() ==> entries[j].0@ != key,
    ensures
        !assoc_map(entries).contains_key(key),
    decreases entries.len(),
{
    if entries.len() > 0 {
        lemma_assoc_map_absent(entries.drop_last(), key);
    }
}

pub open spec fn server_not_found_message(name: Seq<char>) -> Seq<char> {
    "Server configuration not found for '"@ + name + "'"@
}

impl McpServersConfig {
    /// The map this table denotes.
    pub open spec fn spec_servers(&self) -> Map<Seq<char>, McpServerConfig> {
        assoc_map(self.servers@)
    }

    /// Looks a server up by logical name: the configuration under that
    /// name exactly when the table holds it, a configuration error naming
    /// the offending value otherwise.
    pub fn get_server(&self, name: &str) -> (r: Result<&McpServerConfig, McpCoreError>)
        ensures
            self.spec_servers().contains_key(name@) ==> (r matches Ok(c) && *c
                == self.spec_servers()[name@]),
            !self.spec_servers().contains_key(name@) ==> (r matches Err(e) && e.spec_kind()
                == ErrorKind::Configuration && e.spec_message() == server_not_found_message(name@)),
    {
        let n = self.servers.len();
        let mut i: usize = n;
        while i > 0
            invariant
                n == self.servers.len(),
                0 <= i <= n,
                forall|j: int| i <= j < n ==> self.servers@[j].0@ != name@,
            decreases i,
        {
            i = i - 1;
            let entry = &self.servers[i];
            if str_eq(entry.0.as_str(), name) {
                proof {
                    lemma_assoc_map_found(self.servers@, name@, i as int);
                }
                return Ok(&entry.1);
            }
        }
        proof {
            lemma_assoc_map_absent(self.servers@, name@);
        }
        let mut message = String::from_str("Server configuration not found for '");
        message.append(name);
        message.append("'");
        Err(McpCoreError::ConfigurationError { message })
    }
}

/// Whether an opt-out value switches authentication off: only the literal
/// text "true" does; anything else, a malformed value included, leaves
/// authentication on.
pub open spec fn disable_requested(value: Option<String>) -> bool {
    value matches Some(s) && s@ == "true"@
}

impl AuthConfig {
    /// Resolves the authentication settings from the configured key and
    /// the raw opt-out value: authentication is enforced exactly when a
    /// key is configured and opting out was not requested.
    pub fn resolve(api_key: Option<String>, disable_auth: Option<String>) -> (c: AuthConfig)
        ensures
            c.api_key == api_key,
            c.enabled == (api_key is Some && !disable_requested(disable_auth)),
    {
        let disabled = match &disable_auth {
            Some(s) => str_eq(s.as_str(), "true"),
            None => false,
        };
        let enabled = !disabled && api_key.is_some();
        AuthConfig { api_key, enabled }
    }
}

/// Overlays one environment onto another: the result applies the base
/// entries first and the explicit entries after them, so an explicit entry
/// wins on key collision.
pub fn overlay_env(base: Vec<(String, String)>, explicit: Vec<(String, String)>) -> (r: Vec<
    (String, String),
>)
    ensures
        r@ == base@ + explicit@,
        assoc_map(r@) == assoc_map(base@).union_prefer_right(assoc_map(explicit@)),
{
    let ghost base_entries = base@;
    let ghost explicit_entries = explicit@;
    let mut r = base;
    let mut rest = explicit;
    r.append(&mut rest);
    proof {
        lemma_assoc_map_append(base_entries, explicit_entries);
    }
    r
}

/// Copies an environment entry by entry.
pub fn clone_env(entries: &Vec<(String, String)>) -> (r: Vec<(String, String)>)
    ensures
        r@ == entries@,
{
    let n = entries.len();
    let mut r: Vec<(String, String)> = Vec::new();
    let mut i: usize = 0;
    while i < n
        invariant
            n == entries.len(),
            0 <= i <= n,
            r@ =~= entries@.subrange(0, i as int),
        decreases n - i,
    {
        let entry = &entries[i];
        r.push((entry.0.clone(), entry.1.clone()));
        i = i + 1;
    }
    proof {
        assert(r@ =~= entries@);
    }
    r
}

/// Copies an argument list entry by entry.
pub fn clone_args(args: &Vec<String>) -> (r: Vec<String>)
    ensures
        r@ == args@,
{
    let n = args.len();
    let mut r: Vec<String> = Vec::new();
    let mut i: usize = 0;
    while i < n
        invariant
            n == args.len(),
            0 <= i <= n,
            r@ =~= args@.subrange(0, i as int),
        decreases n - i,
    {
        r.push(args[i].clone());
        i = i + 1;
    }
    proof {
        assert(r@ =~= args@);
    }
    r
}

} // verus!
