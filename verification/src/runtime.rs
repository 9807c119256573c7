//! Runtime selection: mapping a logical runtime name onto one of the
//! fixed strategies (Node.js, Python, Go), the toolchain probe each
//! strategy performs before starting anything, and the launch plan a
//! strategy hands to the process spawner.

use vstd::prelude::*;

use crate::config::{assoc_map, clone_args, clone_env, overlay_env, McpServerConfig};
use crate::error::{ErrorKind, McpCoreError};
use crate::text::{eq_ignore_ascii_case, lower_seq};

verus! {

/// Node.js strategy marker.
#[derive(Debug, Clone, Copy)]
pub struct NodeRuntime;

/// Python strategy marker.
#[derive(Debug, Clone, Copy)]
pub struct PythonRuntime;

/// Go strategy marker.
#[derive(Debug, Clone, Copy)]
pub struct GoRuntime;

/// The closed set of runtimes a server can declare.
#[derive(Debug, Clone, Copy, PartialEq, Eq, Structural)]
pub enum RuntimeKind {
    Node,
    Python,
    Go,
}

impl NodeRuntime {
    pub fn kind(&self) -> (k: RuntimeKind)
        ensures
            k == RuntimeKind::Node,
    {
        RuntimeKind::Node
    }
}

impl PythonRuntime {
    pub fn kind(&self) -> (k: RuntimeKind)
        ensures
            k == RuntimeKind::Python,
    {
        RuntimeKind::Python
    }
}

impl GoRuntime {
    pub fn kind(&self) -> (k: RuntimeKind)
        ensures
            k == RuntimeKind::Go,
    {
        RuntimeKind::Go
    }
}

/// The recognized names, after ASCII case folding.
pub open spec fn runtime_for_name(lower: Seq<char>) -> Option<RuntimeKind> {
    if lower == "node"@ || lower == "nodejs"@ || lower == "javascript"@ || lower
        == "typescript"@ {
        Some(RuntimeKind::Node)
    } else if lower == "python"@ || lower == "python3"@ || lower == "py"@ {
        Some(RuntimeKind::Python)
    } else if lower == "go"@ || lower == "golang"@ {
        Some(RuntimeKind::Go)
    } else {
        None
    }
}

pub open spec fn unsupported_runtime_message(name: Seq<char>) -> Seq<char> {
    "Unsupported runtime type: "@ + name
}

/// A sequence of characters ASCII case folding leaves in place.
proof fn lemma_lower_fixed(s: Seq<char>)
    requires
        forall|i: int| 0 <= i < s.len() ==> !('A' <= s[i] && s[i] <= 'Z'),
    ensures
        lower_seq(s) == s,
{
    assert(lower_seq(s) =~= s);
}

/// Selects the strategy for a runtime name, case-insensitively over the
/// fixed recognized set; an unrecognized name fails fast with a
/// configuration error naming the offending value, before any process or
/// file is touched.
pub fn create_runtime(runtime_type: &str) -> (r: Result<RuntimeKind, McpCoreError>)
    ensures
        runtime_for_name(lower_seq(runtime_type@)) matches Some(k) ==> r == Ok::<
            RuntimeKind,
            McpCoreError,
        >(k),
        runtime_for_name(lower_seq(runtime_type@)) is None ==> (r matches Err(e) && e.spec_kind()
            == ErrorKind::Configuration && e.spec_message() == unsupported_runtime_message(
            runtime_type@,
        )),
{
    proof {
        reveal_strlit("node");
        reveal_strlit("nodejs");
        reveal_strlit("javascript");
        reveal_strlit("typescript");
        reveal_strlit("python");
        reveal_strlit("python3");
        reveal_strlit("py");
        reveal_strlit("go");
        reveal_strlit("golang");
        lemma_lower_fixed("node"@);
        lemma_lower_fixed("nodejs"@);
        lemma_lower_fixed("javascript"@);
        lemma_lower_fixed("typescript"@);
        lemma_lower_fixed("python"@);
        lemma_lower_fixed("python3"@);
        lemma_lower_fixed("py"@);
        lemma_lower_fixed("go"@);
        lemma_lower_fixed("golang"@);
    }
    if eq_ignore_ascii_case(runtime_type, "node") || eq_ignore_ascii_case(runtime_type, "nodejs")
        || eq_ignore_ascii_case(runtime_type, "javascript") || eq_ignore_ascii_case(
        runtime_type,
        "typescript",
    ) {
        Ok(RuntimeKind::Node)
    } else if eq_ignore_ascii_case(runtime_type, "python") || eq_ignore_ascii_case(
        runtime_type,
        "python3",
    ) || eq_ignore_ascii_case(runtime_type, "py") {
        Ok(RuntimeKind::Python)
    } else if eq_ignore_ascii_case(runtime_type, "go") || eq_ignore_ascii_case(
        runtime_type,
        "golang",
    ) {
        Ok(RuntimeKind::Go)
    } else {
        let mut message = String::from_str("Unsupported runtime type: ");
        message.append(runtime_type);
        Err(McpCoreError::ConfigurationError { message })
    }
}

/// The command a strategy runs to probe for its toolchain.
#[derive(Debug, Clone)]
pub struct ToolchainProbe {
    pub program: String,
    pub arg: String,
}

pub open spec fn probe_program(kind: RuntimeKind) -> Seq<char> {
    match kind {
        RuntimeKind::Node => "node"@,
        RuntimeKind::Python => "python3"@,
        RuntimeKind::Go => "go"@,
    }
}

pub open spec fn probe_arg(kind: RuntimeKind) -> Seq<char> {
    match kind {
        RuntimeKind::Node => "--version"@,
        RuntimeKind::Python => "--version"@,
        RuntimeKind::Go => "version"@,
    }
}

/// The version command each strategy probes its toolchain with.
pub fn toolchain_probe(kind: RuntimeKind) -> (p: ToolchainProbe)
    ensures
        p.program@ == probe_program(kind),
        p.arg@ == probe_arg(kind),
{
    match kind {
        RuntimeKind::Node => ToolchainProbe {
            program: String::from_str("node"),
            arg: String::from_str("--version"),
        },
        RuntimeKind::Python => ToolchainProbe {
            program: String::from_str("python3"),
            arg: String::from_str("--version"),
        },
        RuntimeKind::Go => ToolchainProbe {
            program: String::from_str("go"),
            arg: String::from_str("version"),
        },
    }
}

/// What running the probe yielded: the probe command could not be
/// launched, or it exited.
#[derive(Debug, Clone)]
pub enum ProbeOutcome {
    LaunchFailed { detail: String },
    Exited { success: bool },
}

pub open spec fn toolchain_missing_message(kind: RuntimeKind, detail: Seq<char>) -> Seq<char> {
    match kind {
        RuntimeKind::Node => "Node.js not found: "@ + detail,
        RuntimeKind::Python => "Python3 not found: "@ + detail,
        RuntimeKind::Go => "Go not found: "@ + detail,
    }
}

pub open spec fn toolchain_unavailable_message(kind: RuntimeKind) -> Seq<char> {
    match kind {
        RuntimeKind::Node => "Node.js is not available"@,
        RuntimeKind::Python => "Python3 is not available"@,
        RuntimeKind::Go => "Go is not available"@,
    }
}

/// Judges a toolchain probe: only a clean exit passes; a launch failure or
/// a non-zero exit is fatal and never retried.
pub fn toolchain_check(kind: RuntimeKind, outcome: ProbeOutcome) -> (r: Result<(), McpCoreError>)
    ensures
        r is Ok <==> outcome matches ProbeOutcome::Exited { success: true },
        outcome matches ProbeOutcome::LaunchFailed { detail } ==> (r matches Err(e) && e.spec_kind()
            == ErrorKind::Runtime && e.spec_message() == toolchain_missing_message(kind, detail@)),
        outcome matches ProbeOutcome::Exited { success: false } ==> (r matches Err(e)
            && e.spec_kind() == ErrorKind::Runtime && e.spec_message()
            == toolchain_unavailable_message(kind)),
{
    match outcome {
        ProbeOutcome::Exited { success: true } => Ok(()),
        ProbeOutcome::Exited { success: false } => {
            let message = match kind {
                RuntimeKind::Node => String::from_str("Node.js is not available"),
                RuntimeKind::Python => String::from_str("Python3 is not available"),
                RuntimeKind::Go => String::from_str("Go is not available"),
            };
            Err(McpCoreError::RuntimeError { message })
        },
        ProbeOutcome::LaunchFailed { detail } => {
            let mut message = match kind {
                RuntimeKind::Node => String::from_str("Node.js not found: "),
                RuntimeKind::Python => String::from_str("Python3 not found: "),
                RuntimeKind::Go => String::from_str("Go not found: "),
            };
            message.append(detail.as_str());
            Err(McpCoreError::RuntimeError { message })
        },
    }
}

/// Everything the spawner needs to start a server process: program,
/// arguments, the overlaid environment, and the working directory, with
/// all three stdio streams to be piped.
#[derive(Debug, Clone)]
pub struct LaunchPlan {
    pub program: String,
    pub args: Vec<String>,
    pub env: Vec<(String, String)>,
    pub cwd: String,
}

/// Assembles the launch plan for a server: its declared command and
/// arguments as they stand, and the ambient environment overlaid with its
/// declared entries, a declared entry winning on key collision.
pub fn launch_plan(config: &McpServerConfig, working_dir: &str, ambient_env: Vec<(String, String)>)
    -> (p: LaunchPlan)
    ensures
        p.program@ == config.command@,
        p.args@ == config.args@,
        p.env@ == ambient_env@ + config.env@,
        assoc_map(p.env@) == assoc_map(ambient_env@).union_prefer_right(assoc_map(config.env@)),
        p.cwd@ == working_dir@,
{
    LaunchPlan {
        program: config.command.clone(),
        args: clone_args(&config.args),
        env: overlay_env(ambient_env, clone_env(&config.env)),
        cwd: working_dir.to_owned(),
    }
}

} // verus!
