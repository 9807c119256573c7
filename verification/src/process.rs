//! The request/response primitive over a child process's stdio pipes.
//!
//! The pipe I/O itself (spawning, writing, the bounded wait) lives with the
//! caller that owns the pipes; this module holds every decision the bridge
//! makes: which line is written for a payload, how the outcome of one
//! bounded read is classified, and how the initialize handshake reply is
//! judged.

use vstd::prelude::*;

use crate::error::{ErrorKind, McpCoreError};
use crate::text::{dec_rep, is_blank, is_ws_char, trim_line, trim_spec, u64_to_string};

verus! {

/// One request against the bridge: the payload is a full protocol message,
/// forwarded opaquely.
#[derive(Debug, Clone)]
pub struct McpRequest {
    pub command: String,
}

/// One reply from the bridge: the child's raw reply line, trimmed of
/// surrounding whitespace and not re-parsed.
#[derive(Debug, Clone)]
pub struct McpResponse {
    pub result: String,
}

/// The terminal outcome of one bounded read of the child's output: a line
/// arrived (terminator included), the stream ended before any line, the
/// bounded wait elapsed, or the read itself failed.
#[derive(Debug, Clone)]
pub enum ReadEvent {
    Line { text: String },
    Eof,
    TimedOut,
    Failed { detail: String },
}

pub open spec fn empty_line_message() -> Seq<char> {
    "MCP server returned an empty line"@
}

pub open spec fn closed_message() -> Seq<char> {
    "MCP server closed the connection (EOF)"@
}

pub open spec fn timeout_message(secs: nat) -> Seq<char> {
    "MCP server response timeout ("@ + dec_rep(secs) + " seconds)"@
}

pub open spec fn read_failed_message(detail: Seq<char>) -> Seq<char> {
    "Failed to read from MCP stdout: "@ + detail
}

/// How one read outcome is classified: a spec-level error is the kind
/// paired with the message.
pub open spec fn classify_read_spec(ev: ReadEvent, bound_secs: nat) -> Result<
    Seq<char>,
    (ErrorKind, Seq<char>),
> {
    match ev {
        ReadEvent::Line { text } => if is_blank(text@) {
            Err((ErrorKind::Process, empty_line_message()))
        } else {
            Ok(trim_spec(text@))
        },
        ReadEvent::Eof => Err((ErrorKind::Process, closed_message())),
        ReadEvent::TimedOut => Err((ErrorKind::Process, timeout_message(bound_secs))),
        ReadEvent::Failed { detail } => Err((ErrorKind::Process, read_failed_message(detail@))),
    }
}

/// Whether an executable outcome carries exactly the spec-level one.
pub open spec fn mirrors(
    r: Result<String, McpCoreError>,
    s: Result<Seq<char>, (ErrorKind, Seq<char>)>,
) -> bool {
    match (r, s) {
        (Ok(x), Ok(v)) => x@ == v,
        (Err(e), Err((k, m))) => e.spec_kind() == k && e.spec_message() == m,
        _ => false,
    }
}

/// Classifies the outcome of one bounded read, as the bridge does after
/// each request: a non-blank line succeeds with its surrounding whitespace
/// stripped; a blank line, end-of-stream, an elapsed wait and a failed read
/// are four distinct process errors.
pub fn classify_read(ev: ReadEvent, bound_secs: u64) -> (r: Result<String, McpCoreError>)
    ensures
        mirrors(r, classify_read_spec(ev, bound_secs as nat)),
{
    match ev {
        ReadEvent::Line { text } => {
            let trimmed = trim_line(text.as_str());
            if trimmed.unicode_len() == 0 {
                proof {
                    crate::text::lemma_trim_blank(text@);
                }
                Err(
                    McpCoreError::ProcessError {
                        message: String::from_str("MCP server returned an empty line"),
                    },
                )
            } else {
                proof {
                    crate::text::lemma_trim_blank(text@);
                }
                Ok(trimmed.to_owned())
            }
        },
        ReadEvent::Eof => Err(
            McpCoreError::ProcessError {
                message: String::from_str("MCP server closed the connection (EOF)"),
            },
        ),
        ReadEvent::TimedOut => {
            let mut message = String::from_str("MCP server response timeout (");
            let digits = u64_to_string(bound_secs);
            message.append(digits.as_str());
            message.append(" seconds)");
            Err(McpCoreError::ProcessError { message })
        },
        ReadEvent::Failed { detail } => {
            let mut message = String::from_str("Failed to read from MCP stdout: ");
            message.append(detail.as_str());
            Err(McpCoreError::ProcessError { message })
        },
    }
}

/// The exact bytes (as characters) written to the child for one payload:
/// the payload itself, newline-terminated.
pub open spec fn outgoing_line_spec(payload: Seq<char>) -> Seq<char> {
    payload + "\n"@
}

/// Builds the line written to the child's input for one payload.
pub fn outgoing_line(payload: &str) -> (line: String)
    ensures
        line@ == outgoing_line_spec(payload@),
{
    let mut line = payload.to_owned();
    line.append("\n");
    line
}

/// One full query cycle, given the outcome of the bounded read that
/// followed the write: the reply line is returned verbatim apart from
/// whitespace trimming, and never re-parsed.
///
/// A timed-out round cancels only the caller's wait: the write already
/// sent is not discarded and the child may still produce its reply later,
/// which the next round's read would consume. Nothing here hides that
/// gap; pairing rests entirely on the one-in-flight rule.
pub fn query_round(request: &McpRequest, ev: ReadEvent, bound_secs: u64) -> (r: Result<
    McpResponse,
    McpCoreError,
>)
    ensures
        r matches Ok(resp) ==> classify_read_spec(ev, bound_secs as nat) == Ok::<
            Seq<char>,
            (ErrorKind, Seq<char>),
        >(resp.result@),
        r matches Err(e) ==> classify_read_spec(ev, bound_secs as nat) matches Err(s) && (
        e.spec_kind() == s.0 && e.spec_message() == s.1),
{
    match classify_read(ev, bound_secs) {
        Ok(line) => Ok(McpResponse { result: line }),
        Err(e) => Err(e),
    }
}

/// Round-trip identity: against a child that echoes each input line
/// verbatim, the reply to a payload is one line holding the payload and
/// its terminator, and classification hands the payload back unchanged.
/// Payloads with embedded line terminators, or with whitespace at either
/// end (which trimming would strip), are outside the law.
pub proof fn lemma_echo_round_trip(payload: Seq<char>, reply: String, bound_secs: nat)
    requires
        payload.len() > 0,
        !is_ws_char(payload[0]),
        !is_ws_char(payload.last()),
        forall|i: int| 0 <= i < payload.len() ==> payload[i] != '\n',
        reply@ == outgoing_line_spec(payload),
    ensures
        classify_read_spec(ReadEvent::Line { text: reply }, bound_secs) == Ok::<
            Seq<char>,
            (ErrorKind, Seq<char>),
        >(payload),
{
    reveal_strlit("\n");
    assert(is_blank("\n"@)) by {
        assert(forall|i: int| 0 <= i < "\n"@.len() ==> "\n"@[i] == '\n');
    }
    crate::text::lemma_trim_terminated(payload, "\n"@);
    assert(!is_blank(reply@)) by {
        assert(reply@[0] == payload[0]);
    }
}

/// Where one bridge instance stands in its life:
/// `Spawned → Initializing → Ready → (Querying → Ready)* → Closed`.
/// The bridge has no internal lock; the querying phase is re-entered only
/// under the session's exclusive guard.
#[derive(Debug, Clone, Copy, PartialEq, Eq, Structural)]
pub enum BridgeState {
    Spawned,
    Initializing,
    Ready,
    Querying,
    Closed,
}

pub open spec fn closed_bridge_message() -> Seq<char> {
    "MCP process is closed"@
}

impl BridgeState {
    /// The handshake may begin once, right after the spawn.
    pub fn begin_initialize(&mut self) -> (r: Result<(), McpCoreError>)
        ensures
            *old(self) == BridgeState::Spawned ==> (r is Ok && *final(self)
                == BridgeState::Initializing),
            *old(self) != BridgeState::Spawned ==> (*final(self) == *old(self) && (r matches Err(e)
                && e.spec_kind() == ErrorKind::Process && e.spec_message()
                == closed_bridge_message())),
    {
        match self {
            BridgeState::Spawned => {
                *self = BridgeState::Initializing;
                Ok(())
            },
            _ => Err(
                McpCoreError::ProcessError { message: String::from_str("MCP process is closed") },
            ),
        }
    }

    /// A completed handshake makes the bridge ready for queries.
    pub fn finish_initialize(&mut self)
        requires
            *old(self) == BridgeState::Initializing,
        ensures
            *final(self) == BridgeState::Ready,
    {
        *self = BridgeState::Ready;
    }

    /// A query may begin only when the bridge is ready; after the child
    /// exits or the bridge is dropped, every call fails.
    pub fn begin_query(&mut self) -> (r: Result<(), McpCoreError>)
        ensures
            *old(self) == BridgeState::Ready ==> (r is Ok && *final(self) == BridgeState::Querying),
            *old(self) != BridgeState::Ready ==> (*final(self) == *old(self) && (r matches Err(e)
                && e.spec_kind() == ErrorKind::Process && e.spec_message()
                == closed_bridge_message())),
    {
        match self {
            BridgeState::Ready => {
                *self = BridgeState::Querying;
                Ok(())
            },
            _ => Err(
                McpCoreError::ProcessError { message: String::from_str("MCP process is closed") },
            ),
        }
    }

    /// The round trip ended (in success or failure): the bridge is ready
    /// again, in whatever state the pipe was left in.
    pub fn finish_query(&mut self)
        requires
            *old(self) == BridgeState::Querying,
        ensures
            *final(self) == BridgeState::Ready,
    {
        *self = BridgeState::Ready;
    }

    /// The child exited or the bridge is dropped; closure is final.
    pub fn close(&mut self)
        ensures
            *final(self) == BridgeState::Closed,
    {
        *self = BridgeState::Closed;
    }
}

/// Checks the three pipes of a freshly spawned child, as the bridge does
/// right after launch: a missing pipe is a fatal launch failure, reported
/// for the first missing one in the order stdin, stdout, stderr.
pub fn spawn_pipe_check(stdin_ok: bool, stdout_ok: bool, stderr_ok: bool) -> (r: Result<
    (),
    McpCoreError,
>)
    ensures
        r is Ok <==> stdin_ok && stdout_ok && stderr_ok,
        !stdin_ok ==> (r matches Err(e) && e.spec_kind() == ErrorKind::Process
            && e.spec_message() == "Failed to open stdin for MCP process"@),
        stdin_ok && !stdout_ok ==> (r matches Err(e) && e.spec_kind() == ErrorKind::Process
            && e.spec_message() == "Failed to open stdout for MCP process"@),
        stdin_ok && stdout_ok && !stderr_ok ==> (r matches Err(e) && e.spec_kind()
            == ErrorKind::Process && e.spec_message() == "Failed to open stderr for MCP process"@),
{
    if !stdin_ok {
        Err(
            McpCoreError::ProcessError {
                message: String::from_str("Failed to open stdin for MCP process"),
            },
        )
    } else if !stdout_ok {
        Err(
            McpCoreError::ProcessError {
                message: String::from_str("Failed to open stdout for MCP process"),
            },
        )
    } else if !stderr_ok {
        Err(
            McpCoreError::ProcessError {
                message: String::from_str("Failed to open stderr for MCP process"),
            },
        )
    } else {
        Ok(())
    }
}

/// The fixed initialize request: protocol version, near-empty client
/// capabilities and the client identity, as one line of JSON with keys in
/// the canonical (sorted) order the encoder emits.
pub open spec fn initialize_request_text() -> Seq<char> {
    "{\"id\":\"init\",\"jsonrpc\":\"2.0\",\"method\":\"initialize\",\"params\":{\"capabilities\":{\"roots\":{\"listChanged\":false},\"sampling\":{}},\"clientInfo\":{\"name\":\"mcp-http-core\",\"title\":\"MCP HTTP Core\",\"version\":\"0.1.0\"},\"protocolVersion\":\"2024-11-05\"}}"@
}

pub fn initialize_request_line() -> (line: String)
    ensures
        line@ == initialize_request_text(),
{
    String::from_str(
        "{\"id\":\"init\",\"jsonrpc\":\"2.0\",\"method\":\"initialize\",\"params\":{\"capabilities\":{\"roots\":{\"listChanged\":false},\"sampling\":{}},\"clientInfo\":{\"name\":\"mcp-http-core\",\"title\":\"MCP HTTP Core\",\"version\":\"0.1.0\"},\"protocolVersion\":\"2024-11-05\"}}",
    )
}

/// The fixed initialized notification, sent after the reply is judged; no
/// reply to it is expected.
pub open spec fn initialized_notification_text() -> Seq<char> {
    "{\"jsonrpc\":\"2.0\",\"method\":\"notifications/initialized\",\"params\":{}}"@
}

pub fn initialized_notification_line() -> (line: String)
    ensures
        line@ == initialized_notification_text(),
{
    String::from_str("{\"jsonrpc\":\"2.0\",\"method\":\"notifications/initialized\",\"params\":{}}")
}

/// What probing the handshake reply yields: `None` when the text is not
/// valid JSON, otherwise whether the document carries a top-level "error"
/// member. A function of the text alone.
pub uninterp spec fn init_reply_probe(s: Seq<char>) -> Option<bool>;

/// Relies on serde_json::from_str::<serde_json::Value> (which accepts
/// exactly the valid JSON texts) and serde_json::Value::get (which finds a
/// member of a JSON object by name): together they classify the reply by
/// validity and by the presence of a top-level "error" member.
#[verifier::external_body]
fn probe_init_reply(line: &str) -> (r: Option<bool>)
    ensures
        r == init_reply_probe(line@),
{
    match serde_json::from_str::<serde_json::Value>(line) {
        Err(_) => None,
        Ok(v) => Some(v.get("error").is_some()),
    }
}

pub open spec fn init_error_message() -> Seq<char> {
    "MCP initialization error"@
}

/// How the handshake judges one probed reply: an explicit error indicator
/// rejects the handshake; anything else proceeds, with a warning when the
/// reply was not even valid JSON. `Ok(true)` means "proceed, but warn".
pub open spec fn init_assessment_spec(probe: Option<bool>) -> Result<bool, (ErrorKind, Seq<char>)> {
    match probe {
        Some(true) => Err((ErrorKind::Process, init_error_message())),
        Some(false) => Ok(false),
        None => Ok(true),
    }
}

/// Judges a handshake reply line, tolerating a syntactically invalid reply
/// (the peer's compliance cannot be assumed) but rejecting an explicit
/// error indicator.
pub fn assess_init_reply(line: &str) -> (r: Result<bool, McpCoreError>)
    ensures
        r matches Ok(warn) ==> init_assessment_spec(init_reply_probe(line@)) == Ok::<
            bool,
            (ErrorKind, Seq<char>),
        >(warn),
        r matches Err(e) ==> init_assessment_spec(init_reply_probe(line@)) matches Err(s) && (
        e.spec_kind() == s.0 && e.spec_message() == s.1),
{
    match probe_init_reply(line) {
        Some(true) => Err(
            McpCoreError::ProcessError { message: String::from_str("MCP initialization error") },
        ),
        Some(false) => Ok(false),
        None => Ok(true),
    }
}

/// How a whole handshake reply step is judged: the bounded read is classified
/// first; a line that survives classification is judged as a handshake
/// reply on its trimmed text.
pub open spec fn handshake_reply_spec(ev: ReadEvent, bound_secs: nat) -> Result<
    bool,
    (ErrorKind, Seq<char>),
> {
    match classify_read_spec(ev, bound_secs) {
        Ok(line) => init_assessment_spec(init_reply_probe(line)),
        Err(e) => Err(e),
    }
}

/// Handles the reply half of the handshake: classifies the bounded read,
/// judges the surviving line, and on success hands back the initialized
/// notification to be written next, together with the parse-warning flag.
pub fn handshake_on_reply(ev: ReadEvent, bound_secs: u64) -> (r: Result<
    (String, bool),
    McpCoreError,
>)
    ensures
        r matches Ok(p) ==> handshake_reply_spec(ev, bound_secs as nat) == Ok::<
            bool,
            (ErrorKind, Seq<char>),
        >(p.1) && p.0@ == initialized_notification_text(),
        r matches Err(e) ==> handshake_reply_spec(ev, bound_secs as nat) matches Err(s) && (
        e.spec_kind() == s.0 && e.spec_message() == s.1),
{
    match classify_read(ev, bound_secs) {
        Ok(line) => match assess_init_reply(line.as_str()) {
            Ok(warn) => Ok((initialized_notification_line(), warn)),
            Err(e) => Err(e),
        },
        Err(e) => Err(e),
    }
}

} // verus!
