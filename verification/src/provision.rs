//! Provisioning: making a server's working tree ready before its process
//! is started — ensure the directory, clone once if a repository is
//! configured, build once if a build command is configured.
//!
//! The filesystem and the external tools are driven by the caller that
//! owns them; this module is the decision core: a state machine that hands
//! out the next action and consumes the outcome of each, with the ordering
//! contract (clone before build before launch) as its invariant.

use vstd::prelude::*;

use crate::error::{ErrorKind, McpCoreError};
use crate::text::{dec_rep_signed, i64_to_string};

verus! {

/// The per-server working directory, derived deterministically from the
/// server's logical name so repeated starts reuse the same tree.
pub open spec fn work_dir_spec(name: Seq<char>) -> Seq<char> {
    "/tmp/mcp-servers/"@ + name
}

pub fn get_server_work_dir(server_name: &str) -> (r: String)
    ensures
        r@ == work_dir_spec(server_name@),
{
    let mut r = String::from_str("/tmp/mcp-servers/");
    r.append(server_name);
    r
}

/// The version-control metadata marker whose existence is the sole signal
/// that cloning should be skipped.
pub open spec fn marker_path_spec(dir: Seq<char>) -> Seq<char> {
    dir + "/.git"@
}

pub fn git_marker_path(dir: &str) -> (r: String)
    ensures
        r@ == marker_path_spec(dir@),
{
    let mut r = dir.to_owned();
    r.append("/.git");
    r
}

pub open spec fn exit_code_text(code: Option<i64>) -> Seq<char> {
    match code {
        Some(c) => dec_rep_signed(c as int),
        None => "unknown"@,
    }
}

fn exit_code_string(code: Option<i64>) -> (r: String)
    ensures
        r@ == exit_code_text(code),
{
    match code {
        Some(c) => i64_to_string(c),
        None => String::from_str("unknown"),
    }
}

pub open spec fn tree_failure_message(dir: Seq<char>, detail: Seq<char>) -> Seq<char> {
    "Failed to create work directory '"@ + dir + "': "@ + detail
}

pub open spec fn clone_failure_message(code: Option<i64>, url: Seq<char>) -> Seq<char> {
    "Git clone failed with exit code "@ + exit_code_text(code) + ": "@ + url
}

pub open spec fn build_failure_message(code: Option<i64>, command: Seq<char>) -> Seq<char> {
    "Build command failed with exit code "@ + exit_code_text(code) + ": "@ + command
}

/// Where a provisioning pass stands.
#[derive(Debug, Clone, Copy, PartialEq, Eq, Structural)]
pub enum Phase {
    /// The working directory has not been ensured yet.
    NeedTree,
    /// A repository is configured; the marker has not been probed yet.
    NeedMarkerProbe,
    /// The marker was absent; the clone has not completed yet.
    NeedClone,
    /// A build command is configured; the build has not completed yet.
    NeedBuild,
    /// Provisioning is complete; the process may be started.
    Ready,
    /// A step failed; the pass is abandoned.
    Failed,
}

/// What the caller should do next.
#[derive(Debug, Clone)]
pub enum ProvisionAction {
    EnsureTree { path: String },
    ProbeMarker { path: String },
    RunClone { url: String, dest: String },
    RunBuild { command: String, dir: String },
    Launch,
    Halt,
}

/// The outcome of one action, as observed by the caller.
#[derive(Debug, Clone)]
pub enum ProvisionEvent {
    TreeCreated,
    TreeFailed { detail: String },
    MarkerProbed { present: bool },
    CloneExited { success: bool, code: Option<i64> },
    BuildExited { success: bool, code: Option<i64> },
}

/// One provisioning pass over one server's working tree.
#[derive(Debug, Clone)]
pub struct Provisioner {
    pub repository: Option<String>,
    pub build_command: Option<String>,
    pub work_dir: String,
    pub phase: Phase,
}

/// The phase that follows a completed (or rightly skipped) clone step.
pub open spec fn after_clone_phase(p: Provisioner) -> Phase {
    if p.build_command is Some {
        Phase::NeedBuild
    } else {
        Phase::Ready
    }
}

/// The phase that follows a created working directory.
pub open spec fn after_tree_phase(p: Provisioner) -> Phase {
    if p.repository is Some {
        Phase::NeedMarkerProbe
    } else {
        after_clone_phase(p)
    }
}

/// Which events can answer the pending action of each phase.
pub open spec fn applicable(p: Provisioner, ev: ProvisionEvent) -> bool {
    match ev {
        ProvisionEvent::TreeCreated => p.phase == Phase::NeedTree,
        ProvisionEvent::TreeFailed { .. } => p.phase == Phase::NeedTree,
        ProvisionEvent::MarkerProbed { .. } => p.phase == Phase::NeedMarkerProbe,
        ProvisionEvent::CloneExited { .. } => p.phase == Phase::NeedClone,
        ProvisionEvent::BuildExited { .. } => p.phase == Phase::NeedBuild,
    }
}

/// The transition relation, phase to phase; the configuration fields never
/// change.
pub open spec fn step_phase(p: Provisioner, ev: ProvisionEvent) -> Phase {
    match ev {
        ProvisionEvent::TreeCreated => after_tree_phase(p),
        ProvisionEvent::TreeFailed { .. } => Phase::Failed,
        ProvisionEvent::MarkerProbed { present } => if present {
            after_clone_phase(p)
        } else {
            Phase::NeedClone
        },
        ProvisionEvent::CloneExited { success, .. } => if success {
            after_clone_phase(p)
        } else {
            Phase::Failed
        },
        ProvisionEvent::BuildExited { success, .. } => if success {
            Phase::Ready
        } else {
            Phase::Failed
        },
    }
}

pub open spec fn spec_step(p: Provisioner, ev: ProvisionEvent) -> Provisioner {
    Provisioner {
        repository: p.repository,
        build_command: p.build_command,
        work_dir: p.work_dir,
        phase: step_phase(p, ev),
    }
}

/// Phases that can still hand out an action demand the configuration the
/// action needs.
pub open spec fn provision_wf(p: Provisioner) -> bool {
    &&& (p.phase == Phase::NeedMarkerProbe || p.phase == Phase::NeedClone) ==> p.repository is Some
    &&& p.phase == Phase::NeedBuild ==> p.build_command is Some
}

impl Provisioner {
    /// Begins a pass: nothing has been done for this tree yet.
    pub fn new(repository: Option<String>, build_command: Option<String>, work_dir: String) -> (p:
        Provisioner)
        ensures
            p.repository == repository,
            p.build_command == build_command,
            p.work_dir == work_dir,
            p.phase == Phase::NeedTree,
            provision_wf(p),
    {
        Provisioner { repository, build_command, work_dir, phase: Phase::NeedTree }
    }

    /// The pending action of the current phase. Cloning targets the work
    /// directory itself; the marker probe targets the metadata directory
    /// under it.
    pub fn next_action(&self) -> (a: ProvisionAction)
        requires
            provision_wf(*self),
        ensures
            self.phase == Phase::NeedTree ==> (a matches ProvisionAction::EnsureTree { path }
                && path@ == self.work_dir@),
            self.phase == Phase::NeedMarkerProbe ==> (a matches ProvisionAction::ProbeMarker { path }
                && path@ == marker_path_spec(self.work_dir@)),
            self.phase == Phase::NeedClone ==> (a matches ProvisionAction::RunClone { url, dest }
                && self.repository matches Some(u) && url@ == u@ && dest@ == self.work_dir@),
            self.phase == Phase::NeedBuild ==> (a matches ProvisionAction::RunBuild { command, dir }
                && self.build_command matches Some(c) && command@ == c@ && dir@ == self.work_dir@),
            self.phase == Phase::Ready ==> a is Launch,
            self.phase == Phase::Failed ==> a is Halt,
    {
        match self.phase {
            Phase::NeedTree => ProvisionAction::EnsureTree { path: self.work_dir.clone() },
            Phase::NeedMarkerProbe => ProvisionAction::ProbeMarker {
                path: git_marker_path(self.work_dir.as_str()),
            },
            Phase::NeedClone => {
                let url = match &self.repository {
                    Some(u) => u.clone(),
                    None => String::new(),
                };
                ProvisionAction::RunClone { url, dest: self.work_dir.clone() }
            },
            Phase::NeedBuild => {
                let command = match &self.build_command {
                    Some(c) => c.clone(),
                    None => String::new(),
                };
                ProvisionAction::RunBuild { command, dir: self.work_dir.clone() }
            },
            Phase::Ready => ProvisionAction::Launch,
            Phase::Failed => ProvisionAction::Halt,
        }
    }

    /// The working directory exists now (created or already present).
    pub fn on_tree_created(&mut self)
        requires
            old(self).phase == Phase::NeedTree,
        ensures
            *final(self) == spec_step(*old(self), ProvisionEvent::TreeCreated),
            provision_wf(*final(self)),
    {
        if self.repository.is_some() {
            self.phase = Phase::NeedMarkerProbe;
        } else if self.build_command.is_some() {
            self.phase = Phase::NeedBuild;
        } else {
            self.phase = Phase::Ready;
        }
    }

    /// The working directory could not be created: the pass is abandoned.
    pub fn on_tree_failed(&mut self, detail: &str) -> (e: McpCoreError)
        requires
            old(self).phase == Phase::NeedTree,
        ensures
            final(self).phase == Phase::Failed,
            final(self).repository == old(self).repository,
            final(self).build_command == old(self).build_command,
            final(self).work_dir == old(self).work_dir,
            provision_wf(*final(self)),
            e.spec_kind() == ErrorKind::Runtime,
            e.spec_message() == tree_failure_message(old(self).work_dir@, detail@),
    {
        self.phase = Phase::Failed;
        let mut message = String::from_str("Failed to create work directory '");
        message.append(self.work_dir.as_str());
        message.append("': ");
        message.append(detail);
        McpCoreError::RuntimeError { message }
    }

    /// The marker probe answered: present means already provisioned, and
    /// the clone is skipped without re-validation against the URL.
    pub fn on_marker(&mut self, present: bool)
        requires
            old(self).phase == Phase::NeedMarkerProbe,
            provision_wf(*old(self)),
        ensures
            *final(self) == spec_step(
                *old(self),
                ProvisionEvent::MarkerProbed { present },
            ),
            provision_wf(*final(self)),
    {
        if present {
            if self.build_command.is_some() {
                self.phase = Phase::NeedBuild;
            } else {
                self.phase = Phase::Ready;
            }
        } else {
            self.phase = Phase::NeedClone;
        }
    }

    /// The clone finished: a non-zero exit is fatal, with the exit code
    /// and the repository URL carried in the error.
    pub fn on_clone_exit(&mut self, success: bool, code: Option<i64>) -> (r: Result<
        (),
        McpCoreError,
    >)
        requires
            old(self).phase == Phase::NeedClone,
            provision_wf(*old(self)),
        ensures
            *final(self) == spec_step(
                *old(self),
                ProvisionEvent::CloneExited { success, code },
            ),
            provision_wf(*final(self)),
            r is Ok <==> success,
            !success ==> (r matches Err(e) && e.spec_kind() == ErrorKind::Runtime && (old(
                self,
            ).repository matches Some(u) && e.spec_message() == clone_failure_message(code, u@))),
    {
        if success {
            if self.build_command.is_some() {
                self.phase = Phase::NeedBuild;
            } else {
                self.phase = Phase::Ready;
            }
            Ok(())
        } else {
            self.phase = Phase::Failed;
            let mut message = String::from_str("Git clone failed with exit code ");
            let digits = exit_code_string(code);
            message.append(digits.as_str());
            message.append(": ");
            match &self.repository {
                Some(u) => message.append(u.as_str()),
                None => (),
            }
            Err(McpCoreError::RuntimeError { message })
        }
    }

    /// The build finished: a non-zero exit is fatal, with the exit code
    /// and the command carried in the error; the launch step is then
    /// unreachable.
    pub fn on_build_exit(&mut self, success: bool, code: Option<i64>) -> (r: Result<
        (),
        McpCoreError,
    >)
        requires
            old(self).phase == Phase::NeedBuild,
            provision_wf(*old(self)),
        ensures
            *final(self) == spec_step(
                *old(self),
                ProvisionEvent::BuildExited { success, code },
            ),
            provision_wf(*final(self)),
            r is Ok <==> success,
            !success ==> (r matches Err(e) && e.spec_kind() == ErrorKind::Runtime && (old(
                self,
            ).build_command matches Some(c) && e.spec_message() == build_failure_message(
                code,
                c@,
            ))),
    {
        if success {
            self.phase = Phase::Ready;
            Ok(())
        } else {
            self.phase = Phase::Failed;
            let mut message = String::from_str("Build command failed with exit code ");
            let digits = exit_code_string(code);
            message.append(digits.as_str());
            message.append(": ");
            match &self.build_command {
                Some(c) => message.append(c.as_str()),
                None => (),
            }
            Err(McpCoreError::RuntimeError { message })
        }
    }
}

/// A sequence of events each applicable where it lands.
pub open spec fn wf_run(p: Provisioner, evs: Seq<ProvisionEvent>) -> bool
    decreases evs.len(),
{
    evs.len() == 0 || (applicable(p, evs[0]) && wf_run(spec_step(p, evs[0]), evs.drop_first()))
}

/// Every phase the machine passes through, the starting one included.
pub open spec fn phase_trace(p: Provisioner, evs: Seq<ProvisionEvent>) -> Seq<Phase>
    decreases evs.len(),
{
    if evs.len() == 0 {
        seq![p.phase]
    } else {
        seq![p.phase] + phase_trace(spec_step(p, evs[0]), evs.drop_first())
    }
}

pub open spec fn count_phase(s: Seq<Phase>, ph: Phase) -> nat
    decreases s.len(),
{
    if s.len() == 0 {
        0
    } else {
        (if s[0] == ph {
            1nat
        } else {
            0nat
        }) + count_phase(s.drop_first(), ph)
    }
}

proof fn lemma_count_single(head: Phase, ph: Phase)
    ensures
        count_phase(seq![head], ph) == (if head == ph {
            1nat
        } else {
            0nat
        }),
{
    assert(seq![head].drop_first() =~= Seq::<Phase>::empty());
    assert(count_phase(Seq::<Phase>::empty(), ph) == 0);
}

proof fn lemma_count_cons(head: Phase, rest: Seq<Phase>, ph: Phase)
    ensures
        count_phase(seq![head] + rest, ph) == (if head == ph {
            1nat
        } else {
            0nat
        }) + count_phase(rest, ph),
{
    assert((seq![head] + rest)[0] == head);
    assert((seq![head] + rest).drop_first() =~= rest);
}

/// Once past the clone decision — building, ready, or failed — a run never
/// passes through the cloning phase again.
proof fn lemma_no_clone_from(p: Provisioner, evs: Seq<ProvisionEvent>)
    requires
        p.phase == Phase::NeedBuild || p.phase == Phase::Ready || p.phase == Phase::Failed,
        wf_run(p, evs),
    ensures
        count_phase(phase_trace(p, evs), Phase::NeedClone) == 0,
    decreases evs.len(),
{
    if evs.len() == 0 {
        lemma_count_single(p.phase, Phase::NeedClone);
    } else {
        let p1 = spec_step(p, evs[0]);
        assert(applicable(p, evs[0]));
        assert(p1.phase == Phase::Ready || p1.phase == Phase::Failed);
        lemma_no_clone_from(p1, evs.drop_first());
        lemma_count_cons(p.phase, phase_trace(p1, evs.drop_first()), Phase::NeedClone);
    }
}

/// Provisioning idempotence: a pass that finds the version-control marker
/// already present never reaches the cloning phase — the clone is
/// performed at most once per tree — and moves straight to the build step
/// or to readiness.
pub proof fn lemma_marker_skips_clone(p: Provisioner, evs: Seq<ProvisionEvent>)
    requires
        provision_wf(p),
        p.phase == Phase::NeedMarkerProbe,
        evs.len() > 0,
        evs[0] matches ProvisionEvent::MarkerProbed { present: true },
        wf_run(p, evs),
    ensures
        count_phase(phase_trace(p, evs), Phase::NeedClone) == 0,
        spec_step(p, evs[0]).phase == after_clone_phase(p),
{
    let p1 = spec_step(p, evs[0]);
    lemma_no_clone_from(p1, evs.drop_first());
    lemma_count_cons(p.phase, phase_trace(p1, evs.drop_first()), Phase::NeedClone);
}

/// A pass that finds the marker absent clones exactly once, whatever
/// events follow.
pub proof fn lemma_fresh_tree_clones_once(p: Provisioner, evs: Seq<ProvisionEvent>)
    requires
        provision_wf(p),
        p.phase == Phase::NeedMarkerProbe,
        evs.len() > 0,
        evs[0] matches ProvisionEvent::MarkerProbed { present: false },
        wf_run(p, evs),
    ensures
        count_phase(phase_trace(p, evs), Phase::NeedClone) == 1,
{
    let p1 = spec_step(p, evs[0]);
    assert(p1.phase == Phase::NeedClone);
    let rest = evs.drop_first();
    assert(wf_run(p1, rest));
    if rest.len() == 0 {
        lemma_count_single(p1.phase, Phase::NeedClone);
        lemma_count_cons(p.phase, phase_trace(p1, rest), Phase::NeedClone);
    } else {
        let p2 = spec_step(p1, rest[0]);
        assert(applicable(p1, rest[0]));
        assert(p2.phase == Phase::NeedBuild || p2.phase == Phase::Ready || p2.phase
            == Phase::Failed);
        assert(wf_run(p2, rest.drop_first()));
        lemma_no_clone_from(p2, rest.drop_first());
        lemma_count_cons(p1.phase, phase_trace(p2, rest.drop_first()), Phase::NeedClone);
        lemma_count_cons(p.phase, phase_trace(p1, rest), Phase::NeedClone);
    }
}

/// Build failure propagation: after a failing build the machine is halted
/// for good — no later event is applicable, and the ready phase, the only
/// one whose action launches the process, is never reached.
pub proof fn lemma_build_failure_never_launches(p: Provisioner, evs: Seq<ProvisionEvent>)
    requires
        provision_wf(p),
        p.phase == Phase::NeedBuild,
        evs.len() > 0,
        evs[0] matches ProvisionEvent::BuildExited { success: false, .. },
        wf_run(p, evs),
    ensures
        count_phase(phase_trace(p, evs), Phase::Ready) == 0,
{
    let p1 = spec_step(p, evs[0]);
    assert(p1.phase == Phase::Failed);
    lemma_never_ready_once_failed(p1, evs.drop_first());
    lemma_count_cons(p.phase, phase_trace(p1, evs.drop_first()), Phase::Ready);
}

/// No transition leaves the failed phase.
proof fn lemma_never_ready_once_failed(p: Provisioner, evs: Seq<ProvisionEvent>)
    requires
        p.phase == Phase::Failed,
        wf_run(p, evs),
    ensures
        count_phase(phase_trace(p, evs), Phase::Ready) == 0,
    decreases evs.len(),
{
    if evs.len() == 0 {
        lemma_count_single(p.phase, Phase::Ready);
    } else {
        assert(!applicable(p, evs[0]));
    }
}

} // verus!
