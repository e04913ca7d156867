//! The course of an attempt to reopen a native host service: what the container
//! has to keep when its host service dies, step by step.

use vstd::prelude::*;
use crate::linux_kvm_recovery_smoke::runner::Owner;
use crate::linux_kvm_recovery_smoke::soak_runner::Progress;
use crate::linux_native_live_recovery_smoke::capture::{
    check_download, check_upload, download_fault, upload_fault,
};
use crate::linux_native_live_recovery_smoke::report::LinuxNativeLiveRecoveryEvidence;
use crate::model::ContainerState;
use crate::process::NativeLinuxProcessIdentity;
use crate::text::{chars_of, optional_view, text_eq};

verus! {

/// What an attempt under way has to remember.
#[derive(Debug)]
pub struct LiveMemory {
    /// The generation that was created.
    pub generation: u64,
    /// The init process of the container.
    pub init: Option<NativeLinuxProcessIdentity>,
    /// The process that echoes across the death of the host service.
    pub retained_exec: Option<String>,
    pub exec_io_before_kill: bool,
    pub write_stdin_after_reattach: bool,
    pub read_output_after_reattach: bool,
    /// The process that echoes under the replacement.
    pub new_exec: Option<String>,
}

/// The number of a live init process, if there is one.
pub open spec fn live_init(pid: Option<i32>) -> Option<u32> {
    match pid {
        Some(pid) => if pid > 1 {
            Some(pid as u32)
        } else {
            None
        },
        None => None,
    }
}

/// The number of a live init process, if there is one.
pub fn live_init_pid(pid: Option<i32>) -> (found: Option<u32>)
    ensures
        found == live_init(pid),
{
    match pid {
        Some(pid) => if pid > 1 {
            Some(pid as u32)
        } else {
            None
        },
        None => None,
    }
}

/// What is wrong with a started container, if anything.
pub open spec fn start_fault(status: ContainerState, pid: Option<i32>) -> Option<Seq<char>> {
    if !(status is Running) {
        Some("Native Live start did not return Running state"@)
    } else if live_init(pid) is None {
        Some("Native Live start did not retain a live init PID"@)
    } else {
        None
    }
}

fn check_start(status: ContainerState, pid: Option<i32>) -> (fault: Option<String>)
    ensures
        optional_view(fault) == start_fault(status, pid),
{
    if status != ContainerState::Running {
        Some("Native Live start did not return Running state".to_owned())
    } else if live_init_pid(pid).is_none() {
        Some("Native Live start did not retain a live init PID".to_owned())
    } else {
        None
    }
}

/// Whether the replacement shows a running container with the same init process.
pub open spec fn reattached(
    init: Option<NativeLinuxProcessIdentity>,
    status: ContainerState,
    pid: Option<i32>,
    live: bool,
) -> bool {
    &&& status is Running
    &&& pid is Some
    &&& pid->0 >= 0
    &&& init is Some
    &&& init->0.pid == pid->0
    &&& live
}

fn is_reattached(
    init: &Option<NativeLinuxProcessIdentity>,
    status: ContainerState,
    pid: Option<i32>,
    live: bool,
) -> (holds: bool)
    ensures
        holds == reattached(*init, status, pid, live),
{
    let same = match (init, pid) {
        (Some(init), Some(pid)) => pid >= 0 && init.pid == pid as u32,
        _ => false,
    };
    status == ContainerState::Running && same && live
}

/// Whether a process is among others.
pub open spec fn listed(name: Option<String>, others: Seq<String>) -> bool {
    name is Some && exists|i: int| 0 <= i < others.len() && (#[trigger] others[i])@ == name->0@
}

fn is_listed(name: &Option<String>, others: &Vec<String>) -> (holds: bool)
    ensures
        holds == listed(*name, others@),
{
    let wanted = match name {
        Some(wanted) => wanted,
        None => return false,
    };
    let mut next: usize = 0;
    while next < others.len()
        invariant
            next <= others@.len(),
            *name == Some(*wanted),
            forall|i: int| 0 <= i < next ==> (#[trigger] others@[i])@ != wanted@,
        decreases others@.len() - next,
    {
        if text_eq(&others[next], wanted) {
            assert(others@[next as int]@ == wanted@);
            return true;
        }
        next = next + 1;
    }
    false
}

/// Whether a process was named.
pub open spec fn named(name: Option<String>) -> bool {
    name is Some && name->0@.len() > 0
}

fn is_named(name: &Option<String>) -> (holds: bool)
    ensures
        holds == named(*name),
{
    match name {
        Some(name) => chars_of(name).len() > 0,
        None => false,
    }
}

fn prefixed(prefix: &str, nonce: &str) -> (text: String)
    ensures
        text@ == prefix@ + nonce@,
{
    let mut text = prefix.to_owned();
    text.append(nonce);
    text
}

/// The process that echoes across the death of the host service.
pub fn retained_exec_id(nonce: &str) -> (id: String)
    ensures
        id@ == "live-io-"@ + nonce@,
{
    prefixed("live-io-", nonce)
}

/// The process that echoes under the replacement.
pub fn new_exec_id(nonce: &str) -> (id: String)
    ensures
        id@ == "live-new-"@ + nonce@,
{
    prefixed("live-new-", nonce)
}

/// What is written to a process that echoes.
pub fn echo_line(prefix: &str, nonce: &str) -> (line: String)
    ensures
        line@ == prefix@ + nonce@ + "\n"@,
{
    let mut line = prefixed(prefix, nonce);
    line.append("\n");
    line
}

/// What a process answers that echoes.
pub fn echoed_line(prefix: &str, nonce: &str) -> (line: String)
    ensures
        line@ == "echo:"@ + (prefix@ + nonce@ + "\n"@),
{
    prefixed("echo:", &echo_line(prefix, nonce))
}

/// What a process that echoes says when it is ready.
pub const ECHO_READY: &'static str = "live-io-ready\n";

/// The command of a process that echoes. It stays after the end of its input, so
/// that the death of the host service does not end it.
pub const ECHO_COMMAND: &'static str =
    "printf 'live-io-ready\\n'; while true; do if IFS= read -r line; then printf 'echo:%s\\n' \"$line\"; else while true; do /bin/busybox sleep 3600 || sleep 3600; done; fi; done";

/// Whether the process that echoes was shown to outlive the host service.
pub open spec fn exec_io_shown(memory: LiveMemory) -> bool {
    memory.exec_io_before_kill && memory.write_stdin_after_reattach && named(memory.retained_exec)
}


/// One step of an attempt to reopen a host service.
#[derive(Clone, Copy, Debug, PartialEq, Eq, Structural)]
pub enum LiveStep {
    /// Create the container.
    Create,
    /// Start the container.
    Start,
    /// Identify its init process.
    Identify,
    /// Start a process that echoes.
    Exec,
    /// Wait until it is ready.
    ExecReady,
    /// Wait for its first echo.
    ExecEchoed,
    /// Upload a file.
    Upload,
    /// Kill the first host service.
    Kill,
    /// Look for the init process.
    Survive,
    /// Remove the socket of the dead host service.
    Reclaim,
    /// Ask the replacement for the container.
    State,
    /// Ask the replacement for the container's processes.
    Processes,
    /// Write to the process that echoes.
    WriteAfter,
    /// Wait for its echo.
    ReadAfter,
    /// Start another process that echoes.
    NewExec,
    /// Wait until it is ready.
    NewReady,
    /// Wait for its echo.
    NewEchoed,
    /// Download the file.
    Download,
    /// Kill the container.
    KillContainer,
    /// Wait for its end.
    Wait,
    /// Delete it.
    Delete,
    /// Stop the replacement.
    Terminate,
    /// Nothing is left to do.
    Complete,
    /// The run has failed.
    Stopped,
}

/// An attempt to reopen a host service under way.
#[derive(Debug)]
pub struct LiveRun {
    pub step: LiveStep,
    pub nonce: String,
    pub memory: LiveMemory,
    pub evidence: LinuxNativeLiveRecoveryEvidence,
}

/// The step that follows a step.
pub open spec fn live_step_successor(step: LiveStep) -> LiveStep {
    match step {
        LiveStep::Create => LiveStep::Start,
        LiveStep::Start => LiveStep::Identify,
        LiveStep::Identify => LiveStep::Exec,
        LiveStep::Exec => LiveStep::ExecReady,
        LiveStep::ExecReady => LiveStep::ExecEchoed,
        LiveStep::ExecEchoed => LiveStep::Upload,
        LiveStep::Upload => LiveStep::Kill,
        LiveStep::Kill => LiveStep::Survive,
        LiveStep::Survive => LiveStep::Reclaim,
        LiveStep::Reclaim => LiveStep::State,
        LiveStep::State => LiveStep::Processes,
        LiveStep::Processes => LiveStep::WriteAfter,
        LiveStep::WriteAfter => LiveStep::ReadAfter,
        LiveStep::ReadAfter => LiveStep::NewExec,
        LiveStep::NewExec => LiveStep::NewReady,
        LiveStep::NewReady => LiveStep::NewEchoed,
        LiveStep::NewEchoed => LiveStep::Download,
        LiveStep::Download => LiveStep::KillContainer,
        LiveStep::KillContainer => LiveStep::Wait,
        LiveStep::Wait => LiveStep::Delete,
        LiveStep::Delete => LiveStep::Terminate,
        LiveStep::Terminate => LiveStep::Complete,
        LiveStep::Complete => LiveStep::Complete,
        LiveStep::Stopped => LiveStep::Stopped,
    }
}

fn live_step_after(step: LiveStep) -> (next: LiveStep)
    ensures
        next == live_step_successor(step),
{
    match step {
        LiveStep::Create => LiveStep::Start,
        LiveStep::Start => LiveStep::Identify,
        LiveStep::Identify => LiveStep::Exec,
        LiveStep::Exec => LiveStep::ExecReady,
        LiveStep::ExecReady => LiveStep::ExecEchoed,
        LiveStep::ExecEchoed => LiveStep::Upload,
        LiveStep::Upload => LiveStep::Kill,
        LiveStep::Kill => LiveStep::Survive,
        LiveStep::Survive => LiveStep::Reclaim,
        LiveStep::Reclaim => LiveStep::State,
        LiveStep::State => LiveStep::Processes,
        LiveStep::Processes => LiveStep::WriteAfter,
        LiveStep::WriteAfter => LiveStep::ReadAfter,
        LiveStep::ReadAfter => LiveStep::NewExec,
        LiveStep::NewExec => LiveStep::NewReady,
        LiveStep::NewReady => LiveStep::NewEchoed,
        LiveStep::NewEchoed => LiveStep::Download,
        LiveStep::Download => LiveStep::KillContainer,
        LiveStep::KillContainer => LiveStep::Wait,
        LiveStep::Wait => LiveStep::Delete,
        LiveStep::Delete => LiveStep::Terminate,
        LiveStep::Terminate => LiveStep::Complete,
        LiveStep::Complete => LiveStep::Complete,
        LiveStep::Stopped => LiveStep::Stopped,
    }
}

/// The place of a step in the course of the run.
pub open spec fn live_step_rank(step: LiveStep) -> int {
    match step {
        LiveStep::Create => 0,
        LiveStep::Start => 1,
        LiveStep::Identify => 2,
        LiveStep::Exec => 3,
        LiveStep::ExecReady => 4,
        LiveStep::ExecEchoed => 5,
        LiveStep::Upload => 6,
        LiveStep::Kill => 7,
        LiveStep::Survive => 8,
        LiveStep::Reclaim => 9,
        LiveStep::State => 10,
        LiveStep::Processes => 11,
        LiveStep::WriteAfter => 12,
        LiveStep::ReadAfter => 13,
        LiveStep::NewExec => 14,
        LiveStep::NewReady => 15,
        LiveStep::NewEchoed => 16,
        LiveStep::Download => 17,
        LiveStep::KillContainer => 18,
        LiveStep::Wait => 19,
        LiveStep::Delete => 20,
        LiveStep::Terminate => 21,
        LiveStep::Complete => 22,
        LiveStep::Stopped => -1,
    }
}

/// Whether a run went on from a step: it remembers this and has shown this, and a
/// fault stops it where there is one.
pub open spec fn moved(
    before: LiveRun,
    memory: LiveMemory,
    evidence: LinuxNativeLiveRecoveryEvidence,
    fault: Option<Seq<char>>,
    outcome: (LiveRun, Progress),
) -> bool {
    let (after, progress) = outcome;
    &&& after.nonce == before.nonce
    &&& after.memory == memory
    &&& after.evidence == evidence
    &&& match fault {
        Some(reason) => progress matches Progress::Failed(message) && message@ == reason
            && after.step is Stopped,
        None => progress is Next && after.step == live_step_successor(before.step),
    }
}

/// Whether a run was left as it was, at a step that asks for something else.
pub open spec fn misplaced(before: LiveRun, outcome: (LiveRun, Progress)) -> bool {
    outcome.1 is Misplaced && outcome.0 == before
}

/// The host service that is stopped when a step fails.
pub open spec fn owner_at(step: LiveStep) -> Option<Owner> {
    let rank = live_step_rank(step);
    if 0 <= rank <= live_step_rank(LiveStep::Upload) {
        Some(Owner::First)
    } else if live_step_rank(LiveStep::State) <= rank <= live_step_rank(LiveStep::Terminate) {
        Some(Owner::Replacement)
    } else {
        None
    }
}

/// The host service that is stopped when a step fails. The container of a
/// replacement is killed and deleted before that.
pub fn owner_to_stop(step: LiveStep) -> (owner: Option<Owner>)
    ensures
        owner == owner_at(step),
{
    match step {
        LiveStep::Create | LiveStep::Start | LiveStep::Identify | LiveStep::Exec
        | LiveStep::ExecReady | LiveStep::ExecEchoed | LiveStep::Upload => Some(Owner::First),
        LiveStep::Kill | LiveStep::Survive | LiveStep::Reclaim | LiveStep::Complete
        | LiveStep::Stopped => None,
        _ => Some(Owner::Replacement),
    }
}

impl LiveRun {
    /// What a run has shown by the time it is at its step.
    pub open spec fn shown(self) -> bool {
        let rank = live_step_rank(self.step);
        let shown = self.evidence;
        &&& rank > 6 ==> shown.file_upload_before_kill
        &&& rank > 7 ==> shown.host_sigkill_delivered
        &&& rank > 8 ==> shown.init_survived_host_sigkill
        &&& rank > 10 ==> shown.replacement_state_running
        &&& rank > 13 ==> shown.retained_exec_io_proven
        &&& rank > 17 ==> shown.file_download_after_reattach && shown.retained_filesystem_proven
    }

    /// An attempt before its first step.
    pub fn start(nonce: String, evidence: LinuxNativeLiveRecoveryEvidence) -> (run: LiveRun)
        ensures
            run == (LiveRun {
                step: LiveStep::Create,
                nonce,
                memory: LiveMemory {
                    generation: 0,
                    init: None,
                    retained_exec: None,
                    exec_io_before_kill: false,
                    write_stdin_after_reattach: false,
                    read_output_after_reattach: false,
                    new_exec: None,
                },
                evidence,
            }),
            run.shown(),
    {
        LiveRun {
            step: LiveStep::Create,
            nonce,
            memory: LiveMemory {
                generation: 0,
                init: None,
                retained_exec: None,
                exec_io_before_kill: false,
                write_stdin_after_reattach: false,
                read_output_after_reattach: false,
                new_exec: None,
            },
            evidence,
        }
    }

    /// Goes on with what was shown, or stops at a fault.
    fn go_on(
        step: LiveStep,
        nonce: String,
        memory: LiveMemory,
        evidence: LinuxNativeLiveRecoveryEvidence,
        fault: Option<String>,
    ) -> (outcome: (LiveRun, Progress))
        ensures
            match fault {
                Some(reason) => outcome.0 == (LiveRun {
                    step: LiveStep::Stopped,
                    nonce,
                    memory,
                    evidence,
                })
                    && outcome.1 == Progress::Failed(reason),
                None => outcome.0 == (LiveRun {
                    step: live_step_successor(step),
                    nonce,
                    memory,
                    evidence,
                })
                    && outcome.1 is Next,
            },
    {
        match fault {
            Some(reason) => (
                LiveRun { step: LiveStep::Stopped, nonce, memory, evidence },
                Progress::Failed(reason),
            ),
            None => (
                LiveRun {
                    step: live_step_after(step),
                    nonce,
                    memory,
                    evidence,
                },
                Progress::Next,
            ),
        }
    }

    /// Stops at a step that could not be carried out.
    pub fn failed(self, reason: String) -> (outcome: (LiveRun, Progress))
        ensures
            if self.step is Complete || self.step is Stopped {
                misplaced(self, outcome)
            } else {
                moved(self, self.memory, self.evidence, Some(reason@), outcome)
            },
            self.shown() ==> outcome.0.shown(),
    {
        if self.step == LiveStep::Complete || self.step == LiveStep::Stopped {
            return (self, Progress::Misplaced);
        }
        let LiveRun { step, nonce, memory, evidence } = self;
        Self::go_on(step, nonce, memory, evidence, Some(reason))
    }

    /// Takes what the create answered.
    pub fn created(self, status: ContainerState, generation: u64) -> (outcome: (LiveRun, Progress))
        ensures
            if self.step is Create {
                moved(
                    self,
                    LiveMemory { generation, ..self.memory },
                    self.evidence,
                    if !(status is Created) {
                        Some("Native Live create did not retain Created state"@)
                    } else {
                        None
                    },
                    outcome,
                )
            } else {
                misplaced(self, outcome)
            },
            self.shown() ==> outcome.0.shown(),
    {
        if self.step != LiveStep::Create {
            return (self, Progress::Misplaced);
        }
        let LiveRun { step, nonce, memory, evidence } = self;
        let fault: Option<String> = if status != ContainerState::Created {
            Some("Native Live create did not retain Created state".to_owned())
        } else {
            None
        };
        let shown = evidence;
        let memory = LiveMemory { generation, ..memory };
        Self::go_on(step, nonce, memory, shown, fault)
    }

    /// Takes what the start answered.
    pub fn started(self, status: ContainerState, pid: Option<i32>) -> (outcome: (LiveRun, Progress))
        ensures
            if self.step is Start {
                moved(
                    self,
                    self.memory,
                    self.evidence,
                    start_fault(status, pid),
                    outcome,
                )
            } else {
                misplaced(self, outcome)
            },
            self.shown() ==> outcome.0.shown(),
    {
        if self.step != LiveStep::Start {
            return (self, Progress::Misplaced);
        }
        let LiveRun { step, nonce, memory, evidence } = self;
        let fault: Option<String> = check_start(status, pid);
        let shown = evidence;
        Self::go_on(step, nonce, memory, shown, fault)
    }

    /// Takes the identity of the init process.
    pub fn identified(self, identity: NativeLinuxProcessIdentity) -> (outcome: (LiveRun, Progress))
        ensures
            if self.step is Identify {
                moved(
                    self,
                    LiveMemory { init: Some(identity), ..self.memory },
                    self.evidence,
                    None,
                    outcome,
                )
            } else {
                misplaced(self, outcome)
            },
            self.shown() ==> outcome.0.shown(),
    {
        if self.step != LiveStep::Identify {
            return (self, Progress::Misplaced);
        }
        let LiveRun { step, nonce, memory, evidence } = self;
        let fault: Option<String> = None;
        let shown = evidence;
        let memory = LiveMemory { init: Some(identity), ..memory };
        Self::go_on(step, nonce, memory, shown, fault)
    }

    /// Takes that the process that echoes was started.
    pub fn exec_started(self) -> (outcome: (LiveRun, Progress))
        ensures
            if self.step is Exec {
                let after = outcome.0;
                &&& after.step is ExecReady
                &&& outcome.1 is Next
                &&& after.memory.retained_exec is Some
                &&& after.memory.retained_exec->0@ == "live-io-"@ + self.nonce@
                &&& after.memory == (LiveMemory {
                    retained_exec: after.memory.retained_exec,
                    ..self.memory
                })
                &&& after.nonce == self.nonce
                &&& after.evidence == self.evidence
            } else {
                misplaced(self, outcome)
            },
            self.shown() ==> outcome.0.shown(),
    {
        if self.step != LiveStep::Exec {
            return (self, Progress::Misplaced);
        }
        let LiveRun { step, nonce, memory, evidence } = self;
        let memory = LiveMemory { retained_exec: Some(retained_exec_id(&nonce)), ..memory };
        Self::go_on(step, nonce, memory, evidence, None)
    }

    /// Takes that it is ready.
    pub fn exec_ready(self) -> (outcome: (LiveRun, Progress))
        ensures
            if self.step is ExecReady {
                moved(
                    self,
                    self.memory,
                    self.evidence,
                    None,
                    outcome,
                )
            } else {
                misplaced(self, outcome)
            },
            self.shown() ==> outcome.0.shown(),
    {
        if self.step != LiveStep::ExecReady {
            return (self, Progress::Misplaced);
        }
        let LiveRun { step, nonce, memory, evidence } = self;
        let fault: Option<String> = None;
        let shown = evidence;
        Self::go_on(step, nonce, memory, shown, fault)
    }

    /// Takes that it has echoed.
    pub fn exec_echoed(self) -> (outcome: (LiveRun, Progress))
        ensures
            if self.step is ExecEchoed {
                moved(
                    self,
                    LiveMemory { exec_io_before_kill: true, ..self.memory },
                    self.evidence,
                    None,
                    outcome,
                )
            } else {
                misplaced(self, outcome)
            },
            self.shown() ==> outcome.0.shown(),
    {
        if self.step != LiveStep::ExecEchoed {
            return (self, Progress::Misplaced);
        }
        let LiveRun { step, nonce, memory, evidence } = self;
        let fault: Option<String> = None;
        let shown = evidence;
        let memory = LiveMemory { exec_io_before_kill: true, ..memory };
        Self::go_on(step, nonce, memory, shown, fault)
    }

    /// Takes the size that the upload reports.
    pub fn uploaded(self, size: u64) -> (outcome: (LiveRun, Progress))
        ensures
            if self.step is Upload {
                moved(
                    self,
                    self.memory,
                    LinuxNativeLiveRecoveryEvidence {
                        file_upload_before_kill: self.evidence.file_upload_before_kill
                            || upload_fault(self.nonce@, size) is None,
                        ..self.evidence
                    },
                    upload_fault(self.nonce@, size),
                    outcome,
                )
            } else {
                misplaced(self, outcome)
            },
            self.shown() ==> outcome.0.shown(),
    {
        if self.step != LiveStep::Upload {
            return (self, Progress::Misplaced);
        }
        let LiveRun { step, nonce, memory, evidence } = self;
        let fault = check_upload(&nonce, size);
        let uploaded = evidence.file_upload_before_kill || fault.is_none();
        let fault: Option<String> = fault;
        let shown = LinuxNativeLiveRecoveryEvidence {
            file_upload_before_kill: uploaded,
            ..evidence
        };
        Self::go_on(step, nonce, memory, shown, fault)
    }

    /// Takes that the first host service was killed and reaped.
    pub fn host_killed(self) -> (outcome: (LiveRun, Progress))
        ensures
            if self.step is Kill {
                moved(
                    self,
                    self.memory,
                    LinuxNativeLiveRecoveryEvidence {
                        host_sigkill_delivered: true,
                        ..self.evidence
                    },
                    None,
                    outcome,
                )
            } else {
                misplaced(self, outcome)
            },
            self.shown() ==> outcome.0.shown(),
    {
        if self.step != LiveStep::Kill {
            return (self, Progress::Misplaced);
        }
        let LiveRun { step, nonce, memory, evidence } = self;
        let fault: Option<String> = None;
        let shown = LinuxNativeLiveRecoveryEvidence { host_sigkill_delivered: true, ..evidence };
        Self::go_on(step, nonce, memory, shown, fault)
    }

    /// Takes whether the init process is still there.
    pub fn survived(self, live: bool) -> (outcome: (LiveRun, Progress))
        ensures
            if self.step is Survive {
                moved(
                    self,
                    self.memory,
                    LinuxNativeLiveRecoveryEvidence {
                        init_survived_host_sigkill: live,
                        ..self.evidence
                    },
                    if !live {
                        Some(
                            "Live init was reaped after Host SIGKILL (expected survival under session supervisor)"@,
                        )
                    } else {
                        None
                    },
                    outcome,
                )
            } else {
                misplaced(self, outcome)
            },
            self.shown() ==> outcome.0.shown(),
    {
        if self.step != LiveStep::Survive {
            return (self, Progress::Misplaced);
        }
        let LiveRun { step, nonce, memory, evidence } = self;
        let fault: Option<String> = if !live {
            Some(
                "Live init was reaped after Host SIGKILL (expected survival under session supervisor)".to_owned(),
            )
        } else {
            None
        };
        let shown = LinuxNativeLiveRecoveryEvidence {
            init_survived_host_sigkill: live,
            ..evidence
        };
        Self::go_on(step, nonce, memory, shown, fault)
    }

    /// Takes that the socket of the dead host service is gone.
    pub fn socket_reclaimed(self) -> (outcome: (LiveRun, Progress))
        ensures
            if self.step is Reclaim {
                moved(
                    self,
                    self.memory,
                    self.evidence,
                    None,
                    outcome,
                )
            } else {
                misplaced(self, outcome)
            },
            self.shown() ==> outcome.0.shown(),
    {
        if self.step != LiveStep::Reclaim {
            return (self, Progress::Misplaced);
        }
        let LiveRun { step, nonce, memory, evidence } = self;
        let fault: Option<String> = None;
        let shown = evidence;
        Self::go_on(step, nonce, memory, shown, fault)
    }

    /// Takes the container as the replacement knows it, and whether its init process is still there.
    pub fn state_recovered(self, status: ContainerState, pid: Option<i32>, live: bool) -> (outcome: (
        LiveRun,
        Progress,
    ))
        ensures
            if self.step is State {
                moved(
                    self,
                    self.memory,
                    LinuxNativeLiveRecoveryEvidence {
                        replacement_state_running: reattached(self.memory.init, status, pid, live),
                        ..self.evidence
                    },
                    if !reattached(self.memory.init, status, pid, live) {
                        Some("replacement did not reattach Running with continuous init identity"@)
                    } else {
                        None
                    },
                    outcome,
                )
            } else {
                misplaced(self, outcome)
            },
            self.shown() ==> outcome.0.shown(),
    {
        if self.step != LiveStep::State {
            return (self, Progress::Misplaced);
        }
        let LiveRun { step, nonce, memory, evidence } = self;
        let running = is_reattached(&memory.init, status, pid, live);
        let fault: Option<String> = if !running {
            Some("replacement did not reattach Running with continuous init identity".to_owned())
        } else {
            None
        };
        let shown = LinuxNativeLiveRecoveryEvidence {
            replacement_state_running: running,
            ..evidence
        };
        Self::go_on(step, nonce, memory, shown, fault)
    }

    /// Takes the processes of the container.
    pub fn processes_listed(self, processes: &Vec<String>) -> (outcome: (LiveRun, Progress))
        ensures
            if self.step is Processes {
                moved(
                    self,
                    self.memory,
                    self.evidence,
                    if !listed(self.memory.retained_exec, processes@) {
                        Some(
                            "replacement Live process inventory lost the retained exec process ID"@,
                        )
                    } else {
                        None
                    },
                    outcome,
                )
            } else {
                misplaced(self, outcome)
            },
            self.shown() ==> outcome.0.shown(),
    {
        if self.step != LiveStep::Processes {
            return (self, Progress::Misplaced);
        }
        let LiveRun { step, nonce, memory, evidence } = self;
        let fault: Option<String> = if !is_listed(&memory.retained_exec, processes) {
            Some("replacement Live process inventory lost the retained exec process ID".to_owned())
        } else {
            None
        };
        let shown = evidence;
        Self::go_on(step, nonce, memory, shown, fault)
    }

    /// Takes that the process that echoes was written to.
    pub fn written_after(self) -> (outcome: (LiveRun, Progress))
        ensures
            if self.step is WriteAfter {
                moved(
                    self,
                    LiveMemory { write_stdin_after_reattach: true, ..self.memory },
                    self.evidence,
                    None,
                    outcome,
                )
            } else {
                misplaced(self, outcome)
            },
            self.shown() ==> outcome.0.shown(),
    {
        if self.step != LiveStep::WriteAfter {
            return (self, Progress::Misplaced);
        }
        let LiveRun { step, nonce, memory, evidence } = self;
        let fault: Option<String> = None;
        let shown = evidence;
        let memory = LiveMemory { write_stdin_after_reattach: true, ..memory };
        Self::go_on(step, nonce, memory, shown, fault)
    }

    /// Takes that it has echoed.
    pub fn echoed_after(self) -> (outcome: (LiveRun, Progress))
        ensures
            if self.step is ReadAfter {
                moved(
                    self,
                    LiveMemory { read_output_after_reattach: true, ..self.memory },
                    LinuxNativeLiveRecoveryEvidence {
                        retained_exec_io_proven: exec_io_shown(self.memory),
                        ..self.evidence
                    },
                    if !exec_io_shown(self.memory) {
                        Some("Live retained exec I/O evidence failed its completeness audit"@)
                    } else {
                        None
                    },
                    outcome,
                )
            } else {
                misplaced(self, outcome)
            },
            self.shown() ==> outcome.0.shown(),
    {
        if self.step != LiveStep::ReadAfter {
            return (self, Progress::Misplaced);
        }
        let LiveRun { step, nonce, memory, evidence } = self;
        let proven = memory.exec_io_before_kill && memory.write_stdin_after_reattach && is_named(
            &memory.retained_exec,
        );
        let fault: Option<String> = if !proven {
            Some("Live retained exec I/O evidence failed its completeness audit".to_owned())
        } else {
            None
        };
        let shown = LinuxNativeLiveRecoveryEvidence { retained_exec_io_proven: proven, ..evidence };
        let memory = LiveMemory { read_output_after_reattach: true, ..memory };
        Self::go_on(step, nonce, memory, shown, fault)
    }

    /// Takes that another process that echoes was started.
    pub fn new_exec_started(self) -> (outcome: (LiveRun, Progress))
        ensures
            if self.step is NewExec {
                let after = outcome.0;
                &&& after.step is NewReady
                &&& outcome.1 is Next
                &&& after.memory.new_exec is Some
                &&& after.memory.new_exec->0@ == "live-new-"@ + self.nonce@
                &&& after.memory == (LiveMemory {
                    new_exec: after.memory.new_exec,
                    ..self.memory
                })
                &&& after.nonce == self.nonce
                &&& after.evidence == self.evidence
            } else {
                misplaced(self, outcome)
            },
            self.shown() ==> outcome.0.shown(),
    {
        if self.step != LiveStep::NewExec {
            return (self, Progress::Misplaced);
        }
        let LiveRun { step, nonce, memory, evidence } = self;
        let memory = LiveMemory { new_exec: Some(new_exec_id(&nonce)), ..memory };
        Self::go_on(step, nonce, memory, evidence, None)
    }

    /// Takes that it is ready.
    pub fn new_exec_ready(self) -> (outcome: (LiveRun, Progress))
        ensures
            if self.step is NewReady {
                moved(
                    self,
                    self.memory,
                    self.evidence,
                    None,
                    outcome,
                )
            } else {
                misplaced(self, outcome)
            },
            self.shown() ==> outcome.0.shown(),
    {
        if self.step != LiveStep::NewReady {
            return (self, Progress::Misplaced);
        }
        let LiveRun { step, nonce, memory, evidence } = self;
        let fault: Option<String> = None;
        let shown = evidence;
        Self::go_on(step, nonce, memory, shown, fault)
    }

    /// Takes that it has echoed.
    pub fn new_exec_echoed(self) -> (outcome: (LiveRun, Progress))
        ensures
            if self.step is NewEchoed {
                moved(
                    self,
                    self.memory,
                    self.evidence,
                    if !named(self.memory.new_exec) {
                        Some("Live new exec I/O evidence failed its completeness audit"@)
                    } else {
                        None
                    },
                    outcome,
                )
            } else {
                misplaced(self, outcome)
            },
            self.shown() ==> outcome.0.shown(),
    {
        if self.step != LiveStep::NewEchoed {
            return (self, Progress::Misplaced);
        }
        let LiveRun { step, nonce, memory, evidence } = self;
        let fault: Option<String> = if !is_named(&memory.new_exec) {
            Some("Live new exec I/O evidence failed its completeness audit".to_owned())
        } else {
            None
        };
        let shown = evidence;
        Self::go_on(step, nonce, memory, shown, fault)
    }

    /// Takes what the download answered.
    pub fn downloaded(self, data: &Option<String>, size: u64) -> (outcome: (LiveRun, Progress))
        ensures
            if self.step is Download {
                match download_fault(self.nonce@, *data, size) {
                    Some(fault) => moved(self, self.memory, self.evidence, Some(fault), outcome),
                    None => moved(
                        self,
                        self.memory,
                        LinuxNativeLiveRecoveryEvidence {
                            file_download_after_reattach: true,
                            retained_filesystem_proven: filesystem_shown(self.evidence),
                            ..self.evidence
                        },
                        if filesystem_shown(self.evidence) {
                            None
                        } else {
                            Some(
                                "Live retained filesystem evidence failed its completeness audit"@,
                            )
                        },
                        outcome,
                    ),
                }
            } else {
                misplaced(self, outcome)
            },
            self.shown() ==> outcome.0.shown(),
    {
        if self.step != LiveStep::Download {
            return (self, Progress::Misplaced);
        }
        let LiveRun { step, nonce, memory, evidence } = self;
        let fault = check_download(&nonce, data, size);
        if fault.is_some() {
            return Self::go_on(step, nonce, memory, evidence, fault);
        }
        let proven = evidence.file_upload_before_kill && evidence.replacement_state_running
            && evidence.init_survived_host_sigkill;
        let fault: Option<String> = if proven {
            None
        } else {
            Some("Live retained filesystem evidence failed its completeness audit".to_owned())
        };
        let shown = LinuxNativeLiveRecoveryEvidence {
            file_download_after_reattach: true,
            retained_filesystem_proven: proven,
            ..evidence
        };
        Self::go_on(step, nonce, memory, shown, fault)
    }

    /// Takes that the container was killed.
    pub fn container_killed(self) -> (outcome: (LiveRun, Progress))
        ensures
            if self.step is KillContainer {
                moved(
                    self,
                    self.memory,
                    self.evidence,
                    None,
                    outcome,
                )
            } else {
                misplaced(self, outcome)
            },
            self.shown() ==> outcome.0.shown(),
    {
        if self.step != LiveStep::KillContainer {
            return (self, Progress::Misplaced);
        }
        let LiveRun { step, nonce, memory, evidence } = self;
        let fault: Option<String> = None;
        let shown = evidence;
        Self::go_on(step, nonce, memory, shown, fault)
    }

    /// Takes that the container has ended.
    pub fn waited(self) -> (outcome: (LiveRun, Progress))
        ensures
            if self.step is Wait {
                moved(
                    self,
                    self.memory,
                    self.evidence,
                    None,
                    outcome,
                )
            } else {
                misplaced(self, outcome)
            },
            self.shown() ==> outcome.0.shown(),
    {
        if self.step != LiveStep::Wait {
            return (self, Progress::Misplaced);
        }
        let LiveRun { step, nonce, memory, evidence } = self;
        let fault: Option<String> = None;
        let shown = evidence;
        Self::go_on(step, nonce, memory, shown, fault)
    }

    /// Takes that the container was deleted.
    pub fn deleted(self) -> (outcome: (LiveRun, Progress))
        ensures
            if self.step is Delete {
                moved(
                    self,
                    self.memory,
                    self.evidence,
                    None,
                    outcome,
                )
            } else {
                misplaced(self, outcome)
            },
            self.shown() ==> outcome.0.shown(),
    {
        if self.step != LiveStep::Delete {
            return (self, Progress::Misplaced);
        }
        let LiveRun { step, nonce, memory, evidence } = self;
        let fault: Option<String> = None;
        let shown = evidence;
        Self::go_on(step, nonce, memory, shown, fault)
    }

    /// Takes whether the replacement ended well.
    pub fn terminated(self, success: bool) -> (outcome: (LiveRun, Progress))
        ensures
            if self.step is Terminate {
                moved(
                    self,
                    self.memory,
                    self.evidence,
                    if !success {
                        Some("replacement Host Service did not shut down cleanly"@)
                    } else {
                        None
                    },
                    outcome,
                )
            } else {
                misplaced(self, outcome)
            },
            self.shown() ==> outcome.0.shown(),
    {
        if self.step != LiveStep::Terminate {
            return (self, Progress::Misplaced);
        }
        let LiveRun { step, nonce, memory, evidence } = self;
        let fault: Option<String> = if !success {
            Some("replacement Host Service did not shut down cleanly".to_owned())
        } else {
            None
        };
        let shown = evidence;
        Self::go_on(step, nonce, memory, shown, fault)
    }

}

/// Whether what was shown before a download lets it prove that files outlive
/// the host service.
pub open spec fn filesystem_shown(evidence: LinuxNativeLiveRecoveryEvidence) -> bool {
    &&& evidence.file_upload_before_kill
    &&& evidence.replacement_state_running
    &&& evidence.init_survived_host_sigkill
}

/// An attempt that has gone through all its steps under a session supervisor has
/// shown all that success asks for, and that a process outlives its host service
/// too.
pub proof fn completed_attempts_succeed(run: LiveRun)
    requires
        run.step is Complete,
        run.shown(),
        run.evidence.session_supervisor_mode_opt_in,
        run.evidence.reason is None,
    ensures
        run.evidence.succeeds(),
        run.evidence.retained_exec_io_proven,
{
}

/// Where an attempt is that met no fault in so many steps.
pub open spec fn faultless_step(count: nat) -> LiveStep
    decreases count,
{
    if count == 0 {
        LiveStep::Create
    } else {
        live_step_successor(faultless_step((count - 1) as nat))
    }
}

/// An attempt that meets no fault takes every step, each behind the one it rests on, before it is
/// complete, and none after that.
pub proof fn no_step_is_left_out(count: nat)
    ensures
        faultless_step(0) is Create,
        faultless_step(1) is Start,
        faultless_step(2) is Identify,
        faultless_step(3) is Exec,
        faultless_step(4) is ExecReady,
        faultless_step(5) is ExecEchoed,
        faultless_step(6) is Upload,
        faultless_step(7) is Kill,
        faultless_step(8) is Survive,
        faultless_step(9) is Reclaim,
        faultless_step(10) is State,
        faultless_step(11) is Processes,
        faultless_step(12) is WriteAfter,
        faultless_step(13) is ReadAfter,
        faultless_step(14) is NewExec,
        faultless_step(15) is NewReady,
        faultless_step(16) is NewEchoed,
        faultless_step(17) is Download,
        faultless_step(18) is KillContainer,
        faultless_step(19) is Wait,
        faultless_step(20) is Delete,
        faultless_step(21) is Terminate,
        count >= 22 ==> faultless_step(count) is Complete,
    decreases count,
{
    assert(faultless_step(0) is Create);
    assert(faultless_step(1) is Start);
    assert(faultless_step(2) is Identify);
    assert(faultless_step(3) is Exec);
    assert(faultless_step(4) is ExecReady);
    assert(faultless_step(5) is ExecEchoed);
    assert(faultless_step(6) is Upload);
    assert(faultless_step(7) is Kill);
    assert(faultless_step(8) is Survive);
    assert(faultless_step(9) is Reclaim);
    assert(faultless_step(10) is State);
    assert(faultless_step(11) is Processes);
    assert(faultless_step(12) is WriteAfter);
    assert(faultless_step(13) is ReadAfter);
    assert(faultless_step(14) is NewExec);
    assert(faultless_step(15) is NewReady);
    assert(faultless_step(16) is NewEchoed);
    assert(faultless_step(17) is Download);
    assert(faultless_step(18) is KillContainer);
    assert(faultless_step(19) is Wait);
    assert(faultless_step(20) is Delete);
    assert(faultless_step(21) is Terminate);
    assert(faultless_step(22) is Complete);
    if count > 22 {
        no_step_is_left_out((count - 1) as nat);
    }
}

/// A fault stops an attempt and is reported as it is, and without one it goes on to the next
/// step; either way it keeps what it has shown.
pub proof fn faults_stop_the_run(
    before: LiveRun,
    memory: LiveMemory,
    evidence: LinuxNativeLiveRecoveryEvidence,
    fault: Option<Seq<char>>,
    outcome: (LiveRun, Progress),
)
    requires
        moved(before, memory, evidence, fault, outcome),
    ensures
        fault is Some <==> outcome.1 is Failed,
        fault is None <==> outcome.1 is Next,
        fault matches Some(reason) ==> outcome.1->Failed_0@ == reason && outcome.0.step is Stopped,
        fault is None ==> outcome.0.step == live_step_successor(before.step),
        outcome.0.memory == memory,
        outcome.0.evidence == evidence,
        outcome.0.nonce == before.nonce,
{
}

/// A failing attempt stops the service it still owns: the first one until it is killed,
/// the replacement from the moment it is asked for the state, and none in between or at
/// the end.
pub proof fn failing_attempts_stop_what_they_own(count: nat)
    ensures
        count < 7 ==> owner_at(faultless_step(count)) == Some(Owner::First),
        7 <= count < 10 ==> owner_at(faultless_step(count)) is None,
        10 <= count < 22 ==> owner_at(faultless_step(count)) == Some(Owner::Replacement),
        count >= 22 ==> owner_at(faultless_step(count)) is None,
        owner_at(LiveStep::Kill) is None,
        owner_at(LiveStep::Stopped) is None,
{
    no_step_is_left_out(count);
}

/// An attempt goes on from a start only with a running container and a process of its own
/// that is neither missing nor the first of the host.
pub proof fn started_containers_have_an_init(status: ContainerState, pid: Option<i32>)
    ensures
        start_fault(status, pid) is None <==> status is Running && pid is Some && pid->0 > 1,
        live_init(pid) matches Some(found) ==> pid == Some(found as i32) && found > 1,
        pid is Some && pid->0 > 1 ==> live_init(pid) == Some(pid->0 as u32),
{
}

/// A container counts as taken over only where it runs on, with the very init process it
/// had, which is alive.
pub proof fn containers_are_taken_over_alive(
    init: Option<NativeLinuxProcessIdentity>,
    status: ContainerState,
    pid: Option<i32>,
    live: bool,
)
    ensures
        reattached(init, status, pid, live) ==> live,
        reattached(init, status, pid, live) ==> status is Running,
        reattached(init, status, pid, live) ==> init is Some && pid is Some && init->0.pid
            == pid->0,
        live && status is Running && init is Some && pid is Some && pid->0 >= 0 && init->0.pid
            == pid->0 ==> reattached(init, status, pid, live),
{
}

/// That a process outlived its service is shown only where it answered before the kill
/// and was written to after it, under its own name.
pub proof fn surviving_processes_answer_twice(memory: LiveMemory)
    ensures
        exec_io_shown(memory) <==> memory.exec_io_before_kill && memory.write_stdin_after_reattach
            && memory.retained_exec is Some && memory.retained_exec->0@.len() > 0,
{
}

/// That files outlived their service is shown only where they were written before the
/// kill, and the container survived it and runs on.
pub proof fn surviving_files_were_written_before(evidence: LinuxNativeLiveRecoveryEvidence)
    ensures
        filesystem_shown(evidence) <==> evidence.file_upload_before_kill
            && evidence.init_survived_host_sigkill && evidence.replacement_state_running,
{
}

/// An answer to something that was not asked changes nothing, and a run that was stopped
/// stays stopped.
pub proof fn misplaced_answers_change_nothing(before: LiveRun, outcome: (LiveRun, Progress))
    ensures
        misplaced(before, outcome) <==> outcome.0 == before && outcome.1 is Misplaced,
        live_step_successor(LiveStep::Stopped) is Stopped,
{
}

} // verus!
