//! The death of a host service: what its replacement has to show of the container
//! that it left behind, step by step.

use vstd::prelude::*;
use crate::digest::is_sha256_digest;
use crate::linux_kvm_recovery_smoke::runner::{report_count, reported_count, Owner};
use crate::linux_kvm_recovery_smoke::soak_runner::{Progress, RuntimeInventory};
use crate::macos_hvf_host_smoke::report::{
    MacosHvfOwnerDeathEvidence, MacosProcessIdentity, MacosSocketIdentity,
};
use crate::model::{
    is_killed, killed_status, ContainerRecord, ContainerState, ContainerTarget, ExitStatus,
};
use crate::text::text_eq;

verus! {

/// Whether nothing of the deleted container is left under the replacement.
pub open spec fn replacement_clean(evidence: MacosHvfOwnerDeathEvidence) -> bool {
    &&& evidence.durable_state_removed
    &&& evidence.replacement_descriptor_inventory_restored
    &&& evidence.bundle_handoffs_clean
    &&& evidence.runtime_shares_clean
    &&& evidence.recovery_reports_clean
}

/// Whether the replacement shows the stopped container exactly as it was
/// created.
pub open spec fn recovered_exactly(
    evidence: MacosHvfOwnerDeathEvidence,
    recovered: ContainerRecord,
) -> bool {
    &&& recovered.status is Stopped
    &&& evidence.target is Some
    &&& evidence.target->0.generation == Some(recovered.generation)
    &&& evidence.created_config_digest is Some
    &&& evidence.created_config_digest->0@ == recovered.config_digest@
    &&& recovered.pid is None
}

fn is_recovered_exactly(
    evidence: &MacosHvfOwnerDeathEvidence,
    recovered: &ContainerRecord,
) -> (holds: bool)
    ensures
        holds == recovered_exactly(*evidence, *recovered),
{
    let generation = match &evidence.target {
        Some(target) => match target.generation {
            Some(generation) => generation == recovered.generation,
            None => false,
        },
        None => false,
    };
    let digest = match &evidence.created_config_digest {
        Some(digest) => text_eq(digest, &recovered.config_digest),
        None => false,
    };
    recovered.status == ContainerState::Stopped && generation && digest && recovered.pid.is_none()
}

/// Whether one of the processes is in the group of the host service.
pub open spec fn shares_group(processes: Seq<MacosProcessIdentity>, owner: Option<u32>) -> bool {
    exists|i: int|
        0 <= i < processes.len() && owner == Some((#[trigger] processes[i]).process_group_id)
}

/// Whether the processes are a shim and a worker in a group of their own.
pub fn privately_grouped(processes: &Vec<MacosProcessIdentity>, owner: Option<u32>) -> (holds: bool)
    ensures
        holds == (processes@.len() >= 2 && !shares_group(processes@, owner)),
{
    if processes.len() < 2 {
        return false;
    }
    let pid = match owner {
        Some(pid) => pid,
        None => return true,
    };
    let mut next: usize = 0;
    while next < processes.len()
        invariant
            next <= processes@.len(),
            owner == Some(pid),
            forall|i: int|
                0 <= i < next ==> owner != Some((#[trigger] processes@[i]).process_group_id),
        decreases processes@.len() - next,
    {
        if processes[next].process_group_id == pid {
            assert(owner == Some(processes@[next as int].process_group_id));
            return false;
        }
        next = next + 1;
    }
    true
}

/// One step of an owner-death qualification.
#[derive(Clone, Copy, Debug, PartialEq, Eq, Structural)]
pub enum OwnerDeathStep {
    /// Identify the first host service.
    IdentifyFirst,
    /// Create the container, twice with one operation.
    Create,
    /// Start the container.
    Start,
    /// Wait for the marker of its init process.
    Marker,
    /// Wait for the processes of the machine.
    Observe,
    /// Wait until the agent's endpoint was used up.
    FirstEndpoints,
    /// Identify the socket file.
    SocketBefore,
    /// Kill the first host service.
    Kill,
    /// Identify the socket file again.
    SocketAfter,
    /// Wait until the machine's processes are gone.
    Reap,
    /// Wait until the endpoints are as before.
    Endpoints,
    /// Look for the recovery report.
    RecoveryReport,
    /// Identify the replacement.
    IdentifyReplacement,
    /// Identify the socket file of the replacement.
    SocketReplaced,
    /// Connect to it.
    Connect,
    /// Count its descriptors.
    DescriptorsBefore,
    /// Ask it for the container.
    State,
    /// Ask it for the container's processes.
    Processes,
    /// Wait for the container's end.
    Wait,
    /// Wait for the container's end again.
    ReplayWait,
    /// Delete the container.
    Delete,
    /// Look for what is left of it.
    Removed,
    /// Wait until the descriptors are as before.
    DescriptorsRestored,
    /// Count the descriptors again.
    DescriptorsAfter,
    /// Look into the runtime directory.
    Inventory,
    /// Wait until the endpoints are as before.
    EndpointsAgain,
    /// Stop the replacement.
    Terminate,
    /// Look for its socket.
    SocketRemoved,
    /// Nothing is left to do.
    Complete,
    /// The run has failed.
    Stopped,
}

/// An owner-death qualification under way.
#[derive(Debug)]
pub struct OwnerDeathRun {
    pub step: OwnerDeathStep,
    pub id: String,
    pub stale_socket: Option<MacosSocketIdentity>,
    pub evidence: MacosHvfOwnerDeathEvidence,
}

/// The step that follows a step.
pub open spec fn owner_death_step_successor(step: OwnerDeathStep) -> OwnerDeathStep {
    match step {
        OwnerDeathStep::IdentifyFirst => OwnerDeathStep::Create,
        OwnerDeathStep::Create => OwnerDeathStep::Start,
        OwnerDeathStep::Start => OwnerDeathStep::Marker,
        OwnerDeathStep::Marker => OwnerDeathStep::Observe,
        OwnerDeathStep::Observe => OwnerDeathStep::FirstEndpoints,
        OwnerDeathStep::FirstEndpoints => OwnerDeathStep::SocketBefore,
        OwnerDeathStep::SocketBefore => OwnerDeathStep::Kill,
        OwnerDeathStep::Kill => OwnerDeathStep::SocketAfter,
        OwnerDeathStep::SocketAfter => OwnerDeathStep::Reap,
        OwnerDeathStep::Reap => OwnerDeathStep::Endpoints,
        OwnerDeathStep::Endpoints => OwnerDeathStep::RecoveryReport,
        OwnerDeathStep::RecoveryReport => OwnerDeathStep::IdentifyReplacement,
        OwnerDeathStep::IdentifyReplacement => OwnerDeathStep::SocketReplaced,
        OwnerDeathStep::SocketReplaced => OwnerDeathStep::Connect,
        OwnerDeathStep::Connect => OwnerDeathStep::DescriptorsBefore,
        OwnerDeathStep::DescriptorsBefore => OwnerDeathStep::State,
        OwnerDeathStep::State => OwnerDeathStep::Processes,
        OwnerDeathStep::Processes => OwnerDeathStep::Wait,
        OwnerDeathStep::Wait => OwnerDeathStep::ReplayWait,
        OwnerDeathStep::ReplayWait => OwnerDeathStep::Delete,
        OwnerDeathStep::Delete => OwnerDeathStep::Removed,
        OwnerDeathStep::Removed => OwnerDeathStep::DescriptorsRestored,
        OwnerDeathStep::DescriptorsRestored => OwnerDeathStep::DescriptorsAfter,
        OwnerDeathStep::DescriptorsAfter => OwnerDeathStep::Inventory,
        OwnerDeathStep::Inventory => OwnerDeathStep::EndpointsAgain,
        OwnerDeathStep::EndpointsAgain => OwnerDeathStep::Terminate,
        OwnerDeathStep::Terminate => OwnerDeathStep::SocketRemoved,
        OwnerDeathStep::SocketRemoved => OwnerDeathStep::Complete,
        OwnerDeathStep::Complete => OwnerDeathStep::Complete,
        OwnerDeathStep::Stopped => OwnerDeathStep::Stopped,
    }
}

fn owner_death_step_after(step: OwnerDeathStep) -> (next: OwnerDeathStep)
    ensures
        next == owner_death_step_successor(step),
{
    match step {
        OwnerDeathStep::IdentifyFirst => OwnerDeathStep::Create,
        OwnerDeathStep::Create => OwnerDeathStep::Start,
        OwnerDeathStep::Start => OwnerDeathStep::Marker,
        OwnerDeathStep::Marker => OwnerDeathStep::Observe,
        OwnerDeathStep::Observe => OwnerDeathStep::FirstEndpoints,
        OwnerDeathStep::FirstEndpoints => OwnerDeathStep::SocketBefore,
        OwnerDeathStep::SocketBefore => OwnerDeathStep::Kill,
        OwnerDeathStep::Kill => OwnerDeathStep::SocketAfter,
        OwnerDeathStep::SocketAfter => OwnerDeathStep::Reap,
        OwnerDeathStep::Reap => OwnerDeathStep::Endpoints,
        OwnerDeathStep::Endpoints => OwnerDeathStep::RecoveryReport,
        OwnerDeathStep::RecoveryReport => OwnerDeathStep::IdentifyReplacement,
        OwnerDeathStep::IdentifyReplacement => OwnerDeathStep::SocketReplaced,
        OwnerDeathStep::SocketReplaced => OwnerDeathStep::Connect,
        OwnerDeathStep::Connect => OwnerDeathStep::DescriptorsBefore,
        OwnerDeathStep::DescriptorsBefore => OwnerDeathStep::State,
        OwnerDeathStep::State => OwnerDeathStep::Processes,
        OwnerDeathStep::Processes => OwnerDeathStep::Wait,
        OwnerDeathStep::Wait => OwnerDeathStep::ReplayWait,
        OwnerDeathStep::ReplayWait => OwnerDeathStep::Delete,
        OwnerDeathStep::Delete => OwnerDeathStep::Removed,
        OwnerDeathStep::Removed => OwnerDeathStep::DescriptorsRestored,
        OwnerDeathStep::DescriptorsRestored => OwnerDeathStep::DescriptorsAfter,
        OwnerDeathStep::DescriptorsAfter => OwnerDeathStep::Inventory,
        OwnerDeathStep::Inventory => OwnerDeathStep::EndpointsAgain,
        OwnerDeathStep::EndpointsAgain => OwnerDeathStep::Terminate,
        OwnerDeathStep::Terminate => OwnerDeathStep::SocketRemoved,
        OwnerDeathStep::SocketRemoved => OwnerDeathStep::Complete,
        OwnerDeathStep::Complete => OwnerDeathStep::Complete,
        OwnerDeathStep::Stopped => OwnerDeathStep::Stopped,
    }
}

/// The place of a step in the course of the run.
pub open spec fn owner_death_step_rank(step: OwnerDeathStep) -> int {
    match step {
        OwnerDeathStep::IdentifyFirst => 0,
        OwnerDeathStep::Create => 1,
        OwnerDeathStep::Start => 2,
        OwnerDeathStep::Marker => 3,
        OwnerDeathStep::Observe => 4,
        OwnerDeathStep::FirstEndpoints => 5,
        OwnerDeathStep::SocketBefore => 6,
        OwnerDeathStep::Kill => 7,
        OwnerDeathStep::SocketAfter => 8,
        OwnerDeathStep::Reap => 9,
        OwnerDeathStep::Endpoints => 10,
        OwnerDeathStep::RecoveryReport => 11,
        OwnerDeathStep::IdentifyReplacement => 12,
        OwnerDeathStep::SocketReplaced => 13,
        OwnerDeathStep::Connect => 14,
        OwnerDeathStep::DescriptorsBefore => 15,
        OwnerDeathStep::State => 16,
        OwnerDeathStep::Processes => 17,
        OwnerDeathStep::Wait => 18,
        OwnerDeathStep::ReplayWait => 19,
        OwnerDeathStep::Delete => 20,
        OwnerDeathStep::Removed => 21,
        OwnerDeathStep::DescriptorsRestored => 22,
        OwnerDeathStep::DescriptorsAfter => 23,
        OwnerDeathStep::Inventory => 24,
        OwnerDeathStep::EndpointsAgain => 25,
        OwnerDeathStep::Terminate => 26,
        OwnerDeathStep::SocketRemoved => 27,
        OwnerDeathStep::Complete => 28,
        OwnerDeathStep::Stopped => -1,
    }
}

/// Whether a run went on from a step: it has shown this, and a fault stops it
/// where there is one.
pub open spec fn moved(
    before: OwnerDeathRun,
    evidence: MacosHvfOwnerDeathEvidence,
    fault: Option<Seq<char>>,
    outcome: (OwnerDeathRun, Progress),
) -> bool {
    let (after, progress) = outcome;
    &&& after.id == before.id
    &&& after.stale_socket == before.stale_socket
    &&& after.evidence == evidence
    &&& match fault {
        Some(reason) => progress matches Progress::Failed(message) && message@ == reason
            && after.step is Stopped,
        None => progress is Next && after.step == owner_death_step_successor(before.step),
    }
}

/// Whether a run was left as it was, at a step that asks for something else.
pub open spec fn misplaced(before: OwnerDeathRun, outcome: (OwnerDeathRun, Progress)) -> bool {
    outcome.1 is Misplaced && outcome.0 == before
}

/// The host service that is stopped when a step fails.
pub open spec fn owner_at(step: OwnerDeathStep) -> Option<Owner> {
    let rank = owner_death_step_rank(step);
    if 0 <= rank <= owner_death_step_rank(OwnerDeathStep::FirstEndpoints) {
        Some(Owner::First)
    } else if owner_death_step_rank(OwnerDeathStep::IdentifyReplacement) <= rank
        <= owner_death_step_rank(OwnerDeathStep::SocketRemoved) {
        Some(Owner::Replacement)
    } else {
        None
    }
}

/// The host service that is stopped when a step fails.
pub fn owner_to_stop(step: OwnerDeathStep) -> (owner: Option<Owner>)
    ensures
        owner == owner_at(step),
{
    match step {
        OwnerDeathStep::IdentifyFirst | OwnerDeathStep::Create | OwnerDeathStep::Start
        | OwnerDeathStep::Marker | OwnerDeathStep::Observe
        | OwnerDeathStep::FirstEndpoints => Some(Owner::First),
        OwnerDeathStep::SocketBefore | OwnerDeathStep::Kill | OwnerDeathStep::SocketAfter
        | OwnerDeathStep::Reap | OwnerDeathStep::Endpoints | OwnerDeathStep::RecoveryReport
        | OwnerDeathStep::Complete | OwnerDeathStep::Stopped => None,
        _ => Some(Owner::Replacement),
    }
}

impl OwnerDeathRun {
    /// What a run has shown by the time it is at its step.
    pub open spec fn shown(self) -> bool {
        let rank = owner_death_step_rank(self.step);
        let shown = self.evidence;
        &&& rank > 0 ==> shown.first_host_service_pid is Some
        &&& rank > 1 ==> shown.target is Some && shown.target->0.generation is Some
            && shown.created_config_digest is Some
        &&& rank > 4 ==> shown.live_vm_processes@.len() >= 2
        &&& rank > 7 ==> shown.host_service_sigkill_delivered && shown.first_host_service_reaped
        &&& rank > 8 ==> shown.stale_socket_retained
        &&& rank > 9 ==> shown.live_vm_processes_reaped
        &&& rank > 10 ==> shown.endpoint_inventory_restored
        &&& rank > 11 ==> shown.authenticated_recovery_report_retained
        &&& rank > 12 ==> shown.replacement_host_service_pid is Some
        &&& rank > 13 ==> shown.replacement_socket_new_inode
        &&& rank > 14 ==> shown.replacement_connected
        &&& rank > 18 ==> shown.recovered_wait_status is Some
        &&& rank > 19 ==> shown.exact_stopped_state_recovered && shown.process_inventory_empty
            && shown.recovered_wait_replayed && shown.recovered_wait_status == Some(killed_status())
        &&& rank > 20 ==> shown.stopped_delete_succeeded
        &&& rank > 24 ==> replacement_clean(shown)
        &&& rank > 27 ==> shown.replacement_exit_success && shown.replacement_socket_removed
        &&& shown.reason is None
    }

    /// An owner-death qualification before its first step.
    pub fn start(id: String, evidence: MacosHvfOwnerDeathEvidence) -> (run: OwnerDeathRun)
        ensures
            run == (OwnerDeathRun {
                step: OwnerDeathStep::IdentifyFirst,
                id,
                stale_socket: None,
                evidence,
            }),
            evidence.reason is None ==> run.shown(),
    {
        OwnerDeathRun { step: OwnerDeathStep::IdentifyFirst, id, stale_socket: None, evidence }
    }

    /// Goes on with what was shown, or stops at a fault.
    fn go_on(
        step: OwnerDeathStep,
        id: String,
        stale_socket: Option<MacosSocketIdentity>,
        evidence: MacosHvfOwnerDeathEvidence,
        fault: Option<String>,
    ) -> (outcome: (OwnerDeathRun, Progress))
        ensures
            match fault {
                Some(reason) => outcome.0 == (OwnerDeathRun {
                    step: OwnerDeathStep::Stopped,
                    id,
                    stale_socket,
                    evidence,
                })
                    && outcome.1 == Progress::Failed(reason),
                None => outcome.0 == (OwnerDeathRun {
                    step: owner_death_step_successor(step),
                    id,
                    stale_socket,
                    evidence,
                })
                    && outcome.1 is Next,
            },
    {
        match fault {
            Some(reason) => (
                OwnerDeathRun { step: OwnerDeathStep::Stopped, id, stale_socket, evidence },
                Progress::Failed(reason),
            ),
            None => (
                OwnerDeathRun {
                    step: owner_death_step_after(step),
                    id,
                    stale_socket,
                    evidence,
                },
                Progress::Next,
            ),
        }
    }

    /// Stops at a step that could not be carried out.
    pub fn failed(self, reason: String) -> (outcome: (OwnerDeathRun, Progress))
        ensures
            if self.step is Complete || self.step is Stopped {
                misplaced(self, outcome)
            } else {
                moved(self, self.evidence, Some(reason@), outcome)
            },
            self.shown() ==> outcome.0.shown(),
    {
        if self.step == OwnerDeathStep::Complete || self.step == OwnerDeathStep::Stopped {
            return (self, Progress::Misplaced);
        }
        let OwnerDeathRun { step, id, stale_socket, evidence } = self;
        Self::go_on(step, id, stale_socket, evidence, Some(reason))
    }

    /// Takes the number of the first host service.
    pub fn first_identified(self, pid: u32) -> (outcome: (OwnerDeathRun, Progress))
        ensures
            if self.step is IdentifyFirst {
                moved(
                    self,
                    MacosHvfOwnerDeathEvidence {
                        first_host_service_pid: Some(pid),
                        ..self.evidence
                    },
                    None,
                    outcome,
                )
            } else {
                misplaced(self, outcome)
            },
            self.shown() ==> outcome.0.shown(),
    {
        if self.step != OwnerDeathStep::IdentifyFirst {
            return (self, Progress::Misplaced);
        }
        let OwnerDeathRun { step, id, stale_socket, evidence } = self;
        let fault: Option<String> = None;
        let shown = MacosHvfOwnerDeathEvidence { first_host_service_pid: Some(pid), ..evidence };
        Self::go_on(step, id, stale_socket, shown, fault)
    }

    /// Takes what the two creates answered.
    pub fn created(self, created: ContainerRecord, replayed: &ContainerRecord) -> (outcome: (
        OwnerDeathRun,
        Progress,
    ))
        ensures
            if self.step is Create {
                if created@ == replayed@ && created.status is Created {
                    moved(
                        self,
                        MacosHvfOwnerDeathEvidence {
                            target: Some(
                                ContainerTarget {
                                    id: self.id,
                                    generation: Some(created.generation),
                                },
                            ),
                            created_config_digest: Some(created.config_digest),
                            ..self.evidence
                        },
                        None,
                        outcome,
                    )
                } else {
                    moved(
                        self,
                        self.evidence,
                        Some(
                            "owner-death create did not preserve the created barrier and exact replay"@,
                        ),
                        outcome,
                    )
                }
            } else {
                misplaced(self, outcome)
            },
            self.shown() ==> outcome.0.shown(),
    {
        if self.step != OwnerDeathStep::Create {
            return (self, Progress::Misplaced);
        }
        let OwnerDeathRun { step, id, stale_socket, evidence } = self;
        if !created.same(replayed) || created.status != ContainerState::Created {
            let reason =
                "owner-death create did not preserve the created barrier and exact replay".to_owned();
            return Self::go_on(step, id, stale_socket, evidence, Some(reason));
        }
        let shown = MacosHvfOwnerDeathEvidence {
            target: Some(
                ContainerTarget { id: id.clone(), generation: Some(created.generation) },
            ),
            created_config_digest: Some(created.config_digest),
            ..evidence
        };
        Self::go_on(step, id, stale_socket, shown, None)
    }

    /// Takes the state that the start answered.
    pub fn started(self, status: ContainerState) -> (outcome: (OwnerDeathRun, Progress))
        ensures
            if self.step is Start {
                moved(
                    self,
                    self.evidence,
                    if !(status is Running) {
                        Some("owner-death start did not return a live generation"@)
                    } else {
                        None
                    },
                    outcome,
                )
            } else {
                misplaced(self, outcome)
            },
            self.shown() ==> outcome.0.shown(),
    {
        if self.step != OwnerDeathStep::Start {
            return (self, Progress::Misplaced);
        }
        let OwnerDeathRun { step, id, stale_socket, evidence } = self;
        let fault: Option<String> = if status != ContainerState::Running {
            Some("owner-death start did not return a live generation".to_owned())
        } else {
            None
        };
        let shown = evidence;
        Self::go_on(step, id, stale_socket, shown, fault)
    }

    /// Takes that the marker is there.
    pub fn marked(self) -> (outcome: (OwnerDeathRun, Progress))
        ensures
            if self.step is Marker {
                moved(
                    self,
                    self.evidence,
                    None,
                    outcome,
                )
            } else {
                misplaced(self, outcome)
            },
            self.shown() ==> outcome.0.shown(),
    {
        if self.step != OwnerDeathStep::Marker {
            return (self, Progress::Misplaced);
        }
        let OwnerDeathRun { step, id, stale_socket, evidence } = self;
        let fault: Option<String> = None;
        let shown = evidence;
        Self::go_on(step, id, stale_socket, shown, fault)
    }

    /// Takes the processes of the machine.
    pub fn observed(self, processes: Vec<MacosProcessIdentity>) -> (outcome: (
        OwnerDeathRun,
        Progress,
    ))
        ensures
            if self.step is Observe {
                if processes@.len() < 2 || shares_group(
                    processes@,
                    self.evidence.first_host_service_pid,
                ) {
                    moved(
                        self,
                        self.evidence,
                        Some(
                            "owner-death process inventory did not expose a private shim/worker group"@,
                        ),
                        outcome,
                    )
                } else {
                    moved(
                        self,
                        MacosHvfOwnerDeathEvidence {
                            live_vm_processes: processes,
                            ..self.evidence
                        },
                        None,
                        outcome,
                    )
                }
            } else {
                misplaced(self, outcome)
            },
            self.shown() ==> outcome.0.shown(),
    {
        if self.step != OwnerDeathStep::Observe {
            return (self, Progress::Misplaced);
        }
        let OwnerDeathRun { step, id, stale_socket, evidence } = self;
        if !privately_grouped(&processes, evidence.first_host_service_pid) {
            let reason =
                "owner-death process inventory did not expose a private shim/worker group".to_owned();
            return Self::go_on(step, id, stale_socket, evidence, Some(reason));
        }
        let shown = MacosHvfOwnerDeathEvidence { live_vm_processes: processes, ..evidence };
        Self::go_on(step, id, stale_socket, shown, None)
    }

    /// Takes whether the agent's endpoint was used up.
    pub fn endpoint_consumed(self, consumed: bool) -> (outcome: (OwnerDeathRun, Progress))
        ensures
            if self.step is FirstEndpoints {
                moved(
                    self,
                    self.evidence,
                    if !consumed {
                        Some(
                            "authenticated live owner-death generation retained its guest-agent endpoint"@,
                        )
                    } else {
                        None
                    },
                    outcome,
                )
            } else {
                misplaced(self, outcome)
            },
            self.shown() ==> outcome.0.shown(),
    {
        if self.step != OwnerDeathStep::FirstEndpoints {
            return (self, Progress::Misplaced);
        }
        let OwnerDeathRun { step, id, stale_socket, evidence } = self;
        let fault: Option<String> = if !consumed {
            Some(
                "authenticated live owner-death generation retained its guest-agent endpoint".to_owned(),
            )
        } else {
            None
        };
        let shown = evidence;
        Self::go_on(step, id, stale_socket, shown, fault)
    }

    /// Takes which file the socket is.
    pub fn socket_identified(self, socket: MacosSocketIdentity) -> (outcome: (
        OwnerDeathRun,
        Progress,
    ))
        ensures
            if self.step is SocketBefore {
                outcome.0 == (OwnerDeathRun {
                    step: OwnerDeathStep::Kill,
                    stale_socket: Some(socket),
                    ..self
                }) && outcome.1 is Next
            } else {
                misplaced(self, outcome)
            },
            self.shown() ==> outcome.0.shown(),
    {
        if self.step != OwnerDeathStep::SocketBefore {
            return (self, Progress::Misplaced);
        }
        (
            OwnerDeathRun { step: OwnerDeathStep::Kill, stale_socket: Some(socket), ..self },
            Progress::Next,
        )
    }

    /// Takes that the first host service was killed and reaped.
    pub fn first_killed(self) -> (outcome: (OwnerDeathRun, Progress))
        ensures
            if self.step is Kill {
                moved(
                    self,
                    MacosHvfOwnerDeathEvidence {
                        host_service_sigkill_delivered: true,
                        first_host_service_reaped: true,
                        ..self.evidence
                    },
                    None,
                    outcome,
                )
            } else {
                misplaced(self, outcome)
            },
            self.shown() ==> outcome.0.shown(),
    {
        if self.step != OwnerDeathStep::Kill {
            return (self, Progress::Misplaced);
        }
        let OwnerDeathRun { step, id, stale_socket, evidence } = self;
        let fault: Option<String> = None;
        let shown = MacosHvfOwnerDeathEvidence {
            host_service_sigkill_delivered: true,
            first_host_service_reaped: true,
            ..evidence
        };
        Self::go_on(step, id, stale_socket, shown, fault)
    }

    /// Takes which file the socket is after the kill.
    pub fn socket_after_kill(self, socket: MacosSocketIdentity) -> (outcome: (
        OwnerDeathRun,
        Progress,
    ))
        ensures
            if self.step is SocketAfter {
                moved(
                    self,
                    MacosHvfOwnerDeathEvidence {
                        stale_socket_retained: self.stale_socket == Some(socket),
                        ..self.evidence
                    },
                    if self.stale_socket != Some(socket) {
                        Some("SIGKILLed Host Service did not leave its exact stale socket inode"@)
                    } else {
                        None
                    },
                    outcome,
                )
            } else {
                misplaced(self, outcome)
            },
            self.shown() ==> outcome.0.shown(),
    {
        if self.step != OwnerDeathStep::SocketAfter {
            return (self, Progress::Misplaced);
        }
        let OwnerDeathRun { step, id, stale_socket, evidence } = self;
        let retained = match stale_socket {
            Some(before) => before == socket,
            None => false,
        };
        let fault: Option<String> = if !retained {
            Some("SIGKILLed Host Service did not leave its exact stale socket inode".to_owned())
        } else {
            None
        };
        let shown = MacosHvfOwnerDeathEvidence { stale_socket_retained: retained, ..evidence };
        Self::go_on(step, id, stale_socket, shown, fault)
    }

    /// Takes whether the machine's processes are gone.
    pub fn reaped(self, reaped: bool) -> (outcome: (OwnerDeathRun, Progress))
        ensures
            if self.step is Reap {
                moved(
                    self,
                    MacosHvfOwnerDeathEvidence {
                        live_vm_processes_reaped: reaped,
                        ..self.evidence
                    },
                    if !reaped {
                        Some("Host Service owner death left an exact shim or VM worker alive"@)
                    } else {
                        None
                    },
                    outcome,
                )
            } else {
                misplaced(self, outcome)
            },
            self.shown() ==> outcome.0.shown(),
    {
        if self.step != OwnerDeathStep::Reap {
            return (self, Progress::Misplaced);
        }
        let OwnerDeathRun { step, id, stale_socket, evidence } = self;
        let fault: Option<String> = if !reaped {
            Some("Host Service owner death left an exact shim or VM worker alive".to_owned())
        } else {
            None
        };
        let shown = MacosHvfOwnerDeathEvidence { live_vm_processes_reaped: reaped, ..evidence };
        Self::go_on(step, id, stale_socket, shown, fault)
    }

    /// Takes whether the endpoints are as before.
    pub fn endpoints_restored(self, restored: bool) -> (outcome: (OwnerDeathRun, Progress))
        ensures
            if self.step is Endpoints {
                moved(
                    self,
                    MacosHvfOwnerDeathEvidence {
                        endpoint_inventory_restored: restored,
                        ..self.evidence
                    },
                    if !restored {
                        Some("Host Service owner death left a guest-agent endpoint behind"@)
                    } else {
                        None
                    },
                    outcome,
                )
            } else {
                misplaced(self, outcome)
            },
            self.shown() ==> outcome.0.shown(),
    {
        if self.step != OwnerDeathStep::Endpoints {
            return (self, Progress::Misplaced);
        }
        let OwnerDeathRun { step, id, stale_socket, evidence } = self;
        let fault: Option<String> = if !restored {
            Some("Host Service owner death left a guest-agent endpoint behind".to_owned())
        } else {
            None
        };
        let shown = MacosHvfOwnerDeathEvidence {
            endpoint_inventory_restored: restored,
            ..evidence
        };
        Self::go_on(step, id, stale_socket, shown, fault)
    }

    /// Takes whether the recovery report shows the kill.
    pub fn report_retained(self, retained: bool) -> (outcome: (OwnerDeathRun, Progress))
        ensures
            if self.step is RecoveryReport {
                moved(
                    self,
                    MacosHvfOwnerDeathEvidence {
                        authenticated_recovery_report_retained: retained,
                        ..self.evidence
                    },
                    if !retained {
                        Some("authenticated owner-death recovery report was not retained"@)
                    } else {
                        None
                    },
                    outcome,
                )
            } else {
                misplaced(self, outcome)
            },
            self.shown() ==> outcome.0.shown(),
    {
        if self.step != OwnerDeathStep::RecoveryReport {
            return (self, Progress::Misplaced);
        }
        let OwnerDeathRun { step, id, stale_socket, evidence } = self;
        let fault: Option<String> = if !retained {
            Some("authenticated owner-death recovery report was not retained".to_owned())
        } else {
            None
        };
        let shown = MacosHvfOwnerDeathEvidence {
            authenticated_recovery_report_retained: retained,
            ..evidence
        };
        Self::go_on(step, id, stale_socket, shown, fault)
    }

    /// Takes the number of the replacement.
    pub fn replacement_identified(self, pid: u32) -> (outcome: (OwnerDeathRun, Progress))
        ensures
            if self.step is IdentifyReplacement {
                moved(
                    self,
                    MacosHvfOwnerDeathEvidence {
                        replacement_host_service_pid: Some(pid),
                        ..self.evidence
                    },
                    None,
                    outcome,
                )
            } else {
                misplaced(self, outcome)
            },
            self.shown() ==> outcome.0.shown(),
    {
        if self.step != OwnerDeathStep::IdentifyReplacement {
            return (self, Progress::Misplaced);
        }
        let OwnerDeathRun { step, id, stale_socket, evidence } = self;
        let fault: Option<String> = None;
        let shown = MacosHvfOwnerDeathEvidence {
            replacement_host_service_pid: Some(pid),
            ..evidence
        };
        Self::go_on(step, id, stale_socket, shown, fault)
    }

    /// Takes which file the replacement's socket is.
    pub fn socket_replaced(self, socket: MacosSocketIdentity) -> (outcome: (
        OwnerDeathRun,
        Progress,
    ))
        ensures
            if self.step is SocketReplaced {
                moved(
                    self,
                    MacosHvfOwnerDeathEvidence {
                        replacement_socket_new_inode: self.stale_socket != Some(socket),
                        ..self.evidence
                    },
                    if self.stale_socket == Some(socket) {
                        Some("replacement Host Service reused the stale socket inode"@)
                    } else {
                        None
                    },
                    outcome,
                )
            } else {
                misplaced(self, outcome)
            },
            self.shown() ==> outcome.0.shown(),
    {
        if self.step != OwnerDeathStep::SocketReplaced {
            return (self, Progress::Misplaced);
        }
        let OwnerDeathRun { step, id, stale_socket, evidence } = self;
        let same = match stale_socket {
            Some(before) => before == socket,
            None => false,
        };
        let fault: Option<String> = if same {
            Some("replacement Host Service reused the stale socket inode".to_owned())
        } else {
            None
        };
        let shown = MacosHvfOwnerDeathEvidence { replacement_socket_new_inode: !same, ..evidence };
        Self::go_on(step, id, stale_socket, shown, fault)
    }

    /// Takes that the replacement was connected to.
    pub fn connected(self) -> (outcome: (OwnerDeathRun, Progress))
        ensures
            if self.step is Connect {
                moved(
                    self,
                    MacosHvfOwnerDeathEvidence {
                        replacement_connected: true,
                        ..self.evidence
                    },
                    None,
                    outcome,
                )
            } else {
                misplaced(self, outcome)
            },
            self.shown() ==> outcome.0.shown(),
    {
        if self.step != OwnerDeathStep::Connect {
            return (self, Progress::Misplaced);
        }
        let OwnerDeathRun { step, id, stale_socket, evidence } = self;
        let fault: Option<String> = None;
        let shown = MacosHvfOwnerDeathEvidence { replacement_connected: true, ..evidence };
        Self::go_on(step, id, stale_socket, shown, fault)
    }

    /// Takes how many descriptors the replacement has.
    pub fn descriptors_before(self, count: usize) -> (outcome: (OwnerDeathRun, Progress))
        ensures
            if self.step is DescriptorsBefore {
                moved(
                    self,
                    MacosHvfOwnerDeathEvidence {
                        open_descriptors_before: reported_count(count),
                        ..self.evidence
                    },
                    None,
                    outcome,
                )
            } else {
                misplaced(self, outcome)
            },
            self.shown() ==> outcome.0.shown(),
    {
        if self.step != OwnerDeathStep::DescriptorsBefore {
            return (self, Progress::Misplaced);
        }
        let OwnerDeathRun { step, id, stale_socket, evidence } = self;
        let fault: Option<String> = None;
        let shown = MacosHvfOwnerDeathEvidence {
            open_descriptors_before: report_count(count),
            ..evidence
        };
        Self::go_on(step, id, stale_socket, shown, fault)
    }

    /// Takes the container as the replacement knows it.
    pub fn state_recovered(self, recovered: &ContainerRecord) -> (outcome: (
        OwnerDeathRun,
        Progress,
    ))
        ensures
            if self.step is State {
                moved(
                    self,
                    MacosHvfOwnerDeathEvidence {
                        exact_stopped_state_recovered: recovered_exactly(self.evidence, *recovered),
                        ..self.evidence
                    },
                    None,
                    outcome,
                )
            } else {
                misplaced(self, outcome)
            },
            self.shown() ==> outcome.0.shown(),
    {
        if self.step != OwnerDeathStep::State {
            return (self, Progress::Misplaced);
        }
        let OwnerDeathRun { step, id, stale_socket, evidence } = self;
        let exact = is_recovered_exactly(&evidence, recovered);
        let fault: Option<String> = None;
        let shown = MacosHvfOwnerDeathEvidence { exact_stopped_state_recovered: exact, ..evidence };
        Self::go_on(step, id, stale_socket, shown, fault)
    }

    /// Takes whether the container has no processes.
    pub fn processes_listed(self, empty: bool) -> (outcome: (OwnerDeathRun, Progress))
        ensures
            if self.step is Processes {
                moved(
                    self,
                    MacosHvfOwnerDeathEvidence {
                        process_inventory_empty: empty,
                        ..self.evidence
                    },
                    None,
                    outcome,
                )
            } else {
                misplaced(self, outcome)
            },
            self.shown() ==> outcome.0.shown(),
    {
        if self.step != OwnerDeathStep::Processes {
            return (self, Progress::Misplaced);
        }
        let OwnerDeathRun { step, id, stale_socket, evidence } = self;
        let fault: Option<String> = None;
        let shown = MacosHvfOwnerDeathEvidence { process_inventory_empty: empty, ..evidence };
        Self::go_on(step, id, stale_socket, shown, fault)
    }

    /// Takes what the wait answered.
    pub fn waited(self, status: ExitStatus) -> (outcome: (OwnerDeathRun, Progress))
        ensures
            if self.step is Wait {
                moved(
                    self,
                    MacosHvfOwnerDeathEvidence {
                        recovered_wait_status: Some(status),
                        ..self.evidence
                    },
                    None,
                    outcome,
                )
            } else {
                misplaced(self, outcome)
            },
            self.shown() ==> outcome.0.shown(),
    {
        if self.step != OwnerDeathStep::Wait {
            return (self, Progress::Misplaced);
        }
        let OwnerDeathRun { step, id, stale_socket, evidence } = self;
        let fault: Option<String> = None;
        let shown = MacosHvfOwnerDeathEvidence { recovered_wait_status: Some(status), ..evidence };
        Self::go_on(step, id, stale_socket, shown, fault)
    }

    /// Takes what the second wait answered.
    pub fn wait_replayed(self, status: ExitStatus) -> (outcome: (OwnerDeathRun, Progress))
        ensures
            if self.step is ReplayWait {
                moved(
                    self,
                    MacosHvfOwnerDeathEvidence {
                        recovered_wait_replayed: self.evidence.recovered_wait_status
                            == Some(status),
                        ..self.evidence
                    },
                    if !self.evidence.exact_stopped_state_recovered
                        || !self.evidence.process_inventory_empty
                        || self.evidence.recovered_wait_status != Some(killed_status())
                        || self.evidence.recovered_wait_status != Some(status) {
                        Some(
                            "replacement Host Service did not recover exact stopped/SIGKILL state"@,
                        )
                    } else {
                        None
                    },
                    outcome,
                )
            } else {
                misplaced(self, outcome)
            },
            self.shown() ==> outcome.0.shown(),
    {
        if self.step != OwnerDeathStep::ReplayWait {
            return (self, Progress::Misplaced);
        }
        let OwnerDeathRun { step, id, stale_socket, evidence } = self;
        let same = match evidence.recovered_wait_status {
            Some(first) => first == status,
            None => false,
        };
        let fault: Option<String> = if !evidence.exact_stopped_state_recovered
            || !evidence.process_inventory_empty
            || !is_killed(&evidence.recovered_wait_status) || !same {
            Some("replacement Host Service did not recover exact stopped/SIGKILL state".to_owned())
        } else {
            None
        };
        let shown = MacosHvfOwnerDeathEvidence { recovered_wait_replayed: same, ..evidence };
        Self::go_on(step, id, stale_socket, shown, fault)
    }

    /// Takes that the container was deleted.
    pub fn deleted(self) -> (outcome: (OwnerDeathRun, Progress))
        ensures
            if self.step is Delete {
                moved(
                    self,
                    MacosHvfOwnerDeathEvidence {
                        stopped_delete_succeeded: true,
                        ..self.evidence
                    },
                    None,
                    outcome,
                )
            } else {
                misplaced(self, outcome)
            },
            self.shown() ==> outcome.0.shown(),
    {
        if self.step != OwnerDeathStep::Delete {
            return (self, Progress::Misplaced);
        }
        let OwnerDeathRun { step, id, stale_socket, evidence } = self;
        let fault: Option<String> = None;
        let shown = MacosHvfOwnerDeathEvidence { stopped_delete_succeeded: true, ..evidence };
        Self::go_on(step, id, stale_socket, shown, fault)
    }

    /// Takes whether nothing is left of its durable state.
    pub fn state_removed(self, removed: bool) -> (outcome: (OwnerDeathRun, Progress))
        ensures
            if self.step is Removed {
                moved(
                    self,
                    MacosHvfOwnerDeathEvidence {
                        durable_state_removed: removed,
                        ..self.evidence
                    },
                    None,
                    outcome,
                )
            } else {
                misplaced(self, outcome)
            },
            self.shown() ==> outcome.0.shown(),
    {
        if self.step != OwnerDeathStep::Removed {
            return (self, Progress::Misplaced);
        }
        let OwnerDeathRun { step, id, stale_socket, evidence } = self;
        let fault: Option<String> = None;
        let shown = MacosHvfOwnerDeathEvidence { durable_state_removed: removed, ..evidence };
        Self::go_on(step, id, stale_socket, shown, fault)
    }

    /// Takes whether the descriptors are as before.
    pub fn descriptors_restored(self, restored: bool) -> (outcome: (OwnerDeathRun, Progress))
        ensures
            if self.step is DescriptorsRestored {
                moved(
                    self,
                    MacosHvfOwnerDeathEvidence {
                        replacement_descriptor_inventory_restored: restored,
                        ..self.evidence
                    },
                    None,
                    outcome,
                )
            } else {
                misplaced(self, outcome)
            },
            self.shown() ==> outcome.0.shown(),
    {
        if self.step != OwnerDeathStep::DescriptorsRestored {
            return (self, Progress::Misplaced);
        }
        let OwnerDeathRun { step, id, stale_socket, evidence } = self;
        let fault: Option<String> = None;
        let shown = MacosHvfOwnerDeathEvidence {
            replacement_descriptor_inventory_restored: restored,
            ..evidence
        };
        Self::go_on(step, id, stale_socket, shown, fault)
    }

    /// Takes how many descriptors the replacement has.
    pub fn descriptors_after(self, count: usize) -> (outcome: (OwnerDeathRun, Progress))
        ensures
            if self.step is DescriptorsAfter {
                moved(
                    self,
                    MacosHvfOwnerDeathEvidence {
                        open_descriptors_after: reported_count(count),
                        ..self.evidence
                    },
                    None,
                    outcome,
                )
            } else {
                misplaced(self, outcome)
            },
            self.shown() ==> outcome.0.shown(),
    {
        if self.step != OwnerDeathStep::DescriptorsAfter {
            return (self, Progress::Misplaced);
        }
        let OwnerDeathRun { step, id, stale_socket, evidence } = self;
        let fault: Option<String> = None;
        let shown = MacosHvfOwnerDeathEvidence {
            open_descriptors_after: report_count(count),
            ..evidence
        };
        Self::go_on(step, id, stale_socket, shown, fault)
    }

    /// Takes what is in the runtime directory.
    pub fn inventoried(self, inventory: RuntimeInventory) -> (outcome: (OwnerDeathRun, Progress))
        ensures
            if self.step is Inventory {
                moved(
                    self,
                    MacosHvfOwnerDeathEvidence {
                        bundle_handoffs_clean: inventory.bundle_handoffs_clean,
                        runtime_shares_clean: inventory.runtime_shares_clean,
                        recovery_reports_clean: inventory.recovery_reports_clean,
                        ..self.evidence
                    },
                    if !(self.evidence.durable_state_removed
                        && self.evidence.replacement_descriptor_inventory_restored
                        && inventory.bundle_handoffs_clean
                        && inventory.runtime_shares_clean
                        && inventory.recovery_reports_clean) {
                        Some("replacement delete did not restore owner-death cleanup baselines"@)
                    } else {
                        None
                    },
                    outcome,
                )
            } else {
                misplaced(self, outcome)
            },
            self.shown() ==> outcome.0.shown(),
    {
        if self.step != OwnerDeathStep::Inventory {
            return (self, Progress::Misplaced);
        }
        let OwnerDeathRun { step, id, stale_socket, evidence } = self;
        let fault: Option<String> = if !evidence.durable_state_removed
            || !evidence.replacement_descriptor_inventory_restored
            || !inventory.bundle_handoffs_clean || !inventory.runtime_shares_clean
            || !inventory.recovery_reports_clean {
            Some("replacement delete did not restore owner-death cleanup baselines".to_owned())
        } else {
            None
        };
        let shown = MacosHvfOwnerDeathEvidence {
            bundle_handoffs_clean: inventory.bundle_handoffs_clean,
            runtime_shares_clean: inventory.runtime_shares_clean,
            recovery_reports_clean: inventory.recovery_reports_clean,
            ..evidence
        };
        Self::go_on(step, id, stale_socket, shown, fault)
    }

    /// Takes whether the endpoints are as before.
    pub fn endpoints_restored_again(self, restored: bool) -> (outcome: (OwnerDeathRun, Progress))
        ensures
            if self.step is EndpointsAgain {
                moved(
                    self,
                    self.evidence,
                    if !restored {
                        Some("replacement delete did not restore owner-death cleanup baselines"@)
                    } else {
                        None
                    },
                    outcome,
                )
            } else {
                misplaced(self, outcome)
            },
            self.shown() ==> outcome.0.shown(),
    {
        if self.step != OwnerDeathStep::EndpointsAgain {
            return (self, Progress::Misplaced);
        }
        let OwnerDeathRun { step, id, stale_socket, evidence } = self;
        let fault: Option<String> = if !restored {
            Some("replacement delete did not restore owner-death cleanup baselines".to_owned())
        } else {
            None
        };
        let shown = evidence;
        Self::go_on(step, id, stale_socket, shown, fault)
    }

    /// Takes whether the replacement ended well.
    pub fn terminated(self, success: bool) -> (outcome: (OwnerDeathRun, Progress))
        ensures
            if self.step is Terminate {
                moved(
                    self,
                    MacosHvfOwnerDeathEvidence {
                        replacement_exit_success: success,
                        ..self.evidence
                    },
                    None,
                    outcome,
                )
            } else {
                misplaced(self, outcome)
            },
            self.shown() ==> outcome.0.shown(),
    {
        if self.step != OwnerDeathStep::Terminate {
            return (self, Progress::Misplaced);
        }
        let OwnerDeathRun { step, id, stale_socket, evidence } = self;
        let fault: Option<String> = None;
        let shown = MacosHvfOwnerDeathEvidence { replacement_exit_success: success, ..evidence };
        Self::go_on(step, id, stale_socket, shown, fault)
    }

    /// Takes whether the replacement's socket is gone.
    pub fn socket_checked(self, absent: bool) -> (outcome: (OwnerDeathRun, Progress))
        ensures
            if self.step is SocketRemoved {
                moved(
                    self,
                    MacosHvfOwnerDeathEvidence {
                        replacement_socket_removed: absent,
                        ..self.evidence
                    },
                    if !self.evidence.replacement_exit_success || !absent {
                        Some("replacement Host Service did not shut down cleanly"@)
                    } else {
                        None
                    },
                    outcome,
                )
            } else {
                misplaced(self, outcome)
            },
            self.shown() ==> outcome.0.shown(),
    {
        if self.step != OwnerDeathStep::SocketRemoved {
            return (self, Progress::Misplaced);
        }
        let OwnerDeathRun { step, id, stale_socket, evidence } = self;
        let fault: Option<String> = if !evidence.replacement_exit_success || !absent {
            Some("replacement Host Service did not shut down cleanly".to_owned())
        } else {
            None
        };
        let shown = MacosHvfOwnerDeathEvidence { replacement_socket_removed: absent, ..evidence };
        Self::go_on(step, id, stale_socket, shown, fault)
    }

}

/// An owner death that has gone through all its steps has shown all that success
/// asks for, given that the configuration digest is canonical.
pub proof fn completed_owner_deaths_succeed(run: OwnerDeathRun)
    requires
        run.step is Complete,
        run.shown(),
        is_sha256_digest(run.evidence.created_config_digest->0@),
    ensures
        run.evidence.succeeds(),
{
}

/// Where an owner death is that met no fault in so many steps.
pub open spec fn faultless_step(count: nat) -> OwnerDeathStep
    decreases count,
{
    if count == 0 {
        OwnerDeathStep::IdentifyFirst
    } else {
        owner_death_step_successor(faultless_step((count - 1) as nat))
    }
}

/// An owner death that meets no fault takes every step, each behind the one it rests on,
/// before it is complete, and none after that.
pub proof fn no_step_is_left_out(count: nat)
    ensures
        faultless_step(0) is IdentifyFirst,
        faultless_step(1) is Create,
        faultless_step(2) is Start,
        faultless_step(3) is Marker,
        faultless_step(4) is Observe,
        faultless_step(5) is FirstEndpoints,
        faultless_step(6) is SocketBefore,
        faultless_step(7) is Kill,
        faultless_step(8) is SocketAfter,
        faultless_step(9) is Reap,
        faultless_step(10) is Endpoints,
        faultless_step(11) is RecoveryReport,
        faultless_step(12) is IdentifyReplacement,
        faultless_step(13) is SocketReplaced,
        faultless_step(14) is Connect,
        faultless_step(15) is DescriptorsBefore,
        faultless_step(16) is State,
        faultless_step(17) is Processes,
        faultless_step(18) is Wait,
        faultless_step(19) is ReplayWait,
        faultless_step(20) is Delete,
        faultless_step(21) is Removed,
        faultless_step(22) is DescriptorsRestored,
        faultless_step(23) is DescriptorsAfter,
        faultless_step(24) is Inventory,
        faultless_step(25) is EndpointsAgain,
        faultless_step(26) is Terminate,
        faultless_step(27) is SocketRemoved,
        count >= 28 ==> faultless_step(count) is Complete,
    decreases count,
{
    assert(faultless_step(0) is IdentifyFirst);
    assert(faultless_step(1) is Create);
    assert(faultless_step(2) is Start);
    assert(faultless_step(3) is Marker);
    assert(faultless_step(4) is Observe);
    assert(faultless_step(5) is FirstEndpoints);
    assert(faultless_step(6) is SocketBefore);
    assert(faultless_step(7) is Kill);
    assert(faultless_step(8) is SocketAfter);
    assert(faultless_step(9) is Reap);
    assert(faultless_step(10) is Endpoints);
    assert(faultless_step(11) is RecoveryReport);
    assert(faultless_step(12) is IdentifyReplacement);
    assert(faultless_step(13) is SocketReplaced);
    assert(faultless_step(14) is Connect);
    assert(faultless_step(15) is DescriptorsBefore);
    assert(faultless_step(16) is State);
    assert(faultless_step(17) is Processes);
    assert(faultless_step(18) is Wait);
    assert(faultless_step(19) is ReplayWait);
    assert(faultless_step(20) is Delete);
    assert(faultless_step(21) is Removed);
    assert(faultless_step(22) is DescriptorsRestored);
    assert(faultless_step(23) is DescriptorsAfter);
    assert(faultless_step(24) is Inventory);
    assert(faultless_step(25) is EndpointsAgain);
    assert(faultless_step(26) is Terminate);
    assert(faultless_step(27) is SocketRemoved);
    assert(faultless_step(28) is Complete);
    if count > 28 {
        no_step_is_left_out((count - 1) as nat);
    }
}

/// A fault stops an owner death and is reported as it is, and without one it goes on to the next
/// step; either way it keeps what it has shown.
pub proof fn faults_stop_the_run(
    before: OwnerDeathRun,
    evidence: MacosHvfOwnerDeathEvidence,
    fault: Option<Seq<char>>,
    outcome: (OwnerDeathRun, Progress),
)
    requires
        moved(before, evidence, fault, outcome),
    ensures
        fault is Some <==> outcome.1 is Failed,
        fault is None <==> outcome.1 is Next,
        fault matches Some(reason) ==> outcome.1->Failed_0@ == reason && outcome.0.step is Stopped,
        fault is None ==> outcome.0.step == owner_death_step_successor(before.step),
        outcome.0.evidence == evidence,
        outcome.0.id == before.id,
        outcome.0.stale_socket == before.stale_socket,
{
}

/// A failing run stops the service it still owns: the first one until its socket was
/// looked at for the kill, the replacement once it is to be identified, and none in
/// between, where the first one is dead or about to be, nor at the end.
pub proof fn failing_runs_stop_what_they_own(count: nat)
    ensures
        count < 6 ==> owner_at(faultless_step(count)) == Some(Owner::First),
        6 <= count < 12 ==> owner_at(faultless_step(count)) is None,
        12 <= count < 28 ==> owner_at(faultless_step(count)) == Some(Owner::Replacement),
        count >= 28 ==> owner_at(faultless_step(count)) is None,
        owner_at(OwnerDeathStep::Kill) is None,
        owner_at(OwnerDeathStep::Stopped) is None,
{
    no_step_is_left_out(count);
}

/// The replacement is believed to show the container that was created only where it shows
/// it stopped, without a process, at the generation and with the configuration it had.
pub proof fn recovered_containers_are_the_created_ones(
    evidence: MacosHvfOwnerDeathEvidence,
    recovered: ContainerRecord,
)
    ensures
        recovered_exactly(evidence, recovered) <==> {
            &&& recovered.status is Stopped
            &&& recovered.pid is None
            &&& evidence.target matches Some(target) && target.generation == Some(
                recovered.generation,
            )
            &&& evidence.created_config_digest matches Some(digest) && digest@
                == recovered.config_digest@
        },
{
}

/// A replacement is clean only where nothing of the container is left: no state, no
/// descriptor, no handoff, no share and no report.
pub proof fn clean_replacements_keep_nothing(evidence: MacosHvfOwnerDeathEvidence)
    ensures
        replacement_clean(evidence) ==> evidence.durable_state_removed,
        replacement_clean(evidence) ==> evidence.replacement_descriptor_inventory_restored,
        replacement_clean(evidence) ==> evidence.bundle_handoffs_clean,
        replacement_clean(evidence) ==> evidence.runtime_shares_clean,
        replacement_clean(evidence) ==> evidence.recovery_reports_clean,
        evidence.durable_state_removed && evidence.replacement_descriptor_inventory_restored
            && evidence.bundle_handoffs_clean && evidence.runtime_shares_clean
            && evidence.recovery_reports_clean ==> replacement_clean(evidence),
{
}

/// A machine shares a group with its service where any one of its processes does.
pub proof fn shared_groups_are_found(
    processes: Seq<MacosProcessIdentity>,
    owner: Option<u32>,
    place: int,
)
    ensures
        owner is None ==> !shares_group(processes, owner),
        0 <= place < processes.len() && owner == Some(processes[place].process_group_id)
            ==> shares_group(processes, owner),
        shares_group(processes, owner) ==> owner is Some && processes.len() > 0,
{
}

/// An answer to something that was not asked changes nothing, and a run that was stopped
/// stays stopped.
pub proof fn misplaced_answers_change_nothing(
    before: OwnerDeathRun,
    outcome: (OwnerDeathRun, Progress),
)
    ensures
        misplaced(before, outcome) <==> outcome.0 == before && outcome.1 is Misplaced,
        owner_death_step_successor(OwnerDeathStep::Stopped) is Stopped,
{
}

} // verus!
