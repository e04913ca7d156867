//! The course of a recovery qualification: what the first owner and the owner
//! that replaces it have to show, step by step.

use vstd::prelude::*;
use crate::digest::is_sha256_digest;
use crate::linux_kvm_recovery_smoke::report::{
    identity_view, same_identity, LinuxKvmRecoveryEvidence, LinuxKvmRecoverySmokeReport,
};
use crate::linux_kvm_recovery_smoke::soak_runner::{Progress, RuntimeInventory};
use crate::model::{
    is_killed, killed_status, CapabilityStatus, ContainerRecord, ContainerState, ContainerTarget,
    ExitStatus,
};
use crate::native_checkpoint::publication::{same_file, FileIdentity};
use crate::process::LinuxProcessIdentity;
use crate::text::text_eq;

verus! {

/// The inputs of one recovery qualification.
#[derive(Clone, Debug)]
pub struct LinuxKvmRecoverySmokeConfig {
    pub host_service_executable: String,
    pub shim: String,
    pub system_image_manifest: String,
    pub bundle: String,
    pub work_parent: String,
    pub source_revision: Option<String>,
}

/// A count as reports keep it.
pub open spec fn reported_count(count: usize) -> Option<u32> {
    if count <= u32::MAX {
        Some(count as u32)
    } else {
        None
    }
}

/// A count as reports keep it.
pub fn report_count(count: usize) -> (reported: Option<u32>)
    ensures
        reported == reported_count(count),
{
    if count <= u32::MAX as usize {
        Some(count as u32)
    } else {
        None
    }
}

/// Whether nothing of the deleted container is left under the replacement.
pub open spec fn replacement_clean(evidence: LinuxKvmRecoveryEvidence) -> bool {
    &&& evidence.durable_state_removed
    &&& evidence.replacement_descriptor_inventory_restored
    &&& evidence.bundle_handoffs_clean
    &&& evidence.runtime_shares_clean
    &&& evidence.recovery_reports_clean
}

/// Whether the replacement shows the stopped container exactly as it was
/// created.
pub open spec fn recovered_exactly(
    evidence: LinuxKvmRecoveryEvidence,
    recovered: ContainerRecord,
) -> bool {
    &&& recovered.status is Stopped
    &&& evidence.target is Some
    &&& evidence.target->0.generation == Some(recovered.generation)
    &&& evidence.created_config_digest is Some
    &&& evidence.created_config_digest->0@ == recovered.config_digest@
    &&& recovered.pid is None
}

fn is_recovered_exactly(
    evidence: &LinuxKvmRecoveryEvidence,
    recovered: &ContainerRecord,
) -> (holds: bool)
    ensures
        holds == recovered_exactly(*evidence, *recovered),
{
    let generation = match &evidence.target {
        Some(target) => match target.generation {
            Some(generation) => generation == recovered.generation,
            None => false,
        },
        None => false,
    };
    let digest = match &evidence.created_config_digest {
        Some(digest) => text_eq(digest, &recovered.config_digest),
        None => false,
    };
    recovered.status == ContainerState::Stopped && generation && digest && recovered.pid.is_none()
}

/// One step of a recovery qualification.
#[derive(Clone, Copy, Debug, PartialEq, Eq, Structural)]
pub enum RecoveryStep {
    /// Identify the first host service.
    IdentifyFirst,
    /// Identify the other end of its socket.
    FirstPeer,
    /// Check what it can launch.
    FirstScope,
    /// Create the container, twice with one operation.
    Create,
    /// Start the container.
    Start,
    /// Wait for the marker of its init process.
    Marker,
    /// Wait for the processes of the machine.
    Observe,
    /// Wait until the agent's endpoint was used up.
    FirstEndpoints,
    /// Identify the socket file.
    SocketBefore,
    /// Kill the first host service.
    Kill,
    /// Identify the socket file again.
    SocketAfter,
    /// Wait until the machine's processes are gone.
    Reap,
    /// Wait until the endpoints are as before.
    Endpoints,
    /// Look for the recovery report.
    RecoveryReport,
    /// Identify the replacement.
    IdentifyReplacement,
    /// Identify the other end of its socket.
    ReplacementPeer,
    /// Connect to it.
    Connect,
    /// Check what it can launch.
    ReplacementScope,
    /// Count its descriptors.
    DescriptorsBefore,
    /// Ask it for the container.
    State,
    /// Ask it for the container's processes.
    Processes,
    /// Wait for the container's end.
    Wait,
    /// Wait for the container's end again.
    ReplayWait,
    /// Delete the container.
    Delete,
    /// Look for what is left of it.
    Removed,
    /// Wait until the descriptors are as before.
    DescriptorsRestored,
    /// Count the descriptors again.
    DescriptorsAfter,
    /// Look into the runtime directory.
    Inventory,
    /// Wait until the endpoints are as before.
    EndpointsAgain,
    /// Stop the replacement.
    Terminate,
    /// Look for its socket.
    SocketRemoved,
    /// Nothing is left to do.
    Complete,
    /// The run has failed.
    Stopped,
}

/// A recovery qualification under way.
#[derive(Debug)]
pub struct RecoveryRun {
    pub step: RecoveryStep,
    pub id: String,
    pub stale_socket: Option<FileIdentity>,
    pub evidence: LinuxKvmRecoveryEvidence,
}

/// The step that follows a step.
pub open spec fn recovery_step_successor(step: RecoveryStep) -> RecoveryStep {
    match step {
        RecoveryStep::IdentifyFirst => RecoveryStep::FirstPeer,
        RecoveryStep::FirstPeer => RecoveryStep::FirstScope,
        RecoveryStep::FirstScope => RecoveryStep::Create,
        RecoveryStep::Create => RecoveryStep::Start,
        RecoveryStep::Start => RecoveryStep::Marker,
        RecoveryStep::Marker => RecoveryStep::Observe,
        RecoveryStep::Observe => RecoveryStep::FirstEndpoints,
        RecoveryStep::FirstEndpoints => RecoveryStep::SocketBefore,
        RecoveryStep::SocketBefore => RecoveryStep::Kill,
        RecoveryStep::Kill => RecoveryStep::SocketAfter,
        RecoveryStep::SocketAfter => RecoveryStep::Reap,
        RecoveryStep::Reap => RecoveryStep::Endpoints,
        RecoveryStep::Endpoints => RecoveryStep::RecoveryReport,
        RecoveryStep::RecoveryReport => RecoveryStep::IdentifyReplacement,
        RecoveryStep::IdentifyReplacement => RecoveryStep::ReplacementPeer,
        RecoveryStep::ReplacementPeer => RecoveryStep::Connect,
        RecoveryStep::Connect => RecoveryStep::ReplacementScope,
        RecoveryStep::ReplacementScope => RecoveryStep::DescriptorsBefore,
        RecoveryStep::DescriptorsBefore => RecoveryStep::State,
        RecoveryStep::State => RecoveryStep::Processes,
        RecoveryStep::Processes => RecoveryStep::Wait,
        RecoveryStep::Wait => RecoveryStep::ReplayWait,
        RecoveryStep::ReplayWait => RecoveryStep::Delete,
        RecoveryStep::Delete => RecoveryStep::Removed,
        RecoveryStep::Removed => RecoveryStep::DescriptorsRestored,
        RecoveryStep::DescriptorsRestored => RecoveryStep::DescriptorsAfter,
        RecoveryStep::DescriptorsAfter => RecoveryStep::Inventory,
        RecoveryStep::Inventory => RecoveryStep::EndpointsAgain,
        RecoveryStep::EndpointsAgain => RecoveryStep::Terminate,
        RecoveryStep::Terminate => RecoveryStep::SocketRemoved,
        RecoveryStep::SocketRemoved => RecoveryStep::Complete,
        RecoveryStep::Complete => RecoveryStep::Complete,
        RecoveryStep::Stopped => RecoveryStep::Stopped,
    }
}

fn recovery_step_after(step: RecoveryStep) -> (next: RecoveryStep)
    ensures
        next == recovery_step_successor(step),
{
    match step {
        RecoveryStep::IdentifyFirst => RecoveryStep::FirstPeer,
        RecoveryStep::FirstPeer => RecoveryStep::FirstScope,
        RecoveryStep::FirstScope => RecoveryStep::Create,
        RecoveryStep::Create => RecoveryStep::Start,
        RecoveryStep::Start => RecoveryStep::Marker,
        RecoveryStep::Marker => RecoveryStep::Observe,
        RecoveryStep::Observe => RecoveryStep::FirstEndpoints,
        RecoveryStep::FirstEndpoints => RecoveryStep::SocketBefore,
        RecoveryStep::SocketBefore => RecoveryStep::Kill,
        RecoveryStep::Kill => RecoveryStep::SocketAfter,
        RecoveryStep::SocketAfter => RecoveryStep::Reap,
        RecoveryStep::Reap => RecoveryStep::Endpoints,
        RecoveryStep::Endpoints => RecoveryStep::RecoveryReport,
        RecoveryStep::RecoveryReport => RecoveryStep::IdentifyReplacement,
        RecoveryStep::IdentifyReplacement => RecoveryStep::ReplacementPeer,
        RecoveryStep::ReplacementPeer => RecoveryStep::Connect,
        RecoveryStep::Connect => RecoveryStep::ReplacementScope,
        RecoveryStep::ReplacementScope => RecoveryStep::DescriptorsBefore,
        RecoveryStep::DescriptorsBefore => RecoveryStep::State,
        RecoveryStep::State => RecoveryStep::Processes,
        RecoveryStep::Processes => RecoveryStep::Wait,
        RecoveryStep::Wait => RecoveryStep::ReplayWait,
        RecoveryStep::ReplayWait => RecoveryStep::Delete,
        RecoveryStep::Delete => RecoveryStep::Removed,
        RecoveryStep::Removed => RecoveryStep::DescriptorsRestored,
        RecoveryStep::DescriptorsRestored => RecoveryStep::DescriptorsAfter,
        RecoveryStep::DescriptorsAfter => RecoveryStep::Inventory,
        RecoveryStep::Inventory => RecoveryStep::EndpointsAgain,
        RecoveryStep::EndpointsAgain => RecoveryStep::Terminate,
        RecoveryStep::Terminate => RecoveryStep::SocketRemoved,
        RecoveryStep::SocketRemoved => RecoveryStep::Complete,
        RecoveryStep::Complete => RecoveryStep::Complete,
        RecoveryStep::Stopped => RecoveryStep::Stopped,
    }
}

/// The place of a step in the course of the run.
pub open spec fn recovery_step_rank(step: RecoveryStep) -> int {
    match step {
        RecoveryStep::IdentifyFirst => 0,
        RecoveryStep::FirstPeer => 1,
        RecoveryStep::FirstScope => 2,
        RecoveryStep::Create => 3,
        RecoveryStep::Start => 4,
        RecoveryStep::Marker => 5,
        RecoveryStep::Observe => 6,
        RecoveryStep::FirstEndpoints => 7,
        RecoveryStep::SocketBefore => 8,
        RecoveryStep::Kill => 9,
        RecoveryStep::SocketAfter => 10,
        RecoveryStep::Reap => 11,
        RecoveryStep::Endpoints => 12,
        RecoveryStep::RecoveryReport => 13,
        RecoveryStep::IdentifyReplacement => 14,
        RecoveryStep::ReplacementPeer => 15,
        RecoveryStep::Connect => 16,
        RecoveryStep::ReplacementScope => 17,
        RecoveryStep::DescriptorsBefore => 18,
        RecoveryStep::State => 19,
        RecoveryStep::Processes => 20,
        RecoveryStep::Wait => 21,
        RecoveryStep::ReplayWait => 22,
        RecoveryStep::Delete => 23,
        RecoveryStep::Removed => 24,
        RecoveryStep::DescriptorsRestored => 25,
        RecoveryStep::DescriptorsAfter => 26,
        RecoveryStep::Inventory => 27,
        RecoveryStep::EndpointsAgain => 28,
        RecoveryStep::Terminate => 29,
        RecoveryStep::SocketRemoved => 30,
        RecoveryStep::Complete => 31,
        RecoveryStep::Stopped => -1,
    }
}

/// Whether a run went on from a step: it has shown this, and a fault stops it
/// where there is one.
pub open spec fn moved(
    before: RecoveryRun,
    evidence: LinuxKvmRecoveryEvidence,
    fault: Option<Seq<char>>,
    outcome: (RecoveryRun, Progress),
) -> bool {
    let (after, progress) = outcome;
    &&& after.id == before.id
    &&& after.stale_socket == before.stale_socket
    &&& after.evidence == evidence
    &&& match fault {
        Some(reason) => progress matches Progress::Failed(message) && message@ == reason
            && after.step is Stopped,
        None => progress is Next && after.step == recovery_step_successor(before.step),
    }
}

/// Whether a run was left as it was, at a step that asks for something else.
pub open spec fn misplaced(before: RecoveryRun, outcome: (RecoveryRun, Progress)) -> bool {
    outcome.1 is Misplaced && outcome.0 == before
}

/// A host service that a failure leaves to be stopped.
#[derive(Clone, Copy, Debug, PartialEq, Eq, Structural)]
pub enum Owner {
    First,
    Replacement,
}

/// The host service that is stopped when a step fails.
pub open spec fn owner_at(step: RecoveryStep) -> Option<Owner> {
    let rank = recovery_step_rank(step);
    if 0 <= rank <= recovery_step_rank(RecoveryStep::FirstEndpoints) {
        Some(Owner::First)
    } else if recovery_step_rank(RecoveryStep::IdentifyReplacement) <= rank
        <= recovery_step_rank(RecoveryStep::SocketRemoved) {
        Some(Owner::Replacement)
    } else {
        None
    }
}

/// The host service that is stopped when a step fails.
pub fn owner_to_stop(step: RecoveryStep) -> (owner: Option<Owner>)
    ensures
        owner == owner_at(step),
{
    match step {
        RecoveryStep::IdentifyFirst | RecoveryStep::FirstPeer | RecoveryStep::FirstScope
        | RecoveryStep::Create | RecoveryStep::Start | RecoveryStep::Marker
        | RecoveryStep::Observe | RecoveryStep::FirstEndpoints => Some(Owner::First),
        RecoveryStep::SocketBefore | RecoveryStep::Kill | RecoveryStep::SocketAfter
        | RecoveryStep::Reap | RecoveryStep::Endpoints | RecoveryStep::RecoveryReport
        | RecoveryStep::Complete | RecoveryStep::Stopped => None,
        _ => Some(Owner::Replacement),
    }
}

impl RecoveryRun {
    /// What a run has shown by the time it is at its step.
    pub open spec fn shown(self) -> bool {
        let rank = recovery_step_rank(self.step);
        let shown = self.evidence;
        &&& rank > 0 ==> shown.first_host_service is Some
        &&& rank > 1 ==> shown.first_socket_peer is Some
        &&& rank > 2 ==> shown.qualification_scope_verified
        &&& rank > 3 ==> shown.create_replayed && shown.target is Some
            && shown.target->0.generation is Some && shown.created_config_digest is Some
        &&& rank > 4 ==> shown.start_returned_running
        &&& rank > 5 ==> shown.init_marker_verified
        &&& rank > 6 ==> shown.live_vm_processes@.len() >= 2
        &&& rank > 7 ==> shown.authenticated_endpoint_consumed
        &&& rank > 9 ==> shown.host_service_sigkill_delivered && shown.first_host_service_reaped
        &&& rank > 10 ==> shown.stale_socket_retained
        &&& rank > 12 ==> shown.live_vm_processes_reaped && shown.endpoint_inventory_restored
        &&& rank > 13 ==> shown.authenticated_recovery_report_retained
        &&& rank > 14 ==> shown.replacement_host_service is Some
        &&& rank > 15 ==> shown.replacement_socket_peer is Some
            && shown.replacement_socket_new_owner && identity_view(shown.first_socket_peer)
            != identity_view(shown.replacement_socket_peer)
        &&& rank > 16 ==> shown.replacement_connected
        &&& rank > 21 ==> shown.recovered_wait_status is Some
        &&& rank > 22 ==> shown.exact_stopped_state_recovered && shown.process_inventory_empty
            && shown.recovered_wait_replayed && shown.recovered_wait_status == Some(killed_status())
        &&& rank > 23 ==> shown.stopped_delete_succeeded
        &&& rank > 27 ==> replacement_clean(shown)
        &&& rank > 30 ==> shown.replacement_exit_success && shown.replacement_socket_removed
            && shown.service_restart_recovered
    }

    /// A recovery qualification before its first step.
    pub fn start(id: String, evidence: LinuxKvmRecoveryEvidence) -> (run: RecoveryRun)
        ensures
            run == (RecoveryRun {
                step: RecoveryStep::IdentifyFirst,
                id,
                stale_socket: None,
                evidence,
            }),
            run.shown(),
    {
        RecoveryRun { step: RecoveryStep::IdentifyFirst, id, stale_socket: None, evidence }
    }

    /// Goes on with what was shown, or stops at a fault.
    fn go_on(
        step: RecoveryStep,
        id: String,
        stale_socket: Option<FileIdentity>,
        evidence: LinuxKvmRecoveryEvidence,
        fault: Option<String>,
    ) -> (outcome: (RecoveryRun, Progress))
        ensures
            match fault {
                Some(reason) => outcome.0 == (RecoveryRun {
                    step: RecoveryStep::Stopped,
                    id,
                    stale_socket,
                    evidence,
                })
                    && outcome.1 == Progress::Failed(reason),
                None => outcome.0 == (RecoveryRun {
                    step: recovery_step_successor(step),
                    id,
                    stale_socket,
                    evidence,
                })
                    && outcome.1 is Next,
            },
    {
        match fault {
            Some(reason) => (
                RecoveryRun { step: RecoveryStep::Stopped, id, stale_socket, evidence },
                Progress::Failed(reason),
            ),
            None => (
                RecoveryRun {
                    step: recovery_step_after(step),
                    id,
                    stale_socket,
                    evidence,
                },
                Progress::Next,
            ),
        }
    }

    /// Stops at a step that could not be carried out.
    pub fn failed(self, reason: String) -> (outcome: (RecoveryRun, Progress))
        ensures
            if self.step is Complete || self.step is Stopped {
                misplaced(self, outcome)
            } else {
                moved(self, self.evidence, Some(reason@), outcome)
            },
            self.shown() ==> outcome.0.shown(),
    {
        if self.step == RecoveryStep::Complete || self.step == RecoveryStep::Stopped {
            return (self, Progress::Misplaced);
        }
        let RecoveryRun { step, id, stale_socket, evidence } = self;
        Self::go_on(step, id, stale_socket, evidence, Some(reason))
    }

    /// Takes the identity of the first host service.
    pub fn first_identified(self, identity: LinuxProcessIdentity) -> (outcome: (
        RecoveryRun,
        Progress,
    ))
        ensures
            if self.step is IdentifyFirst {
                moved(
                    self,
                    LinuxKvmRecoveryEvidence {
                        first_host_service: Some(identity),
                        ..self.evidence
                    },
                    None,
                    outcome,
                )
            } else {
                misplaced(self, outcome)
            },
            self.shown() ==> outcome.0.shown(),
    {
        if self.step != RecoveryStep::IdentifyFirst {
            return (self, Progress::Misplaced);
        }
        let RecoveryRun { step, id, stale_socket, evidence } = self;
        let fault: Option<String> = None;
        let shown = LinuxKvmRecoveryEvidence { first_host_service: Some(identity), ..evidence };
        Self::go_on(step, id, stale_socket, shown, fault)
    }

    /// Takes the identity of the other end of its socket.
    pub fn first_peer(self, peer: LinuxProcessIdentity) -> (outcome: (RecoveryRun, Progress))
        ensures
            if self.step is FirstPeer {
                moved(
                    self,
                    LinuxKvmRecoveryEvidence {
                        first_socket_peer: Some(peer),
                        ..self.evidence
                    },
                    None,
                    outcome,
                )
            } else {
                misplaced(self, outcome)
            },
            self.shown() ==> outcome.0.shown(),
    {
        if self.step != RecoveryStep::FirstPeer {
            return (self, Progress::Misplaced);
        }
        let RecoveryRun { step, id, stale_socket, evidence } = self;
        let fault: Option<String> = None;
        let shown = LinuxKvmRecoveryEvidence { first_socket_peer: Some(peer), ..evidence };
        Self::go_on(step, id, stale_socket, shown, fault)
    }

    /// Takes that it can launch what it should.
    pub fn first_scope(self) -> (outcome: (RecoveryRun, Progress))
        ensures
            if self.step is FirstScope {
                moved(
                    self,
                    LinuxKvmRecoveryEvidence {
                        qualification_scope_verified: true,
                        ..self.evidence
                    },
                    None,
                    outcome,
                )
            } else {
                misplaced(self, outcome)
            },
            self.shown() ==> outcome.0.shown(),
    {
        if self.step != RecoveryStep::FirstScope {
            return (self, Progress::Misplaced);
        }
        let RecoveryRun { step, id, stale_socket, evidence } = self;
        let fault: Option<String> = None;
        let shown = LinuxKvmRecoveryEvidence { qualification_scope_verified: true, ..evidence };
        Self::go_on(step, id, stale_socket, shown, fault)
    }

    /// Takes what the two creates answered, and whether the handed-over bundle is
    /// still there.
    pub fn created(
        self,
        created: ContainerRecord,
        replayed: &ContainerRecord,
        handoff_left: bool,
    ) -> (outcome: (RecoveryRun, Progress))
        ensures
            if self.step is Create {
                let same = created@ == replayed@ && !handoff_left;
                if same && created.status is Created {
                    moved(
                        self,
                        LinuxKvmRecoveryEvidence {
                            create_replayed: true,
                            target: Some(
                                ContainerTarget {
                                    id: self.id,
                                    generation: Some(created.generation),
                                },
                            ),
                            created_config_digest: Some(created.config_digest),
                            ..self.evidence
                        },
                        None,
                        outcome,
                    )
                } else {
                    moved(
                        self,
                        LinuxKvmRecoveryEvidence { create_replayed: same, ..self.evidence },
                        Some("KVM recovery Create did not replay the exact created state"@),
                        outcome,
                    )
                }
            } else {
                misplaced(self, outcome)
            },
            self.shown() ==> outcome.0.shown(),
    {
        if self.step != RecoveryStep::Create {
            return (self, Progress::Misplaced);
        }
        let RecoveryRun { step, id, stale_socket, evidence } = self;
        let same = created.same(replayed) && !handoff_left;
        if !same || created.status != ContainerState::Created {
            let shown = LinuxKvmRecoveryEvidence { create_replayed: same, ..evidence };
            let reason = "KVM recovery Create did not replay the exact created state".to_owned();
            return Self::go_on(step, id, stale_socket, shown, Some(reason));
        }
        let shown = LinuxKvmRecoveryEvidence {
            create_replayed: true,
            target: Some(
                ContainerTarget { id: id.clone(), generation: Some(created.generation) },
            ),
            created_config_digest: Some(created.config_digest),
            ..evidence
        };
        Self::go_on(step, id, stale_socket, shown, None)
    }

    /// Takes the state that the start answered.
    pub fn started(self, status: ContainerState) -> (outcome: (RecoveryRun, Progress))
        ensures
            if self.step is Start {
                moved(
                    self,
                    LinuxKvmRecoveryEvidence {
                        start_returned_running: status is Running,
                        ..self.evidence
                    },
                    if !(status is Running) {
                        Some("KVM recovery Start did not return running state"@)
                    } else {
                        None
                    },
                    outcome,
                )
            } else {
                misplaced(self, outcome)
            },
            self.shown() ==> outcome.0.shown(),
    {
        if self.step != RecoveryStep::Start {
            return (self, Progress::Misplaced);
        }
        let RecoveryRun { step, id, stale_socket, evidence } = self;
        let running = status == ContainerState::Running;
        let fault: Option<String> = if !running {
            Some("KVM recovery Start did not return running state".to_owned())
        } else {
            None
        };
        let shown = LinuxKvmRecoveryEvidence { start_returned_running: running, ..evidence };
        Self::go_on(step, id, stale_socket, shown, fault)
    }

    /// Takes that the marker is there.
    pub fn marked(self) -> (outcome: (RecoveryRun, Progress))
        ensures
            if self.step is Marker {
                moved(
                    self,
                    LinuxKvmRecoveryEvidence { init_marker_verified: true, ..self.evidence },
                    None,
                    outcome,
                )
            } else {
                misplaced(self, outcome)
            },
            self.shown() ==> outcome.0.shown(),
    {
        if self.step != RecoveryStep::Marker {
            return (self, Progress::Misplaced);
        }
        let RecoveryRun { step, id, stale_socket, evidence } = self;
        let fault: Option<String> = None;
        let shown = LinuxKvmRecoveryEvidence { init_marker_verified: true, ..evidence };
        Self::go_on(step, id, stale_socket, shown, fault)
    }

    /// Takes the processes of the machine. Fewer than its shim and worker are not
    /// recorded.
    pub fn observed(self, processes: Vec<LinuxProcessIdentity>) -> (outcome: (
        RecoveryRun,
        Progress,
    ))
        ensures
            if self.step is Observe {
                if processes@.len() < 2 {
                    moved(
                        self,
                        self.evidence,
                        Some("Host Service did not expose KVM shim and worker descendants"@),
                        outcome,
                    )
                } else {
                    moved(
                        self,
                        LinuxKvmRecoveryEvidence { live_vm_processes: processes, ..self.evidence },
                        None,
                        outcome,
                    )
                }
            } else {
                misplaced(self, outcome)
            },
            self.shown() ==> outcome.0.shown(),
    {
        if self.step != RecoveryStep::Observe {
            return (self, Progress::Misplaced);
        }
        let RecoveryRun { step, id, stale_socket, evidence } = self;
        if processes.len() < 2 {
            let reason = "Host Service did not expose KVM shim and worker descendants".to_owned();
            return Self::go_on(step, id, stale_socket, evidence, Some(reason));
        }
        let shown = LinuxKvmRecoveryEvidence { live_vm_processes: processes, ..evidence };
        Self::go_on(step, id, stale_socket, shown, None)
    }

    /// Takes whether the agent's endpoint was used up.
    pub fn endpoint_consumed(self, consumed: bool) -> (outcome: (RecoveryRun, Progress))
        ensures
            if self.step is FirstEndpoints {
                moved(
                    self,
                    LinuxKvmRecoveryEvidence {
                        authenticated_endpoint_consumed: consumed,
                        ..self.evidence
                    },
                    if !consumed {
                        Some("live KVM session retained its one-shot endpoint"@)
                    } else {
                        None
                    },
                    outcome,
                )
            } else {
                misplaced(self, outcome)
            },
            self.shown() ==> outcome.0.shown(),
    {
        if self.step != RecoveryStep::FirstEndpoints {
            return (self, Progress::Misplaced);
        }
        let RecoveryRun { step, id, stale_socket, evidence } = self;
        let fault: Option<String> = if !consumed {
            Some("live KVM session retained its one-shot endpoint".to_owned())
        } else {
            None
        };
        let shown = LinuxKvmRecoveryEvidence {
            authenticated_endpoint_consumed: consumed,
            ..evidence
        };
        Self::go_on(step, id, stale_socket, shown, fault)
    }

    /// Takes which file the socket is.
    pub fn socket_identified(self, socket: FileIdentity) -> (outcome: (RecoveryRun, Progress))
        ensures
            if self.step is SocketBefore {
                outcome.0 == (RecoveryRun {
                    step: RecoveryStep::Kill,
                    stale_socket: Some(socket),
                    ..self
                }) && outcome.1 is Next
            } else {
                misplaced(self, outcome)
            },
            self.shown() ==> outcome.0.shown(),
    {
        if self.step != RecoveryStep::SocketBefore {
            return (self, Progress::Misplaced);
        }
        (
            RecoveryRun { step: RecoveryStep::Kill, stale_socket: Some(socket), ..self },
            Progress::Next,
        )
    }

    /// Takes that the first host service was killed and reaped.
    pub fn first_killed(self) -> (outcome: (RecoveryRun, Progress))
        ensures
            if self.step is Kill {
                moved(
                    self,
                    LinuxKvmRecoveryEvidence {
                        host_service_sigkill_delivered: true,
                        first_host_service_reaped: true,
                        ..self.evidence
                    },
                    None,
                    outcome,
                )
            } else {
                misplaced(self, outcome)
            },
            self.shown() ==> outcome.0.shown(),
    {
        if self.step != RecoveryStep::Kill {
            return (self, Progress::Misplaced);
        }
        let RecoveryRun { step, id, stale_socket, evidence } = self;
        let fault: Option<String> = None;
        let shown = LinuxKvmRecoveryEvidence {
            host_service_sigkill_delivered: true,
            first_host_service_reaped: true,
            ..evidence
        };
        Self::go_on(step, id, stale_socket, shown, fault)
    }

    /// Takes which file the socket is after the kill.
    pub fn socket_after_kill(self, socket: FileIdentity) -> (outcome: (RecoveryRun, Progress))
        ensures
            if self.step is SocketAfter {
                moved(
                    self,
                    LinuxKvmRecoveryEvidence {
                        stale_socket_retained: self.stale_socket == Some(socket),
                        ..self.evidence
                    },
                    if self.stale_socket != Some(socket) {
                        Some("SIGKILLed Host Service did not leave its exact stale socket"@)
                    } else {
                        None
                    },
                    outcome,
                )
            } else {
                misplaced(self, outcome)
            },
            self.shown() ==> outcome.0.shown(),
    {
        if self.step != RecoveryStep::SocketAfter {
            return (self, Progress::Misplaced);
        }
        let RecoveryRun { step, id, stale_socket, evidence } = self;
        let retained = match stale_socket {
            Some(before) => same_file(before, socket),
            None => false,
        };
        let fault: Option<String> = if !retained {
            Some("SIGKILLed Host Service did not leave its exact stale socket".to_owned())
        } else {
            None
        };
        let shown = LinuxKvmRecoveryEvidence { stale_socket_retained: retained, ..evidence };
        Self::go_on(step, id, stale_socket, shown, fault)
    }

    /// Takes whether the machine's processes are gone.
    pub fn reaped(self, reaped: bool) -> (outcome: (RecoveryRun, Progress))
        ensures
            if self.step is Reap {
                moved(
                    self,
                    LinuxKvmRecoveryEvidence {
                        live_vm_processes_reaped: reaped,
                        ..self.evidence
                    },
                    None,
                    outcome,
                )
            } else {
                misplaced(self, outcome)
            },
            self.shown() ==> outcome.0.shown(),
    {
        if self.step != RecoveryStep::Reap {
            return (self, Progress::Misplaced);
        }
        let RecoveryRun { step, id, stale_socket, evidence } = self;
        let fault: Option<String> = None;
        let shown = LinuxKvmRecoveryEvidence { live_vm_processes_reaped: reaped, ..evidence };
        Self::go_on(step, id, stale_socket, shown, fault)
    }

    /// Takes whether the endpoints are as before.
    pub fn endpoints_restored(self, restored: bool) -> (outcome: (RecoveryRun, Progress))
        ensures
            if self.step is Endpoints {
                moved(
                    self,
                    LinuxKvmRecoveryEvidence {
                        endpoint_inventory_restored: restored,
                        ..self.evidence
                    },
                    if !self.evidence.live_vm_processes_reaped || !restored {
                        Some("owner death left a KVM process or guest-agent endpoint behind"@)
                    } else {
                        None
                    },
                    outcome,
                )
            } else {
                misplaced(self, outcome)
            },
            self.shown() ==> outcome.0.shown(),
    {
        if self.step != RecoveryStep::Endpoints {
            return (self, Progress::Misplaced);
        }
        let RecoveryRun { step, id, stale_socket, evidence } = self;
        let fault: Option<String> = if !evidence.live_vm_processes_reaped || !restored {
            Some("owner death left a KVM process or guest-agent endpoint behind".to_owned())
        } else {
            None
        };
        let shown = LinuxKvmRecoveryEvidence { endpoint_inventory_restored: restored, ..evidence };
        Self::go_on(step, id, stale_socket, shown, fault)
    }

    /// Takes whether the recovery report shows the kill.
    pub fn report_retained(self, retained: bool) -> (outcome: (RecoveryRun, Progress))
        ensures
            if self.step is RecoveryReport {
                moved(
                    self,
                    LinuxKvmRecoveryEvidence {
                        authenticated_recovery_report_retained: retained,
                        ..self.evidence
                    },
                    if !retained {
                        Some("authenticated KVM recovery report was not retained"@)
                    } else {
                        None
                    },
                    outcome,
                )
            } else {
                misplaced(self, outcome)
            },
            self.shown() ==> outcome.0.shown(),
    {
        if self.step != RecoveryStep::RecoveryReport {
            return (self, Progress::Misplaced);
        }
        let RecoveryRun { step, id, stale_socket, evidence } = self;
        let fault: Option<String> = if !retained {
            Some("authenticated KVM recovery report was not retained".to_owned())
        } else {
            None
        };
        let shown = LinuxKvmRecoveryEvidence {
            authenticated_recovery_report_retained: retained,
            ..evidence
        };
        Self::go_on(step, id, stale_socket, shown, fault)
    }

    /// Takes the identity of the replacement.
    pub fn replacement_identified(self, identity: LinuxProcessIdentity) -> (outcome: (
        RecoveryRun,
        Progress,
    ))
        ensures
            if self.step is IdentifyReplacement {
                moved(
                    self,
                    LinuxKvmRecoveryEvidence {
                        replacement_host_service: Some(identity),
                        ..self.evidence
                    },
                    None,
                    outcome,
                )
            } else {
                misplaced(self, outcome)
            },
            self.shown() ==> outcome.0.shown(),
    {
        if self.step != RecoveryStep::IdentifyReplacement {
            return (self, Progress::Misplaced);
        }
        let RecoveryRun { step, id, stale_socket, evidence } = self;
        let fault: Option<String> = None;
        let shown = LinuxKvmRecoveryEvidence {
            replacement_host_service: Some(identity),
            ..evidence
        };
        Self::go_on(step, id, stale_socket, shown, fault)
    }

    /// Takes the identity of the other end of its socket.
    pub fn replacement_peer(self, peer: LinuxProcessIdentity) -> (outcome: (RecoveryRun, Progress))
        ensures
            if self.step is ReplacementPeer {
                moved(
                    self,
                    LinuxKvmRecoveryEvidence {
                        replacement_socket_peer: Some(peer),
                        replacement_socket_new_owner: identity_view(self.evidence.first_socket_peer)
                            != Some(peer@),
                        ..self.evidence
                    },
                    if identity_view(self.evidence.first_socket_peer) == Some(peer@) {
                        Some("replacement socket kept the first owner identity"@)
                    } else {
                        None
                    },
                    outcome,
                )
            } else {
                misplaced(self, outcome)
            },
            self.shown() ==> outcome.0.shown(),
    {
        if self.step != RecoveryStep::ReplacementPeer {
            return (self, Progress::Misplaced);
        }
        let RecoveryRun { step, id, stale_socket, evidence } = self;
        let peer = Some(peer);
        let new_owner = !same_identity(&evidence.first_socket_peer, &peer);
        let fault: Option<String> = if !new_owner {
            Some("replacement socket kept the first owner identity".to_owned())
        } else {
            None
        };
        let shown = LinuxKvmRecoveryEvidence {
            replacement_socket_peer: peer,
            replacement_socket_new_owner: new_owner,
            ..evidence
        };
        Self::go_on(step, id, stale_socket, shown, fault)
    }

    /// Takes that the replacement was connected to.
    pub fn connected(self) -> (outcome: (RecoveryRun, Progress))
        ensures
            if self.step is Connect {
                moved(
                    self,
                    LinuxKvmRecoveryEvidence { replacement_connected: true, ..self.evidence },
                    None,
                    outcome,
                )
            } else {
                misplaced(self, outcome)
            },
            self.shown() ==> outcome.0.shown(),
    {
        if self.step != RecoveryStep::Connect {
            return (self, Progress::Misplaced);
        }
        let RecoveryRun { step, id, stale_socket, evidence } = self;
        let fault: Option<String> = None;
        let shown = LinuxKvmRecoveryEvidence { replacement_connected: true, ..evidence };
        Self::go_on(step, id, stale_socket, shown, fault)
    }

    /// Takes that the replacement can launch what it should.
    pub fn replacement_scope(self) -> (outcome: (RecoveryRun, Progress))
        ensures
            if self.step is ReplacementScope {
                moved(
                    self,
                    self.evidence,
                    None,
                    outcome,
                )
            } else {
                misplaced(self, outcome)
            },
            self.shown() ==> outcome.0.shown(),
    {
        if self.step != RecoveryStep::ReplacementScope {
            return (self, Progress::Misplaced);
        }
        let RecoveryRun { step, id, stale_socket, evidence } = self;
        let fault: Option<String> = None;
        let shown = evidence;
        Self::go_on(step, id, stale_socket, shown, fault)
    }

    /// Takes how many descriptors the replacement has.
    pub fn descriptors_before(self, count: usize) -> (outcome: (RecoveryRun, Progress))
        ensures
            if self.step is DescriptorsBefore {
                moved(
                    self,
                    LinuxKvmRecoveryEvidence {
                        open_descriptors_before: reported_count(count),
                        ..self.evidence
                    },
                    None,
                    outcome,
                )
            } else {
                misplaced(self, outcome)
            },
            self.shown() ==> outcome.0.shown(),
    {
        if self.step != RecoveryStep::DescriptorsBefore {
            return (self, Progress::Misplaced);
        }
        let RecoveryRun { step, id, stale_socket, evidence } = self;
        let fault: Option<String> = None;
        let shown = LinuxKvmRecoveryEvidence {
            open_descriptors_before: report_count(count),
            ..evidence
        };
        Self::go_on(step, id, stale_socket, shown, fault)
    }

    /// Takes the container as the replacement knows it.
    pub fn state_recovered(self, recovered: &ContainerRecord) -> (outcome: (RecoveryRun, Progress))
        ensures
            if self.step is State {
                moved(
                    self,
                    LinuxKvmRecoveryEvidence {
                        exact_stopped_state_recovered: recovered_exactly(self.evidence, *recovered),
                        ..self.evidence
                    },
                    None,
                    outcome,
                )
            } else {
                misplaced(self, outcome)
            },
            self.shown() ==> outcome.0.shown(),
    {
        if self.step != RecoveryStep::State {
            return (self, Progress::Misplaced);
        }
        let RecoveryRun { step, id, stale_socket, evidence } = self;
        let exact = is_recovered_exactly(&evidence, recovered);
        let fault: Option<String> = None;
        let shown = LinuxKvmRecoveryEvidence { exact_stopped_state_recovered: exact, ..evidence };
        Self::go_on(step, id, stale_socket, shown, fault)
    }

    /// Takes whether the container has no processes.
    pub fn processes_listed(self, empty: bool) -> (outcome: (RecoveryRun, Progress))
        ensures
            if self.step is Processes {
                moved(
                    self,
                    LinuxKvmRecoveryEvidence {
                        process_inventory_empty: empty,
                        ..self.evidence
                    },
                    None,
                    outcome,
                )
            } else {
                misplaced(self, outcome)
            },
            self.shown() ==> outcome.0.shown(),
    {
        if self.step != RecoveryStep::Processes {
            return (self, Progress::Misplaced);
        }
        let RecoveryRun { step, id, stale_socket, evidence } = self;
        let fault: Option<String> = None;
        let shown = LinuxKvmRecoveryEvidence { process_inventory_empty: empty, ..evidence };
        Self::go_on(step, id, stale_socket, shown, fault)
    }

    /// Takes what the wait answered.
    pub fn waited(self, status: ExitStatus) -> (outcome: (RecoveryRun, Progress))
        ensures
            if self.step is Wait {
                moved(
                    self,
                    LinuxKvmRecoveryEvidence {
                        recovered_wait_status: Some(status),
                        ..self.evidence
                    },
                    None,
                    outcome,
                )
            } else {
                misplaced(self, outcome)
            },
            self.shown() ==> outcome.0.shown(),
    {
        if self.step != RecoveryStep::Wait {
            return (self, Progress::Misplaced);
        }
        let RecoveryRun { step, id, stale_socket, evidence } = self;
        let fault: Option<String> = None;
        let shown = LinuxKvmRecoveryEvidence { recovered_wait_status: Some(status), ..evidence };
        Self::go_on(step, id, stale_socket, shown, fault)
    }

    /// Takes what the second wait answered.
    pub fn wait_replayed(self, status: ExitStatus) -> (outcome: (RecoveryRun, Progress))
        ensures
            if self.step is ReplayWait {
                moved(
                    self,
                    LinuxKvmRecoveryEvidence {
                        recovered_wait_replayed: self.evidence.recovered_wait_status
                            == Some(status),
                        ..self.evidence
                    },
                    if !self.evidence.exact_stopped_state_recovered
                        || !self.evidence.process_inventory_empty
                        || self.evidence.recovered_wait_status != Some(killed_status())
                        || self.evidence.recovered_wait_status != Some(status) {
                        Some("replacement did not recover exact stopped/SIGKILL state"@)
                    } else {
                        None
                    },
                    outcome,
                )
            } else {
                misplaced(self, outcome)
            },
            self.shown() ==> outcome.0.shown(),
    {
        if self.step != RecoveryStep::ReplayWait {
            return (self, Progress::Misplaced);
        }
        let RecoveryRun { step, id, stale_socket, evidence } = self;
        let same = match evidence.recovered_wait_status {
            Some(first) => first == status,
            None => false,
        };
        let fault: Option<String> = if !evidence.exact_stopped_state_recovered
            || !evidence.process_inventory_empty
            || !is_killed(&evidence.recovered_wait_status) || !same {
            Some("replacement did not recover exact stopped/SIGKILL state".to_owned())
        } else {
            None
        };
        let shown = LinuxKvmRecoveryEvidence { recovered_wait_replayed: same, ..evidence };
        Self::go_on(step, id, stale_socket, shown, fault)
    }

    /// Takes that the container was deleted.
    pub fn deleted(self) -> (outcome: (RecoveryRun, Progress))
        ensures
            if self.step is Delete {
                moved(
                    self,
                    LinuxKvmRecoveryEvidence {
                        stopped_delete_succeeded: true,
                        ..self.evidence
                    },
                    None,
                    outcome,
                )
            } else {
                misplaced(self, outcome)
            },
            self.shown() ==> outcome.0.shown(),
    {
        if self.step != RecoveryStep::Delete {
            return (self, Progress::Misplaced);
        }
        let RecoveryRun { step, id, stale_socket, evidence } = self;
        let fault: Option<String> = None;
        let shown = LinuxKvmRecoveryEvidence { stopped_delete_succeeded: true, ..evidence };
        Self::go_on(step, id, stale_socket, shown, fault)
    }

    /// Takes whether nothing is left of its durable state.
    pub fn state_removed(self, removed: bool) -> (outcome: (RecoveryRun, Progress))
        ensures
            if self.step is Removed {
                moved(
                    self,
                    LinuxKvmRecoveryEvidence {
                        durable_state_removed: removed,
                        ..self.evidence
                    },
                    None,
                    outcome,
                )
            } else {
                misplaced(self, outcome)
            },
            self.shown() ==> outcome.0.shown(),
    {
        if self.step != RecoveryStep::Removed {
            return (self, Progress::Misplaced);
        }
        let RecoveryRun { step, id, stale_socket, evidence } = self;
        let fault: Option<String> = None;
        let shown = LinuxKvmRecoveryEvidence { durable_state_removed: removed, ..evidence };
        Self::go_on(step, id, stale_socket, shown, fault)
    }

    /// Takes whether the descriptors are as before.
    pub fn descriptors_restored(self, restored: bool) -> (outcome: (RecoveryRun, Progress))
        ensures
            if self.step is DescriptorsRestored {
                moved(
                    self,
                    LinuxKvmRecoveryEvidence {
                        replacement_descriptor_inventory_restored: restored,
                        ..self.evidence
                    },
                    None,
                    outcome,
                )
            } else {
                misplaced(self, outcome)
            },
            self.shown() ==> outcome.0.shown(),
    {
        if self.step != RecoveryStep::DescriptorsRestored {
            return (self, Progress::Misplaced);
        }
        let RecoveryRun { step, id, stale_socket, evidence } = self;
        let fault: Option<String> = None;
        let shown = LinuxKvmRecoveryEvidence {
            replacement_descriptor_inventory_restored: restored,
            ..evidence
        };
        Self::go_on(step, id, stale_socket, shown, fault)
    }

    /// Takes how many descriptors the replacement has.
    pub fn descriptors_after(self, count: usize) -> (outcome: (RecoveryRun, Progress))
        ensures
            if self.step is DescriptorsAfter {
                moved(
                    self,
                    LinuxKvmRecoveryEvidence {
                        open_descriptors_after: reported_count(count),
                        ..self.evidence
                    },
                    None,
                    outcome,
                )
            } else {
                misplaced(self, outcome)
            },
            self.shown() ==> outcome.0.shown(),
    {
        if self.step != RecoveryStep::DescriptorsAfter {
            return (self, Progress::Misplaced);
        }
        let RecoveryRun { step, id, stale_socket, evidence } = self;
        let fault: Option<String> = None;
        let shown = LinuxKvmRecoveryEvidence {
            open_descriptors_after: report_count(count),
            ..evidence
        };
        Self::go_on(step, id, stale_socket, shown, fault)
    }

    /// Takes what is in the runtime directory.
    pub fn inventoried(self, inventory: RuntimeInventory) -> (outcome: (RecoveryRun, Progress))
        ensures
            if self.step is Inventory {
                moved(
                    self,
                    LinuxKvmRecoveryEvidence {
                        bundle_handoffs_clean: inventory.bundle_handoffs_clean,
                        runtime_shares_clean: inventory.runtime_shares_clean,
                        recovery_reports_clean: inventory.recovery_reports_clean,
                        console_files_retained: inventory.console_files,
                        ..self.evidence
                    },
                    if !(self.evidence.durable_state_removed
                        && self.evidence.replacement_descriptor_inventory_restored
                        && inventory.bundle_handoffs_clean
                        && inventory.runtime_shares_clean
                        && inventory.recovery_reports_clean) {
                        Some("replacement delete did not restore cleanup baselines"@)
                    } else {
                        None
                    },
                    outcome,
                )
            } else {
                misplaced(self, outcome)
            },
            self.shown() ==> outcome.0.shown(),
    {
        if self.step != RecoveryStep::Inventory {
            return (self, Progress::Misplaced);
        }
        let RecoveryRun { step, id, stale_socket, evidence } = self;
        let fault: Option<String> = if !evidence.durable_state_removed
            || !evidence.replacement_descriptor_inventory_restored
            || !inventory.bundle_handoffs_clean || !inventory.runtime_shares_clean
            || !inventory.recovery_reports_clean {
            Some("replacement delete did not restore cleanup baselines".to_owned())
        } else {
            None
        };
        let shown = LinuxKvmRecoveryEvidence {
            bundle_handoffs_clean: inventory.bundle_handoffs_clean,
            runtime_shares_clean: inventory.runtime_shares_clean,
            recovery_reports_clean: inventory.recovery_reports_clean,
            console_files_retained: inventory.console_files,
            ..evidence
        };
        Self::go_on(step, id, stale_socket, shown, fault)
    }

    /// Takes whether the endpoints are as before.
    pub fn endpoints_restored_again(self, restored: bool) -> (outcome: (RecoveryRun, Progress))
        ensures
            if self.step is EndpointsAgain {
                moved(
                    self,
                    self.evidence,
                    if !restored {
                        Some("replacement delete did not restore cleanup baselines"@)
                    } else {
                        None
                    },
                    outcome,
                )
            } else {
                misplaced(self, outcome)
            },
            self.shown() ==> outcome.0.shown(),
    {
        if self.step != RecoveryStep::EndpointsAgain {
            return (self, Progress::Misplaced);
        }
        let RecoveryRun { step, id, stale_socket, evidence } = self;
        let fault: Option<String> = if !restored {
            Some("replacement delete did not restore cleanup baselines".to_owned())
        } else {
            None
        };
        let shown = evidence;
        Self::go_on(step, id, stale_socket, shown, fault)
    }

    /// Takes whether the replacement ended well.
    pub fn terminated(self, success: bool) -> (outcome: (RecoveryRun, Progress))
        ensures
            if self.step is Terminate {
                moved(
                    self,
                    LinuxKvmRecoveryEvidence {
                        replacement_exit_success: success,
                        ..self.evidence
                    },
                    None,
                    outcome,
                )
            } else {
                misplaced(self, outcome)
            },
            self.shown() ==> outcome.0.shown(),
    {
        if self.step != RecoveryStep::Terminate {
            return (self, Progress::Misplaced);
        }
        let RecoveryRun { step, id, stale_socket, evidence } = self;
        let fault: Option<String> = None;
        let shown = LinuxKvmRecoveryEvidence { replacement_exit_success: success, ..evidence };
        Self::go_on(step, id, stale_socket, shown, fault)
    }

    /// Takes whether the replacement's socket is still there.
    pub fn socket_checked(self, present: bool) -> (outcome: (RecoveryRun, Progress))
        ensures
            if self.step is SocketRemoved {
                moved(
                    self,
                    LinuxKvmRecoveryEvidence {
                        replacement_socket_removed: !present,
                        service_restart_recovered: self.evidence.replacement_exit_success
                            && !present
                            && self.evidence.exact_stopped_state_recovered,
                        ..self.evidence
                    },
                    if !(self.evidence.replacement_exit_success && !present
                        && self.evidence.exact_stopped_state_recovered) {
                        Some("replacement Host Service did not shut down cleanly"@)
                    } else {
                        None
                    },
                    outcome,
                )
            } else {
                misplaced(self, outcome)
            },
            self.shown() ==> outcome.0.shown(),
    {
        if self.step != RecoveryStep::SocketRemoved {
            return (self, Progress::Misplaced);
        }
        let RecoveryRun { step, id, stale_socket, evidence } = self;
        let recovered = evidence.replacement_exit_success && !present
            && evidence.exact_stopped_state_recovered;
        let fault: Option<String> = if !recovered {
            Some("replacement Host Service did not shut down cleanly".to_owned())
        } else {
            None
        };
        let shown = LinuxKvmRecoveryEvidence {
            replacement_socket_removed: !present,
            service_restart_recovered: recovered,
            ..evidence
        };
        Self::go_on(step, id, stale_socket, shown, fault)
    }

}

/// A recovery that has gone through all its steps has shown all that success asks
/// for, given that each socket is that of its service, that the configuration
/// digest is canonical, that as many descriptors are open as before and that a
/// console was kept.
pub proof fn completed_recoveries_succeed(run: RecoveryRun)
    requires
        run.step is Complete,
        run.shown(),
        identity_view(run.evidence.first_socket_peer) == identity_view(
            run.evidence.first_host_service,
        ),
        identity_view(run.evidence.replacement_socket_peer) == identity_view(
            run.evidence.replacement_host_service,
        ),
        is_sha256_digest(run.evidence.created_config_digest->0@),
        run.evidence.open_descriptors_before == run.evidence.open_descriptors_after,
        run.evidence.console_files_retained >= 1,
        run.evidence.reason is None,
    ensures
        run.evidence.succeeds(),
{
}

impl LinuxKvmRecoverySmokeReport {
    /// Records that the qualification failed.
    pub fn refuse(self, reason: String) -> (report: LinuxKvmRecoverySmokeReport)
        ensures
            report.recovery.reason == Some(reason),
            report.reason is Some,
            report.reason->0@ == reason@,
            report == (LinuxKvmRecoverySmokeReport {
                recovery: LinuxKvmRecoveryEvidence { reason: Some(reason), ..self.recovery },
                reason: report.reason,
                ..self
            }),
            !report.succeeds(),
    {
        let again = reason.clone();
        LinuxKvmRecoverySmokeReport {
            recovery: LinuxKvmRecoveryEvidence { reason: Some(reason), ..self.recovery },
            reason: Some(again),
            ..self
        }
    }

    /// Concludes a qualification that ran to its end: it is available, as one
    /// case, only if the whole report is that of a success.
    pub fn conclude(self) -> (report: LinuxKvmRecoverySmokeReport)
        ensures
            ({
                let claimed = LinuxKvmRecoverySmokeReport {
                    status: CapabilityStatus::Available,
                    case_count: 1,
                    ..self
                };
                if !self.recovery.succeeds() {
                    &&& report.reason is Some
                    &&& report.reason->0@
                        == "Linux KVM recovery evidence failed its completeness audit"@
                    &&& report.recovery.reason is Some
                    &&& report.recovery.reason->0@
                        == "Linux KVM recovery evidence failed its completeness audit"@
                    &&& report == (LinuxKvmRecoverySmokeReport {
                        recovery: LinuxKvmRecoveryEvidence {
                            reason: report.recovery.reason,
                            ..self.recovery
                        },
                        reason: report.reason,
                        ..self
                    })
                } else if claimed.succeeds() {
                    report == claimed
                } else {
                    &&& report.reason is Some
                    &&& report.reason->0@ == "Linux KVM recovery report failed its final audit"@
                    &&& report == (LinuxKvmRecoverySmokeReport {
                        status: CapabilityStatus::Unavailable,
                        case_count: 0,
                        reason: report.reason,
                        ..self
                    })
                }
            }),
    {
        if !self.recovery.is_success() {
            return self.refuse(
                "Linux KVM recovery evidence failed its completeness audit".to_owned(),
            );
        }
        let claimed = LinuxKvmRecoverySmokeReport {
            status: CapabilityStatus::Available,
            case_count: 1,
            ..self
        };
        if claimed.is_success() {
            return claimed;
        }
        claimed.withdraw("Linux KVM recovery report failed its final audit".to_owned())
    }

    /// Withdraws a report that could not be kept.
    pub fn withdraw(self, reason: String) -> (report: LinuxKvmRecoverySmokeReport)
        ensures
            report == (LinuxKvmRecoverySmokeReport {
                status: CapabilityStatus::Unavailable,
                case_count: 0,
                reason: Some(reason),
                ..self
            }),
            !report.succeeds(),
    {
        LinuxKvmRecoverySmokeReport {
            status: CapabilityStatus::Unavailable,
            case_count: 0,
            reason: Some(reason),
            ..self
        }
    }
}

/// Where a recovery is that met no fault in so many steps.
pub open spec fn faultless_step(count: nat) -> RecoveryStep
    decreases count,
{
    if count == 0 {
        RecoveryStep::IdentifyFirst
    } else {
        recovery_step_successor(faultless_step((count - 1) as nat))
    }
}

/// A recovery that meets no fault takes every step, each behind the one it rests on, before it is
/// complete, and none after that.
pub proof fn no_step_is_left_out(count: nat)
    ensures
        faultless_step(0) is IdentifyFirst,
        faultless_step(1) is FirstPeer,
        faultless_step(2) is FirstScope,
        faultless_step(3) is Create,
        faultless_step(4) is Start,
        faultless_step(5) is Marker,
        faultless_step(6) is Observe,
        faultless_step(7) is FirstEndpoints,
        faultless_step(8) is SocketBefore,
        faultless_step(9) is Kill,
        faultless_step(10) is SocketAfter,
        faultless_step(11) is Reap,
        faultless_step(12) is Endpoints,
        faultless_step(13) is RecoveryReport,
        faultless_step(14) is IdentifyReplacement,
        faultless_step(15) is ReplacementPeer,
        faultless_step(16) is Connect,
        faultless_step(17) is ReplacementScope,
        faultless_step(18) is DescriptorsBefore,
        faultless_step(19) is State,
        faultless_step(20) is Processes,
        faultless_step(21) is Wait,
        faultless_step(22) is ReplayWait,
        faultless_step(23) is Delete,
        faultless_step(24) is Removed,
        faultless_step(25) is DescriptorsRestored,
        faultless_step(26) is DescriptorsAfter,
        faultless_step(27) is Inventory,
        faultless_step(28) is EndpointsAgain,
        faultless_step(29) is Terminate,
        faultless_step(30) is SocketRemoved,
        count >= 31 ==> faultless_step(count) is Complete,
    decreases count,
{
    assert(faultless_step(0) is IdentifyFirst);
    assert(faultless_step(1) is FirstPeer);
    assert(faultless_step(2) is FirstScope);
    assert(faultless_step(3) is Create);
    assert(faultless_step(4) is Start);
    assert(faultless_step(5) is Marker);
    assert(faultless_step(6) is Observe);
    assert(faultless_step(7) is FirstEndpoints);
    assert(faultless_step(8) is SocketBefore);
    assert(faultless_step(9) is Kill);
    assert(faultless_step(10) is SocketAfter);
    assert(faultless_step(11) is Reap);
    assert(faultless_step(12) is Endpoints);
    assert(faultless_step(13) is RecoveryReport);
    assert(faultless_step(14) is IdentifyReplacement);
    assert(faultless_step(15) is ReplacementPeer);
    assert(faultless_step(16) is Connect);
    assert(faultless_step(17) is ReplacementScope);
    assert(faultless_step(18) is DescriptorsBefore);
    assert(faultless_step(19) is State);
    assert(faultless_step(20) is Processes);
    assert(faultless_step(21) is Wait);
    assert(faultless_step(22) is ReplayWait);
    assert(faultless_step(23) is Delete);
    assert(faultless_step(24) is Removed);
    assert(faultless_step(25) is DescriptorsRestored);
    assert(faultless_step(26) is DescriptorsAfter);
    assert(faultless_step(27) is Inventory);
    assert(faultless_step(28) is EndpointsAgain);
    assert(faultless_step(29) is Terminate);
    assert(faultless_step(30) is SocketRemoved);
    assert(faultless_step(31) is Complete);
    if count > 31 {
        no_step_is_left_out((count - 1) as nat);
    }
}

/// A fault stops a recovery and is reported as it is, and without one it goes on to the next
/// step; either way it keeps what it has shown.
pub proof fn faults_stop_the_run(
    before: RecoveryRun,
    evidence: LinuxKvmRecoveryEvidence,
    fault: Option<Seq<char>>,
    outcome: (RecoveryRun, Progress),
)
    requires
        moved(before, evidence, fault, outcome),
    ensures
        fault is Some <==> outcome.1 is Failed,
        fault is None <==> outcome.1 is Next,
        fault matches Some(reason) ==> outcome.1->Failed_0@ == reason && outcome.0.step is Stopped,
        fault is None ==> outcome.0.step == recovery_step_successor(before.step),
        outcome.0.evidence == evidence,
        outcome.0.id == before.id,
        outcome.0.stale_socket == before.stale_socket,
{
}

/// A failing run stops the service it still owns: the first one until its socket was
/// looked at for the kill, the replacement once it is to be identified, and none in
/// between, where the first one is dead or about to be, nor at the end.
pub proof fn failing_runs_stop_what_they_own(count: nat)
    ensures
        count < 8 ==> owner_at(faultless_step(count)) == Some(Owner::First),
        8 <= count < 14 ==> owner_at(faultless_step(count)) is None,
        14 <= count < 31 ==> owner_at(faultless_step(count)) == Some(Owner::Replacement),
        count >= 31 ==> owner_at(faultless_step(count)) is None,
        owner_at(RecoveryStep::Kill) is None,
        owner_at(RecoveryStep::Stopped) is None,
{
    no_step_is_left_out(count);
}

/// The replacement is believed to show the container that was created only where it shows
/// it stopped, without a process, at the generation and with the configuration it had.
pub proof fn recovered_containers_are_the_created_ones(
    evidence: LinuxKvmRecoveryEvidence,
    recovered: ContainerRecord,
)
    ensures
        recovered_exactly(evidence, recovered) <==> {
            &&& recovered.status is Stopped
            &&& recovered.pid is None
            &&& evidence.target matches Some(target) && target.generation == Some(
                recovered.generation,
            )
            &&& evidence.created_config_digest matches Some(digest) && digest@
                == recovered.config_digest@
        },
{
}

/// A replacement is clean only where nothing of the container is left: no state, no
/// descriptor, no handoff, no share and no report.
pub proof fn clean_replacements_keep_nothing(evidence: LinuxKvmRecoveryEvidence)
    ensures
        replacement_clean(evidence) ==> evidence.durable_state_removed,
        replacement_clean(evidence) ==> evidence.replacement_descriptor_inventory_restored,
        replacement_clean(evidence) ==> evidence.bundle_handoffs_clean,
        replacement_clean(evidence) ==> evidence.runtime_shares_clean,
        replacement_clean(evidence) ==> evidence.recovery_reports_clean,
        evidence.durable_state_removed && evidence.replacement_descriptor_inventory_restored
            && evidence.bundle_handoffs_clean && evidence.runtime_shares_clean
            && evidence.recovery_reports_clean ==> replacement_clean(evidence),
{
}

/// A count is reported as it is wherever the report can hold it.
pub proof fn counts_are_reported_exactly(count: usize)
    ensures
        reported_count(count) matches Some(reported) ==> reported == count,
        reported_count(count) is None <==> count > u32::MAX,
{
}

/// An answer to something that was not asked changes nothing, and a run that was stopped
/// stays stopped.
pub proof fn misplaced_answers_change_nothing(before: RecoveryRun, outcome: (RecoveryRun, Progress))
    ensures
        misplaced(before, outcome) <==> outcome.0 == before && outcome.1 is Misplaced,
        recovery_step_successor(RecoveryStep::Stopped) is Stopped,
{
}

} // verus!
