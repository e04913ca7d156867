//! The course of a soak: what each generation has to show, step by step, and
//! what the soak as a whole comes to.

use vstd::prelude::*;
use crate::digest::is_sha256_digest;
use crate::linux_kvm_recovery_smoke::runner::{report_count, reported_count};
use crate::linux_kvm_recovery_smoke::soak_report::{
    iterations_bounded, validate_iterations, LinuxKvmSoakReport, LinuxKvmSoakWaveEvidence,
    MAX_LINUX_KVM_SOAK_ITERATIONS,
};
use crate::model::{
    is_killed, killed_status, CapabilityStatus, ContainerRecord, ContainerState, ContainerTarget,
    ExitStatus,
};
use crate::path::{components, join, joined, same_path, starts_with};
use crate::process::LinuxProcessIdentity;
use crate::text::{append_decimal, byte_count, byte_length, decimal};

verus! {

/// The inputs of one soak.
#[derive(Clone, Debug)]
pub struct LinuxKvmSoakSmokeConfig {
    pub host_service_executable: String,
    pub shim: String,
    pub system_image_manifest: String,
    pub bundle: String,
    pub work_parent: String,
    pub source_revision: Option<String>,
    pub iterations: u32,
}

/// One step of a generation of a soak.
#[derive(Clone, Copy, Debug, PartialEq, Eq, Structural)]
pub enum WaveStep {
    /// Create the container, twice with one operation.
    Create,
    /// Ask for the generation before.
    Fence,
    /// Wait for the processes of the machine.
    Observe,
    /// Start the container.
    Start,
    /// Wait for the marker of its init process.
    Marker,
    /// Kill it, twice with one operation.
    Kill,
    /// Wait for its end.
    Wait,
    /// Wait for its end again.
    ReplayWait,
    /// Delete it, twice with one operation.
    Delete,
    /// Ask whether it is gone.
    CheckState,
    /// Look for the marker in the source.
    CheckMarker,
    /// Wait until the processes are gone.
    CheckProcesses,
    /// Wait until the endpoints are as before.
    CheckEndpoints,
    /// Wait until the service's descriptors are as before.
    CheckDescriptors,
    /// Look into the runtime directory.
    CheckInventory,
    /// Nothing is left to do.
    Complete,
    /// The generation failed.
    Stopped,
}

/// What is in the runtime directory of a service.
#[derive(Clone, Copy, Debug, PartialEq, Eq, Structural)]
pub struct RuntimeInventory {
    pub bundle_handoffs_clean: bool,
    pub runtime_shares_clean: bool,
    pub recovery_reports_clean: bool,
    pub console_files: u32,
}

/// What a step of a generation comes to.
#[derive(Debug)]
pub enum Progress {
    /// The next step follows.
    Next,
    /// The generation failed, for this reason.
    Failed(String),
    /// The event does not belong to the step.
    Misplaced,
}

/// One generation of a soak under way.
#[derive(Debug)]
pub struct WaveRun {
    pub step: WaveStep,
    pub id: String,
    pub previous: Option<ContainerTarget>,
    pub wave: LinuxKvmSoakWaveEvidence,
}

/// The start of the messages about one generation.
pub open spec fn wave_name(iteration: u32) -> Seq<char> {
    "KVM soak wave "@ + decimal(iteration as nat)
}

fn name_wave(iteration: u32, tail: &str) -> (text: String)
    ensures
        text@ == wave_name(iteration) + tail@,
{
    let mut text = "KVM soak wave ".to_owned();
    append_decimal(&mut text, iteration as u64);
    text.append(tail);
    text
}

/// The generation that has to follow the one before: the first, or one more.
pub open spec fn follows(previous: Option<ContainerTarget>, generation: u64) -> bool {
    match previous {
        Some(target) => target.generation is Some && generation as int
            == if target.generation->0 == u64::MAX {
            u64::MAX as int
        } else {
            target.generation->0 + 1
        },
        None => generation == 1,
    }
}

/// What a generation has shown after it was created.
pub open spec fn wave_created(
    wave: LinuxKvmSoakWaveEvidence,
    id: String,
    previous: Option<ContainerTarget>,
    created: ContainerRecord,
    same: bool,
) -> LinuxKvmSoakWaveEvidence {
    if !same || !(created.status is Created) {
        LinuxKvmSoakWaveEvidence { create_replayed: same, ..wave }
    } else {
        LinuxKvmSoakWaveEvidence {
            create_replayed: true,
            target: Some(ContainerTarget { id, generation: Some(created.generation) }),
            created_config_digest: Some(created.config_digest),
            generation_monotonic: if previous is Some && previous->0.generation is None {
                wave.generation_monotonic
            } else {
                follows(previous, created.generation)
            },
            ..wave
        }
    }
}

/// What a generation has shown after a check.
pub open spec fn wave_checked(
    wave: LinuxKvmSoakWaveEvidence,
    step: WaveStep,
    well: bool,
) -> LinuxKvmSoakWaveEvidence {
    match step {
        WaveStep::CheckState => LinuxKvmSoakWaveEvidence { state_removed: well, ..wave },
        WaveStep::CheckMarker => LinuxKvmSoakWaveEvidence { source_marker_absent: well, ..wave },
        WaveStep::CheckProcesses => LinuxKvmSoakWaveEvidence { vm_processes_reaped: well, ..wave },
        WaveStep::CheckEndpoints => LinuxKvmSoakWaveEvidence {
            endpoint_inventory_restored: well,
            ..wave
        },
        _ => LinuxKvmSoakWaveEvidence { descriptor_inventory_restored: well, ..wave },
    }
}

/// What a generation has shown after a look into the runtime directory.
pub open spec fn wave_inventoried(
    wave: LinuxKvmSoakWaveEvidence,
    inventory: RuntimeInventory,
) -> LinuxKvmSoakWaveEvidence {
    LinuxKvmSoakWaveEvidence {
        bundle_handoffs_clean: inventory.bundle_handoffs_clean,
        runtime_shares_clean: inventory.runtime_shares_clean,
        recovery_reports_clean: inventory.recovery_reports_clean,
        console_files_retained: inventory.console_files,
        guest_cgroup_lifetime_bounded: wave.configured_cgroups_path is Some && byte_length(
            wave.configured_cgroups_path->0@,
        ) > 0 && wave.state_removed && wave.vm_processes_reaped && inventory.runtime_shares_clean,
        ..wave
    }
}

/// Whether nothing of a deleted generation is left.
pub open spec fn baselines_restored(wave: LinuxKvmSoakWaveEvidence) -> bool {
    &&& wave.state_removed
    &&& wave.source_marker_absent
    &&& wave.vm_processes_reaped
    &&& wave.endpoint_inventory_restored
    &&& wave.descriptor_inventory_restored
    &&& wave.bundle_handoffs_clean
    &&& wave.runtime_shares_clean
    &&& wave.recovery_reports_clean
    &&& wave.guest_cgroup_lifetime_bounded
}

/// The step that follows a step.
pub open spec fn wave_successor(step: WaveStep) -> WaveStep {
    match step {
        WaveStep::Create => WaveStep::Fence,
        WaveStep::Fence => WaveStep::Observe,
        WaveStep::Observe => WaveStep::Start,
        WaveStep::Start => WaveStep::Marker,
        WaveStep::Marker => WaveStep::Kill,
        WaveStep::Kill => WaveStep::Wait,
        WaveStep::Wait => WaveStep::ReplayWait,
        WaveStep::ReplayWait => WaveStep::Delete,
        WaveStep::Delete => WaveStep::CheckState,
        WaveStep::CheckState => WaveStep::CheckMarker,
        WaveStep::CheckMarker => WaveStep::CheckProcesses,
        WaveStep::CheckProcesses => WaveStep::CheckEndpoints,
        WaveStep::CheckEndpoints => WaveStep::CheckDescriptors,
        WaveStep::CheckDescriptors => WaveStep::CheckInventory,
        WaveStep::CheckInventory => WaveStep::Complete,
        WaveStep::Complete => WaveStep::Complete,
        WaveStep::Stopped => WaveStep::Stopped,
    }
}

fn step_after(step: WaveStep) -> (next: WaveStep)
    ensures
        next == wave_successor(step),
{
    match step {
        WaveStep::Create => WaveStep::Fence,
        WaveStep::Fence => WaveStep::Observe,
        WaveStep::Observe => WaveStep::Start,
        WaveStep::Start => WaveStep::Marker,
        WaveStep::Marker => WaveStep::Kill,
        WaveStep::Kill => WaveStep::Wait,
        WaveStep::Wait => WaveStep::ReplayWait,
        WaveStep::ReplayWait => WaveStep::Delete,
        WaveStep::Delete => WaveStep::CheckState,
        WaveStep::CheckState => WaveStep::CheckMarker,
        WaveStep::CheckMarker => WaveStep::CheckProcesses,
        WaveStep::CheckProcesses => WaveStep::CheckEndpoints,
        WaveStep::CheckEndpoints => WaveStep::CheckDescriptors,
        WaveStep::CheckDescriptors => WaveStep::CheckInventory,
        WaveStep::CheckInventory => WaveStep::Complete,
        WaveStep::Complete => WaveStep::Complete,
        WaveStep::Stopped => WaveStep::Stopped,
    }
}

/// The number of a step in the course of a generation.
pub open spec fn wave_rank(step: WaveStep) -> int {
    match step {
        WaveStep::Create => 0,
        WaveStep::Fence => 1,
        WaveStep::Observe => 2,
        WaveStep::Start => 3,
        WaveStep::Marker => 4,
        WaveStep::Kill => 5,
        WaveStep::Wait => 6,
        WaveStep::ReplayWait => 7,
        WaveStep::Delete => 8,
        WaveStep::CheckState => 9,
        WaveStep::CheckMarker => 10,
        WaveStep::CheckProcesses => 11,
        WaveStep::CheckEndpoints => 12,
        WaveStep::CheckDescriptors => 13,
        WaveStep::CheckInventory => 14,
        WaveStep::Complete => 15,
        WaveStep::Stopped => -1,
    }
}

fn is_restored(wave: &LinuxKvmSoakWaveEvidence) -> (holds: bool)
    ensures
        holds == baselines_restored(*wave),
{
    wave.state_removed && wave.source_marker_absent && wave.vm_processes_reaped
        && wave.endpoint_inventory_restored && wave.descriptor_inventory_restored
        && wave.bundle_handoffs_clean && wave.runtime_shares_clean && wave.recovery_reports_clean
        && wave.guest_cgroup_lifetime_bounded
}

fn take_check(step: WaveStep, wave: LinuxKvmSoakWaveEvidence, well: bool) -> (after:
    LinuxKvmSoakWaveEvidence)
    ensures
        after == wave_checked(wave, step, well),
{
    match step {
        WaveStep::CheckState => LinuxKvmSoakWaveEvidence { state_removed: well, ..wave },
        WaveStep::CheckMarker => LinuxKvmSoakWaveEvidence { source_marker_absent: well, ..wave },
        WaveStep::CheckProcesses => LinuxKvmSoakWaveEvidence { vm_processes_reaped: well, ..wave },
        WaveStep::CheckEndpoints => LinuxKvmSoakWaveEvidence {
            endpoint_inventory_restored: well,
            ..wave
        },
        _ => LinuxKvmSoakWaveEvidence { descriptor_inventory_restored: well, ..wave },
    }
}

fn take_inventory(wave: LinuxKvmSoakWaveEvidence, inventory: RuntimeInventory) -> (after:
    LinuxKvmSoakWaveEvidence)
    ensures
        after == wave_inventoried(wave, inventory),
{
    let configured = match &wave.configured_cgroups_path {
        Some(path) => byte_count(path) > 0,
        None => false,
    };
    let bounded = configured && wave.state_removed && wave.vm_processes_reaped
        && inventory.runtime_shares_clean;
    LinuxKvmSoakWaveEvidence {
        bundle_handoffs_clean: inventory.bundle_handoffs_clean,
        runtime_shares_clean: inventory.runtime_shares_clean,
        recovery_reports_clean: inventory.recovery_reports_clean,
        console_files_retained: inventory.console_files,
        guest_cgroup_lifetime_bounded: bounded,
        ..wave
    }
}

/// Whether a generation went on from a step: it has shown this, and a fault stops
/// it where there is one.
pub open spec fn moved(
    before: WaveRun,
    wave: LinuxKvmSoakWaveEvidence,
    fault: Option<Seq<char>>,
    outcome: (WaveRun, Progress),
) -> bool {
    let (after, progress) = outcome;
    &&& after.id == before.id
    &&& after.previous == before.previous
    &&& after.wave == wave
    &&& match fault {
        Some(reason) => progress matches Progress::Failed(message) && message@ == reason
            && after.step is Stopped,
        None => progress is Next && after.step == wave_successor(before.step),
    }
}

/// Whether a generation was left as it was, at a step that asks for something
/// else.
pub open spec fn misplaced(before: WaveRun, outcome: (WaveRun, Progress)) -> bool {
    outcome.1 is Misplaced && outcome.0 == before
}

impl WaveRun {
    /// A generation before its first step.
    pub fn start(
        iteration: u32,
        cgroups_path: &str,
        id: String,
        previous: Option<ContainerTarget>,
    ) -> (run: WaveRun)
        ensures
            run.step is Create,
            run.id == id,
            run.previous == previous,
            run.wave.begins(iteration, cgroups_path@),
            run.shown(),
    {
        WaveRun {
            step: WaveStep::Create,
            id,
            previous,
            wave: LinuxKvmSoakWaveEvidence::initial(iteration, cgroups_path),
        }
    }

    /// What a generation has shown by the time it is at its step.
    pub open spec fn shown(self) -> bool {
        let rank = wave_rank(self.step);
        let wave = self.wave;
        &&& rank > 0 ==> wave.create_replayed && wave.target is Some
            && wave.target->0.generation is Some && wave.created_config_digest is Some
        &&& rank > 1 ==> wave.generation_monotonic && wave.stale_generation_rejected && follows(
            self.previous,
            wave.target->0.generation->0,
        )
        &&& rank == 1 ==> wave.generation_monotonic == follows(
            self.previous,
            wave.target->0.generation->0,
        )
        &&& rank > 2 ==> wave.live_vm_processes@.len() >= 2
        &&& rank > 3 ==> wave.start_returned_running
        &&& rank > 4 ==> wave.init_marker_verified
        &&& rank > 6 ==> wave.wait_status is Some
        &&& rank > 7 ==> wave.kill_replayed && wave.wait_replayed && wave.wait_status == Some(
            killed_status(),
        )
        &&& rank > 8 ==> wave.delete_replayed
        &&& rank > 14 ==> baselines_restored(wave)
    }

    /// Goes on with what was shown, or stops at a fault.
    fn go_on(
        step: WaveStep,
        id: String,
        previous: Option<ContainerTarget>,
        wave: LinuxKvmSoakWaveEvidence,
        fault: Option<String>,
    ) -> (outcome: (WaveRun, Progress))
        ensures
            match fault {
                Some(reason) => outcome.0 == (WaveRun {
                    step: WaveStep::Stopped,
                    id,
                    previous,
                    wave,
                }) && outcome.1 == Progress::Failed(reason),
                None => outcome.0 == (WaveRun { step: wave_successor(step), id, previous, wave })
                    && outcome.1 is Next,
            },
    {
        match fault {
            Some(reason) => (
                WaveRun { step: WaveStep::Stopped, id, previous, wave },
                Progress::Failed(reason),
            ),
            None => (WaveRun { step: step_after(step), id, previous, wave }, Progress::Next),
        }
    }

    /// Stops at a step that could not be carried out.
    pub fn failed(self, reason: String) -> (outcome: (WaveRun, Progress))
        ensures
            if self.step is Complete || self.step is Stopped {
                misplaced(self, outcome)
            } else {
                moved(self, self.wave, Some(reason@), outcome)
            },
            self.shown() ==> outcome.0.shown(),
    {
        if self.step == WaveStep::Complete || self.step == WaveStep::Stopped {
            return (self, Progress::Misplaced);
        }
        let WaveRun { step, id, previous, wave } = self;
        Self::go_on(step, id, previous, wave, Some(reason))
    }

    /// Takes what the two creates answered, and whether the handed-over bundle is
    /// still there.
    pub fn created(
        self,
        created: ContainerRecord,
        replayed: &ContainerRecord,
        handoff_left: bool,
    ) -> (outcome: (WaveRun, Progress))
        ensures
            if self.step is Create {
                let same = created@ == replayed@ && !handoff_left;
                moved(
                    self,
                    wave_created(self.wave, self.id, self.previous, created, same),
                    if !same || !(created.status is Created) {
                        Some(
                            wave_name(self.wave.iteration)
                                + " did not replay exact created state"@,
                        )
                    } else if self.previous is Some && self.previous->0.generation is None {
                        Some("previous KVM soak target was not exact"@)
                    } else {
                        None
                    },
                    outcome,
                )
            } else {
                misplaced(self, outcome)
            },
            self.shown() ==> outcome.0.shown(),
    {
        if self.step != WaveStep::Create {
            return (self, Progress::Misplaced);
        }
        let WaveRun { step, id, previous, wave } = self;
        let same = created.same(replayed) && !handoff_left;
        if !same || created.status != ContainerState::Created {
            let reason = name_wave(wave.iteration, " did not replay exact created state");
            return Self::go_on(
                step,
                id,
                previous,
                LinuxKvmSoakWaveEvidence { create_replayed: same, ..wave },
                Some(reason),
            );
        }
        let generation = created.generation;
        let mut fault: Option<String> = None;
        let monotonic = match &previous {
            Some(previous) => match previous.generation {
                Some(before) => generation == before.saturating_add(1),
                None => {
                    fault = Some("previous KVM soak target was not exact".to_owned());
                    wave.generation_monotonic
                },
            },
            None => generation == 1,
        };
        let shown = LinuxKvmSoakWaveEvidence {
            create_replayed: true,
            target: Some(ContainerTarget { id: id.clone(), generation: Some(generation) }),
            created_config_digest: Some(created.config_digest),
            generation_monotonic: monotonic,
            ..wave
        };
        Self::go_on(step, id, previous, shown, fault)
    }

    /// Takes whether the generation before was rejected.
    pub fn fenced(self, rejected: bool) -> (outcome: (WaveRun, Progress))
        ensures
            if self.step is Fence {
                moved(
                    self,
                    LinuxKvmSoakWaveEvidence { stale_generation_rejected: rejected, ..self.wave },
                    if !self.wave.generation_monotonic || !rejected {
                        Some(
                            wave_name(self.wave.iteration) + " failed generation or stale-target fencing"@,
                        )
                    } else {
                        None
                    },
                    outcome,
                )
            } else {
                misplaced(self, outcome)
            },
            self.shown() ==> outcome.0.shown(),
    {
        if self.step != WaveStep::Fence {
            return (self, Progress::Misplaced);
        }
        let WaveRun { step, id, previous, wave } = self;
        let fault: Option<String> = if !wave.generation_monotonic || !rejected {
            Some(name_wave(wave.iteration, " failed generation or stale-target fencing"))
        } else {
            None
        };
        Self::go_on(
            step,
            id,
            previous,
            LinuxKvmSoakWaveEvidence { stale_generation_rejected: rejected, ..wave },
            fault,
        )
    }

    /// Takes the processes of the machine. Fewer than its shim and worker are not
    /// recorded.
    pub fn observed(self, processes: Vec<LinuxProcessIdentity>) -> (outcome: (WaveRun, Progress))
        ensures
            if self.step is Observe {
                if processes@.len() < 2 {
                    moved(
                        self,
                        self.wave,
                        Some("Host Service did not expose KVM shim and worker descendants"@),
                        outcome,
                    )
                } else {
                    moved(
                        self,
                        LinuxKvmSoakWaveEvidence { live_vm_processes: processes, ..self.wave },
                        None,
                        outcome,
                    )
                }
            } else {
                misplaced(self, outcome)
            },
            self.shown() ==> outcome.0.shown(),
    {
        if self.step != WaveStep::Observe {
            return (self, Progress::Misplaced);
        }
        let WaveRun { step, id, previous, wave } = self;
        if processes.len() < 2 {
            let reason = "Host Service did not expose KVM shim and worker descendants".to_owned();
            return Self::go_on(step, id, previous, wave, Some(reason));
        }
        let shown = LinuxKvmSoakWaveEvidence { live_vm_processes: processes, ..wave };
        Self::go_on(step, id, previous, shown, None)
    }

    /// Takes the state that the start answered.
    pub fn started(self, status: ContainerState) -> (outcome: (WaveRun, Progress))
        ensures
            if self.step is Start {
                moved(
                    self,
                    LinuxKvmSoakWaveEvidence {
                        start_returned_running: status is Running,
                        ..self.wave
                    },
                    if !(status is Running) {
                        Some(wave_name(self.wave.iteration) + " did not enter running state"@)
                    } else {
                        None
                    },
                    outcome,
                )
            } else {
                misplaced(self, outcome)
            },
            self.shown() ==> outcome.0.shown(),
    {
        if self.step != WaveStep::Start {
            return (self, Progress::Misplaced);
        }
        let WaveRun { step, id, previous, wave } = self;
        let running = status == ContainerState::Running;
        let fault: Option<String> = if !running {
            Some(name_wave(wave.iteration, " did not enter running state"))
        } else {
            None
        };
        Self::go_on(
            step,
            id,
            previous,
            LinuxKvmSoakWaveEvidence { start_returned_running: running, ..wave },
            fault,
        )
    }

    /// Takes that the marker is there.
    pub fn marked(self) -> (outcome: (WaveRun, Progress))
        ensures
            if self.step is Marker {
                moved(
                    self,
                    LinuxKvmSoakWaveEvidence { init_marker_verified: true, ..self.wave },
                    None,
                    outcome,
                )
            } else {
                misplaced(self, outcome)
            },
            self.shown() ==> outcome.0.shown(),
    {
        if self.step != WaveStep::Marker {
            return (self, Progress::Misplaced);
        }
        let WaveRun { step, id, previous, wave } = self;
        let fault: Option<String> = None;
        Self::go_on(
            step,
            id,
            previous,
            LinuxKvmSoakWaveEvidence { init_marker_verified: true, ..wave },
            fault,
        )
    }

    /// Takes what the two kills answered.
    pub fn killed(self, killed: &ContainerRecord, replayed: &ContainerRecord) -> (outcome: (
        WaveRun,
        Progress,
    ))
        ensures
            if self.step is Kill {
                moved(
                    self,
                    LinuxKvmSoakWaveEvidence { kill_replayed: replayed@ == killed@, ..self.wave },
                    None,
                    outcome,
                )
            } else {
                misplaced(self, outcome)
            },
            self.shown() ==> outcome.0.shown(),
    {
        if self.step != WaveStep::Kill {
            return (self, Progress::Misplaced);
        }
        let WaveRun { step, id, previous, wave } = self;
        let same = replayed.same(killed);
        let fault: Option<String> = None;
        Self::go_on(
            step,
            id,
            previous,
            LinuxKvmSoakWaveEvidence { kill_replayed: same, ..wave },
            fault,
        )
    }

    /// Takes what the wait answered.
    pub fn waited(self, status: ExitStatus) -> (outcome: (WaveRun, Progress))
        ensures
            if self.step is Wait {
                moved(
                    self,
                    LinuxKvmSoakWaveEvidence { wait_status: Some(status), ..self.wave },
                    None,
                    outcome,
                )
            } else {
                misplaced(self, outcome)
            },
            self.shown() ==> outcome.0.shown(),
    {
        if self.step != WaveStep::Wait {
            return (self, Progress::Misplaced);
        }
        let WaveRun { step, id, previous, wave } = self;
        let fault: Option<String> = None;
        Self::go_on(
            step,
            id,
            previous,
            LinuxKvmSoakWaveEvidence { wait_status: Some(status), ..wave },
            fault,
        )
    }

    /// Takes what the second wait answered.
    pub fn wait_replayed(self, status: ExitStatus) -> (outcome: (WaveRun, Progress))
        ensures
            if self.step is ReplayWait {
                moved(
                    self,
                    LinuxKvmSoakWaveEvidence {
                        wait_replayed: self.wave.wait_status == Some(status),
                        ..self.wave
                    },
                    if !self.wave.kill_replayed || self.wave.wait_status != Some(killed_status())
                        || self.wave.wait_status != Some(status) {
                        Some(wave_name(self.wave.iteration) + " did not retain kill/Wait replay"@)
                    } else {
                        None
                    },
                    outcome,
                )
            } else {
                misplaced(self, outcome)
            },
            self.shown() ==> outcome.0.shown(),
    {
        if self.step != WaveStep::ReplayWait {
            return (self, Progress::Misplaced);
        }
        let WaveRun { step, id, previous, wave } = self;
        let same = match wave.wait_status {
            Some(first) => first == status,
            None => false,
        };
        let fault: Option<String> = if !wave.kill_replayed
            || !is_killed(&wave.wait_status) || !same {
            Some(name_wave(wave.iteration, " did not retain kill/Wait replay"))
        } else {
            None
        };
        Self::go_on(
            step,
            id,
            previous,
            LinuxKvmSoakWaveEvidence { wait_replayed: same, ..wave },
            fault,
        )
    }

    /// Takes that both deletes succeeded.
    pub fn deleted(self) -> (outcome: (WaveRun, Progress))
        ensures
            if self.step is Delete {
                moved(
                    self,
                    LinuxKvmSoakWaveEvidence { delete_replayed: true, ..self.wave },
                    None,
                    outcome,
                )
            } else {
                misplaced(self, outcome)
            },
            self.shown() ==> outcome.0.shown(),
    {
        if self.step != WaveStep::Delete {
            return (self, Progress::Misplaced);
        }
        let WaveRun { step, id, previous, wave } = self;
        let fault: Option<String> = None;
        Self::go_on(
            step,
            id,
            previous,
            LinuxKvmSoakWaveEvidence { delete_replayed: true, ..wave },
            fault,
        )
    }

    /// Takes whether a check came out well.
    pub fn checked(self, well: bool) -> (outcome: (WaveRun, Progress))
        ensures
            if self.step is CheckState || self.step is CheckMarker || self.step is CheckProcesses
                || self.step is CheckEndpoints || self.step is CheckDescriptors {
                moved(self, wave_checked(self.wave, self.step, well), None, outcome)
            } else {
                misplaced(self, outcome)
            },
            self.shown() ==> outcome.0.shown(),
    {
        let WaveRun { step, id, previous, wave } = self;
        match step {
            WaveStep::CheckState | WaveStep::CheckMarker | WaveStep::CheckProcesses
            | WaveStep::CheckEndpoints | WaveStep::CheckDescriptors => {},
            _ => return (WaveRun { step, id, previous, wave }, Progress::Misplaced),
        }
        let shown = take_check(step, wave, well);
        Self::go_on(step, id, previous, shown, None)
    }

    /// Takes what is in the runtime directory.
    pub fn inventoried(self, inventory: RuntimeInventory) -> (outcome: (WaveRun, Progress))
        ensures
            if self.step is CheckInventory {
                let shown = wave_inventoried(self.wave, inventory);
                moved(
                    self,
                    shown,
                    if baselines_restored(shown) {
                        None
                    } else {
                        Some(
                            wave_name(self.wave.iteration)
                                + " did not restore process, descriptor, cgroup, endpoint, marker, and runtime baselines"@,
                        )
                    },
                    outcome,
                )
            } else {
                misplaced(self, outcome)
            },
            self.shown() ==> outcome.0.shown(),
    {
        if self.step != WaveStep::CheckInventory {
            return (self, Progress::Misplaced);
        }
        let WaveRun { step, id, previous, wave } = self;
        let shown = take_inventory(wave, inventory);
        let fault = if !is_restored(&shown) {
            Some(
                name_wave(
                    shown.iteration,
                    " did not restore process, descriptor, cgroup, endpoint, marker, and runtime baselines",
                ),
            )
        } else {
            None
        };
        Self::go_on(step, id, previous, shown, fault)
    }

    /// The target that has to be rejected once the new generation is there.
    pub fn stale_target(&self) -> (target: ContainerTarget)
        ensures
            target@ == match self.previous {
                Some(previous) => previous@,
                None => (ContainerTarget { id: self.id, generation: Some(0) })@,
            },
    {
        match &self.previous {
            Some(previous) => previous.copy(),
            None => ContainerTarget::exact(&self.id, 0),
        }
    }
}

/// A generation that has gone through all its steps has shown all that success
/// asks for, given that it is the generation of its iteration, that its
/// configuration digest is canonical and that the console of every iteration was
/// kept.
pub proof fn completed_waves_succeed(run: WaveRun)
    requires
        run.step is Complete,
        run.shown(),
        run.wave.target->0.generation->0 == run.wave.iteration,
        run.wave.configured_cgroups_path is Some,
        is_sha256_digest(run.wave.created_config_digest->0@),
        run.wave.console_files_retained >= run.wave.iteration,
    ensures
        run.wave.succeeds(run.wave.iteration as int, run.wave.configured_cgroups_path->0@),
{
}

/// A completed generation is the first one, or follows the one before.
pub proof fn completed_waves_follow(run: WaveRun)
    requires
        run.step is Complete,
        run.shown(),
    ensures
        run.wave.target is Some,
        follows(run.previous, run.wave.target->0.generation->0),
{
}

/// What the root filesystem of a source bundle looks like.
#[derive(Debug)]
pub struct SourceRoot {
    pub path: String,
    pub readonly: bool,
}

/// Checks the root of a source bundle: it is writable and named `rootfs`.
pub fn check_source_root(root: &Option<SourceRoot>) -> (result: Result<(), String>)
    ensures
        match *root {
            None => result matches Err(message) && message@
                == "KVM soak bundle has no root filesystem"@,
            Some(root) => if components(root.path@) != components("rootfs"@) || root.readonly {
                result matches Err(message) && message@
                    == "KVM soak bundle must use writable normalized relative root.path `rootfs`"@
            } else {
                result is Ok
            },
        },
{
    match root {
        None => Err("KVM soak bundle has no root filesystem".to_owned()),
        Some(root) => {
            if !same_path(&root.path, "rootfs") || root.readonly {
                return Err(
                    "KVM soak bundle must use writable normalized relative root.path `rootfs`".to_owned(),
                );
            }
            Ok(())
        },
    }
}

/// Checks that the resolved root filesystem lies inside its bundle.
pub fn check_source_rootfs(rootfs: &str, bundle: &str) -> (result: Result<(), String>)
    ensures
        match result {
            Ok(()) => components(rootfs@) != components(bundle@) && components(
                bundle@,
            ).is_prefix_of(components(rootfs@)),
            Err(message) => !(components(rootfs@) != components(bundle@) && components(
                bundle@,
            ).is_prefix_of(components(rootfs@))) && message@
                == "KVM soak rootfs escapes its source bundle"@,
        },
{
    if same_path(rootfs, bundle) || !starts_with(rootfs, bundle) {
        return Err("KVM soak rootfs escapes its source bundle".to_owned());
    }
    Ok(())
}

/// Checks the cgroup path that a source bundle declares.
pub fn check_source_cgroups(declared: &Option<String>) -> (result: Result<(), String>)
    ensures
        match *declared {
            None => result matches Err(message) && message@
                == "KVM soak bundle must declare a cgroupsPath"@,
            Some(path) => if byte_length(path@) == 0 {
                result matches Err(message) && message@ == "KVM soak bundle cgroupsPath is empty"@
            } else {
                result is Ok
            },
        },
{
    match declared {
        None => Err("KVM soak bundle must declare a cgroupsPath".to_owned()),
        Some(path) => {
            if byte_count(path) == 0 {
                return Err("KVM soak bundle cgroupsPath is empty".to_owned());
            }
            Ok(())
        },
    }
}

/// The file name of the marker.
pub const MARKER_NAME: &'static str = ".a3s-oci-create-start-smoke";

/// Checks that no marker is in the source yet.
pub fn check_source_marker(rootfs: &str, absent: bool) -> (result: Result<String, String>)
    ensures
        match result {
            Ok(marker) => absent && marker@ == joined(rootfs@, MARKER_NAME@),
            Err(message) => !absent && message@
                == "refusing to overwrite existing KVM soak marker "@ + joined(
                rootfs@,
                MARKER_NAME@,
            ),
        },
{
    let marker = join(rootfs, MARKER_NAME);
    if absent {
        return Ok(marker);
    }
    let mut message = "refusing to overwrite existing KVM soak marker ".to_owned();
    message.append(&marker);
    Err(message)
}

/// What is known of a source bundle.
#[derive(Debug)]
pub struct SourceFacts {
    /// The directory of the bundle and its root, or why the bundle could not be
    /// loaded.
    pub bundle: Result<(String, Option<SourceRoot>), String>,
    /// The path that the root filesystem resolves to, or why it does not.
    pub rootfs: Result<String, String>,
    /// The cgroup path that the bundle declares.
    pub cgroups_path: Option<String>,
    /// Whether the root filesystem has no marker yet, or the message that this is
    /// not known.
    pub marker_absent: Result<bool, String>,
}

/// What is wrong with the root filesystem of a source bundle, if anything.
pub open spec fn source_root_fault(facts: SourceFacts) -> Option<Seq<char>> {
    match facts.bundle {
        Err(cause) => Some("failed to reload KVM soak bundle: "@ + cause@),
        Ok((directory, root)) => if root is None {
            Some("KVM soak bundle has no root filesystem"@)
        } else if components(root->0.path@) != components("rootfs"@) || root->0.readonly {
            Some("KVM soak bundle must use writable normalized relative root.path `rootfs`"@)
        } else {
            match facts.rootfs {
                Err(cause) => Some("failed to resolve KVM soak rootfs: "@ + cause@),
                Ok(rootfs) => if components(rootfs@) != components(directory@) && components(
                    directory@,
                ).is_prefix_of(components(rootfs@)) {
                    None
                } else {
                    Some("KVM soak rootfs escapes its source bundle"@)
                },
            }
        },
    }
}

/// What is wrong with the cgroup path or the marker of a source bundle, if
/// anything.
pub open spec fn source_marker_fault(facts: SourceFacts) -> Option<Seq<char>> {
    if facts.cgroups_path is None {
        Some("KVM soak bundle must declare a cgroupsPath"@)
    } else if byte_length(facts.cgroups_path->0@) == 0 {
        Some("KVM soak bundle cgroupsPath is empty"@)
    } else {
        match facts.marker_absent {
            Err(message) => Some(message@),
            Ok(absent) => if absent {
                None
            } else {
                Some(
                    "refusing to overwrite existing KVM soak marker "@ + joined(
                        facts.rootfs->Ok_0@,
                        MARKER_NAME@,
                    ),
                )
            },
        }
    }
}

/// A source bundle that a soak can run.
#[derive(Debug)]
pub struct SourceProfile {
    pub marker: String,
    pub cgroups_path: String,
}

impl SourceProfile {
    /// Checks a source bundle: its root filesystem is writable, inside of it and
    /// without a marker, and it declares a cgroup path.
    pub fn open(facts: SourceFacts) -> (result: Result<SourceProfile, String>)
        ensures
            match result {
                Ok(profile) => {
                    &&& source_root_fault(facts) is None
                    &&& source_marker_fault(facts) is None
                    &&& profile.marker@ == joined(facts.rootfs->Ok_0@, MARKER_NAME@)
                    &&& profile.cgroups_path@ == facts.cgroups_path->0@
                },
                Err(message) => Some(message@) == if source_root_fault(facts) is Some {
                    source_root_fault(facts)
                } else {
                    source_marker_fault(facts)
                },
            },
    {
        let (directory, root) = match facts.bundle {
            Ok(loaded) => loaded,
            Err(cause) => {
                let mut message = "failed to reload KVM soak bundle: ".to_owned();
                message.append(&cause);
                return Err(message);
            },
        };
        match check_source_root(&root) {
            Ok(()) => {},
            Err(message) => return Err(message),
        }
        let rootfs = match facts.rootfs {
            Ok(rootfs) => rootfs,
            Err(cause) => {
                let mut message = "failed to resolve KVM soak rootfs: ".to_owned();
                message.append(&cause);
                return Err(message);
            },
        };
        match check_source_rootfs(&rootfs, &directory) {
            Ok(()) => {},
            Err(message) => return Err(message),
        }
        match check_source_cgroups(&facts.cgroups_path) {
            Ok(()) => {},
            Err(message) => return Err(message),
        }
        let absent = match facts.marker_absent {
            Ok(absent) => absent,
            Err(message) => return Err(message),
        };
        let marker = match check_source_marker(&rootfs, absent) {
            Ok(marker) => marker,
            Err(message) => return Err(message),
        };
        match facts.cgroups_path {
            Some(cgroups_path) => Ok(SourceProfile { marker, cgroups_path }),
            None => Err("KVM soak bundle must declare a cgroupsPath".to_owned()),
        }
    }
}

impl LinuxKvmSoakReport {
    /// The report of a soak whose number of generations is out of bounds.
    pub fn refuse_iterations(&mut self) -> (refused: bool)
        ensures
            refused == !iterations_bounded(old(self).requested_iterations),
            !refused ==> *final(self) == *old(self),
            refused ==> final(self).reason is Some && final(self).reason->0@
                == "Linux KVM soak iterations must be between 1 and "@ + decimal(
                MAX_LINUX_KVM_SOAK_ITERATIONS as nat,
            ) && *final(self) == (LinuxKvmSoakReport { reason: final(self).reason, ..*old(self) }),
    {
        match validate_iterations(self.requested_iterations) {
            Ok(()) => false,
            Err(reason) => {
                self.reason = Some(reason);
                true
            },
        }
    }

    /// Records the host service, and the process at the other end of its socket where
    /// that was retained.
    pub fn record_service(
        &mut self,
        service: LinuxProcessIdentity,
        peer: Result<LinuxProcessIdentity, String>,
    ) -> (result: Result<(), String>)
        ensures
            *final(self) == (LinuxKvmSoakReport {
                host_service: Some(service),
                socket_peer: match peer {
                    Ok(peer) => Some(peer),
                    Err(_) => old(self).socket_peer,
                },
                ..*old(self)
            }),
            match peer {
                Ok(_) => result is Ok,
                Err(reason) => result == Err::<(), String>(reason),
            },
    {
        self.host_service = Some(service);
        match peer {
            Ok(peer) => {
                self.socket_peer = Some(peer);
                Ok(())
            },
            Err(reason) => Err(reason),
        }
    }

    /// Records whether the host service is bound to the scope of the qualification.
    pub fn record_scope(&mut self, checked: Result<(), String>) -> (result: Result<(), String>)
        ensures
            result == checked,
            *final(self) == (LinuxKvmSoakReport {
                qualification_scope_verified: checked is Ok
                    || old(self).qualification_scope_verified,
                ..*old(self)
            }),
    {
        if checked.is_ok() {
            self.qualification_scope_verified = true;
        }
        checked
    }

    /// Records how many descriptors the host service has before the first generation.
    pub fn record_baseline(&mut self, descriptors: usize)
        ensures
            *final(self) == (LinuxKvmSoakReport {
                steady_open_descriptors: reported_count(descriptors),
                ..*old(self)
            }),
    {
        self.steady_open_descriptors = report_count(descriptors);
    }

    /// Records how many descriptors the host service has behind the last generation,
    /// and how many console files there are where that is known.
    pub fn record_aftermath(
        &mut self,
        descriptors: usize,
        inventory: Result<RuntimeInventory, String>,
    ) -> (result: Result<(), String>)
        ensures
            *final(self) == (LinuxKvmSoakReport {
                final_open_descriptors: reported_count(descriptors),
                console_files_created: match inventory {
                    Ok(inventory) => inventory.console_files,
                    Err(_) => old(self).console_files_created,
                },
                ..*old(self)
            }),
            match inventory {
                Ok(_) => result is Ok,
                Err(reason) => result == Err::<(), String>(reason),
            },
    {
        self.final_open_descriptors = report_count(descriptors);
        match inventory {
            Ok(inventory) => {
                self.console_files_created = inventory.console_files;
                Ok(())
            },
            Err(reason) => Err(reason),
        }
    }

    /// The next generation that is to be tried, if any is left.
    pub fn next_iteration(&self) -> (iteration: Option<u32>)
        ensures
            match iteration {
                Some(iteration) => self.waves@.len() < self.requested_iterations && iteration
                    == self.waves@.len() + 1,
                None => self.waves@.len() >= self.requested_iterations,
            },
    {
        if self.waves.len() < self.requested_iterations as usize {
            Some(self.waves.len() as u32 + 1)
        } else {
            None
        }
    }

    /// Adds what a generation has shown. One that failed ends the soak.
    pub fn add_wave(&mut self, run: WaveRun)
        ensures
            final(self).waves@ == old(self).waves@.push(run.wave),
            final(self).failure_iteration == if run.step is Complete {
                old(self).failure_iteration
            } else {
                Some(run.wave.iteration)
            },
            *final(self) == (LinuxKvmSoakReport {
                waves: final(self).waves,
                failure_iteration: final(self).failure_iteration,
                ..*old(self)
            }),
    {
        if run.step != WaveStep::Complete {
            self.failure_iteration = Some(run.wave.iteration);
        }
        self.waves.push(run.wave);
    }

    /// Records how the host service ended.
    pub fn record_shutdown(&mut self, exit_success: bool, socket_present: bool) -> (result: Result<
        (),
        String,
    >)
        ensures
            *final(self) == (LinuxKvmSoakReport {
                service_exit_success: exit_success,
                service_socket_removed: !socket_present,
                ..*old(self)
            }),
            match result {
                Ok(()) => exit_success && !socket_present,
                Err(message) => !(exit_success && !socket_present) && message@
                    == "Linux KVM soak Host Service did not shut down cleanly"@,
            },
    {
        self.service_exit_success = exit_success;
        self.service_socket_removed = !socket_present;
        if !self.service_exit_success || !self.service_socket_removed {
            return Err("Linux KVM soak Host Service did not shut down cleanly".to_owned());
        }
        Ok(())
    }

    /// Concludes a soak that ran to its end: it is available only if the whole
    /// report is that of a success.
    pub fn conclude(&mut self)
        ensures
            ({
                let claimed = LinuxKvmSoakReport {
                    status: CapabilityStatus::Available,
                    ..*old(self)
                };
                if claimed.succeeds() {
                    *final(self) == claimed
                } else {
                    &&& final(self).status is Unavailable
                    &&& final(self).reason is Some
                    &&& final(self).reason->0@ == "Linux KVM soak report failed its final audit"@
                    &&& *final(self) == (LinuxKvmSoakReport {
                        status: CapabilityStatus::Unavailable,
                        reason: final(self).reason,
                        ..*old(self)
                    })
                }
            }),
            final(self).status is Available <==> final(self).succeeds(),
    {
        self.status = CapabilityStatus::Available;
        if !self.is_success() {
            self.status = CapabilityStatus::Unavailable;
            self.reason = Some("Linux KVM soak report failed its final audit".to_owned());
        }
    }

    /// Withdraws a report that could not be kept.
    pub fn withdraw(&mut self, reason: String)
        ensures
            *final(self) == (LinuxKvmSoakReport {
                status: CapabilityStatus::Unavailable,
                reason: Some(reason),
                ..*old(self)
            }),
            !final(self).succeeds(),
    {
        self.status = CapabilityStatus::Unavailable;
        self.reason = Some(reason);
    }
}

/// Where a generation is that met no fault in so many steps.
pub open spec fn faultless_step(count: nat) -> WaveStep
    decreases count,
{
    if count == 0 {
        WaveStep::Create
    } else {
        wave_successor(faultless_step((count - 1) as nat))
    }
}

/// A generation that meets no fault takes every step, each behind the one it rests on, before it is
/// complete, and none after that.
pub proof fn no_step_is_left_out(count: nat)
    ensures
        faultless_step(0) is Create,
        faultless_step(1) is Fence,
        faultless_step(2) is Observe,
        faultless_step(3) is Start,
        faultless_step(4) is Marker,
        faultless_step(5) is Kill,
        faultless_step(6) is Wait,
        faultless_step(7) is ReplayWait,
        faultless_step(8) is Delete,
        faultless_step(9) is CheckState,
        faultless_step(10) is CheckMarker,
        faultless_step(11) is CheckProcesses,
        faultless_step(12) is CheckEndpoints,
        faultless_step(13) is CheckDescriptors,
        faultless_step(14) is CheckInventory,
        count >= 15 ==> faultless_step(count) is Complete,
    decreases count,
{
    assert(faultless_step(0) is Create);
    assert(faultless_step(1) is Fence);
    assert(faultless_step(2) is Observe);
    assert(faultless_step(3) is Start);
    assert(faultless_step(4) is Marker);
    assert(faultless_step(5) is Kill);
    assert(faultless_step(6) is Wait);
    assert(faultless_step(7) is ReplayWait);
    assert(faultless_step(8) is Delete);
    assert(faultless_step(9) is CheckState);
    assert(faultless_step(10) is CheckMarker);
    assert(faultless_step(11) is CheckProcesses);
    assert(faultless_step(12) is CheckEndpoints);
    assert(faultless_step(13) is CheckDescriptors);
    assert(faultless_step(14) is CheckInventory);
    assert(faultless_step(15) is Complete);
    if count > 15 {
        no_step_is_left_out((count - 1) as nat);
    }
}

/// A fault stops a generation and is reported as it is, and without one it goes on to the next
/// step; either way it keeps what it has shown.
pub proof fn faults_stop_the_run(
    before: WaveRun,
    wave: LinuxKvmSoakWaveEvidence,
    fault: Option<Seq<char>>,
    outcome: (WaveRun, Progress),
)
    requires
        moved(before, wave, fault, outcome),
    ensures
        fault is Some <==> outcome.1 is Failed,
        fault is None <==> outcome.1 is Next,
        fault matches Some(reason) ==> outcome.1->Failed_0@ == reason && outcome.0.step is Stopped,
        fault is None ==> outcome.0.step == wave_successor(before.step),
        outcome.0.wave == wave,
        outcome.0.id == before.id,
        outcome.0.previous == before.previous,
{
}

/// A generation takes its identity from the answer of a create that was replayed to the
/// same answer, and from no other; the rest of what it has shown stays.
pub proof fn generations_are_those_created(
    wave: LinuxKvmSoakWaveEvidence,
    id: String,
    previous: Option<ContainerTarget>,
    created: ContainerRecord,
    same: bool,
)
    ensures
        ({
            let shown = wave_created(wave, id, previous, created, same);
            &&& shown.create_replayed == same
            &&& same && created.status is Created ==> {
                &&& shown.target == Some(
                    ContainerTarget { id, generation: Some(created.generation) },
                )
                &&& shown.created_config_digest == Some(created.config_digest)
                &&& previous is None ==> (shown.generation_monotonic <==> created.generation == 1)
                &&& previous is Some && previous->0.generation is Some
                    && previous->0.generation->0 < u64::MAX ==> (shown.generation_monotonic
                    <==> created.generation == previous->0.generation->0 + 1)
            }
            &&& !same || !(created.status is Created) ==> shown.target == wave.target
                && shown.created_config_digest == wave.created_config_digest
                && shown.generation_monotonic == wave.generation_monotonic
            &&& shown == (LinuxKvmSoakWaveEvidence {
                create_replayed: shown.create_replayed,
                target: shown.target,
                created_config_digest: shown.created_config_digest,
                generation_monotonic: shown.generation_monotonic,
                ..wave
            })
        }),
{
}

/// Generations rise by one from the first on, so that no two of a soak are the same.
pub proof fn generations_rise(previous: ContainerTarget, generation: u64, other: u64)
    ensures
        follows(None, generation) <==> generation == 1,
        follows(Some(previous), generation) && previous.generation->0 < u64::MAX ==> generation
            > previous.generation->0 && generation == previous.generation->0 + 1,
        follows(Some(previous), generation) && follows(Some(previous), other) ==> generation
            == other,
        previous.generation is None ==> !follows(Some(previous), generation),
{
}

/// Each check behind a deletion is recorded under its own name and under no other.
pub proof fn checks_are_recorded_apart(wave: LinuxKvmSoakWaveEvidence, well: bool)
    ensures
        wave_checked(wave, WaveStep::CheckState, well) == (LinuxKvmSoakWaveEvidence {
            state_removed: well,
            ..wave
        }),
        wave_checked(wave, WaveStep::CheckMarker, well) == (LinuxKvmSoakWaveEvidence {
            source_marker_absent: well,
            ..wave
        }),
        wave_checked(wave, WaveStep::CheckProcesses, well) == (LinuxKvmSoakWaveEvidence {
            vm_processes_reaped: well,
            ..wave
        }),
        wave_checked(wave, WaveStep::CheckEndpoints, well) == (LinuxKvmSoakWaveEvidence {
            endpoint_inventory_restored: well,
            ..wave
        }),
        wave_checked(wave, WaveStep::CheckDescriptors, well) == (LinuxKvmSoakWaveEvidence {
            descriptor_inventory_restored: well,
            ..wave
        }),
{
}

/// A look into the runtime directory records what it found and nothing else; that the
/// guest's cgroups end with the guest is shown only where its state, its processes and its
/// shares are gone and it had a cgroup path.
pub proof fn inventories_are_recorded(wave: LinuxKvmSoakWaveEvidence, inventory: RuntimeInventory)
    ensures
        ({
            let shown = wave_inventoried(wave, inventory);
            &&& shown.bundle_handoffs_clean == inventory.bundle_handoffs_clean
            &&& shown.runtime_shares_clean == inventory.runtime_shares_clean
            &&& shown.recovery_reports_clean == inventory.recovery_reports_clean
            &&& shown.console_files_retained == inventory.console_files
            &&& shown.guest_cgroup_lifetime_bounded ==> wave.state_removed
                && wave.vm_processes_reaped && inventory.runtime_shares_clean
                && wave.configured_cgroups_path is Some && byte_length(
                wave.configured_cgroups_path->0@,
            ) > 0
            &&& wave.state_removed && wave.vm_processes_reaped && inventory.runtime_shares_clean
                && wave.configured_cgroups_path is Some && byte_length(
                wave.configured_cgroups_path->0@,
            ) > 0 ==> shown.guest_cgroup_lifetime_bounded
            &&& shown.target == wave.target
            &&& shown.state_removed == wave.state_removed
            &&& shown.wait_status == wave.wait_status
        }),
{
}

/// Baselines are restored only where nothing of a deleted generation is left.
pub proof fn restored_baselines_keep_nothing(wave: LinuxKvmSoakWaveEvidence)
    ensures
        baselines_restored(wave) ==> wave.state_removed,
        baselines_restored(wave) ==> wave.source_marker_absent,
        baselines_restored(wave) ==> wave.vm_processes_reaped,
        baselines_restored(wave) ==> wave.endpoint_inventory_restored,
        baselines_restored(wave) ==> wave.descriptor_inventory_restored,
        baselines_restored(wave) ==> wave.bundle_handoffs_clean,
        baselines_restored(wave) ==> wave.runtime_shares_clean,
        baselines_restored(wave) ==> wave.recovery_reports_clean,
        baselines_restored(wave) ==> wave.guest_cgroup_lifetime_bounded,
        wave.state_removed && wave.source_marker_absent && wave.vm_processes_reaped
            && wave.endpoint_inventory_restored && wave.descriptor_inventory_restored
            && wave.bundle_handoffs_clean && wave.runtime_shares_clean
            && wave.recovery_reports_clean && wave.guest_cgroup_lifetime_bounded
            ==> baselines_restored(wave),
{
}

/// A soak is made of a bundle only where its writable root filesystem is `rootfs` inside
/// it, it declares a cgroup path, and no marker is there that a run could take for its own.
pub proof fn soaks_are_made_of_fresh_bundles(facts: SourceFacts)
    requires
        source_root_fault(facts) is None,
        source_marker_fault(facts) is None,
    ensures
        facts.bundle is Ok,
        facts.bundle->Ok_0.1 matches Some(root) && !root.readonly && components(root.path@)
            == components("rootfs"@),
        facts.rootfs is Ok,
        components(facts.bundle->Ok_0.0@).is_prefix_of(components(facts.rootfs->Ok_0@)),
        components(facts.rootfs->Ok_0@).len() > components(facts.bundle->Ok_0.0@).len(),
        facts.cgroups_path matches Some(path) && byte_length(path@) > 0,
        facts.marker_absent == Ok::<bool, String>(true),
{
    let inner = components(facts.rootfs->Ok_0@);
    let outer = components(facts.bundle->Ok_0.0@);
    if inner.len() <= outer.len() {
        assert(inner =~= outer);
    }
}

/// An answer to something that was not asked changes nothing, and a run that was stopped
/// stays stopped.
pub proof fn misplaced_answers_change_nothing(before: WaveRun, outcome: (WaveRun, Progress))
    ensures
        misplaced(before, outcome) <==> outcome.0 == before && outcome.1 is Misplaced,
        wave_successor(WaveStep::Stopped) is Stopped,
{
}

} // verus!
