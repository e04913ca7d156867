//! Evidence of a series of KVM generations under one host service.

use vstd::prelude::*;
use crate::digest::{canonical_optional_digest, is_sha256_digest};
use crate::linux_kvm_recovery_smoke::report::{
    identity_view, is_known_architecture, known_architecture, same_identity,
    LinuxKvmRecoveryArtifacts,
};
use crate::model::{
    is_killed, killed_status, CapabilityStatus, ContainerTarget, ExitStatus, HostPlatform,
};
use crate::path::{
    absolute, components, free_of_parents, has_no_parent_step, is_absolute, same_path,
};
use crate::process::{Incarnation, LinuxProcessIdentity};
use crate::text::{append_decimal, decimal, text_eq};

verus! {

/// The schema of soak reports.
pub const LINUX_KVM_SOAK_SCHEMA_VERSION: &'static str = "a3s.oci.linux-kvm-soak.v1";

/// How many generations a soak has unless told otherwise.
pub const DEFAULT_LINUX_KVM_SOAK_ITERATIONS: u32 = 25;

/// How many generations a soak has at most.
pub const MAX_LINUX_KVM_SOAK_ITERATIONS: u32 = 1_000;

/// What one generation of a soak has shown.
#[derive(Clone, Debug)]
pub struct LinuxKvmSoakWaveEvidence {
    pub iteration: u32,
    pub target: Option<ContainerTarget>,
    pub configured_cgroups_path: Option<String>,
    pub created_config_digest: Option<String>,
    pub create_replayed: bool,
    pub generation_monotonic: bool,
    pub stale_generation_rejected: bool,
    pub start_returned_running: bool,
    pub init_marker_verified: bool,
    pub live_vm_processes: Vec<LinuxProcessIdentity>,
    pub kill_replayed: bool,
    pub wait_status: Option<ExitStatus>,
    pub wait_replayed: bool,
    pub delete_replayed: bool,
    pub state_removed: bool,
    pub source_marker_absent: bool,
    pub vm_processes_reaped: bool,
    pub endpoint_inventory_restored: bool,
    pub descriptor_inventory_restored: bool,
    pub bundle_handoffs_clean: bool,
    pub runtime_shares_clean: bool,
    pub recovery_reports_clean: bool,
    /// The guest's cgroups are gone with the machine that was reaped.
    pub guest_cgroup_lifetime_bounded: bool,
    pub console_files_retained: u32,
}

impl LinuxKvmSoakWaveEvidence {
    /// Whether this is a generation before anything was tried.
    pub open spec fn begins(self, iteration: u32, cgroups_path: Seq<char>) -> bool {
        &&& self.iteration == iteration
        &&& self.target is None
        &&& self.configured_cgroups_path is Some
        &&& self.configured_cgroups_path->0@ == cgroups_path
        &&& self.created_config_digest is None
        &&& !self.create_replayed
        &&& !self.generation_monotonic
        &&& !self.stale_generation_rejected
        &&& !self.start_returned_running
        &&& !self.init_marker_verified
        &&& self.live_vm_processes@.len() == 0
        &&& !self.kill_replayed
        &&& self.wait_status is None
        &&& !self.wait_replayed
        &&& !self.delete_replayed
        &&& !self.state_removed
        &&& !self.source_marker_absent
        &&& !self.vm_processes_reaped
        &&& !self.endpoint_inventory_restored
        &&& !self.descriptor_inventory_restored
        &&& !self.bundle_handoffs_clean
        &&& !self.runtime_shares_clean
        &&& !self.recovery_reports_clean
        &&& !self.guest_cgroup_lifetime_bounded
        &&& self.console_files_retained == 0
    }

    /// Evidence of a generation before anything was tried.
    pub fn initial(iteration: u32, cgroups_path: &str) -> (evidence: LinuxKvmSoakWaveEvidence)
        ensures
            evidence.begins(iteration, cgroups_path@),
    {
        LinuxKvmSoakWaveEvidence {
            iteration,
            target: None,
            configured_cgroups_path: Some(cgroups_path.to_owned()),
            created_config_digest: None,
            create_replayed: false,
            generation_monotonic: false,
            stale_generation_rejected: false,
            start_returned_running: false,
            init_marker_verified: false,
            live_vm_processes: Vec::new(),
            kill_replayed: false,
            wait_status: None,
            wait_replayed: false,
            delete_replayed: false,
            state_removed: false,
            source_marker_absent: false,
            vm_processes_reaped: false,
            endpoint_inventory_restored: false,
            descriptor_inventory_restored: false,
            bundle_handoffs_clean: false,
            runtime_shares_clean: false,
            recovery_reports_clean: false,
            guest_cgroup_lifetime_bounded: false,
            console_files_retained: 0,
        }
    }

    /// Whether a generation has shown all that it has to.
    pub open spec fn succeeds(self, expected_iteration: int, cgroups_path: Seq<char>) -> bool {
        &&& self.iteration == expected_iteration
        &&& self.target is Some
        &&& self.target->0.generation is Some
        &&& self.target->0.generation->0 == expected_iteration
        &&& self.configured_cgroups_path is Some
        &&& components(self.configured_cgroups_path->0@) == components(cgroups_path)
        &&& self.created_config_digest is Some
        &&& is_sha256_digest(self.created_config_digest->0@)
        &&& self.create_replayed
        &&& self.generation_monotonic
        &&& self.stale_generation_rejected
        &&& self.start_returned_running
        &&& self.init_marker_verified
        &&& self.live_vm_processes@.len() >= 2
        &&& self.kill_replayed
        &&& self.wait_status == Some(killed_status())
        &&& self.wait_replayed
        &&& self.delete_replayed
        &&& self.state_removed
        &&& self.source_marker_absent
        &&& self.vm_processes_reaped
        &&& self.endpoint_inventory_restored
        &&& self.descriptor_inventory_restored
        &&& self.bundle_handoffs_clean
        &&& self.runtime_shares_clean
        &&& self.recovery_reports_clean
        &&& self.guest_cgroup_lifetime_bounded
        &&& self.console_files_retained >= expected_iteration
    }

    /// Whether the evidence is that of a successful generation.
    pub fn is_success(&self, expected_iteration: u32, cgroups_path: &str) -> (holds: bool)
        ensures
            holds == self.succeeds(expected_iteration as int, cgroups_path@),
    {
        let generation = match &self.target {
            Some(target) => match target.generation {
                Some(generation) => generation == expected_iteration as u64,
                None => false,
            },
            None => false,
        };
        let configured = match &self.configured_cgroups_path {
            Some(path) => same_path(path, cgroups_path),
            None => false,
        };
        self.iteration == expected_iteration && generation && configured
            && canonical_optional_digest(&self.created_config_digest) && self.create_replayed
            && self.generation_monotonic && self.stale_generation_rejected
            && self.start_returned_running && self.init_marker_verified
            && self.live_vm_processes.len() >= 2 && self.kill_replayed && is_killed(
            &self.wait_status,
        ) && self.wait_replayed && self.delete_replayed && self.state_removed
            && self.source_marker_absent && self.vm_processes_reaped
            && self.endpoint_inventory_restored && self.descriptor_inventory_restored
            && self.bundle_handoffs_clean && self.runtime_shares_clean
            && self.recovery_reports_clean && self.guest_cgroup_lifetime_bounded
            && self.console_files_retained >= expected_iteration
    }
}

/// One life of a Linux process.
pub open spec fn incarnation(process: LinuxProcessIdentity) -> Incarnation {
    Incarnation { pid: process.pid, start_time: process.start_time_ticks }
}

/// The lives of a list of Linux processes.
pub open spec fn incarnations(processes: Seq<LinuxProcessIdentity>) -> Seq<Incarnation> {
    Seq::new(processes.len(), |i: int| incarnation(processes[i]))
}

/// The lives of all processes of a series of generations.
pub open spec fn all_incarnations(waves: Seq<LinuxKvmSoakWaveEvidence>) -> Seq<Incarnation>
    decreases waves.len(),
{
    if waves.len() == 0 {
        Seq::empty()
    } else {
        all_incarnations(waves.drop_last()) + incarnations(waves.last().live_vm_processes@)
    }
}

/// The lives of a list of Linux processes.
pub fn incarnations_of(processes: &Vec<LinuxProcessIdentity>) -> (lives: Vec<Incarnation>)
    ensures
        lives@ == incarnations(processes@),
{
    let mut lives: Vec<Incarnation> = Vec::new();
    let mut next: usize = 0;
    while next < processes.len()
        invariant
            next <= processes@.len(),
            lives@.len() == next,
            forall|i: int| 0 <= i < next ==> #[trigger] lives@[i] == incarnation(processes@[i]),
        decreases processes@.len() - next,
    {
        lives.push(
            Incarnation { pid: processes[next].pid, start_time: processes[next].start_time_ticks },
        );
        next = next + 1;
    }
    assert(lives@ =~= incarnations(processes@));
    lives
}

fn lives_contain(lives: &Vec<Incarnation>, life: Incarnation) -> (found: bool)
    ensures
        found == lives@.contains(life),
{
    let mut next: usize = 0;
    while next < lives.len()
        invariant
            next <= lives@.len(),
            forall|i: int| 0 <= i < next ==> lives@[i] != life,
        decreases lives@.len() - next,
    {
        if lives[next] == life {
            return true;
        }
        next = next + 1;
    }
    false
}

proof fn repetition_stays(lives: Seq<Incarnation>, more: Seq<Incarnation>)
    requires
        !lives.no_duplicates(),
    ensures
        !(lives + more).no_duplicates(),
{
    let (i, j) = choose|i: int, j: int|
        0 <= i < lives.len() && 0 <= j < lives.len() && i != j && lives[i] == lives[j];
    assert((lives + more)[i] == (lives + more)[j]);
}

/// Adds lives to those that were seen, as long as none was seen before.
fn add_lives(seen: &mut Vec<Incarnation>, more: &Vec<Incarnation>) -> (distinct: bool)
    requires
        old(seen)@.no_duplicates(),
    ensures
        distinct == (old(seen)@ + more@).no_duplicates(),
        distinct ==> final(seen)@ == old(seen)@ + more@,
{
    let ghost before = seen@;
    let mut next: usize = 0;
    assert(before + more@.take(0) =~= before);
    while next < more.len()
        invariant
            next <= more@.len(),
            before == old(seen)@,
            seen@ == before + more@.take(next as int),
            seen@.no_duplicates(),
        decreases more@.len() - next,
    {
        let life = more[next];
        let ghost longer = before + more@.take(next + 1);
        proof {
            assert(longer =~= seen@.push(life));
            assert(before + more@ =~= longer + more@.skip(next + 1));
        }
        if lives_contain(seen, life) {
            proof {
                let at = choose|at: int| 0 <= at < seen@.len() && seen@[at] == life;
                assert(longer[at] == longer[longer.len() - 1]);
                assert(!longer.no_duplicates());
                repetition_stays(longer, more@.skip(next + 1));
            }
            return false;
        }
        seen.push(life);
        next = next + 1;
    }
    assert(more@.take(more@.len() as int) =~= more@);
    true
}

/// The number of a generation in the series.
pub open spec fn iteration_of(index: int) -> int {
    index + 1
}

/// Whether every generation of a series succeeded and no process occurs twice.
pub open spec fn waves_complete(
    waves: Seq<LinuxKvmSoakWaveEvidence>,
    requested: u32,
    cgroups_path: Seq<char>,
) -> bool {
    &&& waves.len() == requested
    &&& forall|i: int|
        0 <= i < waves.len() ==> (#[trigger] waves[i]).succeeds(iteration_of(i), cgroups_path)
    &&& all_incarnations(waves).no_duplicates()
}

proof fn duplicates_stay(waves: Seq<LinuxKvmSoakWaveEvidence>, upto: int)
    requires
        0 <= upto <= waves.len(),
        !all_incarnations(waves.take(upto)).no_duplicates(),
    ensures
        !all_incarnations(waves).no_duplicates(),
    decreases waves.len() - upto,
{
    if upto == waves.len() {
        assert(waves.take(upto) =~= waves);
    } else {
        let longer = waves.take(upto + 1);
        assert(longer.drop_last() =~= waves.take(upto));
        repetition_stays(
            all_incarnations(waves.take(upto)),
            incarnations(longer.last().live_vm_processes@),
        );
        duplicates_stay(waves, upto + 1);
    }
}

/// Whether every generation of a series succeeded and no process occurs twice.
pub fn waves_are_complete(
    waves: &Vec<LinuxKvmSoakWaveEvidence>,
    requested: u32,
    cgroups_path: &str,
) -> (holds: bool)
    ensures
        holds == waves_complete(waves@, requested, cgroups_path@),
{
    if waves.len() != requested as usize {
        return false;
    }
    let mut seen: Vec<Incarnation> = Vec::new();
    let mut next: usize = 0;
    assert(all_incarnations(waves@.take(0)) =~= Seq::<Incarnation>::empty());
    while next < waves.len()
        invariant
            next <= waves@.len(),
            waves@.len() == requested,
            seen@ == all_incarnations(waves@.take(next as int)),
            seen@.no_duplicates(),
            forall|i: int|
                0 <= i < next ==> (#[trigger] waves@[i]).succeeds(iteration_of(i), cgroups_path@),
        decreases waves@.len() - next,
    {
        let expected: u32 = next as u32 + 1;
        if !waves[next].is_success(expected, cgroups_path) {
            assert(!waves@[next as int].succeeds(iteration_of(next as int), cgroups_path@));
            return false;
        }
        let lives = incarnations_of(&waves[next].live_vm_processes);
        let ghost longer = waves@.take(next + 1);
        proof {
            assert(longer.drop_last() =~= waves@.take(next as int));
            assert(longer.last() == waves@[next as int]);
        }
        if !add_lives(&mut seen, &lives) {
            proof {
                assert(!all_incarnations(longer).no_duplicates());
                duplicates_stay(waves@, next + 1);
            }
            return false;
        }
        next = next + 1;
    }
    assert(waves@.take(waves@.len() as int) =~= waves@);
    true
}

/// The report of one soak.
#[derive(Clone, Debug)]
pub struct LinuxKvmSoakReport {
    pub schema_version: String,
    pub status: CapabilityStatus,
    pub platform: HostPlatform,
    pub architecture: String,
    pub kvm_required: bool,
    pub requested_iterations: u32,
    pub evidence_root: String,
    pub artifacts: LinuxKvmRecoveryArtifacts,
    pub qualification_scope_verified: bool,
    pub host_service: Option<LinuxProcessIdentity>,
    pub socket_peer: Option<LinuxProcessIdentity>,
    pub source_cgroups_path: Option<String>,
    pub waves: Vec<LinuxKvmSoakWaveEvidence>,
    pub steady_open_descriptors: Option<u32>,
    pub final_open_descriptors: Option<u32>,
    pub console_files_created: u32,
    pub service_socket_removed: bool,
    pub service_exit_success: bool,
    pub failure_iteration: Option<u32>,
    pub reason: Option<String>,
}

impl LinuxKvmSoakReport {
    /// A report before anything was tried.
    pub fn initial(
        evidence_root: String,
        architecture: String,
        requested_iterations: u32,
    ) -> (report: LinuxKvmSoakReport)
        ensures
            report.schema_version@ == LINUX_KVM_SOAK_SCHEMA_VERSION@,
            report.status is Unavailable,
            report.platform is Linux,
            report.architecture == architecture,
            report.kvm_required,
            report.requested_iterations == requested_iterations,
            report.evidence_root == evidence_root,
            report.artifacts.blank(),
            !report.qualification_scope_verified,
            report.host_service is None,
            report.socket_peer is None,
            report.source_cgroups_path is None,
            report.waves@.len() == 0,
            report.steady_open_descriptors is None,
            report.final_open_descriptors is None,
            report.console_files_created == 0,
            !report.service_socket_removed,
            !report.service_exit_success,
            report.failure_iteration is None,
            report.reason is None,
            !report.succeeds(),
    {
        let artifacts = LinuxKvmRecoveryArtifacts::default();
        assert(!absolute(artifacts.shim@));
        LinuxKvmSoakReport {
            schema_version: LINUX_KVM_SOAK_SCHEMA_VERSION.to_owned(),
            status: CapabilityStatus::Unavailable,
            platform: HostPlatform::Linux,
            architecture,
            kvm_required: true,
            requested_iterations,
            evidence_root,
            artifacts,
            qualification_scope_verified: false,
            host_service: None,
            socket_peer: None,
            source_cgroups_path: None,
            waves: Vec::new(),
            steady_open_descriptors: None,
            final_open_descriptors: None,
            console_files_created: 0,
            service_socket_removed: false,
            service_exit_success: false,
            failure_iteration: None,
            reason: None,
        }
    }

    /// Whether the report is complete and every generation successful.
    pub open spec fn succeeds(self) -> bool {
        &&& self.source_cgroups_path is Some
        &&& self.schema_version@ == LINUX_KVM_SOAK_SCHEMA_VERSION@
        &&& self.status is Available
        &&& self.platform is Linux
        &&& known_architecture(self.architecture@)
        &&& self.kvm_required
        &&& iterations_bounded(self.requested_iterations)
        &&& absolute(self.evidence_root@)
        &&& self.artifacts.complete()
        &&& self.qualification_scope_verified
        &&& self.host_service is Some
        &&& identity_view(self.socket_peer) == identity_view(self.host_service)
        &&& valid_cgroups(self.source_cgroups_path->0@)
        &&& waves_complete(self.waves@, self.requested_iterations, self.source_cgroups_path->0@)
        &&& self.steady_open_descriptors is Some
        &&& self.steady_open_descriptors->0 > 0
        &&& self.final_open_descriptors == self.steady_open_descriptors
        &&& self.console_files_created >= self.requested_iterations
        &&& self.service_socket_removed
        &&& self.service_exit_success
        &&& self.failure_iteration is None
        &&& self.reason is None
    }

    /// Whether the report is that of a successful soak.
    pub fn is_success(&self) -> (holds: bool)
        ensures
            holds == self.succeeds(),
    {
        let cgroups_path = match &self.source_cgroups_path {
            Some(path) => path,
            None => return false,
        };
        let steady = match self.steady_open_descriptors {
            Some(count) => count > 0,
            None => false,
        };
        text_eq(&self.schema_version, LINUX_KVM_SOAK_SCHEMA_VERSION) && self.status
            == CapabilityStatus::Available && self.platform == HostPlatform::Linux
            && is_known_architecture(&self.architecture) && self.kvm_required
            && validate_iterations(self.requested_iterations).is_ok() && is_absolute(
            &self.evidence_root,
        ) && self.artifacts.is_complete() && self.qualification_scope_verified
            && self.host_service.is_some() && same_identity(&self.socket_peer, &self.host_service)
            && valid_cgroups_path(cgroups_path) && waves_are_complete(
            &self.waves,
            self.requested_iterations,
            cgroups_path,
        ) && steady && self.final_open_descriptors == self.steady_open_descriptors
            && self.console_files_created >= self.requested_iterations
            && self.service_socket_removed && self.service_exit_success
            && self.failure_iteration.is_none() && self.reason.is_none()
    }
}

/// A number of generations that a soak may have.
pub open spec fn iterations_bounded(iterations: u32) -> bool {
    0 < iterations <= MAX_LINUX_KVM_SOAK_ITERATIONS
}

/// Checks how many generations a soak is to have.
pub fn validate_iterations(iterations: u32) -> (result: Result<(), String>)
    ensures
        match result {
            Ok(()) => iterations_bounded(iterations),
            Err(message) => !iterations_bounded(iterations) && message@
                == "Linux KVM soak iterations must be between 1 and "@ + decimal(
                MAX_LINUX_KVM_SOAK_ITERATIONS as nat,
            ),
        },
{
    if iterations == 0 || iterations > MAX_LINUX_KVM_SOAK_ITERATIONS {
        let mut message = "Linux KVM soak iterations must be between 1 and ".to_owned();
        append_decimal(&mut message, MAX_LINUX_KVM_SOAK_ITERATIONS as u64);
        return Err(message);
    }
    Ok(())
}

/// A path that names a cgroup: it is not empty and climbs nowhere.
pub open spec fn valid_cgroups(path: Seq<char>) -> bool {
    free_of_parents(path)
}

/// Whether a path can name a cgroup.
pub fn valid_cgroups_path(path: &str) -> (holds: bool)
    ensures
        holds == valid_cgroups(path@),
{
    has_no_parent_step(path)
}

/// The generations of a successful soak are numbered without a gap, from one to
/// the number requested.
pub proof fn soak_generations_are_consecutive(report: LinuxKvmSoakReport, index: int)
    requires
        report.succeeds(),
        0 <= index < report.requested_iterations,
    ensures
        report.waves@[index].target is Some,
        report.waves@[index].target->0.generation == Some((index + 1) as u64),
{
    assert(report.waves@[index].succeeds(
        iteration_of(index),
        report.source_cgroups_path->0@,
    ));
}

/// A generation of a soak succeeds only where each of its gates was met.
pub proof fn wave_success_needs_every_gate(
    wave: LinuxKvmSoakWaveEvidence,
    expected_iteration: int,
    cgroups_path: Seq<char>,
)
    requires
        wave.succeeds(expected_iteration, cgroups_path),
    ensures
        wave.iteration == expected_iteration,
        wave.target is Some,
        wave.target->0.generation is Some,
        wave.target->0.generation->0 == expected_iteration,
        wave.configured_cgroups_path is Some,
        components(wave.configured_cgroups_path->0@) == components(cgroups_path),
        wave.created_config_digest is Some,
        is_sha256_digest(wave.created_config_digest->0@),
        wave.create_replayed,
        wave.generation_monotonic,
        wave.stale_generation_rejected,
        wave.start_returned_running,
        wave.init_marker_verified,
        wave.live_vm_processes@.len() >= 2,
        wave.kill_replayed,
        wave.wait_status == Some(
            ExitStatus { exit_code: None, signal: Some(9), oom_killed: false },
        ),
        wave.wait_replayed,
        wave.delete_replayed,
        wave.state_removed,
        wave.source_marker_absent,
        wave.vm_processes_reaped,
        wave.endpoint_inventory_restored,
        wave.descriptor_inventory_restored,
        wave.bundle_handoffs_clean,
        wave.runtime_shares_clean,
        wave.recovery_reports_clean,
        wave.guest_cgroup_lifetime_bounded,
        wave.console_files_retained >= expected_iteration,
{
}

/// Nothing but these is asked for.
pub proof fn wave_gates_suffice(
    wave: LinuxKvmSoakWaveEvidence,
    expected_iteration: int,
    cgroups_path: Seq<char>,
)
    requires
        wave.iteration == expected_iteration,
        wave.target is Some,
        wave.target->0.generation is Some,
        wave.target->0.generation->0 == expected_iteration,
        wave.configured_cgroups_path is Some,
        components(wave.configured_cgroups_path->0@) == components(cgroups_path),
        wave.created_config_digest is Some,
        is_sha256_digest(wave.created_config_digest->0@),
        wave.create_replayed,
        wave.generation_monotonic,
        wave.stale_generation_rejected,
        wave.start_returned_running,
        wave.init_marker_verified,
        wave.live_vm_processes@.len() >= 2,
        wave.kill_replayed,
        wave.wait_status == Some(
            ExitStatus { exit_code: None, signal: Some(9), oom_killed: false },
        ),
        wave.wait_replayed,
        wave.delete_replayed,
        wave.state_removed,
        wave.source_marker_absent,
        wave.vm_processes_reaped,
        wave.endpoint_inventory_restored,
        wave.descriptor_inventory_restored,
        wave.bundle_handoffs_clean,
        wave.runtime_shares_clean,
        wave.recovery_reports_clean,
        wave.guest_cgroup_lifetime_bounded,
        wave.console_files_retained >= expected_iteration,
    ensures
        wave.succeeds(expected_iteration, cgroups_path),
{
}

/// A soak succeeds only where each of its gates was met.
pub proof fn soak_success_needs_every_gate(report: LinuxKvmSoakReport)
    requires
        report.succeeds(),
    ensures
        report.source_cgroups_path is Some,
        report.schema_version@ == LINUX_KVM_SOAK_SCHEMA_VERSION@,
        report.status is Available,
        report.platform is Linux,
        known_architecture(report.architecture@),
        report.kvm_required,
        iterations_bounded(report.requested_iterations),
        absolute(report.evidence_root@),
        report.artifacts.complete(),
        report.qualification_scope_verified,
        report.host_service is Some,
        identity_view(report.socket_peer) == identity_view(report.host_service),
        valid_cgroups(report.source_cgroups_path->0@),
        waves_complete(report.waves@, report.requested_iterations, report.source_cgroups_path->0@),
        report.steady_open_descriptors is Some,
        report.steady_open_descriptors->0 > 0,
        report.final_open_descriptors == report.steady_open_descriptors,
        report.console_files_created >= report.requested_iterations,
        report.service_socket_removed,
        report.service_exit_success,
        report.failure_iteration is None,
        report.reason is None,
{
}

/// Nothing but these is asked for.
pub proof fn soak_gates_suffice(report: LinuxKvmSoakReport)
    requires
        report.source_cgroups_path is Some,
        report.schema_version@ == LINUX_KVM_SOAK_SCHEMA_VERSION@,
        report.status is Available,
        report.platform is Linux,
        known_architecture(report.architecture@),
        report.kvm_required,
        iterations_bounded(report.requested_iterations),
        absolute(report.evidence_root@),
        report.artifacts.complete(),
        report.qualification_scope_verified,
        report.host_service is Some,
        identity_view(report.socket_peer) == identity_view(report.host_service),
        valid_cgroups(report.source_cgroups_path->0@),
        waves_complete(report.waves@, report.requested_iterations, report.source_cgroups_path->0@),
        report.steady_open_descriptors is Some,
        report.steady_open_descriptors->0 > 0,
        report.final_open_descriptors == report.steady_open_descriptors,
        report.console_files_created >= report.requested_iterations,
        report.service_socket_removed,
        report.service_exit_success,
        report.failure_iteration is None,
        report.reason is None,
    ensures
        report.succeeds(),
{
}

/// Before anything was tried nothing is claimed: each thing that is to be shown is not
/// shown yet.
pub proof fn fresh_waves_show_nothing(
    fresh: LinuxKvmSoakWaveEvidence,
    iteration: u32,
    cgroups_path: Seq<char>,
)
    requires
        fresh.begins(iteration, cgroups_path),
    ensures
        fresh.iteration == iteration,
        fresh.target is None,
        fresh.configured_cgroups_path is Some,
        fresh.configured_cgroups_path->0@ == cgroups_path,
        fresh.created_config_digest is None,
        !fresh.create_replayed,
        !fresh.generation_monotonic,
        !fresh.stale_generation_rejected,
        !fresh.start_returned_running,
        !fresh.init_marker_verified,
        fresh.live_vm_processes@.len() == 0,
        !fresh.kill_replayed,
        fresh.wait_status is None,
        !fresh.wait_replayed,
        !fresh.delete_replayed,
        !fresh.state_removed,
        !fresh.source_marker_absent,
        !fresh.vm_processes_reaped,
        !fresh.endpoint_inventory_restored,
        !fresh.descriptor_inventory_restored,
        !fresh.bundle_handoffs_clean,
        !fresh.runtime_shares_clean,
        !fresh.recovery_reports_clean,
        !fresh.guest_cgroup_lifetime_bounded,
        fresh.console_files_retained == 0,
{
}

/// In a successful soak every generation that was asked for has succeeded in its turn, and
/// no process of one generation is a process of another or occurs twice in its own.
pub proof fn successful_soaks_share_no_process(
    report: LinuxKvmSoakReport,
    one: int,
    other: int,
    first: int,
    second: int,
)
    requires
        report.succeeds(),
        0 <= one < other < report.waves@.len(),
        0 <= first < report.waves@[one].live_vm_processes@.len(),
        0 <= second < report.waves@[other].live_vm_processes@.len(),
    ensures
        report.waves@.len() == report.requested_iterations,
        report.waves@[one].iteration == one + 1,
        report.waves@[one].wait_status == Some(
            ExitStatus { exit_code: None, signal: Some(9), oom_killed: false },
        ),
        report.waves@[one].live_vm_processes@[first].pid
            != report.waves@[other].live_vm_processes@[second].pid
            || report.waves@[one].live_vm_processes@[first].start_time_ticks
            != report.waves@[other].live_vm_processes@[second].start_time_ticks,
{
    let waves = report.waves@;
    assert(waves[one].succeeds(iteration_of(one), report.source_cgroups_path->0@));
    let left = place_of_life(waves, one, first);
    let right = place_of_life(waves, other, second);
    places_rise_with_generations(waves, one, other, first, second);
    let lives = all_incarnations(waves);
    assert(lives[left] != lives[right]);
}

/// Where a process stands among those of a series.
spec fn place_of_life(waves: Seq<LinuxKvmSoakWaveEvidence>, wave: int, process: int) -> int {
    all_incarnations(waves.take(wave)).len() + process
}

proof fn places_rise_with_generations(
    waves: Seq<LinuxKvmSoakWaveEvidence>,
    one: int,
    other: int,
    first: int,
    second: int,
)
    requires
        0 <= one < other < waves.len(),
        0 <= first < waves[one].live_vm_processes@.len(),
        0 <= second < waves[other].live_vm_processes@.len(),
    ensures
        0 <= place_of_life(waves, one, first) < place_of_life(waves, other, second),
        place_of_life(waves, other, second) < all_incarnations(waves).len(),
        all_incarnations(waves)[place_of_life(waves, one, first)] == incarnation(
            waves[one].live_vm_processes@[first],
        ),
        all_incarnations(waves)[place_of_life(waves, other, second)] == incarnation(
            waves[other].live_vm_processes@[second],
        ),
{
    life_stands_at_its_place(waves, one, first, waves.len() as int);
    life_stands_at_its_place(waves, other, second, waves.len() as int);
    life_stands_at_its_place(waves, one, first, other);
    assert(waves.take(waves.len() as int) =~= waves);
}

proof fn life_stands_at_its_place(
    waves: Seq<LinuxKvmSoakWaveEvidence>,
    wave: int,
    process: int,
    upto: int,
)
    requires
        0 <= wave < upto <= waves.len(),
        0 <= process < waves[wave].live_vm_processes@.len(),
    ensures
        0 <= place_of_life(waves, wave, process) < all_incarnations(waves.take(upto)).len(),
        all_incarnations(waves.take(upto))[place_of_life(waves, wave, process)] == incarnation(
            waves[wave].live_vm_processes@[process],
        ),
    decreases upto,
{
    let part = waves.take(upto);
    assert(part.drop_last() =~= waves.take(upto - 1));
    assert(part.last() == waves[upto - 1]);
    if wave < upto - 1 {
        life_stands_at_its_place(waves, wave, process, upto - 1);
    }
}

/// A soak may have one generation or more, up to its bound.
pub proof fn soaks_have_a_generation(iterations: u32)
    ensures
        iterations_bounded(iterations) ==> iterations > 0,
        iterations_bounded(iterations) && iterations > 1 ==> iterations_bounded(
            (iterations - 1) as u32,
        ),
        !iterations_bounded(0),
        iterations_bounded(1),
{
}

/// Two processes are one life exactly where they have one number and began at one time: a
/// number that is used again later is another life.
pub proof fn lives_are_told_apart(first: LinuxProcessIdentity, second: LinuxProcessIdentity)
    ensures
        incarnation(first) == incarnation(second) <==> first.pid == second.pid
            && first.start_time_ticks == second.start_time_ticks,
{
}

} // verus!
