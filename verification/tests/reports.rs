//! Reports are successful only where everything was shown.

use a3s_oci_runtime::linux_kvm_recovery_smoke::report::{
    LinuxKvmRecoveryArtifacts, LinuxKvmRecoveryEvidence, LinuxKvmRecoverySmokeReport,
    LINUX_KVM_RECOVERY_SMOKE_SCHEMA_VERSION,
};
use a3s_oci_runtime::linux_kvm_recovery_smoke::soak_report::{
    validate_iterations, LinuxKvmSoakReport, LinuxKvmSoakWaveEvidence,
    DEFAULT_LINUX_KVM_SOAK_ITERATIONS, LINUX_KVM_SOAK_SCHEMA_VERSION,
    MAX_LINUX_KVM_SOAK_ITERATIONS,
};
use a3s_oci_runtime::linux_native_live_recovery_smoke::report::{
    LinuxNativeLiveRecoverySmokeReport, SUPERVISOR_REQUIRED,
};
use a3s_oci_runtime::macos_hvf_host_smoke::report::{
    MacosHvfArtifactEvidence, MacosHvfHostServiceSmokeReport,
};
use a3s_oci_runtime::model::{CapabilityStatus, ContainerTarget, ExitStatus, HostPlatform, SIGKILL};
use a3s_oci_runtime::multi_container_report::cgroup_path::CgroupPathEvidence;
use a3s_oci_runtime::multi_container_report::lifecycle::{
    MultiContainerLifecycleEvidence, NativeLinuxMultiContainerSmokeReport,
    OciVmMultiContainerSmokeReport,
};
use a3s_oci_runtime::native_checkpoint_report::{DriverFact, NativeLinuxCheckpointSmokeReport};
use a3s_oci_runtime::native_hook_recovery_smoke::{
    hook_owner_death_report, HookObservations, NativeLinuxHookOwnerDeathEvidence,
    NativeLinuxHookOwnerDeathSmokeReport, NATIVE_LINUX_HOOK_OWNER_DEATH_EVIDENCE_SCHEMA_VERSION,
};
use a3s_oci_runtime::native_network_enforcement_report::{
    LocalNetworkRedirectAttachment, NativeLinuxNetworkEnforcementSmokeConfig,
    NativeLinuxNetworkEnforcementSmokeReport, NetworkEnforcementAttachment,
};
use a3s_oci_runtime::native_recovery_smoke::{NativeLinuxRecoverySmokeReport, Replacement};
use a3s_oci_runtime::operations::RuntimeOperation;
use a3s_oci_runtime::process::{LinuxProcessIdentity, NativeLinuxProcessIdentity};

fn digest(symbol: &str) -> String {
    format!("sha256:{}", symbol.repeat(64))
}

fn kvm_artifacts() -> LinuxKvmRecoveryArtifacts {
    LinuxKvmRecoveryArtifacts {
        host_service_executable: "/tmp/a3s-oci".to_string(),
        host_service_executable_sha256: "1".repeat(64),
        shim: "/tmp/a3s-oci-krun-shim".to_string(),
        shim_sha256: "2".repeat(64),
        system_image_manifest: "/tmp/system-image.json".to_string(),
        system_image_manifest_sha256: "3".repeat(64),
        source_bundle: "/tmp/bundle".to_string(),
        source_bundle_config_digest: digest("4"),
        source_revision: "5".repeat(40),
    }
}

fn recovery_process(pid: u32, parent_pid: u32) -> LinuxProcessIdentity {
    LinuxProcessIdentity {
        pid,
        parent_pid,
        process_group_id: pid,
        start_time_ticks: u64::from(pid) * 10,
        command: "a3s-oci".to_string(),
    }
}

fn complete_recovery_report() -> LinuxKvmRecoverySmokeReport {
    let first = recovery_process(101, 100);
    let replacement = recovery_process(201, 100);
    LinuxKvmRecoverySmokeReport {
        schema_version: LINUX_KVM_RECOVERY_SMOKE_SCHEMA_VERSION.to_string(),
        status: CapabilityStatus::Available,
        platform: HostPlatform::Linux,
        architecture: "x86_64".to_string(),
        kvm_required: true,
        expected_case_count: 1,
        case_count: 1,
        evidence_root: "/tmp/evidence".to_string(),
        artifacts: kvm_artifacts(),
        recovery: LinuxKvmRecoveryEvidence {
            qualification_scope_verified: true,
            first_host_service: Some(first.clone()),
            first_socket_peer: Some(first),
            target: Some(ContainerTarget::exact("kvm-recovery", 1)),
            created_config_digest: Some(digest("6")),
            create_replayed: true,
            start_returned_running: true,
            init_marker_verified: true,
            live_vm_processes: vec![recovery_process(102, 101), recovery_process(103, 102)],
            authenticated_endpoint_consumed: true,
            host_service_sigkill_delivered: true,
            first_host_service_reaped: true,
            stale_socket_retained: true,
            live_vm_processes_reaped: true,
            endpoint_inventory_restored: true,
            authenticated_recovery_report_retained: true,
            replacement_host_service: Some(replacement.clone()),
            replacement_socket_peer: Some(replacement),
            replacement_socket_new_owner: true,
            replacement_connected: true,
            exact_stopped_state_recovered: true,
            process_inventory_empty: true,
            recovered_wait_status: Some(ExitStatus::signaled(SIGKILL, false)),
            recovered_wait_replayed: true,
            stopped_delete_succeeded: true,
            durable_state_removed: true,
            replacement_descriptor_inventory_restored: true,
            open_descriptors_before: Some(12),
            open_descriptors_after: Some(12),
            bundle_handoffs_clean: true,
            runtime_shares_clean: true,
            recovery_reports_clean: true,
            console_files_retained: 1,
            replacement_socket_removed: true,
            replacement_exit_success: true,
            service_restart_recovered: true,
            reason: None,
        },
        reason: None,
    }
}

#[test]
fn success_requires_exact_owner_replacement_and_cleanup() {
    let report = complete_recovery_report();
    assert!(report.is_success());

    let mut same_owner = report.clone();
    same_owner.recovery.replacement_host_service = same_owner.recovery.first_host_service.clone();
    same_owner.recovery.replacement_socket_peer = same_owner.recovery.first_socket_peer.clone();
    assert!(!same_owner.is_success());

    let mut invented_wait = report.clone();
    invented_wait.recovery.recovered_wait_status = Some(ExitStatus::exited(0));
    assert!(!invented_wait.is_success());

    let mut leaked = report;
    leaked.recovery.runtime_shares_clean = false;
    assert!(!leaked.is_success());
}

fn soak_process(pid: u32) -> LinuxProcessIdentity {
    LinuxProcessIdentity {
        pid,
        parent_pid: 10,
        process_group_id: pid,
        start_time_ticks: u64::from(pid) * 100,
        command: "a3s-oci-krun".to_string(),
    }
}

fn wave(iteration: u32, first_pid: u32) -> LinuxKvmSoakWaveEvidence {
    LinuxKvmSoakWaveEvidence {
        iteration,
        target: Some(ContainerTarget::exact("kvm-soak", u64::from(iteration))),
        configured_cgroups_path: Some("a3s-oci-kvm-soak".to_string()),
        created_config_digest: Some(digest("6")),
        create_replayed: true,
        generation_monotonic: true,
        stale_generation_rejected: true,
        start_returned_running: true,
        init_marker_verified: true,
        live_vm_processes: vec![soak_process(first_pid), soak_process(first_pid + 1)],
        kill_replayed: true,
        wait_status: Some(ExitStatus::signaled(SIGKILL, false)),
        wait_replayed: true,
        delete_replayed: true,
        state_removed: true,
        source_marker_absent: true,
        vm_processes_reaped: true,
        endpoint_inventory_restored: true,
        descriptor_inventory_restored: true,
        bundle_handoffs_clean: true,
        runtime_shares_clean: true,
        recovery_reports_clean: true,
        guest_cgroup_lifetime_bounded: true,
        console_files_retained: iteration,
    }
}

fn complete_soak_report() -> LinuxKvmSoakReport {
    let service = soak_process(100);
    LinuxKvmSoakReport {
        schema_version: LINUX_KVM_SOAK_SCHEMA_VERSION.to_string(),
        status: CapabilityStatus::Available,
        platform: HostPlatform::Linux,
        architecture: "aarch64".to_string(),
        kvm_required: true,
        requested_iterations: 2,
        evidence_root: "/tmp/kvm-soak".to_string(),
        artifacts: kvm_artifacts(),
        qualification_scope_verified: true,
        host_service: Some(service.clone()),
        socket_peer: Some(service),
        source_cgroups_path: Some("a3s-oci-kvm-soak".to_string()),
        waves: vec![wave(1, 200), wave(2, 300)],
        steady_open_descriptors: Some(12),
        final_open_descriptors: Some(12),
        console_files_created: 2,
        service_socket_removed: true,
        service_exit_success: true,
        failure_iteration: None,
        reason: None,
    }
}

#[test]
fn success_requires_every_wave_and_unique_process_incarnation() {
    let report = complete_soak_report();
    assert!(report.is_success());

    let mut reused = report.clone();
    reused.waves[1].live_vm_processes = reused.waves[0].live_vm_processes.clone();
    assert!(!reused.is_success());

    let mut leaked = report;
    leaked.waves[1].guest_cgroup_lifetime_bounded = false;
    assert!(!leaked.is_success());
}

#[test]
fn soak_generations_have_to_follow_each_other() {
    let mut report = complete_soak_report();
    report.waves[1].target = Some(ContainerTarget::exact("kvm-soak", 3));
    assert!(!report.is_success());

    let mut missing = complete_soak_report();
    missing.requested_iterations = 3;
    assert!(!missing.is_success());
}

#[test]
fn iteration_count_is_bounded() {
    assert!(validate_iterations(0).is_err());
    assert!(validate_iterations(DEFAULT_LINUX_KVM_SOAK_ITERATIONS).is_ok());
    assert!(validate_iterations(MAX_LINUX_KVM_SOAK_ITERATIONS + 1).is_err());
}

#[test]
fn stub_report_is_not_success_without_evidence() {
    let report = LinuxNativeLiveRecoverySmokeReport::initial(
        "/tmp/native-live".to_string(),
        "x86_64".to_string(),
    );
    assert!(!report.is_success());
    assert!(!report.recovery.is_success());
}

#[test]
fn live_recovery_is_refused_without_a_supervisor() {
    let report = LinuxNativeLiveRecoverySmokeReport::initial(
        "/tmp/native-live".to_string(),
        "x86_64".to_string(),
    );
    let (report, goes_on) = report.opt_in(false);
    assert!(!goes_on);
    assert_eq!(report.reason.as_deref(), Some(SUPERVISOR_REQUIRED));
    assert_eq!(report.recovery.reason.as_deref(), Some(SUPERVISOR_REQUIRED));
    assert_eq!(
        SUPERVISOR_REQUIRED,
        "A3S_OCI_NATIVE_SESSION_SUPERVISOR=1 is required for Native Live Host reopen evidence"
    );
}

#[test]
fn live_recovery_is_concluded_only_where_it_succeeded() {
    let report = LinuxNativeLiveRecoverySmokeReport::initial(
        "/tmp/native-live".to_string(),
        "x86_64".to_string(),
    );
    let (mut report, goes_on) = report.opt_in(true);
    assert!(goes_on);
    let incomplete = report.clone().conclude();
    assert_eq!(
        incomplete.reason.as_deref(),
        Some("Native Linux Live recovery evidence failed its completeness audit")
    );
    assert_eq!(incomplete.status, CapabilityStatus::Unavailable);

    report.recovery.file_upload_before_kill = true;
    report.recovery.host_sigkill_delivered = true;
    report.recovery.init_survived_host_sigkill = true;
    report.recovery.replacement_state_running = true;
    report.recovery.file_download_after_reattach = true;
    report.recovery.retained_filesystem_proven = true;
    let mut wrong_schema = report.clone();
    wrong_schema.schema_version = "unknown".to_string();
    let audited = wrong_schema.conclude();
    assert_eq!(audited.case_count, 0);
    assert_eq!(
        audited.reason.as_deref(),
        Some("Native Linux Live recovery report failed its final audit")
    );
    let available = report.conclude();
    assert!(available.is_success());
    assert_eq!(available.case_count, 1);
}

fn complete_artifacts() -> MacosHvfArtifactEvidence {
    MacosHvfArtifactEvidence {
        host_service_executable: "/tmp/a3s-oci".to_string(),
        host_service_executable_sha256: "1".repeat(64),
        shim: "/tmp/a3s-oci-krun-shim".to_string(),
        shim_sha256: "2".repeat(64),
        system_image_manifest: "/tmp/system-image.json".to_string(),
        system_image_manifest_sha256: "3".repeat(64),
        source_bundle: "/tmp/bundle".to_string(),
        source_bundle_config_digest: digest("4"),
        source_revision: "5".repeat(40),
    }
}

#[test]
fn artifact_evidence_requires_canonical_digests_and_full_git_revision() {
    let complete = complete_artifacts();
    assert!(complete.is_complete());
    assert!(a3s_oci_runtime::digest::canonical_git_revision(&"a".repeat(40)));

    for invalid in ["a".repeat(39), "A".repeat(40), "g".repeat(40)] {
        let mut evidence = complete.clone();
        evidence.source_revision = invalid;
        assert!(!evidence.is_complete());
    }

    let mut evidence = complete.clone();
    evidence.shim_sha256 = "f".repeat(63);
    assert!(!evidence.is_complete());

    let mut evidence = complete.clone();
    evidence.source_bundle_config_digest = "4".repeat(64);
    assert!(!evidence.is_complete());

    let mut evidence = complete;
    evidence.source_bundle = "relative/bundle".to_string();
    assert!(!evidence.is_complete());
}

#[test]
fn report_envelope_fails_closed_without_complete_provenance() {
    let mut report = MacosHvfHostServiceSmokeReport::initial("/tmp/evidence".to_string(), 25);
    report.artifacts = complete_artifacts();
    assert!(
        !report.is_success(),
        "phase evidence is intentionally absent"
    );

    report.artifacts.source_revision.clear();
    assert!(!report.artifacts.is_complete());
    report.schema_version = "a3s.oci.macos-hvf-host-service-smoke.unknown".into();
    assert!(!report.is_success());
}

fn complete_lifecycle() -> MultiContainerLifecycleEvidence {
    MultiContainerLifecycleEvidence {
        distinct_bundle_directories: true,
        distinct_rootfs_directories: true,
        both_created_before_start: true,
        initial_generation_a: Some(1),
        initial_generation_b: Some(1),
        recreated_generation_a: Some(2),
        created_pid_a: Some(101),
        created_pid_b: Some(202),
        distinct_created_pids: true,
        create_replays_exact: true,
        both_markers_absent_before_start: true,
        start_a_replayed: true,
        marker_a_verified: true,
        b_unchanged_after_a_start: true,
        marker_b_absent_after_a_start: true,
        wait_a_did_not_block_b: true,
        kill_a_replayed: true,
        a_stopped: true,
        wait_status_a: Some(ExitStatus::signaled(9, false)),
        wait_a_replayed: true,
        b_unchanged_after_a_kill: true,
        marker_b_absent_after_a_kill: true,
        delete_a_replayed: true,
        a_missing_after_delete: true,
        b_unchanged_after_a_delete: true,
        stale_generation_rejected: true,
        generation_a_monotonic: true,
        recreate_a_replayed: true,
        marker_a_absent_after_recreate: true,
        cross_container_operation_rejected: true,
        b_unchanged_after_replay_conflict: true,
        recreated_a_deleted: true,
        start_b_replayed: true,
        marker_b_verified: true,
        kill_b_replayed: true,
        b_stopped: true,
        wait_status_b: Some(ExitStatus::signaled(9, false)),
        wait_b_replayed: true,
        delete_b_replayed: true,
        b_missing_after_delete: true,
    }
}

#[test]
fn multi_container_success_requires_every_isolation_invariant() {
    let complete = complete_lifecycle();
    assert!(complete.is_success());

    let mut incomplete = complete;
    incomplete.b_unchanged_after_a_delete = false;
    assert!(!incomplete.is_success());
}

#[test]
fn multi_container_ends_have_to_agree_and_be_valid() {
    let mut differing = complete_lifecycle();
    differing.wait_status_b = Some(ExitStatus::exited(0));
    assert!(!differing.is_success());

    let mut invalid = complete_lifecycle();
    let both = ExitStatus {
        exit_code: Some(0),
        signal: Some(9),
        oom_killed: false,
    };
    invalid.wait_status_a = Some(both);
    invalid.wait_status_b = Some(both);
    assert!(!invalid.is_success());

    let mut generation = complete_lifecycle();
    generation.recreated_generation_a = Some(3);
    assert!(!generation.is_success());

    assert!(!MultiContainerLifecycleEvidence::default().is_success());
}

#[test]
fn native_multi_container_reports_need_the_exact_operations() {
    let mut report = NativeLinuxMultiContainerSmokeReport::initial(HostPlatform::Linux);
    assert!(!report.is_success());
    report.status = CapabilityStatus::Available;
    report.bundles_loaded = true;
    report.service_operations = vec![
        RuntimeOperation::Features,
        RuntimeOperation::Create,
        RuntimeOperation::State,
        RuntimeOperation::Start,
        RuntimeOperation::Kill,
        RuntimeOperation::Delete,
        RuntimeOperation::Wait,
    ];
    report.lifecycle = complete_lifecycle();
    report.markers_removed = true;
    report.executor_runtime_clean = true;
    report.session_root_clean = true;
    assert!(report.is_success());

    let mut exited = report.clone();
    exited.lifecycle.wait_status_a = Some(ExitStatus::exited(0));
    exited.lifecycle.wait_status_b = Some(ExitStatus::exited(0));
    assert!(exited.lifecycle.is_success());
    assert!(!exited.is_success());

    report.service_operations.swap(0, 1);
    assert!(!report.is_success());
    let other = NativeLinuxMultiContainerSmokeReport::unsupported(HostPlatform::Macos);
    assert_eq!(
        other.reason.as_deref(),
        Some("the native multi-container diagnostic requires a Linux host")
    );
}

#[test]
fn machine_multi_container_reports_need_clean_exits_and_a_bridge() {
    let mut report = OciVmMultiContainerSmokeReport::initial(HostPlatform::Macos);
    report.status = CapabilityStatus::Available;
    report.bundles_loaded = true;
    report.lifecycle = complete_lifecycle();
    report.lifecycle.wait_status_a = Some(ExitStatus::exited(0));
    report.lifecycle.wait_status_b = Some(ExitStatus::exited(0));
    report.markers_removed = true;
    report.guest_runtime_clean = true;
    assert!(!report.is_success());
    report.bridge.succeeded = true;
    assert!(report.is_success());
    report.lifecycle = complete_lifecycle();
    assert!(!report.is_success());

    let other = OciVmMultiContainerSmokeReport::unsupported(HostPlatform::Linux);
    assert_eq!(other.bridge.status, CapabilityStatus::Unsupported);
    assert_eq!(
        other.reason.as_deref(),
        Some(
            "the utility-VM multi-container diagnostic is implemented only for \
             Windows x86_64/WHPX and macOS aarch64/HVF"
        )
    );
}

#[test]
fn cgroup_paths_need_every_observation() {
    let complete = CgroupPathEvidence {
        requested_relative: Some("a".to_string()),
        requested_absolute: Some("/b".to_string()),
        observed_relative_initial: Some("/r/a".to_string()),
        observed_relative_recreated: Some("/r/a".to_string()),
        observed_absolute: Some("/b".to_string()),
        absolute_mountpoint_resolution_verified: true,
        relative_recreate_resolution_verified: true,
        distinct_locations: true,
        paths_removed_after_delete: true,
    };
    assert!(complete.is_success());
    let mut left = complete.clone();
    left.paths_removed_after_delete = false;
    assert!(!left.is_success());
    let mut unseen = complete;
    unseen.observed_absolute = None;
    assert!(!unseen.is_success());
    assert!(!CgroupPathEvidence::default().is_success());
}

fn complete_checkpoint_report() -> NativeLinuxCheckpointSmokeReport {
    let mut report =
        NativeLinuxCheckpointSmokeReport::initial(HostPlatform::Linux, "5".repeat(40));
    report.status = CapabilityStatus::Available;
    report.checkpoint_advertised = true;
    report.restore_advertised = true;
    for key in ["checkpoint_criu_digest", "checkpoint_driver_build_digest"] {
        report.driver_evidence.push(DriverFact {
            key: key.to_string(),
            value: digest("7"),
        });
    }
    report.lifecycle_started = true;
    report.paused_source_observed = true;
    report.preexisting_destination_rejected = true;
    report.preexisting_destination_preserved = true;
    report.driver_after_call_fault_injected = true;
    report.artifact_published_before_host_commit = true;
    report.driver_replay_completed_host_commit = true;
    report.host_replay_exact = true;
    report.artifact_digest_verified = true;
    report.artifact_digest = Some(digest("8"));
    report.artifact_size_bytes = Some(42);
    report.artifact_bytes_unchanged_across_replay = true;
    report.source_remained_paused = true;
    report.source_resume_succeeded = true;
    report.artifact_survived_source_delete = true;
    report.restore_after_call_fault_injected = true;
    report.driver_restore_replay_completed_host_commit = true;
    report.restore_host_replay_exact = true;
    report.restored_generation_newer = true;
    report.restored_running_paused = true;
    report.restored_state_exact = true;
    report.restored_resume_succeeded = true;
    report.restored_exit_status_exact = true;
    report.artifact_bytes_unchanged_across_restore = true;
    report.artifact_survived_restored_delete = true;
    report.driver_journal_acknowledged = true;
    report.unpublished_partials_absent = true;
    report.executor_runtime_clean = true;
    report.session_root_clean = true;
    report
}

#[test]
fn checkpoint_reports_need_every_gate() {
    let report = complete_checkpoint_report();
    assert!(report.is_success());
    let mut empty = report.clone();
    empty.artifact_size_bytes = Some(0);
    assert!(!empty.is_success());
    let mut unnamed = report.clone();
    unnamed.driver_evidence.pop();
    assert!(!unnamed.is_success());
    let mut unversioned = report.clone();
    unversioned.source_revision.clear();
    assert!(!unversioned.is_success());
    let mut partial = report;
    partial.unpublished_partials_absent = false;
    assert!(!partial.is_success());
    let other =
        NativeLinuxCheckpointSmokeReport::unsupported(HostPlatform::Macos, "5".repeat(40));
    assert_eq!(
        other.reason.as_deref(),
        Some("native CRIU checkpoint qualification requires Linux")
    );
}

fn hook_target() -> ContainerTarget {
    ContainerTarget::exact("native-hook-owner-death", 1)
}

fn identity(pid: u32, process_group_id: u32) -> NativeLinuxProcessIdentity {
    NativeLinuxProcessIdentity {
        pid,
        process_group_id,
        start_time_ticks: u64::from(pid) * 100,
    }
}

fn hook_evidence() -> NativeLinuxHookOwnerDeathEvidence {
    NativeLinuxHookOwnerDeathEvidence {
        schema_version: NATIVE_LINUX_HOOK_OWNER_DEATH_EVIDENCE_SCHEMA_VERSION.to_string(),
        target: hook_target(),
        owner: identity(10, 10),
        hook_leader: identity(20, 20),
        hook_descendant: identity(21, 20),
    }
}

fn replacement() -> Replacement {
    Replacement {
        pid: 77,
        effective_uid: 0,
        effective_gid: 0,
    }
}

fn complete_recovery() -> NativeLinuxRecoverySmokeReport {
    let mut report = NativeLinuxRecoverySmokeReport::initial(hook_target(), false, replacement());
    report.status = CapabilityStatus::Available;
    report.bundle_loaded = true;
    report.host_service_reopened = true;
    report.recorded_workload_terminated = true;
    report.stopped_observed = true;
    report.process_inventory_empty = true;
    report.kill_idempotent = true;
    report.exact_wait_evidence_refused = true;
    report.stopped_delete_succeeded = true;
    report.durable_record_removed = true;
    report.current_driver_shutdown = true;
    report.executor_transients_clean = true;
    report.cgroup_delegation_clean = true;
    report
}

#[test]
fn evidence_requires_one_private_hook_process_group() {
    let expected = hook_target();
    let mut evidence = hook_evidence();
    evidence.validate(&expected).expect("valid evidence");
    evidence.hook_descendant.process_group_id = 21;
    assert!(evidence.validate(&expected).is_err());
}

#[test]
fn wrong_hook_evidence_is_told_apart() {
    let expected = hook_target();
    let mut schema = hook_evidence();
    schema.schema_version = "other \"v\"".to_string();
    assert_eq!(
        schema.validate(&expected).unwrap_err(),
        "unsupported Hook owner-death evidence schema \"other \\\"v\\\"\""
    );
    let bound = hook_evidence();
    assert_eq!(
        bound
            .validate(&ContainerTarget::exact("native-hook-owner-death", 2))
            .unwrap_err(),
        "Hook owner-death evidence is not bound to the exact recovery target"
    );
    let mut current = hook_evidence();
    current.target = ContainerTarget::current("native-hook-owner-death");
    assert_eq!(
        current
            .validate(&ContainerTarget::current("native-hook-owner-death"))
            .unwrap_err(),
        "Hook owner-death evidence is not bound to the exact recovery target"
    );
    let mut incomplete = hook_evidence();
    incomplete.hook_leader.start_time_ticks = 0;
    assert_eq!(
        incomplete.validate(&expected).unwrap_err(),
        "Hook leader process identity is incomplete"
    );
    let mut duplicate = hook_evidence();
    duplicate.hook_descendant.pid = 10;
    assert_eq!(
        duplicate.validate(&expected).unwrap_err(),
        "Hook owner-death evidence contains duplicate process IDs"
    );
}

#[test]
fn report_requires_hook_cleanup_and_native_recovery() {
    let expected = hook_target();
    let mut report =
        NativeLinuxHookOwnerDeathSmokeReport::initial(expected, hook_evidence(), complete_recovery());
    report.status = CapabilityStatus::Available;
    report.evidence_validated = true;
    report.owner_replaced = true;
    report.owner_terminated = true;
    report.hook_leader_terminated = true;
    report.hook_descendant_terminated = true;
    assert!(report.is_success());
    report.hook_descendant_terminated = false;
    assert!(!report.is_success());
}

#[test]
fn hook_deaths_are_reported_with_every_reason() {
    let clean = hook_owner_death_report(
        hook_target(),
        hook_evidence(),
        complete_recovery(),
        HookObservations {
            replacement: Ok(identity(30, 30)),
            owner: Ok(true),
            hook_leader: Ok(true),
            hook_descendant: Ok(true),
        },
    );
    assert!(clean.is_success());
    assert!(clean.reason.is_none());
    assert_eq!(clean.replacement_owner, Some(identity(30, 30)));

    let mut recovery = complete_recovery();
    recovery.reason = Some("late".to_string());
    let broken = hook_owner_death_report(
        hook_target(),
        hook_evidence(),
        recovery,
        HookObservations {
            replacement: Ok(identity(10, 10)),
            owner: Ok(false),
            hook_leader: Err("denied".to_string()),
            hook_descendant: Ok(true),
        },
    );
    assert!(!broken.is_success());
    assert!(broken.evidence_validated);
    assert!(!broken.owner_replaced);
    assert_eq!(
        broken.reason.as_deref(),
        Some(
            "replacement process has the interrupted owner's exact identity; \
             interrupted owner PID 10 start-time 1000 remained live; \
             failed to inspect Hook process-group leader: denied; \
             Native recovery contract did not complete: late"
        )
    );
}

#[test]
fn qualification_config_rejects_invalid_ports_and_source() {
    assert!(NativeLinuxNetworkEnforcementSmokeConfig::new(
        "".to_string(),
        "oar01-interface".to_string(),
        "oar01-cleanup".to_string(),
        18080,
        18082,
    )
    .is_err());
    for (redirect, rejected) in [(0, 18082), (18080, 0), (18080, 18080)] {
        assert!(NativeLinuxNetworkEnforcementSmokeConfig::new(
            "eth0".to_string(),
            "oar01-interface".to_string(),
            "oar01-cleanup".to_string(),
            redirect,
            rejected,
        )
        .is_err());
    }
}

#[test]
fn network_inputs_are_kept() {
    let config = NativeLinuxNetworkEnforcementSmokeConfig::new(
        "eth0".to_string(),
        "oar01-interface".to_string(),
        "oar01-cleanup".to_string(),
        18080,
        18082,
    )
    .expect("valid network inputs");
    assert_eq!(config.source_interface(), "eth0");
    assert_eq!(config.interface_id(), "oar01-interface");
    assert_eq!(config.cleanup_id(), "oar01-cleanup");
    assert_eq!(config.redirect_port(), 18080);
    assert_eq!(config.rejected_port(), 18082);
    let error = NativeLinuxNetworkEnforcementSmokeConfig::new(
        "eth0".to_string(),
        "i".to_string(),
        "c".to_string(),
        7,
        7,
    )
    .unwrap_err();
    assert_eq!(
        error.message,
        "network-enforcement qualification ports must be positive and distinct"
    );
    assert_eq!(
        error.operation.as_deref(),
        Some("native-linux-network-enforcement-config")
    );
}

#[test]
fn success_requires_every_identity_lifecycle_and_cleanup_evidence() {
    let mut report = NativeLinuxNetworkEnforcementSmokeReport::initial(HostPlatform::Linux);
    report.status = CapabilityStatus::Available;
    report.bundle_loaded = true;
    report.extension_advertised = true;
    report.attachment = Some(NetworkEnforcementAttachment {
        id: "oar01-policy".to_string(),
        generation: 1,
        digest: digest("1"),
        namespace_id: "oar01-namespace".to_string(),
        redirect: Some(LocalNetworkRedirectAttachment {
            id: "oar01-redirect".to_string(),
            generation: 1,
            digest: digest("2"),
        }),
    });
    report.mechanism_verified_before_create = true;
    report.create_returned_created = true;
    report.create_replayed = true;
    report.created_pid = Some(42);
    report.container_namespace_verified = true;
    report.interface_binding_verified = true;
    report.local_redirect_verified = true;
    report.enforcement_rejection_verified = true;
    report.host_service_reopened = true;
    report.generation_reused_after_reopen = true;
    report.pid_reused_after_reopen = true;
    report.attachment_replayed_after_reopen = true;
    report.start_replayed_after_reopen = true;
    report.wait_exit_status = Some(ExitStatus {
        exit_code: None,
        signal: Some(9),
        oom_killed: false,
    });
    report.delete_replayed = true;
    report.durable_state_removed = true;
    report.namespace_preserved_after_delete = true;
    report.interface_preserved_after_delete = true;
    report.mechanism_preserved_after_delete = true;
    report.markers_removed = true;
    report.executor_runtime_clean = true;
    report.session_root_clean = true;

    assert!(report.is_success());
    report.attachment_replayed_after_reopen = false;
    assert!(!report.is_success());
}

#[test]
fn report_requires_every_safe_recovery_gate() {
    let target = ContainerTarget::exact("native-recovery-report", 1);
    let mut report = NativeLinuxRecoverySmokeReport::initial(target, false, replacement());
    assert!(!report.is_success());
    report.status = CapabilityStatus::Available;
    report.bundle_loaded = true;
    report.host_service_reopened = true;
    report.recorded_workload_terminated = true;
    report.stopped_observed = true;
    report.process_inventory_empty = true;
    report.kill_idempotent = true;
    report.exact_wait_evidence_refused = true;
    report.stopped_delete_succeeded = true;
    report.durable_record_removed = true;
    report.current_driver_shutdown = true;
    report.executor_transients_clean = true;
    report.cgroup_delegation_clean = true;
    assert!(report.is_success());
    report.exact_wait_evidence_refused = false;
    assert!(!report.is_success());
}

#[test]
fn delegated_report_requires_verified_and_clean_delegation() {
    let target = ContainerTarget::exact("native-rootless-recovery-report", 1);
    let mut report = NativeLinuxRecoverySmokeReport::initial(target, true, replacement());
    report.status = CapabilityStatus::Available;
    report.bundle_loaded = true;
    report.host_service_reopened = true;
    report.recorded_workload_terminated = true;
    report.stopped_observed = true;
    report.process_inventory_empty = true;
    report.kill_idempotent = true;
    report.exact_wait_evidence_refused = true;
    report.stopped_delete_succeeded = true;
    report.durable_record_removed = true;
    report.current_driver_shutdown = true;
    report.executor_transients_clean = true;
    assert!(!report.is_success());
    report.cgroup_delegation_verified = true;
    assert!(!report.is_success());
    report.cgroup_delegation_clean = true;
    assert!(report.is_success());
}
