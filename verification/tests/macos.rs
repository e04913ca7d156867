//! The qualification of the public macOS Host Service.

use a3s_oci_runtime::linux_kvm_recovery_smoke::qualification::Reply;
use a3s_oci_runtime::linux_kvm_recovery_smoke::runner::Owner;
use a3s_oci_runtime::linux_kvm_recovery_smoke::soak_runner::{Progress, RuntimeInventory};
use a3s_oci_runtime::error::{Error, ErrorCode};
use a3s_oci_runtime::macos_hvf_host_smoke::calls::{
    check_running_before_marker, stale_generation_rejected, stale_target_rejected, state_is_missing,
    wait_times_out_while_running,
};
use a3s_oci_runtime::macos_hvf_host_smoke::cleanup::{
    count_created, directory_is_empty, durable_container_path, durable_container_removed, inventory,
    recovery_report_path, socket_absent, ConsoleEntry, Consoles, Listing, Lookup,
};
use a3s_oci_runtime::macos_hvf_host_smoke::lifecycle::{
    verify_events, EventBatch, LifecycleRun, LifecycleStep, RuntimeEvent, RuntimeEventKind,
    ServiceDriver, ServiceFeatures,
};
use a3s_oci_runtime::macos_hvf_host_smoke::owner_death::{
    owner_to_stop, OwnerDeathRun, OwnerDeathStep,
};
use a3s_oci_runtime::macos_hvf_host_smoke::report::{
    macos_descendants, name_bytes, start_time_us, MacosHvfHostServiceSmokeReport,
    MacosHvfOwnerDeathEvidence, MacosHvfPublicLifecycleEvidence, MacosHvfPublicSoakEvidence,
    MacosProcessIdentity, MacosSocketIdentity,
    MACOS_HVF_HOST_SERVICE_SMOKE_SCHEMA_VERSION,
};
use a3s_oci_runtime::macos_hvf_host_smoke::runner::{
    check_iterations, check_private_directory, phase_service_root, qualification_evidence_root,
    stops_service, validate_qualification_socket_paths, validate_source_revision, HostFacts,
    InputFacts, MacosHvfHostServiceSmokeConfig, Phase, PhaseRun, PhaseStep, PreparedRun,
    QualificationRun, QualificationStep, MIN_MACOS_HVF_HOST_SERVICE_SOAK_ITERATIONS,
};
use a3s_oci_runtime::macos_hvf_host_smoke::series::{SoakRun, SoakStep};
use a3s_oci_runtime::macos_hvf_host_smoke::soak::{IterationRun, IterationStep};
use a3s_oci_runtime::model::{
    CapabilityStatus, ContainerRecord, ContainerState, ContainerTarget, DriverKind, ExitStatus,
    IsolationClass,
};
use a3s_oci_runtime::native_checkpoint::state::FileKind;
use a3s_oci_runtime::operations::expected_operations;

fn next<T>(outcome: (T, Progress)) -> T {
    let (after, progress) = outcome;
    assert!(matches!(progress, Progress::Next), "{progress:?}");
    after
}

fn failure_of<T>(outcome: (T, Progress)) -> String {
    match outcome.1 {
        Progress::Failed(reason) => reason,
        other => panic!("unexpected {other:?}"),
    }
}

fn incomplete_config(work_parent: &str) -> MacosHvfHostServiceSmokeConfig {
    MacosHvfHostServiceSmokeConfig {
        host_service_executable: "/missing/a3s-oci".to_string(),
        shim: "/missing/a3s-oci-krun-shim".to_string(),
        system_image_manifest: "/missing/system-image.json".to_string(),
        bundle: "/missing/bundle".to_string(),
        work_parent: work_parent.to_string(),
        iterations: MIN_MACOS_HVF_HOST_SERVICE_SOAK_ITERATIONS,
        source_revision: Some("a".repeat(40)),
    }
}

fn missing() -> InputFacts {
    InputFacts {
        inspected: Err("No such file or directory (os error 2)".to_string()),
        canonical: Err("No such file or directory (os error 2)".to_string()),
    }
}

fn found(path: &str, kind: FileKind, mode: u32) -> InputFacts {
    InputFacts {
        inspected: Ok((kind, 501, mode)),
        canonical: Ok(path.to_string()),
    }
}

fn missing_inputs(work_parent: &str) -> HostFacts {
    let digest = format!("sha256:{}", "1".repeat(64));
    HostFacts {
        user: 501,
        work_parent: found(work_parent, FileKind::Directory, 0o40700),
        executable: missing(),
        shim: missing(),
        manifest: missing(),
        bundle: missing(),
        bundle_digest: Ok(digest),
        executable_sha256: Ok("2".repeat(64)),
        shim_sha256: Ok("3".repeat(64)),
        manifest_sha256: Ok("4".repeat(64)),
        nonce: Ok("7-8".to_string()),
    }
}

fn present_inputs(work_parent: &str) -> HostFacts {
    HostFacts {
        executable: found("/missing/a3s-oci", FileKind::Regular, 0o100755),
        shim: found("/missing/a3s-oci-krun-shim", FileKind::Regular, 0o100755),
        manifest: found("/missing/system-image.json", FileKind::Regular, 0o100644),
        bundle: found("/missing/bundle", FileKind::Directory, 0o40755),
        ..missing_inputs(work_parent)
    }
}

#[test]
fn source_revision_requires_a_full_lowercase_git_sha() {
    assert_eq!(
        validate_source_revision(Some("a".repeat(40))).expect("full SHA"),
        "a".repeat(40)
    );
    for revision in [
        None,
        Some("a".repeat(39)),
        Some("A".repeat(40)),
        Some("g".repeat(40)),
    ] {
        assert!(validate_source_revision(revision).is_err());
    }
}

#[test]
fn documented_work_parent_keeps_every_phase_socket_representable() {
    let root = qualification_evidence_root(
        "/private/tmp/a3s-oci-hvf-host.XXXXXX",
        "4294967295-9999999999999999999",
    );
    validate_qualification_socket_paths(&root)
        .expect("documented work parent must fit the longest generated socket path");
}

#[test]
fn invalid_iterations_fail_before_any_evidence_directory_is_created() {
    let mut config = incomplete_config("/work");
    config.iterations = MIN_MACOS_HVF_HOST_SERVICE_SOAK_ITERATIONS - 1;
    let error = PreparedRun::open(config, missing_inputs("/work"))
        .err()
        .expect("invalid iterations must fail");
    assert!(error.contains("iterations"), "{error}");
}

#[test]
fn invalid_artifacts_fail_without_leaving_an_evidence_directory() {
    let error = PreparedRun::open(incomplete_config("/work"), missing_inputs("/work"))
        .err()
        .expect("missing executable must fail");
    assert!(error.contains("Host Service executable"), "{error}");
}

#[test]
fn runs_are_planned_from_checked_inputs() {
    let run = PreparedRun::open(incomplete_config("/work"), present_inputs("/work"))
        .expect("planned run");
    assert_eq!(run.evidence_root, "/work/hvf-7-8");
    assert_eq!(run.artifacts.shim_sha256, "3".repeat(64));
    let directories = run.directories();
    assert_eq!(directories.len(), 7);
    assert_eq!(directories[0], run.evidence_root);
    assert_eq!(
        directories[2],
        phase_service_root(&run.evidence_root, Phase::Lifecycle)
    );
    let mut config = incomplete_config("/work");
    config.source_revision = None;
    assert!(PreparedRun::open(config, present_inputs("/work")).is_err());
    let mut linked = present_inputs("/work");
    linked.shim = found("/elsewhere/shim", FileKind::Regular, 0o100755);
    assert!(PreparedRun::open(incomplete_config("/work"), linked).is_err());
    let mut plain = present_inputs("/work");
    plain.shim = found("/missing/a3s-oci-krun-shim", FileKind::Regular, 0o100644);
    assert!(PreparedRun::open(incomplete_config("/work"), plain).is_err());
    assert!(check_iterations(1_000).is_ok());
    assert!(check_iterations(1_001).is_err());
    assert!(check_private_directory("/w", FileKind::Directory, 501, 0o40700, 501).is_ok());
    assert!(check_private_directory("/w", FileKind::Directory, 501, 0o40755, 501).is_err());
    let long = format!("/{}", "w".repeat(90));
    assert!(validate_qualification_socket_paths(&long).is_err());
}

fn process(pid: u32, parent_pid: u32, process_group_id: u32) -> MacosProcessIdentity {
    MacosProcessIdentity {
        pid,
        parent_pid,
        process_group_id,
        start_time_unix_us: 1_000 + u64::from(pid),
        command: format!("process-{pid}"),
    }
}

fn machine(first: u32, owner: u32) -> Vec<MacosProcessIdentity> {
    vec![process(first, owner, first), process(first + 1, first, first)]
}

fn record(status: ContainerState, generation: u64) -> ContainerRecord {
    ContainerRecord {
        id: "public".to_string(),
        generation,
        status,
        pid: None,
        paused: false,
        driver: DriverKind::LibkrunHvf,
        isolation: IsolationClass::DedicatedVm,
        config_digest: format!("sha256:{}", "5".repeat(64)),
        attachments_digest: None,
        document: "{\"bundle\":\"/bundle\"}".to_string(),
    }
}

fn killed() -> ExitStatus {
    ExitStatus::signaled(9, false)
}

fn clean() -> RuntimeInventory {
    RuntimeInventory {
        bundle_handoffs_clean: true,
        runtime_shares_clean: true,
        recovery_reports_clean: true,
        console_files: 3,
    }
}

fn whole_life(target: &ContainerTarget) -> EventBatch {
    let kinds = [
        RuntimeEventKind::ContainerCreating,
        RuntimeEventKind::ContainerCreated,
        RuntimeEventKind::ContainerStarted,
        RuntimeEventKind::ProcessCreated,
        RuntimeEventKind::ProcessStarted,
        RuntimeEventKind::ProcessExited,
        RuntimeEventKind::ResourcesUpdated,
        RuntimeEventKind::ContainerPaused,
        RuntimeEventKind::ContainerResumed,
        RuntimeEventKind::ProcessExited,
        RuntimeEventKind::ContainerStopped,
        RuntimeEventKind::ContainerDeleted,
    ];
    let events = kinds
        .iter()
        .enumerate()
        .map(|(place, kind)| RuntimeEvent {
            kind: *kind,
            container: target.clone(),
            sequence: 40 + place as u64,
        })
        .collect();
    EventBatch {
        events,
        next_sequence: 51,
    }
}

#[test]
fn events_tell_the_whole_life_of_one_container() {
    let target = ContainerTarget::exact("public", 1);
    assert!(verify_events(&whole_life(&target), &target));
    assert!(!verify_events(&whole_life(&target), &ContainerTarget::exact("public", 2)));
    let mut gap = whole_life(&target);
    gap.events[5].sequence += 1;
    assert!(!verify_events(&gap, &target));
    let mut later = whole_life(&target);
    later.next_sequence = 52;
    assert!(!verify_events(&later, &target));
    let mut paused_twice = whole_life(&target);
    paused_twice.events[8].kind = RuntimeEventKind::ContainerPaused;
    assert!(!verify_events(&paused_twice, &target));
    let mut unstarted = whole_life(&target);
    unstarted.events[4].kind = RuntimeEventKind::ProcessCreated;
    assert!(!verify_events(&unstarted, &target));
}

fn features() -> ServiceFeatures {
    ServiceFeatures {
        operations: expected_operations(),
        takes_bundle_handoffs: true,
        drivers: vec![ServiceDriver {
            driver: DriverKind::LibkrunHvf,
            isolation_classes: vec![IsolationClass::DedicatedVm],
        }],
    }
}

fn initial() -> MacosHvfHostServiceSmokeReport {
    MacosHvfHostServiceSmokeReport::initial("/work".to_string(), 25)
}

fn complete_lifecycle_run() -> LifecycleRun {
    let mut evidence = initial().lifecycle;
    evidence.socket_private = true;
    let mut run = LifecycleRun::start(evidence, 70);
    run = next(run.features(features()));
    run = next(run.staged(true));
    run = next(run.created(record(ContainerState::Created, 1)));
    run = next(run.handoff_checked(false));
    run = next(run.create_replayed(&record(ContainerState::Created, 1)));
    run = next(run.state_read(&record(ContainerState::Created, 1)));
    let listed = vec![record(ContainerState::Created, 1)];
    run = next(run.listed(&listed, &listed));
    run = next(run.observed(machine(80, 70)));
    run = next(run.started(ContainerState::Running));
    run = next(run.marked());
    run = next(run.process_io());
    run = next(run.terminal_io());
    run = next(run.files());
    run = next(run.signalled());
    run = next(run.processes_listed(true));
    let running = record(ContainerState::Running, 1);
    run = next(run.updated(&running, &running));
    run = next(run.stats_read(true));
    let mut paused = running.clone();
    paused.paused = true;
    run = next(run.paused(&paused, &Some(paused.clone())));
    run = next(run.resumed(&running, &Some(running.clone())));
    run = next(run.wait_timed_out(true));
    run = next(run.killed(running.clone()));
    run = next(run.kill_replayed(&running));
    run = next(run.waited(killed()));
    run = next(run.wait_replayed(killed()));
    run = next(run.exit_checked());
    run = next(run.deleted());
    let target = ContainerTarget::exact("public", 1);
    run = next(run.events_read(&whole_life(&target), &target));
    run = next(run.state_checked(true));
    run = next(run.list_checked(true));
    run = next(run.reaped(true));
    run = next(run.recreated(2));
    run = next(run.observed_again(machine(90, 70)));
    let stale = Error::new(ErrorCode::NotFound, "stale".to_string());
    run = next(run.stale_checked(Reply::Refused(stale)));
    run = next(run.recreated_deleted());
    run = next(run.list_checked_again(true));
    next(run.reaped_again(true))
}

fn complete_phase() -> MacosHvfPublicLifecycleEvidence {
    let mut phase = PhaseRun::start(initial().lifecycle);
    phase = next(phase.spawned());
    phase = next(phase.connected());
    phase = next(phase.descriptors_counted(12));
    phase = next(phase.lifecycle_ran(complete_with(12), None));
    phase = next(phase.descriptors_restored(true, 12));
    phase = next(phase.reaped(true));
    phase = next(phase.endpoints_restored(true));
    phase = next(phase.inventoried(clean()));
    phase = next(phase.terminated(Ok(true)));
    phase = next(phase.socket_checked(true));
    assert_eq!(phase.step, PhaseStep::Complete);
    phase.evidence
}

fn complete_with(descriptors: u32) -> MacosHvfPublicLifecycleEvidence {
    let mut evidence = complete_lifecycle_run().into_evidence();
    evidence.open_descriptors_before = Some(descriptors);
    evidence
}

#[test]
fn a_public_lifecycle_shows_every_operation() {
    let run = complete_lifecycle_run();
    assert_eq!(run.step, LifecycleStep::Complete);
    let outcome = run.outcome().expect("outcome");
    assert_eq!(outcome.target.id, "public");
    assert_eq!(outcome.target.generation, Some(1));
    let pids: Vec<u32> = outcome.vm_processes.iter().map(|one| one.pid).collect();
    let mut expected: Vec<u32> = machine(80, 70).iter().map(|one| one.pid).collect();
    expected.extend(machine(90, 70).iter().map(|one| one.pid));
    assert_eq!(pids, expected);
    assert!(run.evidence.stale_generation_rejected);
    assert!(LifecycleRun::start(initial().lifecycle, 70).outcome().is_none());
    let evidence = run.into_evidence();
    assert!(evidence.features_verified);
    assert!(evidence.generation_monotonic);
    assert_eq!(evidence.exercised_operations, expected_operations());
    assert!(complete_phase().is_success());
}

#[test]
fn a_public_lifecycle_stops_at_what_it_misses() {
    let mut lacking = features();
    lacking.operations.pop();
    let refused = LifecycleRun::start(initial().lifecycle, 70).features(lacking);
    assert!(refused.0.exercised.is_empty());
    assert_eq!(
        failure_of(refused),
        "public HVF feature inventory did not match the fixed 23-operation contract"
    );
    let (run, progress) = LifecycleRun::start(initial().lifecycle, 70).marked();
    assert!(matches!(progress, Progress::Misplaced));
    let run = run.failed("gone".to_string());
    assert_eq!(failure_of(run), "gone");
}

#[test]
fn a_qualification_begins_with_nothing_shown_and_nothing_wrong() {
    let report = QualificationRun::start("/work".to_string(), 25).report;
    assert_eq!(report.schema_version, MACOS_HVF_HOST_SERVICE_SMOKE_SCHEMA_VERSION);
    assert_eq!(report.evidence_root, "/work");
    assert!(report.artifacts.shim.is_empty() && report.artifacts.source_revision.is_empty());
    assert!(!report.lifecycle.features_verified && !report.owner_death.replacement_connected);
    assert_eq!(report.soak.requested_iterations, 25);
    assert_eq!(report.soak.completed_iterations, 0);
    assert!(report.soak.generation_monotonic_every_iteration);
    assert!(report.soak.unique_vm_processes);
    assert!(!report.soak.service_exit_success);
    assert!(report.reason.is_none());
}

#[test]
fn a_phase_keeps_its_first_failure() {
    let mut phase = PhaseRun::start(initial().lifecycle);
    phase = next(phase.spawned());
    phase = next(phase.connected());
    phase = next(phase.descriptors_counted(12));
    assert!(stops_service(PhaseStep::Connect));
    assert!(!stops_service(PhaseStep::Spawn));
    phase = next(phase.lifecycle_ran(initial().lifecycle, Some("early".to_string())));
    phase = next(phase.descriptors_restored(true, 12));
    phase = next(phase.reaped(true));
    phase = next(phase.endpoints_restored(true));
    phase = next(phase.inventoried(clean()));
    let reason = failure_of(phase.terminated(Err("late".to_string())));
    assert_eq!(reason, "early; Host Service shutdown also failed: late");
}

fn socket(inode: u64) -> MacosSocketIdentity {
    MacosSocketIdentity {
        device: 1,
        inode,
        generation: 3,
        birth_time_unix_seconds: 4,
        birth_time_nanoseconds: 5,
    }
}

fn complete_owner_death() -> MacosHvfOwnerDeathEvidence {
    let mut run = OwnerDeathRun::start("public".to_string(), initial().owner_death);
    run = next(run.first_identified(70));
    let created = record(ContainerState::Created, 1);
    run = next(run.created(created.clone(), &created));
    run = next(run.started(ContainerState::Running));
    run = next(run.marked());
    assert_eq!(owner_to_stop(run.step), Some(Owner::First));
    run = next(run.observed(machine(80, 70)));
    run = next(run.endpoint_consumed(true));
    run = next(run.socket_identified(socket(1)));
    run = next(run.first_killed());
    run = next(run.socket_after_kill(socket(1)));
    run = next(run.reaped(true));
    run = next(run.endpoints_restored(true));
    run = next(run.report_retained(true));
    assert_eq!(owner_to_stop(run.step), Some(Owner::Replacement));
    run = next(run.replacement_identified(71));
    run = next(run.socket_replaced(socket(2)));
    run = next(run.connected());
    run = next(run.descriptors_before(9));
    run = next(run.state_recovered(&record(ContainerState::Stopped, 1)));
    run = next(run.processes_listed(true));
    run = next(run.waited(killed()));
    run = next(run.wait_replayed(killed()));
    run = next(run.deleted());
    run = next(run.state_removed(true));
    run = next(run.descriptors_restored(true));
    run = next(run.descriptors_after(9));
    run = next(run.inventoried(clean()));
    run = next(run.endpoints_restored_again(true));
    run = next(run.terminated(true));
    run = next(run.socket_checked(true));
    assert_eq!(run.step, OwnerDeathStep::Complete);
    run.evidence
}

#[test]
fn a_replacement_recovers_what_its_dead_owner_left() {
    assert!(complete_owner_death().is_success());
    let mut run = OwnerDeathRun::start("public".to_string(), initial().owner_death);
    run = next(run.first_identified(70));
    let created = record(ContainerState::Created, 1);
    run = next(run.created(created.clone(), &created));
    run = next(run.started(ContainerState::Running));
    run = next(run.marked());
    let reason = failure_of(run.observed(vec![process(80, 70, 70)]));
    assert_eq!(
        reason,
        "owner-death process inventory did not expose a private shim/worker group"
    );
}

fn complete_generation(run: IterationRun) -> IterationRun {
    let iteration = run.iteration;
    let generation = u64::from(iteration);
    let created = record(ContainerState::Created, generation);
    let mut run = next(run.created(&created, &created));
    let fenced = run.needs_fence();
    assert_eq!(fenced, iteration > 1);
    run = next(run.fenced(fenced));
    run = next(run.observed(machine(100 + iteration * 2, 70)));
    run = next(run.started(ContainerState::Running));
    run = next(run.marked());
    let running = record(ContainerState::Running, generation);
    run = next(run.killed(&running, &running));
    run = next(run.waited(killed(), killed()));
    run = next(run.deleted());
    run = next(run.state_checked(true));
    run = next(run.reaped(true));
    run = next(run.endpoints_restored(true));
    run = next(run.descriptors_restored(true));
    run = next(run.inventoried(clean()));
    assert_eq!(run.step, IterationStep::Complete);
    run
}

fn begun_soak(iterations: u32) -> SoakRun {
    let evidence = MacosHvfPublicSoakEvidence::initial(iterations);
    let run = SoakRun::start("public".to_string(), evidence);
    let run = next(next(run.spawned(70)).connected());
    assert_eq!(run.evidence.host_service_pid, Some(70));
    let run = next(run.descriptors_counted(9));
    assert_eq!(run.evidence.steady_open_descriptors, Some(9));
    run
}

fn iterated_soak(iterations: u32) -> SoakRun {
    let mut run = begun_soak(iterations);
    while run.step == SoakStep::Iterate {
        let generation = run.begin_generation().expect("another generation");
        run = SoakRun::generation_ended(complete_generation(generation));
    }
    assert_eq!(run.step, SoakStep::FinalDescriptors);
    run
}

fn console_paths(count: usize) -> Consoles {
    let paths: Vec<String> = (0..count).map(|number| format!("/r/console/{number}")).collect();
    let names: Vec<&str> = paths.iter().map(String::as_str).collect();
    consoles(&names)
}

fn complete_soak() -> MacosHvfPublicSoakEvidence {
    let run = next(iterated_soak(25).descriptors_counted_again(9));
    let run = next(next(run.terminated(true)).socket_checked(true));
    let run = next(run.consoles_counted(&console_paths(1), &console_paths(26)));
    assert_eq!(run.step, SoakStep::Complete);
    assert_eq!(run.evidence.console_files_created, 25);
    run.evidence
}

#[test]
fn every_soak_generation_is_counted() {
    let evidence = complete_soak();
    assert_eq!(evidence.completed_iterations, 25);
    assert_eq!(evidence.completed_vm_generations, 25);
    assert_eq!(evidence.vm_processes.len(), 50);
    assert_eq!(evidence.final_open_descriptors, Some(9));
    assert_eq!(evidence.failure_iteration, None);
    assert!(evidence.is_success());
}

#[test]
fn a_soak_without_its_final_evidence_fails() {
    for (success, absent, files) in [(false, true, 26), (true, false, 26), (true, true, 25)] {
        let run = next(iterated_soak(25).descriptors_counted_again(9));
        let run = next(next(run.terminated(success)).socket_checked(absent));
        let (stopped, progress) = run.consoles_counted(&console_paths(1), &console_paths(files));
        assert_eq!(stopped.step, SoakStep::Stopped);
        assert_eq!(stopped.evidence.service_exit_success, success);
        assert_eq!(stopped.evidence.service_socket_removed, absent);
        assert!(!stopped.evidence.is_success());
        assert_eq!(
            failure_of((stopped, progress)),
            "public Host Service soak final evidence was incomplete"
        );
    }
    let (stopped, _) = begun_soak(25).failed("no service".to_string());
    assert_eq!(stopped.step, SoakStep::Stopped);
    assert!(stopped.begin_generation().is_err());
    let none = begun_soak(0);
    assert_eq!(none.step, SoakStep::FinalDescriptors);
    let (same, progress) = none.terminated(true);
    assert!(matches!(progress, Progress::Misplaced));
    assert!(!same.evidence.service_exit_success);
}

#[test]
fn soak_processes_are_never_reused() {
    let first = complete_generation(begun_soak(25).begin_generation().expect("generation"));
    let mut again = SoakRun::generation_ended(first).begin_generation().expect("generation");
    let created = record(ContainerState::Created, 2);
    again = next(again.created(&created, &created));
    again = next(again.fenced(true));
    let (again, progress) = again.observed(machine(102, 70));
    assert!(matches!(progress, Progress::Failed(_)));
    assert!(!again.evidence.unique_vm_processes);
}

#[test]
fn the_soak_generation_that_failed_is_named() {
    let first = complete_generation(begun_soak(25).begin_generation().expect("generation"));
    let run = SoakRun::generation_ended(first);
    assert_eq!(run.evidence.failure_iteration, None);
    assert_eq!(run.previous.as_ref().and_then(|target| target.generation), Some(1));
    let failing = run.begin_generation().expect("generation");
    assert_eq!(failing.iteration, 2);
    let created = record(ContainerState::Created, 2);
    let mut other = created.clone();
    other.document = "{\"bundle\":\"/other\"}".to_string();
    let (failed, progress) = failing.created(&created, &other);
    assert!(matches!(progress, Progress::Failed(_)));
    let stopped = SoakRun::generation_ended(failed);
    assert_eq!(stopped.step, SoakStep::Stopped);
    assert_eq!(stopped.evidence.failure_iteration, Some(2));
    assert_eq!(stopped.evidence.completed_iterations, 1);
    let mut evidence = complete_soak();
    evidence.failure_iteration = stopped.evidence.failure_iteration;
    assert!(!evidence.is_success());
}

#[test]
fn a_qualification_is_available_only_where_each_phase_succeeded() {
    let prepared = PreparedRun::open(incomplete_config("/work"), present_inputs("/work")).unwrap();
    let mut run = QualificationRun::start("/work".to_string(), 25);
    run = run.prepared(Ok((prepared.evidence_root, prepared.artifacts)));
    run = run.inputs_persisted(Ok(()));
    run = run.lifecycle_finished(complete_phase(), Ok(()));
    run = run.phase_persisted(Ok(()), Ok(()));
    run = run.owner_death_finished(complete_owner_death(), Ok(()));
    run = run.phase_persisted(Ok(()), Ok(()));
    run = run.soak_finished(complete_soak(), Ok(()));
    run = run.phase_persisted(Ok(()), Ok(()));
    assert_eq!(run.step, QualificationStep::PersistReport);
    run = run.report_persisted(Ok(()));
    assert_eq!(run.step, QualificationStep::Done);
    assert_eq!(run.report.reason, None);
    assert_eq!(run.report.status, CapabilityStatus::Available);
    assert!(run.report.is_success());
}

#[test]
fn a_qualification_ends_with_the_phase_that_failed() {
    let prepared = PreparedRun::open(incomplete_config("/work"), present_inputs("/work")).unwrap();
    let mut run = QualificationRun::start("/work".to_string(), 25);
    run = run.prepared(Ok((prepared.evidence_root, prepared.artifacts)));
    run = run.inputs_persisted(Ok(()));
    run = run.lifecycle_finished(initial().lifecycle, Err("no socket".to_string()));
    run = run.phase_persisted(Ok(()), Ok(()));
    assert_eq!(run.step, QualificationStep::Done);
    assert_eq!(run.report.lifecycle.reason.as_deref(), Some("no socket"));
    assert!(run.report.reason.expect("reason").contains("no socket"));
    let refused = QualificationRun::start("/work".to_string(), 25).prepared(Err("bad".to_string()));
    assert_eq!(refused.step, QualificationStep::Done);
    assert_eq!(refused.report.reason.as_deref(), Some("bad"));
    let unsaved = QualificationRun::start("/work".to_string(), 25);
    assert_eq!(unsaved.report_persisted(Ok(())).step, QualificationStep::Prepare);
    let audit = initial().conclude();
    assert_eq!(audit.status, CapabilityStatus::Unavailable);
    assert!(audit.reason.expect("reason").contains("completeness audit"));
}

fn consoles(paths: &[&str]) -> Consoles {
    let mut entries: Vec<ConsoleEntry> = paths
        .iter()
        .map(|path| ConsoleEntry {
            path: path.to_string(),
            plain_file: true,
        })
        .collect();
    entries.push(ConsoleEntry {
        path: "/r/console/directory".to_string(),
        plain_file: false,
    });
    Consoles::Entries(entries)
}

#[test]
fn created_consoles_are_those_that_were_not_there_before() {
    let before = consoles(&["/r/console/a", "/r/console/b"]);
    let after = consoles(&["/r/console/b", "/r/console/c", "/r/console/c", "/r/console/d"]);
    assert_eq!(count_created(&before, &after), 2);
    assert_eq!(count_created(&Consoles::Missing, &after), 3);
    assert_eq!(count_created(&after, &after), 0);
    assert_eq!(count_created(&after, &Consoles::Missing), 0);
    let failed = |consoles: Consoles| {
        inventory("/r", &Listing::Empty, &Listing::Empty, &Listing::Empty, &consoles).unwrap_err()
    };
    assert_eq!(
        failed(Consoles::Failed("denied".to_string())),
        "failed to enumerate /r/console: denied"
    );
    assert_eq!(
        failed(Consoles::EntryFailed("denied".to_string())),
        "failed to inspect entry below /r/console: denied"
    );
    assert_eq!(
        failed(Consoles::InspectionFailed("/r/console/x".to_string(), "gone".to_string())),
        "failed to inspect /r/console/x: gone"
    );
}

#[test]
fn runtime_directories_are_inventoried() {
    assert!(directory_is_empty("/r", &Listing::Missing).unwrap());
    assert!(directory_is_empty("/r", &Listing::Empty).unwrap());
    assert!(!directory_is_empty("/r", &Listing::Occupied).unwrap());
    assert!(directory_is_empty("/r", &Listing::Failed("denied".to_string())).is_err());
    let taken = inventory(
        "/r",
        &Listing::Empty,
        &Listing::Occupied,
        &Listing::Missing,
        &consoles(&["/r/console/a", "/r/console/b"]),
    )
    .expect("inventory");
    assert!(taken.bundle_handoffs_clean);
    assert!(!taken.runtime_shares_clean);
    assert!(taken.recovery_reports_clean);
    assert_eq!(taken.console_files, 2);
    let target = ContainerTarget::exact("public", 3);
    assert_eq!(
        recovery_report_path("/r", &target).unwrap(),
        "/r/recovery/public-3.json"
    );
    assert!(recovery_report_path("/r", &ContainerTarget::current("public")).is_err());
    assert!(durable_container_path("/s", &target).starts_with("/s/state/"));
    assert!(durable_container_removed("/s", &target, &Lookup::Missing).unwrap());
    assert!(!durable_container_removed("/s", &target, &Lookup::Present).unwrap());
    assert!(socket_absent("/s", &Lookup::Missing).unwrap());
    assert!(socket_absent("/s", &Lookup::Failed("denied".to_string())).is_err());
}

#[test]
fn replies_are_judged_by_what_they_have_to_be() {
    let refuse = |code: ErrorCode| Reply::Refused(Error::new(code, "refused".to_string()));
    assert!(wait_times_out_while_running(refuse(ErrorCode::DeadlineExceeded)).unwrap());
    assert!(!wait_times_out_while_running(Reply::Answered).unwrap());
    assert!(wait_times_out_while_running(Reply::TimedOut).is_err());
    assert!(state_is_missing(refuse(ErrorCode::NotFound)).unwrap());
    assert!(state_is_missing(refuse(ErrorCode::Internal)).is_err());
    assert!(!state_is_missing(Reply::Answered).unwrap());
    assert!(stale_target_rejected(refuse(ErrorCode::Conflict), "refused").unwrap());
    assert!(stale_target_rejected(refuse(ErrorCode::Internal), "refused").is_err());
    assert!(stale_generation_rejected(refuse(ErrorCode::NotFound)).unwrap());
    assert!(stale_generation_rejected(refuse(ErrorCode::Conflict)).unwrap());
    assert!(!stale_generation_rejected(Reply::Answered).unwrap());
    assert!(stale_generation_rejected(refuse(ErrorCode::Internal)).is_err());
    assert_eq!(
        stale_generation_rejected(Reply::TimedOut).unwrap_err(),
        "stale-generation state timed out"
    );
    assert!(check_running_before_marker(ContainerState::Running, "stopped").is_ok());
    assert!(check_running_before_marker(ContainerState::Stopped, "stopped").is_err());
}

#[test]
fn process_tables_are_read_exactly() {
    let all = vec![process(81, 80, 80), process(80, 70, 80), process(70, 1, 70)];
    let mut pids: Vec<u32> = macos_descendants(&all, 70).iter().map(|one| one.pid).collect();
    pids.sort();
    assert_eq!(pids, vec![80, 81]);
    assert_eq!(start_time_us(2, 5), 2_000_005);
    assert_eq!(start_time_us(u64::MAX, 5), u64::MAX);
    assert_eq!(name_bytes(b"abc\0def"), b"abc".to_vec());
    assert_eq!(name_bytes(b"abc"), b"abc".to_vec());
}
