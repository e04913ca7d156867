//! The qualification of the Linux KVM Host Services.

use a3s_oci_runtime::error::{Error, ErrorCode};
use a3s_oci_runtime::linux_kvm_recovery_smoke::prepare::{
    check_architecture, check_canonical, check_plain_directory, check_plain_file,
    check_source_revision, plan_layout, unique_nonce, PlainFacts, PreparedQualification,
    QualificationFacts, QualificationInputs, NOT_CANONICAL,
};
use a3s_oci_runtime::linux_kvm_recovery_smoke::qualification::{
    call_error, call_result, check_marker, check_marker_bytes, descendants_ready,
    marker_unavailable, operation, recovery_report_path, report_file_is_private,
    report_shows_kill, stale_target_rejected, state_is_missing, verify_qualification_scope,
    wave_nonce, AdvertisedDriver, MarkerWait, RecoveryRecord, Reply, MARKER_TEXT,
};
use a3s_oci_runtime::linux_kvm_recovery_smoke::report::{
    LinuxKvmRecoveryArtifacts, LinuxKvmRecoveryEvidence, LinuxKvmRecoverySmokeReport,
};
use a3s_oci_runtime::linux_kvm_recovery_smoke::runner::{
    owner_to_stop, report_count, Owner, RecoveryRun, RecoveryStep,
};
use a3s_oci_runtime::linux_kvm_recovery_smoke::soak_report::{
    valid_cgroups_path, LinuxKvmSoakReport,
};
use a3s_oci_runtime::linux_kvm_recovery_smoke::soak_runner::{
    check_source_cgroups, check_source_marker, check_source_root, check_source_rootfs, Progress,
    RuntimeInventory, SourceFacts, SourceProfile, SourceRoot, WaveRun, WaveStep,
};
use a3s_oci_runtime::model::{
    CapabilityStatus, ContainerRecord, ContainerState, ContainerTarget, DriverKind,
    DriverReadiness, ExitStatus, IsolationClass,
};
use a3s_oci_runtime::native_checkpoint::publication::FileIdentity;
use a3s_oci_runtime::native_checkpoint::state::FileKind;
use a3s_oci_runtime::native_linux_driver::Evidence;
use a3s_oci_runtime::process::LinuxProcessIdentity;

fn next<T>(outcome: (T, Progress)) -> T {
    let (after, progress) = outcome;
    assert!(matches!(progress, Progress::Next), "{progress:?}");
    after
}

fn failure_of<T>(outcome: (T, Progress)) -> String {
    match outcome.1 {
        Progress::Failed(reason) => reason,
        other => panic!("unexpected {other:?}"),
    }
}

fn process(pid: u32, parent_pid: u32) -> LinuxProcessIdentity {
    LinuxProcessIdentity {
        pid,
        parent_pid,
        process_group_id: 200,
        start_time_ticks: 1_000 + u64::from(pid),
        command: format!("process-{pid}"),
    }
}

fn digest(symbol: &str) -> String {
    format!("sha256:{}", symbol.repeat(64))
}

fn record(status: ContainerState, generation: u64) -> ContainerRecord {
    ContainerRecord {
        id: "machine".to_string(),
        generation,
        status,
        pid: None,
        paused: false,
        driver: DriverKind::LibkrunKvm,
        isolation: IsolationClass::DedicatedVm,
        config_digest: digest("5"),
        attachments_digest: None,
        document: "{\"bundle\":\"/bundle\"}".to_string(),
    }
}

fn killed() -> ExitStatus {
    ExitStatus::signaled(9, false)
}

fn clean() -> RuntimeInventory {
    RuntimeInventory {
        bundle_handoffs_clean: true,
        runtime_shares_clean: true,
        recovery_reports_clean: true,
        console_files: 25,
    }
}

fn socket(inode: u64) -> FileIdentity {
    FileIdentity { device: 1, inode }
}

fn artifacts() -> LinuxKvmRecoveryArtifacts {
    LinuxKvmRecoveryArtifacts {
        host_service_executable: "/a3s-oci".to_string(),
        host_service_executable_sha256: "1".repeat(64),
        shim: "/shim".to_string(),
        shim_sha256: "2".repeat(64),
        system_image_manifest: "/assets/system-image.json".to_string(),
        system_image_manifest_sha256: "3".repeat(64),
        source_bundle: "/bundle".to_string(),
        source_bundle_config_digest: digest("4"),
        source_revision: "a".repeat(40),
    }
}

fn initial() -> LinuxKvmRecoverySmokeReport {
    LinuxKvmRecoverySmokeReport::initial("/evidence".to_string(), "x86_64".to_string())
}

fn killed_owner() -> RecoveryRun {
    let mut run = RecoveryRun::start("machine".to_string(), initial().recovery);
    run = next(run.first_identified(process(100, 1)));
    run = next(run.first_peer(process(100, 1)));
    run = next(run.first_scope());
    let created = record(ContainerState::Created, 1);
    run = next(run.created(created.clone(), &created, false));
    run = next(run.started(ContainerState::Running));
    run = next(run.marked());
    assert_eq!(owner_to_stop(run.step), Some(Owner::First));
    run = next(run.observed(vec![process(200, 100), process(201, 200)]));
    run = next(run.endpoint_consumed(true));
    run = next(run.socket_identified(socket(1)));
    next(run.first_killed())
}

fn complete_recovery() -> LinuxKvmRecoveryEvidence {
    let mut run = killed_owner();
    run = next(run.socket_after_kill(socket(1)));
    run = next(run.reaped(true));
    run = next(run.endpoints_restored(true));
    run = next(run.report_retained(true));
    run = next(run.replacement_identified(process(101, 1)));
    run = next(run.replacement_peer(process(101, 1)));
    run = next(run.connected());
    run = next(run.replacement_scope());
    run = next(run.descriptors_before(9));
    run = next(run.state_recovered(&record(ContainerState::Stopped, 1)));
    run = next(run.processes_listed(true));
    run = next(run.waited(killed()));
    run = next(run.wait_replayed(killed()));
    run = next(run.deleted());
    run = next(run.state_removed(true));
    run = next(run.descriptors_restored(true));
    run = next(run.descriptors_after(9));
    run = next(run.inventoried(clean()));
    run = next(run.endpoints_restored_again(true));
    run = next(run.terminated(true));
    run = next(run.socket_checked(false));
    assert_eq!(run.step, RecoveryStep::Complete);
    run.evidence
}

#[test]
fn a_replacement_service_recovers_the_machine_of_a_dead_one() {
    let evidence = complete_recovery();
    assert!(evidence.is_success());
    let report = LinuxKvmRecoverySmokeReport {
        artifacts: artifacts(),
        recovery: evidence,
        ..initial()
    }
    .conclude();
    assert_eq!(report.reason, None);
    assert_eq!(report.status, CapabilityStatus::Available);
    assert!(report.is_success());
    let withdrawn = report.withdraw("not written".to_string());
    assert!(!withdrawn.is_success());
    let refused = initial().refuse("wrong inputs".to_string());
    assert_eq!(refused.reason.as_deref(), Some("wrong inputs"));
    let audited = initial().conclude();
    assert_eq!(audited.status, CapabilityStatus::Unavailable);
    assert!(audited.reason.is_some());
}

#[test]
fn a_recovery_stops_at_what_is_not_exact() {
    assert_eq!(
        failure_of(killed_owner().socket_after_kill(socket(2))),
        "SIGKILLed Host Service did not leave its exact stale socket"
    );
    let mut run = killed_owner();
    run = next(run.socket_after_kill(socket(1)));
    run = next(run.reaped(true));
    run = next(run.endpoints_restored(true));
    run = next(run.report_retained(true));
    run = next(run.replacement_identified(process(101, 1)));
    assert_eq!(
        failure_of(run.replacement_peer(process(100, 1))),
        "replacement socket kept the first owner identity"
    );
    let (_, progress) = killed_owner().terminated(true);
    assert!(matches!(progress, Progress::Misplaced));
    assert_eq!(failure_of(killed_owner().failed("gone".to_string())), "gone");
    assert_eq!(report_count(9), Some(9));
}

fn wave(iteration: u32, previous: Option<ContainerTarget>) -> WaveRun {
    let generation = u64::from(iteration);
    let mut run = WaveRun::start(iteration, "/soak", "machine".to_string(), previous);
    let created = record(ContainerState::Created, generation);
    run = next(run.created(created.clone(), &created, false));
    assert_eq!(run.stale_target().generation, Some(generation - 1));
    run = next(run.fenced(true));
    run = next(run.observed(vec![
        process(200 + iteration * 2, 100),
        process(201 + iteration * 2, 200),
    ]));
    run = next(run.started(ContainerState::Running));
    run = next(run.marked());
    let running = record(ContainerState::Running, generation);
    run = next(run.killed(&running, &running));
    run = next(run.waited(killed()));
    run = next(run.wait_replayed(killed()));
    run = next(run.deleted());
    for _ in 0..5 {
        run = next(run.checked(true));
    }
    run = next(run.inventoried(clean()));
    assert_eq!(run.step, WaveStep::Complete);
    run
}

#[test]
fn a_soak_is_available_only_where_each_wave_was_clean() {
    let mut report =
        LinuxKvmSoakReport::initial("/evidence".to_string(), "x86_64".to_string(), 25);
    assert!(!report.refuse_iterations());
    report.artifacts = artifacts();
    report.source_cgroups_path = Some("/soak".to_string());
    let unknown = report.record_service(process(99, 1), Err("no peer".to_string()));
    assert_eq!(unknown.unwrap_err(), "no peer");
    assert!(report.socket_peer.is_none());
    report.record_service(process(100, 1), Ok(process(100, 1))).expect("service");
    assert_eq!(report.record_scope(Err("no scope".to_string())).unwrap_err(), "no scope");
    assert!(!report.qualification_scope_verified);
    report.record_scope(Ok(())).expect("scope");
    report.record_baseline(9);
    let mut previous: Option<ContainerTarget> = None;
    while let Some(iteration) = report.next_iteration() {
        let run = wave(iteration, previous);
        previous = run.wave.target.clone();
        report.add_wave(run);
    }
    assert_eq!(report.waves.len(), 25);
    assert_eq!(report.record_aftermath(9, Err("no list".to_string())).unwrap_err(), "no list");
    assert_eq!(report.console_files_created, 0);
    let mut inventory = clean();
    inventory.console_files = 25;
    report.record_aftermath(9, Ok(inventory)).expect("aftermath");
    report.record_shutdown(true, false).expect("clean shutdown");
    report.conclude();
    assert_eq!(report.reason, None);
    assert!(report.is_success());
    report.withdraw("not written".to_string());
    assert!(!report.is_success());
}

#[test]
fn a_replay_repeats_the_whole_record() {
    let created = record(ContainerState::Created, 1);
    assert!(created.same(&created.clone()));
    let mut other = created.clone();
    other.document = "{\"bundle\":\"/other\"}".to_string();
    assert!(!created.same(&other));
    let run = WaveRun::start(1, "/soak", "machine".to_string(), None);
    let (failed, progress) = run.created(created.clone(), &other, false);
    assert!(matches!(progress, Progress::Failed(_)));
    assert!(!failed.wave.create_replayed);
    let mut report =
        LinuxKvmSoakReport::initial("/evidence".to_string(), "x86_64".to_string(), 25);
    report.add_wave(failed);
    assert_eq!(report.failure_iteration, Some(1));
}

#[test]
fn too_few_processes_are_not_recorded() {
    let expected = "Host Service did not expose KVM shim and worker descendants";
    let run = WaveRun::start(1, "/soak", "machine".to_string(), None);
    assert!(!run.wave.create_replayed && !run.wave.kill_replayed && !run.wave.wait_replayed);
    assert!(!run.wave.delete_replayed && !run.wave.vm_processes_reaped);
    let created = record(ContainerState::Created, 1);
    let run = next(run.created(created.clone(), &created, false));
    let run = next(run.fenced(true));
    let (run, progress) = run.observed(vec![process(200, 100)]);
    assert!(matches!(progress, Progress::Failed(reason) if reason == expected));
    assert!(run.wave.live_vm_processes.is_empty());
    let mut run = RecoveryRun::start("machine".to_string(), initial().recovery);
    run = next(run.first_identified(process(100, 1)));
    run = next(run.first_peer(process(100, 1)));
    run = next(run.first_scope());
    run = next(run.created(created.clone(), &created, false));
    run = next(run.started(ContainerState::Running));
    run = next(run.marked());
    let (run, progress) = run.observed(vec![process(200, 100)]);
    assert!(matches!(progress, Progress::Failed(reason) if reason == expected));
    assert!(run.evidence.live_vm_processes.is_empty());
}

#[test]
fn a_failed_wave_names_its_iteration() {
    let mut report =
        LinuxKvmSoakReport::initial("/evidence".to_string(), "x86_64".to_string(), 25);
    let run = WaveRun::start(1, "/soak", "machine".to_string(), None);
    let created = record(ContainerState::Created, 1);
    let (run, progress) = run.created(created.clone(), &created, true);
    assert!(matches!(progress, Progress::Failed(_)));
    report.add_wave(run);
    assert_eq!(report.failure_iteration, Some(1));
    assert!(report.record_shutdown(false, false).is_err());
    report.conclude();
    assert_eq!(
        report.reason.as_deref(),
        Some("Linux KVM soak report failed its final audit")
    );
    let mut few = LinuxKvmSoakReport::initial("/e".to_string(), "x86_64".to_string(), 0);
    assert!(few.refuse_iterations());
    assert!(few.reason.is_some());
}

#[test]
fn soak_sources_are_checked() {
    let root = |path: &str, readonly: bool| {
        Some(SourceRoot {
            path: path.to_string(),
            readonly,
        })
    };
    assert!(check_source_root(&root("rootfs", false)).is_ok());
    assert!(check_source_root(&root("rootfs", true)).is_err());
    assert!(check_source_root(&root("other", false)).is_err());
    assert!(check_source_root(&None).is_err());
    assert!(check_source_rootfs("/b/rootfs", "/b").is_ok());
    assert!(check_source_rootfs("/b", "/b").is_err());
    assert!(check_source_rootfs("/c/rootfs", "/b").is_err());
    assert!(check_source_cgroups(&Some("/soak".to_string())).is_ok());
    assert!(check_source_cgroups(&Some(String::new())).is_err());
    assert!(check_source_cgroups(&None).is_err());
    assert_eq!(
        check_source_marker("/b/rootfs", true).unwrap(),
        "/b/rootfs/.a3s-oci-create-start-smoke"
    );
    assert!(check_source_marker("/b/rootfs", false).is_err());
    assert!(valid_cgroups_path("/soak"));
    assert!(!valid_cgroups_path(""));
}

fn driver(can_launch: bool, scope: &str) -> AdvertisedDriver {
    let mut evidence = Evidence::new();
    evidence.insert("qualification_scope", scope);
    AdvertisedDriver {
        driver: DriverKind::LibkrunKvm,
        status: CapabilityStatus::Available,
        readiness: DriverReadiness::Experimental,
        can_launch,
        evidence,
    }
}

#[test]
fn services_advertise_one_narrow_driver() {
    let only = vec![driver(false, "other"), driver(true, "recovery")];
    assert!(verify_qualification_scope(&only, "recovery").is_ok());
    assert_eq!(
        verify_qualification_scope(&only, "soak").unwrap_err(),
        "KVM qualification Host Service did not retain its narrow scope"
    );
    let two = vec![driver(true, "recovery"), driver(true, "recovery")];
    assert_eq!(
        verify_qualification_scope(&two, "recovery").unwrap_err(),
        "KVM qualification Host Service advertised 2 launchable drivers, expected one"
    );
}

#[test]
fn markers_are_decoded_and_compared() {
    assert!(check_marker_bytes(&Some(MARKER_TEXT.as_bytes().to_vec()), "unexpected").is_ok());
    assert_eq!(check_marker_bytes(&None, "unexpected").unwrap_err(), "unexpected");
    let encoded = "YTNzLW9jaS1jcmVhdGUtc3RhcnQtdXNlci10aW1lLXYxCg==".to_string();
    assert!(check_marker(&Some(encoded), "malformed: ", "unexpected").is_ok());
    let error = check_marker(&Some("%".to_string()), "malformed: ", "unexpected").unwrap_err();
    assert!(error.starts_with("malformed: Invalid"), "{error}");
    assert_eq!(
        check_marker(&Some("YQ==".to_string()), "malformed: ", "unexpected").unwrap_err(),
        "unexpected"
    );
    let absent = Error::new(ErrorCode::NotFound, "no file".to_string());
    assert!(matches!(
        marker_unavailable(&absent, false, "marker", "late"),
        MarkerWait::Again
    ));
    assert!(matches!(
        marker_unavailable(&absent, true, "marker", "late"),
        MarkerWait::Failed(reason) if reason == "late"
    ));
    let denied = Error::new(ErrorCode::PermissionDenied, "denied".to_string());
    assert!(matches!(
        marker_unavailable(&denied, false, "marker", "late"),
        MarkerWait::Failed(reason) if reason == call_error("marker", &denied)
    ));
}

#[test]
fn answers_of_a_service_are_judged() {
    let refuse = |code: ErrorCode| Reply::Refused(Error::new(code, "refused".to_string()));
    assert!(call_result("start", Reply::Answered).is_ok());
    assert!(call_result("start", Reply::TimedOut).is_err());
    assert!(call_result("start", refuse(ErrorCode::Internal)).is_err());
    assert!(state_is_missing(refuse(ErrorCode::NotFound), "cause").unwrap());
    assert!(!state_is_missing(Reply::Answered, "cause").unwrap());
    assert!(stale_target_rejected(refuse(ErrorCode::Conflict), "cause").unwrap());
    assert!(stale_target_rejected(refuse(ErrorCode::Internal), "cause").is_err());
    assert!(descendants_ready(2, false, "missing").unwrap());
    assert!(!descendants_ready(1, false, "missing").unwrap());
    assert_eq!(descendants_ready(1, true, "missing").unwrap_err(), "missing");
    assert_eq!(operation("kvm", "7-8", "create"), "kvm-7-8-create");
    assert_eq!(wave_nonce("7-8", 3), "7-8-00003");
}

#[test]
fn recovery_reports_show_the_kill() {
    let target = ContainerTarget::exact("machine", 3);
    assert_eq!(
        recovery_report_path("/r", &target).unwrap(),
        "/r/recovery/machine-3.json"
    );
    assert!(recovery_report_path("/r", &ContainerTarget::current("machine")).is_err());
    let kept = |status: ExitStatus| {
        vec![RecoveryRecord {
            target: ContainerTarget::exact("machine", 3),
            config_digest: digest("5"),
            init_exit_status: status,
        }]
    };
    assert!(report_shows_kill(&kept(killed()), &target, &digest("5")));
    assert!(!report_shows_kill(&kept(ExitStatus::exited(0)), &target, &digest("5")));
    assert!(!report_shows_kill(&kept(killed()), &target, &digest("6")));
    assert!(report_file_is_private(FileKind::Regular, 5, 0o600, 5));
    assert!(!report_file_is_private(FileKind::Regular, 5, 0o640, 5));
    assert!(!report_file_is_private(FileKind::Symlink, 5, 0o600, 5));
}

#[test]
fn qualifications_are_laid_out_below_their_work_parent() {
    let layout = plan_layout("/work", "kvm", "7-8", "socket").expect("layout");
    assert_eq!(layout.evidence_root, "/work/kvm-7-8");
    assert_eq!(layout.service_root, "/work/kvm-7-8/service");
    assert!(plan_layout(&format!("/{}", "w".repeat(100)), "kvm", "7-8", "socket").is_err());
    assert_eq!(
        unique_nonce(7, u128::MAX),
        "7-340282366920938463463374607431768211455"
    );
    assert!(check_source_revision(Some("a".repeat(40))).is_ok());
    assert!(check_source_revision(None).is_err());
    assert!(check_architecture("x86_64").is_ok());
    assert!(check_architecture("riscv64").is_err());
    assert!(check_plain_directory("/w", "work", FileKind::Directory).is_ok());
    assert!(check_plain_directory("/w", "work", FileKind::Symlink).is_err());
    assert!(check_plain_file("/f", "file", FileKind::Regular, true, 0o755).is_ok());
    assert!(check_plain_file("/f", "file", FileKind::Regular, true, 0o644).is_err());
    assert!(check_plain_file("/f", "file", FileKind::Regular, false, 0o644).is_ok());
    assert!(check_canonical("/f", "file", "/f", NOT_CANONICAL).is_ok());
    assert!(check_canonical("/f", "file", "/g", NOT_CANONICAL).is_err());
}

fn plain(path: &str, kind: FileKind, mode: u32) -> PlainFacts {
    PlainFacts {
        inspected: Ok((kind, mode)),
        canonical: Ok(path.to_string()),
    }
}

fn qualification_inputs() -> QualificationInputs {
    QualificationInputs {
        host_service_executable: "/a3s-oci".to_string(),
        shim: "/shim".to_string(),
        system_image_manifest: "/assets/system-image.json".to_string(),
        bundle: "/bundle".to_string(),
        work_parent: "/work".to_string(),
        source_revision: Some("a".repeat(40)),
    }
}

fn qualification_facts() -> QualificationFacts {
    QualificationFacts {
        architecture: "x86_64".to_string(),
        work_parent: plain("/work", FileKind::Directory, 0o755),
        executable: plain("/a3s-oci", FileKind::Regular, 0o755),
        shim: plain("/shim", FileKind::Regular, 0o755),
        manifest: plain("/assets/system-image.json", FileKind::Regular, 0o644),
        bundle: plain("/bundle", FileKind::Directory, 0o755),
        bundle_digest: Ok(digest("4")),
        executable_sha256: Ok("1".repeat(64)),
        shim_sha256: Ok("2".repeat(64)),
        manifest_sha256: Ok("3".repeat(64)),
        nonce: Ok("7-8".to_string()),
    }
}

fn refusal(inputs: QualificationInputs, facts: QualificationFacts) -> String {
    PreparedQualification::open(inputs, facts, "kvm", "socket").expect_err("refused")
}

#[test]
fn checked_qualifications_carry_their_artifacts() {
    let prepared =
        PreparedQualification::open(qualification_inputs(), qualification_facts(), "kvm", "socket")
            .expect("prepared");
    assert_eq!(prepared.evidence_root, "/work/kvm-7-8");
    assert_eq!(prepared.service_root, "/work/kvm-7-8/service");
    assert_eq!(prepared.nonce, "7-8");
    assert_eq!(prepared.artifacts.shim, artifacts().shim);
    assert_eq!(
        prepared.artifacts.host_service_executable_sha256,
        artifacts().host_service_executable_sha256
    );
    assert_eq!(
        prepared.artifacts.source_bundle_config_digest,
        artifacts().source_bundle_config_digest
    );
    assert_eq!(prepared.artifacts.source_revision, "a".repeat(40));
}

#[test]
fn wrong_qualifications_are_refused_before_anything_is_made() {
    let mut facts = qualification_facts();
    facts.architecture = "riscv64".to_string();
    facts.nonce = Err("no clock".to_string());
    assert_eq!(
        refusal(qualification_inputs(), facts),
        "unsupported Linux KVM qualification architecture: riscv64"
    );

    let mut facts = qualification_facts();
    facts.shim.inspected = Err("gone".to_string());
    assert_eq!(
        refusal(qualification_inputs(), facts),
        "failed to inspect isolated libkrun shim /shim: gone"
    );

    let mut facts = qualification_facts();
    facts.bundle.canonical = Err("loop".to_string());
    assert_eq!(
        refusal(qualification_inputs(), facts),
        "failed to resolve source OCI bundle /bundle: loop"
    );

    let mut facts = qualification_facts();
    facts.work_parent = plain("/work", FileKind::Symlink, 0o777);
    assert_eq!(
        refusal(qualification_inputs(), facts),
        "work parent is not a plain directory: /work"
    );

    let mut facts = qualification_facts();
    facts.bundle_digest = Err("no config".to_string());
    assert_eq!(
        refusal(qualification_inputs(), facts),
        "failed to validate source OCI bundle: no config"
    );

    let mut inputs = qualification_inputs();
    inputs.source_revision = None;
    assert_eq!(
        refusal(inputs, qualification_facts()),
        "source revision must be 40 lowercase hexadecimal digits"
    );

    let mut facts = qualification_facts();
    facts.manifest_sha256 = Err("unreadable".to_string());
    assert_eq!(refusal(qualification_inputs(), facts), "unreadable");
}

fn source_facts() -> SourceFacts {
    let root = SourceRoot {
        path: "rootfs".to_string(),
        readonly: false,
    };
    SourceFacts {
        bundle: Ok(("/b".to_string(), Some(root))),
        rootfs: Ok("/b/rootfs".to_string()),
        cgroups_path: Some("/soak".to_string()),
        marker_absent: Ok(true),
    }
}

#[test]
fn a_soak_runs_a_writable_source_without_a_marker() {
    let profile = SourceProfile::open(source_facts()).expect("profile");
    assert_eq!(profile.marker, "/b/rootfs/.a3s-oci-create-start-smoke");
    assert_eq!(profile.cgroups_path, "/soak");

    let mut facts = source_facts();
    facts.bundle = Err("no config".to_string());
    assert_eq!(
        SourceProfile::open(facts).expect_err("bundle"),
        "failed to reload KVM soak bundle: no config"
    );
    let mut facts = source_facts();
    facts.rootfs = Ok("/elsewhere".to_string());
    facts.cgroups_path = None;
    assert_eq!(
        SourceProfile::open(facts).expect_err("rootfs"),
        "KVM soak rootfs escapes its source bundle"
    );
    let mut facts = source_facts();
    facts.rootfs = Err("gone".to_string());
    assert_eq!(
        SourceProfile::open(facts).expect_err("rootfs"),
        "failed to resolve KVM soak rootfs: gone"
    );
    let mut facts = source_facts();
    facts.cgroups_path = None;
    facts.marker_absent = Ok(false);
    assert_eq!(
        SourceProfile::open(facts).expect_err("cgroups"),
        "KVM soak bundle must declare a cgroupsPath"
    );
    let mut facts = source_facts();
    facts.marker_absent = Ok(false);
    assert_eq!(
        SourceProfile::open(facts).expect_err("marker"),
        "refusing to overwrite existing KVM soak marker /b/rootfs/.a3s-oci-create-start-smoke"
    );
}
