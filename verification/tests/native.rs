//! The native Linux driver, and what outlives its owner.

use a3s_oci_runtime::error::{Error, ErrorCode};
use a3s_oci_runtime::linux_kvm_recovery_smoke::runner::Owner;
use a3s_oci_runtime::linux_kvm_recovery_smoke::soak_runner::Progress;
use a3s_oci_runtime::linux_native_live_recovery_smoke::capture::{
    check_download, check_payload, check_upload, not_observed, retained_filesystem_path,
    retained_filesystem_payload, retained_upload, Capture, OutputChunk, OutputStream,
};
use a3s_oci_runtime::linux_kvm_recovery_smoke::prepare::PlainFacts;
use a3s_oci_runtime::linux_native_live_recovery_smoke::prepare::{
    check_absolute_path, LiveFacts, PreparedLive,
};
use a3s_oci_runtime::linux_native_live_recovery_smoke::report::{
    LinuxNativeLiveRecoveryEvidence, LinuxNativeLiveRecoverySmokeConfig,
    LinuxNativeLiveRecoverySmokeReport,
};
use a3s_oci_runtime::linux_native_live_recovery_smoke::runner::{
    echo_line, echoed_line, live_init_pid, new_exec_id, owner_to_stop, retained_exec_id, LiveRun,
    LiveStep,
};
use a3s_oci_runtime::model::{
    CapabilityStatus, ContainerRecord, ContainerState, ContainerTarget, DriverKind,
    DriverReadiness, ExitStatus, IsolationClass,
};
use a3s_oci_runtime::native_checkpoint::state::FileKind;
use a3s_oci_runtime::native_control::{EXEC_LISTENER_FD, INIT_LOG_FD, PTY_LISTENER_FD};
use a3s_oci_runtime::native_linux_driver::{
    native_attachment_capabilities, observe_launcher, observe_live_init, open_capability,
    supervised_wait_status, Arrival, AttachmentExtension, AttachmentSchema, CriuEvidence, Dispatch,
    DriverCall, DriverCapability, DriverRecovery, DriverState, Evidence, NativeLinuxDriver,
    OpenMode, RecoveryEvent, RecoveryState, RecoveryStep, NETWORK_ENFORCEMENT_EXTENSION_VERSION,
    TEE_LAUNCH_EXTENSION_VERSION,
};
use a3s_oci_runtime::native_recovery_smoke::{
    append_reason, check_private_directory, check_ready_path,
    delegated_cgroup_has_no_runtime_children, DelegationEntry, KillReplay,
    NativeLinuxRecoveryPoint, OwnerProcess, OwnerRun, OwnerStep, RecoveredState,
    RecoveryDriverAccess, Replacement, ResumeRun, ResumeStep, StateReply, WaitReply,
};
use a3s_oci_runtime::operations::RuntimeOperation;
use a3s_oci_runtime::process::NativeLinuxProcessIdentity;

fn next<T>(outcome: (T, Progress)) -> T {
    let (after, progress) = outcome;
    assert!(matches!(progress, Progress::Next), "{progress:?}");
    after
}

#[test]
fn network_attachment_capability_requires_rootful_device_authority() {
    let rootful = native_attachment_capabilities(true);
    assert!(rootful.supports_schema(AttachmentSchema::V2));
    assert!(rootful.supports_schema(AttachmentSchema::V3));
    assert!(rootful.supports_extension(
        AttachmentExtension::NetworkEnforcement,
        NETWORK_ENFORCEMENT_EXTENSION_VERSION,
    ));

    let rootless = native_attachment_capabilities(false);
    assert!(rootless.supports_schema(AttachmentSchema::V2));
    assert!(!rootless.supports_schema(AttachmentSchema::V3));
    assert!(!rootless.supports_extension(
        AttachmentExtension::NetworkEnforcement,
        NETWORK_ENFORCEMENT_EXTENSION_VERSION,
    ));
    for capabilities in [rootful, rootless] {
        assert!(!capabilities
            .supports_extension(AttachmentExtension::AmdSevSnpLaunch, TEE_LAUNCH_EXTENSION_VERSION));
        assert!(!capabilities
            .supports_extension(AttachmentExtension::IntelTdxLaunch, TEE_LAUNCH_EXTENSION_VERSION));
    }
}

#[test]
fn guest_init_finds_its_descriptors_in_order() {
    assert_eq!([EXEC_LISTENER_FD, PTY_LISTENER_FD, INIT_LOG_FD], [3, 4, 5]);
}

fn capability() -> DriverCapability {
    DriverCapability {
        status: CapabilityStatus::Available,
        reason: None,
        readiness: DriverReadiness::Unavailable,
        evidence: Evidence::new(),
    }
}

fn driver() -> NativeLinuxDriver {
    NativeLinuxDriver::open_experimental(capability(), true).expect("driver")
}

fn record(id: &str, generation: u64, status: ContainerState) -> ContainerRecord {
    ContainerRecord {
        id: id.to_string(),
        generation,
        status,
        pid: Some(42),
        paused: false,
        driver: DriverKind::NativeLinux,
        isolation: IsolationClass::SharedHostKernel,
        config_digest: format!("sha256:{}", "5".repeat(64)),
        attachments_digest: None,
        document: "{}".to_string(),
    }
}

#[test]
fn drivers_are_opened_with_their_evidence() {
    let opened = open_capability(capability(), OpenMode::RootlessDevicePolicy).expect("capability");
    assert_eq!(opened.readiness, DriverReadiness::Experimental);
    assert_eq!(opened.evidence.get("kvm_required"), Some("false"));
    assert_eq!(
        opened.evidence.get("rootless_device_policy"),
        Some("parent-bound-helper-v1")
    );
    assert_eq!(opened.evidence.get("opt_in"), None);
    let mut refused = capability();
    refused.status = CapabilityStatus::Unavailable;
    refused.reason = Some("no cgroup2".to_string());
    let error = open_capability(refused, OpenMode::Experimental).unwrap_err();
    assert_eq!(error.code, ErrorCode::Unavailable);
    assert_eq!(error.message, "no cgroup2");
    let native = driver();
    assert!(!native.has_checkpoint());
    assert!(!native.operations().contains(&RuntimeOperation::Checkpoint));
    let criu = CriuEvidence {
        format_name: "native-linux-criu".to_string(),
        format_version: 1,
        tool_version: "4.2.1".to_string(),
        tool_digest: format!("sha256:{}", "6".repeat(64)),
        driver_build_digest: format!("sha256:{}", "7".repeat(64)),
        source_revision: None,
    };
    let native =
        NativeLinuxDriver::open_experimental_with_criu(capability(), true, criu).expect("driver");
    assert!(native.has_checkpoint());
    assert!(native.check_backend("checkpoint").is_ok());
    assert!(native.check_restore_validation().is_ok());
    assert_eq!(
        native
            .dispatch(DriverCall::Checkpoint, &ContainerTarget::exact("some", 1))
            .unwrap(),
        Dispatch::Agent
    );
    assert!(native
        .check_arrival(Arrival::Restore, IsolationClass::SharedHostKernel, "some")
        .is_ok());
    assert!(native
        .check_arrival(Arrival::Restore, IsolationClass::DedicatedVm, "some")
        .is_err());
    assert!(native.operations().contains(&RuntimeOperation::Restore));
    assert_eq!(
        native.capability().evidence.get("checkpoint_format"),
        Some("native-linux-criu-v1")
    );
    assert_eq!(
        native.capability().evidence.get("checkpoint_source_revision"),
        Some("unavailable")
    );
}

#[test]
fn drivers_without_a_backend_refuse_checkpoints() {
    let drivers = vec![
        NativeLinuxDriver::open_experimental(capability(), false).expect("driver"),
        NativeLinuxDriver::open_experimental_with_rootless_cgroup_delegation(capability(), false)
            .expect("driver"),
        NativeLinuxDriver::open_experimental_with_rootless_device_policy(capability(), false)
            .expect("driver"),
    ];
    for native in &drivers {
        assert_eq!(native.operations().len(), 20);
        assert!(!native.operations().contains(&RuntimeOperation::Checkpoint));
        assert!(!native.operations().contains(&RuntimeOperation::Restore));
        let checkpoint = native
            .dispatch(DriverCall::Checkpoint, &ContainerTarget::exact("some", 1))
            .unwrap_err();
        assert_eq!(checkpoint.code, ErrorCode::Unsupported);
        assert_eq!(checkpoint.operation.as_deref(), Some("native-linux-checkpoint"));
        let restore = native
            .check_arrival(Arrival::Restore, IsolationClass::DedicatedVm, "some")
            .unwrap_err();
        assert_eq!(restore.code, ErrorCode::Unsupported);
        assert_eq!(restore.message, "operation is not supported: restore");
        assert_eq!(restore.operation.as_deref(), Some("native-linux-restore"));
        let validation = native.check_restore_validation().unwrap_err();
        assert_eq!(validation.code, ErrorCode::Unsupported);
        assert_eq!(validation.operation.as_deref(), Some("native-linux-restore"));
    }
    assert_eq!(
        drivers[2].capability().evidence.get("rootless_device_policy"),
        Some("parent-bound-helper-v1")
    );
    let mut refused = capability();
    refused.status = CapabilityStatus::Unavailable;
    let error = NativeLinuxDriver::open_experimental_with_rootless_device_policy(refused, false)
        .unwrap_err();
    assert_eq!(error.message, "native Linux prerequisites are unavailable");
}

#[test]
fn recovered_containers_can_only_be_looked_at_and_deleted() {
    let mut native = driver();
    let stopped = record("gone", 4, ContainerState::Running);
    assert!(matches!(
        native.begin_recovery(),
        RecoveryState::At(RecoveryStep::QueryState)
    ));
    let state = native.recover(
        &stopped,
        RecoveryStep::QueryState,
        RecoveryEvent::Failed(Error::new(ErrorCode::NotFound, "unknown".to_string())),
    );
    assert!(matches!(state, RecoveryState::At(RecoveryStep::RecoverStale)));
    let state = native.recover(&stopped, RecoveryStep::RecoverStale, RecoveryEvent::StaleStopped);
    assert!(matches!(
        state,
        RecoveryState::Recovered(DriverRecovery::Observed(found)) if found == DriverState::stopped()
    ));
    let target = ContainerTarget::exact("gone", 4);
    assert_eq!(native.dispatch(DriverCall::State, &target).unwrap(), Dispatch::Stopped);
    assert_eq!(native.dispatch(DriverCall::Kill, &target).unwrap(), Dispatch::Stopped);
    assert_eq!(
        native.dispatch(DriverCall::Processes, &target).unwrap(),
        Dispatch::NoProcesses
    );
    assert_eq!(
        native.dispatch(DriverCall::Delete, &target).unwrap(),
        Dispatch::DeleteStopped
    );
    assert!(native.dispatch(DriverCall::Wait, &target).is_err());
    assert!(native.dispatch(DriverCall::Exec, &target).is_err());
    let other = native
        .dispatch(DriverCall::State, &ContainerTarget::exact("gone", 5))
        .unwrap_err();
    assert_eq!(
        other.message,
        "container gone has native recovery evidence for generation Some(Generation(4)), \
         not requested generation Some(Generation(5))"
    );
    assert!(native
        .check_arrival(Arrival::Create, IsolationClass::SharedHostKernel, "gone")
        .is_err());
    assert!(native
        .check_arrival(Arrival::Create, IsolationClass::SharedHostKernel, "other")
        .is_ok());
    assert!(native
        .check_arrival(Arrival::Restore, IsolationClass::DedicatedVm, "other")
        .is_err());
    native.forget_recovered(&target);
    assert_eq!(native.dispatch(DriverCall::Exec, &target).unwrap(), Dispatch::Agent);
}

#[test]
fn live_containers_keep_their_session() {
    let mut native = driver();
    let running = record("kept", 4, ContainerState::Running);
    let state = native.recover(&running, RecoveryStep::RecoverStale, RecoveryEvent::StaleLive);
    assert!(matches!(state, RecoveryState::At(RecoveryStep::ObserveLive)));
    let seen = observe_live_init(ContainerState::Running, 42, Ok(true)).unwrap();
    assert!(seen.paused);
    let state = native.recover(&running, RecoveryStep::ObserveLive, RecoveryEvent::Observed(seen));
    assert!(matches!(state, RecoveryState::Recovered(DriverRecovery::Observed(_))));
    let target = ContainerTarget::exact("kept", 4);
    assert_eq!(native.dispatch(DriverCall::Exec, &target).unwrap(), Dispatch::Session);
    assert!(native.dispatch(DriverCall::Update, &target).is_err());
    let again = native.recover(&running, RecoveryStep::ObserveLive, RecoveryEvent::Observed(seen));
    assert!(matches!(again, RecoveryState::Recovered(_) | RecoveryState::Refused(_)));
    native.forget_live("kept");
    assert_eq!(native.dispatch(DriverCall::Exec, &target).unwrap(), Dispatch::Agent);
    let none = native.recover(&running, RecoveryStep::RecoverStale, RecoveryEvent::NoStale);
    assert!(matches!(none, RecoveryState::Refused(error)
        if error.code == ErrorCode::FailedPrecondition));
}

#[test]
fn supervised_statuses_are_decoded() {
    assert_eq!(
        supervised_wait_status(7 << 8, "op").unwrap(),
        ExitStatus::exited(7)
    );
    assert_eq!(
        supervised_wait_status(9, "op").unwrap(),
        ExitStatus::signaled(9, false)
    );
    let error = supervised_wait_status(0x137f, "op").unwrap_err();
    assert_eq!(
        error.message,
        "supervised process returned unsupported wait status 4991"
    );
    assert_eq!(observe_launcher(None), DriverState::stopped());
    assert_eq!(observe_launcher(Some(42)), DriverState::created(42));
    let unavailable = Error::new(ErrorCode::Unavailable, "no freezer".to_string());
    let state = observe_live_init(ContainerState::Creating, 42, Err(unavailable)).unwrap();
    assert_eq!(state, DriverState::created(42));
    let broken = Error::new(ErrorCode::Internal, "bad".to_string());
    assert!(observe_live_init(ContainerState::Running, 42, Err(broken)).is_err());
}

fn owner() -> OwnerProcess {
    OwnerProcess {
        pid: 77,
        start_time_ticks: 5,
        effective_uid: 0,
        effective_gid: 0,
    }
}

fn ready_owner(point: NativeLinuxRecoveryPoint) -> OwnerRun {
    OwnerRun::start(point, false).created(
        ContainerTarget::exact("owned", 1),
        ContainerState::Created,
        Some(42),
        "digest".to_string(),
        Ok(owner()),
    )
}

#[test]
fn owners_publish_what_they_saw() {
    let run = ready_owner(NativeLinuxRecoveryPoint::Running);
    assert_eq!(run.step, OwnerStep::Start);
    let run = run.started(ContainerState::Running, Some(42));
    assert_eq!(run.step, OwnerStep::Publish);
    let ready = run.ready.clone().expect("readiness");
    assert!(ready.running_observed);
    assert_eq!(ready.init_pid, 42);
    let run = run.published();
    assert_eq!(run.step, OwnerStep::Linger);
    let run = run.lingered();
    assert_eq!(run.step, OwnerStep::CleanUp);
    assert_eq!(run.failure.expect("timeout").code, ErrorCode::DeadlineExceeded);
    let other = ready_owner(NativeLinuxRecoveryPoint::Running).started(ContainerState::Running, Some(43));
    assert_eq!(other.step, OwnerStep::Failed);
    let hook = ready_owner(NativeLinuxRecoveryPoint::StartContainerHook);
    assert_eq!(hook.step, OwnerStep::Publish);
    assert!(!hook.ready.clone().expect("readiness").running_observed);
    let hook = hook.published().hook_returned(Ok(()));
    assert_eq!(
        hook.failure.expect("failure").message,
        "startContainer Hook completed before qualification owner death"
    );
    let missing = OwnerRun::start(NativeLinuxRecoveryPoint::Running, false).created(
        ContainerTarget::exact("owned", 1),
        ContainerState::Created,
        None,
        "digest".to_string(),
        Ok(owner()),
    );
    assert_eq!(missing.step, OwnerStep::Failed);
    let begin = || OwnerRun::start(NativeLinuxRecoveryPoint::Running, false);
    let answer = |run: OwnerRun, status| {
        let target = ContainerTarget::exact("owned", 1);
        run.created(target, status, Some(42), "digest".to_string(), Err("no stat".to_string()))
    };
    let unknown = answer(begin(), ContainerState::Created);
    assert_eq!(unknown.step, OwnerStep::Failed);
    assert_eq!(unknown.failure.expect("failure").message, "no stat");
    assert_eq!(
        answer(begin(), ContainerState::Running).failure.expect("failure").message,
        "native recovery owner create did not retain the OCI created barrier"
    );
}

fn resume() -> ResumeRun {
    ResumeRun::start(
        ContainerTarget::exact("owned", 1),
        &RecoveryDriverAccess::Host,
        Replacement {
            pid: 88,
            effective_uid: 0,
            effective_gid: 0,
        },
    )
}

fn complete_resume(run: ResumeRun) -> ResumeRun {
    let stopped = DriverState::stopped();
    let mut run = run
        .bundle_loaded(Ok(()))
        .layout_prepared(Ok(()))
        .driver_opened(Ok(()))
        .service_opened(Ok(()));
    run = run.state_read(
        Ok(RecoveredState {
            status: ContainerState::Stopped,
            pid: None,
            config_digest: "digest".to_string(),
        }),
        "digest",
    );
    run = run.processes_listed(Ok(true));
    run = run.killed(KillReplay::Answered(stopped, stopped));
    run = run.waited(WaitReply::Refused(
        ErrorCode::FailedPrecondition,
        "owned was safely terminated, but no authenticated parent remained to see its end"
            .to_string(),
        "refused".to_string(),
    ));
    run.deleted(Ok(()))
        .looked_for(StateReply::Missing)
        .shut_down(Ok(()))
        .executor_checked(Ok(true))
}

#[test]
fn replacements_recover_without_inventing_an_exit() {
    let run = complete_resume(resume()).delegation_checked(None);
    assert_eq!(run.step, ResumeStep::Done);
    assert_eq!(run.reason, None);
    let report = run.conclude().expect("report");
    assert_eq!(report.reason, None);
    assert!(report.is_success());
    assert!(resume().conclude().is_none());
}

#[test]
fn replacements_keep_every_reason() {
    let run = resume()
        .bundle_loaded(Ok(()))
        .layout_prepared(Ok(()))
        .driver_opened(Ok(()))
        .service_opened(Ok(()))
        .state_read(Err("lost".to_string()), "digest")
        .processes_listed(Err("denied".to_string()));
    assert_eq!(
        run.reason.as_deref(),
        Some("recovered state failed: lost; recovered process inventory failed: denied")
    );
    let abandoned = resume().abandon("stopped early".to_string());
    assert_eq!(abandoned.reason.as_deref(), Some("stopped early"));
    assert_eq!(
        append_reason(Some("a".to_string()), "b".to_string()).as_deref(),
        Some("a; b")
    );
    assert_eq!(append_reason(None, "b".to_string()).as_deref(), Some("b"));
}

#[test]
fn delegations_have_to_be_left_clean() {
    let leftover = |name: &str| {
        Ok(DelegationEntry {
            is_directory: true,
            name: Some(name.to_string()),
        })
    };
    assert!(delegated_cgroup_has_no_runtime_children(&Vec::new()).unwrap());
    assert!(delegated_cgroup_has_no_runtime_children(&vec![leftover("unrelated")]).unwrap());
    assert!(!delegated_cgroup_has_no_runtime_children(&vec![leftover("a3s-oci-1")]).unwrap());
    assert!(delegated_cgroup_has_no_runtime_children(&vec![Err("denied".to_string())]).is_err());
    let access = RecoveryDriverAccess::from_delegation(Some("/sys/fs/cgroup/a".to_string()));
    assert_eq!(access.delegation_root(), Some("/sys/fs/cgroup/a"));
    assert_eq!(access.open_mode(), OpenMode::RootlessCgroupDelegation);
    assert_eq!(
        RecoveryDriverAccess::from_delegation(None).open_mode(),
        OpenMode::Experimental
    );
    assert!(check_ready_path("/r/ready.json", false).is_ok());
    assert!(check_ready_path("/r/ready.json", true).is_err());
    assert!(check_private_directory("/r", "root", FileKind::Directory, 0o40700).is_ok());
    assert!(check_private_directory("/r", "root", FileKind::Directory, 0o40750).is_err());
}

#[test]
fn uploads_come_back_as_they_were() {
    assert!(retained_filesystem_path("n").contains('n'));
    let payload = retained_filesystem_payload("nonce");
    let size = payload.len() as u64;
    let upload = retained_upload("nonce");
    assert_ne!(upload.as_bytes(), payload.as_slice());
    assert_eq!(check_upload("nonce", size), None);
    assert!(check_upload("nonce", size + 1).is_some());
    assert_eq!(check_payload("nonce", &payload, size), None);
    assert_eq!(check_download("nonce", &Some(upload.clone()), size), None);
    assert!(check_download("nonce", &Some(upload), size + 1).is_some());
    assert!(check_download("nonce", &Some("%%%".to_string()), size).is_some());
    assert!(check_download("nonce", &None, size).is_some());
    assert!(check_download("other", &Some(retained_upload("nonce")), size).is_some());
}

fn chunk(stream: OutputStream, sequence: u64, data: &[u8]) -> OutputChunk {
    OutputChunk {
        stream,
        sequence,
        data: data.to_vec(),
    }
}

#[test]
fn output_is_collected_across_chunks() {
    let mut capture = Capture::new(3);
    capture.absorb(&vec![
        chunk(OutputStream::Stdout, 4, b"live-io"),
        chunk(OutputStream::Stderr, 5, b"noise"),
        chunk(OutputStream::Stdout, 6, b"-ready\n"),
    ]);
    assert!(capture.observed("live-io-ready\n"));
    assert!(!capture.observed("noise"));
    assert_eq!(capture.after_sequence, 6);
    assert!(not_observed("needle").contains("needle"));
}

fn live_run(nonce: &str) -> LiveRun {
    let (report, supervised) =
        LinuxNativeLiveRecoverySmokeReport::initial("/e".to_string(), "x86_64".to_string())
            .opt_in(true);
    assert!(supervised);
    LiveRun::start(nonce.to_string(), report.recovery)
}

fn init() -> NativeLinuxProcessIdentity {
    NativeLinuxProcessIdentity {
        pid: 42,
        process_group_id: 42,
        start_time_ticks: 9,
    }
}

fn complete_live() -> LinuxNativeLiveRecoveryEvidence {
    let mut run = live_run("n");
    let size = retained_filesystem_payload("n").len() as u64;
    run = next(run.created(ContainerState::Created, 1));
    run = next(run.started(ContainerState::Running, Some(42)));
    run = next(run.identified(init()));
    run = next(run.exec_started());
    run = next(run.exec_ready());
    run = next(run.exec_echoed());
    assert_eq!(owner_to_stop(run.step), Some(Owner::First));
    run = next(run.uploaded(size));
    assert_eq!(owner_to_stop(run.step), None);
    run = next(run.host_killed());
    run = next(run.survived(true));
    run = next(run.socket_reclaimed());
    run = next(run.state_recovered(ContainerState::Running, Some(42), true));
    run = next(run.processes_listed(&vec![retained_exec_id("n")]));
    run = next(run.written_after());
    run = next(run.echoed_after());
    run = next(run.new_exec_started());
    run = next(run.new_exec_ready());
    run = next(run.new_exec_echoed());
    run = next(run.downloaded(&Some(retained_upload("n")), size));
    run = next(run.container_killed());
    run = next(run.waited());
    run = next(run.deleted());
    run = next(run.terminated(true));
    assert_eq!(run.step, LiveStep::Complete);
    run.evidence
}

#[test]
fn live_containers_survive_their_host() {
    let evidence = complete_live();
    assert!(evidence.retained_filesystem_proven);
    assert!(evidence.retained_exec_io_proven);
    assert!(evidence.is_success());
    let mut run = live_run("n");
    run = next(run.created(ContainerState::Created, 1));
    let (_, progress) = run.started(ContainerState::Stopped, None);
    assert!(matches!(progress, Progress::Failed(_)));
    let (_, progress) = live_run("n").waited();
    assert!(matches!(progress, Progress::Misplaced));
    assert_ne!(retained_exec_id("n"), new_exec_id("n"));
    assert_eq!(live_init_pid(Some(42)), Some(42));
    assert_eq!(live_init_pid(Some(-1)), None);
    assert!(echo_line("before", "n").ends_with('\n'));
    assert_ne!(echo_line("before", "n"), echoed_line("before", "n"));
    assert!(check_absolute_path("/a", "agent").is_ok());
    assert_eq!(
        check_absolute_path("a", "agent").unwrap_err(),
        "agent must be an absolute path: a"
    );
}

fn plain(path: &str, kind: FileKind) -> PlainFacts {
    PlainFacts {
        inspected: Ok((kind, 0o755)),
        canonical: Ok(path.to_string()),
    }
}

fn live_config() -> LinuxNativeLiveRecoverySmokeConfig {
    LinuxNativeLiveRecoverySmokeConfig {
        agent: "/agent".to_string(),
        bundle: "/bundle".to_string(),
        work_parent: "/work".to_string(),
        source_revision: None,
    }
}

fn live_facts() -> LiveFacts {
    LiveFacts {
        work_parent: plain("/private/work", FileKind::Directory),
        agent: plain("/agent", FileKind::Regular),
        bundle: plain("/bundle", FileKind::Directory),
        bundle_loaded: Ok(()),
        executable: Ok(("/a3s-oci".to_string(), plain("/a3s-oci", FileKind::Regular))),
        nonce: Ok("7-8".to_string()),
    }
}

#[test]
fn live_attempts_are_laid_out_below_their_resolved_work_parent() {
    let prepared = PreparedLive::open(live_config(), live_facts()).expect("prepared");
    assert_eq!(prepared.evidence_root, "/private/work/nlr-7-8");
    assert_eq!(prepared.service_root, "/private/work/nlr-7-8/service");
    assert_eq!(prepared.executable, "/a3s-oci");
    assert_eq!(prepared.agent, "/agent");
    assert_eq!(prepared.bundle, "/bundle");
    assert_eq!(prepared.nonce, "7-8");
}

#[test]
fn wrong_live_attempts_are_refused_before_anything_is_made() {
    let mut facts = live_facts();
    facts.agent.inspected = Ok((FileKind::Regular, 0o644));
    assert_eq!(
        PreparedLive::open(live_config(), facts).expect_err("agent"),
        "native agent executable is not executable: /agent"
    );
    let mut config = live_config();
    config.bundle = "bundle".to_string();
    assert_eq!(
        PreparedLive::open(config, live_facts()).expect_err("bundle"),
        "source OCI bundle must be an absolute path: bundle"
    );
    let mut facts = live_facts();
    facts.bundle_loaded = Err("no config".to_string());
    facts.executable = Err("gone".to_string());
    assert_eq!(
        PreparedLive::open(live_config(), facts).expect_err("config"),
        "failed to validate source OCI bundle: no config"
    );
    let mut facts = live_facts();
    facts.executable = Err("gone".to_string());
    assert_eq!(
        PreparedLive::open(live_config(), facts).expect_err("executable"),
        "failed to resolve current Host Service executable: gone"
    );
    let mut facts = live_facts();
    facts.nonce = Err("no clock".to_string());
    assert_eq!(
        PreparedLive::open(live_config(), facts).expect_err("nonce"),
        "no clock"
    );
}
