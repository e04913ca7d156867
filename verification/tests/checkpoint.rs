//! Checkpoint artifacts, journals and the operations on them.

use a3s_oci_runtime::digest::{sha256_digest, sha256_hex, FileDigest};
use a3s_oci_runtime::error::{
    append_failure, checkpoint_error, Error, ErrorCode, IoKind, CHECKPOINT_OPERATION,
};
use a3s_oci_runtime::model::{
    CheckpointCompatibility, CheckpointFormat, ContainerRecord, ContainerState, ContainerTarget,
    DriverKind, HostPlatform, IsolationClass, RuntimeArtifact,
};
use a3s_oci_runtime::native_checkpoint::artifact::{
    encode_token, order_image_names, plan_manifest, validate_image_name, ArtifactMetadata,
    CheckpointArtifactManifest, CriuIdentity, ExternalMountManifestEntry, ImageManifestEntry,
    INVENTORY_IMAGE,
};
use a3s_oci_runtime::native_checkpoint::fingerprint::{CheckpointFingerprint, RestoreFingerprint};
use a3s_oci_runtime::native_checkpoint::framing::{
    copy_limit, frame_manifest, magic, manifest_bytes, owns_pending, pending_header, read_artifact,
    read_publication_token, ArtifactWriter, HeaderReader,
};
use a3s_oci_runtime::native_checkpoint::journal::{
    decode_token, is_final_journal_name, is_pending_journal_name, journal_name, operation_hash,
    pending_journal_name, pending_name, stage_name, valid_stage_name, JournalOutcome,
    JournalRecord, JournalResult,
};
use a3s_oci_runtime::native_checkpoint::operation::{
    acknowledge, planned_cleanup, AcknowledgeStep, CheckpointEvent, CheckpointState,
    CheckpointStep, Cleanup,
};
use a3s_oci_runtime::native_checkpoint::publication::{
    check_pending_name, ensure_absent, publish, remove_owned_pending, FileIdentity, LinkOutcome,
    PendingAction, PublishOutcome,
};
use a3s_oci_runtime::native_checkpoint::restore::{
    reset_work_entry, RecoverEvent, RecoverFacts, RecoverState, RecoverStep, RestoreEvent,
    RestoreState, RestoreStep, WorkEntry,
};
use a3s_oci_runtime::native_checkpoint::restore_journal::{
    collect_retained, find_record, reconcile_journal_entry, reconcile_stage_entry,
    AgentCreateRequest, AgentState, CheckpointReference, IoMode, JournalEntryAction, ProcessIo,
    RestoreJournalRecord, StageEntryAction,
};
use a3s_oci_runtime::native_checkpoint::source::{
    native_compatibility, native_format, require_exact_source, require_unchanged_source,
    source_metadata, validate_source_record, CheckpointSource,
};
use a3s_oci_runtime::native_checkpoint::state::{
    check_journal_capacity, cleanup_stage, initialize_marker, lock_conflict, FileFacts, FileKind,
    MarkerAction, MarkerRead, StageAction, StageDirectory,
};
use a3s_oci_runtime::native_checkpoint::tool::{
    bound_log, cgroup_root, dump_arguments, dump_option_identity, dump_options, dump_timeout,
    parse_version_output, require_root, require_success, restore_arguments,
    restore_option_identity, BoundedOutput, CommandReport, RestoreLaunch, RestoreMount,
};

fn digest(symbol: &str) -> String {
    format!("sha256:{}", symbol.repeat(64))
}

fn compatibility() -> CheckpointCompatibility {
    CheckpointCompatibility {
        driver: DriverKind::NativeLinux,
        isolation: IsolationClass::SharedHostKernel,
        platform: HostPlatform::Linux,
        architecture: "x86_64".to_string(),
        runtime_artifact: RuntimeArtifact {
            name: "a3s-oci-runtime".to_string(),
            version: "0.2.0".to_string(),
            digest: digest("2"),
            source_revision: None,
        },
        driver_build_digest: digest("1"),
        format: CheckpointFormat {
            name: "native-linux-criu".to_string(),
            version: 1,
        },
    }
}

fn metadata() -> ArtifactMetadata {
    ArtifactMetadata {
        source: ContainerTarget::exact("artifact-source", 7),
        source_config_digest: digest("1"),
        source_attachments_digest: digest("1"),
        compatibility: compatibility(),
        launcher_pid: 41,
        checkpoint_root_pid: 43,
        init_pid: 43,
        cgroup_path: "/sys/fs/cgroup/a3s-test".to_string(),
        criu: CriuIdentity {
            executable_digest: digest("1"),
            version: "4.2.1".to_string(),
            git_id: Some("v4.2.1".to_string()),
        },
        dump_options: vec!["--leave-running".to_string()],
        external_mounts: vec![
            ExternalMountManifestEntry::new("a3s-oci-device-0000", "/dev/null")
                .expect("external mount"),
        ],
    }
}

fn content(name: &str) -> &'static [u8] {
    if name == INVENTORY_IMAGE {
        b"inventory"
    } else {
        b"pages"
    }
}

fn packaged(token: [u8; 32]) -> (CheckpointArtifactManifest, Vec<u8>, String, u64) {
    let names = order_image_names(vec!["pages-1.img".to_string(), INVENTORY_IMAGE.to_string()])
        .expect("image names");
    let images: Vec<ImageManifestEntry> = names
        .iter()
        .map(|name| ImageManifestEntry {
            name: name.clone(),
            size_bytes: content(name).len() as u64,
            digest: sha256_digest(content(name)),
        })
        .collect();
    let manifest = plan_manifest(metadata(), images, &token).expect("manifest");
    let frame = frame_manifest(b"{\"manifest\":true}", &token).expect("framed manifest");
    let mut writer = ArtifactWriter::new();
    let mut bytes = frame.clone();
    writer.write(&frame).expect("write frame");
    for name in &names {
        let left = writer
            .write_image(name, content(name).len() as u64, content(name))
            .expect("write image");
        assert_eq!(left, 0);
        bytes.extend_from_slice(content(name));
    }
    let (whole, size) = writer.finish();
    (manifest, bytes, whole, size)
}

#[test]
fn packages_sorted_images_and_detects_content_drift() {
    let token = [7_u8; 32];
    let (manifest, mut bytes, whole, size) = packaged(token);
    assert!(size > 0);
    assert_eq!(size, bytes.len() as u64);
    assert_eq!(
        manifest
            .images
            .iter()
            .map(|entry| entry.name.as_str())
            .collect::<Vec<_>>(),
        vec![INVENTORY_IMAGE, "pages-1.img"]
    );
    assert_eq!(whole, sha256_digest(&bytes));
    assert_eq!(
        manifest_bytes(&bytes).expect("manifest bytes"),
        b"{\"manifest\":true}".to_vec()
    );
    let built = read_artifact(&bytes, Ok(manifest.clone()), whole.clone(), size, token)
        .expect("valid artifact");
    assert!(built.manifest.same(&manifest));
    assert_eq!(built.digest, whole);
    assert_eq!(built.size_bytes, size);
    for (name, body) in extracted(&bytes, manifest.clone(), &whole, size, token) {
        assert_eq!(body, content(&name));
    }

    *bytes.last_mut().unwrap() ^= 1;
    let drifted =
        read_artifact(&bytes, Ok(manifest.clone()), whole.clone(), size, token).unwrap_err();
    assert_eq!(
        drifted.message,
        "checkpoint artifact CRIU image pages-1.img has the wrong digest"
    );
    bytes.push(0);
    let longer =
        read_artifact(&bytes, Ok(manifest.clone()), whole.clone(), size, token).unwrap_err();
    assert_eq!(
        longer.message,
        "checkpoint artifact is not a regular file with the expected positive size"
    );
    *bytes.last_mut().unwrap() = 0;
    let place = bytes.len() - 2;
    bytes[place] ^= 1;
    let trailing = read_artifact(&bytes, Ok(manifest.clone()), whole.clone(), size + 1, token)
        .unwrap_err();
    assert_eq!(
        trailing.message,
        "checkpoint artifact contains unmanifested trailing bytes"
    );
    bytes.truncate(place);
    let cut =
        read_artifact(&bytes, Ok(manifest.clone()), whole, size - 1, token).unwrap_err();
    assert_eq!(
        cut.message,
        "checkpoint artifact truncates CRIU image pages-1.img"
    );
    bytes.truncate(20);
    let short = read_artifact(&bytes, Ok(manifest), "d".to_string(), 20, token).unwrap_err();
    assert_eq!(short.code, ErrorCode::Unavailable);
    assert_eq!(
        short.message,
        "failed to read checkpoint artifact <pending>: failed to fill whole buffer"
    );
}

fn extracted(
    bytes: &[u8],
    manifest: CheckpointArtifactManifest,
    whole: &str,
    size: u64,
    token: [u8; 32],
) -> Vec<(String, Vec<u8>)> {
    let reader = HeaderReader::open(true, size, whole.to_string(), size, token).expect("artifact");
    let reader = reader.header(&bytes[..56]).expect("header");
    let mut next = 56 + reader.manifest_length();
    let mut reader = reader.manifest(&bytes[56..next], Ok(manifest)).expect("manifest");
    let mut bodies = Vec::new();
    while let Some((name, left)) = reader.current() {
        let end = next + left as usize;
        bodies.push((name.to_string(), bytes[next..end].to_vec()));
        reader = reader.chunk(&bytes[next..end]).expect("image");
        reader = reader.close_image().expect("digest");
        next = end;
    }
    assert_eq!(bodies.len(), 2);
    assert_eq!(reader.finish(next < bytes.len()).expect("whole").size_bytes, size);
    bodies
}

#[test]
fn artifacts_belong_to_one_token() {
    let (manifest, bytes, whole, size) = packaged([7_u8; 32]);
    assert!(read_artifact(&bytes, Ok(manifest), whole, size, [8_u8; 32]).is_err());
    assert_eq!(read_publication_token(&bytes[..48]).unwrap(), [7_u8; 32]);
    let mut wrong = bytes[..48].to_vec();
    wrong[0] ^= 1;
    assert!(read_publication_token(&wrong).is_err());
}

#[test]
fn undecodable_manifests_are_reported() {
    let (_, bytes, whole, size) = packaged([7_u8; 32]);
    let error =
        read_artifact(&bytes, Err("no object".to_string()), whole, size, [7_u8; 32]).unwrap_err();
    assert!(error.message.contains("no object"), "{}", error.message);
}

#[test]
fn validates_exact_external_mount_cookie_and_path_contract() {
    let mount = ExternalMountManifestEntry::new("a3s-oci-device-0255", "/dev/qualified-device")
        .expect("bounded external device mount");
    assert_eq!(mount.name(), "a3s-oci-device-0255");
    assert_eq!(mount.mountpoint(), "/dev/qualified-device");

    for cookie in [
        "device-0000",
        "a3s-oci-device-000",
        "a3s-oci-device-00000",
        "a3s-oci-device-0256",
        "a3s-oci-device-abcd",
    ] {
        assert!(ExternalMountManifestEntry::new(cookie, "/dev/null").is_err());
    }
    for mountpoint in [
        "dev/null",
        "/",
        "/dev//null",
        "/dev/./null",
        "/dev/../null",
        "/dev/null/",
    ] {
        assert!(ExternalMountManifestEntry::new("a3s-oci-device-0000", mountpoint).is_err());
    }
}

#[test]
fn pending_ownership_requires_magic_and_full_token() {
    let token = [9_u8; 32];
    let mut file = magic();
    file.extend_from_slice(&token);
    assert!(owns_pending(&file, &token));
    assert!(!owns_pending(&file, &[8_u8; 32]));
    assert_eq!(pending_header(&token), file);
    assert!(!owns_pending(&file[..47], &token));
}

#[test]
fn image_names_are_plain_and_bounded() {
    assert!(validate_image_name("pages-1.img").is_ok());
    for name in ["", ".", "..", "a/b", "a/"] {
        assert!(validate_image_name(name).is_err(), "{name:?}");
    }
    assert!(validate_image_name(&"a".repeat(255)).is_ok());
    assert!(validate_image_name(&"a".repeat(256)).is_err());
    assert!(order_image_names(Vec::new()).is_err());
}

#[test]
fn pieces_are_bounded_by_what_is_left() {
    assert_eq!(copy_limit(5, 64), 5);
    assert_eq!(copy_limit(100, 64), 64);
    assert_eq!(copy_limit(0, 64), 0);
}

#[test]
fn parses_bounded_criu_identity() {
    let (version, git_id) =
        parse_version_output(b"Version: 4.2.1\nGitID: v4.2.1\n").expect("valid CRIU identity");
    assert_eq!(version, "4.2.1");
    assert_eq!(git_id.as_deref(), Some("v4.2.1"));
    assert!(parse_version_output(b"GitID: missing-version\n").is_err());
    assert!(parse_version_output(b"Version: unsafe value\n").is_err());
}

#[test]
fn version_output_has_to_be_text() {
    let error = parse_version_output(b"Version: \xff\n").unwrap_err();
    assert!(
        error.message.contains("invalid utf-8 sequence of 1 bytes from index 9"),
        "{}",
        error.message
    );
}

#[test]
fn expired_dump_deadline_fails_before_spawning_criu() {
    assert!(dump_timeout(Some(1), 1_700_000_000_000).is_err());
}

#[test]
fn dump_identity_binds_the_dynamic_freezer_boundary() {
    let identity = dump_option_identity();
    let mounts = vec![
        ExternalMountManifestEntry::new("a3s-oci-device-0000", "/dev/null").expect("mount"),
    ];
    let options =
        dump_options("/sys/fs/cgroup/a3s/workload", &mounts).expect("valid source cgroup path");
    let mut expected = identity.clone();
    let external = expected
        .iter()
        .position(|value| value == "mnt[<oci-device-mountpoint>]:<a3s-device-cookie>")
        .expect("external mount placeholder");
    expected[external] = "mnt[/dev/null]:a3s-oci-device-0000".to_string();
    let source = expected
        .iter()
        .position(|value| value == "<source-cgroup>")
        .expect("source cgroup placeholder");
    expected[source] = "/sys/fs/cgroup/a3s/workload".to_string();
    let root = expected
        .iter()
        .position(|value| value == "<source-cgroup-root>")
        .expect("source cgroup root placeholder");
    expected[root] = "/a3s".to_string();
    assert_eq!(expected, options);
    assert!(options
        .windows(2)
        .any(|pair| { pair == ["--external".to_string(), "mnt[]".to_string()] }));
}

#[test]
fn cgroup_roots_stay_below_the_mountpoint() {
    assert_eq!(cgroup_root("/sys/fs/cgroup/a3s/workload").unwrap(), "/a3s");
    assert_eq!(cgroup_root("/sys/fs/cgroup/a//b/w").unwrap(), "/a//b");
    assert_eq!(cgroup_root("/sys/fs/cgroup/a/./b/w").unwrap(), "/a/./b");
    assert_eq!(cgroup_root("//sys/./fs//cgroup//./a/b//w/.//").unwrap(), "/a/b");
    assert_eq!(cgroup_root("/sys/fs/cgroup/a/../w").unwrap(), "/a/..");
    for (workload, message) in [
        ("/tmp//x/./a3s", "native CRIU cgroup root is outside /sys/fs/cgroup: /tmp//x"),
        ("/a3s", "native CRIU cgroup root is outside /sys/fs/cgroup: /"),
        ("/sys/fs/cgroup/w/", "native CRIU cgroup root is outside /sys/fs/cgroup: /sys/fs/cgroup"),
        ("//sys/fs/cgroup//./w", "native CRIU cgroup root is outside /sys/fs/cgroup: //sys/fs/cgroup"),
        ("/", "native checkpoint workload has no absolute management cgroup parent: /"),
        ("", "native checkpoint workload has no absolute management cgroup parent: "),
        ("a/b", "native checkpoint workload has no absolute management cgroup parent: a/b"),
    ] {
        assert_eq!(cgroup_root(workload).unwrap_err().message, message);
    }
}

#[test]
fn arguments_name_every_part_of_a_dump_and_a_restore() {
    let mounts = vec![
        ExternalMountManifestEntry::new("a3s-oci-device-0000", "/dev/null").expect("mount"),
    ];
    let dump = dump_arguments(43, "/s/images", "/s/work", "/sys/fs/cgroup/a3s/workload", &mounts)
        .expect("dump arguments");
    assert!(dump.contains(&"43".to_string()));
    assert!(dump.contains(&"/s/images".to_string()));
    let launch = RestoreLaunch {
        rootfs: "/r".to_string(),
        pidfile: "/p".to_string(),
        supervisor: "/sup".to_string(),
        config_snapshot: "/c".to_string(),
        control_name: "control".to_string(),
        owner_pid: 9,
    };
    let provided = vec![RestoreMount {
        name: "a3s-oci-device-0000".to_string(),
        mountpoint: "/dev/null".to_string(),
        source: "/host/null".to_string(),
    }];
    let restore = restore_arguments("/s/images", "/s/work", &provided, &mounts, &launch)
        .expect("restore arguments");
    assert!(restore.contains(&"mnt[a3s-oci-device-0000]:/host/null".to_string()));
    assert!(restore_arguments("/s/images", "/s/work", &Vec::new(), &mounts, &launch).is_err());
    assert!(!restore_option_identity().is_empty());
}

#[test]
fn output_is_retained_up_to_its_bound() {
    let mut output = BoundedOutput::new();
    output.take(b"hello ");
    output.take(b"world");
    let (retained, overflowed) = output.finish();
    assert_eq!(retained, b"hello world".to_vec());
    assert!(!overflowed);
    let (log, truncated) = bound_log(vec![65; 10]);
    assert_eq!(log.len(), 10);
    assert!(!truncated);
}

#[test]
fn failed_commands_tell_what_they_said() {
    let report = CommandReport {
        success: false,
        status: "exit status: 1".to_string(),
        stdout: "out".to_string(),
        stderr: "err".to_string(),
        overflowed: false,
        log: "log".to_string(),
        log_truncated: false,
    };
    let error = require_success("dump", &report).unwrap_err();
    assert!(error.message.contains("exit status: 1"), "{}", error.message);
    assert!(error.message.contains("err"), "{}", error.message);
    let success = CommandReport {
        success: true,
        ..report
    };
    assert!(require_success("dump", &success).is_ok());
    assert!(require_root(0).is_ok());
    assert!(require_root(1000).is_err());
}

fn result() -> JournalResult {
    JournalResult::new(compatibility(), digest("4"), 42).expect("journal result")
}

#[test]
fn journal_keeps_every_phase_valid() {
    let mut record = JournalRecord::allocated(
        "journal-phases".to_string(),
        digest("1"),
        "/tmp/checkpoint.bin".to_string(),
        &[7_u8; 32],
    );
    assert!(matches!(record.outcome, JournalOutcome::Allocated));
    record.validate().expect("allocated record");
    record.mark_prepared(result());
    assert!(matches!(record.outcome, JournalOutcome::Prepared { .. }));
    record.validate().expect("prepared record");
    record.mark_published(result());
    assert!(matches!(record.outcome, JournalOutcome::Published { .. }));
    record.validate().expect("published record");
    assert_eq!(record.publication_token().unwrap(), [7_u8; 32]);
    record
        .validate_request("journal-phases", &digest("1"), "/tmp/checkpoint.bin")
        .expect("same request");
    let error = record
        .validate_request("journal-phases", &digest("2"), "/tmp/checkpoint.bin")
        .unwrap_err();
    assert_eq!(error.code, ErrorCode::FailedPrecondition);
    assert_eq!(
        error.message,
        "operation ID journal-phases was already used for a different checkpoint request"
    );
    record.pending_name.push('x');
    assert!(record.validate().is_err());
    assert!(JournalResult::new(compatibility(), "bad".to_string(), 42).is_err());
}

#[test]
fn names_carry_the_hash_of_their_operation() {
    let hash = operation_hash("abc");
    assert_eq!(
        hash,
        "ba7816bf8f01cfea414140de5dae2223b00361a396177a9cb410ff61f20015ad"
    );
    assert_eq!(sha256_hex(b"abc"), hash);
    let mut pieces = FileDigest::new();
    pieces.update(b"a");
    pieces.update(b"bc");
    assert_eq!(pieces.finish(), format!("sha256:{hash}"));
    assert_eq!(stage_name("abc"), format!("stage-{hash}"));
    assert_eq!(journal_name("abc"), format!("{hash}.json"));
    assert_eq!(
        pending_journal_name("abc", &[1, 2, 255]),
        format!(".journal-{hash}-0102ff.pending")
    );
    let token = [0xab_u8; 32];
    assert_eq!(
        pending_name("abc", &token),
        format!(".a3s-oci-checkpoint-{hash}-{}.pending", "ab".repeat(32))
    );
    assert!(valid_stage_name(&stage_name("abc")));
    assert!(!valid_stage_name("stage-ABC"));
    assert!(is_final_journal_name(&journal_name("abc")));
    assert!(!is_final_journal_name(".json"));
    assert!(is_pending_journal_name(&pending_journal_name("abc", &[0; 8])));
    assert!(!is_pending_journal_name(&journal_name("abc")));
}

#[test]
fn tokens_come_back_as_they_were_written() {
    let mut token = [0_u8; 32];
    for (place, byte) in token.iter_mut().enumerate() {
        *byte = place as u8 * 8;
    }
    assert_eq!(decode_token(&encode_token(&token)).unwrap(), token);
    assert!(decode_token("zz").is_err());
    assert!(decode_token(&"AB".repeat(32)).is_err());
}

#[test]
fn publication_never_replaces_an_existing_destination() {
    let pending = FileIdentity {
        device: 1,
        inode: 2,
    };
    let other = FileIdentity {
        device: 1,
        inode: 3,
    };
    assert_eq!(
        publish("/d/artifact.bin", LinkOutcome::Linked).unwrap(),
        PublishOutcome::Published
    );
    assert_eq!(
        publish(
            "/d/artifact.bin",
            LinkOutcome::Occupied {
                pending,
                destination: pending
            }
        )
        .unwrap(),
        PublishOutcome::AlreadyPublished
    );
    let error = publish(
        "/d/artifact.bin",
        LinkOutcome::Occupied {
            pending,
            destination: other,
        },
    )
    .unwrap_err();
    assert_eq!(error.code, ErrorCode::AlreadyExists);
    assert!(ensure_absent("/d/artifact.bin", false).is_ok());
    assert_eq!(
        ensure_absent("/d/artifact.bin", true).unwrap_err().code,
        ErrorCode::AlreadyExists
    );
    assert_eq!(
        remove_owned_pending("/d/p", None).unwrap(),
        PendingAction::Nothing
    );
    assert_eq!(
        remove_owned_pending("/d/p", Some(true)).unwrap(),
        PendingAction::Remove
    );
    assert!(remove_owned_pending("/d/p", Some(false)).is_err());
    assert!(check_pending_name(".a3s-test.pending").is_ok());
    assert!(check_pending_name("a/b").is_err());
}

fn failure(message: &str) -> Error {
    checkpoint_error(ErrorCode::Unavailable, message)
}

#[test]
fn a_fresh_checkpoint_goes_through_all_its_steps() {
    let mut state = CheckpointState::start().advance(CheckpointEvent::NoJournal);
    let mut steps = 0;
    loop {
        match state {
            CheckpointState::At(step) => {
                assert_ne!(step, CheckpointStep::LoadJournal);
                steps += 1;
                assert!(steps < 40);
                state = CheckpointState::At(step).advance(CheckpointEvent::Done);
            }
            CheckpointState::Succeeded => break,
            other => panic!("unexpected {other:?}"),
        }
    }
    assert!(steps > 10);
}

#[test]
fn a_failed_checkpoint_cleans_up_and_reports_its_first_failure() {
    let state =
        CheckpointState::At(CheckpointStep::StorePrepared).advance(CheckpointEvent::Failed(failure("full")));
    let (index, error) = match state {
        CheckpointState::Unwinding { step, index, error } => {
            assert_eq!(step, CheckpointStep::StorePrepared);
            (index, error)
        }
        other => panic!("unexpected {other:?}"),
    };
    assert_eq!(index, 0);
    assert_eq!(
        planned_cleanup(CheckpointStep::StorePrepared, 0),
        Some(Cleanup::CreatedPending)
    );
    assert_eq!(
        planned_cleanup(CheckpointStep::StorePrepared, 1),
        Some(Cleanup::Journal)
    );
    assert_eq!(planned_cleanup(CheckpointStep::StorePrepared, 2), None);
    let next = CheckpointState::Unwinding {
        step: CheckpointStep::StorePrepared,
        index,
        error,
    }
    .advance(CheckpointEvent::CleanupFailed("busy".to_string()));
    let last = match next {
        CheckpointState::Unwinding { step, index, error } => CheckpointState::Unwinding {
            step,
            index,
            error,
        }
        .advance(CheckpointEvent::Done),
        other => panic!("unexpected {other:?}"),
    };
    match last {
        CheckpointState::Refused(error) => {
            assert_eq!(error.code, ErrorCode::Unavailable);
            assert!(error.message.starts_with("full; "), "{}", error.message);
            assert!(error.message.ends_with("failed: busy"), "{}", error.message);
        }
        other => panic!("unexpected {other:?}"),
    }
}

#[test]
fn acknowledging_removes_what_is_left() {
    let mut step = AcknowledgeStep::LoadRestore;
    let mut steps = 0;
    while step != AcknowledgeStep::Complete {
        step = acknowledge(step, true);
        steps += 1;
        assert!(steps < 20);
    }
    assert_eq!(
        acknowledge(AcknowledgeStep::Load, false),
        AcknowledgeStep::Complete
    );
}

#[test]
fn cleanup_failures_are_put_behind_the_first() {
    let mut error = failure("first");
    append_failure(&mut error, "stage cleanup", "second");
    assert_eq!(error.message, "first; stage cleanup failed: second");
    assert_eq!(error.code, ErrorCode::Unavailable);
}

#[test]
fn a_restore_that_fails_keeps_its_journal_until_it_is_rolled_back() {
    let state = RestoreState::start().advance(RestoreEvent::NoJournal);
    assert!(matches!(
        state,
        RestoreState::At(RestoreStep::StoreRequest)
            | RestoreState::At(RestoreStep::OpenStage)
            | RestoreState::At(RestoreStep::StoreAllocated)
            | RestoreState::At(RestoreStep::CreateStage)
    ));
    let state = RestoreState::At(RestoreStep::Restore).advance(RestoreEvent::Failed(failure("late")));
    match state {
        RestoreState::RollingBack(error) => assert_eq!(error.message, "late"),
        other => panic!("unexpected {other:?}"),
    }
    let kept = RestoreState::RollingBack(failure("late"))
        .advance(RestoreEvent::CleanupFailed("busy".to_string()));
    assert!(matches!(kept, RestoreState::Refused(_)));
    let staged = RestoreState::RollingBack(failure("late")).advance(RestoreEvent::Done);
    assert!(matches!(&staged, RestoreState::CleaningStage(_)));
    let journal = staged.advance(RestoreEvent::Done);
    assert!(matches!(&journal, RestoreState::RemovingJournal(_)));
    match journal.advance(RestoreEvent::Done) {
        RestoreState::Refused(error) => assert_eq!(error.message, "late"),
        other => panic!("unexpected {other:?}"),
    }
    let stuck = RestoreState::CleaningStage(failure("late"))
        .advance(RestoreEvent::CleanupFailed("busy".to_string()));
    match stuck {
        RestoreState::Refused(error) => {
            assert_eq!(error.message, "late; restore journal cleanup failed: busy")
        }
        other => panic!("unexpected {other:?}"),
    }
}

#[test]
fn requests_are_known_by_all_that_they_ask_for() {
    let request = CheckpointFingerprint {
        context: "{\"operationId\": \"op-1\"}".to_string(),
        source: "{\"id\":\"c\"}".to_string(),
        artifact_path: "\"/a\"".to_string(),
        runtime_artifact: "{\"b\":1,\"a\":2}".to_string(),
    };
    assert_eq!(
        request.digest().expect("digest"),
        "sha256:53245a42e144cad779f176565b3ddb35f7c70ea1b3fb12f88c8b0be4f8bff82d"
    );
    let mut broken = request.clone();
    broken.source = "{".to_string();
    let error = broken.digest().unwrap_err();
    assert_eq!(error.code, ErrorCode::Internal);
    assert!(error
        .message
        .starts_with("failed to encode checkpoint request fingerprint: "));
    let null = "null".to_string();
    let restore = RestoreFingerprint {
        context: request.context.clone(),
        target: null.clone(),
        bundle: null.clone(),
        artifact_path: request.artifact_path.clone(),
        isolation: null.clone(),
        io: null.clone(),
        attachment_contract: null.clone(),
        tee_launch: null.clone(),
        reference: null.clone(),
        runtime_artifact: request.runtime_artifact.clone(),
        agent_request: null,
    };
    let encoded = concat_parts(&[
        "{\"agentRequest\":null,\"artifactPath\":\"/a\",\"attachmentContract\":null,",
        "\"bundle\":null,\"context\":{\"operationId\":\"op-1\"},\"io\":null,",
        "\"isolation\":null,\"reference\":null,\"runtimeArtifact\":{\"a\":2,\"b\":1},",
        "\"schemaVersion\":\"a3s.oci.native-restore-request.v1\",\"target\":null,",
        "\"teeLaunch\":null}",
    ]);
    assert_eq!(restore.digest().expect("digest"), sha256_digest(encoded.as_bytes()));
}

fn concat_parts(parts: &[&str]) -> String {
    parts.concat()
}

#[test]
fn only_paused_containers_are_recreated_after_a_restart() {
    let facts = RecoverFacts {
        status: ContainerState::Running,
        paused: false,
        keeps_images: true,
    };
    let mut state = RecoverState::start();
    let mut steps = 0;
    while let RecoverState::At(step) = state {
        state = RecoverState::At(step).advance(RecoverEvent::Done, "c", facts);
        steps += 1;
        assert!(steps < 30);
    }
    assert!(!matches!(state, RecoverState::Recreated), "{state:?}");
    let missing = RecoverState::At(RecoverStep::Find).advance(RecoverEvent::Missing, "c", facts);
    assert!(matches!(missing, RecoverState::NotRestored));
}

#[test]
fn work_entries_have_to_be_plain() {
    assert_eq!(reset_work_entry("/w/a", WorkEntry::Missing).unwrap(), false);
    assert_eq!(
        reset_work_entry("/w/a", WorkEntry::Present(FileKind::Regular)).unwrap(),
        true
    );
    assert_eq!(
        reset_work_entry("/w/a", WorkEntry::Present(FileKind::Symlink)).unwrap(),
        true
    );
    assert!(reset_work_entry("/w/a", WorkEntry::Present(FileKind::Directory)).is_err());
}

fn agent_request() -> AgentCreateRequest {
    AgentCreateRequest {
        operation_id: "restore-op".to_string(),
        deadline_unix_ms: None,
        target: ContainerTarget::exact("restored", 3),
        config_digest: digest("5"),
        guest_config_digest: digest("5"),
        bundle: "{}".to_string(),
        io: ProcessIo {
            stdin: IoMode::Null,
            stdout: IoMode::Null,
            stderr: IoMode::Null,
        },
    }
}

fn reference() -> CheckpointReference {
    CheckpointReference {
        source: ContainerTarget::exact("artifact-source", 7),
        source_config_digest: digest("5"),
        source_attachments_digest: digest("1"),
        compatibility: compatibility(),
        artifact_digest: digest("4"),
        artifact_size_bytes: 42,
    }
}

fn restore_record() -> RestoreJournalRecord {
    RestoreJournalRecord::allocated(
        digest("9"),
        agent_request(),
        "/tmp/checkpoint.bin".to_string(),
        reference(),
    )
    .expect("allocated restore")
}

#[test]
fn allocated_restore_journal_rejects_request_drift() {
    let record = restore_record();
    record
        .validate_request(
            "restore-op",
            &digest("9"),
            &agent_request(),
            "/tmp/checkpoint.bin",
            &reference(),
        )
        .expect("same request");
    let mut drifted = reference();
    drifted.artifact_size_bytes = 43;
    assert!(record
        .validate_request(
            "restore-op",
            &digest("9"),
            &agent_request(),
            "/tmp/checkpoint.bin",
            &drifted,
        )
        .is_err());
    assert!(record.manifest().is_none());
}

#[test]
fn restored_records_keep_their_images_and_state() {
    let token = [7_u8; 32];
    let (manifest, _, _, _) = packaged(token);
    let mut record = restore_record();
    record.mark_prepared(manifest.clone());
    assert!(record.manifest().expect("manifest").same(&manifest));
    let stage = collect_retained(&vec![record]);
    assert_eq!(stage, vec![stage_name("restore-op")]);
    assert_eq!(
        reconcile_stage_entry(&stage_name("restore-op"), &stage).unwrap(),
        StageEntryAction::Inspect
    );
    assert_eq!(
        reconcile_stage_entry(&stage_name("other"), &stage).unwrap(),
        StageEntryAction::Remove
    );
    assert!(reconcile_stage_entry("unknown", &stage).is_err());

    let mut restored = restore_record();
    let running = AgentState {
        target: ContainerTarget::exact("restored", 3),
        status: ContainerState::Running,
        pid: Some(7777),
        config_digest: digest("5"),
        paused: true,
    };
    restored
        .mark_restored(manifest.clone(), running.clone())
        .expect("restored record");
    let mut awake = running;
    awake.paused = false;
    assert!(restore_record().mark_restored(manifest, awake).is_err());
}

#[test]
fn restores_are_found_by_their_target() {
    let records = vec![restore_record()];
    let target = ContainerTarget::exact("restored", 3);
    assert_eq!(find_record(&records, &target, "restored@3").unwrap(), Some(0));
    let other = ContainerTarget::exact("restored", 4);
    assert_eq!(find_record(&records, &other, "restored@4").unwrap(), None);
    let twice = vec![restore_record(), restore_record()];
    assert!(find_record(&twice, &target, "restored@3").is_err());
}

#[test]
fn journal_entries_are_sorted_out_at_startup() {
    assert_eq!(
        reconcile_journal_entry(&journal_name("a")).unwrap(),
        JournalEntryAction::Load
    );
    assert_eq!(
        reconcile_journal_entry(&pending_journal_name("a", &[0; 8])).unwrap(),
        JournalEntryAction::RemovePending
    );
    assert!(reconcile_journal_entry("README").is_err());
}

fn record() -> ContainerRecord {
    ContainerRecord {
        id: "artifact-source".to_string(),
        generation: 7,
        status: ContainerState::Running,
        pid: Some(43),
        paused: true,
        driver: DriverKind::NativeLinux,
        isolation: IsolationClass::SharedHostKernel,
        config_digest: digest("1"),
        attachments_digest: Some(digest("1")),
        document: "{}".to_string(),
    }
}

fn source() -> CheckpointSource {
    CheckpointSource {
        target: ContainerTarget::exact("artifact-source", 7),
        launcher_pid: 41,
        checkpoint_root_pid: 43,
        init_pid: 43,
        cgroup_path: "/sys/fs/cgroup/a3s/workload".to_string(),
        external_mounts: Vec::new(),
    }
}

#[test]
fn only_paused_native_containers_are_checkpointed() {
    validate_source_record(&record()).expect("paused source");
    let mut awake = record();
    awake.paused = false;
    let error = validate_source_record(&awake).unwrap_err();
    assert_eq!(
        error.message,
        "native checkpoint requires a paused running native generation with exact attachment evidence"
    );
    let mut machine = record();
    machine.isolation = IsolationClass::DedicatedVm;
    assert!(validate_source_record(&machine).is_err());
    require_exact_source(&record(), &source()).expect("exact source");
    let mut other = source();
    other.target = ContainerTarget::exact("artifact-source", 8);
    assert!(require_exact_source(&record(), &other).is_err());
    let built = source_metadata(
        &record(),
        source(),
        native_compatibility(
            "x86_64".to_string(),
            compatibility().runtime_artifact,
            digest("1"),
            native_format(),
        ),
        metadata().criu,
    )
    .expect("source metadata");
    assert_eq!(built.init_pid, 43);
    assert!(built.source.same(&ContainerTarget::exact("artifact-source", 7)));
}

#[test]
fn sources_and_manifests_stay_what_they_are() {
    let mut again = source();
    require_unchanged_source(&source(), &again).expect("unchanged source");
    again.cgroup_path = "/sys/fs/cgroup//a3s/./workload".to_string();
    require_unchanged_source(&source(), &again).expect("the same cgroup");
    again.cgroup_path = "/sys/fs/cgroup/a3s/other".to_string();
    let error = require_unchanged_source(&source(), &again).unwrap_err();
    assert_eq!(error.code, ErrorCode::Conflict);
    assert_eq!(
        error.message,
        "native checkpoint source identity changed while CRIU produced the image"
    );
    let (manifest, ..) = packaged([7; 32]);
    manifest.require_unchanged(&manifest.clone()).expect("unchanged manifest");
    let mut other = manifest.clone();
    other.external_mounts.push(
        ExternalMountManifestEntry::new("a3s-oci-device-0009", "/dev/other").expect("mount"),
    );
    assert!(manifest.require_unchanged(&other).is_err());
    let mut spelled = other.clone();
    spelled.external_mounts.last_mut().expect("mount").mountpoint = "/dev//other".to_string();
    other.require_unchanged(&spelled).expect("the same mountpoint");
    let mut older = manifest.clone();
    older.init_pid += 1;
    assert_eq!(
        manifest.require_unchanged(&older).unwrap_err().message,
        "checkpoint artifact manifest changed during verification"
    );
}

#[test]
fn state_directories_are_claimed_by_one_owner() {
    let error = lock_conflict("/state", "would block");
    assert_eq!(error.code, ErrorCode::Conflict);
    assert!(error.message.contains("would block"), "{}", error.message);
    assert_eq!(
        initialize_marker("/state", "/state/marker", &MarkerRead::Missing, &Vec::new()).unwrap(),
        MarkerAction::Write
    );
    assert!(initialize_marker(
        "/state",
        "/state/marker",
        &MarkerRead::Missing,
        &vec!["foreign".to_string()]
    )
    .is_err());
    assert!(initialize_marker(
        "/state",
        "/state/marker",
        &MarkerRead::Schema("other".to_string()),
        &Vec::new()
    )
    .is_err());
    let unreadable = initialize_marker(
        "/state",
        "/state/marker",
        &MarkerRead::Unreadable(IoKind::PermissionDenied, "denied".to_string()),
        &Vec::new(),
    )
    .unwrap_err();
    assert_eq!(unreadable.code, ErrorCode::PermissionDenied);
    assert_eq!(unreadable.operation.as_deref(), Some(CHECKPOINT_OPERATION));
    assert_eq!(
        unreadable.message,
        "failed to read checkpoint state marker /state/marker: denied"
    );
}

#[test]
fn stages_are_cleaned_only_below_the_staging_directory() {
    let stage = format!("/staging/{}", stage_name("abandoned-stage"));
    let facts = FileFacts {
        kind: FileKind::Directory,
        uid: 0,
        mode: 0o700,
        length: 0,
    };
    assert_eq!(
        cleanup_stage("/staging", &stage, Some(facts)).unwrap(),
        StageAction::Remove
    );
    assert_eq!(
        cleanup_stage("/staging", &stage, None).unwrap(),
        StageAction::Nothing
    );
    assert!(cleanup_stage("/other", &stage, Some(facts)).is_err());
    let link = FileFacts {
        kind: FileKind::Symlink,
        ..facts
    };
    assert!(cleanup_stage("/staging", &stage, Some(link)).is_err());
    let directory = StageDirectory::at(&stage);
    assert_eq!(directory.images(), format!("{stage}/images"));
    assert_eq!(directory.work(), format!("{stage}/work"));
    assert_eq!(directory.root(), stage);
    assert!(check_journal_capacity("checkpoint", true, usize::MAX).is_ok());
    assert!(check_journal_capacity("checkpoint", false, usize::MAX).is_err());
}
