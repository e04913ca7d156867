//! Host services: their configuration, how they come up, and the processes and
//! sockets around them.

use a3s_oci_runtime::error::{Error, ErrorCode};
use a3s_oci_runtime::marker::{exact_marker_state, ExactMarkerState};
use a3s_oci_runtime::native_checkpoint::state::FileKind;
use a3s_oci_runtime::process::{
    any_still_live, capture_native_process_identity, check_dead_listener, check_private_socket,
    check_sigkill, check_socket_peer, check_stale_socket, descriptor_number, is_agent_endpoint,
    linux_descendants, parse_process_stat, poll, process_identity, process_number,
    process_still_live, process_terminated, service_arguments, stat_path_of, HostServiceKind,
    Incarnation, LinuxProcessIdentity, Probe, ProcessObservation,
};
use a3s_oci_runtime::service::{
    combine_service_and_cleanup, validate_unix_socket_path, BindState, BindStep, LinuxKvmRecoveryHostService, LinuxKvmRecoveryHostServiceConfig,
    LinuxKvmSoakHostService, LinuxKvmSoakHostServiceConfig, MacosHvfHostService,
    MacosHvfHostServiceConfig, LINUX_SOCKET_PATH_CAPACITY, MACOS_SOCKET_PATH_CAPACITY,
};

const EXPECTED: &[u8] = b"complete marker\n";

#[test]
fn exact_marker_write_state_distinguishes_partial_and_invalid_data() {
    assert_eq!(
        exact_marker_state(EXPECTED, EXPECTED),
        ExactMarkerState::Complete
    );
    assert_eq!(
        exact_marker_state(b"", EXPECTED),
        ExactMarkerState::InProgress
    );
    assert_eq!(
        exact_marker_state(b"complete", EXPECTED),
        ExactMarkerState::InProgress
    );
    assert_eq!(
        exact_marker_state(b"corrupt marker\n", EXPECTED),
        ExactMarkerState::Mismatch
    );
    assert_eq!(
        exact_marker_state(b"complete marker\nextra", EXPECTED),
        ExactMarkerState::Mismatch
    );
}

fn kvm(root: &str, shim: &str, manifest: &str) -> Result<LinuxKvmRecoveryHostServiceConfig, Error> {
    LinuxKvmRecoveryHostServiceConfig::new(
        root.to_string(),
        shim.to_string(),
        manifest.to_string(),
    )
}

fn hvf(root: &str, shim: &str, manifest: &str) -> Result<MacosHvfHostServiceConfig, Error> {
    MacosHvfHostServiceConfig::new(root.to_string(), shim.to_string(), manifest.to_string())
}

#[test]
fn linux_kvm_service_config_rejects_relative_ambiguous_and_overlapping_paths() {
    assert!(kvm("relative", "/tmp/shim", "/tmp/system-image.json").is_err());
    assert!(kvm("/tmp/a/../owner", "/tmp/shim", "/tmp/system-image.json").is_err());
    assert!(kvm("/tmp/owner", "relative", "/tmp/system-image.json").is_err());
    assert!(kvm("/tmp/owner", "/tmp/shim", "/tmp/owner/system-image.json").is_err());
}

#[test]
fn linux_kvm_service_config_separates_durable_state_from_driver_runtime() {
    let config = kvm(
        "/tmp/a3s-oci-kvm-owner",
        "/tmp/a3s-oci-kvm-shim",
        "/tmp/a3s-oci-kvm-system-image.json",
    )
    .expect("valid Linux KVM recovery config");

    assert_eq!(config.socket_path(), "/tmp/a3s-oci-kvm-owner/runtime.sock");
    assert_eq!(config.state_root(), "/tmp/a3s-oci-kvm-owner/state");
    assert_eq!(config.driver_runtime_root(), "/tmp/a3s-oci-kvm-owner/runtime");
    assert_ne!(config.state_root(), config.driver_runtime_root());
}

#[test]
fn macos_hvf_service_config_rejects_relative_ambiguous_and_overlapping_paths() {
    assert!(hvf("relative", "/tmp/shim", "/tmp/system-image.json").is_err());
    assert!(hvf("/tmp/a/../owner", "/tmp/shim", "/tmp/system-image.json").is_err());
    assert!(hvf("/tmp/owner", "relative", "/tmp/system-image.json").is_err());
    assert!(hvf("/tmp/owner", "/tmp/shim", "/tmp/owner/system-image.json").is_err());
}

#[test]
fn macos_hvf_service_config_separates_durable_state_from_driver_runtime() {
    let config = hvf(
        "/tmp/a3s-oci-hvf-owner",
        "/tmp/a3s-oci-hvf-shim",
        "/tmp/a3s-oci-hvf-system-image.json",
    )
    .expect("valid macOS HVF host config");

    assert_eq!(config.root(), "/tmp/a3s-oci-hvf-owner");
    assert_eq!(config.socket_path(), "/tmp/a3s-oci-hvf-owner/runtime.sock");
    assert_eq!(config.state_root(), "/tmp/a3s-oci-hvf-owner/state");
    assert_eq!(config.driver_runtime_root(), "/tmp/a3s-oci-hvf-owner/runtime");
    assert_ne!(config.state_root(), config.driver_runtime_root());
}

#[test]
fn service_sockets_have_to_fit_their_address() {
    let long = format!("/tmp/{}", "a".repeat(95));
    let error = kvm(&long, "/tmp/shim", "/tmp/system-image.json").unwrap_err();
    assert_eq!(error.code, ErrorCode::InvalidArgument);
    assert!(error.message.contains("socket path limit"), "{}", error.message);
    let shorter = format!("/tmp/{}", "a".repeat(86));
    assert!(kvm(&shorter, "/tmp/shim", "/tmp/system-image.json").is_ok());
    let whole = format!("{shorter}/runtime.sock");
    assert!(validate_unix_socket_path(&whole, "endpoint", LINUX_SOCKET_PATH_CAPACITY).is_ok());
    assert!(validate_unix_socket_path(&whole, "endpoint", MACOS_SOCKET_PATH_CAPACITY).is_err());
}

#[test]
fn soak_services_are_configured_like_recovery_services() {
    let config = LinuxKvmSoakHostServiceConfig::new(
        "/tmp/soak".to_string(),
        "/tmp/shim".to_string(),
        "/tmp/system-image.json".to_string(),
    )
    .expect("valid soak config");
    assert_eq!(config.root(), "/tmp/soak");
    assert_eq!(config.shim(), "/tmp/shim");
    assert_eq!(config.system_image_manifest(), "/tmp/system-image.json");
    assert_eq!(
        LinuxKvmSoakHostService::bound(&config).socket_path(),
        "/tmp/soak/runtime.sock"
    );
    let recovery = kvm("/tmp/owner", "/tmp/shim", "/tmp/system-image.json").unwrap();
    assert_eq!(
        LinuxKvmRecoveryHostService::bound(&recovery).socket_path(),
        "/tmp/owner/runtime.sock"
    );
    let public = hvf("/tmp/owner", "/tmp/shim", "/tmp/system-image.json").unwrap();
    assert_eq!(
        MacosHvfHostService::bound(&public).socket_path(),
        "/tmp/owner/runtime.sock"
    );
    let error = LinuxKvmSoakHostServiceConfig::new(
        "/tmp/soak".to_string(),
        "/tmp/shim".to_string(),
        "/tmp/soak/system-image.json".to_string(),
    )
    .unwrap_err();
    assert_eq!(
        error.message,
        "immutable Linux KVM system-image manifest must be outside writable Host Service root \
         /tmp/soak: /tmp/soak/system-image.json"
    );
}

fn failure(message: &str) -> Error {
    Error::new(ErrorCode::Unavailable, message.to_string())
}

#[test]
fn services_come_up_in_order_and_shut_their_driver_down_again() {
    let mut state = BindState::start();
    let mut steps = Vec::new();
    while let BindState::At(step) = state {
        steps.push(step);
        state = BindState::At(step).advance(None);
    }
    assert!(matches!(state, BindState::Bound));
    assert_eq!(
        steps,
        vec![
            BindStep::PrepareRoot,
            BindStep::PrepareState,
            BindStep::PrepareRuntime,
            BindStep::OpenDriver,
            BindStep::OpenState,
            BindStep::BindSocket,
        ]
    );
    let refused = BindState::At(BindStep::OpenDriver).advance(Some(failure("no driver")));
    assert!(matches!(refused, BindState::Refused(error) if error.message == "no driver"));
    let closing = BindState::At(BindStep::BindSocket).advance(Some(failure("taken")));
    assert!(matches!(&closing, BindState::ShuttingDown(error) if error.message == "taken"));
    match closing.advance(Some(failure("stuck"))) {
        BindState::Refused(error) => assert_eq!(error.message, "taken"),
        other => panic!("unexpected {other:?}"),
    }
}

#[test]
fn a_service_tells_both_of_its_failures() {
    assert!(combine_service_and_cleanup(Ok(()), Ok(()), "HVF driver").is_ok());
    let served = combine_service_and_cleanup(Err(failure("broken")), Ok(()), "HVF driver");
    assert_eq!(served.unwrap_err().message, "broken");
    let stopped = combine_service_and_cleanup(Ok(()), Err(failure("stuck")), "HVF driver");
    assert_eq!(stopped.unwrap_err().message, "stuck");
    let both =
        combine_service_and_cleanup(Err(failure("broken")), Err(failure("stuck")), "HVF driver");
    assert_eq!(
        both.unwrap_err().message,
        "broken; HVF driver shutdown also failed: stuck"
    );
}

#[test]
fn proc_stat_parser_handles_spaces_and_parentheses_in_command() {
    let fields = [
        "S", "1", "42", "42", "0", "0", "0", "0", "0", "0", "0", "0", "0", "0", "0", "0", "0",
        "0", "0", "98765",
    ];
    let encoded = format!("42 (Hook worker (test)) {}", fields.join(" "));
    let observed =
        parse_process_stat(42, "/proc/42/stat", &encoded).expect("parse process stat");
    assert_eq!(observed.identity.pid, 42);
    assert_eq!(observed.identity.process_group_id, 42);
    assert_eq!(observed.identity.start_time_ticks, 98_765);
    assert_eq!(observed.state, b'S');
}

fn stat_line(command: &str, state: &str, parent: &str, group: &str, start: &str) -> String {
    let middle = vec!["0"; 16].join(" ");
    format!("42 ({command}) {state} {parent} {group} {middle} {start}\n")
}

#[test]
fn broken_proc_stat_lines_are_refused() {
    assert_eq!(stat_path_of(42), "/proc/42/stat");
    let line = stat_line("a", "S", "1", "42", "7");
    assert!(parse_process_stat(42, "/proc/42/stat", &line).is_ok());
    assert!(parse_process_stat(43, "/proc/43/stat", &line).is_err());
    assert!(parse_process_stat(42, "/proc/42/stat", "42 no command").is_err());
    assert!(parse_process_stat(42, "/proc/42/stat", "42 (a) S 1").is_err());
    let wrong = stat_line("a", "S", "1", "group", "7");
    assert_eq!(
        parse_process_stat(42, "/proc/42/stat", &wrong).unwrap_err(),
        "process stat has no valid process group: /proc/42/stat"
    );
    assert_eq!(
        process_identity(42, &wrong).unwrap_err(),
        "invalid process group ID: invalid digit found in string"
    );
    let late = stat_line("a", "S", "1", "42", "99999999999999999999");
    assert!(parse_process_stat(42, "/proc/42/stat", &late).is_err());
    assert_eq!(
        process_identity(42, &late).unwrap_err(),
        "invalid process start time: number too large to fit in target type"
    );
    assert_eq!(
        process_identity(43, &line).unwrap_err(),
        "process stat PID changed from 43 to 42"
    );
}

#[test]
fn processes_are_told_apart_by_when_they_started() {
    let seen = parse_process_stat(42, "/proc/42/stat", &stat_line("a", "S", "1", "42", "7")).unwrap();
    let identity = capture_native_process_identity(42, Some(seen)).expect("live process");
    assert!(capture_native_process_identity(42, None).is_err());
    assert!(process_still_live(&identity, Some(seen)));
    assert!(!process_terminated(&identity, Some(seen)));
    assert!(process_terminated(&identity, None));
    let zombie = ProcessObservation {
        state: b'Z',
        ..seen
    };
    assert!(zombie.is_terminated());
    assert!(!process_still_live(&identity, Some(zombie)));
    let later = parse_process_stat(42, "/proc/42/stat", &stat_line("a", "S", "1", "42", "8")).unwrap();
    assert!(!process_still_live(&identity, Some(later)));
    assert!(process_terminated(&identity, Some(later)));
    let linux = process_identity(42, &stat_line("worker", "S", "41", "42", "7")).unwrap();
    assert_eq!(linux.parent_pid, 41);
    assert_eq!(linux.command, "worker");
    assert!(linux.same(&linux.copy()));
}

fn process(pid: u32, parent_pid: u32) -> LinuxProcessIdentity {
    LinuxProcessIdentity {
        pid,
        parent_pid,
        process_group_id: pid,
        start_time_ticks: 1,
        command: format!("process-{pid}"),
    }
}

#[test]
fn descendants_are_found_below_their_root() {
    let all = vec![process(9, 5), process(5, 1), process(7, 5), process(8, 7), process(6, 2)];
    let mut pids: Vec<u32> = linux_descendants(&all, 5).iter().map(|found| found.pid).collect();
    pids.sort();
    assert_eq!(pids, vec![7, 8, 9]);
    assert!(linux_descendants(&all, 77).is_empty());
    let expected = vec![Incarnation {
        pid: 9,
        start_time: 1,
    }];
    assert!(any_still_live(&expected, &expected));
    let reborn = vec![Incarnation {
        pid: 9,
        start_time: 2,
    }];
    assert!(!any_still_live(&expected, &reborn));
}

#[test]
fn directory_names_are_read_as_numbers() {
    assert_eq!(process_number("4242"), Some(4242));
    assert_eq!(process_number("self"), None);
    assert_eq!(descriptor_number("17").unwrap(), 17);
    assert!(descriptor_number("x").is_err());
    assert!(is_agent_endpoint("a3s-oci-agent-1"));
    assert!(!is_agent_endpoint("other"));
    assert_eq!(poll(true, true), Some(true));
    assert_eq!(poll(false, true), Some(false));
    assert_eq!(poll(false, false), None);
}

#[test]
fn sockets_have_to_be_private_and_owned() {
    let service = "Host Service";
    let path = "/s/runtime.sock";
    assert!(check_private_socket(service, path, FileKind::Socket, 5, 0o600, 5).is_ok());
    assert!(check_private_socket(service, path, FileKind::Regular, 5, 0o600, 5).is_err());
    assert!(check_private_socket(service, path, FileKind::Socket, 6, 0o600, 5).is_err());
    assert!(check_private_socket(service, path, FileKind::Socket, 5, 0o644, 5).is_err());
    assert_eq!(check_socket_peer(42, 42).unwrap(), 42);
    assert!(check_socket_peer(43, 42).is_err());
    assert!(check_socket_peer(-1, 42).is_err());
    assert!(check_stale_socket(path, FileKind::Socket, 5, 5).is_ok());
    assert!(check_stale_socket(path, FileKind::Symlink, 5, 5).is_err());
    assert!(check_stale_socket(path, FileKind::Socket, 6, 5).is_err());
    assert!(check_dead_listener(path, Probe::Absent).is_ok());
    assert!(check_dead_listener(path, Probe::Connected).is_err());
    assert!(check_dead_listener(path, Probe::Failed("denied".to_string())).is_err());
}

#[test]
fn services_are_spawned_with_all_their_arguments() {
    let arguments = service_arguments(
        HostServiceKind::Recovery.command(),
        "/r",
        "/shim",
        "/manifest",
    );
    assert!(arguments.contains(&"/r".to_string()));
    assert!(arguments.contains(&"/shim".to_string()));
    assert!(arguments.contains(&"/manifest".to_string()));
    assert_ne!(HostServiceKind::Recovery.command(), HostServiceKind::Soak.command());
    assert_ne!(HostServiceKind::Recovery.label(), HostServiceKind::Soak.label());
    assert!(check_sigkill("service", Some(9), "signal: 9", "SIGKILL").is_ok());
    let error = check_sigkill("service", None, "exit status: 1", "SIGKILL").unwrap_err();
    assert!(error.contains("exit status: 1"), "{error}");
}
