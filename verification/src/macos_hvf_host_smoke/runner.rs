//! The course of a whole qualification of the public host service: what it needs
//! before it starts, and how its phases add up to a report.

use vstd::prelude::*;
use crate::digest::{canonical_git_revision, is_git_revision};
use crate::linux_kvm_recovery_smoke::runner::{report_count, reported_count};
use crate::linux_kvm_recovery_smoke::prepare::{first_fault, missing_fact};
use crate::linux_kvm_recovery_smoke::soak_runner::{Progress, RuntimeInventory};
use crate::macos_hvf_host_smoke::report::{
    MacosHvfArtifactEvidence, MacosHvfHostServiceSmokeReport, MacosHvfOwnerDeathEvidence,
    MacosHvfPublicLifecycleEvidence, MacosHvfPublicSoakEvidence,
};
use crate::model::CapabilityStatus;
use crate::native_checkpoint::state::FileKind;
use crate::path::{absolute, components, is_absolute, join, joined, same_path};
use crate::service::{
    fits_socket_address, validate_unix_socket_path, MACOS_SOCKET_PATH_CAPACITY, SERVICE_SOCKET_NAME,
};
use crate::text::{append_decimal, decimal};

verus! {

pub const MIN_MACOS_HVF_HOST_SERVICE_SOAK_ITERATIONS: u32 = 25;

pub const MAX_MACOS_HVF_HOST_SERVICE_SOAK_ITERATIONS: u32 = 1_000;

/// How the directory of a qualification is named, before its nonce.
pub const EVIDENCE_DIRECTORY_PREFIX: &'static str = "hvf-";

/// The directory of a host service below that of its phase.
pub const SERVICE_DIRECTORY_NAME: &'static str = "s";

/// The inputs of one qualification of the public host service.
#[derive(Clone, Debug)]
pub struct MacosHvfHostServiceSmokeConfig {
    pub host_service_executable: String,
    pub shim: String,
    pub system_image_manifest: String,
    pub bundle: String,
    pub work_parent: String,
    pub iterations: u32,
    pub source_revision: Option<String>,
}

/// The failure for a number of generations that is out of range.
pub open spec fn iterations_failure() -> Seq<char> {
    "public Host Service soak iterations must be in "@ + decimal(
        MIN_MACOS_HVF_HOST_SERVICE_SOAK_ITERATIONS as nat,
    ) + "..="@ + decimal(MAX_MACOS_HVF_HOST_SERVICE_SOAK_ITERATIONS as nat)
}

/// Whether so many generations can be asked for.
pub open spec fn iterations_allowed(iterations: u32) -> bool {
    MIN_MACOS_HVF_HOST_SERVICE_SOAK_ITERATIONS <= iterations
        <= MAX_MACOS_HVF_HOST_SERVICE_SOAK_ITERATIONS
}

/// Checks how many generations are asked for.
pub fn check_iterations(iterations: u32) -> (result: Result<(), String>)
    ensures
        match result {
            Ok(()) => iterations_allowed(iterations),
            Err(message) => !iterations_allowed(iterations) && message@ == iterations_failure(),
        },
{
    if iterations >= MIN_MACOS_HVF_HOST_SERVICE_SOAK_ITERATIONS && iterations
        <= MAX_MACOS_HVF_HOST_SERVICE_SOAK_ITERATIONS {
        return Ok(());
    }
    let mut message = "public Host Service soak iterations must be in ".to_owned();
    append_decimal(&mut message, MIN_MACOS_HVF_HOST_SERVICE_SOAK_ITERATIONS as u64);
    message.append("..=");
    append_decimal(&mut message, MAX_MACOS_HVF_HOST_SERVICE_SOAK_ITERATIONS as u64);
    Err(message)
}

/// What the operating system says of an input.
#[derive(Debug)]
pub struct InputFacts {
    /// What the path names, whose it is and its permissions, or why that is not
    /// known.
    pub inspected: Result<(FileKind, u32, u32), String>,
    /// The path that it resolves to, or why that is not known.
    pub canonical: Result<String, String>,
}

/// What kind of input a path has to name.
#[derive(Clone, Copy, Debug, PartialEq, Eq, Structural)]
pub enum InputKind {
    Directory,
    File,
    Executable,
}

/// What an input has to be, in words.
pub open spec fn input_words(kind: InputKind) -> Seq<char> {
    if kind is Directory {
        " must be a plain same-UID directory: "@
    } else {
        " must be a plain same-UID file: "@
    }
}

/// Whether what a path names is of the kind that an input has to be.
pub open spec fn of_kind(found: FileKind, kind: InputKind) -> bool {
    if kind is Directory {
        found is Directory
    } else {
        found is Regular
    }
}

/// What is wrong with an input, if anything: it has to be given by the canonical
/// path of a plain file or directory of the user.
pub open spec fn input_fault(
    path: Seq<char>,
    label: Seq<char>,
    kind: InputKind,
    facts: InputFacts,
    user: u32,
) -> Option<Seq<char>> {
    if !absolute(path) {
        Some(label + " must be absolute: "@ + path)
    } else {
        match facts.inspected {
            Err(cause) => Some("failed to inspect "@ + label + " "@ + path + ": "@ + cause@),
            Ok((found, uid, mode)) => if !of_kind(found, kind) || uid != user {
                Some(label + input_words(kind) + path)
            } else if kind is Executable && mode & 0o111 == 0 {
                Some(label + " is not executable: "@ + path)
            } else {
                match facts.canonical {
                    Err(cause) => Some(
                        "failed to resolve "@ + label + " "@ + path + ": "@ + cause@,
                    ),
                    Ok(canonical) => if components(canonical@) != components(path) {
                        Some(
                            label + " must use its canonical path: "@ + path + " -> "@ + canonical@,
                        )
                    } else {
                        None
                    },
                }
            },
        }
    }
}

fn labelled(label: &str, words: &str, path: &str) -> (text: String)
    ensures
        text@ == label@ + words@ + path@,
{
    let mut text = label.to_owned();
    text.append(words);
    text.append(path);
    text
}

fn attempt_failure(attempt: &str, label: &str, path: &str, cause: &str) -> (text: String)
    ensures
        text@ == attempt@ + label@ + " "@ + path@ + ": "@ + cause@,
{
    let mut text = attempt.to_owned();
    text.append(label);
    text.append(" ");
    text.append(path);
    text.append(": ");
    text.append(cause);
    text
}

/// Checks an input, and gives the path that it resolves to.
pub fn canonical_plain_path(
    path: &str,
    label: &str,
    kind: InputKind,
    facts: &InputFacts,
    user: u32,
) -> (result: Result<String, String>)
    ensures
        match result {
            Ok(canonical) => input_fault(path@, label@, kind, *facts, user) is None
                && facts.canonical is Ok && canonical@ == facts.canonical->Ok_0@,
            Err(message) => input_fault(path@, label@, kind, *facts, user) == Some(message@),
        },
{
    if !is_absolute(path) {
        return Err(labelled(label, " must be absolute: ", path));
    }
    let (found, uid, mode) = match &facts.inspected {
        Ok(inspected) => *inspected,
        Err(cause) => return Err(attempt_failure("failed to inspect ", label, path, cause)),
    };
    let fits = match kind {
        InputKind::Directory => found == FileKind::Directory,
        _ => found == FileKind::Regular,
    };
    if !fits || uid != user {
        let words = match kind {
            InputKind::Directory => " must be a plain same-UID directory: ",
            _ => " must be a plain same-UID file: ",
        };
        return Err(labelled(label, words, path));
    }
    if kind == InputKind::Executable && mode & 0o111 == 0 {
        return Err(labelled(label, " is not executable: ", path));
    }
    match &facts.canonical {
        Err(cause) => Err(attempt_failure("failed to resolve ", label, path, cause)),
        Ok(canonical) => if same_path(canonical, path) {
            Ok(canonical.clone())
        } else {
            let mut message = labelled(label, " must use its canonical path: ", path);
            message.append(" -> ");
            message.append(canonical);
            Err(message)
        },
    }
}

/// Checks that a directory that was just made is the user's alone.
pub fn check_private_directory(path: &str, kind: FileKind, uid: u32, mode: u32, user: u32) -> (result:
    Result<(), String>)
    ensures
        match result {
            Ok(()) => kind is Directory && uid == user && mode & 0o777 == 0o700,
            Err(message) => !(kind is Directory && uid == user && mode & 0o777 == 0o700) && message@
                == "private evidence directory contract failed: "@ + path@,
        },
{
    if kind == FileKind::Directory && uid == user && mode & 0o777 == 0o700 {
        return Ok(());
    }
    let mut message = "private evidence directory contract failed: ".to_owned();
    message.append(path);
    Err(message)
}

/// What is wrong with the revision that a qualification is made of, if anything.
pub open spec fn revision_fault(revision: Option<String>) -> Option<Seq<char>> {
    match revision {
        None => Some("source revision is required for current-commit qualification"@),
        Some(revision) => if is_git_revision(revision@) {
            None
        } else {
            Some("source revision must be one canonical 40-character lowercase Git SHA"@)
        },
    }
}

/// Checks the revision that a qualification is made of.
pub fn validate_source_revision(revision: Option<String>) -> (result: Result<String, String>)
    ensures
        match result {
            Ok(accepted) => revision_fault(revision) is None && revision == Some(accepted),
            Err(message) => revision_fault(revision) == Some(message@),
        },
{
    match revision {
        None => Err("source revision is required for current-commit qualification".to_owned()),
        Some(revision) => if canonical_git_revision(&revision) {
            Ok(revision)
        } else {
            Err(
                "source revision must be one canonical 40-character lowercase Git SHA".to_owned(),
            )
        },
    }
}

/// Where a qualification keeps its evidence.
pub open spec fn evidence_root_path(work_parent: Seq<char>, nonce: Seq<char>) -> Seq<char> {
    joined(work_parent, EVIDENCE_DIRECTORY_PREFIX@ + nonce)
}

/// Where a qualification keeps its evidence.
pub fn qualification_evidence_root(work_parent: &str, nonce: &str) -> (path: String)
    ensures
        path@ == evidence_root_path(work_parent@, nonce@),
{
    let mut name = EVIDENCE_DIRECTORY_PREFIX.to_owned();
    name.append(nonce);
    join(work_parent, &name)
}

/// A phase of a qualification.
#[derive(Clone, Copy, Debug, PartialEq, Eq, Structural)]
pub enum Phase {
    Lifecycle,
    OwnerDeath,
    Soak,
}

/// The directory of a phase.
pub open spec fn phase_name(phase: Phase) -> Seq<char> {
    match phase {
        Phase::Lifecycle => "lifecycle"@,
        Phase::OwnerDeath => "owner-death"@,
        Phase::Soak => "soak"@,
    }
}

impl Phase {
    /// The directory of the phase.
    pub fn name(self) -> (name: &'static str)
        ensures
            name@ == phase_name(self),
    {
        match self {
            Phase::Lifecycle => "lifecycle",
            Phase::OwnerDeath => "owner-death",
            Phase::Soak => "soak",
        }
    }
}

/// Where the host service of a phase lives.
pub open spec fn service_root_path(evidence_root: Seq<char>, phase: Phase) -> Seq<char> {
    joined(joined(evidence_root, phase_name(phase)), SERVICE_DIRECTORY_NAME@)
}

/// Where the host service of a phase lives.
pub fn phase_service_root(evidence_root: &str, phase: Phase) -> (path: String)
    ensures
        path@ == service_root_path(evidence_root@, phase),
{
    join(&join(evidence_root, phase.name()), SERVICE_DIRECTORY_NAME)
}

/// The socket of the host service of a phase.
pub open spec fn phase_socket(evidence_root: Seq<char>, phase: Phase) -> Seq<char> {
    joined(service_root_path(evidence_root, phase), SERVICE_SOCKET_NAME@)
}

/// What is wrong with the socket of a phase, if anything.
pub open spec fn phase_socket_fault(evidence_root: Seq<char>, phase: Phase) -> Option<Seq<char>> {
    let socket = phase_socket(evidence_root, phase);
    if fits_socket_address(socket, MACOS_SOCKET_PATH_CAPACITY as nat) {
        None
    } else {
        Some(
            "macOS HVF qualification Host Service endpoint"@
                + " exceeds the Unix socket path limit: "@ + socket,
        )
    }
}

/// What is wrong with the sockets of a qualification, if anything.
pub open spec fn sockets_fault(evidence_root: Seq<char>) -> Option<Seq<char>> {
    let first = phase_socket_fault(evidence_root, Phase::Lifecycle);
    let second = phase_socket_fault(evidence_root, Phase::OwnerDeath);
    if first is Some {
        first
    } else if second is Some {
        second
    } else {
        phase_socket_fault(evidence_root, Phase::Soak)
    }
}

fn check_phase_socket(evidence_root: &str, phase: Phase) -> (result: Result<(), String>)
    ensures
        match result {
            Ok(()) => phase_socket_fault(evidence_root@, phase) is None,
            Err(message) => phase_socket_fault(evidence_root@, phase) == Some(message@),
        },
{
    let socket = join(&phase_service_root(evidence_root, phase), SERVICE_SOCKET_NAME);
    match validate_unix_socket_path(
        &socket,
        "macOS HVF qualification Host Service endpoint",
        MACOS_SOCKET_PATH_CAPACITY,
    ) {
        Ok(()) => Ok(()),
        Err(error) => Err(error.message),
    }
}

/// Checks that the address of a socket can hold the path of every phase's.
pub fn validate_qualification_socket_paths(evidence_root: &str) -> (result: Result<(), String>)
    ensures
        match result {
            Ok(()) => sockets_fault(evidence_root@) is None,
            Err(message) => sockets_fault(evidence_root@) == Some(message@),
        },
{
    match check_phase_socket(evidence_root, Phase::Lifecycle) {
        Ok(()) => {},
        Err(message) => return Err(message),
    }
    match check_phase_socket(evidence_root, Phase::OwnerDeath) {
        Ok(()) => {},
        Err(message) => return Err(message),
    }
    check_phase_socket(evidence_root, Phase::Soak)
}

/// What is known of the host before a qualification.
#[derive(Debug)]
pub struct HostFacts {
    pub user: u32,
    pub work_parent: InputFacts,
    pub executable: InputFacts,
    pub shim: InputFacts,
    pub manifest: InputFacts,
    pub bundle: InputFacts,
    /// The configuration digest of the bundle, or why it could not be loaded.
    pub bundle_digest: Result<String, String>,
    /// The digest of a file, or the message that it could not be read.
    pub executable_sha256: Result<String, String>,
    pub shim_sha256: Result<String, String>,
    pub manifest_sha256: Result<String, String>,
    /// The nonce of the qualification, or the message that there is none.
    pub nonce: Result<String, String>,
}

/// What is wrong with the inputs of a qualification, if anything.
pub open spec fn inputs_fault(
    config: MacosHvfHostServiceSmokeConfig,
    facts: HostFacts,
) -> Option<Seq<char>> {
    let user = facts.user;
    let work_parent = input_fault(
        config.work_parent@,
        "qualification work parent"@,
        InputKind::Directory,
        facts.work_parent,
        user,
    );
    let executable = input_fault(
        config.host_service_executable@,
        "Host Service executable"@,
        InputKind::Executable,
        facts.executable,
        user,
    );
    let shim = input_fault(
        config.shim@,
        "entitlement-signed libkrun shim"@,
        InputKind::Executable,
        facts.shim,
        user,
    );
    let manifest = input_fault(
        config.system_image_manifest@,
        "system-image manifest"@,
        InputKind::File,
        facts.manifest,
        user,
    );
    let bundle = input_fault(
        config.bundle@,
        "source OCI bundle"@,
        InputKind::Directory,
        facts.bundle,
        user,
    );
    first_fault(
        work_parent,
        first_fault(executable, first_fault(shim, first_fault(manifest, bundle))),
    )
}

/// What is wrong with the digests and the revision of a qualification, if
/// anything.
pub open spec fn provenance_fault(
    config: MacosHvfHostServiceSmokeConfig,
    facts: HostFacts,
) -> Option<Seq<char>> {
    let loaded = match facts.bundle_digest {
        Ok(_) => None,
        Err(cause) => Some("failed to validate source OCI bundle: "@ + cause@),
    };
    first_fault(
        loaded,
        first_fault(
            revision_fault(config.source_revision),
            first_fault(
                missing_fact(facts.executable_sha256),
                first_fault(
                    missing_fact(facts.shim_sha256),
                    first_fault(missing_fact(facts.manifest_sha256), missing_fact(facts.nonce)),
                ),
            ),
        ),
    )
}

/// Where a qualification would keep its evidence.
pub open spec fn planned_root(facts: HostFacts) -> Seq<char> {
    evidence_root_path(facts.work_parent.canonical->Ok_0@, facts.nonce->Ok_0@)
}

/// Why a qualification is refused before anything is made, if it is.
pub open spec fn preparation_fault(
    config: MacosHvfHostServiceSmokeConfig,
    facts: HostFacts,
) -> Option<Seq<char>> {
    if !iterations_allowed(config.iterations) {
        Some(iterations_failure())
    } else {
        first_fault(
            inputs_fault(config, facts),
            first_fault(provenance_fault(config, facts), sockets_fault(planned_root(facts))),
        )
    }
}

/// A qualification whose inputs were checked.
#[derive(Debug)]
pub struct PreparedRun {
    pub evidence_root: String,
    pub nonce: String,
    pub iterations: u32,
    pub artifacts: MacosHvfArtifactEvidence,
}

/// What the artifacts of a checked qualification are.
pub open spec fn artifacts_hold(
    artifacts: MacosHvfArtifactEvidence,
    config: MacosHvfHostServiceSmokeConfig,
    facts: HostFacts,
) -> bool {
    &&& artifacts.host_service_executable@ == facts.executable.canonical->Ok_0@
    &&& artifacts.host_service_executable_sha256@ == facts.executable_sha256->Ok_0@
    &&& artifacts.shim@ == facts.shim.canonical->Ok_0@
    &&& artifacts.shim_sha256@ == facts.shim_sha256->Ok_0@
    &&& artifacts.system_image_manifest@ == facts.manifest.canonical->Ok_0@
    &&& artifacts.system_image_manifest_sha256@ == facts.manifest_sha256->Ok_0@
    &&& artifacts.source_bundle@ == facts.bundle.canonical->Ok_0@
    &&& artifacts.source_bundle_config_digest@ == facts.bundle_digest->Ok_0@
    &&& config.source_revision is Some
    &&& artifacts.source_revision@ == config.source_revision->0@
}

fn decoded_digest(digest: Result<String, String>) -> (result: Result<String, String>)
    ensures
        match digest {
            Ok(text) => result matches Ok(same) && same@ == text@,
            Err(cause) => result matches Err(message) && message@
                == "failed to validate source OCI bundle: "@ + cause@,
        },
{
    match digest {
        Ok(text) => Ok(text),
        Err(cause) => {
            let mut message = "failed to validate source OCI bundle: ".to_owned();
            message.append(&cause);
            Err(message)
        },
    }
}

/// The canonical paths of the inputs.
struct CheckedInputs {
    work_parent: String,
    executable: String,
    shim: String,
    manifest: String,
    bundle: String,
}

fn check_inputs(config: &MacosHvfHostServiceSmokeConfig, facts: &HostFacts) -> (result: Result<
    CheckedInputs,
    String,
>)
    ensures
        match result {
            Ok(inputs) => {
                &&& inputs_fault(*config, *facts) is None
                &&& facts.work_parent.canonical is Ok
                &&& inputs.work_parent@ == facts.work_parent.canonical->Ok_0@
                &&& inputs.executable@ == facts.executable.canonical->Ok_0@
                &&& inputs.shim@ == facts.shim.canonical->Ok_0@
                &&& inputs.manifest@ == facts.manifest.canonical->Ok_0@
                &&& inputs.bundle@ == facts.bundle.canonical->Ok_0@
            },
            Err(message) => inputs_fault(*config, *facts) == Some(message@),
        },
{
    let user = facts.user;
    let work_parent = match canonical_plain_path(
        &config.work_parent,
        "qualification work parent",
        InputKind::Directory,
        &facts.work_parent,
        user,
    ) {
        Ok(path) => path,
        Err(message) => return Err(message),
    };
    let executable = match canonical_plain_path(
        &config.host_service_executable,
        "Host Service executable",
        InputKind::Executable,
        &facts.executable,
        user,
    ) {
        Ok(path) => path,
        Err(message) => return Err(message),
    };
    let shim = match canonical_plain_path(
        &config.shim,
        "entitlement-signed libkrun shim",
        InputKind::Executable,
        &facts.shim,
        user,
    ) {
        Ok(path) => path,
        Err(message) => return Err(message),
    };
    let manifest = match canonical_plain_path(
        &config.system_image_manifest,
        "system-image manifest",
        InputKind::File,
        &facts.manifest,
        user,
    ) {
        Ok(path) => path,
        Err(message) => return Err(message),
    };
    match canonical_plain_path(
        &config.bundle,
        "source OCI bundle",
        InputKind::Directory,
        &facts.bundle,
        user,
    ) {
        Ok(bundle) => Ok(CheckedInputs { work_parent, executable, shim, manifest, bundle }),
        Err(message) => Err(message),
    }
}

impl PreparedRun {
    /// Checks the inputs of a qualification. Nothing has to exist for it yet.
    pub fn open(config: MacosHvfHostServiceSmokeConfig, facts: HostFacts) -> (result: Result<
        PreparedRun,
        String,
    >)
        ensures
            match result {
                Ok(prepared) => {
                    &&& preparation_fault(config, facts) is None
                    &&& prepared.evidence_root@ == planned_root(facts)
                    &&& prepared.nonce@ == facts.nonce->Ok_0@
                    &&& prepared.iterations == config.iterations
                    &&& artifacts_hold(prepared.artifacts, config, facts)
                },
                Err(message) => preparation_fault(config, facts) == Some(message@),
            },
    {
        match check_iterations(config.iterations) {
            Ok(()) => {},
            Err(message) => return Err(message),
        }
        let inputs = match check_inputs(&config, &facts) {
            Ok(inputs) => inputs,
            Err(message) => return Err(message),
        };
        let digest = match decoded_digest(facts.bundle_digest) {
            Ok(digest) => digest,
            Err(message) => return Err(message),
        };
        let revision = match validate_source_revision(config.source_revision) {
            Ok(revision) => revision,
            Err(message) => return Err(message),
        };
        let executable_sha256 = match facts.executable_sha256 {
            Ok(text) => text,
            Err(message) => return Err(message),
        };
        let shim_sha256 = match facts.shim_sha256 {
            Ok(text) => text,
            Err(message) => return Err(message),
        };
        let manifest_sha256 = match facts.manifest_sha256 {
            Ok(text) => text,
            Err(message) => return Err(message),
        };
        let nonce = match facts.nonce {
            Ok(text) => text,
            Err(message) => return Err(message),
        };
        let evidence_root = qualification_evidence_root(&inputs.work_parent, &nonce);
        match validate_qualification_socket_paths(&evidence_root) {
            Ok(()) => {},
            Err(message) => return Err(message),
        }
        let artifacts = MacosHvfArtifactEvidence {
            host_service_executable: inputs.executable,
            host_service_executable_sha256: executable_sha256,
            shim: inputs.shim,
            shim_sha256,
            system_image_manifest: inputs.manifest,
            system_image_manifest_sha256: manifest_sha256,
            source_bundle: inputs.bundle,
            source_bundle_config_digest: digest,
            source_revision: revision,
        };
        Ok(PreparedRun { evidence_root, nonce, iterations: config.iterations, artifacts })
    }

    /// The directories that the qualification needs, each after the one that it
    /// lies in.
    pub fn directories(&self) -> (paths: Vec<String>)
        ensures
            crate::text::string_views(paths@) == planned_directories(self.evidence_root@),
    {
        let mut paths: Vec<String> = Vec::new();
        paths.push(self.evidence_root.clone());
        paths.push(join(&self.evidence_root, Phase::Lifecycle.name()));
        paths.push(phase_service_root(&self.evidence_root, Phase::Lifecycle));
        paths.push(join(&self.evidence_root, Phase::OwnerDeath.name()));
        paths.push(phase_service_root(&self.evidence_root, Phase::OwnerDeath));
        paths.push(join(&self.evidence_root, Phase::Soak.name()));
        paths.push(phase_service_root(&self.evidence_root, Phase::Soak));
        assert(crate::text::string_views(paths@) =~= planned_directories(self.evidence_root@));
        paths
    }
}

/// The directories of a qualification.
pub open spec fn planned_directories(root: Seq<char>) -> Seq<Seq<char>> {
    seq![
        root,
        joined(root, phase_name(Phase::Lifecycle)),
        service_root_path(root, Phase::Lifecycle),
        joined(root, phase_name(Phase::OwnerDeath)),
        service_root_path(root, Phase::OwnerDeath),
        joined(root, phase_name(Phase::Soak)),
        service_root_path(root, Phase::Soak),
    ]
}

/// A qualification with a wrong number of generations, a wrong input or a wrong
/// revision is refused before any directory is planned.
pub proof fn wrong_inputs_plan_nothing(config: MacosHvfHostServiceSmokeConfig, facts: HostFacts)
    requires
        !iterations_allowed(config.iterations) || inputs_fault(config, facts) is Some
            || revision_fault(config.source_revision) is Some,
    ensures
        preparation_fault(config, facts) is Some,
{
}

/// Whether everything is cleaned up behind a lifecycle.
pub open spec fn phase_clean(evidence: MacosHvfPublicLifecycleEvidence) -> bool {
    &&& evidence.service_descriptor_inventory_restored
    &&& evidence.vm_processes_reaped
    &&& evidence.endpoint_inventory_restored
    &&& evidence.bundle_handoffs_clean
    &&& evidence.runtime_shares_clean
    &&& evidence.recovery_reports_clean
    &&& evidence.service_socket_removed
    &&& evidence.service_exit_success
}

/// How a failure to stop the host service is reported after another failure.
pub open spec fn shutdown_failure(primary: Option<String>, error: Seq<char>) -> Seq<char> {
    match primary {
        Some(primary) => primary@ + "; Host Service shutdown also failed: "@ + error,
        None => error,
    }
}


/// One step of a lifecycle phase.
#[derive(Clone, Copy, Debug, PartialEq, Eq, Structural)]
pub enum PhaseStep {
    /// Start the host service and wait for its socket.
    Spawn,
    /// Connect to it.
    Connect,
    /// Count its descriptors.
    Descriptors,
    /// Go through the lifecycle.
    Run,
    /// Wait until its descriptors are as before, and count them.
    DescriptorsRestored,
    /// Wait until the machine's processes are gone.
    Reap,
    /// Wait until the endpoints are as before.
    Endpoints,
    /// Look into the runtime directory.
    Inventory,
    /// Stop the host service.
    Terminate,
    /// Look for its socket.
    SocketRemoved,
    /// Nothing is left to do.
    Complete,
    /// The run has failed.
    Stopped,
}

/// A lifecycle phase under way. The first failure of the lifecycle itself is kept
/// until everything is cleaned up.
#[derive(Debug)]
pub struct PhaseRun {
    pub step: PhaseStep,
    pub primary: Option<String>,
    pub evidence: MacosHvfPublicLifecycleEvidence,
}

/// The step that follows a step.
pub open spec fn phase_step_successor(step: PhaseStep) -> PhaseStep {
    match step {
        PhaseStep::Spawn => PhaseStep::Connect,
        PhaseStep::Connect => PhaseStep::Descriptors,
        PhaseStep::Descriptors => PhaseStep::Run,
        PhaseStep::Run => PhaseStep::DescriptorsRestored,
        PhaseStep::DescriptorsRestored => PhaseStep::Reap,
        PhaseStep::Reap => PhaseStep::Endpoints,
        PhaseStep::Endpoints => PhaseStep::Inventory,
        PhaseStep::Inventory => PhaseStep::Terminate,
        PhaseStep::Terminate => PhaseStep::SocketRemoved,
        PhaseStep::SocketRemoved => PhaseStep::Complete,
        PhaseStep::Complete => PhaseStep::Complete,
        PhaseStep::Stopped => PhaseStep::Stopped,
    }
}

fn phase_step_after(step: PhaseStep) -> (next: PhaseStep)
    ensures
        next == phase_step_successor(step),
{
    match step {
        PhaseStep::Spawn => PhaseStep::Connect,
        PhaseStep::Connect => PhaseStep::Descriptors,
        PhaseStep::Descriptors => PhaseStep::Run,
        PhaseStep::Run => PhaseStep::DescriptorsRestored,
        PhaseStep::DescriptorsRestored => PhaseStep::Reap,
        PhaseStep::Reap => PhaseStep::Endpoints,
        PhaseStep::Endpoints => PhaseStep::Inventory,
        PhaseStep::Inventory => PhaseStep::Terminate,
        PhaseStep::Terminate => PhaseStep::SocketRemoved,
        PhaseStep::SocketRemoved => PhaseStep::Complete,
        PhaseStep::Complete => PhaseStep::Complete,
        PhaseStep::Stopped => PhaseStep::Stopped,
    }
}

/// The place of a step in the course of the run.
pub open spec fn phase_step_rank(step: PhaseStep) -> int {
    match step {
        PhaseStep::Spawn => 0,
        PhaseStep::Connect => 1,
        PhaseStep::Descriptors => 2,
        PhaseStep::Run => 3,
        PhaseStep::DescriptorsRestored => 4,
        PhaseStep::Reap => 5,
        PhaseStep::Endpoints => 6,
        PhaseStep::Inventory => 7,
        PhaseStep::Terminate => 8,
        PhaseStep::SocketRemoved => 9,
        PhaseStep::Complete => 10,
        PhaseStep::Stopped => -1,
    }
}

/// Whether a run went on from a step: it has shown this, and a fault stops it
/// where there is one.
pub open spec fn moved(
    before: PhaseRun,
    evidence: MacosHvfPublicLifecycleEvidence,
    fault: Option<Seq<char>>,
    outcome: (PhaseRun, Progress),
) -> bool {
    let (after, progress) = outcome;
    &&& after.primary == before.primary
    &&& after.evidence == evidence
    &&& match fault {
        Some(reason) => progress matches Progress::Failed(message) && message@ == reason
            && after.step is Stopped,
        None => progress is Next && after.step == phase_step_successor(before.step),
    }
}

/// Whether a run was left as it was, at a step that asks for something else.
pub open spec fn misplaced(before: PhaseRun, outcome: (PhaseRun, Progress)) -> bool {
    outcome.1 is Misplaced && outcome.0 == before
}

/// Whether a failure at a step leaves a host service that has to be stopped at
/// once.
pub fn stops_service(step: PhaseStep) -> (holds: bool)
    ensures
        holds == (step is Connect || step is Terminate),
{
    step == PhaseStep::Connect || step == PhaseStep::Terminate
}

impl PhaseRun {
    /// What a run has shown by the time it is at its step.
    pub open spec fn shown(self) -> bool {
        let rank = phase_step_rank(self.step);
        let shown = self.evidence;
        &&& rank > 9 ==> self.primary is None && phase_clean(shown)
    }

    /// A lifecycle phase before its first step.
    pub fn start(evidence: MacosHvfPublicLifecycleEvidence) -> (run: PhaseRun)
        ensures
            run == (PhaseRun { step: PhaseStep::Spawn, primary: None, evidence }),
            run.shown(),
    {
        PhaseRun { step: PhaseStep::Spawn, primary: None, evidence }
    }

    /// Goes on with what was shown, or stops at a fault.
    fn go_on(
        step: PhaseStep,
        primary: Option<String>,
        evidence: MacosHvfPublicLifecycleEvidence,
        fault: Option<String>,
    ) -> (outcome: (PhaseRun, Progress))
        ensures
            match fault {
                Some(reason) => outcome.0 == (PhaseRun {
                    step: PhaseStep::Stopped,
                    primary,
                    evidence,
                })
                    && outcome.1 == Progress::Failed(reason),
                None => outcome.0 == (PhaseRun {
                    step: phase_step_successor(step),
                    primary,
                    evidence,
                })
                    && outcome.1 is Next,
            },
    {
        match fault {
            Some(reason) => (
                PhaseRun { step: PhaseStep::Stopped, primary, evidence },
                Progress::Failed(reason),
            ),
            None => (PhaseRun { step: phase_step_after(step), primary, evidence }, Progress::Next),
        }
    }

    /// Stops at a step that could not be carried out.
    pub fn failed(self, reason: String) -> (outcome: (PhaseRun, Progress))
        ensures
            if self.step is Complete || self.step is Stopped {
                misplaced(self, outcome)
            } else {
                moved(self, self.evidence, Some(reason@), outcome)
            },
            self.shown() ==> outcome.0.shown(),
    {
        if self.step == PhaseStep::Complete || self.step == PhaseStep::Stopped {
            return (self, Progress::Misplaced);
        }
        let PhaseRun { step, primary, evidence } = self;
        Self::go_on(step, primary, evidence, Some(reason))
    }

    /// Takes that the host service has a private socket.
    pub fn spawned(self) -> (outcome: (PhaseRun, Progress))
        ensures
            if self.step is Spawn {
                moved(
                    self,
                    MacosHvfPublicLifecycleEvidence { socket_private: true, ..self.evidence },
                    None,
                    outcome,
                )
            } else {
                misplaced(self, outcome)
            },
            self.shown() ==> outcome.0.shown(),
    {
        if self.step != PhaseStep::Spawn {
            return (self, Progress::Misplaced);
        }
        let PhaseRun { step, primary, evidence } = self;
        let fault: Option<String> = None;
        let shown = MacosHvfPublicLifecycleEvidence { socket_private: true, ..evidence };
        Self::go_on(step, primary, shown, fault)
    }

    /// Takes that the host service was connected to.
    pub fn connected(self) -> (outcome: (PhaseRun, Progress))
        ensures
            if self.step is Connect {
                moved(
                    self,
                    self.evidence,
                    None,
                    outcome,
                )
            } else {
                misplaced(self, outcome)
            },
            self.shown() ==> outcome.0.shown(),
    {
        if self.step != PhaseStep::Connect {
            return (self, Progress::Misplaced);
        }
        let PhaseRun { step, primary, evidence } = self;
        let fault: Option<String> = None;
        let shown = evidence;
        Self::go_on(step, primary, shown, fault)
    }

    /// Takes how many descriptors the host service has.
    pub fn descriptors_counted(self, count: usize) -> (outcome: (PhaseRun, Progress))
        ensures
            if self.step is Descriptors {
                moved(
                    self,
                    MacosHvfPublicLifecycleEvidence {
                        open_descriptors_before: reported_count(count),
                        ..self.evidence
                    },
                    None,
                    outcome,
                )
            } else {
                misplaced(self, outcome)
            },
            self.shown() ==> outcome.0.shown(),
    {
        if self.step != PhaseStep::Descriptors {
            return (self, Progress::Misplaced);
        }
        let PhaseRun { step, primary, evidence } = self;
        let fault: Option<String> = None;
        let shown = MacosHvfPublicLifecycleEvidence {
            open_descriptors_before: report_count(count),
            ..evidence
        };
        Self::go_on(step, primary, shown, fault)
    }

    /// Takes what the lifecycle has shown, and why it failed if it did.
    pub fn lifecycle_ran(
        self,
        evidence: MacosHvfPublicLifecycleEvidence,
        failure: Option<String>,
    ) -> (outcome: (PhaseRun, Progress))
        ensures
            if self.step is Run {
                outcome.0 == (PhaseRun {
                    step: PhaseStep::DescriptorsRestored,
                    primary: failure,
                    evidence,
                }) && outcome.1 is Next
            } else {
                misplaced(self, outcome)
            },
            self.shown() ==> outcome.0.shown(),
    {
        if self.step != PhaseStep::Run {
            return (self, Progress::Misplaced);
        }
        (
            PhaseRun { step: PhaseStep::DescriptorsRestored, primary: failure, evidence },
            Progress::Next,
        )
    }

    /// Takes whether the descriptors are as before, and how many there are.
    pub fn descriptors_restored(self, restored: bool, count: usize) -> (outcome: (
        PhaseRun,
        Progress,
    ))
        ensures
            if self.step is DescriptorsRestored {
                moved(
                    self,
                    MacosHvfPublicLifecycleEvidence {
                        open_descriptors_after: reported_count(count),
                        service_descriptor_inventory_restored: restored,
                        ..self.evidence
                    },
                    None,
                    outcome,
                )
            } else {
                misplaced(self, outcome)
            },
            self.shown() ==> outcome.0.shown(),
    {
        if self.step != PhaseStep::DescriptorsRestored {
            return (self, Progress::Misplaced);
        }
        let PhaseRun { step, primary, evidence } = self;
        let fault: Option<String> = None;
        let shown = MacosHvfPublicLifecycleEvidence {
            open_descriptors_after: report_count(count),
            service_descriptor_inventory_restored: restored,
            ..evidence
        };
        Self::go_on(step, primary, shown, fault)
    }

    /// Takes whether the machine's processes are gone.
    pub fn reaped(self, reaped: bool) -> (outcome: (PhaseRun, Progress))
        ensures
            if self.step is Reap {
                moved(
                    self,
                    MacosHvfPublicLifecycleEvidence {
                        vm_processes_reaped: reaped,
                        ..self.evidence
                    },
                    None,
                    outcome,
                )
            } else {
                misplaced(self, outcome)
            },
            self.shown() ==> outcome.0.shown(),
    {
        if self.step != PhaseStep::Reap {
            return (self, Progress::Misplaced);
        }
        let PhaseRun { step, primary, evidence } = self;
        let fault: Option<String> = None;
        let shown = MacosHvfPublicLifecycleEvidence { vm_processes_reaped: reaped, ..evidence };
        Self::go_on(step, primary, shown, fault)
    }

    /// Takes whether the endpoints are as before.
    pub fn endpoints_restored(self, restored: bool) -> (outcome: (PhaseRun, Progress))
        ensures
            if self.step is Endpoints {
                moved(
                    self,
                    MacosHvfPublicLifecycleEvidence {
                        endpoint_inventory_restored: restored,
                        ..self.evidence
                    },
                    None,
                    outcome,
                )
            } else {
                misplaced(self, outcome)
            },
            self.shown() ==> outcome.0.shown(),
    {
        if self.step != PhaseStep::Endpoints {
            return (self, Progress::Misplaced);
        }
        let PhaseRun { step, primary, evidence } = self;
        let fault: Option<String> = None;
        let shown = MacosHvfPublicLifecycleEvidence {
            endpoint_inventory_restored: restored,
            ..evidence
        };
        Self::go_on(step, primary, shown, fault)
    }

    /// Takes what is in the runtime directory.
    pub fn inventoried(self, inventory: RuntimeInventory) -> (outcome: (PhaseRun, Progress))
        ensures
            if self.step is Inventory {
                moved(
                    self,
                    MacosHvfPublicLifecycleEvidence {
                        bundle_handoffs_clean: inventory.bundle_handoffs_clean,
                        runtime_shares_clean: inventory.runtime_shares_clean,
                        recovery_reports_clean: inventory.recovery_reports_clean,
                        console_files_created: inventory.console_files,
                        ..self.evidence
                    },
                    None,
                    outcome,
                )
            } else {
                misplaced(self, outcome)
            },
            self.shown() ==> outcome.0.shown(),
    {
        if self.step != PhaseStep::Inventory {
            return (self, Progress::Misplaced);
        }
        let PhaseRun { step, primary, evidence } = self;
        let fault: Option<String> = None;
        let shown = MacosHvfPublicLifecycleEvidence {
            bundle_handoffs_clean: inventory.bundle_handoffs_clean,
            runtime_shares_clean: inventory.runtime_shares_clean,
            recovery_reports_clean: inventory.recovery_reports_clean,
            console_files_created: inventory.console_files,
            ..evidence
        };
        Self::go_on(step, primary, shown, fault)
    }

    /// Takes whether the host service ended well, or why it could not be stopped.
    pub fn terminated(self, result: Result<bool, String>) -> (outcome: (PhaseRun, Progress))
        ensures
            if self.step is Terminate {
                match result {
                    Ok(success) => moved(
                        self,
                        MacosHvfPublicLifecycleEvidence {
                            service_exit_success: success,
                            ..self.evidence
                        },
                        None,
                        outcome,
                    ),
                    Err(error) => moved(
                        self,
                        self.evidence,
                        Some(shutdown_failure(self.primary, error@)),
                        outcome,
                    ),
                }
            } else {
                misplaced(self, outcome)
            },
            self.shown() ==> outcome.0.shown(),
    {
        if self.step != PhaseStep::Terminate {
            return (self, Progress::Misplaced);
        }
        let PhaseRun { step, primary, evidence } = self;
        match result {
            Ok(success) => {
                let shown = MacosHvfPublicLifecycleEvidence {
                    service_exit_success: success,
                    ..evidence
                };
                Self::go_on(step, primary, shown, None)
            },
            Err(error) => {
                let reason = match &primary {
                    Some(first) => {
                        let mut reason = first.clone();
                        reason.append("; Host Service shutdown also failed: ");
                        reason.append(&error);
                        reason
                    },
                    None => error,
                };
                Self::go_on(step, primary, evidence, Some(reason))
            },
        }
    }

    /// Takes whether the socket is gone. The first failure of the lifecycle counts
    /// before what was not cleaned up.
    pub fn socket_checked(self, absent: bool) -> (outcome: (PhaseRun, Progress))
        ensures
            if self.step is SocketRemoved {
                let shown = MacosHvfPublicLifecycleEvidence {
                    service_socket_removed: absent,
                    ..self.evidence
                };
                moved(
                    self,
                    shown,
                    match self.primary {
                        Some(primary) => Some(primary@),
                        None => if phase_clean(shown) {
                            None
                        } else {
                            Some(
                                "public lifecycle did not restore all Host Service cleanup baselines"@,
                            )
                        },
                    },
                    outcome,
                )
            } else {
                misplaced(self, outcome)
            },
            self.shown() ==> outcome.0.shown(),
    {
        if self.step != PhaseStep::SocketRemoved {
            return (self, Progress::Misplaced);
        }
        let PhaseRun { step, primary, evidence } = self;
        let clean = evidence.service_descriptor_inventory_restored && evidence.vm_processes_reaped
            && evidence.endpoint_inventory_restored && evidence.bundle_handoffs_clean
            && evidence.runtime_shares_clean && evidence.recovery_reports_clean && absent
            && evidence.service_exit_success;
        let fault: Option<String> = match &primary {
            Some(primary) => Some(primary.clone()),
            None => if clean {
                None
            } else {
                Some(
                    "public lifecycle did not restore all Host Service cleanup baselines".to_owned(),
                )
            },
        };
        let shown = MacosHvfPublicLifecycleEvidence { service_socket_removed: absent, ..evidence };
        Self::go_on(step, primary, shown, fault)
    }
}

/// A lifecycle phase that has gone through all its steps had no failure and left
/// nothing behind.
pub proof fn completed_phases_are_clean(run: PhaseRun)
    requires
        run.step is Complete,
        run.shown(),
    ensures
        run.primary is None,
        phase_clean(run.evidence),
{
}

/// One step of a qualification.
#[derive(Clone, Copy, Debug, PartialEq, Eq, Structural)]
pub enum QualificationStep {
    /// Check the inputs.
    Prepare,
    /// Keep the report with its artifacts.
    PersistInputs,
    /// Run a phase.
    Run(Phase),
    /// Keep the evidence of a phase, and the report.
    Persist(Phase),
    /// Keep the concluded report.
    PersistReport,
    /// The report is final.
    Done,
}

/// A qualification under way.
#[derive(Debug)]
pub struct QualificationRun {
    pub step: QualificationStep,
    pub report: MacosHvfHostServiceSmokeReport,
}

/// Whether the phases up to a step have succeeded.
pub open spec fn phases_shown(
    step: QualificationStep,
    report: MacosHvfHostServiceSmokeReport,
) -> bool {
    match step {
        QualificationStep::Run(Phase::OwnerDeath) => report.lifecycle.succeeds(),
        QualificationStep::Run(Phase::Soak) => report.lifecycle.succeeds()
            && report.owner_death.succeeds(),
        QualificationStep::Persist(phase) => report.reason is None ==> {
            &&& report.lifecycle.succeeds()
            &&& !(phase is Lifecycle) ==> report.owner_death.succeeds()
            &&& phase is Soak ==> report.soak.succeeds()
        },
        _ => true,
    }
}

/// The message of a phase that failed.
pub open spec fn phase_failure(phase: Phase, reason: Seq<char>) -> Seq<char> {
    match phase {
        Phase::Lifecycle => "public lifecycle qualification failed: "@ + reason,
        Phase::OwnerDeath => "Host Service owner-death qualification failed: "@ + reason,
        Phase::Soak => "public Host Service soak failed: "@ + reason,
    }
}

/// The message of a phase that left something out.
pub open spec fn phase_gap(phase: Phase) -> Seq<char> {
    match phase {
        Phase::Lifecycle => "public lifecycle qualification returned incomplete evidence"@,
        Phase::OwnerDeath => "Host Service owner-death qualification returned incomplete evidence"@,
        Phase::Soak => "public Host Service soak returned incomplete evidence"@,
    }
}

/// The reasons that a phase and the report are given, if the phase failed or left
/// something out.
pub open spec fn phase_reasons(
    phase: Phase,
    result: Result<(), String>,
    succeeded: bool,
) -> Option<(Seq<char>, Seq<char>)> {
    match result {
        Err(reason) => Some((reason@, phase_failure(phase, reason@))),
        Ok(()) => if succeeded {
            None
        } else {
            Some((phase_gap(phase), phase_gap(phase)))
        },
    }
}

fn reasons_of(phase: Phase, result: Result<(), String>, succeeded: bool) -> (reasons: Option<
    (String, String),
>)
    ensures
        match reasons {
            Some((own, whole)) => phase_reasons(phase, result, succeeded) == Some((own@, whole@)),
            None => phase_reasons(phase, result, succeeded) is None,
        },
{
    match result {
        Err(reason) => {
            let mut whole = match phase {
                Phase::Lifecycle => "public lifecycle qualification failed: ",
                Phase::OwnerDeath => "Host Service owner-death qualification failed: ",
                Phase::Soak => "public Host Service soak failed: ",
            }.to_owned();
            whole.append(&reason);
            Some((reason, whole))
        },
        Ok(()) => if succeeded {
            None
        } else {
            let gap = match phase {
                Phase::Lifecycle => "public lifecycle qualification returned incomplete evidence",
                Phase::OwnerDeath => {
                    "Host Service owner-death qualification returned incomplete evidence"
                },
                Phase::Soak => "public Host Service soak returned incomplete evidence",
            };
            Some((gap.to_owned(), gap.to_owned()))
        },
    }
}

/// Whether a reason of a report is this.
pub open spec fn reason_is(reason: Option<String>, text: Seq<char>) -> bool {
    reason is Some && reason->0@ == text
}

impl QualificationRun {
    /// Whether a report is available only where everything has succeeded.
    pub open spec fn shown(self) -> bool {
        &&& phases_shown(self.step, self.report)
        &&& if self.step is PersistReport || self.step is Done {
            self.report.status is Available ==> self.report.succeeds()
        } else {
            self.report.status is Unavailable && (self.report.reason is None || self.step is Persist)
        }
    }

    /// A qualification before its first step.
    pub fn start(work_parent: String, iterations: u32) -> (run: QualificationRun)
        ensures
            run.step is Prepare,
            run.report.begins(work_parent, iterations),
            run.shown(),
    {
        QualificationRun {
            step: QualificationStep::Prepare,
            report: MacosHvfHostServiceSmokeReport::initial(work_parent, iterations),
        }
    }

    /// Takes the checked inputs, or why they were refused.
    pub fn prepared(self, result: Result<(String, MacosHvfArtifactEvidence), String>) -> (after:
        QualificationRun)
        ensures
            if self.step is Prepare {
                match result {
                    Ok((evidence_root, artifacts)) => after == (QualificationRun {
                        step: QualificationStep::PersistInputs,
                        report: MacosHvfHostServiceSmokeReport {
                            evidence_root,
                            artifacts,
                            ..self.report
                        },
                    }),
                    Err(reason) => after == (QualificationRun {
                        step: QualificationStep::Done,
                        report: MacosHvfHostServiceSmokeReport {
                            reason: Some(reason),
                            ..self.report
                        },
                    }),
                }
            } else {
                after == self
            },
            self.shown() ==> after.shown(),
    {
        if self.step != QualificationStep::Prepare {
            return self;
        }
        match result {
            Ok((evidence_root, artifacts)) => QualificationRun {
                step: QualificationStep::PersistInputs,
                report: MacosHvfHostServiceSmokeReport { evidence_root, artifacts, ..self.report },
            },
            Err(reason) => QualificationRun {
                step: QualificationStep::Done,
                report: MacosHvfHostServiceSmokeReport { reason: Some(reason), ..self.report },
            },
        }
    }

    /// Takes whether the report with its artifacts was kept.
    pub fn inputs_persisted(self, result: Result<(), String>) -> (after: QualificationRun)
        ensures
            if self.step is PersistInputs {
                match result {
                    Ok(()) => after == (QualificationRun {
                        step: QualificationStep::Run(Phase::Lifecycle),
                        report: self.report,
                    }),
                    Err(reason) => after == (QualificationRun {
                        step: QualificationStep::Done,
                        report: MacosHvfHostServiceSmokeReport {
                            reason: Some(reason),
                            ..self.report
                        },
                    }),
                }
            } else {
                after == self
            },
            self.shown() ==> after.shown(),
    {
        if self.step != QualificationStep::PersistInputs {
            return self;
        }
        match result {
            Ok(()) => QualificationRun {
                step: QualificationStep::Run(Phase::Lifecycle),
                report: self.report,
            },
            Err(reason) => QualificationRun {
                step: QualificationStep::Done,
                report: MacosHvfHostServiceSmokeReport { reason: Some(reason), ..self.report },
            },
        }
    }

    /// Takes what the lifecycle phase has shown.
    pub fn lifecycle_finished(
        self,
        evidence: MacosHvfPublicLifecycleEvidence,
        result: Result<(), String>,
    ) -> (after: QualificationRun)
        ensures
            if self.step == QualificationStep::Run(Phase::Lifecycle) {
                &&& after.step == QualificationStep::Persist(Phase::Lifecycle)
                &&& after.report == (MacosHvfHostServiceSmokeReport {
                    lifecycle: after.report.lifecycle,
                    reason: after.report.reason,
                    ..self.report
                })
                &&& match phase_reasons(Phase::Lifecycle, result, evidence.succeeds()) {
                    Some((own, whole)) => {
                        &&& after.report.lifecycle == (MacosHvfPublicLifecycleEvidence {
                            reason: after.report.lifecycle.reason,
                            ..evidence
                        })
                        &&& reason_is(after.report.lifecycle.reason, own)
                        &&& reason_is(after.report.reason, whole)
                    },
                    None => after.report.lifecycle == evidence && after.report.reason
                        == self.report.reason,
                }
            } else {
                after == self
            },
            self.shown() ==> after.shown(),
    {
        if self.step != QualificationStep::Run(Phase::Lifecycle) {
            return self;
        }
        let succeeded = evidence.is_success();
        let step = QualificationStep::Persist(Phase::Lifecycle);
        match reasons_of(Phase::Lifecycle, result, succeeded) {
            Some((own, whole)) => QualificationRun {
                step,
                report: MacosHvfHostServiceSmokeReport {
                    lifecycle: MacosHvfPublicLifecycleEvidence { reason: Some(own), ..evidence },
                    reason: Some(whole),
                    ..self.report
                },
            },
            None => QualificationRun {
                step,
                report: MacosHvfHostServiceSmokeReport { lifecycle: evidence, ..self.report },
            },
        }
    }

    /// Takes what the owner-death phase has shown.
    pub fn owner_death_finished(
        self,
        evidence: MacosHvfOwnerDeathEvidence,
        result: Result<(), String>,
    ) -> (after: QualificationRun)
        ensures
            if self.step == QualificationStep::Run(Phase::OwnerDeath) {
                &&& after.step == QualificationStep::Persist(Phase::OwnerDeath)
                &&& after.report == (MacosHvfHostServiceSmokeReport {
                    owner_death: after.report.owner_death,
                    reason: after.report.reason,
                    ..self.report
                })
                &&& match phase_reasons(Phase::OwnerDeath, result, evidence.succeeds()) {
                    Some((own, whole)) => {
                        &&& after.report.owner_death == (MacosHvfOwnerDeathEvidence {
                            reason: after.report.owner_death.reason,
                            ..evidence
                        })
                        &&& reason_is(after.report.owner_death.reason, own)
                        &&& reason_is(after.report.reason, whole)
                    },
                    None => after.report.owner_death == evidence && after.report.reason
                        == self.report.reason,
                }
            } else {
                after == self
            },
            self.shown() ==> after.shown(),
    {
        if self.step != QualificationStep::Run(Phase::OwnerDeath) {
            return self;
        }
        let succeeded = evidence.is_success();
        let step = QualificationStep::Persist(Phase::OwnerDeath);
        match reasons_of(Phase::OwnerDeath, result, succeeded) {
            Some((own, whole)) => QualificationRun {
                step,
                report: MacosHvfHostServiceSmokeReport {
                    owner_death: MacosHvfOwnerDeathEvidence { reason: Some(own), ..evidence },
                    reason: Some(whole),
                    ..self.report
                },
            },
            None => QualificationRun {
                step,
                report: MacosHvfHostServiceSmokeReport { owner_death: evidence, ..self.report },
            },
        }
    }

    /// Takes what the soak phase has shown.
    pub fn soak_finished(
        self,
        evidence: MacosHvfPublicSoakEvidence,
        result: Result<(), String>,
    ) -> (after: QualificationRun)
        ensures
            if self.step == QualificationStep::Run(Phase::Soak) {
                &&& after.step == QualificationStep::Persist(Phase::Soak)
                &&& after.report == (MacosHvfHostServiceSmokeReport {
                    soak: after.report.soak,
                    reason: after.report.reason,
                    ..self.report
                })
                &&& match phase_reasons(Phase::Soak, result, evidence.succeeds()) {
                    Some((own, whole)) => {
                        &&& after.report.soak == (MacosHvfPublicSoakEvidence {
                            reason: after.report.soak.reason,
                            ..evidence
                        })
                        &&& reason_is(after.report.soak.reason, own)
                        &&& reason_is(after.report.reason, whole)
                    },
                    None => after.report.soak == evidence && after.report.reason
                        == self.report.reason,
                }
            } else {
                after == self
            },
            self.shown() ==> after.shown(),
    {
        if self.step != QualificationStep::Run(Phase::Soak) {
            return self;
        }
        let succeeded = evidence.is_success();
        let step = QualificationStep::Persist(Phase::Soak);
        match reasons_of(Phase::Soak, result, succeeded) {
            Some((own, whole)) => QualificationRun {
                step,
                report: MacosHvfHostServiceSmokeReport {
                    soak: MacosHvfPublicSoakEvidence { reason: Some(own), ..evidence },
                    reason: Some(whole),
                    ..self.report
                },
            },
            None => QualificationRun {
                step,
                report: MacosHvfHostServiceSmokeReport { soak: evidence, ..self.report },
            },
        }
    }

    /// Takes whether the evidence of a phase and the report were kept. The
    /// qualification goes on with the next phase unless the report has a reason,
    /// and is concluded after the last.
    pub fn phase_persisted(self, evidence: Result<(), String>, report: Result<(), String>) -> (after:
        QualificationRun)
        ensures
            match self.step {
                QualificationStep::Persist(phase) => if evidence is Err || report is Err {
                    &&& after == (QualificationRun {
                        step: QualificationStep::Done,
                        report: MacosHvfHostServiceSmokeReport {
                            status: CapabilityStatus::Unavailable,
                            reason: after.report.reason,
                            ..self.report
                        },
                    })
                    &&& reason_is(
                        after.report.reason,
                        if evidence is Err {
                            evidence->Err_0@
                        } else {
                            report->Err_0@
                        },
                    )
                } else if self.report.reason is Some {
                    after == (QualificationRun {
                        step: QualificationStep::Done,
                        report: self.report,
                    })
                } else {
                    match phase {
                        Phase::Lifecycle => after == (QualificationRun {
                            step: QualificationStep::Run(Phase::OwnerDeath),
                            report: self.report,
                        }),
                        Phase::OwnerDeath => after == (QualificationRun {
                            step: QualificationStep::Run(Phase::Soak),
                            report: self.report,
                        }),
                        Phase::Soak => after.step is PersistReport && concluded(
                            self.report,
                            after.report,
                        ),
                    }
                },
                _ => after == self,
            },
            self.shown() ==> after.shown(),
    {
        let phase = match self.step {
            QualificationStep::Persist(phase) => phase,
            _ => return self,
        };
        let failure: Option<String> = match evidence {
            Err(reason) => Some(reason),
            Ok(()) => match report {
                Err(reason) => Some(reason),
                Ok(()) => None,
            },
        };
        match failure {
            Some(reason) => QualificationRun {
                step: QualificationStep::Done,
                report: MacosHvfHostServiceSmokeReport {
                    status: CapabilityStatus::Unavailable,
                    reason: Some(reason),
                    ..self.report
                },
            },
            None => if self.report.reason.is_some() {
                QualificationRun { step: QualificationStep::Done, report: self.report }
            } else {
                match phase {
                    Phase::Lifecycle => QualificationRun {
                        step: QualificationStep::Run(Phase::OwnerDeath),
                        report: self.report,
                    },
                    Phase::OwnerDeath => QualificationRun {
                        step: QualificationStep::Run(Phase::Soak),
                        report: self.report,
                    },
                    Phase::Soak => QualificationRun {
                        step: QualificationStep::PersistReport,
                        report: self.report.conclude(),
                    },
                }
            },
        }
    }

    /// Takes whether the concluded report was kept.
    pub fn report_persisted(self, result: Result<(), String>) -> (after: QualificationRun)
        ensures
            if self.step is PersistReport {
                match result {
                    Ok(()) => after == (QualificationRun {
                        step: QualificationStep::Done,
                        report: self.report,
                    }),
                    Err(reason) => after == (QualificationRun {
                        step: QualificationStep::Done,
                        report: MacosHvfHostServiceSmokeReport {
                            status: CapabilityStatus::Unavailable,
                            reason: Some(reason),
                            ..self.report
                        },
                    }),
                }
            } else {
                after == self
            },
            self.shown() ==> after.shown(),
    {
        if self.step != QualificationStep::PersistReport {
            return self;
        }
        match result {
            Ok(()) => QualificationRun { step: QualificationStep::Done, report: self.report },
            Err(reason) => QualificationRun {
                step: QualificationStep::Done,
                report: MacosHvfHostServiceSmokeReport {
                    status: CapabilityStatus::Unavailable,
                    reason: Some(reason),
                    ..self.report
                },
            },
        }
    }
}

/// Whether a report is the conclusion of another: available if that makes it the
/// report of a success, and else the same with a reason.
pub open spec fn concluded(
    before: MacosHvfHostServiceSmokeReport,
    after: MacosHvfHostServiceSmokeReport,
) -> bool {
    let claimed = MacosHvfHostServiceSmokeReport {
        status: CapabilityStatus::Available,
        ..before
    };
    if claimed.succeeds() {
        after == claimed
    } else {
        &&& after == (MacosHvfHostServiceSmokeReport {
            status: CapabilityStatus::Unavailable,
            reason: after.reason,
            ..before
        })
        &&& reason_is(
            after.reason,
            "public Host Service report failed its final completeness audit"@,
        )
    }
}

impl MacosHvfHostServiceSmokeReport {
    /// Concludes a report whose phases have all run.
    pub fn conclude(self) -> (report: MacosHvfHostServiceSmokeReport)
        ensures
            concluded(self, report),
    {
        let claimed = MacosHvfHostServiceSmokeReport {
            status: CapabilityStatus::Available,
            ..self
        };
        if claimed.is_success() {
            return claimed;
        }
        MacosHvfHostServiceSmokeReport {
            status: CapabilityStatus::Unavailable,
            reason: Some(
                "public Host Service report failed its final completeness audit".to_owned(),
            ),
            ..claimed
        }
    }
}

/// A qualification says that the host service is available only where every phase
/// has succeeded and everything was kept.
pub proof fn available_reports_succeed(run: QualificationRun)
    requires
        run.shown(),
        run.report.status is Available,
    ensures
        run.report.succeeds(),
{
}

/// Where a phase is that met no fault in so many steps.
pub open spec fn faultless_step(count: nat) -> PhaseStep
    decreases count,
{
    if count == 0 {
        PhaseStep::Spawn
    } else {
        phase_step_successor(faultless_step((count - 1) as nat))
    }
}

/// A phase that meets no fault takes every step, each behind the one it rests on, before it is
/// complete, and none after that.
pub proof fn no_step_is_left_out(count: nat)
    ensures
        faultless_step(0) is Spawn,
        faultless_step(1) is Connect,
        faultless_step(2) is Descriptors,
        faultless_step(3) is Run,
        faultless_step(4) is DescriptorsRestored,
        faultless_step(5) is Reap,
        faultless_step(6) is Endpoints,
        faultless_step(7) is Inventory,
        faultless_step(8) is Terminate,
        faultless_step(9) is SocketRemoved,
        count >= 10 ==> faultless_step(count) is Complete,
    decreases count,
{
    assert(faultless_step(0) is Spawn);
    assert(faultless_step(1) is Connect);
    assert(faultless_step(2) is Descriptors);
    assert(faultless_step(3) is Run);
    assert(faultless_step(4) is DescriptorsRestored);
    assert(faultless_step(5) is Reap);
    assert(faultless_step(6) is Endpoints);
    assert(faultless_step(7) is Inventory);
    assert(faultless_step(8) is Terminate);
    assert(faultless_step(9) is SocketRemoved);
    assert(faultless_step(10) is Complete);
    if count > 10 {
        no_step_is_left_out((count - 1) as nat);
    }
}

/// A fault stops a phase and is reported as it is, and without one it goes on to the next
/// step; either way it keeps what it has shown.
pub proof fn faults_stop_the_run(
    before: PhaseRun,
    evidence: MacosHvfPublicLifecycleEvidence,
    fault: Option<Seq<char>>,
    outcome: (PhaseRun, Progress),
)
    requires
        moved(before, evidence, fault, outcome),
    ensures
        fault is Some <==> outcome.1 is Failed,
        fault is None <==> outcome.1 is Next,
        fault matches Some(reason) ==> outcome.1->Failed_0@ == reason && outcome.0.step is Stopped,
        fault is None ==> outcome.0.step == phase_step_successor(before.step),
        outcome.0.evidence == evidence,
        outcome.0.primary == before.primary,
{
}

/// An input is taken only by the canonical, absolute path of a plain file or directory of
/// the user, of the kind that is asked for; an executable has to be one.
pub proof fn inputs_are_plain_and_canonical(
    path: Seq<char>,
    label: Seq<char>,
    kind: InputKind,
    facts: InputFacts,
    user: u32,
)
    ensures
        input_fault(path, label, kind, facts, user) is None <==> {
            &&& absolute(path)
            &&& facts.inspected is Ok
            &&& kind is Directory ==> facts.inspected->Ok_0.0 is Directory
            &&& !(kind is Directory) ==> facts.inspected->Ok_0.0 is Regular
            &&& facts.inspected->Ok_0.1 == user
            &&& kind is Executable ==> facts.inspected->Ok_0.2 & 0o111 != 0
            &&& facts.canonical is Ok
            &&& components(facts.canonical->Ok_0@) == components(path)
        },
{
}

/// Nothing is planned where one fact is missing: the number of generations has to be
/// allowed, every input in order, the bundle loaded, the revision a full one, every digest
/// there, and the sockets of all three phases have to fit their addresses.
pub proof fn plans_need_every_fact(config: MacosHvfHostServiceSmokeConfig, facts: HostFacts)
    requires
        preparation_fault(config, facts) is None,
    ensures
        iterations_allowed(config.iterations),
        input_fault(
            config.work_parent@,
            "qualification work parent"@,
            InputKind::Directory,
            facts.work_parent,
            facts.user,
        ) is None,
        input_fault(
            config.host_service_executable@,
            "Host Service executable"@,
            InputKind::Executable,
            facts.executable,
            facts.user,
        ) is None,
        input_fault(
            config.shim@,
            "entitlement-signed libkrun shim"@,
            InputKind::Executable,
            facts.shim,
            facts.user,
        ) is None,
        input_fault(
            config.system_image_manifest@,
            "system-image manifest"@,
            InputKind::File,
            facts.manifest,
            facts.user,
        ) is None,
        input_fault(
            config.bundle@,
            "source OCI bundle"@,
            InputKind::Directory,
            facts.bundle,
            facts.user,
        ) is None,
        facts.bundle_digest is Ok,
        config.source_revision matches Some(revision) && revision@.len() == 40,
        facts.executable_sha256 is Ok,
        facts.shim_sha256 is Ok,
        facts.manifest_sha256 is Ok,
        facts.nonce is Ok,
        forall|phase: Phase|
            fits_socket_address(
                #[trigger] phase_socket(planned_root(facts), phase),
                MACOS_SOCKET_PATH_CAPACITY as nat,
            ),
{
    let root = planned_root(facts);
    assert(phase_socket_fault(root, Phase::Lifecycle) is None);
    assert(phase_socket_fault(root, Phase::OwnerDeath) is None);
    assert(phase_socket_fault(root, Phase::Soak) is None);
    assert forall|phase: Phase|
        fits_socket_address(
            #[trigger] phase_socket(root, phase),
            MACOS_SOCKET_PATH_CAPACITY as nat,
        ) by {
        assert(phase_socket_fault(root, phase) is None);
    }
}

/// The artifacts of a qualification are the very files that were checked: each path with
/// the digest of that file, and the revision that was asked for.
pub proof fn artifacts_are_what_was_checked(
    artifacts: MacosHvfArtifactEvidence,
    config: MacosHvfHostServiceSmokeConfig,
    facts: HostFacts,
)
    requires
        artifacts_hold(artifacts, config, facts),
    ensures
        artifacts.host_service_executable@ == facts.executable.canonical->Ok_0@,
        artifacts.host_service_executable_sha256@ == facts.executable_sha256->Ok_0@,
        artifacts.shim@ == facts.shim.canonical->Ok_0@,
        artifacts.shim_sha256@ == facts.shim_sha256->Ok_0@,
        artifacts.system_image_manifest@ == facts.manifest.canonical->Ok_0@,
        artifacts.system_image_manifest_sha256@ == facts.manifest_sha256->Ok_0@,
        artifacts.source_bundle@ == facts.bundle.canonical->Ok_0@,
        artifacts.source_bundle_config_digest@ == facts.bundle_digest->Ok_0@,
        config.source_revision matches Some(revision) && artifacts.source_revision@ == revision@,
{
}

/// The phases of a qualification are kept in directories of their own.
pub proof fn phases_are_kept_apart(first: Phase, second: Phase)
    requires
        phase_name(first) == phase_name(second),
    ensures
        first == second,
{
    reveal_strlit("lifecycle");
    reveal_strlit("owner-death");
    reveal_strlit("soak");
    assert("lifecycle"@.len() == 9 && "owner-death"@.len() == 11 && "soak"@.len() == 4);
}

/// A qualification makes its root and, for each phase, a directory with one for the
/// service in it, each behind the one it lies in.
pub proof fn directories_are_made_outside_in(root: Seq<char>)
    ensures
        planned_directories(root).len() == 7,
        planned_directories(root)[0] == root,
        planned_directories(root)[1] == joined(root, "lifecycle"@),
        planned_directories(root)[2] == joined(
            planned_directories(root)[1],
            SERVICE_DIRECTORY_NAME@,
        ),
        planned_directories(root)[3] == joined(root, "owner-death"@),
        planned_directories(root)[4] == joined(
            planned_directories(root)[3],
            SERVICE_DIRECTORY_NAME@,
        ),
        planned_directories(root)[5] == joined(root, "soak"@),
        planned_directories(root)[6] == joined(
            planned_directories(root)[5],
            SERVICE_DIRECTORY_NAME@,
        ),
{
}

/// A phase is clean only where nothing of its service and its machines is left.
pub proof fn clean_phases_keep_nothing(evidence: MacosHvfPublicLifecycleEvidence)
    ensures
        phase_clean(evidence) <==> evidence.service_descriptor_inventory_restored
            && evidence.vm_processes_reaped && evidence.endpoint_inventory_restored
            && evidence.bundle_handoffs_clean && evidence.runtime_shares_clean
            && evidence.recovery_reports_clean && evidence.service_socket_removed
            && evidence.service_exit_success,
{
}

/// A phase is run only once those before it have succeeded: an owner death behind a
/// lifecycle, and a soak behind both.
pub proof fn phases_run_behind_each_other(run: QualificationRun)
    requires
        run.shown(),
    ensures
        run.step == QualificationStep::Run(Phase::OwnerDeath) ==> run.report.lifecycle.succeeds(),
        run.step == QualificationStep::Run(Phase::Soak) ==> run.report.lifecycle.succeeds()
            && run.report.owner_death.succeeds(),
        run.step is Run ==> run.report.status is Unavailable && run.report.reason is None,
        run.step == QualificationStep::Persist(Phase::Soak) && run.report.reason is None
            ==> run.report.lifecycle.succeeds() && run.report.owner_death.succeeds()
            && run.report.soak.succeeds(),
{
}

/// A phase goes without a reason exactly where it returned and its evidence succeeds; a
/// phase that failed is told in the words of the failure.
pub proof fn failed_phases_have_a_reason(
    phase: Phase,
    result: Result<(), String>,
    succeeded: bool,
)
    ensures
        phase_reasons(phase, result, succeeded) is None <==> result is Ok && succeeded,
        result matches Err(cause) ==> {
            let reasons = phase_reasons(phase, result, succeeded)->0;
            reasons.0 == cause@ && cause@.is_suffix_of(reasons.1)
        },
{
    if let Err(cause) = result {
        let told = phase_failure(phase, cause@);
        assert(told.subrange(told.len() - cause@.len(), told.len() as int) =~= cause@);
    }
}

/// A report is concluded as available exactly where nothing of it is missing, and claims
/// nothing else than before.
pub proof fn concluded_reports_are_complete(
    before: MacosHvfHostServiceSmokeReport,
    after: MacosHvfHostServiceSmokeReport,
)
    requires
        concluded(before, after),
    ensures
        after.status is Available <==> after.succeeds(),
        after.status is Available ==> after.reason is None,
        !(after.status is Available) ==> after.reason is Some,
        after.lifecycle == before.lifecycle,
        after.owner_death == before.owner_death,
        after.soak == before.soak,
        after.artifacts == before.artifacts,
{
}

/// A service that could not be stopped is told behind what failed before it.
pub proof fn first_failures_are_told_first(primary: Option<String>, error: Seq<char>)
    ensures
        primary is None ==> shutdown_failure(primary, error) == error,
        primary is Some ==> primary->0@.is_prefix_of(shutdown_failure(primary, error))
            && error.is_suffix_of(shutdown_failure(primary, error)),
{
    if primary is Some {
        let told = shutdown_failure(primary, error);
        assert(told.subrange(told.len() - error.len(), told.len() as int) =~= error);
        assert(told.take(primary->0@.len() as int) =~= primary->0@);
    }
}

/// A qualification may ask for 25 to 1000 generations.
pub proof fn soaks_are_bounded(iterations: u32)
    ensures
        iterations_allowed(iterations) <==> 25 <= iterations <= 1000,
{
}

/// An answer to something that was not asked changes nothing, and a run that was stopped
/// stays stopped.
pub proof fn misplaced_answers_change_nothing(before: PhaseRun, outcome: (PhaseRun, Progress))
    ensures
        misplaced(before, outcome) <==> outcome.0 == before && outcome.1 is Misplaced,
        phase_step_successor(PhaseStep::Stopped) is Stopped,
{
}

} // verus!
