//! Checks of the inputs of a KVM qualification.

use vstd::prelude::*;
use crate::digest::{canonical_git_revision, is_git_revision};
use crate::linux_kvm_recovery_smoke::report::{
    is_known_architecture, known_architecture, LinuxKvmRecoveryArtifacts,
};
use crate::native_checkpoint::state::FileKind;
use crate::path::{components, join, joined, same_path};
use crate::service::{
    fits_socket_address, validate_unix_socket_path, LINUX_SOCKET_PATH_CAPACITY, SERVICE_SOCKET_NAME,
};
use crate::text::{append_decimal, append_wide_decimal, decimal};

verus! {

/// Checks that KVM qualifications are made on an architecture.
pub fn check_architecture(architecture: &str) -> (result: Result<(), String>)
    ensures
        match result {
            Ok(()) => known_architecture(architecture@),
            Err(message) => !known_architecture(architecture@) && message@
                == "unsupported Linux KVM qualification architecture: "@ + architecture@,
        },
{
    if is_known_architecture(architecture) {
        return Ok(());
    }
    let mut message = "unsupported Linux KVM qualification architecture: ".to_owned();
    message.append(architecture);
    Err(message)
}

fn labelled(label: &str, words: &str, path: &str) -> (text: String)
    ensures
        text@ == label@ + words@ + path@,
{
    let mut text = label.to_owned();
    text.append(words);
    text.append(path);
    text
}

/// Checks that an input is a directory and no link.
pub fn check_plain_directory(path: &str, label: &str, kind: FileKind) -> (result: Result<
    (),
    String,
>)
    ensures
        match result {
            Ok(()) => kind is Directory,
            Err(message) => !(kind is Directory) && message@ == label@
                + " is not a plain directory: "@ + path@,
        },
{
    match kind {
        FileKind::Directory => Ok(()),
        _ => Err(labelled(label, " is not a plain directory: ", path)),
    }
}

/// What is wrong with an input that has to be a file, if anything.
pub open spec fn plain_file_fault(
    path: Seq<char>,
    label: Seq<char>,
    kind: FileKind,
    executable: bool,
    mode: u32,
) -> Option<Seq<char>> {
    if !(kind is Regular) {
        Some(label + " is not a plain file: "@ + path)
    } else if executable && mode & 0o111 == 0 {
        Some(label + " is not executable: "@ + path)
    } else {
        None
    }
}

/// Checks that an input is a file and no link, and can be executed if it has to.
pub fn check_plain_file(
    path: &str,
    label: &str,
    kind: FileKind,
    executable: bool,
    mode: u32,
) -> (result: Result<(), String>)
    ensures
        match plain_file_fault(path@, label@, kind, executable, mode) {
            Some(fault) => result matches Err(message) && message@ == fault,
            None => result is Ok,
        },
{
    let plain = match kind {
        FileKind::Regular => true,
        _ => false,
    };
    if !plain {
        return Err(labelled(label, " is not a plain file: ", path));
    }
    if executable && mode & 0o111 == 0 {
        return Err(labelled(label, " is not executable: ", path));
    }
    Ok(())
}

/// Checks that an input was given by the path that it resolves to.
pub fn check_canonical(path: &str, label: &str, canonical: &str, words: &str) -> (result: Result<
    (),
    String,
>)
    ensures
        match result {
            Ok(()) => components(canonical@) == components(path@),
            Err(message) => components(canonical@) != components(path@) && message@ == label@
                + words@ + path@ + " -> "@ + canonical@,
        },
{
    if same_path(canonical, path) {
        return Ok(());
    }
    let mut message = labelled(label, words, path);
    message.append(" -> ");
    message.append(canonical);
    Err(message)
}

/// How a path that is not canonical is reported.
pub const NOT_CANONICAL: &'static str = " must be an absolute canonical path: ";

/// Checks the revision that a qualification is made of.
pub fn check_source_revision(revision: Option<String>) -> (result: Result<String, String>)
    ensures
        match result {
            Ok(accepted) => revision == Some(accepted) && is_git_revision(accepted@),
            Err(message) => !(revision matches Some(found) && is_git_revision(found@)) && message@
                == "source revision must be 40 lowercase hexadecimal digits"@,
        },
{
    if let Some(found) = revision {
        if canonical_git_revision(&found) {
            return Ok(found);
        }
    }
    Err("source revision must be 40 lowercase hexadecimal digits".to_owned())
}

/// A nonce out of a process number and a time.
pub open spec fn nonce_text(pid: u32, nanoseconds: u128) -> Seq<char> {
    decimal(pid as nat) + "-"@ + decimal(nanoseconds as nat)
}

/// A nonce out of a process number and a time.
pub fn unique_nonce(pid: u32, nanoseconds: u128) -> (nonce: String)
    ensures
        nonce@ == nonce_text(pid, nanoseconds),
{
    let mut nonce = String::new();
    append_decimal(&mut nonce, pid as u64);
    nonce.append("-");
    append_wide_decimal(&mut nonce, nanoseconds);
    assert(nonce@ =~= nonce_text(pid, nanoseconds));
    nonce
}

/// The directories of a qualification.
#[derive(Debug)]
pub struct QualificationLayout {
    pub evidence_root: String,
    pub service_root: String,
}

/// Where a qualification keeps its evidence.
pub open spec fn evidence_root_path(
    work_parent: Seq<char>,
    prefix: Seq<char>,
    nonce: Seq<char>,
) -> Seq<char> {
    joined(work_parent, prefix + "-"@ + nonce)
}

/// Plans the directories of a qualification, as long as the address of a socket
/// can hold the path of the service's.
pub fn plan_layout(work_parent: &str, prefix: &str, nonce: &str, label: &str) -> (result: Result<
    QualificationLayout,
    String,
>)
    ensures
        ({
            let evidence_root = evidence_root_path(work_parent@, prefix@, nonce@);
            let service_root = joined(evidence_root, "service"@);
            let socket = joined(service_root, SERVICE_SOCKET_NAME@);
            match result {
                Ok(layout) => layout.evidence_root@ == evidence_root && layout.service_root@
                    == service_root && fits_socket_address(
                    socket,
                    LINUX_SOCKET_PATH_CAPACITY as nat,
                ),
                Err(message) => !fits_socket_address(socket, LINUX_SOCKET_PATH_CAPACITY as nat)
                    && message@ == label@ + " exceeds the Unix socket path limit: "@ + socket,
            }
        }),
{
    let mut name = prefix.to_owned();
    name.append("-");
    name.append(nonce);
    let evidence_root = join(work_parent, &name);
    let service_root = join(&evidence_root, "service");
    let socket = join(&service_root, SERVICE_SOCKET_NAME);
    match validate_unix_socket_path(&socket, label, LINUX_SOCKET_PATH_CAPACITY) {
        Ok(()) => Ok(QualificationLayout { evidence_root, service_root }),
        Err(error) => Err(error.message),
    }
}

/// The message that a fact could not be had, if it could not.
pub open spec fn missing_fact(fact: Result<String, String>) -> Option<Seq<char>> {
    match fact {
        Ok(_) => None,
        Err(message) => Some(message@),
    }
}

/// The first fault of two, if there is one.
pub open spec fn first_fault(first: Option<Seq<char>>, second: Option<Seq<char>>) -> Option<
    Seq<char>,
> {
    if first is Some {
        first
    } else {
        second
    }
}

/// What the operating system says of an input.
#[derive(Debug)]
pub struct PlainFacts {
    /// What the path names and its permissions, or why that is not known.
    pub inspected: Result<(FileKind, u32), String>,
    /// The path that it resolves to, or why that is not known.
    pub canonical: Result<String, String>,
}

/// What kind of input a path has to name.
#[derive(Clone, Copy, Debug, PartialEq, Eq, Structural)]
pub enum PlainKind {
    Directory,
    File,
    Executable,
}

/// What is wrong with what the operating system says of an input, if anything.
pub open spec fn inspection_fault(
    path: Seq<char>,
    label: Seq<char>,
    kind: PlainKind,
    inspected: Result<(FileKind, u32), String>,
) -> Option<Seq<char>> {
    match inspected {
        Err(cause) => Some("failed to inspect "@ + label + " "@ + path + ": "@ + cause@),
        Ok((found, mode)) => if kind is Directory {
            if found is Directory {
                None
            } else {
                Some(label + " is not a plain directory: "@ + path)
            }
        } else {
            plain_file_fault(path, label, found, kind is Executable, mode)
        },
    }
}

/// What is wrong with an input that is resolved, if anything: it has to be a
/// plain file or directory that can be resolved.
pub open spec fn resolution_fault(
    path: Seq<char>,
    label: Seq<char>,
    kind: PlainKind,
    facts: PlainFacts,
) -> Option<Seq<char>> {
    first_fault(
        inspection_fault(path, label, kind, facts.inspected),
        match facts.canonical {
            Err(cause) => Some("failed to resolve "@ + label + " "@ + path + ": "@ + cause@),
            Ok(_) => None,
        },
    )
}

/// What is wrong with an input, if anything: it has to be given by the canonical
/// path of a plain file or directory.
pub open spec fn plain_fault(
    path: Seq<char>,
    label: Seq<char>,
    kind: PlainKind,
    facts: PlainFacts,
) -> Option<Seq<char>> {
    first_fault(
        resolution_fault(path, label, kind, facts),
        if components(facts.canonical->Ok_0@) != components(path) {
            Some(label + NOT_CANONICAL@ + path + " -> "@ + facts.canonical->Ok_0@)
        } else {
            None
        },
    )
}

fn attempt_failure(attempt: &str, label: &str, path: &str, cause: &str) -> (text: String)
    ensures
        text@ == attempt@ + label@ + " "@ + path@ + ": "@ + cause@,
{
    let mut text = attempt.to_owned();
    text.append(label);
    text.append(" ");
    text.append(path);
    text.append(": ");
    text.append(cause);
    text
}

/// Checks that an input is a plain file or directory, and gives the path that it
/// resolves to.
pub fn resolved_plain_input(
    path: &str,
    label: &str,
    kind: PlainKind,
    facts: &PlainFacts,
) -> (result: Result<String, String>)
    ensures
        match result {
            Ok(canonical) => resolution_fault(path@, label@, kind, *facts) is None
                && facts.canonical is Ok && canonical@ == facts.canonical->Ok_0@,
            Err(message) => resolution_fault(path@, label@, kind, *facts) == Some(message@),
        },
{
    let (found, mode) = match &facts.inspected {
        Ok(inspected) => *inspected,
        Err(cause) => return Err(attempt_failure("failed to inspect ", label, path, cause)),
    };
    let shape = match kind {
        PlainKind::Directory => check_plain_directory(path, label, found),
        PlainKind::File => check_plain_file(path, label, found, false, mode),
        PlainKind::Executable => check_plain_file(path, label, found, true, mode),
    };
    match shape {
        Ok(()) => {},
        Err(message) => return Err(message),
    }
    match &facts.canonical {
        Err(cause) => Err(attempt_failure("failed to resolve ", label, path, cause)),
        Ok(canonical) => Ok(canonical.clone()),
    }
}

/// Checks an input, and gives the path that it resolves to.
pub fn canonical_plain_input(
    path: &str,
    label: &str,
    kind: PlainKind,
    facts: &PlainFacts,
) -> (result: Result<String, String>)
    ensures
        match result {
            Ok(canonical) => plain_fault(path@, label@, kind, *facts) is None
                && facts.canonical is Ok && canonical@ == facts.canonical->Ok_0@,
            Err(message) => plain_fault(path@, label@, kind, *facts) == Some(message@),
        },
{
    let canonical = match resolved_plain_input(path, label, kind, facts) {
        Ok(canonical) => canonical,
        Err(message) => return Err(message),
    };
    match check_canonical(path, label, &canonical, NOT_CANONICAL) {
        Ok(()) => Ok(canonical),
        Err(message) => Err(message),
    }
}

/// What a qualification is made of.
#[derive(Clone, Debug)]
pub struct QualificationInputs {
    pub host_service_executable: String,
    pub shim: String,
    pub system_image_manifest: String,
    pub bundle: String,
    pub work_parent: String,
    pub source_revision: Option<String>,
}

/// What is known of the host before a qualification.
#[derive(Debug)]
pub struct QualificationFacts {
    pub architecture: String,
    pub work_parent: PlainFacts,
    pub executable: PlainFacts,
    pub shim: PlainFacts,
    pub manifest: PlainFacts,
    pub bundle: PlainFacts,
    /// The configuration digest of the bundle, or why it could not be loaded.
    pub bundle_digest: Result<String, String>,
    /// The digest of a file, or the message that it could not be read.
    pub executable_sha256: Result<String, String>,
    pub shim_sha256: Result<String, String>,
    pub manifest_sha256: Result<String, String>,
    /// The nonce of the qualification, or the message that there is none.
    pub nonce: Result<String, String>,
}

/// What is wrong with the inputs of a qualification, if anything.
pub open spec fn inputs_fault(
    inputs: QualificationInputs,
    facts: QualificationFacts,
) -> Option<Seq<char>> {
    let work_parent = plain_fault(
        inputs.work_parent@,
        "work parent"@,
        PlainKind::Directory,
        facts.work_parent,
    );
    let executable = plain_fault(
        inputs.host_service_executable@,
        "Host Service executable"@,
        PlainKind::Executable,
        facts.executable,
    );
    let shim = plain_fault(
        inputs.shim@,
        "isolated libkrun shim"@,
        PlainKind::Executable,
        facts.shim,
    );
    let manifest = plain_fault(
        inputs.system_image_manifest@,
        "Linux KVM system-image manifest"@,
        PlainKind::File,
        facts.manifest,
    );
    let bundle = plain_fault(
        inputs.bundle@,
        "source OCI bundle"@,
        PlainKind::Directory,
        facts.bundle,
    );
    first_fault(
        work_parent,
        first_fault(executable, first_fault(shim, first_fault(manifest, bundle))),
    )
}

/// What is wrong with the revision of a qualification, if anything.
pub open spec fn revision_fault(revision: Option<String>) -> Option<Seq<char>> {
    if revision matches Some(found) && is_git_revision(found@) {
        None
    } else {
        Some("source revision must be 40 lowercase hexadecimal digits"@)
    }
}

/// What is wrong with the digests and the revision of a qualification, if
/// anything.
pub open spec fn provenance_fault(
    inputs: QualificationInputs,
    facts: QualificationFacts,
) -> Option<Seq<char>> {
    let loaded = match facts.bundle_digest {
        Ok(_) => None,
        Err(cause) => Some("failed to validate source OCI bundle: "@ + cause@),
    };
    first_fault(
        loaded,
        first_fault(
            revision_fault(inputs.source_revision),
            first_fault(
                missing_fact(facts.executable_sha256),
                first_fault(
                    missing_fact(facts.shim_sha256),
                    first_fault(missing_fact(facts.manifest_sha256), missing_fact(facts.nonce)),
                ),
            ),
        ),
    )
}

/// Where a qualification would keep its evidence.
pub open spec fn planned_root(facts: QualificationFacts, prefix: Seq<char>) -> Seq<char> {
    evidence_root_path(facts.work_parent.canonical->Ok_0@, prefix, facts.nonce->Ok_0@)
}

/// What is wrong with the place of a service's socket, if anything.
pub open spec fn layout_fault(evidence_root: Seq<char>, label: Seq<char>) -> Option<Seq<char>> {
    let socket = joined(joined(evidence_root, "service"@), SERVICE_SOCKET_NAME@);
    if fits_socket_address(socket, LINUX_SOCKET_PATH_CAPACITY as nat) {
        None
    } else {
        Some(label + " exceeds the Unix socket path limit: "@ + socket)
    }
}

/// Why a qualification is refused before anything is made, if it is.
pub open spec fn qualification_fault(
    inputs: QualificationInputs,
    facts: QualificationFacts,
    prefix: Seq<char>,
    label: Seq<char>,
) -> Option<Seq<char>> {
    if !known_architecture(facts.architecture@) {
        Some("unsupported Linux KVM qualification architecture: "@ + facts.architecture@)
    } else {
        first_fault(
            inputs_fault(inputs, facts),
            first_fault(
                provenance_fault(inputs, facts),
                layout_fault(planned_root(facts, prefix), label),
            ),
        )
    }
}

/// A qualification whose inputs were checked. Its two directories have to be
/// made, the evidence root first.
#[derive(Debug)]
pub struct PreparedQualification {
    pub service_root: String,
    pub evidence_root: String,
    pub nonce: String,
    pub artifacts: LinuxKvmRecoveryArtifacts,
}

/// What the artifacts of a checked qualification are.
pub open spec fn artifacts_hold(
    artifacts: LinuxKvmRecoveryArtifacts,
    inputs: QualificationInputs,
    facts: QualificationFacts,
) -> bool {
    &&& artifacts.host_service_executable@ == facts.executable.canonical->Ok_0@
    &&& artifacts.host_service_executable_sha256@ == facts.executable_sha256->Ok_0@
    &&& artifacts.shim@ == facts.shim.canonical->Ok_0@
    &&& artifacts.shim_sha256@ == facts.shim_sha256->Ok_0@
    &&& artifacts.system_image_manifest@ == facts.manifest.canonical->Ok_0@
    &&& artifacts.system_image_manifest_sha256@ == facts.manifest_sha256->Ok_0@
    &&& artifacts.source_bundle@ == facts.bundle.canonical->Ok_0@
    &&& artifacts.source_bundle_config_digest@ == facts.bundle_digest->Ok_0@
    &&& inputs.source_revision is Some
    &&& artifacts.source_revision@ == inputs.source_revision->0@
}

/// The canonical paths of the inputs.
struct CheckedInputs {
    work_parent: String,
    executable: String,
    shim: String,
    manifest: String,
    bundle: String,
}

fn check_inputs(inputs: &QualificationInputs, facts: &QualificationFacts) -> (result: Result<
    CheckedInputs,
    String,
>)
    ensures
        match result {
            Ok(checked) => {
                &&& inputs_fault(*inputs, *facts) is None
                &&& checked.work_parent@ == facts.work_parent.canonical->Ok_0@
                &&& checked.executable@ == facts.executable.canonical->Ok_0@
                &&& checked.shim@ == facts.shim.canonical->Ok_0@
                &&& checked.manifest@ == facts.manifest.canonical->Ok_0@
                &&& checked.bundle@ == facts.bundle.canonical->Ok_0@
            },
            Err(message) => inputs_fault(*inputs, *facts) == Some(message@),
        },
{
    let work_parent = match canonical_plain_input(
        &inputs.work_parent,
        "work parent",
        PlainKind::Directory,
        &facts.work_parent,
    ) {
        Ok(path) => path,
        Err(message) => return Err(message),
    };
    let executable = match canonical_plain_input(
        &inputs.host_service_executable,
        "Host Service executable",
        PlainKind::Executable,
        &facts.executable,
    ) {
        Ok(path) => path,
        Err(message) => return Err(message),
    };
    let shim = match canonical_plain_input(
        &inputs.shim,
        "isolated libkrun shim",
        PlainKind::Executable,
        &facts.shim,
    ) {
        Ok(path) => path,
        Err(message) => return Err(message),
    };
    let manifest = match canonical_plain_input(
        &inputs.system_image_manifest,
        "Linux KVM system-image manifest",
        PlainKind::File,
        &facts.manifest,
    ) {
        Ok(path) => path,
        Err(message) => return Err(message),
    };
    match canonical_plain_input(
        &inputs.bundle,
        "source OCI bundle",
        PlainKind::Directory,
        &facts.bundle,
    ) {
        Ok(bundle) => Ok(CheckedInputs { work_parent, executable, shim, manifest, bundle }),
        Err(message) => Err(message),
    }
}

impl PreparedQualification {
    /// Checks the inputs of a qualification. Nothing has to exist for it yet.
    pub fn open(
        inputs: QualificationInputs,
        facts: QualificationFacts,
        prefix: &str,
        label: &str,
    ) -> (result: Result<PreparedQualification, String>)
        ensures
            match result {
                Ok(prepared) => {
                    &&& qualification_fault(inputs, facts, prefix@, label@) is None
                    &&& prepared.evidence_root@ == planned_root(facts, prefix@)
                    &&& prepared.service_root@ == joined(planned_root(facts, prefix@), "service"@)
                    &&& prepared.nonce@ == facts.nonce->Ok_0@
                    &&& artifacts_hold(prepared.artifacts, inputs, facts)
                },
                Err(message) => qualification_fault(inputs, facts, prefix@, label@) == Some(
                    message@,
                ),
            },
    {
        match check_architecture(&facts.architecture) {
            Ok(()) => {},
            Err(message) => return Err(message),
        }
        let checked = match check_inputs(&inputs, &facts) {
            Ok(checked) => checked,
            Err(message) => return Err(message),
        };
        let digest = match facts.bundle_digest {
            Ok(text) => text,
            Err(cause) => {
                let mut message = "failed to validate source OCI bundle: ".to_owned();
                message.append(&cause);
                return Err(message);
            },
        };
        let revision = match check_source_revision(inputs.source_revision) {
            Ok(revision) => revision,
            Err(message) => return Err(message),
        };
        let executable_sha256 = match facts.executable_sha256 {
            Ok(text) => text,
            Err(message) => return Err(message),
        };
        let shim_sha256 = match facts.shim_sha256 {
            Ok(text) => text,
            Err(message) => return Err(message),
        };
        let manifest_sha256 = match facts.manifest_sha256 {
            Ok(text) => text,
            Err(message) => return Err(message),
        };
        let nonce = match facts.nonce {
            Ok(text) => text,
            Err(message) => return Err(message),
        };
        let layout = match plan_layout(&checked.work_parent, prefix, &nonce, label) {
            Ok(layout) => layout,
            Err(message) => return Err(message),
        };
        let artifacts = LinuxKvmRecoveryArtifacts {
            host_service_executable: checked.executable,
            host_service_executable_sha256: executable_sha256,
            shim: checked.shim,
            shim_sha256,
            system_image_manifest: checked.manifest,
            system_image_manifest_sha256: manifest_sha256,
            source_bundle: checked.bundle,
            source_bundle_config_digest: digest,
            source_revision: revision,
        };
        Ok(
            PreparedQualification {
                service_root: layout.service_root,
                evidence_root: layout.evidence_root,
                nonce,
                artifacts,
            },
        )
    }
}

/// A qualification with a wrong input or a wrong revision is refused before any
/// directory is planned.
pub proof fn wrong_inputs_plan_nothing(
    inputs: QualificationInputs,
    facts: QualificationFacts,
    prefix: Seq<char>,
    label: Seq<char>,
)
    requires
        !known_architecture(facts.architecture@) || inputs_fault(inputs, facts) is Some
            || revision_fault(inputs.source_revision) is Some,
    ensures
        qualification_fault(inputs, facts, prefix, label) is Some,
{
}

/// An input is taken only by the canonical path of a plain file or directory of the kind
/// that is asked for; an executable has to be one.
pub proof fn inputs_are_plain_and_canonical(
    path: Seq<char>,
    label: Seq<char>,
    kind: PlainKind,
    facts: PlainFacts,
)
    ensures
        plain_fault(path, label, kind, facts) is None <==> {
            &&& facts.inspected is Ok
            &&& kind is Directory ==> facts.inspected->Ok_0.0 is Directory
            &&& !(kind is Directory) ==> facts.inspected->Ok_0.0 is Regular
            &&& kind is Executable ==> facts.inspected->Ok_0.1 & 0o111 != 0
            &&& facts.canonical is Ok
            &&& components(facts.canonical->Ok_0@) == components(path)
        },
        resolution_fault(path, label, kind, facts) is None ==> facts.inspected is Ok
            && facts.canonical is Ok && !(facts.inspected->Ok_0.0 is Other),
{
}

/// Nothing is planned where one fact is missing: every input has to be in order, the
/// bundle has to load, the revision has to be a full one, every digest has to be there,
/// and the socket has to fit its address.
pub proof fn plans_need_every_fact(
    inputs: QualificationInputs,
    facts: QualificationFacts,
    prefix: Seq<char>,
    label: Seq<char>,
)
    requires
        qualification_fault(inputs, facts, prefix, label) is None,
    ensures
        known_architecture(facts.architecture@),
        plain_fault(
            inputs.work_parent@,
            "work parent"@,
            PlainKind::Directory,
            facts.work_parent,
        ) is None,
        plain_fault(
            inputs.host_service_executable@,
            "Host Service executable"@,
            PlainKind::Executable,
            facts.executable,
        ) is None,
        plain_fault(
            inputs.shim@,
            "isolated libkrun shim"@,
            PlainKind::Executable,
            facts.shim,
        ) is None,
        plain_fault(
            inputs.system_image_manifest@,
            "Linux KVM system-image manifest"@,
            PlainKind::File,
            facts.manifest,
        ) is None,
        plain_fault(
            inputs.bundle@,
            "source OCI bundle"@,
            PlainKind::Directory,
            facts.bundle,
        ) is None,
        facts.bundle_digest is Ok,
        inputs.source_revision matches Some(revision) && revision@.len() == 40,
        facts.executable_sha256 is Ok,
        facts.shim_sha256 is Ok,
        facts.manifest_sha256 is Ok,
        facts.nonce is Ok,
        fits_socket_address(
            joined(
                joined(
                    joined(
                        facts.work_parent.canonical->Ok_0@,
                        prefix + "-"@ + facts.nonce->Ok_0@,
                    ),
                    "service"@,
                ),
                SERVICE_SOCKET_NAME@,
            ),
            LINUX_SOCKET_PATH_CAPACITY as nat,
        ),
{
}

/// Of two faults the first is told, and there is none only where neither is there.
pub proof fn first_faults_come_first(first: Option<Seq<char>>, second: Option<Seq<char>>)
    ensures
        first is Some ==> first_fault(first, second) == first,
        first is None ==> first_fault(first, second) == second,
        first_fault(first, second) is None <==> first is None && second is None,
{
}

/// The artifacts of a qualification are the very files that were checked: each path with
/// the digest of that file, and the revision that was asked for.
pub proof fn artifacts_are_what_was_checked(
    artifacts: LinuxKvmRecoveryArtifacts,
    inputs: QualificationInputs,
    facts: QualificationFacts,
)
    requires
        artifacts_hold(artifacts, inputs, facts),
    ensures
        artifacts.host_service_executable@ == facts.executable.canonical->Ok_0@,
        artifacts.host_service_executable_sha256@ == facts.executable_sha256->Ok_0@,
        artifacts.shim@ == facts.shim.canonical->Ok_0@,
        artifacts.shim_sha256@ == facts.shim_sha256->Ok_0@,
        artifacts.system_image_manifest@ == facts.manifest.canonical->Ok_0@,
        artifacts.system_image_manifest_sha256@ == facts.manifest_sha256->Ok_0@,
        artifacts.source_bundle@ == facts.bundle.canonical->Ok_0@,
        artifacts.source_bundle_config_digest@ == facts.bundle_digest->Ok_0@,
        inputs.source_revision matches Some(revision) && artifacts.source_revision@ == revision@,
{
}

} // verus!
