//! What a checkpoint is taken of and what it may be restored on.

use vstd::prelude::*;
use crate::digest::{canonical_sha256_digest, is_sha256_digest};
use crate::error::{checkpoint_error, Error, ErrorCode};
use crate::model::{
    CheckpointCompatibility, CheckpointFormat, CompatibilityView, ContainerRecord, ContainerState,
    ContainerTarget, DriverKind, FormatView, HostPlatform, IsolationClass, RecordView,
    RuntimeArtifact, TargetView,
};
use crate::native_checkpoint::artifact::{
    first_mount_fault, mount_fault_message, mount_views, mounts_eq, same_mounts, ArtifactMetadata,
    CheckpointArtifactManifest, CriuIdentity, CriuView, ExternalMountManifestEntry, ManifestView,
    MountView,
};
use crate::native_checkpoint::restore_journal::{
    CheckpointReference, ReferenceView, RestoreJournalRecord, RestoreView,
};
use crate::native_checkpoint::tool::{cgroup_message, dump_option_list, dump_options};
use crate::path::{components, same_path};
use crate::text::{string_views, text_eq, texts_eq};

verus! {

pub const CHECKPOINT_FORMAT_NAME: &'static str = "native-linux-criu";

pub const CHECKPOINT_FORMAT_VERSION: u16 = 1;

pub const DRIVER_BUILD_SCHEMA_V1: &'static str = "a3s.oci.native-criu-driver-build.v1";

pub const CHECKPOINT_REQUEST_SCHEMA_V1: &'static str = "a3s.oci.native-checkpoint-request.v1";

pub const RESTORE_REQUEST_SCHEMA_V1: &'static str = "a3s.oci.native-restore-request.v1";

/// The message for a digest that is not canonical.
pub const INVALID_DIGEST: &'static str = "checkpoint digest must be a canonical SHA-256 digest";

/// A container that can be checkpointed: a native one at an exact generation,
/// running and paused, with evidence of its attachments.
pub open spec fn can_be_source(record: RecordView) -> bool {
    &&& record.driver == DriverKind::NativeLinux
    &&& record.isolation == IsolationClass::SharedHostKernel
    &&& record.status == ContainerState::Running
    &&& record.paused
    &&& record.generation != 0
    &&& record.attachments_digest is Some
}

/// The digests of a source are canonical.
pub open spec fn source_digests_hold(record: RecordView) -> bool {
    is_sha256_digest(record.config_digest) && record.attachments_digest is Some
        && is_sha256_digest(record.attachments_digest->0)
}

/// Checks that a container can be checkpointed.
pub fn validate_source_record(source: &ContainerRecord) -> (result: Result<(), Error>)
    ensures
        match result {
            Ok(()) => can_be_source(source@) && source_digests_hold(source@),
            Err(error) => if !can_be_source(source@) {
                error.is_checkpoint(
                    ErrorCode::FailedPrecondition,
                    "native checkpoint requires a paused running native generation with exact attachment evidence"@,
                )
            } else {
                !source_digests_hold(source@) && error.is_checkpoint(
                    ErrorCode::InvalidArgument,
                    INVALID_DIGEST@,
                )
            },
        },
{
    let refused =
        "native checkpoint requires a paused running native generation with exact attachment evidence";
    match &source.attachments_digest {
        Some(attachments) => {
            if source.driver != DriverKind::NativeLinux || source.isolation
                != IsolationClass::SharedHostKernel || source.status != ContainerState::Running
                || !source.paused || source.generation == 0 {
                return Err(checkpoint_error(ErrorCode::FailedPrecondition, refused));
            }
            if !canonical_sha256_digest(&source.config_digest) || !canonical_sha256_digest(
                attachments,
            ) {
                return Err(checkpoint_error(ErrorCode::InvalidArgument, INVALID_DIGEST));
            }
            Ok(())
        },
        None => Err(checkpoint_error(ErrorCode::FailedPrecondition, refused)),
    }
}

/// The exact process tree of a source.
#[derive(Clone, Debug)]
pub struct CheckpointSource {
    pub target: ContainerTarget,
    pub launcher_pid: i32,
    pub checkpoint_root_pid: i32,
    pub init_pid: i32,
    pub cgroup_path: String,
    pub external_mounts: Vec<ExternalMountManifestEntry>,
}

/// The contents of a source.
pub struct SourceView {
    pub target: TargetView,
    pub launcher_pid: i32,
    pub checkpoint_root_pid: i32,
    pub init_pid: i32,
    pub cgroup_path: Seq<char>,
    pub external_mounts: Seq<MountView>,
}

impl View for CheckpointSource {
    type V = SourceView;

    open spec fn view(&self) -> SourceView {
        SourceView {
            target: self.target@,
            launcher_pid: self.launcher_pid,
            checkpoint_root_pid: self.checkpoint_root_pid,
            init_pid: self.init_pid,
            cgroup_path: self.cgroup_path@,
            external_mounts: mount_views(self.external_mounts@),
        }
    }
}

/// The process that was found for a source is the one on record.
pub open spec fn exact_source(record: RecordView, found: SourceView) -> bool {
    &&& found.target == (TargetView { id: record.id, generation: Some(record.generation) })
    &&& record.pid == Some(found.init_pid)
}

/// Checks that the process found for a source is the one on record.
pub fn require_exact_source(record: &ContainerRecord, found: &CheckpointSource) -> (result: Result<
    (),
    Error,
>)
    ensures
        ({
            let exact = found@.target == (TargetView {
                id: record@.id,
                generation: Some(record@.generation),
            }) && record@.pid == Some(found@.init_pid);
            match result {
                Ok(()) => exact,
                Err(error) => !exact && error.is_checkpoint(
                    ErrorCode::Conflict,
                    "durable checkpoint source PID does not match the exact executor process"@,
                ),
            }
        }),
        result is Ok <==> exact_source(record@, found@),
{
    let same_pid = match record.pid {
        Some(pid) => pid == found.init_pid,
        None => false,
    };
    if found.target.same(&record.target()) && same_pid {
        Ok(())
    } else {
        Err(
            checkpoint_error(
                ErrorCode::Conflict,
                "durable checkpoint source PID does not match the exact executor process",
            ),
        )
    }
}

/// A source is the same as before: the same processes, in a cgroup and with device
/// mounts at paths with the same components.
pub open spec fn same_source(before: SourceView, after: SourceView) -> bool {
    &&& components(before.cgroup_path) == components(after.cgroup_path)
    &&& same_mounts(before.external_mounts, after.external_mounts)
    &&& after == (SourceView {
        cgroup_path: after.cgroup_path,
        external_mounts: after.external_mounts,
        ..before
    })
}

/// Checks that a source is the same before and after its images were made.
pub fn require_unchanged_source(before: &CheckpointSource, after: &CheckpointSource) -> (result:
    Result<(), Error>)
    ensures
        match result {
            Ok(()) => same_source(before@, after@),
            Err(error) => !same_source(before@, after@) && error.is_checkpoint(
                ErrorCode::Conflict,
                "native checkpoint source identity changed while CRIU produced the image"@,
            ),
        },
{
    if before.target.same(&after.target) && before.launcher_pid == after.launcher_pid
        && before.checkpoint_root_pid == after.checkpoint_root_pid && before.init_pid
        == after.init_pid && same_path(&before.cgroup_path, &after.cgroup_path) && mounts_eq(
        &before.external_mounts,
        &after.external_mounts,
    ) {
        Ok(())
    } else {
        Err(
            checkpoint_error(
                ErrorCode::Conflict,
                "native checkpoint source identity changed while CRIU produced the image",
            ),
        )
    }
}

/// The stack that native checkpoints are made on.
pub fn native_compatibility(
    architecture: String,
    runtime_artifact: RuntimeArtifact,
    driver_build_digest: String,
    format: CheckpointFormat,
) -> (compatibility: CheckpointCompatibility)
    ensures
        compatibility@ == (CompatibilityView {
            driver: DriverKind::NativeLinux,
            isolation: IsolationClass::SharedHostKernel,
            platform: HostPlatform::Linux,
            architecture: architecture@,
            runtime_artifact: runtime_artifact@,
            driver_build_digest: driver_build_digest@,
            format: format@,
        }),
{
    CheckpointCompatibility {
        driver: DriverKind::NativeLinux,
        isolation: IsolationClass::SharedHostKernel,
        platform: HostPlatform::Linux,
        architecture,
        runtime_artifact,
        driver_build_digest,
        format,
    }
}

/// The format of native checkpoints.
pub fn native_format() -> (format: CheckpointFormat)
    ensures
        format@ == (FormatView {
            name: CHECKPOINT_FORMAT_NAME@,
            version: CHECKPOINT_FORMAT_VERSION,
        }),
{
    CheckpointFormat { name: CHECKPOINT_FORMAT_NAME.to_owned(), version: CHECKPOINT_FORMAT_VERSION }
}

/// Checks that a packaged artifact is for the stack it was made on.
pub fn require_packaged_compatibility(
    expected: &CheckpointCompatibility,
    found: &CheckpointCompatibility,
) -> (result: Result<(), Error>)
    ensures
        match result {
            Ok(()) => found@ == expected@,
            Err(error) => found@ != expected@ && error.is_checkpoint(
                ErrorCode::Internal,
                "checkpoint artifact compatibility changed while packaging"@,
            ),
        },
{
    if found.same(expected) {
        Ok(())
    } else {
        Err(
            checkpoint_error(
                ErrorCode::Internal,
                "checkpoint artifact compatibility changed while packaging",
            ),
        )
    }
}

/// Makes what a new artifact says of its source. The mounts of the source have
/// to be valid and its cgroup has to lie in the hierarchy.
pub fn source_metadata(
    record: &ContainerRecord,
    source: CheckpointSource,
    compatibility: CheckpointCompatibility,
    criu: CriuIdentity,
) -> (result: Result<ArtifactMetadata, Error>)
    requires
        can_be_source(record@),
    ensures
        ({
            let fault = first_mount_fault(source@.external_mounts);
            match result {
                Ok(metadata) => {
                    &&& fault is None
                    &&& cgroup_message(source@.cgroup_path) is None
                    &&& metadata.source@ == (TargetView {
                        id: record@.id,
                        generation: Some(record@.generation),
                    })
                    &&& metadata.source_config_digest@ == record@.config_digest
                    &&& metadata.source_attachments_digest@ == record@.attachments_digest->0
                    &&& metadata.compatibility@ == compatibility@
                    &&& metadata.launcher_pid == source@.launcher_pid
                    &&& metadata.checkpoint_root_pid == source@.checkpoint_root_pid
                    &&& metadata.init_pid == source@.init_pid
                    &&& metadata.cgroup_path@ == source@.cgroup_path
                    &&& metadata.criu@ == criu@
                    &&& string_views(metadata.dump_options@) == dump_option_list(
                        source@.cgroup_path,
                        source@.external_mounts,
                    )
                    &&& mount_views(metadata.external_mounts@) == source@.external_mounts
                },
                Err(error) => match fault {
                    Some(found) => error.is_checkpoint(
                        ErrorCode::FailedPrecondition,
                        mount_fault_message(found),
                    ),
                    None => cgroup_message(source@.cgroup_path) is Some && error.is_checkpoint(
                        ErrorCode::FailedPrecondition,
                        cgroup_message(source@.cgroup_path)->0,
                    ),
                },
            }
        }),
{
    match crate::native_checkpoint::artifact::check_mounts(&source.external_mounts) {
        Ok(()) => {},
        Err(error) => return Err(error),
    }
    let options = match dump_options(&source.cgroup_path, &source.external_mounts) {
        Ok(options) => options,
        Err(error) => return Err(error),
    };
    let attachments = match &record.attachments_digest {
        Some(digest) => digest.clone(),
        None => String::new(),
    };
    Ok(
        ArtifactMetadata {
            source: record.target(),
            source_config_digest: record.config_digest.clone(),
            source_attachments_digest: attachments,
            compatibility,
            launcher_pid: source.launcher_pid,
            checkpoint_root_pid: source.checkpoint_root_pid,
            init_pid: source.init_pid,
            cgroup_path: source.cgroup_path,
            criu,
            dump_options: options,
            external_mounts: source.external_mounts,
        },
    )
}

/// The stack that restores run on now.
#[derive(Debug)]
pub struct RestoreStack {
    pub architecture: String,
    pub runtime_artifact: RuntimeArtifact,
    pub driver_build_digest: String,
    pub format: CheckpointFormat,
}

/// A checkpoint can be restored on a stack only if it was made on the same one.
pub open spec fn stack_fits(compatibility: CompatibilityView, stack: RestoreStack) -> bool {
    compatibility == CompatibilityView {
        driver: DriverKind::NativeLinux,
        isolation: IsolationClass::SharedHostKernel,
        platform: HostPlatform::Linux,
        architecture: stack.architecture@,
        runtime_artifact: stack.runtime_artifact@,
        driver_build_digest: stack.driver_build_digest@,
        format: stack.format@,
    }
}

/// Checks that a checkpoint can be restored on a stack.
pub fn validate_restore_stack(reference: &CheckpointReference, stack: &RestoreStack) -> (result:
    Result<(), Error>)
    ensures
        match result {
            Ok(()) => stack_fits(reference@.compatibility, *stack),
            Err(error) => !stack_fits(reference@.compatibility, *stack) && error.is_checkpoint(
                ErrorCode::FailedPrecondition,
                "checkpoint reference is incompatible with the current native CRIU restore stack"@,
            ),
        },
{
    let found = &reference.compatibility;
    if found.driver == DriverKind::NativeLinux && found.isolation
        == IsolationClass::SharedHostKernel && found.platform == HostPlatform::Linux && text_eq(
        &found.architecture,
        &stack.architecture,
    ) && found.runtime_artifact.same(&stack.runtime_artifact) && text_eq(
        &found.driver_build_digest,
        &stack.driver_build_digest,
    ) && found.format.same(&stack.format) {
        Ok(())
    } else {
        Err(
            checkpoint_error(
                ErrorCode::FailedPrecondition,
                "checkpoint reference is incompatible with the current native CRIU restore stack",
            ),
        )
    }
}

/// What the first version of restore can do: the source configuration and
/// attachments, on the shared host kernel, without a trusted launch.
pub open spec fn restore_request_holds(
    isolation: IsolationClass,
    tee_launch: bool,
    config_digest: Seq<char>,
    attachments_digest: Seq<char>,
    reference: ReferenceView,
) -> bool {
    &&& isolation == IsolationClass::SharedHostKernel
    &&& !tee_launch
    &&& config_digest == reference.source_config_digest
    &&& attachments_digest == reference.source_attachments_digest
}

/// Checks that a restore request is one that can be served.
pub fn validate_restore_request_v1(
    isolation: IsolationClass,
    tee_launch: bool,
    config_digest: &str,
    attachments_digest: &str,
    reference: &CheckpointReference,
) -> (result: Result<(), Error>)
    ensures
        ({
            let holds = restore_request_holds(
                isolation,
                tee_launch,
                config_digest@,
                attachments_digest@,
                reference@,
            );
            match result {
                Ok(()) => holds,
                Err(error) => !holds && error.is_checkpoint(
                    ErrorCode::Unsupported,
                    "native CRIU restore v1 requires the source configuration, source attachments, shared-host-kernel isolation, and no TEE launch"@,
                ),
            }
        }),
{
    if isolation == IsolationClass::SharedHostKernel && !tee_launch && text_eq(
        config_digest,
        &reference.source_config_digest,
    ) && text_eq(attachments_digest, &reference.source_attachments_digest) {
        Ok(())
    } else {
        Err(
            checkpoint_error(
                ErrorCode::Unsupported,
                "native CRIU restore v1 requires the source configuration, source attachments, shared-host-kernel isolation, and no TEE launch",
            ),
        )
    }
}

/// The identity of a manifest is that of a reference and of this CRIU.
pub open spec fn manifest_identity_fits(
    manifest: ManifestView,
    reference: ReferenceView,
    criu: CriuView,
) -> bool {
    &&& manifest.source == reference.source
    &&& manifest.source_config_digest == reference.source_config_digest
    &&& manifest.source_attachments_digest == reference.source_attachments_digest
    &&& manifest.compatibility == reference.compatibility
    &&& manifest.criu == criu
}

/// A manifest belongs to a reference and to this CRIU, which would dump its
/// source with the options it lists.
pub open spec fn manifest_fits(
    manifest: ManifestView,
    reference: ReferenceView,
    criu: CriuView,
) -> bool {
    &&& manifest_identity_fits(manifest, reference, criu)
    &&& manifest.dump_options == dump_option_list(manifest.cgroup_path, manifest.external_mounts)
}

/// Checks that a manifest belongs to a reference and to this CRIU.
pub fn require_restore_artifact_manifest(
    manifest: &CheckpointArtifactManifest,
    reference: &CheckpointReference,
    criu: &CriuIdentity,
) -> (result: Result<(), Error>)
    ensures
        ({
            let cgroup = cgroup_message(manifest@.cgroup_path);
            match result {
                Ok(()) => cgroup is None && manifest_fits(manifest@, reference@, criu@),
                Err(error) => if manifest_identity_fits(manifest@, reference@, criu@) && cgroup
                    is Some {
                    error.is_checkpoint(ErrorCode::FailedPrecondition, cgroup->0)
                } else {
                    !manifest_fits(manifest@, reference@, criu@) && error.is_checkpoint(
                        ErrorCode::FailedPrecondition,
                        "checkpoint artifact manifest does not match its immutable reference or current CRIU backend"@,
                    )
                },
            }
        }),
{
    let refused =
        "checkpoint artifact manifest does not match its immutable reference or current CRIU backend";
    if !manifest.source.same(&reference.source) || !text_eq(
        &manifest.source_config_digest,
        &reference.source_config_digest,
    ) || !text_eq(&manifest.source_attachments_digest, &reference.source_attachments_digest)
        || !manifest.compatibility.same(&reference.compatibility) || !manifest.criu.same(criu) {
        return Err(checkpoint_error(ErrorCode::FailedPrecondition, refused));
    }
    let options = match dump_options(&manifest.cgroup_path, &manifest.external_mounts) {
        Ok(options) => options,
        Err(error) => return Err(error),
    };
    if texts_eq(&manifest.dump_options, &options) {
        Ok(())
    } else {
        Err(checkpoint_error(ErrorCode::FailedPrecondition, refused))
    }
}

/// A durable container is the one that a restore journal made.
pub open spec fn durable_fits(record: RestoreView, durable: RecordView) -> bool {
    &&& durable.driver == DriverKind::NativeLinux
    &&& durable.isolation == IsolationClass::SharedHostKernel
    &&& record.agent_request.target.id == durable.id
    &&& record.agent_request.target.generation == Some(durable.generation)
    &&& durable.config_digest == record.agent_request.config_digest
    &&& durable.attachments_digest == Some(record.reference.source_attachments_digest)
}

/// Checks that a durable container is the one that a restore journal made, on
/// a stack that can make it again.
pub fn validate_durable_restore(
    record: &RestoreJournalRecord,
    durable: &ContainerRecord,
    stack: &RestoreStack,
) -> (result: Result<(), Error>)
    ensures
        match result {
            Ok(()) => stack_fits(record@.reference.compatibility, *stack) && durable_fits(
                record@,
                durable@,
            ),
            Err(error) => if !stack_fits(record@.reference.compatibility, *stack) {
                error.is_checkpoint(
                    ErrorCode::FailedPrecondition,
                    "checkpoint reference is incompatible with the current native CRIU restore stack"@,
                )
            } else {
                !durable_fits(record@, durable@) && error.is_checkpoint(
                    ErrorCode::Conflict,
                    "durable restored generation differs from its native restore journal"@,
                )
            },
        },
{
    match validate_restore_stack(&record.reference, stack) {
        Ok(()) => {},
        Err(error) => return Err(error),
    }
    let same_generation = match record.agent_request.target.generation {
        Some(generation) => generation == durable.generation,
        None => false,
    };
    let same_attachments = match &durable.attachments_digest {
        Some(digest) => text_eq(digest, &record.reference.source_attachments_digest),
        None => false,
    };
    if durable.driver == DriverKind::NativeLinux && durable.isolation
        == IsolationClass::SharedHostKernel && text_eq(
        &record.agent_request.target.id,
        &durable.id,
    ) && same_generation && text_eq(
        &durable.config_digest,
        &record.agent_request.config_digest,
    ) && same_attachments {
        Ok(())
    } else {
        Err(
            checkpoint_error(
                ErrorCode::Conflict,
                "durable restored generation differs from its native restore journal",
            ),
        )
    }
}

/// An artifact made by this backend is one that the same backend restores: the
/// manifest planned from a source fits a reference to it.
pub proof fn own_checkpoints_fit(
    metadata: ArtifactMetadata,
    images: Seq<crate::native_checkpoint::artifact::ImageView>,
    token: Seq<u8>,
    reference: ReferenceView,
)
    requires
        reference.source == metadata.source@,
        reference.source_config_digest == metadata.source_config_digest@,
        reference.source_attachments_digest == metadata.source_attachments_digest@,
        reference.compatibility == metadata.compatibility@,
        string_views(metadata.dump_options@) == dump_option_list(
            metadata.cgroup_path@,
            mount_views(metadata.external_mounts@),
        ),
    ensures
        manifest_fits(
            crate::native_checkpoint::artifact::planned_manifest(metadata, images, token),
            reference,
            metadata.criu@,
        ),
{
}

/// Nothing but a paused, running container of the native driver, at an exact generation
/// and with evidence of its attachments, is checkpointed.
pub proof fn sources_are_paused_native_generations(record: RecordView)
    ensures
        can_be_source(record) ==> record.driver is NativeLinux,
        can_be_source(record) ==> record.isolation is SharedHostKernel,
        can_be_source(record) ==> record.status is Running,
        can_be_source(record) ==> record.paused,
        can_be_source(record) ==> record.generation > 0,
        can_be_source(record) ==> record.attachments_digest is Some,
        record.driver is NativeLinux && record.isolation is SharedHostKernel && record.status
            is Running && record.paused && record.generation > 0 && record.attachments_digest
            is Some ==> can_be_source(record),
{
}

/// A container cannot be checkpointed while it is not paused, or after its generation or
/// its attachments are lost, whatever it was before.
pub proof fn sources_lost_are_refused(record: RecordView, status: ContainerState)
    ensures
        !can_be_source(RecordView { paused: false, ..record }),
        !can_be_source(RecordView { generation: 0, ..record }),
        !can_be_source(RecordView { attachments_digest: None, ..record }),
        can_be_source(record) && can_be_source(RecordView { status, ..record }) ==> status
            == record.status,
{
}

/// A source that is the same as before has the very processes and the target it had, and
/// being the same works both ways and over any number of looks.
pub proof fn unchanged_sources_keep_their_processes(
    first: SourceView,
    second: SourceView,
    third: SourceView,
)
    ensures
        same_source(first, first),
        same_source(first, second) ==> {
            &&& same_source(second, first)
            &&& first.target == second.target
            &&& first.launcher_pid == second.launcher_pid
            &&& first.checkpoint_root_pid == second.checkpoint_root_pid
            &&& first.init_pid == second.init_pid
            &&& components(first.cgroup_path) == components(second.cgroup_path)
            &&& first.external_mounts.len() == second.external_mounts.len()
            &&& forall|i: int|
                0 <= i < first.external_mounts.len() ==> (#[trigger] first.external_mounts[i]).name
                    == second.external_mounts[i].name && components(
                    first.external_mounts[i].mountpoint,
                ) == components(second.external_mounts[i].mountpoint)
        },
        same_source(first, second) && same_source(second, third) ==> same_source(first, third),
{
    if same_source(first, second) {
        assert forall|i: int| 0 <= i < second.external_mounts.len() implies (
        #[trigger] second.external_mounts[i]).name == first.external_mounts[i].name && components(
            second.external_mounts[i].mountpoint,
        ) == components(first.external_mounts[i].mountpoint) by {
            assert(first.external_mounts[i].name == second.external_mounts[i].name);
        }
        if same_source(second, third) {
            assert forall|i: int| 0 <= i < first.external_mounts.len() implies (
            #[trigger] first.external_mounts[i]).name == third.external_mounts[i].name
                && components(first.external_mounts[i].mountpoint) == components(
                third.external_mounts[i].mountpoint,
            ) by {
                assert(second.external_mounts[i].name == third.external_mounts[i].name);
            }
        }
    }
}

/// A checkpoint fits a stack in every respect or not at all: it was made by the native
/// driver on the shared kernel of a Linux host, with the architecture, runtime, build and
/// format of the stack.
pub proof fn fitting_stacks_agree_in_everything(
    compatibility: CompatibilityView,
    other: CompatibilityView,
    stack: RestoreStack,
)
    ensures
        stack_fits(compatibility, stack) ==> {
            &&& compatibility.driver is NativeLinux
            &&& compatibility.isolation is SharedHostKernel
            &&& compatibility.platform is Linux
            &&& compatibility.architecture == stack.architecture@
            &&& compatibility.runtime_artifact == stack.runtime_artifact@
            &&& compatibility.driver_build_digest == stack.driver_build_digest@
            &&& compatibility.format == stack.format@
        },
        stack_fits(compatibility, stack) ==> (stack_fits(other, stack) <==> other
            == compatibility),
        compatibility.driver is NativeLinux && compatibility.isolation is SharedHostKernel
            && compatibility.platform is Linux && compatibility.architecture
            == stack.architecture@ && compatibility.runtime_artifact == stack.runtime_artifact@
            && compatibility.driver_build_digest == stack.driver_build_digest@
            && compatibility.format == stack.format@ ==> stack_fits(compatibility, stack),
{
}

/// A restore is taken on only for the configuration and the attachments that were
/// checkpointed, on the shared kernel and without a trusted launch.
pub proof fn restores_are_of_the_same_container(
    isolation: IsolationClass,
    tee_launch: bool,
    config_digest: Seq<char>,
    attachments_digest: Seq<char>,
    reference: ReferenceView,
)
    ensures
        restore_request_holds(isolation, tee_launch, config_digest, attachments_digest, reference)
            ==> isolation is SharedHostKernel && !tee_launch && config_digest
            == reference.source_config_digest && attachments_digest
            == reference.source_attachments_digest,
        restore_request_holds(
            IsolationClass::SharedHostKernel,
            false,
            reference.source_config_digest,
            reference.source_attachments_digest,
            reference,
        ),
{
}

/// A manifest that fits a reference is about the source, the configuration, the
/// attachments and the stack of the reference, was made by this CRIU, and lists the
/// options of its own cgroup and mounts.
pub proof fn fitting_manifests_agree_in_everything(
    manifest: ManifestView,
    reference: ReferenceView,
    criu: CriuView,
)
    ensures
        manifest_fits(manifest, reference, criu) ==> {
            &&& manifest.source == reference.source
            &&& manifest.source_config_digest == reference.source_config_digest
            &&& manifest.source_attachments_digest == reference.source_attachments_digest
            &&& manifest.compatibility == reference.compatibility
            &&& manifest.criu == criu
            &&& manifest.dump_options == dump_option_list(
                manifest.cgroup_path,
                manifest.external_mounts,
            )
        },
        manifest_fits(
            ManifestView {
                source: reference.source,
                source_config_digest: reference.source_config_digest,
                source_attachments_digest: reference.source_attachments_digest,
                compatibility: reference.compatibility,
                criu,
                dump_options: dump_option_list(manifest.cgroup_path, manifest.external_mounts),
                ..manifest
            },
            reference,
            criu,
        ),
{
}

/// Two references that one manifest fits can differ in nothing but the artifact they
/// name.
pub proof fn manifests_fit_one_source(
    manifest: ManifestView,
    first: ReferenceView,
    second: ReferenceView,
    criu: CriuView,
    other: CriuView,
)
    requires
        manifest_fits(manifest, first, criu),
        manifest_fits(manifest, second, other),
    ensures
        criu == other,
        second == (ReferenceView {
            artifact_digest: second.artifact_digest,
            artifact_size_bytes: second.artifact_size_bytes,
            ..first
        }),
{
}

/// A durable container belongs to a restore only where it is the very generation that the
/// restore made, with its configuration and attachments, under the native driver.
pub proof fn durable_containers_are_the_restored_generation(
    record: RestoreView,
    durable: RecordView,
)
    ensures
        durable_fits(record, durable) ==> durable.driver is NativeLinux,
        durable_fits(record, durable) ==> durable.isolation is SharedHostKernel,
        durable_fits(record, durable) ==> record.agent_request.target == (TargetView {
            id: durable.id,
            generation: Some(durable.generation),
        }),
        durable_fits(record, durable) ==> durable.config_digest
            == record.agent_request.config_digest,
        durable_fits(record, durable) ==> durable.attachments_digest == Some(
            record.reference.source_attachments_digest,
        ),
        durable.driver is NativeLinux && durable.isolation is SharedHostKernel
            && record.agent_request.target == (TargetView {
            id: durable.id,
            generation: Some(durable.generation),
        }) && durable.config_digest == record.agent_request.config_digest
            && durable.attachments_digest == Some(record.reference.source_attachments_digest)
            ==> durable_fits(record, durable),
{
}

/// A source has digests only where both are canonical: its configuration's and that of its
/// attachments.
pub proof fn source_digests_are_canonical(record: RecordView)
    ensures
        source_digests_hold(record) <==> is_sha256_digest(record.config_digest)
            && record.attachments_digest is Some && is_sha256_digest(
            record.attachments_digest->0,
        ),
        is_sha256_digest(record.config_digest) ==> record.config_digest.len() == "sha256:"@.len()
            + 64,
{
}

/// A process is taken for a source only where it is the init process on record, of the
/// very generation on record; a container without a process has no source.
pub proof fn sources_are_the_processes_on_record(record: RecordView, found: SourceView)
    ensures
        exact_source(record, found) ==> found.target.id == record.id,
        exact_source(record, found) ==> found.target.generation == Some(record.generation),
        exact_source(record, found) ==> record.pid is Some && record.pid->0 == found.init_pid,
        record.pid is None ==> !exact_source(record, found),
        found.target.id == record.id && found.target.generation == Some(record.generation)
            && record.pid is Some && record.pid->0 == found.init_pid ==> exact_source(
            record,
            found,
        ),
{
}

} // verus!
