//! The CRIU executable: its options, its identity and what its runs mean.

use vstd::prelude::*;
use crate::error::{checkpoint_error, Error, ErrorCode, CHECKPOINT_OPERATION};
use crate::native_checkpoint::artifact::{mount_views, ExternalMountManifestEntry, MountView};
use crate::native_checkpoint::state::{FileFacts, FileKind};
use crate::path::{
    absolute, behind, behind_has_the_later_components, components, components_of, is_absolute,
    parent_text, parent_text_of, parents_lack_the_last_component, root_component, roots_come_first,
    same_path, text_behind,
};
use crate::text::{
    after_prefix, append_decimal, chars_eq, chars_of, copy_range, debug_text, decimal, decode_text,
    has_prefix, list_has_prefix, pieces, quote, split, string_of, string_views, text_eq, trim,
    trimmed, utf8_error_text, views,
};

verus! {

pub const TOOL_OUTPUT_LIMIT: usize = 65_536;

pub const DEFAULT_DUMP_TIMEOUT_MS: u64 = 300_000;

/// Where the unified cgroup hierarchy is mounted.
pub const CGROUP2_MOUNT: &'static str = "/sys/fs/cgroup";

/// Options of every dump.
pub open spec fn dump_base() -> Seq<Seq<char>> {
    seq![
        "--leave-running"@,
        "--shell-job"@,
        "--file-locks"@,
        "--manage-cgroups=soft"@,
        "--external"@,
        "mnt[]"@,
    ]
}

/// Options of every restore.
pub open spec fn restore_base() -> Seq<Seq<char>> {
    seq![
        "--leave-stopped"@,
        "--shell-job"@,
        "--file-locks"@,
        "--manage-cgroups=ignore"@,
        "--external"@,
        "mnt[]"@,
        "--exec-cmd"@,
    ]
}

fn push(options: &mut Vec<String>, option: &str)
    ensures
        string_views(final(options)@) == string_views(old(options)@).push(option@),
{
    let ghost before = string_views(options@);
    options.push(option.to_owned());
    assert(string_views(options@) =~= before.push(option@));
}

fn dump_base_options() -> (options: Vec<String>)
    ensures
        string_views(options@) == dump_base(),
{
    let mut options: Vec<String> = Vec::new();
    assert(string_views(options@) =~= Seq::empty());
    push(&mut options, "--leave-running");
    push(&mut options, "--shell-job");
    push(&mut options, "--file-locks");
    push(&mut options, "--manage-cgroups=soft");
    push(&mut options, "--external");
    push(&mut options, "mnt[]");
    assert(string_views(options@) =~= dump_base());
    options
}

fn restore_base_options() -> (options: Vec<String>)
    ensures
        string_views(options@) == restore_base(),
{
    let mut options: Vec<String> = Vec::new();
    assert(string_views(options@) =~= Seq::empty());
    push(&mut options, "--leave-stopped");
    push(&mut options, "--shell-job");
    push(&mut options, "--file-locks");
    push(&mut options, "--manage-cgroups=ignore");
    push(&mut options, "--external");
    push(&mut options, "mnt[]");
    push(&mut options, "--exec-cmd");
    assert(string_views(options@) =~= restore_base());
    options
}

/// The dump options with placeholders for what differs between sources.
pub fn dump_option_identity() -> (options: Vec<String>)
    ensures
        string_views(options@) == dump_base() + seq![
            "--external"@,
            "mnt[<oci-device-mountpoint>]:<a3s-device-cookie>"@,
            "--freeze-cgroup"@,
            "<source-cgroup>"@,
            "--cgroup-root"@,
            "<source-cgroup-root>"@,
        ],
{
    let mut options = dump_base_options();
    push(&mut options, "--external");
    push(&mut options, "mnt[<oci-device-mountpoint>]:<a3s-device-cookie>");
    push(&mut options, "--freeze-cgroup");
    push(&mut options, "<source-cgroup>");
    push(&mut options, "--cgroup-root");
    push(&mut options, "<source-cgroup-root>");
    assert(string_views(options@) =~= dump_base() + seq![
        "--external"@,
        "mnt[<oci-device-mountpoint>]:<a3s-device-cookie>"@,
        "--freeze-cgroup"@,
        "<source-cgroup>"@,
        "--cgroup-root"@,
        "<source-cgroup-root>"@,
    ]);
    options
}

/// The restore options with placeholders for what differs between targets.
pub fn restore_option_identity() -> (options: Vec<String>)
    ensures
        string_views(options@) == restore_base() + seq![
            "--external"@,
            "mnt[<a3s-device-cookie>]:<target-device-source>"@,
            "--root"@,
            "<target-rootfs>"@,
            "--pidfile"@,
            "<restore-pidfile>"@,
        ],
{
    let mut options = restore_base_options();
    push(&mut options, "--external");
    push(&mut options, "mnt[<a3s-device-cookie>]:<target-device-source>");
    push(&mut options, "--root");
    push(&mut options, "<target-rootfs>");
    push(&mut options, "--pidfile");
    push(&mut options, "<restore-pidfile>");
    assert(string_views(options@) =~= restore_base() + seq![
        "--external"@,
        "mnt[<a3s-device-cookie>]:<target-device-source>"@,
        "--root"@,
        "<target-rootfs>"@,
        "--pidfile"@,
        "<restore-pidfile>"@,
    ]);
    options
}

/// The option by which a dump names a device mount.
pub open spec fn dump_mount_option(mount: MountView) -> Seq<char> {
    "mnt["@ + mount.mountpoint + "]:"@ + mount.name
}

/// The option by which a restore finds the source of a device mount.
pub open spec fn restore_mount_option(name: Seq<char>, source: Seq<char>) -> Seq<char> {
    "mnt["@ + name + "]:"@ + source
}

/// The option by which a dump names a device mount.
pub fn dump_external_mount_option(name: &str, mountpoint: &str) -> (option: String)
    ensures
        option@ == dump_mount_option(MountView { name: name@, mountpoint: mountpoint@ }),
{
    let mut option = "mnt[".to_owned();
    option.append(mountpoint);
    option.append("]:");
    option.append(name);
    option
}

/// The option by which a restore finds the source of a device mount.
pub fn restore_external_mount_option(name: &str, source: &str) -> (option: String)
    ensures
        option@ == restore_mount_option(name@, source@),
{
    let mut option = "mnt[".to_owned();
    option.append(name);
    option.append("]:");
    option.append(source);
    option
}

/// The options for a list of device mounts.
pub open spec fn dump_mount_options(mounts: Seq<MountView>) -> Seq<Seq<char>>
    decreases mounts.len(),
{
    if mounts.len() == 0 {
        Seq::empty()
    } else {
        dump_mount_options(mounts.drop_last()).push("--external"@).push(
            dump_mount_option(mounts.last()),
        )
    }
}

/// A workload has a management cgroup above it.
pub open spec fn has_cgroup_parent(workload: Seq<char>) -> bool {
    &&& components(workload).len() > 0
    &&& components(workload).last() != root_component()
    &&& absolute(workload)
}

/// The components of the management cgroup of a workload.
pub open spec fn cgroup_parent(workload: Seq<char>) -> Seq<Seq<char>> {
    components(workload).drop_last()
}

/// The management cgroup lies below the mount of the hierarchy.
pub open spec fn below_cgroup_mount(parts: Seq<Seq<char>>) -> bool {
    components(CGROUP2_MOUNT@).is_prefix_of(parts) && parts.len() > components(
        CGROUP2_MOUNT@,
    ).len()
}

/// The cgroup root that CRIU is told: a slash and what is written of the management
/// cgroup behind the mount of the hierarchy.
pub open spec fn cgroup_root_text(workload: Seq<char>) -> Seq<char> {
    "/"@ + behind(parent_text(workload), (components(CGROUP2_MOUNT@).len() - 1) as nat)
}

/// What is wrong with the cgroup of a workload.
pub open spec fn cgroup_message(workload: Seq<char>) -> Option<Seq<char>> {
    if !has_cgroup_parent(workload) {
        Some("native checkpoint workload has no absolute management cgroup parent: "@ + workload)
    } else if !below_cgroup_mount(cgroup_parent(workload)) {
        Some(
            "native CRIU cgroup root is outside "@ + CGROUP2_MOUNT@ + ": "@ + parent_text(workload),
        )
    } else {
        None
    }
}

/// The cgroup root that CRIU is told for a workload.
pub fn cgroup_root(workload: &str) -> (result: Result<String, Error>)
    ensures
        match result {
            Ok(root) => cgroup_message(workload@) is None && root@ == cgroup_root_text(workload@),
            Err(error) => cgroup_message(workload@) is Some && error.is_checkpoint(
                ErrorCode::FailedPrecondition,
                cgroup_message(workload@)->0,
            ),
        },
{
    let parts = components_of(workload);
    let slash = chars_of("/");
    proof {
        reveal_strlit("/");
        assert(slash@ =~= root_component());
        if parts@.len() > 0 {
            assert(views(parts@).last() == parts@.last()@);
        }
    }
    if parts.len() == 0 || chars_eq(&parts[parts.len() - 1], &slash) || !is_absolute(workload) {
        let mut message =
            "native checkpoint workload has no absolute management cgroup parent: ".to_owned();
        message.append(workload);
        return Err(checkpoint_error(ErrorCode::FailedPrecondition, &message));
    }
    let mount = components_of(CGROUP2_MOUNT);
    let end: usize = parts.len() - 1;
    let ghost parent = cgroup_parent(workload@);
    let below = list_has_prefix(&parts, &mount);
    let above = parent_text_of(workload);
    proof {
        assert(parent =~= views(parts@).subrange(0, end as int));
        if mount@.len() <= end {
            assert(parent.subrange(0, mount@.len() as int) =~= views(parts@).subrange(
                0,
                mount@.len() as int,
            ));
        }
    }
    if !below || end <= mount.len() {
        let mut message = "native CRIU cgroup root is outside ".to_owned();
        message.append(CGROUP2_MOUNT);
        message.append(": ");
        message.append(&above);
        return Err(checkpoint_error(ErrorCode::FailedPrecondition, &message));
    }
    proof {
        reveal_strlit("/sys/fs/cgroup");
        roots_come_first(CGROUP2_MOUNT@);
    }
    let rest = text_behind(&above, mount.len() - 1);
    let mut root = "/".to_owned();
    root.append(&rest);
    Ok(root)
}

/// The cgroup root that CRIU is told leads from the mount of the hierarchy to the
/// management cgroup: its components are those of the management cgroup behind the
/// mount, under a root of their own.
pub proof fn cgroup_roots_lead_to_the_management_cgroup(workload: Seq<char>)
    requires
        cgroup_message(workload) is None,
    ensures
        components(cgroup_root_text(workload)) == seq![root_component()] + cgroup_parent(
            workload,
        ).skip(components(CGROUP2_MOUNT@).len() as int),
{
    reveal_strlit("/");
    reveal_strlit("/sys/fs/cgroup");
    roots_come_first(CGROUP2_MOUNT@);
    parents_lack_the_last_component(workload);
    let count = (components(CGROUP2_MOUNT@).len() - 1) as nat;
    behind_has_the_later_components(parent_text(workload), count);
    assert("/"@ =~= seq!['/']);
}

/// The options of a dump from a cgroup with device mounts.
pub open spec fn dump_option_list(cgroup: Seq<char>, mounts: Seq<MountView>) -> Seq<Seq<char>> {
    dump_base() + dump_mount_options(mounts) + seq![
        "--freeze-cgroup"@,
        cgroup,
        "--cgroup-root"@,
        cgroup_root_text(cgroup),
    ]
}

fn push_mounts(options: &mut Vec<String>, mounts: &Vec<ExternalMountManifestEntry>)
    ensures
        string_views(final(options)@) == string_views(old(options)@) + dump_mount_options(
            mount_views(mounts@),
        ),
{
    let ghost before = string_views(options@);
    let ghost all = mount_views(mounts@);
    let mut next: usize = 0;
    assert(before + dump_mount_options(all.take(0)) =~= before);
    while next < mounts.len()
        invariant
            next <= mounts@.len(),
            all == mount_views(mounts@),
            string_views(options@) == before + dump_mount_options(all.take(next as int)),
        decreases mounts@.len() - next,
    {
        let option = dump_external_mount_option(&mounts[next].name, &mounts[next].mountpoint);
        push(options, "--external");
        push(options, &option);
        proof {
            let longer = all.take(next + 1);
            assert(longer.drop_last() =~= all.take(next as int));
            assert(longer.last() == mounts@[next as int]@);
            assert(string_views(options@) =~= before + dump_mount_options(longer));
        }
        next = next + 1;
    }
    assert(all.take(mounts@.len() as int) =~= all);
}

/// The options of a dump, which bind it to its cgroup and its device mounts.
pub fn dump_options(cgroup: &str, mounts: &Vec<ExternalMountManifestEntry>) -> (result: Result<
    Vec<String>,
    Error,
>)
    ensures
        match result {
            Ok(options) => cgroup_message(cgroup@) is None && string_views(options@)
                == dump_option_list(cgroup@, mount_views(mounts@)),
            Err(error) => cgroup_message(cgroup@) is Some && error.is_checkpoint(
                ErrorCode::FailedPrecondition,
                cgroup_message(cgroup@)->0,
            ),
        },
{
    let mut options = dump_base_options();
    push_mounts(&mut options, mounts);
    push(&mut options, "--freeze-cgroup");
    push(&mut options, cgroup);
    push(&mut options, "--cgroup-root");
    let root = match cgroup_root(cgroup) {
        Ok(root) => root,
        Err(error) => return Err(error),
    };
    push(&mut options, &root);
    assert(string_views(options@) =~= dump_option_list(cgroup@, mount_views(mounts@)));
    Ok(options)
}

/// The arguments of a dump of a process tree.
pub fn dump_arguments(
    root_pid: u32,
    images: &str,
    work: &str,
    cgroup: &str,
    mounts: &Vec<ExternalMountManifestEntry>,
) -> (result: Result<Vec<String>, Error>)
    ensures
        match result {
            Ok(arguments) => cgroup_message(cgroup@) is None && string_views(arguments@) == seq![
                "dump"@,
                "--tree"@,
                decimal(root_pid as nat),
                "--images-dir"@,
                images@,
                "--work-dir"@,
                work@,
                "--log-file"@,
                "dump.log"@,
            ] + dump_option_list(cgroup@, mount_views(mounts@)),
            Err(error) => cgroup_message(cgroup@) is Some && error.is_checkpoint(
                ErrorCode::FailedPrecondition,
                cgroup_message(cgroup@)->0,
            ),
        },
{
    let mut options = match dump_options(cgroup, mounts) {
        Ok(options) => options,
        Err(error) => return Err(error),
    };
    let ghost tail = string_views(options@);
    let mut pid = String::new();
    append_decimal(&mut pid, root_pid as u64);
    assert(pid@ =~= decimal(root_pid as nat));
    let mut arguments: Vec<String> = Vec::new();
    assert(string_views(arguments@) =~= Seq::empty());
    push(&mut arguments, "dump");
    push(&mut arguments, "--tree");
    push(&mut arguments, &pid);
    push(&mut arguments, "--images-dir");
    push(&mut arguments, images);
    push(&mut arguments, "--work-dir");
    push(&mut arguments, work);
    push(&mut arguments, "--log-file");
    push(&mut arguments, "dump.log");
    let ghost head = string_views(arguments@);
    arguments.append(&mut options);
    proof {
        assert(string_views(arguments@) =~= head + tail);
        assert(head =~= seq![
            "dump"@,
            "--tree"@,
            decimal(root_pid as nat),
            "--images-dir"@,
            images@,
            "--work-dir"@,
            work@,
            "--log-file"@,
            "dump.log"@,
        ]);
    }
    Ok(arguments)
}

/// A device mount of a restore, with the device it gets.
#[derive(Clone, Debug)]
pub struct RestoreMount {
    pub name: String,
    pub mountpoint: String,
    pub source: String,
}

/// A device mount of a restore: cookie, mountpoint and device.
pub struct RestoreMountView {
    pub name: Seq<char>,
    pub mountpoint: Seq<char>,
    pub source: Seq<char>,
}

impl View for RestoreMount {
    type V = RestoreMountView;

    open spec fn view(&self) -> RestoreMountView {
        RestoreMountView {
            name: self.name@,
            mountpoint: self.mountpoint@,
            source: self.source@,
        }
    }
}

/// The views of a list of restore mounts.
pub open spec fn restore_mount_views(mounts: Seq<RestoreMount>) -> Seq<RestoreMountView> {
    Seq::new(mounts.len(), |i: int| mounts[i]@)
}

/// The mounts of a restore are those of the checkpoint, in the same order.
pub open spec fn same_mount_contract(
    found: Seq<RestoreMountView>,
    expected: Seq<MountView>,
) -> bool {
    &&& found.len() == expected.len()
    &&& forall|i: int|
        0 <= i < found.len() ==> (#[trigger] found[i]).name == expected[i].name && components(
            found[i].mountpoint,
        ) == components(expected[i].mountpoint)
}

/// Checks that the mounts of a restore are those of the checkpoint.
pub fn check_mount_contract(
    found: &Vec<RestoreMount>,
    expected: &Vec<ExternalMountManifestEntry>,
) -> (result: Result<(), Error>)
    ensures
        ({
            let same = same_mount_contract(restore_mount_views(found@), mount_views(expected@));
            match result {
                Ok(()) => same,
                Err(error) => !same && error.is_checkpoint(
                    ErrorCode::FailedPrecondition,
                    "restore device mount contract differs from the checkpoint artifact"@,
                ),
            }
        }),
{
    if mounts_agree(found, expected) {
        Ok(())
    } else {
        Err(
            checkpoint_error(
                ErrorCode::FailedPrecondition,
                "restore device mount contract differs from the checkpoint artifact",
            ),
        )
    }
}

fn mounts_agree(
    found: &Vec<RestoreMount>,
    expected: &Vec<ExternalMountManifestEntry>,
) -> (agree: bool)
    ensures
        agree == same_mount_contract(restore_mount_views(found@), mount_views(expected@)),
{
    let ghost left = restore_mount_views(found@);
    let ghost right = mount_views(expected@);
    if found.len() != expected.len() {
        return false;
    }
    let mut next: usize = 0;
    while next < found.len()
        invariant
            next <= found@.len(),
            found@.len() == expected@.len(),
            left == restore_mount_views(found@),
            right == mount_views(expected@),
            forall|i: int|
                0 <= i < next ==> (#[trigger] left[i]).name == right[i].name && components(
                    left[i].mountpoint,
                ) == components(right[i].mountpoint),
        decreases found@.len() - next,
    {
        assert(left[next as int] == found@[next as int]@);
        assert(right[next as int] == expected@[next as int]@);
        if !text_eq(&found[next].name, &expected[next].name) || !same_path(
            &found[next].mountpoint,
            &expected[next].mountpoint,
        ) {
            return false;
        }
        next = next + 1;
    }
    true
}

/// The options for the mounts of a restore.
pub open spec fn restore_mount_options(mounts: Seq<RestoreMountView>) -> Seq<Seq<char>>
    decreases mounts.len(),
{
    if mounts.len() == 0 {
        Seq::empty()
    } else {
        restore_mount_options(mounts.drop_last()).push("--external"@).push(
            restore_mount_option(mounts.last().name, mounts.last().source),
        )
    }
}

/// What a restore is run with, besides the stage.
#[derive(Debug)]
pub struct RestoreLaunch {
    pub rootfs: String,
    pub pidfile: String,
    pub supervisor: String,
    pub config_snapshot: String,
    pub control_name: String,
    pub owner_pid: u32,
}

/// The arguments of a restore.
pub open spec fn restore_argument_list(
    images: Seq<char>,
    work: Seq<char>,
    mounts: Seq<RestoreMountView>,
    launch: RestoreLaunch,
) -> Seq<Seq<char>> {
    seq![
        "restore"@,
        "--images-dir"@,
        images,
        "--work-dir"@,
        work,
        "--log-file"@,
        "restore.log"@,
    ] + restore_base() + restore_mount_options(mounts) + seq![
        "--root"@,
        launch.rootfs@,
        "--pidfile"@,
        launch.pidfile@,
        "--"@,
        launch.supervisor@,
        "container-restore-supervisor"@,
        launch.config_snapshot@,
        launch.control_name@,
        launch.pidfile@,
        decimal(launch.owner_pid as nat),
    ]
}

fn push_restore_mounts(options: &mut Vec<String>, mounts: &Vec<RestoreMount>)
    ensures
        string_views(final(options)@) == string_views(old(options)@) + restore_mount_options(
            restore_mount_views(mounts@),
        ),
{
    let ghost before = string_views(options@);
    let ghost all = restore_mount_views(mounts@);
    let mut next: usize = 0;
    assert(before + restore_mount_options(all.take(0)) =~= before);
    while next < mounts.len()
        invariant
            next <= mounts@.len(),
            all == restore_mount_views(mounts@),
            string_views(options@) == before + restore_mount_options(all.take(next as int)),
        decreases mounts@.len() - next,
    {
        let option = restore_external_mount_option(&mounts[next].name, &mounts[next].source);
        push(options, "--external");
        push(options, &option);
        proof {
            let longer = all.take(next + 1);
            assert(longer.drop_last() =~= all.take(next as int));
            assert(longer.last() == mounts@[next as int]@);
            assert(string_views(options@) =~= before + restore_mount_options(longer));
        }
        next = next + 1;
    }
    assert(all.take(mounts@.len() as int) =~= all);
}

/// The arguments of a restore, if its mounts are those of the checkpoint.
pub fn restore_arguments(
    images: &str,
    work: &str,
    mounts: &Vec<RestoreMount>,
    expected: &Vec<ExternalMountManifestEntry>,
    launch: &RestoreLaunch,
) -> (result: Result<Vec<String>, Error>)
    ensures
        ({
            let found = restore_mount_views(mounts@);
            match result {
                Ok(arguments) => same_mount_contract(found, mount_views(expected@))
                    && string_views(arguments@) == restore_argument_list(
                    images@,
                    work@,
                    found,
                    *launch,
                ),
                Err(error) => !same_mount_contract(found, mount_views(expected@))
                    && error.is_checkpoint(
                    ErrorCode::FailedPrecondition,
                    "restore device mount contract differs from the checkpoint artifact"@,
                ),
            }
        }),
{
    match check_mount_contract(mounts, expected) {
        Ok(()) => {},
        Err(error) => return Err(error),
    }
    let mut arguments: Vec<String> = Vec::new();
    assert(string_views(arguments@) =~= Seq::empty());
    push(&mut arguments, "restore");
    push(&mut arguments, "--images-dir");
    push(&mut arguments, images);
    push(&mut arguments, "--work-dir");
    push(&mut arguments, work);
    push(&mut arguments, "--log-file");
    push(&mut arguments, "restore.log");
    let ghost head = string_views(arguments@);
    let mut base = restore_base_options();
    let ghost base_views = string_views(base@);
    arguments.append(&mut base);
    assert(string_views(arguments@) =~= head + base_views);
    push_restore_mounts(&mut arguments, mounts);
    push(&mut arguments, "--root");
    push(&mut arguments, &launch.rootfs);
    push(&mut arguments, "--pidfile");
    push(&mut arguments, &launch.pidfile);
    push(&mut arguments, "--");
    push(&mut arguments, &launch.supervisor);
    push(&mut arguments, "container-restore-supervisor");
    push(&mut arguments, &launch.config_snapshot);
    push(&mut arguments, &launch.control_name);
    push(&mut arguments, &launch.pidfile);
    let mut owner = String::new();
    append_decimal(&mut owner, launch.owner_pid as u64);
    assert(owner@ =~= decimal(launch.owner_pid as nat));
    push(&mut arguments, &owner);
    assert(string_views(arguments@) =~= restore_argument_list(
        images@,
        work@,
        restore_mount_views(mounts@),
        *launch,
    ));
    Ok(arguments)
}

/// A character that a version may hold.
pub open spec fn version_character(character: char) -> bool {
    '0' <= character <= '9' || 'a' <= character <= 'z' || 'A' <= character <= 'Z' || character
        == '.' || character == '-' || character == '_' || character == '+'
}

/// A version or a revision: 1 to 128 safe characters.
pub open spec fn version_field_holds(value: Seq<char>) -> bool {
    &&& 1 <= value.len() <= 128
    &&& forall|i: int| 0 <= i < value.len() ==> version_character(#[trigger] value[i])
}

/// The message for an unsafe version field.
pub open spec fn version_field_message(label: Seq<char>) -> Seq<char> {
    "CRIU "@ + label + " is empty, oversized, or contains unsafe characters"@
}

/// Checks a version or a revision.
pub fn validate_version_field(value: &Vec<char>, label: &str) -> (result: Result<String, Error>)
    ensures
        match result {
            Ok(text) => version_field_holds(value@) && text@ == value@,
            Err(error) => !version_field_holds(value@) && error.is_checkpoint(
                ErrorCode::FailedPrecondition,
                version_field_message(label@),
            ),
        },
{
    if is_version_field(value) {
        return Ok(string_of(value));
    }
    let mut message = "CRIU ".to_owned();
    message.append(label);
    message.append(" is empty, oversized, or contains unsafe characters");
    Err(checkpoint_error(ErrorCode::FailedPrecondition, &message))
}

fn is_version_field(value: &Vec<char>) -> (holds: bool)
    ensures
        holds == version_field_holds(value@),
{
    if value.len() == 0 || value.len() > 128 {
        return false;
    }
    let mut next: usize = 0;
    while next < value.len()
        invariant
            next <= value@.len(),
            forall|i: int| 0 <= i < next ==> version_character(#[trigger] value@[i]),
        decreases value@.len() - next,
    {
        let c = value[next];
        let safe = ('0' <= c && c <= '9') || ('a' <= c && c <= 'z') || ('A' <= c && c <= 'Z') || c
            == '.' || c == '-' || c == '_' || c == '+';
        if !safe {
            assert(!version_character(value@[next as int]));
            return false;
        }
        next = next + 1;
    }
    true
}

/// What the lines of a version report say: the last version and the last
/// revision, or the label of the first field that is unsafe.
pub open spec fn version_lines(lines: Seq<Seq<char>>) -> Result<
    (Option<Seq<char>>, Option<Seq<char>>),
    Seq<char>,
>
    decreases lines.len(),
{
    if lines.len() == 0 {
        Ok((None, None))
    } else {
        match version_lines(lines.drop_last()) {
            Err(label) => Err(label),
            Ok(found) => {
                let line = trimmed(lines.last());
                match after_prefix(line, "Version:"@) {
                    Some(value) => if version_field_holds(trimmed(value)) {
                        Ok((Some(trimmed(value)), found.1))
                    } else {
                        Err("version"@)
                    },
                    None => match after_prefix(line, "GitID:"@) {
                        Some(value) => if version_field_holds(trimmed(value)) {
                            Ok((found.0, Some(trimmed(value))))
                        } else {
                            Err("GitID"@)
                        },
                        None => Ok(found),
                    },
                }
            },
        }
    }
}

fn after(line: &Vec<char>, prefix: &str) -> (rest: Option<Vec<char>>)
    ensures
        rest is Some <==> after_prefix(line@, prefix@) is Some,
        rest matches Some(r) ==> after_prefix(line@, prefix@) == Some(r@),
{
    let head = chars_of(prefix);
    if has_prefix(line, &head) {
        let rest = copy_range(line, head.len(), line.len());
        assert(rest@ =~= line@.skip(head@.len() as int));
        Some(rest)
    } else {
        None
    }
}

proof fn version_lines_stay(lines: Seq<Seq<char>>, upto: int)
    requires
        0 <= upto <= lines.len(),
        version_lines(lines.take(upto)) is Err,
    ensures
        version_lines(lines) == version_lines(lines.take(upto)),
    decreases lines.len() - upto,
{
    if upto == lines.len() {
        assert(lines.take(upto) =~= lines);
    } else {
        assert(lines.take(upto + 1).drop_last() =~= lines.take(upto));
        version_lines_stay(lines, upto + 1);
    }
}

/// Reads the version report of CRIU.
pub fn parse_version_text(output: &str) -> (result: Result<(String, Option<String>), Error>)
    ensures
        ({
            let lines = pieces(output@, '\n');
            match version_lines(lines) {
                Err(label) => result matches Err(error) && error.is_checkpoint(
                    ErrorCode::FailedPrecondition,
                    version_field_message(label),
                ),
                Ok(found) => match found.0 {
                    None => result matches Err(error) && error.is_checkpoint(
                        ErrorCode::FailedPrecondition,
                        "CRIU --version output omits the Version field"@,
                    ),
                    Some(version) => result matches Ok(identity) && identity.0@ == version
                        && crate::text::optional_view(identity.1) == found.1,
                },
            }
        }),
{
    let lines = split(&chars_of(output), '\n');
    let ghost all = views(lines@);
    let mut version: Option<String> = None;
    let mut git_id: Option<String> = None;
    let mut next: usize = 0;
    assert(all.take(0) =~= Seq::empty());
    while next < lines.len()
        invariant
            next <= lines@.len(),
            all == views(lines@),
            all == pieces(output@, '\n'),
            version_lines(all.take(next as int)) == Ok::<
                (Option<Seq<char>>, Option<Seq<char>>),
                Seq<char>,
            >((crate::text::optional_view(version), crate::text::optional_view(git_id))),
        decreases lines@.len() - next,
    {
        let ghost longer = all.take(next + 1);
        proof {
            assert(longer.drop_last() =~= all.take(next as int));
            assert(longer.last() == lines@[next as int]@);
        }
        let line = trim(&lines[next]);
        match after(&line, "Version:") {
            Some(value) => {
                let value = trim(&value);
                match validate_version_field(&value, "version") {
                    Ok(text) => {
                        version = Some(text);
                    },
                    Err(error) => {
                        proof {
                            version_lines_stay(all, next + 1);
                        }
                        return Err(error);
                    },
                }
            },
            None => match after(&line, "GitID:") {
                Some(value) => {
                    let value = trim(&value);
                    match validate_version_field(&value, "GitID") {
                        Ok(text) => {
                            git_id = Some(text);
                        },
                        Err(error) => {
                            proof {
                                version_lines_stay(all, next + 1);
                            }
                            return Err(error);
                        },
                    }
                },
                None => {},
            },
        }
        next = next + 1;
    }
    assert(all.take(lines@.len() as int) =~= all);
    match version {
        Some(version) => Ok((version, git_id)),
        None => Err(
            checkpoint_error(
                ErrorCode::FailedPrecondition,
                "CRIU --version output omits the Version field",
            ),
        ),
    }
}

/// Reads the bytes of the version report of CRIU.
pub fn parse_version_output(bytes: &[u8]) -> (result: Result<(String, Option<String>), Error>)
    ensures
        !vstd::utf8::valid_utf8(bytes@) ==> (result matches Err(error) && error.is_checkpoint(
            ErrorCode::FailedPrecondition,
            "CRIU version output is not UTF-8: "@ + utf8_error_text(bytes@),
        )),
        vstd::utf8::valid_utf8(bytes@) ==> {
            let lines = pieces(vstd::utf8::decode_utf8(bytes@), '\n');
            match version_lines(lines) {
                Err(label) => result matches Err(error) && error.is_checkpoint(
                    ErrorCode::FailedPrecondition,
                    version_field_message(label),
                ),
                Ok(found) => match found.0 {
                    None => result matches Err(error) && error.is_checkpoint(
                        ErrorCode::FailedPrecondition,
                        "CRIU --version output omits the Version field"@,
                    ),
                    Some(version) => result matches Ok(identity) && identity.0@ == version
                        && crate::text::optional_view(identity.1) == found.1,
                },
            }
        },
{
    match decode_text(bytes) {
        Ok(output) => {
            proof {
                vstd::utf8::encode_utf8_decode_utf8(output@);
            }
            parse_version_text(&output)
        },
        Err(cause) => {
            let mut message = "CRIU version output is not UTF-8: ".to_owned();
            message.append(&cause);
            Err(checkpoint_error(ErrorCode::FailedPrecondition, &message))
        },
    }
}

/// How long a dump may take, if it may be tried at all.
pub open spec fn dump_budget(deadline_unix_ms: Option<u64>, now_ms: u64) -> Option<u64> {
    match deadline_unix_ms {
        None => Some(DEFAULT_DUMP_TIMEOUT_MS),
        Some(deadline) => if deadline <= now_ms {
            None
        } else if deadline - now_ms < DEFAULT_DUMP_TIMEOUT_MS {
            Some((deadline - now_ms) as u64)
        } else {
            Some(DEFAULT_DUMP_TIMEOUT_MS)
        },
    }
}

/// How long a dump may take, given the deadline of the operation and the time.
pub fn dump_timeout(deadline_unix_ms: Option<u64>, now_ms: u64) -> (result: Result<u64, Error>)
    ensures
        match deadline_unix_ms {
            None => result == Ok::<u64, Error>(DEFAULT_DUMP_TIMEOUT_MS),
            Some(deadline) => if deadline <= now_ms {
                result matches Err(error) && error.is_checkpoint(
                    ErrorCode::DeadlineExceeded,
                    "checkpoint operation deadline "@ + decimal(deadline as nat) + " has expired"@,
                )
            } else if deadline - now_ms < DEFAULT_DUMP_TIMEOUT_MS {
                result == Ok::<u64, Error>((deadline - now_ms) as u64)
            } else {
                result == Ok::<u64, Error>(DEFAULT_DUMP_TIMEOUT_MS)
            },
        },
        result is Ok <==> dump_budget(deadline_unix_ms, now_ms) is Some,
        result matches Ok(budget) ==> dump_budget(deadline_unix_ms, now_ms) == Some(budget),
{
    let deadline: u64 = match deadline_unix_ms {
        None => return Ok(DEFAULT_DUMP_TIMEOUT_MS),
        Some(deadline) => deadline,
    };
    if deadline <= now_ms {
        let mut message = "checkpoint operation deadline ".to_owned();
        append_decimal(&mut message, deadline);
        message.append(" has expired");
        return Err(checkpoint_error(ErrorCode::DeadlineExceeded, &message));
    }
    let remaining: u64 = deadline - now_ms;
    if remaining < DEFAULT_DUMP_TIMEOUT_MS {
        Ok(remaining)
    } else {
        Ok(DEFAULT_DUMP_TIMEOUT_MS)
    }
}

/// The failure of a CRIU run that took too long; it may be tried again.
pub fn command_timeout(seconds: u64) -> (error: Error)
    ensures
        error.code == ErrorCode::DeadlineExceeded,
        error.message@ == "CRIU command exceeded its "@ + decimal(seconds as nat)
            + " second deadline"@,
        error.operation is Some,
        error.operation->0@ == CHECKPOINT_OPERATION@,
        error.retryable,
{
    let mut message = "CRIU command exceeded its ".to_owned();
    append_decimal(&mut message, seconds);
    message.append(" second deadline");
    checkpoint_error(ErrorCode::DeadlineExceeded, &message).retryable(true)
}

/// Output of a run, kept up to a bound.
#[derive(Debug)]
pub struct BoundedOutput {
    retained: Vec<u8>,
    overflowed: bool,
}

impl BoundedOutput {
    /// The bytes that are kept.
    pub closed spec fn kept(self) -> Seq<u8> {
        self.retained@
    }

    /// Whether bytes were dropped.
    pub closed spec fn dropped(self) -> bool {
        self.overflowed
    }

    /// What is kept is within the bound, and is all there was unless bytes were
    /// dropped.
    pub open spec fn holds(self, whole: Seq<u8>) -> bool {
        if whole.len() <= TOOL_OUTPUT_LIMIT {
            self.kept() == whole && !self.dropped()
        } else {
            self.kept() == whole.take(TOOL_OUTPUT_LIMIT as int) && self.dropped()
        }
    }

    /// No output yet.
    pub fn new() -> (output: BoundedOutput)
        ensures
            output.holds(Seq::<u8>::empty()),
    {
        BoundedOutput { retained: Vec::new(), overflowed: false }
    }

    /// Takes in the next piece of output.
    pub fn take(&mut self, piece: &[u8])
        ensures
            forall|whole: Seq<u8>| #[trigger]
                old(self).holds(whole) ==> final(self).holds(whole + piece@),
    {
        let ghost before = *self;
        let kept: usize = if self.retained.len() < TOOL_OUTPUT_LIMIT {
            TOOL_OUTPUT_LIMIT - self.retained.len()
        } else {
            0
        };
        if piece.len() <= kept {
            self.retained.extend_from_slice(piece);
            assert(self.retained@ =~= before.retained@ + piece@);
        } else {
            let part = vstd::slice::slice_subrange(piece, 0, kept);
            self.retained.extend_from_slice(part);
            self.overflowed = true;
            assert(self.retained@ =~= before.retained@ + piece@.subrange(0, kept as int));
        }
        proof {
            assert forall|whole: Seq<u8>| #[trigger] before.holds(whole) implies self.holds(
                whole + piece@,
            ) by {
                let longer = whole + piece@;
                if whole.len() <= TOOL_OUTPUT_LIMIT {
                    if longer.len() <= TOOL_OUTPUT_LIMIT {
                        assert(self.kept() =~= longer);
                    } else {
                        assert(self.kept() =~= longer.take(TOOL_OUTPUT_LIMIT as int));
                    }
                } else {
                    assert(self.kept() =~= longer.take(TOOL_OUTPUT_LIMIT as int));
                    if piece@.len() == 0 {
                        assert(longer =~= whole);
                    }
                }
            }
        }
    }

    /// The bytes that are kept, and whether others were dropped.
    pub fn finish(self) -> (result: (Vec<u8>, bool))
        ensures
            result.0@ == self.kept(),
            result.1 == self.dropped(),
    {
        (self.retained, self.overflowed)
    }
}

/// The truth of a flag as text.
pub open spec fn flag_text(flag: bool) -> Seq<char> {
    if flag {
        "true"@
    } else {
        "false"@
    }
}

fn append_flag(text: &mut String, flag: bool)
    ensures
        final(text)@ == old(text)@ + flag_text(flag),
{
    if flag {
        text.append("true");
    } else {
        text.append("false");
    }
}

fn append_quoted(text: &mut String, value: &str)
    ensures
        final(text)@ == old(text)@ + debug_text(trimmed(value@)),
{
    let inner = string_of(&trim(&chars_of(value)));
    let quoted = quote(&inner);
    text.append(&quoted);
}

/// What a finished CRIU run left behind.
#[derive(Debug)]
pub struct CommandReport {
    pub success: bool,
    pub status: String,
    pub stdout: String,
    pub stderr: String,
    pub overflowed: bool,
    pub log: String,
    pub log_truncated: bool,
}

/// The message of a failed CRIU run.
pub open spec fn run_message(action: Seq<char>, report: CommandReport) -> Seq<char> {
    "failed to "@ + action + "; status="@ + report.status@ + "; stdout="@ + debug_text(
        trimmed(report.stdout@),
    ) + "; stderr="@ + debug_text(trimmed(report.stderr@)) + "; log="@ + debug_text(
        trimmed(report.log@),
    ) + "; log_truncated="@ + flag_text(report.log_truncated)
}

/// A CRIU run that can be relied on.
pub open spec fn run_succeeded(report: CommandReport) -> bool {
    report.success && !report.overflowed
}

/// Checks that a CRIU run succeeded and that all its output was kept.
pub fn require_success(action: &str, report: &CommandReport) -> (result: Result<(), Error>)
    ensures
        match result {
            Ok(()) => report.success && !report.overflowed,
            Err(error) => !(report.success && !report.overflowed) && error.is_checkpoint(
                if report.overflowed {
                    ErrorCode::ResourceExhausted
                } else {
                    ErrorCode::FailedPrecondition
                },
                run_message(action@, *report),
            ),
        },
        result is Ok <==> run_succeeded(*report),
{
    if report.success && !report.overflowed {
        return Ok(());
    }
    let mut message = "failed to ".to_owned();
    message.append(action);
    message.append("; status=");
    message.append(&report.status);
    message.append("; stdout=");
    append_quoted(&mut message, &report.stdout);
    message.append("; stderr=");
    append_quoted(&mut message, &report.stderr);
    message.append("; log=");
    append_quoted(&mut message, &report.log);
    message.append("; log_truncated=");
    append_flag(&mut message, report.log_truncated);
    let code = if report.overflowed {
        ErrorCode::ResourceExhausted
    } else {
        ErrorCode::FailedPrecondition
    };
    Err(checkpoint_error(code, &message))
}

/// Adds the restore log to the failure of a restore.
pub fn append_restore_log(error: &mut Error, log: &str, truncated: bool)
    ensures
        final(error).message@ == old(error).message@ + "; CRIU restore log="@ + debug_text(
            trimmed(log@),
        ) + "; log_truncated="@ + flag_text(truncated),
        final(error).code == old(error).code,
        final(error).operation == old(error).operation,
        final(error).retryable == old(error).retryable,
{
    let mut message = error.message.clone();
    message.append("; CRIU restore log=");
    append_quoted(&mut message, log);
    message.append("; log_truncated=");
    append_flag(&mut message, truncated);
    error.message = message;
}

/// A regular executable of root that nobody else can write.
pub open spec fn trusted_executable(facts: FileFacts) -> bool {
    &&& facts.kind == FileKind::Regular
    &&& facts.uid == 0
    &&& facts.mode & 0o111 != 0
    &&& facts.mode & 0o022 == 0
}

/// Checks that the backend runs as root.
pub fn require_root(euid: u32) -> (result: Result<(), Error>)
    ensures
        match result {
            Ok(()) => euid == 0,
            Err(error) => euid != 0 && error.is_checkpoint(
                ErrorCode::PermissionDenied,
                "native CRIU checkpointing requires effective UID 0"@,
            ),
        },
{
    if euid == 0 {
        Ok(())
    } else {
        Err(
            checkpoint_error(
                ErrorCode::PermissionDenied,
                "native CRIU checkpointing requires effective UID 0",
            ),
        )
    }
}

/// Checks that a path of an executable is absolute. `label` says which one.
pub fn require_absolute_executable(label: &str, path: &str) -> (result: Result<(), Error>)
    ensures
        match result {
            Ok(()) => absolute(path@),
            Err(error) => !absolute(path@) && error.is_checkpoint(
                ErrorCode::InvalidArgument,
                label@ + " executable path must be absolute: "@ + path@,
            ),
        },
{
    if is_absolute(path) {
        return Ok(());
    }
    let mut message = label.to_owned();
    message.append(" executable path must be absolute: ");
    message.append(path);
    Err(checkpoint_error(ErrorCode::InvalidArgument, &message))
}

/// Checks that the CRIU executable can be trusted.
pub fn check_executable(path: &str, facts: FileFacts) -> (result: Result<(), Error>)
    ensures
        match result {
            Ok(()) => trusted_executable(facts),
            Err(error) => !trusted_executable(facts) && error.is_checkpoint(
                ErrorCode::PermissionDenied,
                "CRIU executable must be a root-owned regular executable without group/world write access: "@
                    + path@,
            ),
        },
{
    if facts.kind == FileKind::Regular && facts.uid == 0 && facts.mode & 0o111 != 0 && facts.mode
        & 0o022 == 0 {
        return Ok(());
    }
    let mut message =
        "CRIU executable must be a root-owned regular executable without group/world write access: ".to_owned();
    message.append(path);
    Err(checkpoint_error(ErrorCode::PermissionDenied, &message))
}

/// Checks that the executable of init, which the driver's identity binds, is a
/// regular file.
pub fn check_init_executable(path: &str, kind: FileKind) -> (result: Result<(), Error>)
    ensures
        match result {
            Ok(()) => kind is Regular,
            Err(error) => !(kind is Regular) && error.is_checkpoint(
                ErrorCode::FailedPrecondition,
                "checkpoint init executable is not a regular file: "@ + path@,
            ),
        },
{
    if kind == FileKind::Regular {
        return Ok(());
    }
    let mut message = "checkpoint init executable is not a regular file: ".to_owned();
    message.append(path);
    Err(checkpoint_error(ErrorCode::FailedPrecondition, &message))
}

/// Checks that the executable is still the one that was probed.
pub fn verify_identity(expected: &str, actual: &str) -> (result: Result<(), Error>)
    ensures
        match result {
            Ok(()) => expected@ == actual@,
            Err(error) => expected@ != actual@ && error.is_checkpoint(
                ErrorCode::FailedPrecondition,
                "the retained CRIU executable changed after capability probing"@,
            ),
        },
{
    if text_eq(expected, actual) {
        Ok(())
    } else {
        Err(
            checkpoint_error(
                ErrorCode::FailedPrecondition,
                "the retained CRIU executable changed after capability probing",
            ),
        )
    }
}

/// Bytes of a log up to the bound, and whether there were more.
pub fn bound_log(bytes: Vec<u8>) -> (result: (Vec<u8>, bool))
    ensures
        result.1 == (bytes@.len() > TOOL_OUTPUT_LIMIT),
        result.0@ == if bytes@.len() > TOOL_OUTPUT_LIMIT {
            bytes@.take(TOOL_OUTPUT_LIMIT as int)
        } else {
            bytes@
        },
{
    let mut bytes = bytes;
    let truncated = bytes.len() > TOOL_OUTPUT_LIMIT;
    bytes.truncate(TOOL_OUTPUT_LIMIT);
    (bytes, truncated)
}

/// The options of a dump name its cgroup behind the freezer option, and the
/// device mounts behind the base options: dumps of different cgroups have
/// different options.
pub proof fn dump_options_bind_the_cgroup(
    first: Seq<char>,
    second: Seq<char>,
    mounts: Seq<MountView>,
)
    requires
        dump_option_list(first, mounts) == dump_option_list(second, mounts),
    ensures
        first == second,
{
    let index = dump_base().len() + dump_mount_options(mounts).len() + 1;
    assert(dump_option_list(first, mounts)[index as int] == first);
    assert(dump_option_list(second, mounts)[index as int] == second);
}

/// Each device mount of a dump is named by an option of its own, in the order of the
/// mounts, and by nothing else.
pub proof fn dump_options_name_every_mount(mounts: Seq<MountView>, place: int)
    requires
        0 <= place < mounts.len(),
    ensures
        dump_mount_options(mounts).len() == 2 * mounts.len(),
        dump_mount_options(mounts)[2 * place] == "--external"@,
        dump_mount_options(mounts)[2 * place + 1] == "mnt["@ + mounts[place].mountpoint + "]:"@
            + mounts[place].name,
    decreases mounts.len(),
{
    dump_options_come_in_pairs(mounts);
    dump_options_come_in_pairs(mounts.drop_last());
    if place < mounts.len() - 1 {
        dump_options_name_every_mount(mounts.drop_last(), place);
        assert(mounts.drop_last()[place] == mounts[place]);
    }
}

proof fn dump_options_come_in_pairs(mounts: Seq<MountView>)
    ensures
        dump_mount_options(mounts).len() == 2 * mounts.len(),
    decreases mounts.len(),
{
    if mounts.len() > 0 {
        dump_options_come_in_pairs(mounts.drop_last());
    }
}

/// Each mount of a restore is given its source by an option of its own, in the order of
/// the mounts, and by nothing else.
pub proof fn restore_options_give_every_mount_its_source(
    mounts: Seq<RestoreMountView>,
    place: int,
)
    requires
        0 <= place < mounts.len(),
    ensures
        restore_mount_options(mounts).len() == 2 * mounts.len(),
        restore_mount_options(mounts)[2 * place] == "--external"@,
        restore_mount_options(mounts)[2 * place + 1] == "mnt["@ + mounts[place].name + "]:"@
            + mounts[place].source,
    decreases mounts.len(),
{
    restore_options_come_in_pairs(mounts);
    restore_options_come_in_pairs(mounts.drop_last());
    if place < mounts.len() - 1 {
        restore_options_give_every_mount_its_source(mounts.drop_last(), place);
        assert(mounts.drop_last()[place] == mounts[place]);
    }
}

proof fn restore_options_come_in_pairs(mounts: Seq<RestoreMountView>)
    ensures
        restore_mount_options(mounts).len() == 2 * mounts.len(),
    decreases mounts.len(),
{
    if mounts.len() > 0 {
        restore_options_come_in_pairs(mounts.drop_last());
    }
}

/// A dump leaves its source running, freezes the cgroup of the workload and no other, and
/// restores it below the management cgroup.
pub proof fn dumps_leave_the_source_running(cgroup: Seq<char>, mounts: Seq<MountView>)
    ensures
        ({
            let options = dump_option_list(cgroup, mounts);
            let count = options.len() as int;
            &&& count == 10 + 2 * mounts.len()
            &&& options.take(6) == seq![
                "--leave-running"@,
                "--shell-job"@,
                "--file-locks"@,
                "--manage-cgroups=soft"@,
                "--external"@,
                "mnt[]"@,
            ]
            &&& options.subrange(6, count - 4) == dump_mount_options(mounts)
            &&& options[count - 4] == "--freeze-cgroup"@
            &&& options[count - 3] == cgroup
            &&& options[count - 2] == "--cgroup-root"@
            &&& options[count - 1] == cgroup_root_text(cgroup)
        }),
{
    dump_options_come_in_pairs(mounts);
    let options = dump_option_list(cgroup, mounts);
    assert(options.take(6) =~= dump_base());
    assert(options.subrange(6, options.len() - 4) =~= dump_mount_options(mounts));
}

/// A restore reads the given images, leaves the container stopped, gives every mount its
/// source, and hands over to the supervisor of the launch, which gets the configuration,
/// the control name, the pid file and the owner.
pub proof fn restores_hand_over_to_the_supervisor(
    images: Seq<char>,
    work: Seq<char>,
    mounts: Seq<RestoreMountView>,
    launch: RestoreLaunch,
)
    ensures
        ({
            let arguments = restore_argument_list(images, work, mounts, launch);
            let behind = 14 + 2 * mounts.len();
            &&& arguments.len() == behind + 11
            &&& arguments.take(7) == seq![
                "restore"@,
                "--images-dir"@,
                images,
                "--work-dir"@,
                work,
                "--log-file"@,
                "restore.log"@,
            ]
            &&& arguments.subrange(7, 14) == seq![
                "--leave-stopped"@,
                "--shell-job"@,
                "--file-locks"@,
                "--manage-cgroups=ignore"@,
                "--external"@,
                "mnt[]"@,
                "--exec-cmd"@,
            ]
            &&& arguments.subrange(14, behind as int) == restore_mount_options(mounts)
            &&& arguments.skip(behind as int) == seq![
                "--root"@,
                launch.rootfs@,
                "--pidfile"@,
                launch.pidfile@,
                "--"@,
                launch.supervisor@,
                "container-restore-supervisor"@,
                launch.config_snapshot@,
                launch.control_name@,
                launch.pidfile@,
                decimal(launch.owner_pid as nat),
            ]
        }),
{
    restore_options_come_in_pairs(mounts);
    let arguments = restore_argument_list(images, work, mounts, launch);
    let behind = 14 + 2 * mounts.len();
    assert(arguments.subrange(7, 14) =~= restore_base());
    assert(arguments.subrange(14, behind as int) =~= restore_mount_options(mounts));
}

/// Mounts honour a contract only one for one: as many as were checkpointed, each under
/// its cookie and at its mountpoint.
pub proof fn mount_contracts_are_exact(
    found: Seq<RestoreMountView>,
    expected: Seq<MountView>,
    other: Seq<MountView>,
)
    requires
        same_mount_contract(found, expected),
    ensures
        found.len() == expected.len(),
        forall|i: int|
            0 <= i < found.len() ==> (#[trigger] found[i]).name == expected[i].name && components(
                found[i].mountpoint,
            ) == components(expected[i].mountpoint),
        same_mount_contract(found, other) ==> other.len() == expected.len() && forall|i: int|
            0 <= i < other.len() ==> (#[trigger] other[i]).name == expected[i].name,
{
    if same_mount_contract(found, other) {
        assert forall|i: int| 0 <= i < other.len() implies (#[trigger] other[i]).name
            == expected[i].name by {
            assert(found[i].name == other[i].name);
        }
    }
}

/// A line that reports a field, and what it reports.
pub open spec fn reports(line: Seq<char>, label: Seq<char>, value: Seq<char>) -> bool {
    after_prefix(trimmed(line), label) matches Some(rest) && trimmed(rest) == value
}

/// The version and the revision of a report are each from the last line that gives one,
/// and are made of safe characters.
pub proof fn versions_are_the_last_reported(lines: Seq<Seq<char>>)
    ensures
        version_lines(lines) matches Ok(found) ==> {
            &&& found.0 matches Some(version) ==> version_field_holds(version) && exists|i: int|
                0 <= i < lines.len() && reports(#[trigger] lines[i], "Version:"@, version) && (
                forall|j: int|
                    i < j < lines.len() ==> after_prefix(
                        trimmed(#[trigger] lines[j]),
                        "Version:"@,
                    ) is None)
            &&& found.0 is None ==> forall|j: int|
                0 <= j < lines.len() ==> after_prefix(trimmed(#[trigger] lines[j]), "Version:"@)
                    is None
            &&& found.1 matches Some(revision) ==> version_field_holds(revision) && exists|i: int|
                0 <= i < lines.len() && reports(#[trigger] lines[i], "GitID:"@, revision)
        },
        version_lines(lines) matches Err(label) ==> (label == "version"@ || label == "GitID"@)
            && exists|i: int|
            0 <= i < lines.len() && (after_prefix(trimmed(#[trigger] lines[i]), "Version:"@)
                is Some || after_prefix(trimmed(lines[i]), "GitID:"@) is Some),
    decreases lines.len(),
{
    if lines.len() > 0 {
        let shorter = lines.drop_last();
        let last = lines.len() - 1;
        versions_are_the_last_reported(shorter);
        assert(forall|i: int| 0 <= i < shorter.len() ==> #[trigger] shorter[i] == lines[i]);
        assert(lines[last] == lines.last());
        if version_lines(lines) is Ok {
            let found = version_lines(lines)->Ok_0;
            let before = version_lines(shorter)->Ok_0;
            if after_prefix(trimmed(lines[last]), "Version:"@) is Some {
                assert(reports(lines[last], "Version:"@, found.0->0));
                assert(found.1 == before.1);
            } else {
                assert(found.0 == before.0);
                if found.0 is Some {
                    let i = choose|i: int|
                        0 <= i < shorter.len() && reports(
                            #[trigger] shorter[i],
                            "Version:"@,
                            found.0->0,
                        ) && (forall|j: int|
                            i < j < shorter.len() ==> after_prefix(
                                trimmed(#[trigger] shorter[j]),
                                "Version:"@,
                            ) is None);
                    assert forall|j: int| i < j < lines.len() implies after_prefix(
                        trimmed(#[trigger] lines[j]),
                        "Version:"@,
                    ) is None by {
                        if j < last {
                            assert(after_prefix(trimmed(shorter[j]), "Version:"@) is None);
                        }
                    }
                    assert(reports(lines[i], "Version:"@, found.0->0));
                } else {
                    assert forall|j: int| 0 <= j < lines.len() implies after_prefix(
                        trimmed(#[trigger] lines[j]),
                        "Version:"@,
                    ) is None by {
                        if j < last {
                            assert(after_prefix(trimmed(shorter[j]), "Version:"@) is None);
                        }
                    }
                }
            }
            if found.1 is Some {
                if found.1 == before.1 {
                    let i = choose|i: int|
                        0 <= i < shorter.len() && reports(
                            #[trigger] shorter[i],
                            "GitID:"@,
                            found.1->0,
                        );
                    assert(reports(lines[i], "GitID:"@, found.1->0));
                } else {
                    assert(reports(lines[last], "GitID:"@, found.1->0));
                }
            }
        } else if version_lines(shorter) is Err {
            let i = choose|i: int|
                0 <= i < shorter.len() && (after_prefix(
                    trimmed(#[trigger] shorter[i]),
                    "Version:"@,
                ) is Some || after_prefix(trimmed(shorter[i]), "GitID:"@) is Some);
            assert(lines[i] == shorter[i]);
        } else {
            assert(after_prefix(trimmed(lines[last]), "Version:"@) is Some || after_prefix(
                trimmed(lines[last]),
                "GitID:"@,
            ) is Some);
        }
    }
}

/// Only an executable of root is trusted, and none that its group or others can write.
pub proof fn trusted_executables_belong_to_root(facts: FileFacts)
    ensures
        trusted_executable(facts) ==> facts.kind is Regular,
        trusted_executable(facts) ==> facts.uid == 0,
        trusted_executable(facts) ==> facts.mode & 0o020 == 0 && facts.mode & 0o002 == 0,
        trusted_executable(facts) ==> facts.mode & 0o100 != 0 || facts.mode & 0o010 != 0
            || facts.mode & 0o001 != 0,
        facts.kind is Regular && facts.uid == 0 && facts.mode == 0o755 ==> trusted_executable(
            facts,
        ),
{
    let mode = facts.mode;
    assert(mode & 0o022 == 0 ==> mode & 0o020 == 0 && mode & 0o002 == 0) by (bit_vector);
    assert(mode & 0o111 != 0 ==> mode & 0o100 != 0 || mode & 0o010 != 0 || mode & 0o001 != 0)
        by (bit_vector);
    assert(0o755u32 & 0o022 == 0 && 0o755u32 & 0o111 != 0) by (bit_vector);
}

/// What is kept of an output is a start of it, all of it where it is within the bound, and
/// bytes were dropped exactly where it is not.
pub proof fn kept_output_is_a_start(capture: BoundedOutput, whole: Seq<u8>)
    requires
        capture.holds(whole),
    ensures
        capture.kept().is_prefix_of(whole),
        capture.kept().len() <= 65_536,
        capture.dropped() <==> whole.len() > 65_536,
        capture.kept().len() == whole.len() || capture.kept().len() == 65_536,
{
}

/// A version or a revision can break no line and hold no white space: its characters are
/// letters, digits and four signs.
pub proof fn version_fields_are_safe(value: Seq<char>, place: int)
    requires
        version_field_holds(value),
        0 <= place < value.len(),
    ensures
        1 <= value.len() <= 128,
        value[place] != ' ' && value[place] != '\n' && value[place] != '/' && value[place] != '"',
        (value[place] as int) < 128,
{
    assert(version_character(value[place]));
}

/// The cgroup of a workload is taken only where it is absolute and its management cgroup
/// lies below the mount of the hierarchy.
pub proof fn workloads_are_managed_below_the_mount(workload: Seq<char>)
    requires
        cgroup_message(workload) is None,
    ensures
        workload.len() > 0 && workload[0] == '/',
        components("/sys/fs/cgroup"@).is_prefix_of(components(workload)),
        components(workload).len() >= components("/sys/fs/cgroup"@).len() + 2,
        components(workload).last() != seq!['/'],
{
    let parent = components(workload).drop_last();
    let mount = components(CGROUP2_MOUNT@);
    assert(parent.take(mount.len() as int) =~= mount);
    assert(components(workload).take(mount.len() as int) =~= mount);
}

/// A flag is told as true exactly where it is.
pub proof fn flags_are_told_as_they_are(flag: bool)
    ensures
        flag_text(flag) == "true"@ <==> flag,
        flag_text(flag) == "false"@ <==> !flag,
{
    reveal_strlit("true");
    reveal_strlit("false");
    assert("true"@.len() == 4 && "false"@.len() == 5);
}

/// A dump never runs past the deadline of its operation or its own bound, has some time
/// wherever it is tried, and is not tried once the deadline has passed.
pub proof fn dumps_end_by_their_deadline(deadline: u64, now_ms: u64)
    ensures
        dump_budget(Some(deadline), now_ms) is None <==> deadline <= now_ms,
        dump_budget(Some(deadline), now_ms) matches Some(budget) ==> 0 < budget <= 300_000
            && now_ms + budget <= deadline,
        now_ms + 300_000 <= deadline ==> dump_budget(Some(deadline), now_ms) == Some(300_000u64),
        deadline < now_ms + 300_000 && now_ms < deadline ==> now_ms + dump_budget(
            Some(deadline),
            now_ms,
        )->0 == deadline,
        dump_budget(None, now_ms) == Some(300_000u64),
{
}

/// A run of CRIU is relied on only where it ended well and nothing of its output was
/// lost.
pub proof fn runs_that_lost_output_fail(report: CommandReport)
    ensures
        run_succeeded(report) ==> report.success,
        run_succeeded(report) ==> !report.overflowed,
        report.success && !report.overflowed ==> run_succeeded(report),
{
}

} // verus!
