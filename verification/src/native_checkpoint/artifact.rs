//! Checkpoint artifacts: one file that frames a manifest and the CRIU images
//! it lists.
//!
//! An artifact is a magic value, the publication token of its owner, the
//! length of the manifest in eight little-endian bytes, the manifest, and the
//! bodies of the images in the order in which the manifest lists them, with
//! nothing behind them.

use vstd::prelude::*;
use vstd::bytes::{lemma_auto_spec_u64_to_from_le_bytes, spec_u64_to_le_bytes};
use crate::error::{checkpoint_error, Error, ErrorCode};
use crate::model::{CheckpointCompatibility, CompatibilityView, ContainerTarget, TargetView};
use crate::native_checkpoint::state::FileKind;
use crate::path::{
    absolute, components, components_of, current_component, is_absolute, parent_component,
    same_path,
};
use crate::text::{
    after_prefix, all_digits, append_decimal, byte_count, byte_length, chars_of, copy_range,
    debug_text, decimal, digits_value, encode_hex, hex_bytes, hex_round_trip, hex_text, is_digit,
    less, lists_eq, optional_eq, optional_view, parse_unsigned, pieces, quote, sort_texts,
    sorted_texts, split, string_views, strip_prefix, text_eq, text_less, text_less_irreflexive,
    text_less_transitive, texts_eq, views,
};

verus! {

/// Schema of the manifest inside an artifact.
pub const ARTIFACT_SCHEMA_V2: &'static str = "a3s.oci.native-criu-checkpoint.v2";

/// The image that CRIU always emits.
pub const INVENTORY_IMAGE: &'static str = "inventory.img";

/// Prefix of the cookie that stands for one device mount.
pub const DEVICE_COOKIE_PREFIX: &'static str = "a3s-oci-device-";

/// How a source is held still while its images are made.
pub const QUIESCE_PAUSED: &'static str = "paused";

pub const MAX_IMAGE_FILES: usize = 4_096;

pub const MAX_IMAGE_NAME_BYTES: usize = 255;

pub const MAX_MANIFEST_BYTES: usize = 4_194_304;

pub const MAX_EXTERNAL_MOUNTS: usize = 256;

pub const MAX_MOUNTPOINT_BYTES: usize = 4_096;

/// Bytes before the manifest.
pub const HEADER_BYTES: usize = 56;

/// Bytes that show who owns a pending artifact.
pub const OWNERSHIP_BYTES: usize = 48;

/// The bytes an artifact starts with.
pub open spec fn artifact_magic() -> Seq<u8> {
    seq![
        65u8, 51u8, 83u8, 79u8, 67u8, 73u8, 45u8, 67u8, 82u8, 73u8, 85u8, 45u8, 86u8, 49u8, 0u8,
        0u8,
    ]
}

/// The bytes that show who owns an artifact.
pub open spec fn ownership_header(token: Seq<u8>) -> Seq<u8> {
    artifact_magic() + token
}

/// The bytes before the manifest.
pub open spec fn artifact_header(token: Seq<u8>, manifest_length: nat) -> Seq<u8> {
    ownership_header(token) + spec_u64_to_le_bytes(manifest_length as u64)
}

/// Identity of the CRIU executable.
#[derive(Clone, Debug)]
pub struct CriuIdentity {
    pub executable_digest: String,
    pub version: String,
    pub git_id: Option<String>,
}

/// What identifies a CRIU executable.
pub struct CriuView {
    pub executable_digest: Seq<char>,
    pub version: Seq<char>,
    pub git_id: Option<Seq<char>>,
}

impl View for CriuIdentity {
    type V = CriuView;

    open spec fn view(&self) -> CriuView {
        CriuView {
            executable_digest: self.executable_digest@,
            version: self.version@,
            git_id: optional_view(self.git_id),
        }
    }
}

impl CriuIdentity {
    /// Whether two identities are the same.
    pub fn same(&self, other: &CriuIdentity) -> (equal: bool)
        ensures
            equal == (self@ == other@),
    {
        text_eq(&self.executable_digest, &other.executable_digest) && text_eq(
            &self.version,
            &other.version,
        ) && optional_eq(&self.git_id, &other.git_id)
    }
}

/// A device mount that an image refers to by its cookie.
#[derive(Clone, Debug)]
pub struct ExternalMountManifestEntry {
    pub name: String,
    pub mountpoint: String,
}

/// A device mount: its cookie and where it is mounted.
pub struct MountView {
    pub name: Seq<char>,
    pub mountpoint: Seq<char>,
}

impl View for ExternalMountManifestEntry {
    type V = MountView;

    open spec fn view(&self) -> MountView {
        MountView { name: self.name@, mountpoint: self.mountpoint@ }
    }
}

/// What is wrong with one device mount.
#[derive(Clone, Copy, Debug, PartialEq, Eq, Structural)]
pub enum MountFault {
    Cookie,
    CookieIndex,
    Mountpoint,
}

/// An absolute path below the root whose pieces are names: none is empty, `.`
/// or `..`.
pub open spec fn normalized_absolute(path: Seq<char>) -> bool {
    &&& path.len() > 1
    &&& path[0] == '/'
    &&& forall|i: int|
        0 <= i < pieces(path.skip(1), '/').len() ==> names_an_entry(
            #[trigger] pieces(path.skip(1), '/')[i],
        )
}

/// A piece of a path that is a name.
pub open spec fn names_an_entry(piece: Seq<char>) -> bool {
    piece.len() > 0 && piece != current_component() && piece != parent_component()
}

/// The first thing that is wrong with a device mount.
pub open spec fn mount_fault(mount: MountView) -> Option<MountFault> {
    match after_prefix(mount.name, DEVICE_COOKIE_PREFIX@) {
        None => Some(MountFault::Cookie),
        Some(index) => if index.len() != 4 || !all_digits(index) || digits_value(index) >= 256 {
            Some(MountFault::CookieIndex)
        } else if byte_length(mount.mountpoint) > MAX_MOUNTPOINT_BYTES || mount.mountpoint.contains(
            '\0',
        ) || !normalized_absolute(mount.mountpoint) {
            Some(MountFault::Mountpoint)
        } else {
            None
        },
    }
}

/// The message of a fault in a device mount.
pub open spec fn mount_fault_message(fault: MountFault) -> Seq<char> {
    match fault {
        MountFault::Cookie => "native checkpoint external mount has an invalid cookie"@,
        MountFault::CookieIndex => "native checkpoint external mount has an invalid cookie index"@,
        MountFault::Mountpoint =>
            "native checkpoint external mountpoint is not normalized and absolute"@,
    }
}

/// The failure for an artifact that does not hold what it should.
pub fn invalid_artifact(message: &str) -> (error: Error)
    ensures
        error.is_checkpoint(ErrorCode::FailedPrecondition, message@),
{
    checkpoint_error(ErrorCode::FailedPrecondition, message)
}

fn mount_error(fault: MountFault) -> (error: Error)
    ensures
        error.is_checkpoint(ErrorCode::FailedPrecondition, mount_fault_message(fault)),
{
    match fault {
        MountFault::Cookie => invalid_artifact(
            "native checkpoint external mount has an invalid cookie",
        ),
        MountFault::CookieIndex => invalid_artifact(
            "native checkpoint external mount has an invalid cookie index",
        ),
        MountFault::Mountpoint => invalid_artifact(
            "native checkpoint external mountpoint is not normalized and absolute",
        ),
    }
}

fn is_entry_name(piece: &Vec<char>) -> (holds: bool)
    ensures
        holds == names_an_entry(piece@),
{
    let dot = piece.len() == 1 && piece[0] == '.';
    let dots = piece.len() == 2 && piece[0] == '.' && piece[1] == '.';
    proof {
        assert(dot ==> piece@ =~= current_component());
        assert(dots ==> piece@ =~= parent_component());
    }
    piece.len() > 0 && !dot && !dots
}

/// Whether a path is absolute, below the root and made of names.
pub fn is_normalized_absolute(path: &str) -> (holds: bool)
    ensures
        holds == normalized_absolute(path@),
{
    let characters = chars_of(path);
    if characters.len() <= 1 || characters[0] != '/' {
        return false;
    }
    let relative = copy_range(&characters, 1, characters.len());
    assert(relative@ =~= path@.skip(1));
    let parts = split(&relative, '/');
    let mut next: usize = 0;
    while next < parts.len()
        invariant
            next <= parts@.len(),
            views(parts@) == pieces(path@.skip(1), '/'),
            forall|i: int|
                0 <= i < next ==> names_an_entry(#[trigger] pieces(path@.skip(1), '/')[i]),
        decreases parts@.len() - next,
    {
        assert(views(parts@)[next as int] == parts@[next as int]@);
        if !is_entry_name(&parts[next]) {
            return false;
        }
        next = next + 1;
    }
    true
}

fn contains_nul(characters: &[char]) -> (found: bool)
    ensures
        found == characters@.contains('\0'),
{
    crate::text::find_char(characters, '\0').is_some()
}

impl ExternalMountManifestEntry {
    /// A device mount with a valid cookie and mountpoint.
    pub fn new(name: &str, mountpoint: &str) -> (result: Result<ExternalMountManifestEntry, Error>)
        ensures
            ({
                let mount = MountView { name: name@, mountpoint: mountpoint@ };
                match result {
                    Ok(entry) => entry@ == mount && mount_fault(mount) is None,
                    Err(error) => mount_fault(mount) is Some && error.is_checkpoint(
                        ErrorCode::FailedPrecondition,
                        mount_fault_message(mount_fault(mount)->0),
                    ),
                }
            }),
    {
        let entry = ExternalMountManifestEntry {
            name: name.to_owned(),
            mountpoint: mountpoint.to_owned(),
        };
        match entry.validate() {
            Ok(()) => Ok(entry),
            Err(error) => Err(error),
        }
    }

    /// The cookie of the mount.
    pub fn name(&self) -> (name: &str)
        ensures
            name@ == self@.name,
    {
        &self.name
    }

    /// Where the device is mounted.
    pub fn mountpoint(&self) -> (mountpoint: &str)
        ensures
            mountpoint@ == self@.mountpoint,
    {
        &self.mountpoint
    }

    /// Checks the cookie and the mountpoint.
    pub fn validate(&self) -> (result: Result<(), Error>)
        ensures
            match result {
                Ok(()) => mount_fault(self@) is None,
                Err(error) => mount_fault(self@) is Some && error.is_checkpoint(
                    ErrorCode::FailedPrecondition,
                    mount_fault_message(mount_fault(self@)->0),
                ),
            },
    {
        let index = match strip_prefix(&self.name, DEVICE_COOKIE_PREFIX) {
            Some(index) => index,
            None => return Err(mount_error(MountFault::Cookie)),
        };
        if index.len() != 4 || !valid_cookie_index(&index) {
            return Err(mount_error(MountFault::CookieIndex));
        }
        let mountpoint = chars_of(&self.mountpoint);
        if byte_count(&self.mountpoint) > MAX_MOUNTPOINT_BYTES || contains_nul(&mountpoint)
            || !is_normalized_absolute(&self.mountpoint) {
            return Err(mount_error(MountFault::Mountpoint));
        }
        Ok(())
    }
}

fn valid_cookie_index(index: &Vec<char>) -> (valid: bool)
    requires
        index@.len() == 4,
    ensures
        valid == (all_digits(index@) && digits_value(index@) < 256),
{
    if index[0] == '+' {
        assert(!crate::text::is_digit(index@[0]));
        return false;
    }
    parse_unsigned(index, 255).is_some()
}

/// An image that the manifest lists.
#[derive(Clone, Debug)]
pub struct ImageManifestEntry {
    pub name: String,
    pub size_bytes: u64,
    pub digest: String,
}

/// An image: its name, its size and the digest of its body.
pub struct ImageView {
    pub name: Seq<char>,
    pub size_bytes: u64,
    pub digest: Seq<char>,
}

impl View for ImageManifestEntry {
    type V = ImageView;

    open spec fn view(&self) -> ImageView {
        ImageView { name: self.name@, size_bytes: self.size_bytes, digest: self.digest@ }
    }
}

/// What an artifact says of its source and its images.
#[derive(Clone, Debug)]
pub struct CheckpointArtifactManifest {
    pub schema_version: String,
    pub publication_token: String,
    pub source: ContainerTarget,
    pub source_config_digest: String,
    pub source_attachments_digest: String,
    pub compatibility: CheckpointCompatibility,
    pub quiesce: String,
    pub launcher_pid: i32,
    pub checkpoint_root_pid: i32,
    pub init_pid: i32,
    pub cgroup_path: String,
    pub criu: CriuIdentity,
    pub dump_options: Vec<String>,
    pub external_mounts: Vec<ExternalMountManifestEntry>,
    pub images: Vec<ImageManifestEntry>,
}

/// The contents of a manifest.
pub struct ManifestView {
    pub schema_version: Seq<char>,
    pub publication_token: Seq<char>,
    pub source: TargetView,
    pub source_config_digest: Seq<char>,
    pub source_attachments_digest: Seq<char>,
    pub compatibility: CompatibilityView,
    pub quiesce: Seq<char>,
    pub launcher_pid: i32,
    pub checkpoint_root_pid: i32,
    pub init_pid: i32,
    pub cgroup_path: Seq<char>,
    pub criu: CriuView,
    pub dump_options: Seq<Seq<char>>,
    pub external_mounts: Seq<MountView>,
    pub images: Seq<ImageView>,
}

/// The views of a list of device mounts.
pub open spec fn mount_views(mounts: Seq<ExternalMountManifestEntry>) -> Seq<MountView> {
    Seq::new(mounts.len(), |i: int| mounts[i]@)
}

/// The views of a list of images.
pub open spec fn image_views(images: Seq<ImageManifestEntry>) -> Seq<ImageView> {
    Seq::new(images.len(), |i: int| images[i]@)
}

impl View for CheckpointArtifactManifest {
    type V = ManifestView;

    open spec fn view(&self) -> ManifestView {
        ManifestView {
            schema_version: self.schema_version@,
            publication_token: self.publication_token@,
            source: self.source@,
            source_config_digest: self.source_config_digest@,
            source_attachments_digest: self.source_attachments_digest@,
            compatibility: self.compatibility@,
            quiesce: self.quiesce@,
            launcher_pid: self.launcher_pid,
            checkpoint_root_pid: self.checkpoint_root_pid,
            init_pid: self.init_pid,
            cgroup_path: self.cgroup_path@,
            criu: self.criu@,
            dump_options: string_views(self.dump_options@),
            external_mounts: mount_views(self.external_mounts@),
            images: image_views(self.images@),
        }
    }
}

/// What is wrong with a manifest.
pub enum ManifestFault {
    Identity,
    Mount(MountFault),
    MountOrder,
    NoInventory,
    ImageName(Seq<char>),
    ImageOrder,
}

/// A file name that cannot leave its directory and is not oversized.
pub open spec fn safe_image_name(name: Seq<char>) -> bool {
    &&& name.len() > 0
    &&& byte_length(name) <= MAX_IMAGE_NAME_BYTES
    &&& !name.contains('/')
    &&& name != current_component()
    &&& name != parent_component()
}

/// The first fault among the device mounts, in their order.
pub open spec fn first_mount_fault(mounts: Seq<MountView>) -> Option<MountFault>
    decreases mounts.len(),
{
    if mounts.len() == 0 {
        None
    } else {
        match first_mount_fault(mounts.drop_last()) {
            Some(fault) => Some(fault),
            None => mount_fault(mounts.last()),
        }
    }
}

/// The first unsafe name among the images, in their order.
pub open spec fn first_unsafe_image(images: Seq<ImageView>) -> Option<Seq<char>>
    decreases images.len(),
{
    if images.len() == 0 {
        None
    } else {
        match first_unsafe_image(images.drop_last()) {
            Some(name) => Some(name),
            None => if safe_image_name(images.last().name) {
                None
            } else {
                Some(images.last().name)
            },
        }
    }
}

/// Cookies rise strictly and no two mounts share a mountpoint.
pub open spec fn mounts_in_order(mounts: Seq<MountView>) -> bool {
    &&& forall|i: int|
        0 <= i < mounts.len() - 1 ==> text_less(#[trigger] mounts[i].name, mounts[i + 1].name)
    &&& forall|i: int, j: int|
        0 <= i < j < mounts.len() ==> components(#[trigger] mounts[i].mountpoint) != components(
            #[trigger] mounts[j].mountpoint,
        )
}

/// Image names rise strictly.
pub open spec fn images_in_order(images: Seq<ImageView>) -> bool {
    forall|i: int|
        0 <= i < images.len() - 1 ==> text_less(#[trigger] images[i].name, images[i + 1].name)
}

/// Some image is the one that CRIU always emits.
pub open spec fn lists_inventory(images: Seq<ImageView>) -> bool {
    exists|i: int| 0 <= i < images.len() && (#[trigger] images[i]).name == INVENTORY_IMAGE@
}

/// The identity, quiescence, processes, cgroup and counts that every manifest has.
pub open spec fn manifest_identity_holds(manifest: ManifestView, token: Seq<u8>) -> bool {
    &&& manifest.schema_version == ARTIFACT_SCHEMA_V2@
    &&& manifest.publication_token == hex_text(token)
    &&& manifest.quiesce == QUIESCE_PAUSED@
    &&& manifest.launcher_pid > 0
    &&& manifest.checkpoint_root_pid > 0
    &&& manifest.init_pid > 0
    &&& manifest.checkpoint_root_pid == manifest.init_pid
    &&& absolute(manifest.cgroup_path)
    &&& manifest.dump_options.len() > 0
    &&& 1 <= manifest.external_mounts.len() <= MAX_EXTERNAL_MOUNTS
    &&& 1 <= manifest.images.len() <= MAX_IMAGE_FILES
}

/// The first thing that is wrong with a manifest for a token.
pub open spec fn manifest_fault(manifest: ManifestView, token: Seq<u8>) -> Option<ManifestFault> {
    if !manifest_identity_holds(manifest, token) {
        Some(ManifestFault::Identity)
    } else if first_mount_fault(manifest.external_mounts) is Some {
        Some(ManifestFault::Mount(first_mount_fault(manifest.external_mounts)->0))
    } else if !mounts_in_order(manifest.external_mounts) {
        Some(ManifestFault::MountOrder)
    } else if !lists_inventory(manifest.images) {
        Some(ManifestFault::NoInventory)
    } else if first_unsafe_image(manifest.images) is Some {
        Some(ManifestFault::ImageName(first_unsafe_image(manifest.images)->0))
    } else if !images_in_order(manifest.images) {
        Some(ManifestFault::ImageOrder)
    } else {
        None
    }
}

/// The message for an unsafe image name.
pub open spec fn image_name_message(name: Seq<char>) -> Seq<char> {
    "CRIU image name is unsafe or oversized: "@ + debug_text(name)
}

/// The message of a fault in a manifest.
pub open spec fn manifest_fault_message(fault: ManifestFault) -> Seq<char> {
    match fault {
        ManifestFault::Identity =>
            "native checkpoint manifest has invalid identity, quiescence, process, cgroup, or image metadata"@,
        ManifestFault::Mount(fault) => mount_fault_message(fault),
        ManifestFault::MountOrder => "native checkpoint external mounts are not unique and sorted"@,
        ManifestFault::NoInventory => "native checkpoint manifest omits CRIU inventory.img"@,
        ManifestFault::ImageName(name) => image_name_message(name),
        ManifestFault::ImageOrder => "native checkpoint image entries are not unique and sorted"@,
    }
}

/// Checks that a file name cannot leave its directory and is not oversized.
pub fn validate_image_name(name: &str) -> (result: Result<(), Error>)
    ensures
        match result {
            Ok(()) => safe_image_name(name@),
            Err(error) => !safe_image_name(name@) && error.is_checkpoint(
                ErrorCode::FailedPrecondition,
                image_name_message(name@),
            ),
        },
{
    let characters = chars_of(name);
    let slash = crate::text::find_char(&characters, '/').is_some();
    if !is_entry_name(&characters) || byte_count(name) > MAX_IMAGE_NAME_BYTES || slash {
        let mut message = "CRIU image name is unsafe or oversized: ".to_owned();
        let quoted = quote(name);
        message.append(&quoted);
        return Err(invalid_artifact(&message));
    }
    Ok(())
}

/// Checks device mounts in their order.
pub fn check_mounts(mounts: &Vec<ExternalMountManifestEntry>) -> (result: Result<(), Error>)
    ensures
        ({
            let fault = first_mount_fault(mount_views(mounts@));
            match result {
                Ok(()) => fault is None,
                Err(error) => fault is Some && error.is_checkpoint(
                    ErrorCode::FailedPrecondition,
                    mount_fault_message(fault->0),
                ),
            }
        }),
{
    let ghost all = mount_views(mounts@);
    let mut next: usize = 0;
    assert(all.take(0) =~= Seq::empty());
    while next < mounts.len()
        invariant
            next <= mounts@.len(),
            all == mount_views(mounts@),
            first_mount_fault(all.take(next as int)) is None,
        decreases mounts@.len() - next,
    {
        let ghost longer = all.take(next + 1);
        proof {
            assert(longer.drop_last() =~= all.take(next as int));
            assert(longer.last() == mounts@[next as int]@);
        }
        match mounts[next].validate() {
            Ok(()) => {},
            Err(error) => {
                proof {
                    first_mount_fault_stays(all, next + 1);
                }
                return Err(error);
            },
        }
        next = next + 1;
    }
    assert(all.take(mounts@.len() as int) =~= all);
    Ok(())
}

proof fn first_mount_fault_stays(mounts: Seq<MountView>, upto: int)
    requires
        0 <= upto <= mounts.len(),
        first_mount_fault(mounts.take(upto)) is Some,
    ensures
        first_mount_fault(mounts) == first_mount_fault(mounts.take(upto)),
    decreases mounts.len() - upto,
{
    if upto == mounts.len() {
        assert(mounts.take(upto) =~= mounts);
    } else {
        assert(mounts.take(upto + 1).drop_last() =~= mounts.take(upto));
        first_mount_fault_stays(mounts, upto + 1);
    }
}

proof fn first_unsafe_image_stays(images: Seq<ImageView>, upto: int)
    requires
        0 <= upto <= images.len(),
        first_unsafe_image(images.take(upto)) is Some,
    ensures
        first_unsafe_image(images) == first_unsafe_image(images.take(upto)),
    decreases images.len() - upto,
{
    if upto == images.len() {
        assert(images.take(upto) =~= images);
    } else {
        assert(images.take(upto + 1).drop_last() =~= images.take(upto));
        first_unsafe_image_stays(images, upto + 1);
    }
}

fn check_image_names(images: &Vec<ImageManifestEntry>) -> (result: Result<(), Error>)
    ensures
        ({
            let unsafe_name = first_unsafe_image(image_views(images@));
            match result {
                Ok(()) => unsafe_name is None,
                Err(error) => unsafe_name is Some && error.is_checkpoint(
                    ErrorCode::FailedPrecondition,
                    image_name_message(unsafe_name->0),
                ),
            }
        }),
{
    let ghost all = image_views(images@);
    let mut next: usize = 0;
    assert(all.take(0) =~= Seq::empty());
    while next < images.len()
        invariant
            next <= images@.len(),
            all == image_views(images@),
            first_unsafe_image(all.take(next as int)) is None,
        decreases images@.len() - next,
    {
        let ghost longer = all.take(next + 1);
        proof {
            assert(longer.drop_last() =~= all.take(next as int));
            assert(longer.last() == images@[next as int]@);
        }
        match validate_image_name(&images[next].name) {
            Ok(()) => {},
            Err(error) => {
                proof {
                    first_unsafe_image_stays(all, next + 1);
                }
                return Err(error);
            },
        }
        next = next + 1;
    }
    assert(all.take(images@.len() as int) =~= all);
    Ok(())
}

fn mounts_are_in_order(mounts: &Vec<ExternalMountManifestEntry>) -> (holds: bool)
    ensures
        holds == mounts_in_order(mount_views(mounts@)),
{
    let ghost all = mount_views(mounts@);
    let mut places: Vec<Vec<Vec<char>>> = Vec::new();
    let mut next: usize = 0;
    while next < mounts.len()
        invariant
            next <= mounts@.len(),
            all == mount_views(mounts@),
            places@.len() == next,
            forall|i: int|
                0 <= i < next ==> views(#[trigger] places@[i]@) == components(all[i].mountpoint),
            forall|i: int|
                0 <= i < next - 1 ==> text_less(#[trigger] all[i].name, all[i + 1].name),
            forall|i: int, j: int|
                0 <= i < j < next ==> components(#[trigger] all[i].mountpoint) != components(
                    #[trigger] all[j].mountpoint,
                ),
        decreases mounts@.len() - next,
    {
        assert(all[next as int] == mounts@[next as int]@);
        if next > 0 {
            assert(all[next - 1] == mounts@[next - 1]@);
            if !less(&mounts[next - 1].name, &mounts[next].name) {
                assert(!text_less(all[next - 1].name, all[(next - 1) + 1].name));
                return false;
            }
        }
        let place = components_of(&mounts[next].mountpoint);
        let mut earlier: usize = 0;
        while earlier < next
            invariant
                earlier <= next < mounts@.len(),
                all == mount_views(mounts@),
                places@.len() == next,
                views(place@) == components(all[next as int].mountpoint),
                forall|i: int|
                    0 <= i < next ==> views(#[trigger] places@[i]@) == components(all[i].mountpoint),
                forall|i: int|
                    0 <= i < earlier ==> components(#[trigger] all[i].mountpoint) != components(
                        all[next as int].mountpoint,
                    ),
            decreases next - earlier,
        {
            if lists_eq(&places[earlier], &place) {
                assert(components(all[earlier as int].mountpoint) == components(
                    all[next as int].mountpoint,
                ));
                return false;
            }
            earlier = earlier + 1;
        }
        places.push(place);
        next = next + 1;
    }
    true
}

fn images_are_in_order(images: &Vec<ImageManifestEntry>) -> (holds: bool)
    ensures
        holds == images_in_order(image_views(images@)),
{
    let ghost all = image_views(images@);
    let mut next: usize = 1;
    while next < images.len()
        invariant
            1 <= next,
            next <= images@.len() || next == 1,
            all == image_views(images@),
            forall|i: int|
                0 <= i < next - 1 ==> text_less(#[trigger] all[i].name, all[i + 1].name),
        decreases images@.len() - next,
    {
        assert(all[next as int] == images@[next as int]@);
        assert(all[next - 1] == images@[next - 1]@);
        if !less(&images[next - 1].name, &images[next].name) {
            assert(!text_less(all[next - 1].name, all[(next - 1) + 1].name));
            return false;
        }
        next = next + 1;
    }
    true
}

fn has_inventory(images: &Vec<ImageManifestEntry>) -> (holds: bool)
    ensures
        holds == lists_inventory(image_views(images@)),
{
    let ghost all = image_views(images@);
    let mut next: usize = 0;
    while next < images.len()
        invariant
            next <= images@.len(),
            all == image_views(images@),
            forall|i: int| 0 <= i < next ==> (#[trigger] all[i]).name != INVENTORY_IMAGE@,
        decreases images@.len() - next,
    {
        assert(all[next as int] == images@[next as int]@);
        if text_eq(&images[next].name, INVENTORY_IMAGE) {
            return true;
        }
        next = next + 1;
    }
    false
}

/// Renders a publication token as lowercase hexadecimal.
pub fn encode_token(token: &[u8; 32]) -> (text: String)
    ensures
        text@ == hex_text(token@),
{
    encode_hex(vstd::array::array_as_slice(token))
}

impl CheckpointArtifactManifest {
    /// Checks that a manifest is one that the runtime writes for a token.
    pub fn validate(&self, expected_token: &[u8; 32]) -> (result: Result<(), Error>)
        ensures
            match result {
                Ok(()) => manifest_fault(self@, expected_token@) is None,
                Err(error) => manifest_fault(self@, expected_token@) is Some
                    && error.is_checkpoint(
                    ErrorCode::FailedPrecondition,
                    manifest_fault_message(manifest_fault(self@, expected_token@)->0),
                ),
            },
    {
        let token = encode_token(expected_token);
        if !text_eq(&self.schema_version, ARTIFACT_SCHEMA_V2) || !text_eq(
            &self.publication_token,
            &token,
        ) || !text_eq(&self.quiesce, QUIESCE_PAUSED) || self.launcher_pid <= 0
            || self.checkpoint_root_pid <= 0 || self.init_pid <= 0 || self.checkpoint_root_pid
            != self.init_pid || !is_absolute(&self.cgroup_path) || self.dump_options.len() == 0
            || self.external_mounts.len() == 0 || self.external_mounts.len() > MAX_EXTERNAL_MOUNTS
            || self.images.len() == 0 || self.images.len() > MAX_IMAGE_FILES {
            return Err(
                invalid_artifact(
                    "native checkpoint manifest has invalid identity, quiescence, process, cgroup, or image metadata",
                ),
            );
        }
        match check_mounts(&self.external_mounts) {
            Ok(()) => {},
            Err(error) => return Err(error),
        }
        if !mounts_are_in_order(&self.external_mounts) {
            return Err(
                invalid_artifact("native checkpoint external mounts are not unique and sorted"),
            );
        }
        if !has_inventory(&self.images) {
            return Err(invalid_artifact("native checkpoint manifest omits CRIU inventory.img"));
        }
        match check_image_names(&self.images) {
            Ok(()) => {},
            Err(error) => return Err(error),
        }
        if !images_are_in_order(&self.images) {
            return Err(
                invalid_artifact("native checkpoint image entries are not unique and sorted"),
            );
        }
        Ok(())
    }
}

/// What a new artifact will say of its source.
#[derive(Clone, Debug)]
pub struct ArtifactMetadata {
    pub source: ContainerTarget,
    pub source_config_digest: String,
    pub source_attachments_digest: String,
    pub compatibility: CheckpointCompatibility,
    pub launcher_pid: i32,
    pub checkpoint_root_pid: i32,
    pub init_pid: i32,
    pub cgroup_path: String,
    pub criu: CriuIdentity,
    pub dump_options: Vec<String>,
    pub external_mounts: Vec<ExternalMountManifestEntry>,
}

/// The processes and the cgroup that a source must have.
pub open spec fn metadata_holds(metadata: ArtifactMetadata) -> bool {
    &&& metadata.launcher_pid > 0
    &&& metadata.checkpoint_root_pid > 0
    &&& metadata.init_pid > 0
    &&& metadata.checkpoint_root_pid == metadata.init_pid
    &&& absolute(metadata.cgroup_path@)
}

/// The manifest of a new artifact.
pub open spec fn planned_manifest(
    metadata: ArtifactMetadata,
    images: Seq<ImageView>,
    token: Seq<u8>,
) -> ManifestView {
    ManifestView {
        schema_version: ARTIFACT_SCHEMA_V2@,
        publication_token: hex_text(token),
        source: metadata.source@,
        source_config_digest: metadata.source_config_digest@,
        source_attachments_digest: metadata.source_attachments_digest@,
        compatibility: metadata.compatibility@,
        quiesce: QUIESCE_PAUSED@,
        launcher_pid: metadata.launcher_pid,
        checkpoint_root_pid: metadata.checkpoint_root_pid,
        init_pid: metadata.init_pid,
        cgroup_path: metadata.cgroup_path@,
        criu: metadata.criu@,
        dump_options: string_views(metadata.dump_options@),
        external_mounts: mount_views(metadata.external_mounts@),
        images,
    }
}

/// Checks the processes and the cgroup of a source.
pub fn check_metadata(metadata: &ArtifactMetadata) -> (result: Result<(), Error>)
    ensures
        match result {
            Ok(()) => metadata_holds(*metadata),
            Err(error) => !metadata_holds(*metadata) && error.is_checkpoint(
                ErrorCode::InvalidArgument,
                "checkpoint artifact metadata requires positive PIDs and an absolute cgroup path"@,
            ),
        },
{
    if metadata.launcher_pid <= 0 || metadata.checkpoint_root_pid <= 0 || metadata.init_pid <= 0
        || metadata.checkpoint_root_pid != metadata.init_pid || !is_absolute(
        &metadata.cgroup_path,
    ) {
        return Err(
            checkpoint_error(
                ErrorCode::InvalidArgument,
                "checkpoint artifact metadata requires positive PIDs and an absolute cgroup path",
            ),
        );
    }
    Ok(())
}

/// Makes the manifest of a new artifact, or says why there can be none.
pub fn plan_manifest(
    metadata: ArtifactMetadata,
    images: Vec<ImageManifestEntry>,
    token: &[u8; 32],
) -> (result: Result<CheckpointArtifactManifest, Error>)
    ensures
        ({
            let manifest = planned_manifest(metadata, image_views(images@), token@);
            match result {
                Ok(made) => metadata_holds(metadata) && manifest_fault(manifest, token@) is None
                    && made@ == manifest,
                Err(error) => if !metadata_holds(metadata) {
                    error.is_checkpoint(
                        ErrorCode::InvalidArgument,
                        "checkpoint artifact metadata requires positive PIDs and an absolute cgroup path"@,
                    )
                } else {
                    manifest_fault(manifest, token@) is Some && error.is_checkpoint(
                        ErrorCode::FailedPrecondition,
                        manifest_fault_message(manifest_fault(manifest, token@)->0),
                    )
                },
            }
        }),
{
    match check_metadata(&metadata) {
        Ok(()) => {},
        Err(error) => return Err(error),
    }
    let manifest = CheckpointArtifactManifest {
        schema_version: ARTIFACT_SCHEMA_V2.to_owned(),
        publication_token: encode_token(token),
        source: metadata.source,
        source_config_digest: metadata.source_config_digest,
        source_attachments_digest: metadata.source_attachments_digest,
        compatibility: metadata.compatibility,
        quiesce: QUIESCE_PAUSED.to_owned(),
        launcher_pid: metadata.launcher_pid,
        checkpoint_root_pid: metadata.checkpoint_root_pid,
        init_pid: metadata.init_pid,
        cgroup_path: metadata.cgroup_path,
        criu: metadata.criu,
        dump_options: metadata.dump_options,
        external_mounts: metadata.external_mounts,
        images,
    };
    match manifest.validate(token) {
        Ok(()) => Ok(manifest),
        Err(error) => Err(error),
    }
}

/// The first unsafe name in a list, in its order.
pub open spec fn first_unsafe_name(names: Seq<Seq<char>>) -> Option<Seq<char>>
    decreases names.len(),
{
    if names.len() == 0 {
        None
    } else {
        match first_unsafe_name(names.drop_last()) {
            Some(name) => Some(name),
            None => if safe_image_name(names.last()) {
                None
            } else {
                Some(names.last())
            },
        }
    }
}

/// The message for a directory with too few or too many images.
pub open spec fn image_count_message(count: nat) -> Seq<char> {
    "CRIU emitted "@ + decimal(count) + " image files; expected 1 through "@ + decimal(
        MAX_IMAGE_FILES as nat,
    )
}

/// Puts the names found in an image directory into packaging order, or says
/// why they cannot be packaged.
pub fn order_image_names(names: Vec<String>) -> (result: Result<Vec<String>, Error>)
    ensures
        ({
            let found = string_views(names@);
            match result {
                Ok(ordered) => {
                    &&& first_unsafe_name(found) is None
                    &&& 1 <= found.len() <= MAX_IMAGE_FILES
                    &&& found.contains(INVENTORY_IMAGE@)
                    &&& string_views(ordered@).to_multiset() == found.to_multiset()
                    &&& sorted_texts(string_views(ordered@))
                },
                Err(error) => if first_unsafe_name(found) is Some {
                    error.is_checkpoint(
                        ErrorCode::FailedPrecondition,
                        image_name_message(first_unsafe_name(found)->0),
                    )
                } else if !(1 <= found.len() <= MAX_IMAGE_FILES) {
                    error.is_checkpoint(
                        ErrorCode::FailedPrecondition,
                        image_count_message(found.len()),
                    )
                } else {
                    !found.contains(INVENTORY_IMAGE@) && error.is_checkpoint(
                        ErrorCode::FailedPrecondition,
                        "CRIU image directory omits inventory.img"@,
                    )
                },
            }
        }),
{
    let ghost found = string_views(names@);
    let mut inventory = false;
    let mut next: usize = 0;
    assert(found.take(0) =~= Seq::empty());
    while next < names.len()
        invariant
            next <= names@.len(),
            found == string_views(names@),
            first_unsafe_name(found.take(next as int)) is None,
            inventory == found.take(next as int).contains(INVENTORY_IMAGE@),
        decreases names@.len() - next,
    {
        let ghost longer = found.take(next + 1);
        proof {
            assert(longer.drop_last() =~= found.take(next as int));
            assert(longer.last() == names@[next as int]@);
        }
        match validate_image_name(&names[next]) {
            Ok(()) => {},
            Err(error) => {
                proof {
                    first_unsafe_name_stays(found, next + 1);
                }
                return Err(error);
            },
        }
        if text_eq(&names[next], INVENTORY_IMAGE) {
            inventory = true;
            assert(longer[next as int] == INVENTORY_IMAGE@);
        } else {
            proof {
                if longer.contains(INVENTORY_IMAGE@) {
                    let at = choose|i: int| 0 <= i < longer.len() && longer[i] == INVENTORY_IMAGE@;
                    assert(found.take(next as int)[at] == INVENTORY_IMAGE@);
                }
                if found.take(next as int).contains(INVENTORY_IMAGE@) {
                    let at = choose|i: int|
                        0 <= i < next && found.take(next as int)[i] == INVENTORY_IMAGE@;
                    assert(longer[at] == INVENTORY_IMAGE@);
                }
            }
        }
        next = next + 1;
    }
    assert(found.take(names@.len() as int) =~= found);
    if names.len() == 0 || names.len() > MAX_IMAGE_FILES {
        let mut message = "CRIU emitted ".to_owned();
        append_decimal(&mut message, names.len() as u64);
        message.append(" image files; expected 1 through ");
        append_decimal(&mut message, MAX_IMAGE_FILES as u64);
        return Err(invalid_artifact(&message));
    }
    if !inventory {
        return Err(invalid_artifact("CRIU image directory omits inventory.img"));
    }
    Ok(sort_texts(names))
}

proof fn first_unsafe_name_stays(names: Seq<Seq<char>>, upto: int)
    requires
        0 <= upto <= names.len(),
        first_unsafe_name(names.take(upto)) is Some,
    ensures
        first_unsafe_name(names) == first_unsafe_name(names.take(upto)),
    decreases names.len() - upto,
{
    if upto == names.len() {
        assert(names.take(upto) =~= names);
    } else {
        assert(names.take(upto + 1).drop_last() =~= names.take(upto));
        first_unsafe_name_stays(names, upto + 1);
    }
}

/// Checks that a path names a directory of images, not a link to one.
pub fn check_image_directory(path: &str, kind: FileKind) -> (result: Result<(), Error>)
    ensures
        match result {
            Ok(()) => kind is Directory,
            Err(error) => !(kind is Directory) && error.is_checkpoint(
                ErrorCode::FailedPrecondition,
                "CRIU image path is not a real directory: "@ + path@,
            ),
        },
{
    if kind == FileKind::Directory {
        return Ok(());
    }
    let mut message = "CRIU image path is not a real directory: ".to_owned();
    message.append(path);
    Err(invalid_artifact(&message))
}

/// Checks that an image is a regular file.
pub fn check_image_file(name: &str, kind: FileKind) -> (result: Result<(), Error>)
    ensures
        match result {
            Ok(()) => kind is Regular,
            Err(error) => !(kind is Regular) && error.is_checkpoint(
                ErrorCode::FailedPrecondition,
                "CRIU image "@ + name@ + " is not a regular file"@,
            ),
        },
{
    if kind == FileKind::Regular {
        return Ok(());
    }
    let mut message = "CRIU image ".to_owned();
    message.append(name);
    message.append(" is not a regular file");
    Err(invalid_artifact(&message))
}

/// Checks that images can be unpacked into a directory: it is no link, and it
/// holds nothing yet.
pub fn check_image_destination(path: &str, kind: FileKind, empty: bool) -> (result: Result<
    (),
    Error,
>)
    ensures
        match result {
            Ok(()) => kind is Directory && empty,
            Err(error) => if !(kind is Directory) {
                error.is_checkpoint(
                    ErrorCode::FailedPrecondition,
                    "restore image destination is not a real directory: "@ + path@,
                )
            } else {
                !empty && error.is_checkpoint(
                    ErrorCode::FailedPrecondition,
                    "restore image destination is not empty: "@ + path@,
                )
            },
        },
{
    if kind != FileKind::Directory {
        let mut message = "restore image destination is not a real directory: ".to_owned();
        message.append(path);
        return Err(invalid_artifact(&message));
    }
    if !empty {
        let mut message = "restore image destination is not empty: ".to_owned();
        message.append(path);
        return Err(invalid_artifact(&message));
    }
    Ok(())
}

/// Names in strict order are pairwise different and rise from any one to any
/// later one.
pub proof fn ordered_images_are_distinct(images: Seq<ImageView>, i: int, j: int)
    requires
        images_in_order(images),
        0 <= i < j < images.len(),
    ensures
        text_less(images[i].name, images[j].name),
        images[i].name != images[j].name,
    decreases j - i,
{
    if j > i + 1 {
        ordered_images_are_distinct(images, i, j - 1);
        assert(text_less(images[j - 1].name, images[(j - 1) + 1].name));
        text_less_transitive(images[i].name, images[j - 1].name, images[j].name);
    }
    text_less_irreflexive(images[i].name);
}

/// Two lists of device mounts are the same: the same cookies, at mountpoints with the
/// same components.
pub open spec fn same_mounts(left: Seq<MountView>, right: Seq<MountView>) -> bool {
    &&& left.len() == right.len()
    &&& forall|i: int|
        0 <= i < left.len() ==> (#[trigger] left[i]).name == right[i].name && components(
            left[i].mountpoint,
        ) == components(right[i].mountpoint)
}

/// Two manifests are the same, in every field.
pub open spec fn same_manifests(left: ManifestView, right: ManifestView) -> bool {
    &&& same_mounts(left.external_mounts, right.external_mounts)
    &&& left == (ManifestView { external_mounts: left.external_mounts, ..right })
}

/// Whether two lists of device mounts are the same.
pub fn mounts_eq(
    left: &Vec<ExternalMountManifestEntry>,
    right: &Vec<ExternalMountManifestEntry>,
) -> (equal: bool)
    ensures
        equal == same_mounts(mount_views(left@), mount_views(right@)),
{
    let ghost lefts = mount_views(left@);
    let ghost rights = mount_views(right@);
    if left.len() != right.len() {
        return false;
    }
    let mut next: usize = 0;
    while next < left.len()
        invariant
            next <= left@.len(),
            left@.len() == right@.len(),
            lefts == mount_views(left@),
            rights == mount_views(right@),
            forall|i: int|
                0 <= i < next ==> (#[trigger] lefts[i]).name == rights[i].name && components(
                    lefts[i].mountpoint,
                ) == components(rights[i].mountpoint),
        decreases left@.len() - next,
    {
        assert(lefts[next as int] == left@[next as int]@);
        assert(rights[next as int] == right@[next as int]@);
        if !text_eq(&left[next].name, &right[next].name) || !same_path(
            &left[next].mountpoint,
            &right[next].mountpoint,
        ) {
            return false;
        }
        next = next + 1;
    }
    true
}

/// Whether two lists of images are the same.
pub fn images_eq(left: &Vec<ImageManifestEntry>, right: &Vec<ImageManifestEntry>) -> (equal: bool)
    ensures
        equal == (image_views(left@) == image_views(right@)),
{
    assert(image_views(left@).len() == left@.len() && image_views(right@).len() == right@.len());
    if left.len() != right.len() {
        return false;
    }
    let mut next: usize = 0;
    while next < left.len()
        invariant
            next <= left@.len(),
            left@.len() == right@.len(),
            forall|i: int| 0 <= i < next ==> left@[i]@ == right@[i]@,
        decreases left@.len() - next,
    {
        if !text_eq(&left[next].name, &right[next].name) || left[next].size_bytes
            != right[next].size_bytes || !text_eq(&left[next].digest, &right[next].digest) {
            assert(image_views(left@)[next as int] != image_views(right@)[next as int]);
            return false;
        }
        next = next + 1;
    }
    assert(image_views(left@) =~= image_views(right@));
    true
}

impl CheckpointArtifactManifest {
    /// Whether two manifests say the same.
    pub fn same(&self, other: &CheckpointArtifactManifest) -> (equal: bool)
        ensures
            equal == same_manifests(self@, other@),
    {
        text_eq(&self.schema_version, &other.schema_version) && text_eq(
            &self.publication_token,
            &other.publication_token,
        ) && self.source.same(&other.source) && text_eq(
            &self.source_config_digest,
            &other.source_config_digest,
        ) && text_eq(&self.source_attachments_digest, &other.source_attachments_digest)
            && self.compatibility.same(&other.compatibility) && text_eq(
            &self.quiesce,
            &other.quiesce,
        ) && self.launcher_pid == other.launcher_pid && self.checkpoint_root_pid
            == other.checkpoint_root_pid && self.init_pid == other.init_pid && text_eq(
            &self.cgroup_path,
            &other.cgroup_path,
        ) && self.criu.same(&other.criu) && texts_eq(&self.dump_options, &other.dump_options)
            && mounts_eq(&self.external_mounts, &other.external_mounts) && images_eq(
            &self.images,
            &other.images,
        )
    }

    /// Checks that the manifest read back from a new artifact is the one that
    /// was packaged.
    pub fn require_unchanged(&self, verified: &CheckpointArtifactManifest) -> (result: Result<
        (),
        Error,
    >)
        ensures
            match result {
                Ok(()) => same_manifests(self@, verified@),
                Err(error) => !same_manifests(self@, verified@) && error.is_checkpoint(
                    ErrorCode::FailedPrecondition,
                    "checkpoint artifact manifest changed during verification"@,
                ),
            },
    {
        if self.same(verified) {
            Ok(())
        } else {
            Err(invalid_artifact("checkpoint artifact manifest changed during verification"))
        }
    }

    /// Checks that an image directory still holds the images of the manifest,
    /// given what was found in it.
    pub fn validate_retained_images(&self, found: &Vec<ImageManifestEntry>) -> (result: Result<
        (),
        Error,
    >)
        ensures
            match result {
                Ok(()) => image_views(found@) == self@.images,
                Err(error) => image_views(found@) != self@.images && error.is_checkpoint(
                    ErrorCode::FailedPrecondition,
                    "retained restore images differ from the checkpoint manifest"@,
                ),
            },
    {
        if images_eq(found, &self.images) {
            Ok(())
        } else {
            Err(invalid_artifact("retained restore images differ from the checkpoint manifest"))
        }
    }
}

/// No image is unsafe exactly where every name alone is safe.
proof fn safe_images(images: Seq<ImageView>)
    ensures
        first_unsafe_image(images) is None <==> forall|i: int|
            0 <= i < images.len() ==> safe_image_name((#[trigger] images[i]).name),
    decreases images.len(),
{
    if images.len() > 0 {
        let shorter = images.drop_last();
        safe_images(shorter);
        assert(forall|i: int| 0 <= i < shorter.len() ==> #[trigger] images[i] == shorter[i]);
        assert(images[images.len() - 1] == images.last());
    }
}

/// No mount is at fault exactly where each alone is in order.
proof fn faultless_mounts(mounts: Seq<MountView>)
    ensures
        first_mount_fault(mounts) is None <==> forall|i: int|
            0 <= i < mounts.len() ==> mount_fault(#[trigger] mounts[i]) is None,
    decreases mounts.len(),
{
    if mounts.len() > 0 {
        let shorter = mounts.drop_last();
        faultless_mounts(shorter);
        assert(forall|i: int| 0 <= i < shorter.len() ==> #[trigger] mounts[i] == shorter[i]);
        assert(mounts[mounts.len() - 1] == mounts.last());
    }
}

/// A valid manifest carries the token it is valid for, comes from one paused source
/// with real processes, and lists images that cannot leave their directory, each
/// once, the inventory among them.
pub proof fn valid_manifests_are_complete(manifest: ManifestView, token: Seq<u8>)
    requires
        manifest_fault(manifest, token) is None,
    ensures
        manifest.schema_version == "a3s.oci.native-criu-checkpoint.v2"@,
        manifest.publication_token == hex_text(token),
        manifest.quiesce == "paused"@,
        manifest.launcher_pid > 0,
        manifest.init_pid > 0,
        manifest.checkpoint_root_pid == manifest.init_pid,
        manifest.cgroup_path.len() > 0 && manifest.cgroup_path[0] == '/',
        manifest.dump_options.len() > 0,
        1 <= manifest.external_mounts.len() <= 256,
        1 <= manifest.images.len() <= 4096,
        exists|i: int|
            0 <= i < manifest.images.len() && (#[trigger] manifest.images[i]).name
                == "inventory.img"@,
        forall|i: int|
            0 <= i < manifest.images.len() ==> {
                let name = (#[trigger] manifest.images[i]).name;
                name.len() > 0 && byte_length(name) <= 255 && !name.contains('/') && name
                    != seq!['.'] && name != seq!['.', '.']
            },
        forall|i: int, j: int|
            0 <= i < j < manifest.images.len() ==> text_less(
                (#[trigger] manifest.images[i]).name,
                (#[trigger] manifest.images[j]).name,
            ),
        forall|i: int|
            0 <= i < manifest.external_mounts.len() ==> mount_fault(
                #[trigger] manifest.external_mounts[i],
            ) is None,
        forall|i: int, j: int|
            0 <= i < j < manifest.external_mounts.len() ==> text_less(
                (#[trigger] manifest.external_mounts[i]).name,
                (#[trigger] manifest.external_mounts[j]).name,
            ),
        forall|i: int, j: int|
            0 <= i < j < manifest.external_mounts.len() ==> components(
                (#[trigger] manifest.external_mounts[i]).mountpoint,
            ) != components((#[trigger] manifest.external_mounts[j]).mountpoint),
{
    safe_images(manifest.images);
    faultless_mounts(manifest.external_mounts);
    assert forall|i: int, j: int| 0 <= i < j < manifest.images.len() implies text_less(
        (#[trigger] manifest.images[i]).name,
        (#[trigger] manifest.images[j]).name,
    ) by {
        ordered_images_are_distinct(manifest.images, i, j);
    }
    assert forall|i: int, j: int| 0 <= i < j < manifest.external_mounts.len() implies text_less(
        (#[trigger] manifest.external_mounts[i]).name,
        (#[trigger] manifest.external_mounts[j]).name,
    ) by {
        ordered_mounts_rise(manifest.external_mounts, i, j);
    }
}

proof fn ordered_mounts_rise(mounts: Seq<MountView>, i: int, j: int)
    requires
        mounts_in_order(mounts),
        0 <= i < j < mounts.len(),
    ensures
        text_less(mounts[i].name, mounts[j].name),
    decreases j - i,
{
    if j > i + 1 {
        ordered_mounts_rise(mounts, i, j - 1);
        assert(text_less(mounts[j - 1].name, mounts[(j - 1) + 1].name));
        text_less_transitive(mounts[i].name, mounts[j - 1].name, mounts[j].name);
    }
}

/// A manifest that has all of this is valid: nothing else is asked of it.
pub proof fn complete_manifests_are_valid(manifest: ManifestView, token: Seq<u8>)
    requires
        manifest.schema_version == "a3s.oci.native-criu-checkpoint.v2"@,
        manifest.publication_token == hex_text(token),
        manifest.quiesce == "paused"@,
        manifest.launcher_pid > 0,
        manifest.init_pid > 0,
        manifest.checkpoint_root_pid == manifest.init_pid,
        manifest.cgroup_path.len() > 0 && manifest.cgroup_path[0] == '/',
        manifest.dump_options.len() > 0,
        1 <= manifest.external_mounts.len() <= 256,
        1 <= manifest.images.len() <= 4096,
        exists|i: int|
            0 <= i < manifest.images.len() && (#[trigger] manifest.images[i]).name
                == "inventory.img"@,
        forall|i: int|
            0 <= i < manifest.images.len() ==> {
                let name = (#[trigger] manifest.images[i]).name;
                name.len() > 0 && byte_length(name) <= 255 && !name.contains('/') && name
                    != seq!['.'] && name != seq!['.', '.']
            },
        forall|i: int, j: int|
            0 <= i < j < manifest.images.len() ==> text_less(
                (#[trigger] manifest.images[i]).name,
                (#[trigger] manifest.images[j]).name,
            ),
        forall|i: int|
            0 <= i < manifest.external_mounts.len() ==> mount_fault(
                #[trigger] manifest.external_mounts[i],
            ) is None,
        forall|i: int, j: int|
            0 <= i < j < manifest.external_mounts.len() ==> text_less(
                (#[trigger] manifest.external_mounts[i]).name,
                (#[trigger] manifest.external_mounts[j]).name,
            ),
        forall|i: int, j: int|
            0 <= i < j < manifest.external_mounts.len() ==> components(
                (#[trigger] manifest.external_mounts[i]).mountpoint,
            ) != components((#[trigger] manifest.external_mounts[j]).mountpoint),
    ensures
        manifest_fault(manifest, token) is None,
{
    safe_images(manifest.images);
    faultless_mounts(manifest.external_mounts);
}

/// A device mount is in order exactly where its cookie is the device prefix with four
/// digits that stand for less than 256 behind it, and its mountpoint is an absolute path
/// of names, of at most 4096 bytes and without a NUL.
pub proof fn mounts_in_order_are_devices(mount: MountView)
    ensures
        mount_fault(mount) is None <==> {
            let prefix = "a3s-oci-device-"@;
            let name = mount.name;
            let index = name.skip(prefix.len() as int);
            &&& name.len() == prefix.len() + 4
            &&& name.take(prefix.len() as int) == prefix
            &&& forall|i: int| 0 <= i < 4 ==> '0' <= #[trigger] index[i] <= '9'
            &&& (index[0] as int - '0' as int) * 1000 + (index[1] as int - '0' as int) * 100 + (
            index[2] as int - '0' as int) * 10 + (index[3] as int - '0' as int) < 256
            &&& byte_length(mount.mountpoint) <= 4096
            &&& !mount.mountpoint.contains('\0')
            &&& mount.mountpoint.len() > 1
            &&& mount.mountpoint[0] == '/'
            &&& forall|i: int|
                0 <= i < pieces(mount.mountpoint.skip(1), '/').len() ==> {
                    let piece = #[trigger] pieces(mount.mountpoint.skip(1), '/')[i];
                    piece.len() > 0 && piece != seq!['.'] && piece != seq!['.', '.']
                }
        },
{
    let prefix = DEVICE_COOKIE_PREFIX@;
    let name = mount.name;
    if name.len() == prefix.len() + 4 {
        let index = name.skip(prefix.len() as int);
        reveal_with_fuel(digits_value, 5);
        assert(prefix.is_prefix_of(name) <==> name.take(prefix.len() as int) == prefix) by {
            if prefix.is_prefix_of(name) {
                assert(name.take(prefix.len() as int) =~= prefix);
            }
        }
        if all_digits(index) {
            let three = index.drop_last();
            let two = three.drop_last();
            let one = two.drop_last();
            assert(is_digit(index[0]) && is_digit(index[1]) && is_digit(index[2]) && is_digit(
                index[3],
            ));
            assert(one.drop_last().len() == 0);
            assert(digits_value(one) == index[0] as int - '0' as int);
            assert(digits_value(two) == digits_value(one) * 10 + (index[1] as int - '0' as int));
            assert(digits_value(three) == digits_value(two) * 10 + (index[2] as int - '0' as int));
            assert(digits_value(index) == digits_value(three) * 10 + (index[3] as int
                - '0' as int));
        }
    }
}

/// A planned manifest says of the source what its metadata says, lists the images it is
/// given and no others, and carries the token of its owner.
pub proof fn planned_manifests_keep_their_metadata(
    metadata: ArtifactMetadata,
    images: Seq<ImageView>,
    token: Seq<u8>,
)
    ensures
        ({
            let manifest = planned_manifest(metadata, images, token);
            &&& manifest.schema_version == "a3s.oci.native-criu-checkpoint.v2"@
            &&& hex_bytes(manifest.publication_token) == token
            &&& manifest.quiesce == "paused"@
            &&& manifest.source == metadata.source@
            &&& manifest.source_config_digest == metadata.source_config_digest@
            &&& manifest.source_attachments_digest == metadata.source_attachments_digest@
            &&& manifest.compatibility == metadata.compatibility@
            &&& manifest.launcher_pid == metadata.launcher_pid
            &&& manifest.checkpoint_root_pid == metadata.checkpoint_root_pid
            &&& manifest.init_pid == metadata.init_pid
            &&& manifest.cgroup_path == metadata.cgroup_path@
            &&& manifest.criu == metadata.criu@
            &&& manifest.dump_options == string_views(metadata.dump_options@)
            &&& manifest.external_mounts == mount_views(metadata.external_mounts@)
            &&& manifest.images == images
        }),
{
    hex_round_trip(token);
}

/// No other token makes a manifest valid than the one it carries.
pub proof fn manifests_belong_to_one_token(
    manifest: ManifestView,
    first: Seq<u8>,
    second: Seq<u8>,
)
    requires
        manifest_fault(manifest, first) is None,
        manifest_fault(manifest, second) is None,
    ensures
        first == second,
{
    hex_round_trip(first);
    hex_round_trip(second);
}

/// An image directory is packaged exactly where no name in it can leave it, nothing else
/// being asked of a name.
pub proof fn unsafe_names_are_found(names: Seq<Seq<char>>)
    ensures
        first_unsafe_name(names) is None <==> forall|i: int|
            0 <= i < names.len() ==> {
                let name = #[trigger] names[i];
                name.len() > 0 && byte_length(name) <= 255 && !name.contains('/') && name
                    != seq!['.'] && name != seq!['.', '.']
            },
        first_unsafe_name(names) matches Some(name) ==> names.contains(name) && !safe_image_name(
            name,
        ),
    decreases names.len(),
{
    if names.len() > 0 {
        let shorter = names.drop_last();
        unsafe_names_are_found(shorter);
        assert(forall|i: int| 0 <= i < shorter.len() ==> #[trigger] names[i] == shorter[i]);
        assert(names[names.len() - 1] == names.last());
        if first_unsafe_name(shorter) is Some {
            let place = choose|i: int|
                0 <= i < shorter.len() && shorter[i] == first_unsafe_name(shorter)->0;
            assert(names[place] == first_unsafe_name(shorter)->0);
        }
    }
}

/// What an artifact starts with: the magic text with two NULs behind it, and the token
/// of its owner; the length of the manifest follows in eight bytes.
pub proof fn headers_show_the_owner(token: Seq<u8>, manifest_length: nat)
    requires
        token.len() == 32,
    ensures
        artifact_header(token, manifest_length).len() == 56,
        artifact_header(token, manifest_length).take(14) == "A3SOCI-CRIU-V1"@.map_values(
            |c: char| c as u8,
        ),
        artifact_header(token, manifest_length)[14] == 0,
        artifact_header(token, manifest_length)[15] == 0,
        artifact_header(token, manifest_length).subrange(16, 48) == token,
        artifact_header(token, manifest_length).skip(48) == spec_u64_to_le_bytes(
            manifest_length as u64,
        ),
        ownership_header(token) == artifact_header(token, manifest_length).take(48),
{
    lemma_auto_spec_u64_to_from_le_bytes();
    let header = artifact_header(token, manifest_length);
    reveal_strlit("A3SOCI-CRIU-V1");
    assert(header.len() == 56);
    assert(header.take(14) =~= "A3SOCI-CRIU-V1"@.map_values(|c: char| c as u8));
    assert(header.subrange(16, 48) =~= token);
    assert(header.skip(48) =~= spec_u64_to_le_bytes(manifest_length as u64));
    assert(ownership_header(token) =~= header.take(48));
}

/// Metadata that makes a valid manifest is of real processes in an absolute cgroup, and
/// metadata of any other makes none.
pub proof fn metadata_is_of_real_processes(
    metadata: ArtifactMetadata,
    images: Seq<ImageView>,
    token: Seq<u8>,
)
    ensures
        metadata_holds(metadata) <==> metadata.launcher_pid > 0 && metadata.init_pid > 0
            && metadata.checkpoint_root_pid == metadata.init_pid && metadata.cgroup_path@.len() > 0
            && metadata.cgroup_path@[0] == '/',
        manifest_fault(planned_manifest(metadata, images, token), token) is None
            ==> metadata_holds(metadata),
{
}

/// Two manifests that count as the same differ at most in how the mountpoints are written.
pub proof fn same_manifests_agree(left: ManifestView, right: ManifestView)
    requires
        same_manifests(left, right),
    ensures
        left.schema_version == right.schema_version,
        left.publication_token == right.publication_token,
        left.source == right.source,
        left.source_config_digest == right.source_config_digest,
        left.source_attachments_digest == right.source_attachments_digest,
        left.compatibility == right.compatibility,
        left.quiesce == right.quiesce,
        left.launcher_pid == right.launcher_pid,
        left.checkpoint_root_pid == right.checkpoint_root_pid,
        left.init_pid == right.init_pid,
        left.cgroup_path == right.cgroup_path,
        left.criu == right.criu,
        left.dump_options == right.dump_options,
        left.images == right.images,
        left.external_mounts.len() == right.external_mounts.len(),
        forall|i: int|
            0 <= i < left.external_mounts.len() ==> (#[trigger] left.external_mounts[i]).name
                == right.external_mounts[i].name && components(left.external_mounts[i].mountpoint)
                == components(right.external_mounts[i].mountpoint),
        same_manifests(right, left),
{
    assert forall|i: int| 0 <= i < right.external_mounts.len() implies (
    #[trigger] right.external_mounts[i]).name == left.external_mounts[i].name && components(
        right.external_mounts[i].mountpoint,
    ) == components(left.external_mounts[i].mountpoint) by {
        assert(left.external_mounts[i].name == right.external_mounts[i].name);
    }
}

/// Each fault of a manifest is told in words of its own.
pub proof fn manifest_faults_come_in_order(manifest: ManifestView, token: Seq<u8>)
    ensures
        manifest_fault(manifest, token) is Some && !(manifest_fault(manifest, token)->0
            is Identity) ==> manifest.publication_token == hex_text(token)
            && manifest.images.len() > 0,
        manifest_fault(manifest, token) matches Some(ManifestFault::NoInventory) ==> forall|i: int|
            0 <= i < manifest.images.len() ==> (#[trigger] manifest.images[i]).name
                != "inventory.img"@,
        manifest_fault(manifest, token) matches Some(ManifestFault::ImageName(name))
            ==> !safe_image_name(name) && exists|i: int|
            0 <= i < manifest.images.len() && (#[trigger] manifest.images[i]).name == name,
{
    unsafe_images_are_listed(manifest.images);
}

proof fn unsafe_images_are_listed(images: Seq<ImageView>)
    ensures
        first_unsafe_image(images) matches Some(name) ==> !safe_image_name(name) && exists|i: int|
            0 <= i < images.len() && (#[trigger] images[i]).name == name,
    decreases images.len(),
{
    if images.len() > 0 {
        let shorter = images.drop_last();
        unsafe_images_are_listed(shorter);
        if first_unsafe_image(shorter) is Some {
            let i = choose|i: int|
                0 <= i < shorter.len() && (#[trigger] shorter[i]).name == first_unsafe_image(
                    shorter,
                )->0;
            assert(images[i] == shorter[i]);
        } else {
            assert(images[images.len() - 1] == images.last());
        }
    }
}

/// Faults of a device mount are told in words of their own.
pub proof fn mount_faults_have_their_own_words(first: MountFault, second: MountFault)
    requires
        mount_fault_message(first) == mount_fault_message(second),
    ensures
        first == second,
{
    reveal_strlit("native checkpoint external mount has an invalid cookie");
    reveal_strlit("native checkpoint external mount has an invalid cookie index");
    reveal_strlit("native checkpoint external mountpoint is not normalized and absolute");
    assert(mount_fault_message(MountFault::Cookie).len() == 54);
    assert(mount_fault_message(MountFault::CookieIndex).len() == 60);
    assert(mount_fault_message(MountFault::Mountpoint).len() == 68);
}

} // verus!
