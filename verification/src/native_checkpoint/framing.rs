//! Writing and reading the frame of a checkpoint artifact, piece by piece.

use vstd::prelude::*;
use vstd::bytes::{
    lemma_auto_spec_u64_to_from_le_bytes, spec_u64_from_le_bytes, spec_u64_to_le_bytes,
    u64_from_le_bytes, u64_to_le_bytes,
};
use crate::digest::{
    absorbed, digest_text, finish_digest, hasher_new, hasher_update, is_sha256_digest, Sha256Hasher,
};
use crate::error::{checkpoint_error, io_message, Error, ErrorCode, CHECKPOINT_OPERATION};
use crate::native_checkpoint::artifact::{
    artifact_header, artifact_magic, invalid_artifact, manifest_fault, manifest_fault_message,
    ownership_header, CheckpointArtifactManifest, ImageView, ManifestView, HEADER_BYTES,
    MAX_MANIFEST_BYTES, OWNERSHIP_BYTES,
};
use crate::native_checkpoint::operation::ErrorView;
use crate::text::{append_decimal, decimal, hex_text, text_eq};

verus! {

/// The lengths of image bodies together.
pub open spec fn bodies_length(images: Seq<ImageView>) -> nat
    decreases images.len(),
{
    if images.len() == 0 {
        0
    } else {
        bodies_length(images.drop_last()) + images.last().size_bytes as nat
    }
}

/// Where the body of an image starts, behind a manifest of the given length.
pub open spec fn body_start(manifest_length: nat, images: Seq<ImageView>, index: int) -> int {
    HEADER_BYTES + manifest_length + bodies_length(images.take(index)) as int
}

/// The body of an image inside an artifact.
pub open spec fn body_of(
    bytes: Seq<u8>,
    manifest_length: nat,
    images: Seq<ImageView>,
    index: int,
) -> Seq<u8> {
    bytes.subrange(
        body_start(manifest_length, images, index),
        body_start(manifest_length, images, index + 1),
    )
}

/// The first images are there and have the digests that the manifest lists.
pub open spec fn bodies_match(
    bytes: Seq<u8>,
    manifest_length: nat,
    images: Seq<ImageView>,
    upto: int,
) -> bool {
    forall|i: int|
        0 <= i < upto ==> digest_text(#[trigger] body_of(bytes, manifest_length, images, i))
            == images[i].digest
}

/// A byte sequence that is an artifact of a token with a manifest of the given
/// length and images.
pub open spec fn framed(
    bytes: Seq<u8>,
    token: Seq<u8>,
    manifest_length: nat,
    images: Seq<ImageView>,
) -> bool {
    &&& 1 <= manifest_length <= MAX_MANIFEST_BYTES
    &&& bytes.len() == body_start(manifest_length, images, images.len() as int)
    &&& bytes.take(HEADER_BYTES as int) == artifact_header(token, manifest_length)
    &&& bodies_match(bytes, manifest_length, images, images.len() as int)
}

/// Byte sequences one behind the other.
pub open spec fn concatenated(parts: Seq<Seq<u8>>) -> Seq<u8>
    decreases parts.len(),
{
    if parts.len() == 0 {
        Seq::empty()
    } else {
        concatenated(parts.drop_last()) + parts.last()
    }
}

/// The bytes of an artifact.
pub open spec fn artifact_bytes(
    token: Seq<u8>,
    manifest: Seq<u8>,
    bodies: Seq<Seq<u8>>,
) -> Seq<u8> {
    artifact_header(token, manifest.len()) + manifest + concatenated(bodies)
}

/// The bytes an artifact starts with.
pub fn magic() -> (bytes: Vec<u8>)
    ensures
        bytes@ == artifact_magic(),
{
    let bytes = vec![65u8, 51, 83, 79, 67, 73, 45, 67, 82, 73, 85, 45, 86, 49, 0, 0];
    assert(bytes@ =~= artifact_magic());
    bytes
}

fn bytes_eq(left: &[u8], right: &[u8]) -> (equal: bool)
    ensures
        equal == (left@ == right@),
{
    if left.len() != right.len() {
        return false;
    }
    let mut next: usize = 0;
    while next < left.len()
        invariant
            next <= left@.len(),
            left@.len() == right@.len(),
            forall|i: int| 0 <= i < next ==> left@[i] == right@[i],
        decreases left@.len() - next,
    {
        if left[next] != right[next] {
            return false;
        }
        next = next + 1;
    }
    assert(left@ =~= right@);
    true
}

/// The bytes that mark a pending artifact as owned by a token.
pub fn pending_header(token: &[u8; 32]) -> (bytes: Vec<u8>)
    ensures
        bytes@ == ownership_header(token@),
{
    let mut bytes = magic();
    bytes.extend_from_slice(vstd::array::array_as_slice(token));
    assert(bytes@ =~= ownership_header(token@));
    bytes
}

/// Whether the first bytes of a pending artifact, as far as there are any, show
/// that a token owns it.
pub fn owns_pending(start: &[u8], token: &[u8; 32]) -> (owned: bool)
    ensures
        owned == ownership_header(token@).is_prefix_of(start@),
{
    if start.len() < OWNERSHIP_BYTES {
        return false;
    }
    let expected = pending_header(token);
    let head = vstd::slice::slice_subrange(start, 0, OWNERSHIP_BYTES);
    assert(ownership_header(token@).len() == OWNERSHIP_BYTES);
    bytes_eq(head, &expected)
}

/// The publication token that an artifact starts with.
pub fn read_publication_token(start: &[u8]) -> (result: Result<[u8; 32], Error>)
    requires
        start@.len() == OWNERSHIP_BYTES,
    ensures
        match result {
            Ok(token) => start@ == ownership_header(token@),
            Err(error) => start@.take(16) != artifact_magic() && error.is_checkpoint(
                ErrorCode::FailedPrecondition,
                "checkpoint artifact magic does not match"@,
            ),
        },
{
    let expected = magic();
    let head = vstd::slice::slice_subrange(start, 0, 16);
    assert(head@ =~= start@.take(16));
    if !bytes_eq(head, &expected) {
        return Err(invalid_artifact("checkpoint artifact magic does not match"));
    }
    let mut token: [u8; 32] = [0u8;32];
    let mut next: usize = 0;
    while next < 32
        invariant
            next <= 32,
            start@.len() == OWNERSHIP_BYTES,
            forall|i: int| 0 <= i < next ==> token@[i] == start@[16 + i],
        decreases 32 - next,
    {
        token[next] = start[16 + next];
        next = next + 1;
    }
    proof {
        assert forall|i: int| 0 <= i < 48 implies start@[i] == ownership_header(token@)[i] by {
            if i < 16 {
                assert(start@.take(16)[i] == start@[i]);
            }
        }
        assert(start@ =~= ownership_header(token@));
    }
    Ok(token)
}

/// An artifact that is being written.
pub struct ArtifactWriter {
    hasher: Sha256Hasher,
    size: u64,
}

impl ArtifactWriter {
    /// The bytes written so far.
    pub closed spec fn written(self) -> Seq<u8> {
        absorbed(self.hasher)
    }

    /// The size is that of the bytes written.
    pub closed spec fn wf(self) -> bool {
        self.size == absorbed(self.hasher).len()
    }

    /// Nothing written yet.
    pub fn new() -> (writer: ArtifactWriter)
        ensures
            writer.wf(),
            writer.written() == Seq::<u8>::empty(),
    {
        ArtifactWriter { hasher: hasher_new(), size: 0 }
    }

    /// Takes in bytes that were written, unless the size no longer fits.
    pub fn write(&mut self, bytes: &[u8]) -> (result: Result<(), Error>)
        requires
            old(self).wf(),
        ensures
            final(self).written() == old(self).written() + bytes@,
            match result {
                Ok(()) => final(self).wf() && old(self).written().len() + bytes@.len()
                    <= u64::MAX,
                Err(error) => old(self).written().len() + bytes@.len() > u64::MAX
                    && error.is_checkpoint(
                    ErrorCode::ResourceExhausted,
                    "checkpoint artifact size overflowed"@,
                ),
            },
    {
        hasher_update(&mut self.hasher, bytes);
        match self.size.checked_add(bytes.len() as u64) {
            Some(size) => {
                self.size = size;
                Ok(())
            },
            None => Err(
                checkpoint_error(
                    ErrorCode::ResourceExhausted,
                    "checkpoint artifact size overflowed",
                ),
            ),
        }
    }

    /// Takes in the next bytes of an image and says how many are still to come.
    /// An image that ends early cannot be packaged.
    pub fn write_image(&mut self, name: &str, remaining: u64, bytes: &[u8]) -> (result: Result<
        u64,
        Error,
    >)
        requires
            old(self).wf(),
            bytes@.len() <= remaining,
        ensures
            final(self).written() == old(self).written() + bytes@,
            match result {
                Ok(rest) => bytes@.len() > 0 && final(self).wf() && rest == remaining
                    - bytes@.len(),
                Err(error) => if bytes@.len() == 0 {
                    error.is_checkpoint(
                        ErrorCode::FailedPrecondition,
                        "CRIU image "@ + name@ + " became shorter while packaging"@,
                    )
                } else {
                    old(self).written().len() + bytes@.len() > u64::MAX && error.is_checkpoint(
                        ErrorCode::ResourceExhausted,
                        "checkpoint artifact size overflowed"@,
                    )
                },
            },
    {
        if bytes.len() == 0 {
            assert(self.written() + bytes@ =~= self.written());
            let mut message = "CRIU image ".to_owned();
            message.append(name);
            message.append(" became shorter while packaging");
            return Err(invalid_artifact(&message));
        }
        match self.write(bytes) {
            Ok(()) => Ok(remaining - bytes.len() as u64),
            Err(error) => Err(error),
        }
    }

    /// The digest and the size of what was written.
    pub fn finish(self) -> (result: (String, u64))
        requires
            self.wf(),
        ensures
            result.0@ == digest_text(self.written()),
            is_sha256_digest(result.0@),
            result.1 == self.written().len(),
    {
        (finish_digest(self.hasher), self.size)
    }
}

/// The message for a manifest of a size that no artifact can hold.
pub open spec fn manifest_size_message(length: nat) -> Seq<char> {
    "native checkpoint manifest is "@ + decimal(length) + " bytes; maximum is "@ + decimal(
        MAX_MANIFEST_BYTES as nat,
    )
}

/// The bytes of an artifact up to and with its encoded manifest.
pub fn frame_manifest(encoded: &[u8], token: &[u8; 32]) -> (result: Result<Vec<u8>, Error>)
    ensures
        match result {
            Ok(bytes) => 1 <= encoded@.len() <= MAX_MANIFEST_BYTES && bytes@ == artifact_header(
                token@,
                encoded@.len(),
            ) + encoded@,
            Err(error) => !(1 <= encoded@.len() <= MAX_MANIFEST_BYTES) && error.is_checkpoint(
                ErrorCode::ResourceExhausted,
                manifest_size_message(encoded@.len()),
            ),
        },
{
    if encoded.len() == 0 || encoded.len() > MAX_MANIFEST_BYTES {
        let mut message = "native checkpoint manifest is ".to_owned();
        append_decimal(&mut message, encoded.len() as u64);
        message.append(" bytes; maximum is ");
        append_decimal(&mut message, MAX_MANIFEST_BYTES as u64);
        return Err(checkpoint_error(ErrorCode::ResourceExhausted, &message));
    }
    let mut bytes = pending_header(token);
    let length = u64_to_le_bytes(encoded.len() as u64);
    bytes.extend_from_slice(&length);
    bytes.extend_from_slice(encoded);
    assert(bytes@ =~= artifact_header(token@, encoded@.len()) + encoded@);
    Ok(bytes)
}

/// How many bytes to ask for next, with a buffer of the given size.
pub fn copy_limit(remaining: u64, buffer: usize) -> (limit: usize)
    ensures
        limit == if remaining <= buffer {
            remaining as int
        } else {
            buffer as int
        },
{
    if remaining <= buffer as u64 {
        remaining as usize
    } else {
        buffer
    }
}

/// An artifact whose header is read next.
pub struct HeaderReader {
    digest: Sha256Hasher,
    expected_digest: String,
    expected_size: u64,
    token: [u8; 32],
}

/// An artifact whose manifest is read next.
pub struct ManifestReader {
    digest: Sha256Hasher,
    expected_digest: String,
    expected_size: u64,
    token: [u8; 32],
    manifest_length: usize,
}

/// An artifact whose image bodies are read.
pub struct BodyReader {
    digest: Sha256Hasher,
    image_digest: Sha256Hasher,
    expected_digest: String,
    expected_size: u64,
    token: [u8; 32],
    manifest_length: usize,
    manifest: CheckpointArtifactManifest,
    index: usize,
    remaining: u64,
}

/// An artifact that was read or written and found to hold what it should.
#[derive(Debug)]
pub struct BuiltArtifact {
    pub manifest: CheckpointArtifactManifest,
    pub digest: String,
    pub size_bytes: u64,
}

impl HeaderReader {
    /// What the artifact is expected to be: its token, its digest and its size.
    pub closed spec fn expectation(self) -> (Seq<u8>, Seq<char>, u64) {
        (self.token@, self.expected_digest@, self.expected_size)
    }

    /// Nothing has been read.
    pub closed spec fn wf(self) -> bool {
        absorbed(self.digest) == Seq::<u8>::empty()
    }

    /// Starts to read a file of the given kind and length.
    pub fn open(
        regular: bool,
        length: u64,
        expected_digest: String,
        expected_size: u64,
        token: [u8; 32],
    ) -> (result: Result<HeaderReader, Error>)
        ensures
            match result {
                Ok(reader) => regular && length == expected_size && expected_size != 0
                    && reader.wf() && reader.expectation() == (
                    token@,
                    expected_digest@,
                    expected_size,
                ),
                Err(error) => !(regular && length == expected_size && expected_size != 0)
                    && error.is_checkpoint(
                    ErrorCode::FailedPrecondition,
                    "checkpoint artifact is not a regular file with the expected positive size"@,
                ),
            },
    {
        if !regular || length != expected_size || expected_size == 0 {
            return Err(
                invalid_artifact(
                    "checkpoint artifact is not a regular file with the expected positive size",
                ),
            );
        }
        Ok(HeaderReader { digest: hasher_new(), expected_digest, expected_size, token })
    }

    /// Reads the header.
    pub fn header(self, header: &[u8]) -> (result: Result<ManifestReader, Error>)
        requires
            self.wf(),
            header@.len() == HEADER_BYTES,
        ensures
            ({
                let length = spec_u64_from_le_bytes(header@.subrange(48, 56));
                match result {
                    Ok(reader) => {
                        &&& ownership_header(self.expectation().0).is_prefix_of(header@)
                        &&& 1 <= length <= MAX_MANIFEST_BYTES
                        &&& reader.wf()
                        &&& reader.expectation() == self.expectation()
                        &&& reader.length() == length
                        &&& reader.consumed() == header@
                    },
                    Err(error) => if !ownership_header(self.expectation().0).is_prefix_of(header@) {
                        error.is_checkpoint(
                            ErrorCode::FailedPrecondition,
                            "checkpoint artifact magic or publication token does not match"@,
                        )
                    } else if length > usize::MAX {
                        error.is_checkpoint(
                            ErrorCode::FailedPrecondition,
                            "checkpoint manifest length does not fit this platform"@,
                        )
                    } else {
                        !(1 <= length <= MAX_MANIFEST_BYTES) && error.is_checkpoint(
                            ErrorCode::FailedPrecondition,
                            "checkpoint manifest length is zero or exceeds its bound"@,
                        )
                    },
                }
            }),
    {
        let mut digest = self.digest;
        hasher_update(&mut digest, header);
        if !owns_pending(header, &self.token) {
            return Err(
                invalid_artifact("checkpoint artifact magic or publication token does not match"),
            );
        }
        let encoded = vstd::slice::slice_subrange(header, 48, 56);
        let length: u64 = u64_from_le_bytes(encoded);
        if length > usize::MAX as u64 {
            return Err(invalid_artifact("checkpoint manifest length does not fit this platform"));
        }
        let manifest_length: usize = length as usize;
        if manifest_length == 0 || manifest_length > MAX_MANIFEST_BYTES {
            return Err(invalid_artifact("checkpoint manifest length is zero or exceeds its bound"));
        }
        proof {
            assert(absorbed(digest) =~= header@);
            header_is_exact(header@, self.token@, length);
        }
        Ok(
            ManifestReader {
                digest,
                expected_digest: self.expected_digest,
                expected_size: self.expected_size,
                token: self.token,
                manifest_length,
            },
        )
    }
}

proof fn header_is_exact(header: Seq<u8>, token: Seq<u8>, length: u64)
    requires
        header.len() == HEADER_BYTES,
        token.len() == 32,
        ownership_header(token).is_prefix_of(header),
        length == spec_u64_from_le_bytes(header.subrange(48, 56)),
    ensures
        header == artifact_header(token, length as nat),
{
    lemma_auto_spec_u64_to_from_le_bytes();
    let tail = header.subrange(48, 56);
    assert(spec_u64_to_le_bytes(length) == tail);
    assert(header =~= header.subrange(0, 48) + tail);
    assert(ownership_header(token) =~= header.subrange(0, 48));
}

impl ManifestReader {
    /// What the artifact is expected to be: its token, its digest and its size.
    pub closed spec fn expectation(self) -> (Seq<u8>, Seq<char>, u64) {
        (self.token@, self.expected_digest@, self.expected_size)
    }

    /// The bytes read so far.
    pub closed spec fn consumed(self) -> Seq<u8> {
        absorbed(self.digest)
    }

    /// The length of the manifest.
    pub closed spec fn length(self) -> nat {
        self.manifest_length as nat
    }

    /// The header was read and is that of the token.
    pub closed spec fn wf(self) -> bool {
        &&& 1 <= self.manifest_length <= MAX_MANIFEST_BYTES
        &&& absorbed(self.digest) == artifact_header(self.token@, self.manifest_length as nat)
    }

    /// How many bytes the manifest has.
    pub fn manifest_length(&self) -> (length: usize)
        requires
            self.wf(),
        ensures
            length == self.length(),
            1 <= length <= MAX_MANIFEST_BYTES,
    {
        self.manifest_length
    }

    /// Reads the manifest, given its bytes and what they decode to.
    pub fn manifest(
        self,
        encoded: &[u8],
        decoded: Result<CheckpointArtifactManifest, String>,
    ) -> (result: Result<BodyReader, Error>)
        requires
            self.wf(),
            encoded@.len() == self.length(),
        ensures
            match decoded {
                Err(cause) => result matches Err(error) && error.is_checkpoint(
                    ErrorCode::FailedPrecondition,
                    "failed to decode checkpoint artifact manifest: "@ + cause@,
                ),
                Ok(manifest) => match manifest_fault(manifest@, self.expectation().0) {
                    Some(fault) => result matches Err(error) && error.is_checkpoint(
                        ErrorCode::FailedPrecondition,
                        manifest_fault_message(fault),
                    ),
                    None => result matches Ok(reader) && {
                        &&& reader.wf()
                        &&& reader.expectation() == self.expectation()
                        &&& reader.manifest_view() == manifest@
                        &&& reader.length() == self.length()
                        &&& reader.consumed() == self.consumed() + encoded@
                        &&& reader.position() == 0
                    },
                },
            },
    {
        let manifest = match decoded {
            Ok(manifest) => manifest,
            Err(cause) => {
                let mut message = "failed to decode checkpoint artifact manifest: ".to_owned();
                message.append(&cause);
                return Err(invalid_artifact(&message));
            },
        };
        match manifest.validate(&self.token) {
            Ok(()) => {},
            Err(error) => return Err(error),
        }
        let mut digest = self.digest;
        hasher_update(&mut digest, encoded);
        let remaining: u64 = if manifest.images.len() > 0 {
            manifest.images[0].size_bytes
        } else {
            0
        };
        let reader = BodyReader {
            digest,
            image_digest: hasher_new(),
            expected_digest: self.expected_digest,
            expected_size: self.expected_size,
            token: self.token,
            manifest_length: self.manifest_length,
            manifest,
            index: 0,
            remaining,
        };
        proof {
            let images = reader.manifest_view().images;
            let consumed = reader.consumed();
            assert(images.take(0) =~= Seq::empty());
            assert(self.consumed().len() == HEADER_BYTES) by {
                lemma_auto_spec_u64_to_from_le_bytes();
            }
            assert(consumed.take(HEADER_BYTES as int) =~= self.consumed());
            assert(consumed.subrange(consumed.len() as int, consumed.len() as int) =~= Seq::empty());
        }
        Ok(reader)
    }
}

proof fn bodies_length_step(images: Seq<ImageView>, index: int)
    requires
        0 <= index < images.len(),
    ensures
        bodies_length(images.take(index + 1)) == bodies_length(images.take(index))
            + images[index].size_bytes,
{
    assert(images.take(index + 1).drop_last() =~= images.take(index));
}

proof fn bodies_length_grows(images: Seq<ImageView>, i: int, j: int)
    requires
        0 <= i <= j <= images.len(),
    ensures
        bodies_length(images.take(i)) <= bodies_length(images.take(j)),
    decreases j - i,
{
    if i < j {
        bodies_length_grows(images, i, j - 1);
        bodies_length_step(images, j - 1);
    }
}

proof fn bodies_stay(
    before: Seq<u8>,
    after: Seq<u8>,
    manifest_length: nat,
    images: Seq<ImageView>,
    upto: int,
)
    requires
        0 <= upto <= images.len(),
        before.is_prefix_of(after),
        before.len() >= body_start(manifest_length, images, upto),
        bodies_match(before, manifest_length, images, upto),
    ensures
        bodies_match(after, manifest_length, images, upto),
{
    assert forall|i: int| 0 <= i < upto implies digest_text(
        #[trigger] body_of(after, manifest_length, images, i),
    ) == images[i].digest by {
        bodies_length_grows(images, i, i + 1);
        bodies_length_grows(images, i + 1, upto);
        let start = body_start(manifest_length, images, i);
        let end = body_start(manifest_length, images, i + 1);
        assert(after.subrange(0, before.len() as int) == before);
        assert forall|k: int| start <= k < end implies #[trigger] after[k] == before[k] by {
            assert(after.subrange(0, before.len() as int)[k] == after[k]);
        }
        assert(body_of(after, manifest_length, images, i) =~= body_of(
            before,
            manifest_length,
            images,
            i,
        ));
    }
}

impl BodyReader {
    /// What the artifact is expected to be: its token, its digest and its size.
    pub closed spec fn expectation(self) -> (Seq<u8>, Seq<char>, u64) {
        (self.token@, self.expected_digest@, self.expected_size)
    }

    /// The bytes read so far.
    pub closed spec fn consumed(self) -> Seq<u8> {
        absorbed(self.digest)
    }

    /// The length of the manifest.
    pub closed spec fn length(self) -> nat {
        self.manifest_length as nat
    }

    /// The manifest that was read.
    pub closed spec fn manifest_view(self) -> ManifestView {
        self.manifest@
    }

    /// How many images have been read to their end and checked.
    pub closed spec fn position(self) -> int {
        self.index as int
    }

    /// How many bytes of the current image are still to come.
    pub closed spec fn left(self) -> nat {
        self.remaining as nat
    }

    /// The manifest is valid, the header and all images before the current one
    /// are as they should be, and the current one has been read in part.
    pub closed spec fn wf(self) -> bool {
        let images = self.manifest@.images;
        let consumed = absorbed(self.digest);
        let start = body_start(self.manifest_length as nat, images, self.index as int);
        &&& 1 <= self.manifest_length <= MAX_MANIFEST_BYTES
        &&& manifest_fault(self.manifest@, self.token@) is None
        &&& self.index <= images.len()
        &&& consumed.take(HEADER_BYTES as int) == artifact_header(
            self.token@,
            self.manifest_length as nat,
        )
        &&& bodies_match(consumed, self.manifest_length as nat, images, self.index as int)
        &&& self.index < images.len() ==> {
            &&& self.remaining <= images[self.index as int].size_bytes
            &&& consumed.len() == start + images[self.index as int].size_bytes - self.remaining
            &&& absorbed(self.image_digest) == consumed.subrange(start, consumed.len() as int)
        }
        &&& self.index == images.len() ==> consumed.len() == start
    }

    /// Whether every image has been read and checked.
    pub fn is_complete(&self) -> (complete: bool)
        requires
            self.wf(),
        ensures
            complete == (self.position() == self.manifest_view().images.len()),
    {
        self.index == self.manifest.images.len()
    }

    /// The name of the image that is read next, and how many of its bytes are
    /// still to come.
    pub fn current(&self) -> (image: Option<(&str, u64)>)
        requires
            self.wf(),
        ensures
            image is Some <==> self.position() < self.manifest_view().images.len(),
            image matches Some(found) ==> found.0@ == self.manifest_view().images[self.position()].name
                && found.1 == self.left(),
    {
        if self.index < self.manifest.images.len() {
            assert(self.manifest@.images[self.index as int] == self.manifest.images@[self.index as int]@);
            Some((self.manifest.images[self.index].name.as_str(), self.remaining))
        } else {
            None
        }
    }

    /// Reads the next bytes of the current image. No bytes mean that the file
    /// ends inside the image.
    pub fn chunk(self, bytes: &[u8]) -> (result: Result<BodyReader, Error>)
        requires
            self.wf(),
            self.position() < self.manifest_view().images.len(),
            0 < self.left(),
            bytes@.len() <= self.left(),
        ensures
            match result {
                Ok(reader) => {
                    &&& bytes@.len() > 0
                    &&& reader.wf()
                    &&& reader.expectation() == self.expectation()
                    &&& reader.manifest_view() == self.manifest_view()
                    &&& reader.length() == self.length()
                    &&& reader.consumed() == self.consumed() + bytes@
                    &&& reader.position() == self.position()
                    &&& reader.left() == self.left() - bytes@.len()
                },
                Err(error) => bytes@.len() == 0 && error.is_checkpoint(
                    ErrorCode::FailedPrecondition,
                    "checkpoint artifact truncates CRIU image "@
                        + self.manifest_view().images[self.position()].name,
                ),
            },
    {
        assert(self.manifest@.images[self.index as int] == self.manifest.images@[self.index as int]@);
        if bytes.len() == 0 {
            let mut message = "checkpoint artifact truncates CRIU image ".to_owned();
            message.append(&self.manifest.images[self.index].name);
            return Err(invalid_artifact(&message));
        }
        let mut digest = self.digest;
        let mut image_digest = self.image_digest;
        hasher_update(&mut digest, bytes);
        hasher_update(&mut image_digest, bytes);
        let reader = BodyReader {
            digest,
            image_digest,
            expected_digest: self.expected_digest,
            expected_size: self.expected_size,
            token: self.token,
            manifest_length: self.manifest_length,
            manifest: self.manifest,
            index: self.index,
            remaining: self.remaining - bytes.len() as u64,
        };
        proof {
            let images = self.manifest_view().images;
            let before = self.consumed();
            let after = reader.consumed();
            let start = body_start(self.length(), images, self.position());
            assert(after.subrange(0, before.len() as int) =~= before);
            bodies_stay(before, after, self.length(), images, self.position());
            assert(after.take(HEADER_BYTES as int) =~= before.take(HEADER_BYTES as int));
            assert(after.subrange(start, after.len() as int) =~= before.subrange(
                start,
                before.len() as int,
            ) + bytes@);
        }
        Ok(reader)
    }

    /// Checks the current image, read to its end, and goes on to the next.
    pub fn close_image(self) -> (result: Result<BodyReader, Error>)
        requires
            self.wf(),
            self.position() < self.manifest_view().images.len(),
            self.left() == 0,
        ensures
            ({
                let image = self.manifest_view().images[self.position()];
                let body = body_of(
                    self.consumed(),
                    self.length(),
                    self.manifest_view().images,
                    self.position(),
                );
                match result {
                    Ok(reader) => {
                        &&& digest_text(body) == image.digest
                        &&& reader.wf()
                        &&& reader.expectation() == self.expectation()
                        &&& reader.manifest_view() == self.manifest_view()
                        &&& reader.length() == self.length()
                        &&& reader.consumed() == self.consumed()
                        &&& reader.position() == self.position() + 1
                        &&& reader.position() < reader.manifest_view().images.len()
                            ==> reader.left()
                            == reader.manifest_view().images[reader.position()].size_bytes
                    },
                    Err(error) => digest_text(body) != image.digest && error.is_checkpoint(
                        ErrorCode::FailedPrecondition,
                        "checkpoint artifact CRIU image "@ + image.name + " has the wrong digest"@,
                    ),
                }
            }),
    {
        let index: usize = self.index;
        let ghost images = self.manifest_view().images;
        let ghost consumed = self.consumed();
        proof {
            assert(images[index as int] == self.manifest.images@[index as int]@);
            bodies_length_step(images, index as int);
            assert(body_of(consumed, self.length(), images, index as int) =~= consumed.subrange(
                body_start(self.length(), images, index as int),
                consumed.len() as int,
            ));
        }
        let actual = finish_digest(self.image_digest);
        if !text_eq(&actual, &self.manifest.images[index].digest) {
            let mut message = "checkpoint artifact CRIU image ".to_owned();
            message.append(&self.manifest.images[index].name);
            message.append(" has the wrong digest");
            return Err(invalid_artifact(&message));
        }
        let remaining: u64 = if index + 1 < self.manifest.images.len() {
            assert(images[index + 1] == self.manifest.images@[index + 1]@);
            self.manifest.images[index + 1].size_bytes
        } else {
            0
        };
        let reader = BodyReader {
            digest: self.digest,
            image_digest: hasher_new(),
            expected_digest: self.expected_digest,
            expected_size: self.expected_size,
            token: self.token,
            manifest_length: self.manifest_length,
            manifest: self.manifest,
            index: index + 1,
            remaining,
        };
        proof {
            assert(consumed.subrange(consumed.len() as int, consumed.len() as int) =~= Seq::empty());
            assert forall|i: int| 0 <= i < index + 1 implies digest_text(
                #[trigger] body_of(consumed, self.length(), images, i),
            ) == images[i].digest by {
                if i == index {
                    assert(images[index as int].digest == self.manifest.images@[index as int]@.digest);
                }
            }
        }
        Ok(reader)
    }

    /// Ends the reading, given whether the file goes on behind the last image.
    pub fn finish(self, trailing: bool) -> (result: Result<BuiltArtifact, Error>)
        requires
            self.wf(),
            self.position() == self.manifest_view().images.len(),
        ensures
            match result {
                Ok(built) => {
                    &&& !trailing
                    &&& digest_text(self.consumed()) == self.expectation().1
                    &&& framed(
                        self.consumed(),
                        self.expectation().0,
                        self.length(),
                        self.manifest_view().images,
                    )
                    &&& manifest_fault(self.manifest_view(), self.expectation().0) is None
                    &&& built.manifest@ == self.manifest_view()
                    &&& built.digest@ == digest_text(self.consumed())
                    &&& built.size_bytes == self.expectation().2
                },
                Err(error) => if trailing {
                    error.is_checkpoint(
                        ErrorCode::FailedPrecondition,
                        "checkpoint artifact contains unmanifested trailing bytes"@,
                    )
                } else {
                    digest_text(self.consumed()) != self.expectation().1 && error.is_checkpoint(
                        ErrorCode::FailedPrecondition,
                        "checkpoint artifact digest differs from retained evidence"@,
                    )
                },
            },
    {
        if trailing {
            return Err(invalid_artifact("checkpoint artifact contains unmanifested trailing bytes"));
        }
        let actual = finish_digest(self.digest);
        if !text_eq(&actual, &self.expected_digest) {
            return Err(
                invalid_artifact("checkpoint artifact digest differs from retained evidence"),
            );
        }
        Ok(
            BuiltArtifact {
                manifest: self.manifest,
                digest: actual,
                size_bytes: self.expected_size,
            },
        )
    }
}

proof fn truncated_is_not_framed(reader: BodyReader)
    requires
        reader.wf(),
        reader.position() < reader.manifest_view().images.len(),
        reader.left() > 0,
    ensures
        !framed(
            reader.consumed(),
            reader.expectation().0,
            reader.length(),
            reader.manifest_view().images,
        ),
{
    let images = reader.manifest_view().images;
    bodies_length_step(images, reader.position());
    bodies_length_grows(images, reader.position() + 1, images.len() as int);
}

proof fn wrong_body_is_not_framed(reader: BodyReader, bytes: Seq<u8>)
    requires
        reader.wf(),
        reader.position() < reader.manifest_view().images.len(),
        reader.left() == 0,
        reader.consumed().is_prefix_of(bytes),
        digest_text(
            body_of(
                reader.consumed(),
                reader.length(),
                reader.manifest_view().images,
                reader.position(),
            ),
        ) != reader.manifest_view().images[reader.position()].digest,
    ensures
        !framed(
            bytes,
            reader.expectation().0,
            reader.length(),
            reader.manifest_view().images,
        ),
{
    let images = reader.manifest_view().images;
    let index = reader.position();
    let consumed = reader.consumed();
    bodies_length_step(images, index);
    assert forall|k: int| 0 <= k < consumed.len() implies #[trigger] bytes[k] == consumed[k] by {
        assert(bytes.subrange(0, consumed.len() as int)[k] == bytes[k]);
    }
    assert(body_of(bytes, reader.length(), images, index) =~= body_of(
        consumed,
        reader.length(),
        images,
        index,
    ));
}

proof fn complete_reader_is_at_end(reader: BodyReader)
    requires
        reader.wf(),
        reader.position() == reader.manifest_view().images.len(),
    ensures
        reader.consumed().len() == body_start(
            reader.length(),
            reader.manifest_view().images,
            reader.position(),
        ),
{
}

/// What an artifact has to be to be read: of the expected positive size and
/// digest, framed for the token, and with a manifest that is valid for it.
pub open spec fn acceptable(
    bytes: Seq<u8>,
    token: Seq<u8>,
    decoded: Result<CheckpointArtifactManifest, String>,
    expected_digest: Seq<char>,
    expected_size: u64,
) -> bool {
    &&& bytes.len() == expected_size
    &&& bytes.len() >= HEADER_BYTES
    &&& decoded is Ok
    &&& manifest_fault(decoded->Ok_0@, token) is None
    &&& framed(
        bytes,
        token,
        spec_u64_from_le_bytes(bytes.subrange(48, 56)) as nat,
        decoded->Ok_0@.images,
    )
    &&& digest_text(bytes) == expected_digest
}

/// The failure of reading an artifact that is not what it has to be.
pub open spec fn artifact_failure(message: Seq<char>) -> ErrorView {
    ErrorView {
        code: ErrorCode::FailedPrecondition,
        message,
        operation: Some(CHECKPOINT_OPERATION@),
        retryable: false,
    }
}

/// The failure of reading more bytes than an artifact has.
pub open spec fn short_read_failure() -> ErrorView {
    ErrorView {
        code: ErrorCode::Unavailable,
        message: io_message(
            "read checkpoint artifact"@,
            "<pending>"@,
            "failed to fill whole buffer"@,
        ),
        operation: Some(CHECKPOINT_OPERATION@),
        retryable: false,
    }
}

/// What is wrong with the first image, from one on, that is cut short or has another
/// digest than the manifest lists.
pub open spec fn body_fault(
    bytes: Seq<u8>,
    manifest_length: nat,
    images: Seq<ImageView>,
    index: int,
) -> Option<Seq<char>>
    decreases images.len() - index,
{
    if index < 0 || index >= images.len() {
        None
    } else if bytes.len() < body_start(manifest_length, images, index + 1) {
        Some("checkpoint artifact truncates CRIU image "@ + images[index].name)
    } else if digest_text(body_of(bytes, manifest_length, images, index)) != images[index].digest {
        Some("checkpoint artifact CRIU image "@ + images[index].name + " has the wrong digest"@)
    } else {
        body_fault(bytes, manifest_length, images, index + 1)
    }
}

/// Why an artifact is not read, if it is not. What stands first in it is judged
/// first.
pub open spec fn artifact_fault(
    bytes: Seq<u8>,
    token: Seq<u8>,
    decoded: Result<CheckpointArtifactManifest, String>,
    expected_digest: Seq<char>,
    expected_size: u64,
) -> Option<ErrorView> {
    let length = spec_u64_from_le_bytes(bytes.subrange(48, 56)) as nat;
    if !(bytes.len() == expected_size && expected_size != 0) {
        Some(
            artifact_failure(
                "checkpoint artifact is not a regular file with the expected positive size"@,
            ),
        )
    } else if bytes.len() < HEADER_BYTES {
        Some(short_read_failure())
    } else if !ownership_header(token).is_prefix_of(bytes.take(HEADER_BYTES as int)) {
        Some(
            artifact_failure("checkpoint artifact magic or publication token does not match"@),
        )
    } else if length > usize::MAX {
        Some(artifact_failure("checkpoint manifest length does not fit this platform"@))
    } else if !(1 <= length <= MAX_MANIFEST_BYTES) {
        Some(artifact_failure("checkpoint manifest length is zero or exceeds its bound"@))
    } else if bytes.len() < HEADER_BYTES + length {
        Some(short_read_failure())
    } else {
        match decoded {
            Err(cause) => Some(
                artifact_failure(
                    "failed to decode checkpoint artifact manifest: "@ + cause@,
                ),
            ),
            Ok(manifest) => manifest_and_bodies_fault(
                bytes,
                token,
                manifest@,
                length,
                expected_digest,
            ),
        }
    }
}

/// Why an artifact is not read whose header and manifest could be, if it is not.
pub open spec fn manifest_and_bodies_fault(
    bytes: Seq<u8>,
    token: Seq<u8>,
    manifest: ManifestView,
    length: nat,
    expected_digest: Seq<char>,
) -> Option<ErrorView> {
    let images = manifest.images;
    if manifest_fault(manifest, token) is Some {
        Some(artifact_failure(manifest_fault_message(manifest_fault(manifest, token)->0)))
    } else if body_fault(bytes, length, images, 0) is Some {
        Some(artifact_failure(body_fault(bytes, length, images, 0)->0))
    } else if bytes.len() > body_start(length, images, images.len() as int) {
        Some(artifact_failure("checkpoint artifact contains unmanifested trailing bytes"@))
    } else if digest_text(bytes) != expected_digest {
        Some(artifact_failure("checkpoint artifact digest differs from retained evidence"@))
    } else {
        None
    }
}

fn short_read() -> (error: Error)
    ensures
        error@ == short_read_failure(),
{
    crate::error::io_error(
        "read checkpoint artifact",
        "<pending>",
        crate::error::IoKind::UnexpectedEof,
        "failed to fill whole buffer",
    )
}

/// The encoded manifest inside an artifact, where the file holds all of it.
pub fn manifest_bytes(bytes: &[u8]) -> (encoded: Option<Vec<u8>>)
    ensures
        ({
            let length = spec_u64_from_le_bytes(bytes@.subrange(48, 56));
            match encoded {
                Some(found) => HEADER_BYTES + length <= bytes@.len() && found@ == bytes@.subrange(
                    HEADER_BYTES as int,
                    HEADER_BYTES + length,
                ),
                None => bytes@.len() < HEADER_BYTES || bytes@.len() < HEADER_BYTES + length,
            }
        }),
{
    if bytes.len() < HEADER_BYTES {
        return None;
    }
    let length: u64 = u64_from_le_bytes(vstd::slice::slice_subrange(bytes, 48, 56));
    if length > (bytes.len() - HEADER_BYTES) as u64 {
        return None;
    }
    Some(
        vstd::slice::slice_to_vec(
            vstd::slice::slice_subrange(bytes, HEADER_BYTES, HEADER_BYTES + length as usize),
        ),
    )
}

/// Reads a whole artifact that is held in memory, given what its manifest
/// decodes to.
pub fn read_artifact(
    bytes: &[u8],
    decoded: Result<CheckpointArtifactManifest, String>,
    expected_digest: String,
    expected_size: u64,
    token: [u8; 32],
) -> (result: Result<BuiltArtifact, Error>)
    ensures
        result is Ok <==> acceptable(
            bytes@,
            token@,
            decoded,
            expected_digest@,
            expected_size,
        ),
        result matches Ok(built) ==> built.manifest@ == decoded->Ok_0@ && built.digest@
            == expected_digest@ && built.size_bytes == expected_size,
        match result {
            Ok(_) => artifact_fault(
                bytes@,
                token@,
                decoded,
                expected_digest@,
                expected_size,
            ) is None,
            Err(error) => artifact_fault(
                bytes@,
                token@,
                decoded,
                expected_digest@,
                expected_size,
            ) == Some(error@),
        },
{
    let ghost wanted = expected_digest@;
    let reader = match HeaderReader::open(
        true,
        bytes.len() as u64,
        expected_digest,
        expected_size,
        token,
    ) {
        Ok(reader) => reader,
        Err(error) => return Err(error),
    };
    if bytes.len() < HEADER_BYTES {
        return Err(short_read());
    }
    let header = vstd::slice::slice_subrange(bytes, 0, HEADER_BYTES);
    proof {
        assert(header@.subrange(48, 56) =~= bytes@.subrange(48, 56));
        assert(header@ =~= bytes@.take(HEADER_BYTES as int));
    }
    let ghost length = spec_u64_from_le_bytes(bytes@.subrange(48, 56)) as nat;
    let reader = match reader.header(header) {
        Ok(reader) => reader,
        Err(error) => {
            proof {
                if bytes@.take(HEADER_BYTES as int) == artifact_header(token@, length) {
                    lemma_auto_spec_u64_to_from_le_bytes();
                    assert(ownership_header(token@) =~= header@.subrange(0, 48));
                }
            }
            return Err(error);
        },
    };
    let manifest_length: usize = reader.manifest_length();
    if bytes.len() - HEADER_BYTES < manifest_length {
        proof {
            if decoded is Ok {
                assert(bodies_length(decoded->Ok_0@.images.take(decoded->Ok_0@.images.len() as int)) >= 0);
            }
        }
        return Err(short_read());
    }
    let mut next: usize = HEADER_BYTES + manifest_length;
    let encoded = vstd::slice::slice_subrange(bytes, HEADER_BYTES, next);
    let mut reader = match reader.manifest(encoded, decoded) {
        Ok(reader) => reader,
        Err(error) => return Err(error),
    };
    let ghost images = reader.manifest_view().images;
    let ghost manifest = reader.manifest_view();
    let ghost expectation = reader.expectation();
    assert(reader.consumed() =~= bytes@.take(next as int));
    while !reader.is_complete()
        invariant
            reader.wf(),
            images == manifest.images,
            reader.manifest_view() == manifest,
            reader.expectation() == expectation,
            expectation.0 == token@,
            reader.length() == length,
            next <= bytes@.len(),
            reader.consumed() == bytes@.take(next as int),
            0 <= reader.position() <= images.len(),
            decoded matches Ok(found) && found@ == manifest,
            bytes@.len() >= HEADER_BYTES,
            length == spec_u64_from_le_bytes(bytes@.subrange(48, 56)),
            reader.position() < images.len() ==> reader.left() == images[reader.position()].size_bytes,
            body_fault(bytes@, length, images, 0) == body_fault(
                bytes@,
                length,
                images,
                reader.position(),
            ),
            artifact_fault(bytes@, token@, decoded, expectation.1, expected_size)
                == manifest_and_bodies_fault(bytes@, token@, manifest, length, expectation.1),
            expectation.1 == wanted,
        decreases images.len() - reader.position(),
    {
        let ghost index = reader.position();
        proof {
            bodies_length_step(images, index);
        }
        let (name, remaining) = match reader.current() {
            Some(current) => current,
            None => return Err(short_read()),
        };
        if remaining > 0 {
            let available: usize = bytes.len() - next;
            let taken: usize = copy_limit(remaining, available);
            let part = vstd::slice::slice_subrange(bytes, next, next + taken);
            let ghost started = reader;
            reader = match reader.chunk(part) {
                Ok(reader) => reader,
                Err(error) => {
                    proof {
                        assert(bytes@.take(next as int) =~= bytes@);
                        truncated_is_not_framed(started);
                    }
                    return Err(error);
                },
            };
            next = next + taken;
            assert(reader.consumed() =~= bytes@.take(next as int));
            if (taken as u64) < remaining {
                let empty: Vec<u8> = Vec::new();
                let ghost stuck = reader;
                match reader.chunk(&empty) {
                    Ok(again) => {
                        return Err(short_read());
                    },
                    Err(error) => {
                        proof {
                            assert(bytes@.take(next as int) =~= bytes@);
                            truncated_is_not_framed(stuck);
                        }
                        return Err(error);
                    },
                }
            }
        }
        let ghost before = reader;
        reader = match reader.close_image() {
            Ok(reader) => reader,
            Err(error) => {
                proof {
                    wrong_body_is_not_framed(before, bytes@);
                    assert(body_of(bytes@, length, images, index) =~= body_of(
                        before.consumed(),
                        length,
                        images,
                        index,
                    ));
                }
                return Err(error);
            },
        };
        proof {
            assert(body_of(bytes@, length, images, index) =~= body_of(
                before.consumed(),
                length,
                images,
                index,
            ));
        }
    }
    let ghost done = reader;
    proof {
        complete_reader_is_at_end(done);
        assert(images.take(images.len() as int) =~= images);
    }
    let trailing = next < bytes.len();
    if !trailing {
        assert(bytes@.take(next as int) =~= bytes@);
    }
    reader.finish(trailing)
}

/// Image bodies that have the sizes and digests a manifest lists.
pub open spec fn bodies_listed(bodies: Seq<Seq<u8>>, images: Seq<ImageView>) -> bool {
    &&& bodies.len() == images.len()
    &&& forall|i: int|
        0 <= i < bodies.len() ==> (#[trigger] bodies[i]).len() == images[i].size_bytes
            && digest_text(bodies[i]) == images[i].digest
}

proof fn concatenated_length(bodies: Seq<Seq<u8>>, images: Seq<ImageView>)
    requires
        bodies_listed(bodies, images),
    ensures
        concatenated(bodies).len() == bodies_length(images),
    decreases bodies.len(),
{
    if bodies.len() > 0 {
        let shorter = bodies.drop_last();
        let fewer = images.drop_last();
        assert forall|i: int| 0 <= i < shorter.len() implies (#[trigger] shorter[i]).len()
            == fewer[i].size_bytes && digest_text(shorter[i]) == fewer[i].digest by {
            assert(shorter[i] == bodies[i]);
        }
        concatenated_length(shorter, fewer);
        assert(bodies.last() == bodies[bodies.len() - 1]);
    }
}

proof fn concatenated_part(bodies: Seq<Seq<u8>>, images: Seq<ImageView>, index: int)
    requires
        bodies_listed(bodies, images),
        0 <= index < bodies.len(),
    ensures
        bodies_length(images.take(index)) + bodies[index].len() <= concatenated(bodies).len(),
        concatenated(bodies).subrange(
            bodies_length(images.take(index)) as int,
            (bodies_length(images.take(index)) + bodies[index].len()) as int,
        ) == bodies[index],
    decreases bodies.len(),
{
    let shorter = bodies.drop_last();
    let fewer = images.drop_last();
    assert forall|i: int| 0 <= i < shorter.len() implies (#[trigger] shorter[i]).len()
        == fewer[i].size_bytes && digest_text(shorter[i]) == fewer[i].digest by {
        assert(shorter[i] == bodies[i]);
    }
    concatenated_length(shorter, fewer);
    let start = bodies_length(images.take(index)) as int;
    let end = start + bodies[index].len();
    if index == bodies.len() - 1 {
        assert(images.take(index) =~= fewer);
        assert(concatenated(bodies).subrange(start, end) =~= bodies[index]);
    } else {
        concatenated_part(shorter, fewer, index);
        assert(fewer.take(index) =~= images.take(index));
        assert(concatenated(bodies).subrange(start, end) =~= concatenated(shorter).subrange(
            start,
            end,
        ));
    }
}

/// An artifact made of a header, a manifest and the bodies that the manifest
/// lists is framed, so whoever reads it back finds what was put in.
pub proof fn packaged_artifact_is_framed(
    token: Seq<u8>,
    manifest: Seq<u8>,
    bodies: Seq<Seq<u8>>,
    images: Seq<ImageView>,
)
    requires
        token.len() == 32,
        1 <= manifest.len() <= MAX_MANIFEST_BYTES,
        bodies_listed(bodies, images),
    ensures
        framed(artifact_bytes(token, manifest, bodies), token, manifest.len(), images),
        artifact_bytes(token, manifest, bodies).subrange(
            HEADER_BYTES as int,
            (HEADER_BYTES + manifest.len()) as int,
        ) == manifest,
        forall|i: int|
            0 <= i < images.len() ==> #[trigger] body_of(
                artifact_bytes(token, manifest, bodies),
                manifest.len(),
                images,
                i,
            ) == bodies[i],
{
    let bytes = artifact_bytes(token, manifest, bodies);
    let header = artifact_header(token, manifest.len());
    lemma_auto_spec_u64_to_from_le_bytes();
    assert(header.len() == HEADER_BYTES);
    concatenated_length(bodies, images);
    assert(images.take(images.len() as int) =~= images);
    assert(bytes.take(HEADER_BYTES as int) =~= header);
    assert(bytes.subrange(HEADER_BYTES as int, (HEADER_BYTES + manifest.len()) as int)
        =~= manifest);
    assert forall|i: int| 0 <= i < images.len() implies #[trigger] body_of(
        bytes,
        manifest.len(),
        images,
        i,
    ) == bodies[i] by {
        concatenated_part(bodies, images, i);
        bodies_length_step(images, i);
        let start = bodies_length(images.take(i)) as int;
        let end = start + bodies[i].len();
        assert(body_of(bytes, manifest.len(), images, i) =~= concatenated(bodies).subrange(
            start,
            end,
        ));
    }
}

/// What was packaged with a valid manifest is accepted under its own digest and
/// size.
pub proof fn packaged_artifact_is_accepted(
    token: Seq<u8>,
    encoded: Seq<u8>,
    manifest: CheckpointArtifactManifest,
    bodies: Seq<Seq<u8>>,
)
    requires
        token.len() == 32,
        1 <= encoded.len() <= MAX_MANIFEST_BYTES,
        manifest_fault(manifest@, token) is None,
        bodies_listed(bodies, manifest@.images),
        artifact_bytes(token, encoded, bodies).len() <= u64::MAX,
    ensures
        acceptable(
            artifact_bytes(token, encoded, bodies),
            token,
            Ok(manifest),
            digest_text(artifact_bytes(token, encoded, bodies)),
            artifact_bytes(token, encoded, bodies).len() as u64,
        ),
{
    let bytes = artifact_bytes(token, encoded, bodies);
    packaged_artifact_is_framed(token, encoded, bodies, manifest@.images);
    lemma_auto_spec_u64_to_from_le_bytes();
    let header = artifact_header(token, encoded.len());
    assert(bytes.take(HEADER_BYTES as int) == header);
    assert(bytes.subrange(48, 56) =~= header.subrange(48, 56));
    assert(header.subrange(48, 56) =~= spec_u64_to_le_bytes(encoded.len() as u64));
}

/// A framed artifact holds its header, a manifest and the listed bodies, and
/// not one byte more.
pub proof fn framed_artifact_is_its_parts(
    bytes: Seq<u8>,
    token: Seq<u8>,
    manifest_length: nat,
    images: Seq<ImageView>,
)
    requires
        token.len() == 32,
        framed(bytes, token, manifest_length, images),
    ensures
        bytes == artifact_bytes(
            token,
            bytes.subrange(HEADER_BYTES as int, (HEADER_BYTES + manifest_length) as int),
            Seq::new(images.len(), |i: int| body_of(bytes, manifest_length, images, i)),
        ),
{
    let bodies = Seq::new(images.len(), |i: int| body_of(bytes, manifest_length, images, i));
    let base = HEADER_BYTES + manifest_length;
    assert(images.take(images.len() as int) =~= images);
    assert forall|i: int| 0 <= i <= images.len() implies #[trigger] bytes.subrange(
        base as int,
        base + bodies_length(images.take(i)),
    ) == concatenated(bodies.take(i)) by {
        framed_prefix(bytes, manifest_length, images, bodies, i);
    }
    assert(bodies.take(images.len() as int) =~= bodies);
    let manifest = bytes.subrange(HEADER_BYTES as int, base as int);
    assert(bytes.subrange(base as int, base + bodies_length(images.take(images.len() as int)))
        == concatenated(bodies));
    assert(bytes =~= bytes.take(HEADER_BYTES as int) + manifest + concatenated(bodies));
}

proof fn framed_prefix(
    bytes: Seq<u8>,
    manifest_length: nat,
    images: Seq<ImageView>,
    bodies: Seq<Seq<u8>>,
    upto: int,
)
    requires
        bytes.len() == body_start(manifest_length, images, images.len() as int),
        bodies == Seq::new(images.len(), |i: int| body_of(bytes, manifest_length, images, i)),
        0 <= upto <= images.len(),
    ensures
        bytes.subrange(
            HEADER_BYTES + manifest_length,
            HEADER_BYTES + manifest_length + bodies_length(images.take(upto)),
        ) == concatenated(bodies.take(upto)),
    decreases upto,
{
    let base = HEADER_BYTES + manifest_length;
    bodies_length_grows(images, upto, images.len() as int);
    if upto == 0 {
        assert(bytes.subrange(base, base + bodies_length(images.take(0))) =~= Seq::empty());
    } else {
        framed_prefix(bytes, manifest_length, images, bodies, upto - 1);
        bodies_length_step(images, upto - 1);
        assert(bodies.take(upto).drop_last() =~= bodies.take(upto - 1));
        let middle = base + bodies_length(images.take(upto - 1));
        let end = base + bodies_length(images.take(upto));
        assert(bytes.subrange(base, end) =~= bytes.subrange(base, middle) + bytes.subrange(
            middle,
            end,
        ));
    }
}

/// One artifact cannot belong to two tokens.
pub proof fn one_owner(start: Seq<u8>, first: Seq<u8>, second: Seq<u8>)
    requires
        first.len() == 32,
        second.len() == 32,
        ownership_header(first).is_prefix_of(start),
        ownership_header(second).is_prefix_of(start),
    ensures
        first == second,
{
    assert forall|i: int| 0 <= i < 32 implies first[i] == second[i] by {
        assert(ownership_header(first)[16 + i] == first[i]);
        assert(ownership_header(second)[16 + i] == second[i]);
    }
    assert(first =~= second);
}

/// An image is there in full, with the digest that the manifest lists.
spec fn body_there(bytes: Seq<u8>, manifest_length: nat, images: Seq<ImageView>, i: int) -> bool {
    bytes.len() >= body_start(manifest_length, images, i + 1) && digest_text(
        body_of(bytes, manifest_length, images, i),
    ) == images[i].digest
}

/// Reading stops at no image exactly where each one is there.
proof fn faultless_bodies(bytes: Seq<u8>, manifest_length: nat, images: Seq<ImageView>, index: int)
    requires
        0 <= index <= images.len(),
    ensures
        body_fault(bytes, manifest_length, images, index) is None <==> forall|i: int|
            index <= i < images.len() ==> #[trigger] body_there(bytes, manifest_length, images, i),
    decreases images.len() - index,
{
    if index < images.len() {
        faultless_bodies(bytes, manifest_length, images, index + 1);
        let there = body_there(bytes, manifest_length, images, index);
        let rest = body_fault(bytes, manifest_length, images, index + 1);
        assert(body_fault(bytes, manifest_length, images, index) is None <==> there && rest
            is None);
    }
}

proof fn bodies_start_in_order(manifest_length: nat, images: Seq<ImageView>, i: int, j: int)
    requires
        0 <= i <= j <= images.len(),
    ensures
        body_start(manifest_length, images, i) <= body_start(manifest_length, images, j),
        i < j ==> body_start(manifest_length, images, i + 1) == body_start(
            manifest_length,
            images,
            i,
        ) + images[i].size_bytes,
    decreases j - i,
{
    if i < j {
        assert(images.take(i + 1).drop_last() =~= images.take(i));
        assert(images.take(i + 1).last() == images[i]);
        if i + 1 < j {
            bodies_start_in_order(manifest_length, images, i + 1, j);
        }
    }
}

/// An artifact is read exactly where it is acceptable; every other one comes back with a
/// reason.
pub proof fn faultless_artifacts_are_acceptable(
    bytes: Seq<u8>,
    token: Seq<u8>,
    decoded: Result<CheckpointArtifactManifest, String>,
    expected_digest: Seq<char>,
    expected_size: u64,
)
    requires
        token.len() == 32,
    ensures
        artifact_fault(bytes, token, decoded, expected_digest, expected_size) is None
            <==> acceptable(bytes, token, decoded, expected_digest, expected_size),
{
    if bytes.len() >= HEADER_BYTES && decoded is Ok {
        lemma_auto_spec_u64_to_from_le_bytes();
        let word = bytes.subrange(48, 56);
        let length = spec_u64_from_le_bytes(word) as nat;
        let images = decoded->Ok_0@.images;
        let header = bytes.take(HEADER_BYTES as int);
        assert(spec_u64_to_le_bytes(spec_u64_from_le_bytes(word)) == word);
        assert(length as u64 == spec_u64_from_le_bytes(word));
        if ownership_header(token).is_prefix_of(header) {
            assert(header =~= artifact_header(token, length)) by {
                assert(header.take(48) =~= ownership_header(token));
                assert(header.skip(48) =~= word);
                assert(header =~= header.take(48) + header.skip(48));
            }
        } else if header == artifact_header(token, length) {
            assert(header.take(48) =~= ownership_header(token));
            assert(ownership_header(token).is_prefix_of(header));
        }
        faultless_bodies(bytes, length, images, 0);
        bodies_start_in_order(length, images, 0, images.len() as int);
        assert(images.take(0).len() == 0);
        assert(body_start(length, images, 0) == HEADER_BYTES + length);
        if bytes.len() >= body_start(length, images, images.len() as int) {
            assert forall|i: int| 0 <= i < images.len() implies #[trigger] body_there(
                bytes,
                length,
                images,
                i,
            ) == (digest_text(body_of(bytes, length, images, i)) == images[i].digest) by {
                bodies_start_in_order(length, images, i + 1, images.len() as int);
            }
            if bodies_match(bytes, length, images, images.len() as int) {
                assert forall|i: int| 0 <= i < images.len() implies #[trigger] body_there(
                    bytes,
                    length,
                    images,
                    i,
                ) by {
                    assert(digest_text(body_of(bytes, length, images, i)) == images[i].digest);
                }
            }
        }
        if body_fault(bytes, length, images, 0) is None {
            assert forall|i: int| 0 <= i < images.len() implies digest_text(
                #[trigger] body_of(bytes, length, images, i),
            ) == images[i].digest by {
                assert(body_there(bytes, length, images, i));
            }
            if images.len() > 0 {
                assert(body_there(bytes, length, images, images.len() - 1));
            }
        }
    }
}

/// An accepted artifact is whole: it has the size and the digest that were kept, starts
/// with the magic value and the token of its owner, names that token in its manifest, and
/// consists of the manifest and of one body of the listed size and digest for each image,
/// with nothing behind them.
pub proof fn accepted_artifacts_are_whole(
    bytes: Seq<u8>,
    token: Seq<u8>,
    decoded: Result<CheckpointArtifactManifest, String>,
    expected_digest: Seq<char>,
    expected_size: u64,
)
    requires
        token.len() == 32,
        acceptable(bytes, token, decoded, expected_digest, expected_size),
    ensures
        bytes.len() == expected_size,
        expected_size > 56,
        digest_text(bytes) == expected_digest,
        bytes.take(16) == artifact_magic(),
        bytes.subrange(16, 48) == token,
        decoded is Ok,
        decoded->Ok_0@.publication_token == hex_text(token),
        exists|encoded: Seq<u8>, bodies: Seq<Seq<u8>>|
            1 <= encoded.len() <= 4_194_304 && #[trigger] artifact_bytes(token, encoded, bodies)
                == bytes && bodies.len() == decoded->Ok_0@.images.len() && (forall|i: int|
                0 <= i < bodies.len() ==> (#[trigger] bodies[i]).len()
                    == decoded->Ok_0@.images[i].size_bytes && digest_text(bodies[i])
                    == decoded->Ok_0@.images[i].digest),
{
    let length = spec_u64_from_le_bytes(bytes.subrange(48, 56)) as nat;
    let images = decoded->Ok_0@.images;
    let header = artifact_header(token, length);
    lemma_auto_spec_u64_to_from_le_bytes();
    framed_artifact_is_its_parts(bytes, token, length, images);
    let encoded = bytes.subrange(HEADER_BYTES as int, (HEADER_BYTES + length) as int);
    let bodies = Seq::new(images.len(), |i: int| body_of(bytes, length, images, i));
    bodies_start_in_order(length, images, 0, images.len() as int);
    assert(body_start(length, images, 0) == HEADER_BYTES + length) by {
        assert(images.take(0).len() == 0);
    }
    assert(bytes.take(16) =~= header.take(16));
    assert(header.take(16) =~= artifact_magic());
    assert(bytes.subrange(16, 48) =~= header.subrange(16, 48));
    assert(header.subrange(16, 48) =~= token);
    assert forall|i: int| 0 <= i < bodies.len() implies (#[trigger] bodies[i]).len()
        == images[i].size_bytes && digest_text(bodies[i]) == images[i].digest by {
        bodies_start_in_order(length, images, i, images.len() as int);
        bodies_start_in_order(length, images, 0, i);
        bodies_start_in_order(length, images, i + 1, images.len() as int);
        assert(digest_text(body_of(bytes, length, images, i)) == images[i].digest);
    }
    assert(artifact_bytes(token, encoded, bodies) == bytes);
}

/// The first thing that is wrong decides what an artifact is refused with: its size, its
/// owner, then the length of its manifest; a refusal for what stands behind those comes
/// from an artifact in which they are right.
pub proof fn artifacts_are_refused_in_order(
    bytes: Seq<u8>,
    token: Seq<u8>,
    decoded: Result<CheckpointArtifactManifest, String>,
    expected_digest: Seq<char>,
    expected_size: u64,
)
    requires
        token.len() == 32,
    ensures
        ({
            let fault = artifact_fault(bytes, token, decoded, expected_digest, expected_size);
            &&& bytes.len() != expected_size || expected_size == 0 ==> fault is Some
                && fault->0.message
                == "checkpoint artifact is not a regular file with the expected positive size"@
            &&& bytes.len() == expected_size && bytes.len() >= 56 && !(bytes.take(16)
                == artifact_magic() && bytes.subrange(16, 48) == token) ==> fault is Some
                && fault->0.message
                == "checkpoint artifact magic or publication token does not match"@
            &&& fault matches Some(error) ==> error.operation == Some("native-linux-checkpoint"@)
                && !error.retryable && (error.code is FailedPrecondition || error.code
                is Unavailable)
        }),
{
    if bytes.len() >= HEADER_BYTES && ownership_header(token).is_prefix_of(
        bytes.take(HEADER_BYTES as int),
    ) {
        let header = bytes.take(HEADER_BYTES as int);
        assert(bytes.take(16) =~= header.take(48).take(16));
        assert(header.take(48) =~= ownership_header(token));
        assert(ownership_header(token).take(16) =~= artifact_magic());
        assert(bytes.subrange(16, 48) =~= header.take(48).skip(16));
        assert(ownership_header(token).skip(16) =~= token);
    }
}

} // verus!
