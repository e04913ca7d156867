//! What is sent to a container and read back from it.

use vstd::prelude::*;
use crate::linux_kvm_recovery_smoke::qualification::{base64_decoded, decode_base64};
use crate::marker::same_bytes;
use crate::text::{append_decimal, debug_text, decimal, quote};

verus! {

/// The file that outlives the host service.
pub fn retained_filesystem_path(nonce: &str) -> (path: String)
    ensures
        path@ == "/tmp/.a3s-oci-native-live-fs-"@ + nonce@ + ".bin"@,
{
    let mut path = "/tmp/.a3s-oci-native-live-fs-".to_owned();
    path.append(nonce);
    path.append(".bin");
    path
}

/// What the file that outlives the host service holds, as text.
pub open spec fn retained_text(nonce: Seq<char>) -> Seq<char> {
    "a3s-oci-native-live-fs-"@ + nonce + "\0binary\n"@
}

/// What the file that outlives the host service holds.
pub open spec fn retained_bytes(nonce: Seq<char>) -> Seq<u8> {
    vstd::utf8::encode_utf8(retained_text(nonce))
}

fn bytes_of(text: &str) -> (bytes: Vec<u8>)
    ensures
        bytes@ == vstd::utf8::encode_utf8(text@),
{
    let source = text.as_bytes();
    let mut bytes: Vec<u8> = Vec::new();
    let mut next: usize = 0;
    while next < source.len()
        invariant
            next <= source@.len(),
            bytes@ == source@.take(next as int),
        decreases source@.len() - next,
    {
        bytes.push(source[next]);
        assert(source@.take(next + 1) =~= source@.take(next as int).push(source@[next as int]));
        next = next + 1;
    }
    assert(source@.take(source@.len() as int) =~= source@);
    bytes
}

/// What the file that outlives the host service holds.
pub fn retained_filesystem_payload(nonce: &str) -> (bytes: Vec<u8>)
    ensures
        bytes@ == retained_bytes(nonce@),
{
    let mut text = "a3s-oci-native-live-fs-".to_owned();
    text.append(nonce);
    text.append("\0binary\n");
    bytes_of(&text)
}

/// Bytes as a base64 text in the standard alphabet.
pub uninterp spec fn base64_encoded(bytes: Seq<u8>) -> Seq<char>;

/// `base64::Engine::encode` with the standard engine writes bytes as a padded
/// base64 text in the standard alphabet, which depends on the bytes alone and
/// which the standard engine decodes to the same bytes.
#[verifier::external_body]
pub(crate) fn encode_base64(bytes: &[u8]) -> (text: String)
    ensures
        text@ == base64_encoded(bytes@),
        base64_decoded(text@) is Ok && base64_decoded(text@)->Ok_0 == bytes@,
{
    base64::Engine::encode(&base64::engine::general_purpose::STANDARD, bytes)
}

/// The text that uploads the file that outlives the host service.
pub fn retained_upload(nonce: &str) -> (text: String)
    ensures
        text@ == base64_encoded(retained_bytes(nonce@)),
        base64_decoded(text@) == Ok::<Seq<u8>, Seq<char>>(retained_bytes(nonce@)),
{
    encode_base64(&retained_filesystem_payload(nonce))
}

fn size_mismatch(words: &str, size: u64, expected: usize) -> (message: String)
    ensures
        message@ == words@ + decimal(size as nat) + " expected "@ + decimal(expected as nat),
{
    let mut message = words.to_owned();
    append_decimal(&mut message, size);
    message.append(" expected ");
    append_decimal(&mut message, expected as u64);
    message
}

/// What is wrong with the size that an upload reports, if anything.
pub open spec fn upload_fault(nonce: Seq<char>, size: u64) -> Option<Seq<char>> {
    if size == retained_bytes(nonce).len() {
        None
    } else {
        Some(
            "Live retained file upload size mismatch: got "@ + decimal(size as nat) + " expected "@
                + decimal(retained_bytes(nonce).len()),
        )
    }
}

/// Checks the size that an upload reports.
pub fn check_upload(nonce: &str, size: u64) -> (fault: Option<String>)
    ensures
        crate::text::optional_view(fault) == upload_fault(nonce@, size),
{
    let payload = retained_filesystem_payload(nonce);
    if size == payload.len() as u64 {
        None
    } else {
        Some(
            size_mismatch("Live retained file upload size mismatch: got ", size, payload.len()),
        )
    }
}

/// What is wrong with a download that was decoded, if anything.
pub open spec fn payload_fault(nonce: Seq<char>, data: Seq<u8>, size: u64) -> Option<Seq<char>> {
    if data != retained_bytes(nonce) {
        Some("Live retained file download did not match the pre-SIGKILL upload payload"@)
    } else if size != retained_bytes(nonce).len() {
        Some(
            "Live retained file download size mismatch: got "@ + decimal(size as nat)
                + " expected "@ + decimal(retained_bytes(nonce).len()),
        )
    } else {
        None
    }
}

/// Checks a download that was decoded.
pub fn check_payload(nonce: &str, data: &Vec<u8>, size: u64) -> (fault: Option<String>)
    ensures
        crate::text::optional_view(fault) == payload_fault(nonce@, data@, size),
{
    let payload = retained_filesystem_payload(nonce);
    if !same_bytes(data, &payload) {
        return Some(
            "Live retained file download did not match the pre-SIGKILL upload payload".to_owned(),
        );
    }
    if size != payload.len() as u64 {
        return Some(
            size_mismatch("Live retained file download size mismatch: got ", size, payload.len()),
        );
    }
    None
}

/// What is wrong with a download, if anything.
pub open spec fn download_fault(nonce: Seq<char>, data: Option<String>, size: u64) -> Option<
    Seq<char>,
> {
    match data {
        None => Some("Live retained file download omitted payload data"@),
        Some(text) => match base64_decoded(text@) {
            Err(cause) => Some("Live retained file download was not base64: "@ + cause),
            Ok(bytes) => payload_fault(nonce, bytes, size),
        },
    }
}

/// Checks a download.
pub fn check_download(nonce: &str, data: &Option<String>, size: u64) -> (fault: Option<String>)
    ensures
        crate::text::optional_view(fault) == download_fault(nonce@, *data, size),
{
    match data {
        None => Some("Live retained file download omitted payload data".to_owned()),
        Some(text) => match decode_base64(text) {
            Ok(bytes) => check_payload(nonce, &bytes, size),
            Err(cause) => {
                let mut message = "Live retained file download was not base64: ".to_owned();
                message.append(&cause);
                Some(message)
            },
        },
    }
}

/// A file that is downloaded as it was uploaded is accepted.
pub proof fn uploads_are_read_back(nonce: Seq<char>, text: String, size: u64)
    requires
        size == retained_bytes(nonce).len(),
    ensures
        upload_fault(nonce, size) is None,
        base64_decoded(text@) == Ok::<Seq<u8>, Seq<char>>(retained_bytes(nonce)) ==> download_fault(
            nonce,
            Some(text),
            size,
        ) is None,
{
}

/// A stream that a process writes to.
#[derive(Clone, Copy, Debug, PartialEq, Eq, Structural)]
pub enum OutputStream {
    Stdout,
    Stderr,
}

/// A piece of what a process has written.
#[derive(Clone, Debug)]
pub struct OutputChunk {
    pub stream: OutputStream,
    pub sequence: u64,
    pub data: Vec<u8>,
}

/// What a process has written to its output so far.
#[derive(Debug)]
pub struct Capture {
    /// The place up to which it was read.
    pub after_sequence: u64,
    pub buffer: Vec<u8>,
}

/// What pieces add to a buffer.
pub open spec fn collected(chunks: Seq<OutputChunk>) -> Seq<u8>
    decreases chunks.len(),
{
    if chunks.len() == 0 {
        Seq::empty()
    } else {
        let before = collected(chunks.drop_last());
        if chunks.last().stream is Stdout {
            before + chunks.last().data@
        } else {
            before
        }
    }
}

/// The place up to which a process was read, after some pieces.
pub open spec fn advanced(after: u64, chunks: Seq<OutputChunk>) -> u64
    decreases chunks.len(),
{
    if chunks.len() == 0 {
        after
    } else {
        let before = advanced(after, chunks.drop_last());
        if chunks.last().stream is Stdout && chunks.last().sequence > before {
            chunks.last().sequence
        } else {
            before
        }
    }
}

/// Whether bytes occur at a place.
pub open spec fn occurs_at(buffer: Seq<u8>, needle: Seq<u8>, place: int) -> bool {
    0 <= place && place + needle.len() <= buffer.len() && buffer.subrange(
        place,
        place + needle.len(),
    ) == needle
}

/// Whether bytes occur anywhere.
pub open spec fn occurs(buffer: Seq<u8>, needle: Seq<u8>) -> bool {
    exists|place: int| #[trigger] occurs_at(buffer, needle, place)
}

fn matches_at(buffer: &Vec<u8>, needle: &[u8], place: usize) -> (holds: bool)
    requires
        place + needle@.len() <= buffer@.len(),
    ensures
        holds == occurs_at(buffer@, needle@, place as int),
{
    let size = buffer.len();
    let mut next: usize = 0;
    while next < needle.len()
        invariant
            next <= needle@.len(),
            size == buffer@.len(),
            place + needle@.len() <= buffer@.len(),
            forall|i: int| 0 <= i < next ==> buffer@[place + i] == needle@[i],
        decreases needle@.len() - next,
    {
        if buffer[place + next] != needle[next] {
            proof {
                let window = buffer@.subrange(place as int, place + needle@.len());
                assert(window[next as int] != needle@[next as int]);
            }
            return false;
        }
        next = next + 1;
    }
    assert(buffer@.subrange(place as int, place + needle@.len()) =~= needle@);
    true
}

impl Capture {
    /// A capture of a process that was not read yet.
    pub fn new(after_sequence: u64) -> (capture: Capture)
        ensures
            capture.after_sequence == after_sequence,
            capture.buffer@.len() == 0,
    {
        Capture { after_sequence, buffer: Vec::new() }
    }

    /// Takes pieces of what the process has written. Only its output counts.
    pub fn absorb(&mut self, chunks: &Vec<OutputChunk>)
        ensures
            final(self).buffer@ == old(self).buffer@ + collected(chunks@),
            final(self).after_sequence == advanced(old(self).after_sequence, chunks@),
    {
        let mut buffer: Vec<u8> = Vec::new();
        buffer.append(&mut self.buffer);
        let mut after = self.after_sequence;
        let ghost start = buffer@;
        let mut next: usize = 0;
        proof {
            assert(chunks@.take(0) =~= Seq::empty());
            assert(buffer@ =~= start + collected(chunks@.take(0)));
            assert(start =~= old(self).buffer@);
        }
        while next < chunks.len()
            invariant
                next <= chunks@.len(),
                buffer@ == start + collected(chunks@.take(next as int)),
                after == advanced(old(self).after_sequence, chunks@.take(next as int)),
            decreases chunks@.len() - next,
        {
            let ghost longer = chunks@.take(next + 1);
            proof {
                assert(longer.drop_last() =~= chunks@.take(next as int));
            }
            let chunk = &chunks[next];
            if chunk.stream == OutputStream::Stdout {
                if chunk.sequence > after {
                    after = chunk.sequence;
                }
                let ghost before = buffer@;
                let mut place: usize = 0;
                while place < chunk.data.len()
                    invariant
                        place <= chunk.data@.len(),
                        buffer@ == before + chunk.data@.take(place as int),
                    decreases chunk.data@.len() - place,
                {
                    buffer.push(chunk.data[place]);
                    assert(chunk.data@.take(place + 1) =~= chunk.data@.take(place as int).push(
                        chunk.data@[place as int],
                    ));
                    place = place + 1;
                }
                assert(chunk.data@.take(chunk.data@.len() as int) =~= chunk.data@);
                assert(buffer@ =~= start + collected(longer));
            }
            next = next + 1;
        }
        assert(chunks@.take(chunks@.len() as int) =~= chunks@);
        self.buffer = buffer;
        self.after_sequence = after;
    }

    /// Whether a text occurs in what the process has written.
    pub fn observed(&self, needle: &str) -> (holds: bool)
        requires
            needle@.len() > 0,
        ensures
            holds == occurs(self.buffer@, vstd::utf8::encode_utf8(needle@)),
    {
        let bytes = needle.as_bytes();
        if bytes.len() > self.buffer.len() {
            return false;
        }
        let last = self.buffer.len() - bytes.len();
        let mut place: usize = 0;
        loop
            invariant
                place <= last,
                last == self.buffer@.len() - bytes@.len(),
                bytes@ == vstd::utf8::encode_utf8(needle@),
                forall|i: int| 0 <= i < place ==> !#[trigger] occurs_at(self.buffer@, bytes@, i),
            decreases last - place,
        {
            if matches_at(&self.buffer, bytes, place) {
                return true;
            }
            if place == last {
                return false;
            }
            place = place + 1;
        }
    }
}

/// The failure to see a text in time.
pub fn not_observed(needle: &str) -> (message: String)
    ensures
        message@ == "Live retained Capture stdout did not observe "@ + debug_text(needle@)
            + " within 15s"@,
{
    let mut message = "Live retained Capture stdout did not observe ".to_owned();
    message.append(&quote(needle));
    message.append(" within 15s");
    message
}

/// What was seen once stays seen, whatever the process writes after it.
pub proof fn observations_stay(buffer: Seq<u8>, more: Seq<u8>, needle: Seq<u8>)
    requires
        occurs(buffer, needle),
    ensures
        occurs(buffer + more, needle),
{
    let place = choose|place: int| #[trigger] occurs_at(buffer, needle, place);
    assert((buffer + more).subrange(place, place + needle.len()) =~= buffer.subrange(
        place,
        place + needle.len(),
    ));
    assert(occurs_at(buffer + more, needle, place));
}

/// A download is believed exactly where it decodes to the bytes that were uploaded and
/// reports their number.
pub proof fn downloads_are_the_uploaded_bytes(nonce: Seq<char>, data: Option<String>, size: u64)
    ensures
        download_fault(nonce, data, size) is None <==> data is Some && base64_decoded(data->0@)
            == Ok::<Seq<u8>, Seq<char>>(retained_bytes(nonce)) && size == retained_bytes(
            nonce,
        ).len(),
        upload_fault(nonce, size) is None <==> size == retained_bytes(nonce).len(),
{
}

/// What is read of a process is its standard output, piece by piece and in order, and
/// nothing of its other streams.
pub proof fn collected_output_is_standard_output(chunks: Seq<OutputChunk>, more: OutputChunk)
    ensures
        more.stream is Stdout ==> collected(chunks.push(more)) == collected(chunks) + more.data@,
        !(more.stream is Stdout) ==> collected(chunks.push(more)) == collected(chunks),
        collected(Seq::<OutputChunk>::empty()) == Seq::<u8>::empty(),
{
    assert(chunks.push(more).drop_last() =~= chunks);
    assert(chunks.push(more).last() == more);
}

/// A reader never goes back, and goes as far as the furthest piece of standard output
/// that it got.
pub proof fn readers_move_forward(after: u64, chunks: Seq<OutputChunk>)
    ensures
        advanced(after, chunks) >= after,
        forall|i: int|
            0 <= i < chunks.len() && (#[trigger] chunks[i]).stream is Stdout ==> chunks[i].sequence
                <= advanced(after, chunks),
        advanced(after, chunks) == after || exists|i: int|
            0 <= i < chunks.len() && (#[trigger] chunks[i]).stream is Stdout && chunks[i].sequence
                == advanced(after, chunks),
    decreases chunks.len(),
{
    if chunks.len() > 0 {
        let shorter = chunks.drop_last();
        readers_move_forward(after, shorter);
        assert(forall|i: int| 0 <= i < shorter.len() ==> #[trigger] shorter[i] == chunks[i]);
        assert(chunks[chunks.len() - 1] == chunks.last());
        assert forall|i: int|
            0 <= i < chunks.len() && (#[trigger] chunks[i]).stream is Stdout implies
            chunks[i].sequence <= advanced(after, chunks) by {
            if i < shorter.len() {
                assert(shorter[i].sequence <= advanced(after, shorter));
            }
        }
        if advanced(after, chunks) == advanced(after, shorter) && advanced(after, shorter)
            != after {
            let i = choose|i: int|
                0 <= i < shorter.len() && (#[trigger] shorter[i]).stream is Stdout
                    && shorter[i].sequence == advanced(after, shorter);
            assert(chunks[i].sequence == advanced(after, chunks));
        }
    }
}

/// The file that has to outlive its service is told apart by the nonce of its attempt.
pub proof fn retained_files_are_told_apart(first: Seq<char>, second: Seq<char>)
    requires
        retained_text(first) == retained_text(second),
    ensures
        first == second,
{
    let prefix = "a3s-oci-native-live-fs-"@;
    let tail = "\0binary\n"@;
    assert(retained_text(first).len() == prefix.len() + first.len() + tail.len());
    assert(retained_text(second).len() == prefix.len() + second.len() + tail.len());
    assert(first =~= retained_text(first).subrange(
        prefix.len() as int,
        (prefix.len() + first.len()) as int,
    ));
    assert(second =~= retained_text(second).subrange(
        prefix.len() as int,
        (prefix.len() + second.len()) as int,
    ));
}

/// Bytes occur in others exactly where these are something, the bytes and something.
pub proof fn occurrences_are_parts(before: Seq<u8>, needle: Seq<u8>, after: Seq<u8>)
    ensures
        occurs(before + needle + after, needle),
        forall|buffer: Seq<u8>, place: int| #[trigger]
            occurs_at(buffer, needle, place) ==> buffer == buffer.take(place) + needle
                + buffer.skip(place + needle.len()) && buffer.len() >= needle.len(),
{
    let buffer = before + needle + after;
    let place = before.len() as int;
    assert(buffer.subrange(place, place + needle.len()) =~= needle);
    assert(occurs_at(buffer, needle, place));
    assert forall|buffer: Seq<u8>, place: int| #[trigger] occurs_at(
        buffer,
        needle,
        place,
    ) implies buffer == buffer.take(place) + needle + buffer.skip(place + needle.len())
        && buffer.len() >= needle.len() by {
        assert(buffer =~= buffer.take(place) + buffer.subrange(place, place + needle.len())
            + buffer.skip(place + needle.len()));
    }
}

} // verus!
