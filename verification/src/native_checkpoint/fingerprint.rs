//! What a request is known by: a digest of all that it asks for, under which a
//! repeated request is told from another one of the same operation.

use vstd::prelude::*;
use crate::digest::{digest_text, is_sha256_digest, sha256_digest};
use crate::error::{checkpoint_error, Error, ErrorCode};
use crate::json::{
    from_value, members_content, parsed_text, put_member, read_text, to_value, write_text,
    written_text, Json, JsonView, Member,
};
use crate::native_checkpoint::source::{CHECKPOINT_REQUEST_SCHEMA_V1, RESTORE_REQUEST_SCHEMA_V1};

verus! {

/// The parts of a checkpoint request, each as the document that the caller's
/// protocol writes for it.
#[derive(Clone, Debug)]
pub struct CheckpointFingerprint {
    pub context: String,
    pub source: String,
    pub artifact_path: String,
    pub runtime_artifact: String,
}

/// The parts of a restore request, each as the document that the caller's protocol
/// writes for it.
#[derive(Clone, Debug)]
pub struct RestoreFingerprint {
    pub context: String,
    pub target: String,
    pub bundle: String,
    pub artifact_path: String,
    pub isolation: String,
    pub io: String,
    pub attachment_contract: String,
    pub tee_launch: String,
    pub reference: String,
    pub runtime_artifact: String,
    pub agent_request: String,
}

/// The names of parts, each with its document.
pub open spec fn named_parts(parts: Seq<(&str, &str)>) -> Seq<(Seq<char>, Seq<char>)> {
    Seq::new(parts.len(), |i: int| (parts[i].0@, parts[i].1@))
}

/// The members of an object that got parts under their names, or why one of the
/// parts says nothing.
pub open spec fn with_parts(
    members: Map<Seq<char>, JsonView>,
    parts: Seq<(Seq<char>, Seq<char>)>,
) -> Result<Map<Seq<char>, JsonView>, Seq<char>>
    decreases parts.len(),
{
    if parts.len() == 0 {
        Ok(members)
    } else {
        match parsed_text(parts[0].1) {
            Ok(document) => with_parts(
                members.insert(parts[0].0, document),
                parts.subrange(1, parts.len() as int),
            ),
            Err(cause) => Err(cause),
        }
    }
}

/// The digest of a request, or why it has none: that of the one line of text that
/// holds its schema and its parts.
pub open spec fn request_digest(
    schema: Seq<char>,
    parts: Seq<(Seq<char>, Seq<char>)>,
) -> Result<Seq<char>, Seq<char>> {
    let start = Map::<Seq<char>, JsonView>::empty().insert(
        "schemaVersion"@,
        JsonView::Text(schema),
    );
    match with_parts(start, parts) {
        Ok(members) => match written_text(JsonView::Object(members)) {
            Ok(text) => Ok(digest_text(vstd::utf8::encode_utf8(text))),
            Err(cause) => Err(cause),
        },
        Err(cause) => Err(cause),
    }
}

fn digest_request(schema: &str, parts: &Vec<(&str, &str)>) -> (result: Result<String, String>)
    ensures
        match request_digest(schema@, named_parts(parts@)) {
            Ok(digest) => result matches Ok(text) && text@ == digest && is_sha256_digest(digest),
            Err(cause) => result matches Err(message) && message@ == cause,
        },
{
    let ghost all = named_parts(parts@);
    let none: Vec<Member> = Vec::new();
    let mut members = put_member(none, "schemaVersion", Json::Text(schema.to_owned()));
    let ghost start = Map::<Seq<char>, JsonView>::empty().insert(
        "schemaVersion"@,
        JsonView::Text(schema@),
    );
    assert(members_content(members@) =~= start);
    let mut next: usize = 0;
    assert(all.subrange(0, all.len() as int) =~= all);
    while next < parts.len()
        invariant
            next <= parts@.len(),
            all == named_parts(parts@),
            start == Map::<Seq<char>, JsonView>::empty().insert(
                "schemaVersion"@,
                JsonView::Text(schema@),
            ),
            with_parts(start, all) == with_parts(
                members_content(members@),
                all.subrange(next as int, all.len() as int),
            ),
        decreases parts@.len() - next,
    {
        let (name, text) = parts[next];
        let ghost left = all.subrange(next as int, all.len() as int);
        assert(left[0] == (name@, text@));
        assert(left.subrange(1, left.len() as int) =~= all.subrange(next + 1, all.len() as int));
        match read_text(text) {
            Ok(value) => {
                members = put_member(members, name, from_value(&value));
            },
            Err(cause) => return Err(cause),
        }
        next = next + 1;
    }
    let document = Json::Object(members);
    match write_text(&to_value(&document)) {
        Ok(text) => Ok(sha256_digest(text.as_str().as_bytes())),
        Err(cause) => Err(cause),
    }
}

fn undigested(words: &str, cause: &str) -> (error: Error)
    ensures
        error.is_checkpoint(ErrorCode::Internal, words@ + cause@),
{
    let mut message = words.to_owned();
    message.append(cause);
    checkpoint_error(ErrorCode::Internal, &message)
}

impl CheckpointFingerprint {
    /// The parts under their names.
    pub open spec fn parts(self) -> Seq<(Seq<char>, Seq<char>)> {
        seq![
            ("context"@, self.context@),
            ("source"@, self.source@),
            ("artifactPath"@, self.artifact_path@),
            ("runtimeArtifact"@, self.runtime_artifact@),
        ]
    }

    /// The digest that the request is known by.
    pub fn digest(&self) -> (result: Result<String, Error>)
        ensures
            match request_digest(CHECKPOINT_REQUEST_SCHEMA_V1@, self.parts()) {
                Ok(digest) => result matches Ok(text) && text@ == digest && is_sha256_digest(
                    digest,
                ),
                Err(cause) => result matches Err(error) && error.is_checkpoint(
                    ErrorCode::Internal,
                    "failed to encode checkpoint request fingerprint: "@ + cause,
                ),
            },
    {
        let mut parts: Vec<(&str, &str)> = Vec::new();
        parts.push(("context", self.context.as_str()));
        parts.push(("source", self.source.as_str()));
        parts.push(("artifactPath", self.artifact_path.as_str()));
        parts.push(("runtimeArtifact", self.runtime_artifact.as_str()));
        assert(named_parts(parts@) =~= self.parts());
        match digest_request(CHECKPOINT_REQUEST_SCHEMA_V1, &parts) {
            Ok(digest) => Ok(digest),
            Err(cause) => Err(
                undigested("failed to encode checkpoint request fingerprint: ", &cause),
            ),
        }
    }
}

impl RestoreFingerprint {
    /// The parts under their names.
    pub open spec fn parts(self) -> Seq<(Seq<char>, Seq<char>)> {
        seq![
            ("context"@, self.context@),
            ("target"@, self.target@),
            ("bundle"@, self.bundle@),
            ("artifactPath"@, self.artifact_path@),
            ("isolation"@, self.isolation@),
            ("io"@, self.io@),
            ("attachmentContract"@, self.attachment_contract@),
            ("teeLaunch"@, self.tee_launch@),
            ("reference"@, self.reference@),
            ("runtimeArtifact"@, self.runtime_artifact@),
            ("agentRequest"@, self.agent_request@),
        ]
    }

    /// The digest that the request is known by.
    pub fn digest(&self) -> (result: Result<String, Error>)
        ensures
            match request_digest(RESTORE_REQUEST_SCHEMA_V1@, self.parts()) {
                Ok(digest) => result matches Ok(text) && text@ == digest && is_sha256_digest(
                    digest,
                ),
                Err(cause) => result matches Err(error) && error.is_checkpoint(
                    ErrorCode::Internal,
                    "failed to encode native restore request fingerprint: "@ + cause,
                ),
            },
    {
        let mut parts: Vec<(&str, &str)> = Vec::new();
        parts.push(("context", self.context.as_str()));
        parts.push(("target", self.target.as_str()));
        parts.push(("bundle", self.bundle.as_str()));
        parts.push(("artifactPath", self.artifact_path.as_str()));
        parts.push(("isolation", self.isolation.as_str()));
        parts.push(("io", self.io.as_str()));
        parts.push(("attachmentContract", self.attachment_contract.as_str()));
        parts.push(("teeLaunch", self.tee_launch.as_str()));
        parts.push(("reference", self.reference.as_str()));
        parts.push(("runtimeArtifact", self.runtime_artifact.as_str()));
        parts.push(("agentRequest", self.agent_request.as_str()));
        assert(named_parts(parts@) =~= self.parts());
        match digest_request(RESTORE_REQUEST_SCHEMA_V1, &parts) {
            Ok(digest) => Ok(digest),
            Err(cause) => Err(
                undigested("failed to encode native restore request fingerprint: ", &cause),
            ),
        }
    }
}

/// Parts under different names all come to stand in the document: each name holds what
/// its part says, and nothing that was there before is lost.
proof fn parts_stay(
    members: Map<Seq<char>, JsonView>,
    parts: Seq<(Seq<char>, Seq<char>)>,
)
    requires
        forall|i: int, j: int|
            0 <= i < j < parts.len() ==> (#[trigger] parts[i]).0 != (#[trigger] parts[j]).0,
    ensures
        with_parts(members, parts) is Ok <==> forall|i: int|
            0 <= i < parts.len() ==> parsed_text((#[trigger] parts[i]).1) is Ok,
        with_parts(members, parts) matches Ok(all) ==> {
            &&& forall|i: int|
                0 <= i < parts.len() ==> all.contains_key((#[trigger] parts[i]).0)
                    && all[parts[i].0] == parsed_text(parts[i].1)->Ok_0
            &&& forall|name: Seq<char>|
                (forall|i: int| 0 <= i < parts.len() ==> (#[trigger] parts[i]).0 != name) ==> (
                #[trigger] all.contains_key(name) <==> members.contains_key(name)) && (
                members.contains_key(name) ==> all[name] == members[name])
        },
    decreases parts.len(),
{
    if parts.len() > 0 {
        let rest = parts.subrange(1, parts.len() as int);
        assert(forall|i: int| 0 <= i < rest.len() ==> #[trigger] rest[i] == parts[i + 1]);
        if parsed_text(parts[0].1) is Ok {
            let more = members.insert(parts[0].0, parsed_text(parts[0].1)->Ok_0);
            parts_stay(more, rest);
            if with_parts(members, parts) is Ok {
                let all = with_parts(members, parts)->Ok_0;
                assert forall|i: int| 0 <= i < parts.len() implies all.contains_key(
                    (#[trigger] parts[i]).0,
                ) && all[parts[i].0] == parsed_text(parts[i].1)->Ok_0 && parsed_text(
                    parts[i].1,
                ) is Ok by {
                    if i > 0 {
                        assert(rest[i - 1] == parts[i]);
                    } else {
                        assert(forall|k: int|
                            0 <= k < rest.len() ==> (#[trigger] rest[k]).0 != parts[0].0);
                        assert(more.contains_key(parts[0].0));
                        assert(all.contains_key(parts[0].0));
                    }
                }
                assert forall|name: Seq<char>|
                    (forall|i: int| 0 <= i < parts.len() ==> (#[trigger] parts[i]).0
                        != name) implies (#[trigger] all.contains_key(name)
                    <==> members.contains_key(name)) && (members.contains_key(name) ==> all[name]
                    == members[name]) by {
                    assert(parts[0].0 != name);
                    assert(forall|k: int|
                        0 <= k < rest.len() ==> (#[trigger] rest[k]).0 != name);
                }
            } else {
                let k = choose|k: int|
                    0 <= k < rest.len() && !(parsed_text((#[trigger] rest[k]).1) is Ok);
                assert(parts[k + 1] == rest[k]);
            }
        }
    }
}

/// The digest of a request covers all of it: the document that is digested holds the
/// schema and every named part, so that a request which differs in a part is digested
/// over another document.
proof fn digests_cover_their_parts(schema: Seq<char>, parts: Seq<(Seq<char>, Seq<char>)>)
    requires
        forall|i: int, j: int|
            0 <= i < j < parts.len() ==> (#[trigger] parts[i]).0 != (#[trigger] parts[j]).0,
        forall|i: int| 0 <= i < parts.len() ==> (#[trigger] parts[i]).0 != "schemaVersion"@,
    ensures
        request_digest(schema, parts) matches Ok(digest) ==> exists|members: Map<
            Seq<char>,
            JsonView,
        >|
            {
                &&& #[trigger] written_text(JsonView::Object(members)) is Ok
                &&& digest == digest_text(
                    vstd::utf8::encode_utf8(written_text(JsonView::Object(members))->Ok_0),
                )
                &&& members.contains_key("schemaVersion"@)
                &&& members["schemaVersion"@] == JsonView::Text(schema)
                &&& forall|i: int|
                    0 <= i < parts.len() ==> members.contains_key((#[trigger] parts[i]).0)
                        && parsed_text(parts[i].1) == Ok::<JsonView, Seq<char>>(
                        members[parts[i].0],
                    )
                &&& forall|name: Seq<char>| #[trigger]
                    members.contains_key(name) ==> name == "schemaVersion"@ || exists|i: int|
                        0 <= i < parts.len() && (#[trigger] parts[i]).0 == name
            },
{
    let start = Map::<Seq<char>, JsonView>::empty().insert(
        "schemaVersion"@,
        JsonView::Text(schema),
    );
    parts_stay(start, parts);
    if request_digest(schema, parts) is Ok {
        let members = with_parts(start, parts)->Ok_0;
        assert(written_text(JsonView::Object(members)) is Ok);
        assert(start.contains_key("schemaVersion"@));
        assert(members.contains_key("schemaVersion"@));
        assert forall|name: Seq<char>| #[trigger] members.contains_key(name) implies name
            == "schemaVersion"@ || exists|i: int|
            0 <= i < parts.len() && (#[trigger] parts[i]).0 == name by {
            if !(exists|i: int| 0 <= i < parts.len() && (#[trigger] parts[i]).0 == name) {
                assert(start.contains_key(name));
            }
        }
    }
}

/// The digest of a checkpoint request is over a document of its schema, its context, its
/// source, the path of its artifact and its runtime, each as the request gives it.
pub proof fn checkpoint_digests_cover_the_request(request: CheckpointFingerprint)
    ensures
        request_digest("a3s.oci.native-checkpoint-request.v1"@, request.parts()) matches Ok(
            digest,
        ) ==> exists|members: Map<Seq<char>, JsonView>|
            {
                &&& #[trigger] written_text(JsonView::Object(members)) is Ok
                &&& digest == digest_text(
                    vstd::utf8::encode_utf8(written_text(JsonView::Object(members))->Ok_0),
                )
                &&& members.dom() == set![
                    "schemaVersion"@,
                    "context"@,
                    "source"@,
                    "artifactPath"@,
                    "runtimeArtifact"@,
                ]
                &&& members["schemaVersion"@] == JsonView::Text(
                    "a3s.oci.native-checkpoint-request.v1"@,
                )
                &&& parsed_text(request.context@) == Ok::<JsonView, Seq<char>>(members["context"@])
                &&& parsed_text(request.source@) == Ok::<JsonView, Seq<char>>(members["source"@])
                &&& parsed_text(request.artifact_path@) == Ok::<JsonView, Seq<char>>(
                    members["artifactPath"@],
                )
                &&& parsed_text(request.runtime_artifact@) == Ok::<JsonView, Seq<char>>(
                    members["runtimeArtifact"@],
                )
            },
{
    let schema = "a3s.oci.native-checkpoint-request.v1"@;
    let parts = request.parts();
    reveal_strlit("schemaVersion");
    reveal_strlit("context");
    reveal_strlit("source");
    reveal_strlit("artifactPath");
    reveal_strlit("runtimeArtifact");
    assert(parts[0].0 == "context"@);
    assert(parts[1].0 == "source"@);
    assert(parts[2].0 == "artifactPath"@);
    assert(parts[3].0 == "runtimeArtifact"@);
    assert forall|i: int, j: int| 0 <= i < j < parts.len() implies (#[trigger] parts[i]).0 != (
    #[trigger] parts[j]).0 by {
        assert(i == 0 || i == 1 || i == 2 || i == 3);
        assert(j == 0 || j == 1 || j == 2 || j == 3);
    }
    digests_cover_their_parts(schema, parts);
    if request_digest(schema, parts) is Ok {
        let members = choose|members: Map<Seq<char>, JsonView>|
            {
                &&& #[trigger] written_text(JsonView::Object(members)) is Ok
                &&& request_digest(schema, parts)->Ok_0 == digest_text(
                    vstd::utf8::encode_utf8(written_text(JsonView::Object(members))->Ok_0),
                )
                &&& members.contains_key("schemaVersion"@)
                &&& members["schemaVersion"@] == JsonView::Text(schema)
                &&& forall|i: int|
                    0 <= i < parts.len() ==> members.contains_key((#[trigger] parts[i]).0)
                        && parsed_text(parts[i].1) == Ok::<JsonView, Seq<char>>(
                        members[parts[i].0],
                    )
                &&& forall|name: Seq<char>| #[trigger]
                    members.contains_key(name) ==> name == "schemaVersion"@ || exists|i: int|
                        0 <= i < parts.len() && (#[trigger] parts[i]).0 == name
            };
        assert(members.contains_key(parts[0].0));
        assert(members.contains_key(parts[1].0));
        assert(members.contains_key(parts[2].0));
        assert(members.contains_key(parts[3].0));
        assert(members.dom() =~= set![
            "schemaVersion"@,
            "context"@,
            "source"@,
            "artifactPath"@,
            "runtimeArtifact"@,
        ]);
        assert(written_text(JsonView::Object(members)) is Ok);
    }
}

/// The digest of a restore request is over a document of its schema and of all eleven of
/// its parts, each as the request gives it.
pub proof fn restore_digests_cover_the_request(request: RestoreFingerprint)
    ensures
        request_digest("a3s.oci.native-restore-request.v1"@, request.parts()) matches Ok(
            digest,
        ) ==> exists|members: Map<Seq<char>, JsonView>|
            {
                &&& #[trigger] written_text(JsonView::Object(members)) is Ok
                &&& digest == digest_text(
                    vstd::utf8::encode_utf8(written_text(JsonView::Object(members))->Ok_0),
                )
                &&& members["schemaVersion"@] == JsonView::Text(
                    "a3s.oci.native-restore-request.v1"@,
                )
                &&& parsed_text(request.context@) == Ok::<JsonView, Seq<char>>(members["context"@])
                &&& parsed_text(request.target@) == Ok::<JsonView, Seq<char>>(members["target"@])
                &&& parsed_text(request.bundle@) == Ok::<JsonView, Seq<char>>(members["bundle"@])
                &&& parsed_text(request.artifact_path@) == Ok::<JsonView, Seq<char>>(
                    members["artifactPath"@],
                )
                &&& parsed_text(request.isolation@) == Ok::<JsonView, Seq<char>>(
                    members["isolation"@],
                )
                &&& parsed_text(request.io@) == Ok::<JsonView, Seq<char>>(members["io"@])
                &&& parsed_text(request.attachment_contract@) == Ok::<JsonView, Seq<char>>(
                    members["attachmentContract"@],
                )
                &&& parsed_text(request.tee_launch@) == Ok::<JsonView, Seq<char>>(
                    members["teeLaunch"@],
                )
                &&& parsed_text(request.reference@) == Ok::<JsonView, Seq<char>>(
                    members["reference"@],
                )
                &&& parsed_text(request.runtime_artifact@) == Ok::<JsonView, Seq<char>>(
                    members["runtimeArtifact"@],
                )
                &&& parsed_text(request.agent_request@) == Ok::<JsonView, Seq<char>>(
                    members["agentRequest"@],
                )
            },
{
    let schema = "a3s.oci.native-restore-request.v1"@;
    let parts = request.parts();
    reveal_strlit("schemaVersion");
    reveal_strlit("context");
    reveal_strlit("target");
    reveal_strlit("bundle");
    reveal_strlit("artifactPath");
    reveal_strlit("isolation");
    reveal_strlit("io");
    reveal_strlit("attachmentContract");
    reveal_strlit("teeLaunch");
    reveal_strlit("reference");
    reveal_strlit("runtimeArtifact");
    reveal_strlit("agentRequest");
    assert("target"@[0] != "bundle"@[0]);
    assert("artifactPath"@[1] != "agentRequest"@[1]);
    assert("isolation"@[0] != "teeLaunch"@[0]);
    assert("isolation"@[0] != "reference"@[0]);
    assert("reference"@[0] != "teeLaunch"@[0]);
    assert(parts[0].0 == "context"@);
    assert(parts[1].0 == "target"@);
    assert(parts[2].0 == "bundle"@);
    assert(parts[3].0 == "artifactPath"@);
    assert(parts[4].0 == "isolation"@);
    assert(parts[5].0 == "io"@);
    assert(parts[6].0 == "attachmentContract"@);
    assert(parts[7].0 == "teeLaunch"@);
    assert(parts[8].0 == "reference"@);
    assert(parts[9].0 == "runtimeArtifact"@);
    assert(parts[10].0 == "agentRequest"@);
    assert forall|i: int, j: int| 0 <= i < j < parts.len() implies (#[trigger] parts[i]).0 != (
    #[trigger] parts[j]).0 by {
        assert(i == 0 || i == 1 || i == 2 || i == 3 || i == 4 || i == 5 || i == 6 || i == 7
            || i == 8 || i == 9 || i == 10);
        assert(j == 0 || j == 1 || j == 2 || j == 3 || j == 4 || j == 5 || j == 6 || j == 7
            || j == 8 || j == 9 || j == 10);
    }
    digests_cover_their_parts(schema, parts);
    if request_digest(schema, parts) is Ok {
        let members = choose|members: Map<Seq<char>, JsonView>|
            {
                &&& #[trigger] written_text(JsonView::Object(members)) is Ok
                &&& request_digest(schema, parts)->Ok_0 == digest_text(
                    vstd::utf8::encode_utf8(written_text(JsonView::Object(members))->Ok_0),
                )
                &&& members.contains_key("schemaVersion"@)
                &&& members["schemaVersion"@] == JsonView::Text(schema)
                &&& forall|i: int|
                    0 <= i < parts.len() ==> members.contains_key((#[trigger] parts[i]).0)
                        && parsed_text(parts[i].1) == Ok::<JsonView, Seq<char>>(
                        members[parts[i].0],
                    )
                &&& forall|name: Seq<char>| #[trigger]
                    members.contains_key(name) ==> name == "schemaVersion"@ || exists|i: int|
                        0 <= i < parts.len() && (#[trigger] parts[i]).0 == name
            };
        assert(members.contains_key(parts[0].0));
        assert(members.contains_key(parts[1].0));
        assert(members.contains_key(parts[2].0));
        assert(members.contains_key(parts[3].0));
        assert(members.contains_key(parts[4].0));
        assert(members.contains_key(parts[5].0));
        assert(members.contains_key(parts[6].0));
        assert(members.contains_key(parts[7].0));
        assert(members.contains_key(parts[8].0));
        assert(members.contains_key(parts[9].0));
        assert(members.contains_key(parts[10].0));
        assert(written_text(JsonView::Object(members)) is Ok);
    }
}

} // verus!
