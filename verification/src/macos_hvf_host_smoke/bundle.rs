//! Bundles that are handed over to a host service.

use vstd::prelude::*;
use crate::json::{
    from_value, held, members_content, parsed_bytes, put_member, read_bytes, take_member, to_value,
    write_bytes, written_bytes, Json, JsonView, Member,
};
use crate::namespace_join::outcome_content;
use crate::path::{components, components_of, starts_with};

verus! {

/// The byte that ends a line.
pub const LINE_FEED: u8 = 10;

/// A configuration that says that its bundle is handed over, or what is wrong
/// with the one that it is made of.
pub open spec fn handed_over(config: JsonView, extension: Seq<char>, value: Seq<char>) -> Result<
    JsonView,
    Seq<char>,
> {
    match config {
        JsonView::Object(root) => match held(root, "annotations"@) {
            Some(JsonView::Object(annotations)) => Ok(
                annotated(root, annotations, extension, value),
            ),
            None => Ok(annotated(root, Map::empty(), extension, value)),
            Some(_) => Err("staged config.json annotations are not an object"@),
        },
        _ => Err("staged config.json root is not an object"@),
    }
}

/// A configuration with one more annotation.
pub open spec fn annotated(
    root: Map<Seq<char>, JsonView>,
    annotations: Map<Seq<char>, JsonView>,
    extension: Seq<char>,
    value: Seq<char>,
) -> JsonView {
    JsonView::Object(
        root.insert(
            "annotations"@,
            JsonView::Object(annotations.insert(extension, JsonView::Text(value))),
        ),
    )
}

/// Says in a configuration that its bundle is handed over.
pub fn annotate_handoff(config: Json, extension: &str, value: &str) -> (result: Result<
    Json,
    String,
>)
    ensures
        outcome_content(result) == handed_over(config@, extension@, value@),
{
    let root = match config {
        Json::Object(root) => root,
        _ => return Err("staged config.json root is not an object".to_owned()),
    };
    let ghost before = members_content(root@);
    let (annotations, root) = take_member(root, "annotations");
    let annotations: Vec<Member> = match annotations {
        Some(Json::Object(annotations)) => annotations,
        None => Vec::new(),
        Some(_) => return Err("staged config.json annotations are not an object".to_owned()),
    };
    let annotations = put_member(annotations, extension, Json::Text(value.to_owned()));
    let root = put_member(root, "annotations", Json::Object(annotations));
    assert(members_content(root@) =~= before.insert(
        "annotations"@,
        JsonView::Object(members_content(annotations@)),
    ));
    Ok(Json::Object(root))
}

/// The bytes of a configuration that says that its bundle is handed over, or why
/// there are none.
pub open spec fn handoff_bytes(bytes: Seq<u8>, extension: Seq<char>, value: Seq<char>) -> Result<
    Seq<u8>,
    Seq<char>,
> {
    match parsed_bytes(bytes) {
        Ok(config) => match handed_over(config, extension, value) {
            Ok(edited) => match written_bytes(edited) {
                Ok(encoded) => Ok(encoded.push(LINE_FEED)),
                Err(cause) => Err("failed to encode staged config.json: "@ + cause),
            },
            Err(fault) => Err(fault),
        },
        Err(cause) => Err("failed to decode staged config.json: "@ + cause),
    }
}

/// Rewrites the bytes of a configuration so that it says that its bundle is handed
/// over.
pub fn handoff_annotation(bytes: &[u8], extension: &str, value: &str) -> (result: Result<
    Vec<u8>,
    String,
>)
    ensures
        match result {
            Ok(encoded) => handoff_bytes(bytes@, extension@, value@) == Ok::<Seq<u8>, Seq<char>>(
                encoded@,
            ),
            Err(message) => handoff_bytes(bytes@, extension@, value@) == Err::<Seq<u8>, Seq<char>>(
                message@,
            ),
        },
{
    let read = match read_bytes(bytes) {
        Ok(read) => read,
        Err(cause) => {
            let mut message = "failed to decode staged config.json: ".to_owned();
            message.append(&cause);
            return Err(message);
        },
    };
    let edited = match annotate_handoff(from_value(&read), extension, value) {
        Ok(edited) => edited,
        Err(fault) => return Err(fault),
    };
    match write_bytes(&to_value(&edited)) {
        Ok(mut encoded) => {
            encoded.push(LINE_FEED);
            Ok(encoded)
        },
        Err(cause) => {
            let mut message = "failed to encode staged config.json: ".to_owned();
            message.append(&cause);
            Err(message)
        },
    }
}

/// The directories above a handed-over bundle that only their owner may use.
#[derive(Clone, Copy, Debug, PartialEq, Eq, Structural)]
pub enum PrivateAncestors {
    /// So many, from the nearest on.
    Nearest(usize),
    /// Every one.
    All,
}

/// Finds the directories that only their owner may use: a directory and those
/// above it, up to the runtime directory, which is left as it is. Where the
/// runtime directory is not above it, they are all.
pub fn private_ancestors(runtime_root: &str, parent: &str) -> (ancestors: PrivateAncestors)
    ensures
        ({
            let root = components(runtime_root@);
            let steps = components(parent@);
            match ancestors {
                PrivateAncestors::Nearest(count) => root.is_prefix_of(steps) && count
                    == steps.len() - root.len(),
                PrivateAncestors::All => !root.is_prefix_of(steps),
            }
        }),
{
    if starts_with(parent, runtime_root) {
        let root = components_of(runtime_root);
        let steps = components_of(parent);
        proof {
            assert(crate::text::views(root@).len() == root@.len());
            assert(crate::text::views(steps@).len() == steps@.len());
        }
        PrivateAncestors::Nearest(steps.len() - root.len())
    } else {
        PrivateAncestors::All
    }
}

/// A bundle that is handed over says so in one annotation, keeps every other one, and
/// keeps the rest of its configuration as it was.
pub proof fn handoffs_keep_the_configuration(
    config: JsonView,
    extension: Seq<char>,
    value: Seq<char>,
    name: Seq<char>,
)
    ensures
        handed_over(config, extension, value) is Ok <==> config is Object && (held(
            config->Object_0,
            "annotations"@,
        ) is None || held(config->Object_0, "annotations"@)->0 is Object),
        handed_over(config, extension, value) matches Ok(edited) ==> {
            &&& edited is Object
            &&& name != "annotations"@ ==> held(edited->Object_0, name) == held(
                config->Object_0,
                name,
            )
            &&& held(edited->Object_0, "annotations"@) matches Some(annotations) && annotations
                is Object && held(annotations->Object_0, extension) == Some(
                JsonView::Text(value),
            )
            &&& name != extension && held(config->Object_0, "annotations"@) is Some ==> held(
                edited->Object_0["annotations"@]->Object_0,
                name,
            ) == held(config->Object_0["annotations"@]->Object_0, name)
            &&& name != extension && held(config->Object_0, "annotations"@) is None ==> held(
                edited->Object_0["annotations"@]->Object_0,
                name,
            ) is None
        },
{
}

/// To hand a bundle over twice is to hand it over once.
pub proof fn repeated_handoffs_change_nothing(
    config: JsonView,
    extension: Seq<char>,
    value: Seq<char>,
)
    ensures
        handed_over(config, extension, value) matches Ok(edited) ==> handed_over(
            edited,
            extension,
            value,
        ) == Ok::<JsonView, Seq<char>>(edited),
{
    if handed_over(config, extension, value) is Ok {
        let edited = handed_over(config, extension, value)->Ok_0;
        let root = edited->Object_0;
        let annotations = root["annotations"@]->Object_0;
        assert(annotations.insert(extension, JsonView::Text(value)) =~= annotations);
        assert(root.insert("annotations"@, JsonView::Object(annotations)) =~= root);
    }
}

/// What is written of a bundle that is handed over is its edited configuration on lines
/// of its own, with a line feed at the end.
pub proof fn handoffs_end_with_a_line_feed(
    bytes: Seq<u8>,
    extension: Seq<char>,
    value: Seq<char>,
)
    ensures
        handoff_bytes(bytes, extension, value) matches Ok(written) ==> {
            &&& written.len() > 0
            &&& written.last() == 10
            &&& parsed_bytes(bytes) is Ok
            &&& handed_over(parsed_bytes(bytes)->Ok_0, extension, value) is Ok
            &&& written_bytes(handed_over(parsed_bytes(bytes)->Ok_0, extension, value)->Ok_0)
                == Ok::<Seq<u8>, Seq<char>>(written.drop_last())
        },
{
    if handoff_bytes(bytes, extension, value) is Ok {
        let written = handoff_bytes(bytes, extension, value)->Ok_0;
        let edited = handed_over(parsed_bytes(bytes)->Ok_0, extension, value)->Ok_0;
        assert(written.drop_last() =~= written_bytes(edited)->Ok_0);
    }
}

} // verus!
