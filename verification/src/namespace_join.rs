//! Bundle configurations that join the namespaces of another container.

use vstd::prelude::*;
use crate::json::{
    content, from_value, has_text, held, items_content, items_grow, members_content, parsed_text,
    put_member, read_text, take_member, text_member, to_value, write_text, written_text, Json,
    JsonView, Member,
};
use crate::native_linux_driver::{append_signed, signed_decimal};

verus! {

/// The configurations that join the namespaces of a donor.
#[derive(Debug)]
pub struct NamespaceJoinBundles {
    /// Joins every namespace but that of mounts.
    pub non_mount: String,
    /// Joins the namespace of mounts alone.
    pub mount: String,
    /// Names a namespace of another type than it says.
    pub wrong_type: String,
}

/// What is wrong with a configuration whose workload cannot be replaced.
pub const COMMAND_FAULT: &'static str =
    "namespace join fixture requires process.args[2] to be a shell command";

/// Where the namespace of a process is found.
pub open spec fn namespace_file(pid: i32, namespace: Seq<char>) -> Seq<char> {
    "/proc/"@ + signed_decimal(pid as int) + "/ns/"@ + namespace
}

/// Where the namespace of a process is found.
pub fn namespace_path(pid: i32, namespace: &str) -> (path: String)
    ensures
        path@ == namespace_file(pid, namespace@),
{
    let mut path = "/proc/".to_owned();
    append_signed(&mut path, pid);
    path.append("/ns/");
    path.append(namespace);
    path
}

/// The workload of a container that has joined.
pub const JOIN_WORKLOAD: &'static str =
    "set -eu; trap 'exit 0' TERM; while :; do /bin/busybox sleep 1; done";

/// The workload of a container that has joined.
pub fn join_workload_command() -> (command: String)
    ensures
        command@ == JOIN_WORKLOAD@,
{
    JOIN_WORKLOAD.to_owned()
}

/// The workload of a container that has joined the namespace of users and looks
/// at its devices.
pub const JOINED_USER_DEVICE_WORKLOAD: &'static str =
    "set -eu; for spec in null:1:3 zero:1:5 full:1:7 random:1:8 urandom:1:9 tty:5:0; do name=${spec%%:*}; rest=${spec#*:}; major=${rest%%:*}; minor=${rest#*:}; test \"$(/bin/busybox stat -c %t:%T /dev/$name)\" = \"$(printf %x $major):$(printf %x $minor)\"; test \"$(/bin/busybox stat -c %a /dev/$name)\" = 666; test \"$(/bin/busybox stat -c %u:%g /dev/$name)\" = 0:0; done; printf probe > /dev/null; /bin/busybox head -c 1 /dev/zero > /dev/null; trap 'exit 0' TERM; while :; do /bin/busybox sleep 1; done";

/// The workload of a container that has joined the namespace of users and looks
/// at its devices.
pub fn joined_user_device_workload_command() -> (command: String)
    ensures
        command@ == JOINED_USER_DEVICE_WORKLOAD@,
{
    JOINED_USER_DEVICE_WORKLOAD.to_owned()
}

/// A configuration whose shell command is replaced, or what is wrong with it.
pub open spec fn with_command(config: JsonView, command: Seq<char>) -> Result<JsonView, Seq<char>> {
    match config {
        JsonView::Object(root) => match held(root, "process"@) {
            Some(JsonView::Object(process)) => match held(process, "args"@) {
                Some(JsonView::List(args)) => if args.len() > 2 && args[2] is Text {
                    Ok(
                        JsonView::Object(
                            root.insert(
                                "process"@,
                                JsonView::Object(
                                    process.insert(
                                        "args"@,
                                        JsonView::List(args.update(2, JsonView::Text(command))),
                                    ),
                                ),
                            ),
                        ),
                    )
                } else {
                    Err(COMMAND_FAULT@)
                },
                _ => Err(COMMAND_FAULT@),
            },
            _ => Err(COMMAND_FAULT@),
        },
        _ => Err(COMMAND_FAULT@),
    }
}

/// What a list holds, item by item.
proof fn items_content_at(items: Seq<Json>, place: int)
    requires
        0 <= place < items.len(),
    ensures
        items_content(items).len() == items.len(),
        items_content(items)[place] == content(items[place]),
    decreases items.len(),
{
    let shorter = items.drop_last();
    items_content_length(shorter);
    if place < items.len() - 1 {
        items_content_at(shorter, place);
    }
}

proof fn items_content_length(items: Seq<Json>)
    ensures
        items_content(items).len() == items.len(),
    decreases items.len(),
{
    if items.len() > 0 {
        items_content_length(items.drop_last());
    }
}

/// What an outcome holds.
pub open spec fn outcome_content(outcome: Result<Json, String>) -> Result<JsonView, Seq<char>> {
    match outcome {
        Ok(json) => Ok(json@),
        Err(message) => Err(message@),
    }
}

fn replace_argument(args: Vec<Json>, command: String) -> (after: Option<Vec<Json>>)
    ensures
        ({
            let held = items_content(args@);
            match after {
                Some(after) => held.len() > 2 && held[2] is Text && items_content(after@)
                    == held.update(2, JsonView::Text(command@)),
                None => !(held.len() > 2 && held[2] is Text),
            }
        }),
{
    proof {
        items_content_length(args@);
    }
    if args.len() <= 2 {
        return None;
    }
    proof {
        items_content_at(args@, 2);
    }
    let is_text = match &args[2] {
        Json::Text(_) => true,
        _ => false,
    };
    if !is_text {
        return None;
    }
    let mut after = args;
    after.set(2, Json::Text(command));
    proof {
        let replaced = after@;
        items_content_length(replaced);
        assert forall|i: int| 0 <= i < replaced.len() implies items_content(replaced)[i]
            == items_content(args@).update(2, JsonView::Text(command@))[i] by {
            items_content_at(replaced, i);
            items_content_at(args@, i);
        }
        assert(items_content(replaced) =~= items_content(args@).update(
            2,
            JsonView::Text(command@),
        ));
    }
    Some(after)
}

/// Replaces the shell command of a configuration.
pub fn replace_process_command(config: Json, replacement: String) -> (result: Result<Json, String>)
    ensures
        outcome_content(result) == with_command(config@, replacement@),
{
    let root = match config {
        Json::Object(root) => root,
        _ => return Err(COMMAND_FAULT.to_owned()),
    };
    let (process, root) = take_member(root, "process");
    let process = match process {
        Some(Json::Object(process)) => process,
        _ => return Err(COMMAND_FAULT.to_owned()),
    };
    let (args, process) = take_member(process, "args");
    let args = match args {
        Some(Json::List(args)) => args,
        _ => return Err(COMMAND_FAULT.to_owned()),
    };
    let args = match replace_argument(args, replacement) {
        Some(args) => args,
        None => return Err(COMMAND_FAULT.to_owned()),
    };
    let ghost before = config@->Object_0;
    let ghost inner = held(before, "process"@)->0->Object_0;
    let process = put_member(process, "args", Json::List(args));
    assert(members_content(process@) =~= inner.insert("args"@, JsonView::List(items_content(args@))));
    let root = put_member(root, "process", Json::Object(process));
    assert(members_content(root@) =~= before.insert(
        "process"@,
        JsonView::Object(members_content(process@)),
    ));
    Ok(Json::Object(root))
}

/// A configuration whose Linux section holds these namespaces alone, or what is
/// wrong with it.
pub open spec fn with_profile(config: JsonView, namespaces: Seq<JsonView>) -> Result<
    JsonView,
    Seq<char>,
> {
    match config {
        JsonView::Object(root) => match held(root, "linux"@) {
            Some(JsonView::Object(_)) | None => Ok(
                JsonView::Object(
                    root.insert(
                        "linux"@,
                        JsonView::Object(
                            Map::empty().insert("namespaces"@, JsonView::List(namespaces)),
                        ),
                    ),
                ),
            ),
            Some(_) => Err("namespace join linux must be an object"@),
        },
        _ => Err("namespace join config must be an object"@),
    }
}

/// Leaves these namespaces alone in the Linux section of a configuration.
pub fn replace_linux_profile(config: Json, namespaces: Vec<Json>) -> (result: Result<Json, String>)
    ensures
        outcome_content(result) == with_profile(config@, items_content(namespaces@)),
{
    let root = match config {
        Json::Object(root) => root,
        _ => return Err("namespace join config must be an object".to_owned()),
    };
    let ghost before = config@->Object_0;
    let (linux, root) = take_member(root, "linux");
    match linux {
        Some(Json::Object(_)) => {},
        None => {},
        Some(_) => return Err("namespace join linux must be an object".to_owned()),
    }
    let fresh: Vec<Member> = Vec::new();
    let linux = put_member(fresh, "namespaces", Json::List(namespaces));
    let root = put_member(root, "linux", Json::Object(linux));
    assert(members_content(root@) =~= before.insert(
        "linux"@,
        JsonView::Object(members_content(linux@)),
    ));
    Ok(Json::Object(root))
}

/// A configuration without what belongs to a mount namespace of its own, or what
/// is wrong with it.
pub open spec fn without_own_mounts(config: JsonView) -> Result<JsonView, Seq<char>> {
    match config {
        JsonView::Object(root) => Ok(
            JsonView::Object(root.remove("hostname"@).remove("domainname"@).remove("mounts"@)),
        ),
        _ => Err("namespace join config must be an object"@),
    }
}

fn remove_root_fields(config: Json) -> (result: Result<Json, String>)
    ensures
        outcome_content(result) == without_own_mounts(config@),
{
    let root = match config {
        Json::Object(root) => root,
        _ => return Err("namespace join config must be an object".to_owned()),
    };
    let (_, root) = take_member(root, "hostname");
    let (_, root) = take_member(root, "domainname");
    let (_, root) = take_member(root, "mounts");
    Ok(Json::Object(root))
}

/// A namespace that a container makes for itself.
pub open spec fn own_namespace(kind: Seq<char>) -> JsonView {
    JsonView::Object(Map::empty().insert("type"@, JsonView::Text(kind)))
}

/// A namespace that a container joins.
pub open spec fn joined_namespace(kind: Seq<char>, pid: i32, file: Seq<char>) -> JsonView {
    JsonView::Object(
        Map::empty().insert("type"@, JsonView::Text(kind)).insert(
            "path"@,
            JsonView::Text(namespace_file(pid, file)),
        ),
    )
}

fn make_own_namespace(kind: &str) -> (json: Json)
    ensures
        json@ == own_namespace(kind@),
{
    let members: Vec<Member> = Vec::new();
    Json::Object(put_member(members, "type", Json::Text(kind.to_owned())))
}

fn make_joined_namespace(kind: &str, pid: i32, file: &str) -> (json: Json)
    ensures
        json@ == joined_namespace(kind@, pid, file@),
{
    let members: Vec<Member> = Vec::new();
    let members = put_member(members, "type", Json::Text(kind.to_owned()));
    Json::Object(put_member(members, "path", Json::Text(namespace_path(pid, file))))
}

/// Every namespace of the donor but that of mounts.
pub open spec fn joined_namespaces(pid: i32) -> Seq<JsonView> {
    seq![
        joined_namespace("time"@, pid, "time"@),
        joined_namespace("pid"@, pid, "pid"@),
        joined_namespace("user"@, pid, "user"@),
        own_namespace("mount"@),
        joined_namespace("network"@, pid, "net"@),
        joined_namespace("ipc"@, pid, "ipc"@),
        joined_namespace("cgroup"@, pid, "cgroup"@),
        joined_namespace("uts"@, pid, "uts"@),
    ]
}

fn push_item(items: &mut Vec<Json>, item: Json)
    ensures
        items_content(final(items)@) == items_content(old(items)@).push(item@),
{
    proof {
        items_grow(items@, item);
    }
    items.push(item);
}

/// Every namespace of the donor but that of mounts.
pub fn joined_non_mount_namespaces(donor_pid: i32) -> (namespaces: Vec<Json>)
    ensures
        items_content(namespaces@) == joined_namespaces(donor_pid),
{
    let mut namespaces: Vec<Json> = Vec::new();
    push_item(&mut namespaces, make_joined_namespace("time", donor_pid, "time"));
    push_item(&mut namespaces, make_joined_namespace("pid", donor_pid, "pid"));
    push_item(&mut namespaces, make_joined_namespace("user", donor_pid, "user"));
    push_item(&mut namespaces, make_own_namespace("mount"));
    push_item(&mut namespaces, make_joined_namespace("network", donor_pid, "net"));
    push_item(&mut namespaces, make_joined_namespace("ipc", donor_pid, "ipc"));
    push_item(&mut namespaces, make_joined_namespace("cgroup", donor_pid, "cgroup"));
    push_item(&mut namespaces, make_joined_namespace("uts", donor_pid, "uts"));
    assert(items_content(namespaces@) =~= joined_namespaces(donor_pid));
    namespaces
}

/// The configuration that joins every namespace but that of mounts, or what is
/// wrong with the one that it is made of.
pub open spec fn non_mount_profile(config: JsonView, pid: i32) -> Result<JsonView, Seq<char>> {
    match with_profile(config, joined_namespaces(pid)) {
        Ok(profile) => with_command(profile, JOINED_USER_DEVICE_WORKLOAD@),
        Err(fault) => Err(fault),
    }
}

/// Makes the configuration that joins every namespace but that of mounts.
pub fn non_mount_config(config: Json, donor_pid: i32) -> (result: Result<Json, String>)
    ensures
        outcome_content(result) == non_mount_profile(config@, donor_pid),
{
    let namespaces = joined_non_mount_namespaces(donor_pid);
    match replace_linux_profile(config, namespaces) {
        Ok(profile) => replace_process_command(profile, joined_user_device_workload_command()),
        Err(fault) => Err(fault),
    }
}

/// A configuration that joins one namespace of the donor and keeps nothing of a
/// mount namespace of its own, or what is wrong with the one that it is made of.
pub open spec fn single_profile(config: JsonView, namespace: JsonView) -> Result<
    JsonView,
    Seq<char>,
> {
    match without_own_mounts(config) {
        Ok(profile) => with_profile(profile, seq![namespace]),
        Err(fault) => Err(fault),
    }
}

fn single_config(config: Json, namespace: Json) -> (result: Result<Json, String>)
    ensures
        outcome_content(result) == single_profile(config@, namespace@),
{
    match remove_root_fields(config) {
        Ok(profile) => {
            let mut namespaces: Vec<Json> = Vec::new();
            push_item(&mut namespaces, namespace);
            assert(items_content(namespaces@) =~= seq![namespace@]);
            replace_linux_profile(profile, namespaces)
        },
        Err(fault) => Err(fault),
    }
}

/// The configuration that joins the namespace of mounts alone, or what is wrong
/// with the one that it is made of.
pub open spec fn mount_profile(config: JsonView, pid: i32) -> Result<JsonView, Seq<char>> {
    match single_profile(config, joined_namespace("mount"@, pid, "mnt"@)) {
        Ok(profile) => with_command(profile, JOIN_WORKLOAD@),
        Err(fault) => Err(fault),
    }
}

/// Makes the configuration that joins the namespace of mounts alone.
pub fn mount_config(config: Json, donor_pid: i32) -> (result: Result<Json, String>)
    ensures
        outcome_content(result) == mount_profile(config@, donor_pid),
{
    match single_config(config, make_joined_namespace("mount", donor_pid, "mnt")) {
        Ok(profile) => replace_process_command(profile, join_workload_command()),
        Err(fault) => Err(fault),
    }
}

/// The configuration that names the network namespace as one of host names, or
/// what is wrong with the one that it is made of.
pub open spec fn wrong_type_profile(config: JsonView, pid: i32) -> Result<JsonView, Seq<char>> {
    single_profile(config, joined_namespace("uts"@, pid, "net"@))
}

/// Makes the configuration that names the network namespace as one of host names.
pub fn wrong_type_config(config: Json, donor_pid: i32) -> (result: Result<Json, String>)
    ensures
        outcome_content(result) == wrong_type_profile(config@, donor_pid),
{
    single_config(config, make_joined_namespace("uts", donor_pid, "net"))
}

/// The text of a configuration, or what is wrong with it.
pub open spec fn bundle_text(config: JsonView) -> Result<Seq<char>, Seq<char>> {
    match written_text(config) {
        Ok(text) => Ok(text),
        Err(cause) => Err("failed to encode namespace join config: "@ + cause),
    }
}

fn bundle_from_value(config: &Json) -> (result: Result<String, String>)
    ensures
        match result {
            Ok(text) => bundle_text(config@) == Ok::<Seq<char>, Seq<char>>(text@),
            Err(message) => bundle_text(config@) == Err::<Seq<char>, Seq<char>>(message@),
        },
{
    match write_text(&to_value(config)) {
        Ok(text) => Ok(text),
        Err(cause) => {
            let mut message = "failed to encode namespace join config: ".to_owned();
            message.append(&cause);
            Err(message)
        },
    }
}

/// What the three configurations have to be, or what is wrong with the one that
/// they are made of.
pub open spec fn join_profiles(config: JsonView, pid: i32) -> Result<
    (JsonView, JsonView, JsonView),
    Seq<char>,
> {
    match non_mount_profile(config, pid) {
        Ok(non_mount) => match mount_profile(config, pid) {
            Ok(mount) => match wrong_type_profile(config, pid) {
                Ok(wrong_type) => Ok((non_mount, mount, wrong_type)),
                Err(fault) => Err(fault),
            },
            Err(fault) => Err(fault),
        },
        Err(fault) => Err(fault),
    }
}

/// What the three texts have to be, or why there are none.
pub open spec fn join_texts(base: Seq<char>, pid: i32) -> Result<
    (Seq<char>, Seq<char>, Seq<char>),
    Seq<char>,
> {
    if pid <= 0 {
        Err("namespace donor PID must be positive, received "@ + signed_decimal(pid as int))
    } else {
        match parsed_text(base) {
            Ok(config) => match join_profiles(config, pid) {
                Ok(profiles) => match bundle_text(profiles.0) {
                    Ok(non_mount) => match bundle_text(profiles.1) {
                        Ok(mount) => match bundle_text(profiles.2) {
                            Ok(wrong_type) => Ok((non_mount, mount, wrong_type)),
                            Err(fault) => Err(fault),
                        },
                        Err(fault) => Err(fault),
                    },
                    Err(fault) => Err(fault),
                },
                Err(fault) => Err(fault),
            },
            Err(cause) => Err("failed to decode namespace join base config: "@ + cause),
        }
    }
}

/// Makes the configurations that join the namespaces of a donor out of the
/// configuration of a qualified bundle.
pub fn build_bundles(base: &str, donor_pid: i32) -> (result: Result<NamespaceJoinBundles, String>)
    ensures
        match result {
            Ok(bundles) => join_texts(base@, donor_pid) == Ok::<
                (Seq<char>, Seq<char>, Seq<char>),
                Seq<char>,
            >((bundles.non_mount@, bundles.mount@, bundles.wrong_type@)),
            Err(message) => join_texts(base@, donor_pid) == Err::<
                (Seq<char>, Seq<char>, Seq<char>),
                Seq<char>,
            >(message@),
        },
{
    if donor_pid <= 0 {
        let mut message = "namespace donor PID must be positive, received ".to_owned();
        append_signed(&mut message, donor_pid);
        return Err(message);
    }
    let value = match read_text(base) {
        Ok(value) => value,
        Err(cause) => {
            let mut message = "failed to decode namespace join base config: ".to_owned();
            message.append(&cause);
            return Err(message);
        },
    };
    let non_mount = match non_mount_config(from_value(&value), donor_pid) {
        Ok(config) => config,
        Err(fault) => return Err(fault),
    };
    let mount = match mount_config(from_value(&value), donor_pid) {
        Ok(config) => config,
        Err(fault) => return Err(fault),
    };
    let wrong_type = match wrong_type_config(from_value(&value), donor_pid) {
        Ok(config) => config,
        Err(fault) => return Err(fault),
    };
    let non_mount = match bundle_from_value(&non_mount) {
        Ok(text) => text,
        Err(fault) => return Err(fault),
    };
    let mount = match bundle_from_value(&mount) {
        Ok(text) => text,
        Err(fault) => return Err(fault),
    };
    let wrong_type = match bundle_from_value(&wrong_type) {
        Ok(text) => text,
        Err(fault) => return Err(fault),
    };
    Ok(NamespaceJoinBundles { non_mount, mount, wrong_type })
}

/// The namespaces of a list that are not of the network.
pub open spec fn without_network(namespaces: Seq<JsonView>) -> Seq<JsonView>
    decreases namespaces.len(),
{
    if namespaces.len() == 0 {
        Seq::empty()
    } else {
        let rest = without_network(namespaces.drop_last());
        let last = namespaces[namespaces.len() - 1];
        if text_member(last, "type"@) == Some("network"@) {
            rest
        } else {
            rest.push(last)
        }
    }
}

fn drop_network(namespaces: Vec<Json>) -> (kept: Vec<Json>)
    ensures
        items_content(kept@) == without_network(items_content(namespaces@)),
{
    let mut source = namespaces;
    let mut kept: Vec<Json> = Vec::new();
    let ghost mut consumed: Seq<Json> = Seq::empty();
    assert(namespaces@ =~= consumed + source@);
    while source.len() > 0
        invariant
            namespaces@ == consumed + source@,
            items_content(kept@) == without_network(items_content(consumed)),
        decreases source@.len(),
    {
        let namespace = source.remove(0);
        proof {
            items_grow(consumed, namespace);
            let after = items_content(consumed.push(namespace));
            assert(after.drop_last() =~= items_content(consumed));
            consumed = consumed.push(namespace);
            assert(namespaces@ =~= consumed + source@);
        }
        if !has_text(&namespace, "type", "network") {
            push_item(&mut kept, namespace);
        }
    }
    assert(consumed =~= namespaces@);
    kept
}

/// A configuration that inherits the network of the host, or what is wrong with
/// the one that it is made of. It has no namespace of the network, no settings
/// of the kernel and a control group of its own.
pub open spec fn host_network_profile(config: JsonView, cgroup_path: Seq<char>) -> Result<
    JsonView,
    Seq<char>,
> {
    match config {
        JsonView::Object(root) => match held(root, "linux"@) {
            Some(JsonView::Object(linux)) => match held(linux, "namespaces"@) {
                Some(JsonView::List(namespaces)) => with_command(
                    JsonView::Object(
                        root.insert(
                            "linux"@,
                            JsonView::Object(
                                linux.insert(
                                    "namespaces"@,
                                    JsonView::List(without_network(namespaces)),
                                ).remove("sysctl"@).insert(
                                    "cgroupsPath"@,
                                    JsonView::Text(cgroup_path),
                                ),
                            ),
                        ),
                    ),
                    JOIN_WORKLOAD@,
                ),
                _ => Err("host-network profile requires linux.namespaces"@),
            },
            Some(_) => Err("namespace join linux must be an object"@),
            None => Err("host-network profile requires config.linux"@),
        },
        _ => Err("namespace join config must be an object"@),
    }
}

/// Makes a configuration that inherits the network of the host.
pub fn host_network_config(config: Json, cgroup_path: &str) -> (result: Result<Json, String>)
    ensures
        outcome_content(result) == host_network_profile(config@, cgroup_path@),
{
    let root = match config {
        Json::Object(root) => root,
        _ => return Err("namespace join config must be an object".to_owned()),
    };
    let ghost before = config@->Object_0;
    let (linux, root) = take_member(root, "linux");
    let linux = match linux {
        Some(Json::Object(linux)) => linux,
        Some(_) => return Err("namespace join linux must be an object".to_owned()),
        None => return Err("host-network profile requires config.linux".to_owned()),
    };
    let ghost section = members_content(linux@);
    let (namespaces, linux) = take_member(linux, "namespaces");
    let namespaces = match namespaces {
        Some(Json::List(namespaces)) => namespaces,
        _ => return Err("host-network profile requires linux.namespaces".to_owned()),
    };
    let kept = drop_network(namespaces);
    let linux = put_member(linux, "namespaces", Json::List(kept));
    assert(members_content(linux@) =~= section.insert(
        "namespaces"@,
        JsonView::List(items_content(kept@)),
    ));
    let (_, linux) = take_member(linux, "sysctl");
    let linux = put_member(linux, "cgroupsPath", Json::Text(cgroup_path.to_owned()));
    let root = put_member(root, "linux", Json::Object(linux));
    assert(members_content(root@) =~= before.insert(
        "linux"@,
        JsonView::Object(members_content(linux@)),
    ));
    replace_process_command(Json::Object(root), join_workload_command())
}

/// What the text of a configuration that inherits the network of the host has to
/// be, or why there is none.
pub open spec fn host_network_text(base: Seq<char>, cgroup_path: Seq<char>) -> Result<
    Seq<char>,
    Seq<char>,
> {
    match parsed_text(base) {
        Ok(config) => match host_network_profile(config, cgroup_path) {
            Ok(profile) => bundle_text(profile),
            Err(fault) => Err(fault),
        },
        Err(cause) => Err("failed to decode host-network base config: "@ + cause),
    }
}

/// Makes a configuration that inherits the network of the host out of the
/// configuration of a qualified bundle.
pub fn build_host_network_bundle(base: &str, cgroup_path: &str) -> (result: Result<String, String>)
    ensures
        match result {
            Ok(text) => host_network_text(base@, cgroup_path@) == Ok::<Seq<char>, Seq<char>>(text@),
            Err(message) => host_network_text(base@, cgroup_path@) == Err::<Seq<char>, Seq<char>>(
                message@,
            ),
        },
{
    match read_text(base) {
        Ok(value) => match host_network_config(from_value(&value), cgroup_path) {
            Ok(config) => bundle_from_value(&config),
            Err(fault) => Err(fault),
        },
        Err(cause) => {
            let mut message = "failed to decode host-network base config: ".to_owned();
            message.append(&cause);
            Err(message)
        },
    }
}

/// A configuration that inherits the network of the host asks for no namespace of
/// the network and sets nothing in the kernel.
pub proof fn host_networks_are_inherited(config: JsonView, cgroup_path: Seq<char>, place: int)
    requires
        host_network_profile(config, cgroup_path) is Ok,
    ensures
        ({
            let root = host_network_profile(config, cgroup_path)->Ok_0->Object_0;
            let linux = root["linux"@]->Object_0;
            let namespaces = linux["namespaces"@]->List_0;
            &&& !linux.contains_key("sysctl"@)
            &&& linux["cgroupsPath"@] == JsonView::Text(cgroup_path)
            &&& 0 <= place < namespaces.len() ==> text_member(namespaces[place], "type"@) != Some(
                "network"@,
            )
        }),
{
    reveal_strlit("process");
    reveal_strlit("linux");
    reveal_strlit("namespaces");
    reveal_strlit("sysctl");
    reveal_strlit("cgroupsPath");
    let section = config->Object_0["linux"@]->Object_0;
    let listed = section["namespaces"@]->List_0;
    assert("process"@.len() != "linux"@.len());
    assert("namespaces"@.len() != "sysctl"@.len());
    assert("namespaces"@.len() != "cgroupsPath"@.len());
    assert("sysctl"@.len() != "cgroupsPath"@.len());
    if 0 <= place < without_network(listed).len() {
        network_is_dropped(listed, place);
    }
}

proof fn network_is_dropped(namespaces: Seq<JsonView>, place: int)
    requires
        0 <= place < without_network(namespaces).len(),
    ensures
        text_member(without_network(namespaces)[place], "type"@) != Some("network"@),
    decreases namespaces.len(),
{
    let shorter = namespaces.drop_last();
    if place < without_network(shorter).len() {
        network_is_dropped(shorter, place);
    }
}

/// A profile that joins every namespace but that of mounts joins each of the seven by the
/// file of its own kind under the donor, and makes its mount namespace itself.
pub proof fn joined_profiles_name_the_donor(pid: i32, place: int)
    requires
        0 <= place < joined_namespaces(pid).len(),
    ensures
        joined_namespaces(pid).len() == 8,
        ({
            let namespace = joined_namespaces(pid)[place];
            let kind = text_member(namespace, "type"@);
            let path = text_member(namespace, "path"@);
            &&& kind is Some
            &&& path is None <==> kind == Some("mount"@)
            &&& path is Some && kind->0 != "network"@ ==> path->0 == "/proc/"@ + signed_decimal(
                pid as int,
            ) + "/ns/"@ + kind->0
            &&& kind->0 == "network"@ ==> path == Some(
                "/proc/"@ + signed_decimal(pid as int) + "/ns/"@ + "net"@,
            )
        }),
        joined_namespaces(pid)[0] == joined_namespace("time"@, pid, "time"@),
        joined_namespaces(pid)[1] == joined_namespace("pid"@, pid, "pid"@),
        joined_namespaces(pid)[2] == joined_namespace("user"@, pid, "user"@),
{
    joined_namespaces_read_back("time"@, pid, "time"@);
    joined_namespaces_read_back("pid"@, pid, "pid"@);
    joined_namespaces_read_back("user"@, pid, "user"@);
    joined_namespaces_read_back("mount"@, pid, "mount"@);
    joined_namespaces_read_back("network"@, pid, "net"@);
    joined_namespaces_read_back("ipc"@, pid, "ipc"@);
    joined_namespaces_read_back("cgroup"@, pid, "cgroup"@);
    joined_namespaces_read_back("uts"@, pid, "uts"@);
    reveal_strlit("mount");
    reveal_strlit("network");
    reveal_strlit("time");
    reveal_strlit("pid");
    reveal_strlit("user");
    reveal_strlit("ipc");
    reveal_strlit("cgroup");
    reveal_strlit("uts");
    assert("mount"@.len() == 5 && "network"@.len() == 7);
    let list = joined_namespaces(pid);
    assert(list[0] == joined_namespace("time"@, pid, "time"@));
    assert(list[1] == joined_namespace("pid"@, pid, "pid"@));
    assert(list[2] == joined_namespace("user"@, pid, "user"@));
    assert(list[3] == own_namespace("mount"@));
    assert(list[4] == joined_namespace("network"@, pid, "net"@));
    assert(list[5] == joined_namespace("ipc"@, pid, "ipc"@));
    assert(list[6] == joined_namespace("cgroup"@, pid, "cgroup"@));
    assert(list[7] == joined_namespace("uts"@, pid, "uts"@));
    assert(place == 0 || place == 1 || place == 2 || place == 3 || place == 4 || place == 5
        || place == 6 || place == 7);
}

proof fn joined_namespaces_read_back(kind: Seq<char>, pid: i32, file: Seq<char>)
    ensures
        text_member(joined_namespace(kind, pid, file), "type"@) == Some(kind),
        text_member(joined_namespace(kind, pid, file), "path"@) == Some(
            namespace_file(pid, file),
        ),
        text_member(own_namespace(kind), "type"@) == Some(kind),
        text_member(own_namespace(kind), "path"@) is None,
{
    reveal_strlit("type");
    reveal_strlit("path");
    assert("type"@[0] != "path"@[0]);
}

/// A replaced command is the third word of the process, and nothing else of the
/// configuration changes.
pub proof fn commands_replace_the_third_word(
    config: JsonView,
    command: Seq<char>,
    name: Seq<char>,
)
    requires
        with_command(config, command) is Ok,
    ensures
        ({
            let edited = with_command(config, command)->Ok_0;
            let before = config->Object_0["process"@]->Object_0;
            let after = edited->Object_0["process"@]->Object_0;
            &&& edited is Object
            &&& after["args"@]->List_0.len() == before["args"@]->List_0.len()
            &&& after["args"@]->List_0[2] == JsonView::Text(command)
            &&& after["args"@]->List_0[0] == before["args"@]->List_0[0]
            &&& after["args"@]->List_0[1] == before["args"@]->List_0[1]
            &&& name != "process"@ ==> held(edited->Object_0, name) == held(config->Object_0, name)
            &&& name != "args"@ ==> held(after, name) == held(before, name)
        }),
{
}

/// A profile holds the given namespaces and nothing else of the Linux section, and keeps
/// the rest of the configuration.
pub proof fn profiles_hold_their_namespaces_alone(
    config: JsonView,
    namespaces: Seq<JsonView>,
    name: Seq<char>,
)
    requires
        with_profile(config, namespaces) is Ok,
    ensures
        ({
            let edited = with_profile(config, namespaces)->Ok_0;
            &&& edited is Object
            &&& edited->Object_0["linux"@]->Object_0["namespaces"@] == JsonView::List(namespaces)
            &&& name != "namespaces"@ ==> held(edited->Object_0["linux"@]->Object_0, name) is None
            &&& name != "linux"@ ==> held(edited->Object_0, name) == held(config->Object_0, name)
        }),
{
}

/// A profile that joins one namespace lists that one alone, and has no host name, domain
/// name or mounts of its own.
pub proof fn single_profiles_keep_no_mounts(config: JsonView, namespace: JsonView)
    requires
        single_profile(config, namespace) is Ok,
    ensures
        ({
            let edited = single_profile(config, namespace)->Ok_0->Object_0;
            &&& edited["linux"@]->Object_0["namespaces"@] == JsonView::List(seq![namespace])
            &&& held(edited, "hostname"@) is None
            &&& held(edited, "domainname"@) is None
            &&& held(edited, "mounts"@) is None
        }),
{
    reveal_strlit("linux");
    reveal_strlit("hostname");
    reveal_strlit("domainname");
    reveal_strlit("mounts");
    assert("linux"@.len() == 5 && "hostname"@.len() == 8 && "domainname"@.len() == 10
        && "mounts"@.len() == 6);
    let bare = without_own_mounts(config)->Ok_0;
    profiles_hold_their_namespaces_alone(bare, seq![namespace], "hostname"@);
    profiles_hold_their_namespaces_alone(bare, seq![namespace], "domainname"@);
    profiles_hold_their_namespaces_alone(bare, seq![namespace], "mounts"@);
}

/// Of the three profiles the first joins all but mounts, the second mounts alone, and the
/// third names the donor's network as a namespace of host names.
pub proof fn profiles_join_what_they_say(config: JsonView, pid: i32)
    requires
        join_profiles(config, pid) is Ok,
    ensures
        ({
            let profiles = join_profiles(config, pid)->Ok_0;
            &&& profiles.0->Object_0["linux"@]->Object_0["namespaces"@] == JsonView::List(
                joined_namespaces(pid),
            )
            &&& profiles.1->Object_0["linux"@]->Object_0["namespaces"@] == JsonView::List(
                seq![joined_namespace("mount"@, pid, "mnt"@)],
            )
            &&& profiles.2->Object_0["linux"@]->Object_0["namespaces"@] == JsonView::List(
                seq![joined_namespace("uts"@, pid, "net"@)],
            )
            &&& profiles.0->Object_0["process"@]->Object_0["args"@]->List_0[2] == JsonView::Text(
                JOINED_USER_DEVICE_WORKLOAD@,
            )
            &&& profiles.1->Object_0["process"@]->Object_0["args"@]->List_0[2] == JsonView::Text(
                JOIN_WORKLOAD@,
            )
        }),
{
    reveal_strlit("linux");
    reveal_strlit("process");
    assert("linux"@ != "process"@);
    let first = with_profile(config, joined_namespaces(pid))->Ok_0;
    commands_replace_the_third_word(first, JOINED_USER_DEVICE_WORKLOAD@, "linux"@);
    profiles_hold_their_namespaces_alone(config, joined_namespaces(pid), "process"@);
    let second = single_profile(config, joined_namespace("mount"@, pid, "mnt"@))->Ok_0;
    commands_replace_the_third_word(second, JOIN_WORKLOAD@, "linux"@);
    single_profiles_keep_no_mounts(config, joined_namespace("mount"@, pid, "mnt"@));
    single_profiles_keep_no_mounts(config, joined_namespace("uts"@, pid, "net"@));
    assert(profiles_kept(first, non_mount_profile(config, pid)->Ok_0));
    assert(profiles_kept(second, mount_profile(config, pid)->Ok_0));
}

/// Two configurations have the same Linux section.
spec fn profiles_kept(before: JsonView, after: JsonView) -> bool {
    held(before->Object_0, "linux"@) == held(after->Object_0, "linux"@)
}

/// No texts are made for a donor that cannot exist, and a base that says nothing gives
/// none.
pub proof fn donors_are_processes(base: Seq<char>, pid: i32)
    ensures
        join_texts(base, pid) is Ok ==> pid > 0 && parsed_text(base) is Ok,
        join_texts(base, pid) matches Ok(texts) ==> {
            let profiles = join_profiles(parsed_text(base)->Ok_0, pid)->Ok_0;
            &&& written_text(profiles.0) == Ok::<Seq<char>, Seq<char>>(texts.0)
            &&& written_text(profiles.1) == Ok::<Seq<char>, Seq<char>>(texts.1)
            &&& written_text(profiles.2) == Ok::<Seq<char>, Seq<char>>(texts.2)
        },
{
}

/// A profile that inherits the network keeps every other namespace in its order.
pub proof fn other_namespaces_are_kept(namespaces: Seq<JsonView>, more: JsonView)
    ensures
        text_member(more, "type"@) == Some("network"@) ==> without_network(namespaces.push(more))
            == without_network(namespaces),
        text_member(more, "type"@) != Some("network"@) ==> without_network(namespaces.push(more))
            == without_network(namespaces).push(more),
        without_network(Seq::<JsonView>::empty()) == Seq::<JsonView>::empty(),
{
    assert(namespaces.push(more).drop_last() =~= namespaces);
}

/// The text of a profile that inherits the network is that of the profile, and there is
/// none where the base says nothing or lacks a Linux section.
pub proof fn host_network_texts_are_of_the_profile(base: Seq<char>, cgroup_path: Seq<char>)
    ensures
        host_network_text(base, cgroup_path) matches Ok(text) ==> parsed_text(base) is Ok
            && host_network_profile(parsed_text(base)->Ok_0, cgroup_path) is Ok && written_text(
            host_network_profile(parsed_text(base)->Ok_0, cgroup_path)->Ok_0,
        ) == Ok::<Seq<char>, Seq<char>>(text),
{
}

} // verus!
