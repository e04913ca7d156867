//! Processes: their identity as the kernel prints it, who descends from whom,
//! and which of them still live.

use vstd::prelude::*;
use crate::native_checkpoint::state::FileKind;
use crate::text::{
    append_decimal, chars_of, copy_range, decimal, fields, find_char, find_pair, first_pair,
    last_pair, parse_u32, parse_u64, parse_unsigned, parsed_unsigned, rfind_char, rfind_pair,
    split_fields, starts_with_text, string_of, trim, trimmed, u32_error_text, u64_error_text, views,
};

verus! {

/// A process that cannot be confused with a later one of the same number.
#[derive(Clone, Copy, Debug, PartialEq, Eq, Structural)]
pub struct NativeLinuxProcessIdentity {
    pub pid: u32,
    pub process_group_id: u32,
    pub start_time_ticks: u64,
}

/// A process as the kernel shows it at one moment.
#[derive(Clone, Copy, Debug, PartialEq, Eq, Structural)]
pub struct ProcessObservation {
    pub identity: NativeLinuxProcessIdentity,
    pub state: u8,
}

impl ProcessObservation {
    /// Whether the process has ended: it is a zombie or dead.
    pub fn is_terminated(self) -> (ended: bool)
        ensures
            ended == has_ended(self.state),
    {
        self.state == 90 || self.state == 88 || self.state == 120
    }
}

/// The state letters of a process that has ended: `Z`, `X` and `x`.
pub open spec fn has_ended(state: u8) -> bool {
    state == 'Z' as u8 || state == 'X' as u8 || state == 'x' as u8
}

/// Where the kernel prints the status of a process.
pub open spec fn stat_path(pid: u32) -> Seq<char> {
    "/proc/"@ + decimal(pid as nat) + "/stat"@
}

/// Where the kernel prints the status of a process.
pub fn stat_path_of(pid: u32) -> (path: String)
    ensures
        path@ == stat_path(pid),
{
    let mut path = "/proc/".to_owned();
    append_decimal(&mut path, pid as u64);
    path.append("/stat");
    path
}

/// What the fields behind the command say of a process: the state, the parent,
/// the process group and, nineteen fields after the state, the start time.
pub open spec fn stat_fields(pid: u32, path: Seq<char>, rest: Seq<Seq<char>>) -> Result<
    ProcessObservation,
    Seq<char>,
> {
    if !(rest.len() > 0 && rest[0].len() == 1 && (rest[0][0] as int) < 128) {
        Err("process stat has no valid state: "@ + path)
    } else if !(rest.len() > 2 && parsed_unsigned(rest[2], u32::MAX as nat) is Some) {
        Err("process stat has no valid process group: "@ + path)
    } else if !(rest.len() > 19 && parsed_unsigned(rest[19], u64::MAX as nat) is Some) {
        Err("process stat has no valid start time: "@ + path)
    } else {
        Ok(
            ProcessObservation {
                identity: NativeLinuxProcessIdentity {
                    pid,
                    process_group_id: parsed_unsigned(rest[2], u32::MAX as nat)->0 as u32,
                    start_time_ticks: parsed_unsigned(rest[19], u64::MAX as nat)->0 as u64,
                },
                state: rest[0][0] as u8,
            },
        )
    }
}

/// What is wrong with the number that a printed status starts with, if anything.
pub open spec fn stat_number_fault(pid: u32, path: Seq<char>, number: Seq<char>) -> Option<
    Seq<char>,
> {
    match parsed_unsigned(number, u32::MAX as nat) {
        None => Some("invalid process stat PID at "@ + path + ": "@ + u32_error_text(number)),
        Some(reported) => if reported != pid {
            Some(
                "process stat PID changed from "@ + decimal(pid as nat) + " to "@ + decimal(
                    reported,
                ) + " at "@ + path,
            )
        } else {
            None
        },
    }
}

/// What a printed status says of a process, or what is wrong with it. The
/// command stands between the first " (" and the last ") ".
pub open spec fn stat_observation(pid: u32, path: Seq<char>, encoded: Seq<char>) -> Result<
    ProcessObservation,
    Seq<char>,
> {
    match (first_pair(encoded, ' ', '('), last_pair(encoded, ')', ' ')) {
        (None, _) => Err("process stat has no command start: "@ + path),
        (_, None) => Err("process stat has no command end: "@ + path),
        (Some(opening), Some(closing)) => if closing <= opening + 1 {
            Err("process stat command is malformed: "@ + path)
        } else {
            match stat_number_fault(pid, path, encoded.take(opening)) {
                Some(fault) => Err(fault),
                None => stat_fields(pid, path, fields(encoded.skip(closing + 2), true)),
            }
        },
    }
}

fn followed_by(message: &str, tail: &str) -> (text: String)
    ensures
        text@ == message@ + tail@,
{
    let mut text = message.to_owned();
    text.append(tail);
    text
}

/// Reads the printed status of a process.
pub fn parse_process_stat(pid: u32, path: &str, encoded: &str) -> (result: Result<
    ProcessObservation,
    String,
>)
    ensures
        match stat_observation(pid, path@, encoded@) {
            Ok(observation) => result == Ok::<ProcessObservation, String>(observation),
            Err(message) => result matches Err(reported) && reported@ == message,
        },
{
    let characters = chars_of(encoded);
    let opening: usize = match find_pair(&characters, ' ', '(') {
        Some(place) => place,
        None => return Err(followed_by("process stat has no command start: ", path)),
    };
    let closing: usize = match rfind_pair(&characters, ')', ' ') {
        Some(place) => place,
        None => return Err(followed_by("process stat has no command end: ", path)),
    };
    if closing <= opening + 1 {
        return Err(followed_by("process stat command is malformed: ", path));
    }
    let number = string_of(&copy_range(&characters, 0, opening));
    assert(number@ =~= encoded@.take(opening as int));
    if let Some(fault) = check_stat_number(pid, path, &number) {
        return Err(fault);
    }
    let tail = copy_range(&characters, closing + 2, characters.len());
    assert(tail@ =~= encoded@.skip(closing + 2));
    let rest = split_fields(&tail, true);
    read_stat_fields(pid, path, &rest)
}

fn check_stat_number(pid: u32, path: &str, number: &str) -> (fault: Option<String>)
    ensures
        crate::text::optional_view(fault) == stat_number_fault(pid, path@, number@),
{
    match parse_u32(number) {
        Ok(reported) => {
            if reported == pid {
                return None;
            }
            let mut message = "process stat PID changed from ".to_owned();
            append_decimal(&mut message, pid as u64);
            message.append(" to ");
            append_decimal(&mut message, reported as u64);
            message.append(" at ");
            message.append(path);
            Some(message)
        },
        Err(cause) => {
            let mut message = followed_by("invalid process stat PID at ", path);
            message.append(": ");
            message.append(&cause);
            Some(message)
        },
    }
}

fn ascii_byte(character: char) -> (byte: Option<u8>)
    ensures
        match byte {
            Some(byte) => (character as int) < 128 && byte == character as u8,
            None => character as int >= 128,
        },
{
    let code: u32 = character as u32;
    if code < 128 {
        Some(code as u8)
    } else {
        None
    }
}

fn read_stat_fields(pid: u32, path: &str, rest: &Vec<Vec<char>>) -> (result: Result<
    ProcessObservation,
    String,
>)
    ensures
        match stat_fields(pid, path@, views(rest@)) {
            Ok(observation) => result == Ok::<ProcessObservation, String>(observation),
            Err(message) => result matches Err(reported) && reported@ == message,
        },
{
    let ghost split = views(rest@);
    proof {
        assert(split.len() == rest@.len());
        assert(rest@.len() > 0 ==> split[0] == rest@[0]@);
        assert(rest@.len() > 2 ==> split[2] == rest@[2]@);
        assert(rest@.len() > 19 ==> split[19] == rest@[19]@);
    }
    if rest.len() == 0 || rest[0].len() != 1 {
        return Err(followed_by("process stat has no valid state: ", path));
    }
    let letter: char = rest[0][0];
    assert(letter == split[0][0]);
    let state = match ascii_byte(letter) {
        Some(state) => state,
        None => return Err(followed_by("process stat has no valid state: ", path)),
    };
    let group = if rest.len() > 2 {
        parse_unsigned(&rest[2], u32::MAX as u64)
    } else {
        None
    };
    let process_group_id = match group {
        Some(group) => group as u32,
        None => return Err(followed_by("process stat has no valid process group: ", path)),
    };
    let start = if rest.len() > 19 {
        parse_unsigned(&rest[19], u64::MAX)
    } else {
        None
    };
    let start_time_ticks = match start {
        Some(start) => start,
        None => return Err(followed_by("process stat has no valid start time: ", path)),
    };
    Ok(
        ProcessObservation {
            identity: NativeLinuxProcessIdentity { pid, process_group_id, start_time_ticks },
            state,
        },
    )
}

/// The identity that an observation gives, if the process was found alive.
pub open spec fn captured_identity(observation: Option<ProcessObservation>) -> Option<
    NativeLinuxProcessIdentity,
> {
    match observation {
        Some(found) if !has_ended(found.state) => Some(found.identity),
        _ => None,
    }
}

/// The identity of a process that was found alive.
pub fn capture_native_process_identity(
    pid: u32,
    observation: Option<ProcessObservation>,
) -> (result: Result<NativeLinuxProcessIdentity, String>)
    ensures
        match observation {
            Some(found) if !has_ended(found.state) => result == Ok::<
                NativeLinuxProcessIdentity,
                String,
            >(found.identity),
            _ => result matches Err(message) && message@ == "process PID "@ + decimal(pid as nat)
                + " exited before its identity could be captured"@,
        },
        result is Ok <==> captured_identity(observation) is Some,
        result matches Ok(identity) ==> captured_identity(observation) == Some(identity),
{
    if let Some(found) = observation {
        if !found.is_terminated() {
            return Ok(found.identity);
        }
    }
    let mut message = "process PID ".to_owned();
    append_decimal(&mut message, pid as u64);
    message.append(" exited before its identity could be captured");
    Err(message)
}

/// Whether a process is the one that was captured and still lives.
pub fn process_still_live(
    identity: &NativeLinuxProcessIdentity,
    observation: Option<ProcessObservation>,
) -> (live: bool)
    ensures
        live == (observation matches Some(found) && !has_ended(found.state)
            && found.identity.start_time_ticks == identity.start_time_ticks),
{
    match capture_native_process_identity(identity.pid, observation) {
        Ok(observed) => observed.start_time_ticks == identity.start_time_ticks,
        Err(_) => false,
    }
}

/// Whether a captured process has ended: nothing of its number is there, or
/// something else, or what is left of it.
pub fn process_terminated(
    identity: &NativeLinuxProcessIdentity,
    observation: Option<ProcessObservation>,
) -> (ended: bool)
    ensures
        ended == !(observation matches Some(found) && !has_ended(found.state)
            && found.identity.start_time_ticks == identity.start_time_ticks),
{
    match observation {
        None => true,
        Some(found) => found.identity.start_time_ticks != identity.start_time_ticks
            || found.is_terminated(),
    }
}

/// A Linux process and what it was started as.
#[derive(Clone, Debug)]
pub struct LinuxProcessIdentity {
    pub pid: u32,
    pub parent_pid: u32,
    pub process_group_id: u32,
    pub start_time_ticks: u64,
    pub command: String,
}

/// A Linux process, as values.
pub struct LinuxProcessView {
    pub pid: u32,
    pub parent_pid: u32,
    pub process_group_id: u32,
    pub start_time_ticks: u64,
    pub command: Seq<char>,
}

impl View for LinuxProcessIdentity {
    type V = LinuxProcessView;

    open spec fn view(&self) -> LinuxProcessView {
        LinuxProcessView {
            pid: self.pid,
            parent_pid: self.parent_pid,
            process_group_id: self.process_group_id,
            start_time_ticks: self.start_time_ticks,
            command: self.command@,
        }
    }
}

impl LinuxProcessIdentity {
    /// Whether two identities are the same.
    pub fn same(&self, other: &LinuxProcessIdentity) -> (equal: bool)
        ensures
            equal == (self@ == other@),
    {
        self.pid == other.pid && self.parent_pid == other.parent_pid && self.process_group_id
            == other.process_group_id && self.start_time_ticks == other.start_time_ticks
            && crate::text::text_eq(&self.command, &other.command)
    }

    /// The same identity again.
    pub fn copy(&self) -> (identity: LinuxProcessIdentity)
        ensures
            identity == *self,
    {
        LinuxProcessIdentity {
            pid: self.pid,
            parent_pid: self.parent_pid,
            process_group_id: self.process_group_id,
            start_time_ticks: self.start_time_ticks,
            command: self.command.clone(),
        }
    }
}

/// The identity that a printed status gives a process, or what is wrong with it.
/// The command stands between the first "(" and the last ")".
pub open spec fn stat_identity(pid: u32, encoded: Seq<char>) -> Result<
    LinuxProcessView,
    Seq<char>,
> {
    let path = stat_path(pid);
    match (encoded.index_of_first('('), encoded.index_of_last(')')) {
        (None, _) => Err("process stat has no command start: "@ + path),
        (_, None) => Err("process stat has no command end: "@ + path),
        (Some(open), Some(close)) => if close <= open {
            Err("process stat command is malformed: "@ + path)
        } else {
            let number = trimmed(encoded.take(open));
            let rest = fields(encoded.skip(close + 1), false);
            match parsed_unsigned(number, u32::MAX as nat) {
                None => Err("invalid process stat PID: "@ + u32_error_text(number)),
                Some(reported) => if reported != pid {
                    Err(
                        "process stat PID changed from "@ + decimal(pid as nat) + " to "@
                            + decimal(reported),
                    )
                } else if rest.len() <= 19 {
                    Err("process stat is truncated: "@ + path)
                } else if parsed_unsigned(rest[1], u32::MAX as nat) is None {
                    Err("invalid parent PID: "@ + u32_error_text(rest[1]))
                } else if parsed_unsigned(rest[2], u32::MAX as nat) is None {
                    Err("invalid process group ID: "@ + u32_error_text(rest[2]))
                } else if parsed_unsigned(rest[19], u64::MAX as nat) is None {
                    Err("invalid process start time: "@ + u64_error_text(rest[19]))
                } else {
                    Ok(
                        LinuxProcessView {
                            pid,
                            parent_pid: parsed_unsigned(rest[1], u32::MAX as nat)->0 as u32,
                            process_group_id: parsed_unsigned(rest[2], u32::MAX as nat)->0 as u32,
                            start_time_ticks: parsed_unsigned(rest[19], u64::MAX as nat)->0 as u64,
                            command: encoded.subrange(open + 1, close),
                        },
                    )
                },
            }
        },
    }
}

/// Reads the identity of a process from its printed status.
pub fn process_identity(pid: u32, encoded: &str) -> (result: Result<LinuxProcessIdentity, String>)
    ensures
        match stat_identity(pid, encoded@) {
            Ok(identity) => result matches Ok(found) && found@ == identity,
            Err(message) => result matches Err(reported) && reported@ == message,
        },
{
    let path = stat_path_of(pid);
    let characters = chars_of(encoded);
    let length = characters.len();
    let open: usize = match find_char(&characters, '(') {
        Some(place) => place,
        None => return Err(followed_by("process stat has no command start: ", &path)),
    };
    let close: usize = match rfind_char(&characters, ')') {
        Some(place) => place,
        None => return Err(followed_by("process stat has no command end: ", &path)),
    };
    if close <= open {
        return Err(followed_by("process stat command is malformed: ", &path));
    }
    let head = copy_range(&characters, 0, open);
    assert(head@ =~= encoded@.take(open as int));
    let number = string_of(&trim(&head));
    let reported = match parse_u32(&number) {
        Ok(reported) => reported,
        Err(cause) => return Err(followed_by("invalid process stat PID: ", &cause)),
    };
    if reported != pid {
        let mut message = "process stat PID changed from ".to_owned();
        append_decimal(&mut message, pid as u64);
        message.append(" to ");
        append_decimal(&mut message, reported as u64);
        return Err(message);
    }
    let command = string_of(&copy_range(&characters, open + 1, close));
    let tail = copy_range(&characters, close + 1, length);
    assert(tail@ =~= encoded@.skip(close + 1));
    let rest = split_fields(&tail, false);
    let ghost split = fields(encoded@.skip(close + 1), false);
    assert(views(rest@) == split);
    assert(split.len() == rest@.len());
    if rest.len() <= 19 {
        return Err(followed_by("process stat is truncated: ", &path));
    }
    assert(split[1] == rest@[1]@);
    assert(split[2] == rest@[2]@);
    assert(split[19] == rest@[19]@);
    let parent_pid = match parse_u32(&string_of(&rest[1])) {
        Ok(value) => value,
        Err(cause) => return Err(followed_by("invalid parent PID: ", &cause)),
    };
    let process_group_id = match parse_u32(&string_of(&rest[2])) {
        Ok(value) => value,
        Err(cause) => return Err(followed_by("invalid process group ID: ", &cause)),
    };
    let start_time_ticks = match parse_u64(&string_of(&rest[19])) {
        Ok(value) => value,
        Err(cause) => return Err(followed_by("invalid process start time: ", &cause)),
    };
    Ok(LinuxProcessIdentity { pid, parent_pid, process_group_id, start_time_ticks, command })
}

/// The number that names a process directory, if the name is one.
pub fn process_number(name: &str) -> (pid: Option<u32>)
    ensures
        match pid {
            Some(pid) => parsed_unsigned(name@, u32::MAX as nat) == Some(pid as nat),
            None => parsed_unsigned(name@, u32::MAX as nat) is None,
        },
{
    match parse_u32(name) {
        Ok(pid) => Some(pid),
        Err(_) => None,
    }
}

/// The number of an open descriptor, from its name.
pub fn descriptor_number(name: &str) -> (result: Result<u32, String>)
    ensures
        match result {
            Ok(descriptor) => parsed_unsigned(name@, u32::MAX as nat) == Some(descriptor as nat),
            Err(message) => parsed_unsigned(name@, u32::MAX as nat) is None && message@
                == "invalid descriptor name: "@ + u32_error_text(name@),
        },
{
    match parse_u32(name) {
        Ok(descriptor) => Ok(descriptor),
        Err(cause) => Err(followed_by("invalid descriptor name: ", &cause)),
    }
}

/// What the names of agent endpoints start with.
pub const AGENT_ENDPOINT_PREFIX: &'static str = "a3s-oci-agent-";

/// Whether a name is that of an agent endpoint.
pub fn is_agent_endpoint(name: &str) -> (holds: bool)
    ensures
        holds == AGENT_ENDPOINT_PREFIX@.is_prefix_of(name@),
{
    starts_with_text(name, AGENT_ENDPOINT_PREFIX)
}

/// A process and its parent.
#[derive(Clone, Copy, Debug, PartialEq, Eq, Structural)]
pub struct ProcessNode {
    pub pid: u32,
    pub parent_pid: u32,
}

/// Whether a process is at most so many steps of parentage below another.
pub open spec fn within_steps(nodes: Seq<ProcessNode>, root: u32, steps: nat, pid: u32) -> bool
    decreases steps,
{
    if steps == 0 {
        pid == root
    } else {
        ||| within_steps(nodes, root, (steps - 1) as nat, pid)
        ||| exists|i: int|
            0 <= i < nodes.len() && (#[trigger] nodes[i]).pid == pid && within_steps(
                nodes,
                root,
                (steps - 1) as nat,
                nodes[i].parent_pid,
            )
    }
}

/// Whether a process is another one or descends from it.
pub open spec fn descends(nodes: Seq<ProcessNode>, root: u32, pid: u32) -> bool {
    exists|steps: nat| #[trigger] within_steps(nodes, root, steps, pid)
}

spec fn kept(nodes: Seq<ProcessNode>, marks: Seq<bool>, root: u32, pid: u32) -> bool {
    pid == root || exists|i: int| 0 <= i < nodes.len() && marks[i] && (#[trigger] nodes[i]).pid == pid
}

spec fn settled(nodes: Seq<ProcessNode>, marks: Seq<bool>, root: u32) -> bool {
    forall|i: int|
        0 <= i < nodes.len() && kept(nodes, marks, root, (#[trigger] nodes[i]).parent_pid)
            ==> marks[i]
}

spec fn sound(nodes: Seq<ProcessNode>, marks: Seq<bool>, root: u32) -> bool {
    forall|i: int|
        0 <= i < nodes.len() && marks[i] ==> descends(nodes, root, (#[trigger] nodes[i]).pid)
}

spec fn open_count(marks: Seq<bool>) -> nat
    decreases marks.len(),
{
    if marks.len() == 0 {
        0
    } else {
        open_count(marks.drop_last()) + if marks.last() {
            0nat
        } else {
            1nat
        }
    }
}

proof fn marking_lowers_count(marks: Seq<bool>, place: int)
    requires
        0 <= place < marks.len(),
        !marks[place],
    ensures
        open_count(marks.update(place, true)) == open_count(marks) - 1,
    decreases marks.len(),
{
    let after = marks.update(place, true);
    if place == marks.len() - 1 {
        assert(after.drop_last() =~= marks.drop_last());
    } else {
        assert(after.drop_last() =~= marks.drop_last().update(place, true));
        marking_lowers_count(marks.drop_last(), place);
    }
}

proof fn settled_is_complete(
    nodes: Seq<ProcessNode>,
    marks: Seq<bool>,
    root: u32,
    steps: nat,
    pid: u32,
)
    requires
        marks.len() == nodes.len(),
        settled(nodes, marks, root),
        within_steps(nodes, root, steps, pid),
    ensures
        kept(nodes, marks, root, pid),
    decreases steps,
{
    if steps > 0 {
        let fewer = (steps - 1) as nat;
        if within_steps(nodes, root, fewer, pid) {
            settled_is_complete(nodes, marks, root, fewer, pid);
        } else {
            let i = choose|i: int|
                0 <= i < nodes.len() && (#[trigger] nodes[i]).pid == pid && within_steps(
                    nodes,
                    root,
                    fewer,
                    nodes[i].parent_pid,
                );
            settled_is_complete(nodes, marks, root, fewer, nodes[i].parent_pid);
            assert(marks[i]);
        }
    }
}

proof fn child_descends(nodes: Seq<ProcessNode>, root: u32, child: int)
    requires
        0 <= child < nodes.len(),
        descends(nodes, root, nodes[child].parent_pid),
    ensures
        descends(nodes, root, nodes[child].pid),
{
    let steps = choose|steps: nat| #[trigger]
        within_steps(nodes, root, steps, nodes[child].parent_pid);
    assert(within_steps(nodes, root, (steps + 1) as nat, nodes[child].pid)) by {
        assert(((steps + 1) as nat - 1) as nat == steps);
        assert(nodes[child].pid == nodes[child].pid);
    }
}

fn is_kept(nodes: &Vec<ProcessNode>, marks: &Vec<bool>, root: u32, pid: u32) -> (holds: bool)
    requires
        marks@.len() == nodes@.len(),
    ensures
        holds == kept(nodes@, marks@, root, pid),
{
    if pid == root {
        return true;
    }
    let mut next: usize = 0;
    while next < nodes.len()
        invariant
            next <= nodes@.len(),
            marks@.len() == nodes@.len(),
            pid != root,
            forall|i: int| 0 <= i < next ==> !(marks@[i] && (#[trigger] nodes@[i]).pid == pid),
        decreases nodes@.len() - next,
    {
        if marks[next] && nodes[next].pid == pid {
            return true;
        }
        next = next + 1;
    }
    false
}

/// Marks one process that belongs to the descendants and is not marked yet.
fn mark_one(nodes: &Vec<ProcessNode>, marks: &mut Vec<bool>, root: u32) -> (changed: bool)
    requires
        old(marks)@.len() == nodes@.len(),
        sound(nodes@, old(marks)@, root),
    ensures
        final(marks)@.len() == nodes@.len(),
        sound(nodes@, final(marks)@, root),
        changed ==> open_count(final(marks)@) < open_count(old(marks)@),
        !changed ==> settled(nodes@, final(marks)@, root),
{
    let mut next: usize = 0;
    while next < nodes.len()
        invariant
            next <= nodes@.len(),
            marks@ == old(marks)@,
            marks@.len() == nodes@.len(),
            sound(nodes@, marks@, root),
            forall|i: int|
                0 <= i < next && kept(nodes@, marks@, root, (#[trigger] nodes@[i]).parent_pid)
                    ==> marks@[i],
        decreases nodes@.len() - next,
    {
        if !marks[next] && is_kept(nodes, marks, root, nodes[next].parent_pid) {
            let ghost before = marks@;
            proof {
                let parent = nodes@[next as int].parent_pid;
                assert(descends(nodes@, root, parent)) by {
                    if parent == root {
                        assert(within_steps(nodes@, root, 0, parent));
                    }
                }
                child_descends(nodes@, root, next as int);
                marking_lowers_count(before, next as int);
            }
            marks.set(next, true);
            return true;
        }
        next = next + 1;
    }
    false
}

/// Tells for each process whether it descends from the given one.
fn descendant_marks(nodes: &Vec<ProcessNode>, root: u32) -> (marks: Vec<bool>)
    ensures
        marks@.len() == nodes@.len(),
        forall|pid: u32|
            #[trigger] kept(nodes@, marks@, root, pid) <==> descends(nodes@, root, pid),
{
    let mut marks: Vec<bool> = Vec::new();
    let mut next: usize = 0;
    while next < nodes.len()
        invariant
            next <= nodes@.len(),
            marks@.len() == next,
            forall|i: int| 0 <= i < next ==> !#[trigger] marks@[i],
        decreases nodes@.len() - next,
    {
        marks.push(false);
        next = next + 1;
    }
    loop
        invariant
            marks@.len() == nodes@.len(),
            sound(nodes@, marks@, root),
        ensures
            settled(nodes@, marks@, root),
        decreases open_count(marks@),
    {
        let changed = mark_one(nodes, &mut marks, root);
        if !changed {
            break;
        }
    }
    proof {
        assert forall|pid: u32| #[trigger] kept(nodes@, marks@, root, pid) <==> descends(
            nodes@,
            root,
            pid,
        ) by {
            if kept(nodes@, marks@, root, pid) && pid == root {
                assert(within_steps(nodes@, root, 0, pid));
            }
            if descends(nodes@, root, pid) {
                let steps = choose|steps: nat| #[trigger] within_steps(nodes@, root, steps, pid);
                settled_is_complete(nodes@, marks@, root, steps, pid);
            }
        }
    }
    marks
}

/// The places of the processes that descend from the given one, without it.
pub open spec fn descendant_places(nodes: Seq<ProcessNode>, root: u32, upto: int) -> Seq<int>
    decreases upto,
{
    if upto <= 0 {
        Seq::empty()
    } else {
        let before = descendant_places(nodes, root, upto - 1);
        let pid = nodes[upto - 1].pid;
        if pid != root && descends(nodes, root, pid) {
            before.push(upto - 1)
        } else {
            before
        }
    }
}

/// The places of the processes that descend from the given one, in order.
pub fn process_descendants(nodes: &Vec<ProcessNode>, root: u32) -> (places: Vec<usize>)
    ensures
        places@.map_values(|place: usize| place as int) == descendant_places(
            nodes@,
            root,
            nodes@.len() as int,
        ),
        forall|i: int| 0 <= i < places@.len() ==> #[trigger] places@[i] < nodes@.len(),
{
    let marks = descendant_marks(nodes, root);
    let mut places: Vec<usize> = Vec::new();
    let mut next: usize = 0;
    assert(places@.map_values(|place: usize| place as int) =~= descendant_places(nodes@, root, 0));
    while next < nodes.len()
        invariant
            next <= nodes@.len(),
            marks@.len() == nodes@.len(),
            forall|pid: u32| #[trigger]
                kept(nodes@, marks@, root, pid) <==> descends(nodes@, root, pid),
            places@.map_values(|place: usize| place as int) == descendant_places(
                nodes@,
                root,
                next as int,
            ),
            forall|i: int| 0 <= i < places@.len() ==> #[trigger] places@[i] < nodes@.len(),
        decreases nodes@.len() - next,
    {
        let pid = nodes[next].pid;
        if pid != root && is_kept(nodes, &marks, root, pid) {
            let ghost before = places@.map_values(|place: usize| place as int);
            places.push(next);
            assert(places@.map_values(|place: usize| place as int) =~= before.push(next as int));
        }
        next = next + 1;
    }
    places
}

/// The descendants of a process are those below it and those below its
/// descendants: whoever descends from a descendant descends from the process.
pub proof fn descent_is_transitive(nodes: Seq<ProcessNode>, root: u32, middle: u32, pid: u32)
    requires
        descends(nodes, root, middle),
        descends(nodes, middle, pid),
    ensures
        descends(nodes, root, pid),
{
    let steps = choose|steps: nat| #[trigger] within_steps(nodes, middle, steps, pid);
    descent_extends(nodes, root, middle, steps, pid);
}

proof fn descent_extends(
    nodes: Seq<ProcessNode>,
    root: u32,
    middle: u32,
    steps: nat,
    pid: u32,
)
    requires
        descends(nodes, root, middle),
        within_steps(nodes, middle, steps, pid),
    ensures
        descends(nodes, root, pid),
    decreases steps,
{
    if steps > 0 {
        let fewer = (steps - 1) as nat;
        if within_steps(nodes, middle, fewer, pid) {
            descent_extends(nodes, root, middle, fewer, pid);
        } else {
            let i = choose|i: int|
                0 <= i < nodes.len() && (#[trigger] nodes[i]).pid == pid && within_steps(
                    nodes,
                    middle,
                    fewer,
                    nodes[i].parent_pid,
                );
            descent_extends(nodes, root, middle, fewer, nodes[i].parent_pid);
            child_descends(nodes, root, i);
        }
    }
}

/// The descendants among the processes of a Linux host.
pub fn linux_descendants(all: &Vec<LinuxProcessIdentity>, root: u32) -> (found: Vec<
    LinuxProcessIdentity,
>)
    ensures
        ({
            let nodes = linux_nodes(all@);
            let places = descendant_places(nodes, root, nodes.len() as int);
            found@.len() == places.len() && forall|i: int|
                0 <= i < places.len() ==> #[trigger] found@[i] == all@[places[i]]
        }),
{
    let mut nodes: Vec<ProcessNode> = Vec::new();
    let mut next: usize = 0;
    while next < all.len()
        invariant
            next <= all@.len(),
            nodes@ == linux_nodes(all@.take(next as int)),
        decreases all@.len() - next,
    {
        nodes.push(ProcessNode { pid: all[next].pid, parent_pid: all[next].parent_pid });
        assert(nodes@ =~= linux_nodes(all@.take(next + 1)));
        next = next + 1;
    }
    assert(all@.take(all@.len() as int) =~= all@);
    let places = process_descendants(&nodes, root);
    let ghost expected = descendant_places(nodes@, root, nodes@.len() as int);
    let mut found: Vec<LinuxProcessIdentity> = Vec::new();
    let mut at: usize = 0;
    assert(places@.len() == expected.len());
    while at < places.len()
        invariant
            at <= places@.len(),
            found@.len() == at,
            nodes@.len() == all@.len(),
            places@.map_values(|place: usize| place as int) == expected,
            places@.len() == expected.len(),
            forall|i: int| 0 <= i < places@.len() ==> #[trigger] places@[i] < nodes@.len(),
            forall|i: int| 0 <= i < at ==> #[trigger] found@[i] == all@[expected[i]],
        decreases places@.len() - at,
    {
        assert(places@[at as int] < nodes@.len());
        let place = places[at];
        assert(places@.map_values(|place: usize| place as int)[at as int] == place as int);
        found.push(all[place].copy());
        at = at + 1;
    }
    found
}

/// The parentage of Linux processes.
pub open spec fn linux_nodes(all: Seq<LinuxProcessIdentity>) -> Seq<ProcessNode> {
    Seq::new(all.len(), |i: int| ProcessNode { pid: all[i].pid, parent_pid: all[i].parent_pid })
}

/// One life of a process number.
#[derive(Clone, Copy, Debug, PartialEq, Eq, Structural)]
pub struct Incarnation {
    pub pid: u32,
    pub start_time: u64,
}

/// Whether one of the expected processes is among the current ones.
pub fn any_still_live(expected: &Vec<Incarnation>, current: &Vec<Incarnation>) -> (live: bool)
    ensures
        live == exists|i: int|
            0 <= i < expected@.len() && current@.contains(#[trigger] expected@[i]),
{
    let mut next: usize = 0;
    while next < expected.len()
        invariant
            next <= expected@.len(),
            forall|i: int| 0 <= i < next ==> !current@.contains(#[trigger] expected@[i]),
        decreases expected@.len() - next,
    {
        let mut at: usize = 0;
        while at < current.len()
            invariant
                at <= current@.len(),
                next < expected@.len(),
                forall|i: int| 0 <= i < at ==> current@[i] != expected@[next as int],
            decreases current@.len() - at,
        {
            if current[at] == expected[next] {
                assert(current@.contains(expected@[next as int]));
                return true;
            }
            at = at + 1;
        }
        next = next + 1;
    }
    false
}

/// What a wait that looks again and again comes to: an answer, or another look.
pub fn poll(satisfied: bool, expired: bool) -> (answer: Option<bool>)
    ensures
        answer == if satisfied {
            Some(true)
        } else if expired {
            Some(false)
        } else {
            None
        },
{
    if satisfied {
        Some(true)
    } else if expired {
        Some(false)
    } else {
        None
    }
}

/// Whether a file is a socket that only its owner, the given user, may use.
pub open spec fn private_socket(kind: FileKind, uid: u32, mode: u32, user: u32) -> bool {
    kind is Socket && uid == user && mode & 0o777 == 0o600
}

/// Checks the socket that a host service has published.
pub fn check_private_socket(
    service: &str,
    path: &str,
    kind: FileKind,
    uid: u32,
    mode: u32,
    user: u32,
) -> (result: Result<(), String>)
    ensures
        match result {
            Ok(()) => private_socket(kind, uid, mode, user),
            Err(message) => !private_socket(kind, uid, mode, user) && message@ == service@
                + " endpoint is not a same-UID mode-0600 socket: "@ + path@,
        },
{
    let socket = match kind {
        FileKind::Socket => true,
        _ => false,
    };
    if socket && uid == user && mode & 0o777 == 0o600 {
        return Ok(());
    }
    let mut message = service.to_owned();
    message.append(" endpoint is not a same-UID mode-0600 socket: ");
    message.append(path);
    Err(message)
}

/// Checks that the other end of a host service's socket is the process that was
/// spawned.
pub fn check_socket_peer(peer: i32, expected: u32) -> (result: Result<u32, String>)
    ensures
        match result {
            Ok(pid) => pid == expected && peer == expected,
            Err(message) => if peer < 0 {
                message@ == "SO_PEERCRED returned invalid PID "@
                    + crate::native_linux_driver::signed_decimal(peer as int)
            } else {
                peer != expected && message@ == "Host Service socket peer PID "@ + decimal(
                    peer as nat,
                ) + " does not match spawned PID "@ + decimal(expected as nat)
            },
        },
{
    if peer < 0 {
        let mut message = "SO_PEERCRED returned invalid PID ".to_owned();
        crate::native_linux_driver::append_signed(&mut message, peer);
        return Err(message);
    }
    let pid = peer as u32;
    if pid != expected {
        let mut message = "Host Service socket peer PID ".to_owned();
        append_decimal(&mut message, pid as u64);
        message.append(" does not match spawned PID ");
        append_decimal(&mut message, expected as u64);
        return Err(message);
    }
    Ok(pid)
}

/// Checks that the socket of a dead owner may be removed: it is a socket of the
/// given user.
pub fn check_stale_socket(path: &str, kind: FileKind, uid: u32, user: u32) -> (result: Result<
    (),
    String,
>)
    ensures
        match result {
            Ok(()) => kind is Socket && uid == user,
            Err(message) => !(kind is Socket && uid == user) && message@
                == "refusing to remove stale native Host path "@ + path@
                + "; expected same-UID socket"@,
        },
{
    let socket = match kind {
        FileKind::Socket => true,
        _ => false,
    };
    if socket && uid == user {
        return Ok(());
    }
    let mut message = "refusing to remove stale native Host path ".to_owned();
    message.append(path);
    message.append("; expected same-UID socket");
    Err(message)
}

/// What became of connecting to a socket.
#[derive(Debug)]
pub enum Probe {
    /// Somebody listens.
    Connected,
    /// Nobody listens, or nothing is there.
    Absent,
    /// Connecting failed otherwise, for this cause.
    Failed(String),
}

/// Checks that nobody listens at the socket of a dead owner.
pub fn check_dead_listener(path: &str, probe: Probe) -> (result: Result<(), String>)
    ensures
        match probe {
            Probe::Absent => result is Ok,
            Probe::Connected => result matches Err(message) && message@
                == "native Host socket still has a live listener: "@ + path@,
            Probe::Failed(cause) => result matches Err(message) && message@
                == "could not prove native Host socket "@ + path@ + " is stale: "@ + cause@,
        },
{
    match probe {
        Probe::Absent => Ok(()),
        Probe::Connected => Err(
            followed_by("native Host socket still has a live listener: ", path),
        ),
        Probe::Failed(cause) => {
            let mut message = "could not prove native Host socket ".to_owned();
            message.append(path);
            message.append(" is stale: ");
            message.append(&cause);
            Err(message)
        },
    }
}

/// A host service that runs Linux KVM machines.
#[derive(Clone, Copy, Debug, PartialEq, Eq, Structural)]
pub enum HostServiceKind {
    Recovery,
    Soak,
}

impl HostServiceKind {
    /// The command that starts the service.
    pub fn command(self) -> (text: &'static str)
        ensures
            text@ == match self {
                HostServiceKind::Recovery => "linux-kvm-recovery-host-service"@,
                HostServiceKind::Soak => "linux-kvm-soak-host-service"@,
            },
    {
        match self {
            HostServiceKind::Recovery => "linux-kvm-recovery-host-service",
            HostServiceKind::Soak => "linux-kvm-soak-host-service",
        }
    }

    /// What messages call the service.
    pub fn label(self) -> (text: &'static str)
        ensures
            text@ == match self {
                HostServiceKind::Recovery => "Linux KVM recovery Host Service"@,
                HostServiceKind::Soak => "Linux KVM soak Host Service"@,
            },
    {
        match self {
            HostServiceKind::Recovery => "Linux KVM recovery Host Service",
            HostServiceKind::Soak => "Linux KVM soak Host Service",
        }
    }
}

/// The arguments of a host service with virtual machines.
pub fn service_arguments(command: &str, root: &str, shim: &str, manifest: &str) -> (arguments: Vec<
    String,
>)
    ensures
        crate::text::string_views(arguments@) == seq![
            command@,
            "--root"@,
            root@,
            "--shim"@,
            shim@,
            "--system-image-manifest"@,
            manifest@,
        ],
{
    let mut arguments: Vec<String> = Vec::new();
    arguments.push(command.to_owned());
    arguments.push("--root".to_owned());
    arguments.push(root.to_owned());
    arguments.push("--shim".to_owned());
    arguments.push(shim.to_owned());
    arguments.push("--system-image-manifest".to_owned());
    arguments.push(manifest.to_owned());
    assert(crate::text::string_views(arguments@) =~= seq![
        command@,
        "--root"@,
        root@,
        "--shim"@,
        shim@,
        "--system-image-manifest"@,
        manifest@,
    ]);
    arguments
}

/// Checks that a killed service ended by the kill.
pub fn check_sigkill(service: &str, signal: Option<i32>, status: &str, expected: &str) -> (result:
    Result<(), String>)
    ensures
        match result {
            Ok(()) => signal == Some(crate::model::SIGKILL),
            Err(message) => signal != Some(crate::model::SIGKILL) && message@ == service@
                + " exited with "@ + status@ + ", expected "@ + expected@,
        },
{
    if let Some(number) = signal {
        if number == crate::model::SIGKILL {
            return Ok(());
        }
    }
    let mut message = service.to_owned();
    message.append(" exited with ");
    message.append(status);
    message.append(", expected ");
    message.append(expected);
    Err(message)
}

/// What a printed status says of a process is what stands in its fields behind the
/// command: the state in the first, the group in the third and the start in the twentieth,
/// and it is believed only of the process whose number it starts with.
pub proof fn observations_are_of_the_printed_process(
    pid: u32,
    path: Seq<char>,
    encoded: Seq<char>,
)
    requires
        stat_observation(pid, path, encoded) is Ok,
    ensures
        ({
            let observed = stat_observation(pid, path, encoded)->Ok_0;
            let opening = first_pair(encoded, ' ', '(');
            let closing = last_pair(encoded, ')', ' ');
            let rest = fields(encoded.skip(closing->0 + 2), true);
            &&& opening is Some
            &&& closing is Some
            &&& opening->0 + 1 < closing->0
            &&& parsed_unsigned(encoded.take(opening->0), u32::MAX as nat) == Some(pid as nat)
            &&& observed.identity.pid == pid
            &&& rest.len() >= 20
            &&& rest[0].len() == 1
            &&& observed.state == rest[0][0] as u8
            &&& parsed_unsigned(rest[2], u32::MAX as nat) == Some(
                observed.identity.process_group_id as nat,
            )
            &&& parsed_unsigned(rest[19], u64::MAX as nat) == Some(
                observed.identity.start_time_ticks as nat,
            )
        }),
{
}

/// The identity that a printed status gives a process is what stands in its fields behind
/// the command: the parent in the second, the group in the third and the start in the
/// twentieth; the command is what stands between the outermost brackets.
pub proof fn identities_are_of_the_printed_process(pid: u32, encoded: Seq<char>)
    requires
        stat_identity(pid, encoded) is Ok,
    ensures
        ({
            let found = stat_identity(pid, encoded)->Ok_0;
            let open = encoded.index_of_first('(');
            let close = encoded.index_of_last(')');
            let rest = fields(encoded.skip(close->0 + 1), false);
            &&& open is Some
            &&& close is Some
            &&& open->0 < close->0
            &&& parsed_unsigned(trimmed(encoded.take(open->0)), u32::MAX as nat) == Some(
                pid as nat,
            )
            &&& found.pid == pid
            &&& found.command == encoded.subrange(open->0 + 1, close->0)
            &&& rest.len() >= 20
            &&& parsed_unsigned(rest[1], u32::MAX as nat) == Some(found.parent_pid as nat)
            &&& parsed_unsigned(rest[2], u32::MAX as nat) == Some(found.process_group_id as nat)
            &&& parsed_unsigned(rest[19], u64::MAX as nat) == Some(found.start_time_ticks as nat)
        }),
{
}

/// A process has ended exactly where it is a zombie or dead.
pub proof fn ended_processes_are_dead(state: u8)
    ensures
        has_ended(state) <==> state == 90 || state == 88 || state == 120,
        !has_ended('R' as u8),
        !has_ended('S' as u8),
        !has_ended('D' as u8),
        !has_ended('T' as u8),
{
}

/// The processes below another are found exactly: each of the first ones once and in
/// order, without the one they descend from.
pub proof fn descendants_are_found(nodes: Seq<ProcessNode>, root: u32, upto: int)
    requires
        0 <= upto <= nodes.len(),
    ensures
        forall|place: int|
            descendant_places(nodes, root, upto).contains(place) <==> 0 <= place < upto && (
            #[trigger] nodes[place]).pid != root && descends(nodes, root, nodes[place].pid),
        forall|i: int, j: int|
            0 <= i < j < descendant_places(nodes, root, upto).len() ==> (
            #[trigger] descendant_places(nodes, root, upto)[i]) < (#[trigger] descendant_places(
                nodes,
                root,
                upto,
            )[j]),
        forall|i: int|
            0 <= i < descendant_places(nodes, root, upto).len() ==> 0 <= (
            #[trigger] descendant_places(nodes, root, upto)[i]) < upto,
    decreases upto,
{
    if upto > 0 {
        let before = descendant_places(nodes, root, upto - 1);
        let after = descendant_places(nodes, root, upto);
        descendants_are_found(nodes, root, upto - 1);
        let pid = nodes[upto - 1].pid;
        if pid != root && descends(nodes, root, pid) {
            assert(after == before.push(upto - 1));
            assert forall|place: int|
                after.contains(place) <==> 0 <= place < upto && (#[trigger] nodes[place]).pid
                    != root && descends(nodes, root, nodes[place].pid) by {
                if after.contains(place) && place != upto - 1 {
                    let i = choose|i: int| 0 <= i < after.len() && after[i] == place;
                    assert(before[i] == place);
                    assert(before.contains(place));
                }
                if before.contains(place) {
                    let i = choose|i: int| 0 <= i < before.len() && before[i] == place;
                    assert(after[i] == place);
                }
                assert(after[after.len() - 1] == upto - 1);
            }
        } else {
            assert forall|place: int|
                after.contains(place) <==> 0 <= place < upto && (#[trigger] nodes[place]).pid
                    != root && descends(nodes, root, nodes[place].pid) by {
                assert(before.contains(place) <==> 0 <= place < upto - 1 && nodes[place].pid
                    != root && descends(nodes, root, nodes[place].pid));
            }
        }
    }
}

/// A process is below its parent, and everything below that.
pub proof fn children_descend(nodes: Seq<ProcessNode>, root: u32, place: int)
    requires
        0 <= place < nodes.len(),
        descends(nodes, root, nodes[place].parent_pid),
    ensures
        descends(nodes, root, nodes[place].pid),
        descends(nodes, root, root),
{
    let steps = choose|steps: nat| #[trigger]
        within_steps(nodes, root, steps, nodes[place].parent_pid);
    assert(within_steps(nodes, root, steps + 1, nodes[place].pid));
    assert(within_steps(nodes, root, 0, root));
}

/// A process that is neither another nor has a parent below it does not descend from it.
pub proof fn strangers_do_not_descend(nodes: Seq<ProcessNode>, root: u32, pid: u32)
    requires
        pid != root,
        forall|i: int| 0 <= i < nodes.len() ==> (#[trigger] nodes[i]).pid != pid,
    ensures
        !descends(nodes, root, pid),
{
    if descends(nodes, root, pid) {
        let steps = choose|steps: nat| #[trigger] within_steps(nodes, root, steps, pid);
        strangers_are_at_no_distance(nodes, root, steps, pid);
    }
}

proof fn strangers_are_at_no_distance(nodes: Seq<ProcessNode>, root: u32, steps: nat, pid: u32)
    requires
        pid != root,
        forall|i: int| 0 <= i < nodes.len() ==> (#[trigger] nodes[i]).pid != pid,
    ensures
        !within_steps(nodes, root, steps, pid),
    decreases steps,
{
    if steps > 0 {
        strangers_are_at_no_distance(nodes, root, (steps - 1) as nat, pid);
    }
}

/// A socket is private only where it is one, belongs to the user, and nobody else may use
/// it.
pub proof fn private_sockets_are_closed_to_others(kind: FileKind, uid: u32, mode: u32, user: u32)
    ensures
        private_socket(kind, uid, mode, user) ==> kind is Socket && uid == user && mode & 0o077
            == 0,
        private_socket(kind, uid, mode, user) ==> mode & 0o600 == 0o600,
        kind is Socket && uid == user && mode == 0o600 ==> private_socket(kind, uid, mode, user),
{
    assert(mode & 0o777 == 0o600 ==> mode & 0o077 == 0 && mode & 0o600 == 0o600) by (bit_vector);
    assert(0o600u32 & 0o777 == 0o600) by (bit_vector);
}

/// Each process is a node under its own number, below the number of its parent.
pub proof fn nodes_are_the_processes(all: Seq<LinuxProcessIdentity>, place: int)
    requires
        0 <= place < all.len(),
    ensures
        linux_nodes(all).len() == all.len(),
        linux_nodes(all)[place].pid == all[place].pid,
        linux_nodes(all)[place].parent_pid == all[place].parent_pid,
{
}

/// A process is identified only while it lives: one that is gone, a zombie or dead gives
/// no identity, and any other gives exactly its own.
pub proof fn only_living_processes_are_identified(observation: Option<ProcessObservation>)
    ensures
        captured_identity(observation) is Some <==> observation is Some && observation->0.state
            != 90 && observation->0.state != 88 && observation->0.state != 120,
        captured_identity(observation) matches Some(identity) ==> identity.pid
            == observation->0.identity.pid && identity.start_time_ticks
            == observation->0.identity.start_time_ticks && identity.process_group_id
            == observation->0.identity.process_group_id,
{
}

} // verus!
