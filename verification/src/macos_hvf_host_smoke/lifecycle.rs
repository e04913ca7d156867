//! The lifecycle of a container under the public host service: what every
//! operation has to show, step by step.

use vstd::prelude::*;
use crate::linux_kvm_recovery_smoke::qualification::Reply;
use crate::linux_kvm_recovery_smoke::soak_runner::Progress;
use crate::macos_hvf_host_smoke::calls::{stale_generation_reading, stale_generation_rejected};
use crate::macos_hvf_host_smoke::report::{MacosHvfPublicLifecycleEvidence, MacosProcessIdentity};
use crate::model::{
    is_killed, killed_status, ContainerRecord, ContainerState, ContainerTarget, DriverKind,
    ExitStatus, IsolationClass, TargetView,
};
use crate::operations::{
    advertised_operations_are_counted, agent_operation_list, expected_operations,
    inventories_are_unique, inventory_of, is_inventory_of, same_operations, service_operation_list,
    RuntimeOperation,
};
use crate::text::optional_view;

verus! {

/// What a service offers.
#[derive(Debug)]
pub struct ServiceFeatures {
    pub operations: Vec<RuntimeOperation>,
    /// Whether bundles can be handed over to it.
    pub takes_bundle_handoffs: bool,
    pub drivers: Vec<ServiceDriver>,
}

/// A driver of a service.
#[derive(Debug)]
pub struct ServiceDriver {
    pub driver: DriverKind,
    pub isolation_classes: Vec<IsolationClass>,
}

/// Whether a service offers exactly what the public one has to: each operation,
/// bundle handoffs, and the HVF driver with a machine of its own for each
/// container.
pub open spec fn offers_everything(features: ServiceFeatures) -> bool {
    &&& is_inventory_of(
        features.operations@,
        agent_operation_list() + service_operation_list(),
    )
    &&& features.takes_bundle_handoffs
    &&& features.drivers@.len() == 1
    &&& features.drivers@[0].driver is LibkrunHvf
    &&& features.drivers@[0].isolation_classes@ == seq![IsolationClass::DedicatedVm]
}

impl ServiceFeatures {
    /// Whether a service offers exactly what the public one has to.
    pub fn is_complete(&self) -> (holds: bool)
        ensures
            holds == offers_everything(*self),
    {
        let expected = expected_operations();
        let exact = same_operations(&self.operations, &expected);
        proof {
            if is_inventory_of(
                self.operations@,
                agent_operation_list() + service_operation_list(),
            ) {
                inventories_are_unique(
                    self.operations@,
                    expected@,
                    agent_operation_list() + service_operation_list(),
                );
            }
        }
        if !exact || !self.takes_bundle_handoffs || self.drivers.len() != 1 {
            return false;
        }
        let driver = &self.drivers[0];
        let dedicated = driver.isolation_classes.len() == 1 && driver.isolation_classes[0]
            == IsolationClass::DedicatedVm;
        assert(dedicated ==> driver.isolation_classes@ =~= seq![IsolationClass::DedicatedVm]);
        driver.driver == DriverKind::LibkrunHvf && dedicated
    }
}

/// What happened to a container or one of its processes.
#[derive(Clone, Copy, Debug, PartialEq, Eq, Structural)]
pub enum RuntimeEventKind {
    ContainerCreating,
    ContainerCreated,
    ContainerStarted,
    ContainerStopped,
    ContainerDeleted,
    ContainerPaused,
    ContainerResumed,
    ResourcesUpdated,
    ProcessCreated,
    ProcessStarted,
    ProcessExited,
}

/// One event.
#[derive(Debug)]
pub struct RuntimeEvent {
    pub kind: RuntimeEventKind,
    pub container: ContainerTarget,
    pub sequence: u64,
}

/// A run of events, and the number of the last one.
#[derive(Debug)]
pub struct EventBatch {
    pub events: Vec<RuntimeEvent>,
    pub next_sequence: u64,
}

/// How many events of a kind there are.
pub open spec fn count_of(events: Seq<RuntimeEvent>, kind: RuntimeEventKind) -> nat
    decreases events.len(),
{
    if events.len() == 0 {
        0
    } else {
        count_of(events.drop_last(), kind) + if events.last().kind == kind {
            1nat
        } else {
            0nat
        }
    }
}

fn count_events(events: &Vec<RuntimeEvent>, kind: RuntimeEventKind) -> (count: usize)
    ensures
        count == count_of(events@, kind),
{
    let mut count: usize = 0;
    let mut next: usize = 0;
    while next < events.len()
        invariant
            next <= events@.len(),
            count <= next,
            count == count_of(events@.take(next as int), kind),
        decreases events@.len() - next,
    {
        let ghost longer = events@.take(next + 1);
        proof {
            assert(longer.drop_last() =~= events@.take(next as int));
            assert(longer.last() == events@[next as int]);
        }
        if events[next].kind == kind {
            count = count + 1;
        }
        next = next + 1;
    }
    assert(events@.take(events@.len() as int) =~= events@);
    count
}

/// Whether events are numbered without a gap and belong to one container.
pub open spec fn consecutive(events: Seq<RuntimeEvent>, target: TargetView) -> bool {
    &&& forall|i: int| 0 <= i < events.len() ==> (#[trigger] events[i]).container@ == target
    &&& forall|i: int|
        1 <= i < events.len() ==> (#[trigger] events[i]).sequence == events[i - 1].sequence + 1
}

fn are_consecutive(events: &Vec<RuntimeEvent>, target: &ContainerTarget) -> (holds: bool)
    ensures
        holds == consecutive(events@, target@),
{
    let mut next: usize = 0;
    while next < events.len()
        invariant
            next <= events@.len(),
            forall|i: int| 0 <= i < next ==> (#[trigger] events@[i]).container@ == target@,
            forall|i: int|
                1 <= i < next ==> (#[trigger] events@[i]).sequence == events@[i - 1].sequence + 1,
        decreases events@.len() - next,
    {
        if !events[next].container.same(target) {
            return false;
        }
        if next > 0 {
            let before = events[next - 1].sequence;
            if before == u64::MAX || events[next].sequence != before + 1 {
                assert(events@[next as int].sequence != events@[next - 1].sequence + 1);
                return false;
            }
        }
        next = next + 1;
    }
    true
}

/// The number of events that happen once in the life of a container.
pub open spec fn single_events_hold(events: Seq<RuntimeEvent>) -> bool {
    &&& count_of(events, RuntimeEventKind::ContainerCreating) == 1
    &&& count_of(events, RuntimeEventKind::ContainerCreated) == 1
    &&& count_of(events, RuntimeEventKind::ContainerStarted) == 1
    &&& count_of(events, RuntimeEventKind::ContainerStopped) == 1
    &&& count_of(events, RuntimeEventKind::ContainerDeleted) == 1
    &&& count_of(events, RuntimeEventKind::ContainerPaused) == 1
    &&& count_of(events, RuntimeEventKind::ContainerResumed) == 1
    &&& count_of(events, RuntimeEventKind::ResourcesUpdated) == 1
}

fn check_single_events(events: &Vec<RuntimeEvent>) -> (holds: bool)
    ensures
        holds == single_events_hold(events@),
{
    count_events(events, RuntimeEventKind::ContainerCreating) == 1 && count_events(
        events,
        RuntimeEventKind::ContainerCreated,
    ) == 1 && count_events(events, RuntimeEventKind::ContainerStarted) == 1 && count_events(
        events,
        RuntimeEventKind::ContainerStopped,
    ) == 1 && count_events(events, RuntimeEventKind::ContainerDeleted) == 1 && count_events(
        events,
        RuntimeEventKind::ContainerPaused,
    ) == 1 && count_events(events, RuntimeEventKind::ContainerResumed) == 1 && count_events(
        events,
        RuntimeEventKind::ResourcesUpdated,
    ) == 1
}

/// Whether events tell the whole life of one container: it is created and
/// started first and deleted last, without a gap; what happens once happened
/// once; every process that was created was started, and more of them ended than
/// were created, the container's own being one.
#[verifier::opaque]
pub open spec fn tells_the_lifecycle(batch: EventBatch, target: TargetView) -> bool {
    let events = batch.events@;
    &&& events.len() >= 12
    &&& events[0].kind is ContainerCreating
    &&& events[1].kind is ContainerCreated
    &&& events[2].kind is ContainerStarted
    &&& events.last().kind is ContainerDeleted
    &&& consecutive(events, target)
    &&& events.last().sequence == batch.next_sequence
    &&& single_events_hold(events)
    &&& count_of(events, RuntimeEventKind::ProcessCreated) > 0
    &&& count_of(events, RuntimeEventKind::ProcessCreated) == count_of(
        events,
        RuntimeEventKind::ProcessStarted,
    )
    &&& count_of(events, RuntimeEventKind::ProcessExited) > count_of(
        events,
        RuntimeEventKind::ProcessCreated,
    )
}

/// Whether events tell the whole life of one container.
pub fn verify_events(batch: &EventBatch, target: &ContainerTarget) -> (holds: bool)
    ensures
        holds == tells_the_lifecycle(*batch, target@),
{
    proof {
        reveal(tells_the_lifecycle);
    }
    let events = &batch.events;
    let length = events.len();
    if length < 12 {
        return false;
    }
    if events[0].kind != RuntimeEventKind::ContainerCreating || events[1].kind
        != RuntimeEventKind::ContainerCreated || events[2].kind
        != RuntimeEventKind::ContainerStarted || events[length - 1].kind
        != RuntimeEventKind::ContainerDeleted || !are_consecutive(events, target) || events[length
        - 1].sequence != batch.next_sequence {
        return false;
    }
    if !check_single_events(events) {
        return false;
    }
    let created = count_events(events, RuntimeEventKind::ProcessCreated);
    let started = count_events(events, RuntimeEventKind::ProcessStarted);
    let exited = count_events(events, RuntimeEventKind::ProcessExited);
    created > 0 && created == started && exited > created
}

/// What a lifecycle under way has to remember.
#[derive(Debug)]
pub struct LifecycleMemory {
    /// The container as it was created.
    pub created: Option<ContainerRecord>,
    /// The processes of its machine.
    pub processes: Vec<MacosProcessIdentity>,
    /// What the kill answered.
    pub killed: Option<ContainerRecord>,
    /// The generation that was created anew.
    pub recreated: Option<u64>,
    /// The processes of its machine.
    pub processes_again: Vec<MacosProcessIdentity>,
}

/// Whether a record is that of the container as it was created.
pub open spec fn is_created_record(memory: LifecycleMemory, record: ContainerRecord) -> bool {
    memory.created is Some && memory.created->0@ == record@
}

/// Whether a record is what the kill answered.
pub open spec fn is_killed_record(memory: LifecycleMemory, record: ContainerRecord) -> bool {
    memory.killed is Some && memory.killed->0@ == record@
}

/// Whether a list holds the container as it was created and nothing else.
pub open spec fn only_created(memory: LifecycleMemory, records: Seq<ContainerRecord>) -> bool {
    records.len() == 1 && is_created_record(memory, records[0])
}

/// The generation of the container as it was created.
pub open spec fn first_generation(memory: LifecycleMemory) -> u64 {
    match memory.created {
        Some(created) => created.generation,
        None => 0,
    }
}

/// Why a new generation ends the run, if it does: its machine shows too few
/// processes, or no generation could follow the first one.
pub open spec fn recreation_fault(memory: LifecycleMemory, processes: nat) -> Option<Seq<char>> {
    if processes < 2 {
        Some("public Host Service did not expose shim and worker descendants"@)
    } else if first_generation(memory) == u64::MAX {
        Some("lifecycle generation overflowed"@)
    } else {
        None
    }
}

/// Whether the new generation follows the first one, once it is looked at.
pub open spec fn monotonic_after(
    memory: LifecycleMemory,
    evidence: MacosHvfPublicLifecycleEvidence,
    processes: nat,
) -> bool {
    if recreation_fault(memory, processes) is Some {
        evidence.generation_monotonic
    } else {
        memory.recreated == Some((first_generation(memory) + 1) as u64)
    }
}

impl LifecycleMemory {
    fn recreation_fault(&self, processes: usize) -> (fault: Option<String>)
        ensures
            optional_view(fault) == recreation_fault(*self, processes as nat),
    {
        let first = match &self.created {
            Some(created) => created.generation,
            None => 0,
        };
        if processes < 2 {
            Some("public Host Service did not expose shim and worker descendants".to_owned())
        } else if first == u64::MAX {
            Some("lifecycle generation overflowed".to_owned())
        } else {
            None
        }
    }

    fn is_monotonic(
        &self,
        evidence: &MacosHvfPublicLifecycleEvidence,
        processes: usize,
    ) -> (monotonic: bool)
        ensures
            monotonic == monotonic_after(*self, *evidence, processes as nat),
    {
        let first = match &self.created {
            Some(created) => created.generation,
            None => 0,
        };
        if processes < 2 || first == u64::MAX {
            return evidence.generation_monotonic;
        }
        match self.recreated {
            Some(generation) => generation == first + 1,
            None => false,
        }
    }

    fn is_created(&self, record: &ContainerRecord) -> (holds: bool)
        ensures
            holds == is_created_record(*self, *record),
    {
        match &self.created {
            Some(created) => created.same(record),
            None => false,
        }
    }

    fn is_killed(&self, record: &ContainerRecord) -> (holds: bool)
        ensures
            holds == is_killed_record(*self, *record),
    {
        match &self.killed {
            Some(killed) => killed.same(record),
            None => false,
        }
    }

    fn is_only_created(&self, records: &Vec<ContainerRecord>) -> (holds: bool)
        ensures
            holds == only_created(*self, records@),
    {
        records.len() == 1 && self.is_created(&records[0])
    }
}

/// Whether an answer was given a second time.
pub open spec fn repeats(answer: ContainerRecord, again: Option<ContainerRecord>) -> bool {
    again is Some && again->0@ == answer@
}

fn is_repeated(answer: &ContainerRecord, again: &Option<ContainerRecord>) -> (holds: bool)
    ensures
        holds == repeats(*answer, *again),
{
    match again {
        Some(again) => again.same(answer),
        None => false,
    }
}

/// Whether processes and their streams were shown to work.
pub open spec fn process_io_shown(evidence: MacosHvfPublicLifecycleEvidence) -> bool {
    &&& evidence.process_io_verified
    &&& evidence.exec_lifecycle_verified
    &&& evidence.wait_process_verified
    &&& evidence.read_output_verified
    &&& evidence.write_stdin_verified
    &&& evidence.close_stdin_verified
}

/// One step of the lifecycle of a container.
#[derive(Clone, Copy, Debug, PartialEq, Eq, Structural)]
pub enum LifecycleStep {
    /// Ask what the service offers.
    Features,
    /// Hand the bundle over.
    Stage,
    /// Create the container.
    Create,
    /// Look for the handed-over bundle.
    Handoff,
    /// Create the container again with the same operation.
    ReplayCreate,
    /// Ask for the container.
    State,
    /// List the containers, without and with a filter.
    List,
    /// Wait for the processes of the machine.
    Observe,
    /// Start the container.
    Start,
    /// Wait for the marker of its init process.
    Marker,
    /// Exercise processes and their streams.
    ProcessIo,
    /// Exercise a terminal.
    TerminalIo,
    /// Exercise files and filesystems.
    Files,
    /// Exercise signals.
    SignalProcess,
    /// List the processes of the container.
    Processes,
    /// Update its resources, twice with one operation.
    Update,
    /// Read its statistics twice.
    Stats,
    /// Pause it, twice with one operation.
    Pause,
    /// Resume it, twice with one operation.
    Resume,
    /// Wait for less time than it runs.
    WaitTimeout,
    /// Kill it.
    Kill,
    /// Kill it again with the same operation.
    ReplayKill,
    /// Wait for its end.
    Wait,
    /// Wait for its end again.
    ReplayWait,
    /// Check its processes after its end.
    AfterExit,
    /// Delete it, twice with one operation.
    Delete,
    /// Read its events.
    Events,
    /// Ask whether it is gone.
    Missing,
    /// List the containers.
    ListEmpty,
    /// Wait until the machine's processes are gone.
    Reap,
    /// Create a new generation.
    Recreate,
    /// Wait for the processes of its machine.
    ObserveAgain,
    /// Ask for the generation before.
    Stale,
    /// Delete the new generation.
    DeleteRecreated,
    /// List the containers.
    ListEmptyAgain,
    /// Wait until the machine's processes are gone.
    ReapAgain,
    /// Nothing is left to do.
    Complete,
    /// The run has failed.
    Stopped,
}

/// The lifecycle of a container under way.
#[derive(Debug)]
pub struct LifecycleRun {
    pub step: LifecycleStep,
    pub memory: LifecycleMemory,
    pub exercised: Vec<RuntimeOperation>,
    pub evidence: MacosHvfPublicLifecycleEvidence,
}

/// The step that follows a step.
pub open spec fn lifecycle_step_successor(step: LifecycleStep) -> LifecycleStep {
    match step {
        LifecycleStep::Features => LifecycleStep::Stage,
        LifecycleStep::Stage => LifecycleStep::Create,
        LifecycleStep::Create => LifecycleStep::Handoff,
        LifecycleStep::Handoff => LifecycleStep::ReplayCreate,
        LifecycleStep::ReplayCreate => LifecycleStep::State,
        LifecycleStep::State => LifecycleStep::List,
        LifecycleStep::List => LifecycleStep::Observe,
        LifecycleStep::Observe => LifecycleStep::Start,
        LifecycleStep::Start => LifecycleStep::Marker,
        LifecycleStep::Marker => LifecycleStep::ProcessIo,
        LifecycleStep::ProcessIo => LifecycleStep::TerminalIo,
        LifecycleStep::TerminalIo => LifecycleStep::Files,
        LifecycleStep::Files => LifecycleStep::SignalProcess,
        LifecycleStep::SignalProcess => LifecycleStep::Processes,
        LifecycleStep::Processes => LifecycleStep::Update,
        LifecycleStep::Update => LifecycleStep::Stats,
        LifecycleStep::Stats => LifecycleStep::Pause,
        LifecycleStep::Pause => LifecycleStep::Resume,
        LifecycleStep::Resume => LifecycleStep::WaitTimeout,
        LifecycleStep::WaitTimeout => LifecycleStep::Kill,
        LifecycleStep::Kill => LifecycleStep::ReplayKill,
        LifecycleStep::ReplayKill => LifecycleStep::Wait,
        LifecycleStep::Wait => LifecycleStep::ReplayWait,
        LifecycleStep::ReplayWait => LifecycleStep::AfterExit,
        LifecycleStep::AfterExit => LifecycleStep::Delete,
        LifecycleStep::Delete => LifecycleStep::Events,
        LifecycleStep::Events => LifecycleStep::Missing,
        LifecycleStep::Missing => LifecycleStep::ListEmpty,
        LifecycleStep::ListEmpty => LifecycleStep::Reap,
        LifecycleStep::Reap => LifecycleStep::Recreate,
        LifecycleStep::Recreate => LifecycleStep::ObserveAgain,
        LifecycleStep::ObserveAgain => LifecycleStep::Stale,
        LifecycleStep::Stale => LifecycleStep::DeleteRecreated,
        LifecycleStep::DeleteRecreated => LifecycleStep::ListEmptyAgain,
        LifecycleStep::ListEmptyAgain => LifecycleStep::ReapAgain,
        LifecycleStep::ReapAgain => LifecycleStep::Complete,
        LifecycleStep::Complete => LifecycleStep::Complete,
        LifecycleStep::Stopped => LifecycleStep::Stopped,
    }
}

fn lifecycle_step_after(step: LifecycleStep) -> (next: LifecycleStep)
    ensures
        next == lifecycle_step_successor(step),
{
    match step {
        LifecycleStep::Features => LifecycleStep::Stage,
        LifecycleStep::Stage => LifecycleStep::Create,
        LifecycleStep::Create => LifecycleStep::Handoff,
        LifecycleStep::Handoff => LifecycleStep::ReplayCreate,
        LifecycleStep::ReplayCreate => LifecycleStep::State,
        LifecycleStep::State => LifecycleStep::List,
        LifecycleStep::List => LifecycleStep::Observe,
        LifecycleStep::Observe => LifecycleStep::Start,
        LifecycleStep::Start => LifecycleStep::Marker,
        LifecycleStep::Marker => LifecycleStep::ProcessIo,
        LifecycleStep::ProcessIo => LifecycleStep::TerminalIo,
        LifecycleStep::TerminalIo => LifecycleStep::Files,
        LifecycleStep::Files => LifecycleStep::SignalProcess,
        LifecycleStep::SignalProcess => LifecycleStep::Processes,
        LifecycleStep::Processes => LifecycleStep::Update,
        LifecycleStep::Update => LifecycleStep::Stats,
        LifecycleStep::Stats => LifecycleStep::Pause,
        LifecycleStep::Pause => LifecycleStep::Resume,
        LifecycleStep::Resume => LifecycleStep::WaitTimeout,
        LifecycleStep::WaitTimeout => LifecycleStep::Kill,
        LifecycleStep::Kill => LifecycleStep::ReplayKill,
        LifecycleStep::ReplayKill => LifecycleStep::Wait,
        LifecycleStep::Wait => LifecycleStep::ReplayWait,
        LifecycleStep::ReplayWait => LifecycleStep::AfterExit,
        LifecycleStep::AfterExit => LifecycleStep::Delete,
        LifecycleStep::Delete => LifecycleStep::Events,
        LifecycleStep::Events => LifecycleStep::Missing,
        LifecycleStep::Missing => LifecycleStep::ListEmpty,
        LifecycleStep::ListEmpty => LifecycleStep::Reap,
        LifecycleStep::Reap => LifecycleStep::Recreate,
        LifecycleStep::Recreate => LifecycleStep::ObserveAgain,
        LifecycleStep::ObserveAgain => LifecycleStep::Stale,
        LifecycleStep::Stale => LifecycleStep::DeleteRecreated,
        LifecycleStep::DeleteRecreated => LifecycleStep::ListEmptyAgain,
        LifecycleStep::ListEmptyAgain => LifecycleStep::ReapAgain,
        LifecycleStep::ReapAgain => LifecycleStep::Complete,
        LifecycleStep::Complete => LifecycleStep::Complete,
        LifecycleStep::Stopped => LifecycleStep::Stopped,
    }
}

/// The place of a step in the course of the run.
pub open spec fn lifecycle_step_rank(step: LifecycleStep) -> int {
    match step {
        LifecycleStep::Features => 0,
        LifecycleStep::Stage => 1,
        LifecycleStep::Create => 2,
        LifecycleStep::Handoff => 3,
        LifecycleStep::ReplayCreate => 4,
        LifecycleStep::State => 5,
        LifecycleStep::List => 6,
        LifecycleStep::Observe => 7,
        LifecycleStep::Start => 8,
        LifecycleStep::Marker => 9,
        LifecycleStep::ProcessIo => 10,
        LifecycleStep::TerminalIo => 11,
        LifecycleStep::Files => 12,
        LifecycleStep::SignalProcess => 13,
        LifecycleStep::Processes => 14,
        LifecycleStep::Update => 15,
        LifecycleStep::Stats => 16,
        LifecycleStep::Pause => 17,
        LifecycleStep::Resume => 18,
        LifecycleStep::WaitTimeout => 19,
        LifecycleStep::Kill => 20,
        LifecycleStep::ReplayKill => 21,
        LifecycleStep::Wait => 22,
        LifecycleStep::ReplayWait => 23,
        LifecycleStep::AfterExit => 24,
        LifecycleStep::Delete => 25,
        LifecycleStep::Events => 26,
        LifecycleStep::Missing => 27,
        LifecycleStep::ListEmpty => 28,
        LifecycleStep::Reap => 29,
        LifecycleStep::Recreate => 30,
        LifecycleStep::ObserveAgain => 31,
        LifecycleStep::Stale => 32,
        LifecycleStep::DeleteRecreated => 33,
        LifecycleStep::ListEmptyAgain => 34,
        LifecycleStep::ReapAgain => 35,
        LifecycleStep::Complete => 36,
        LifecycleStep::Stopped => -1,
    }
}

/// Whether an inventory holds the operations of a list, each once and in order.
#[verifier::opaque]
pub open spec fn records(
    inventory: Seq<RuntimeOperation>,
    operations: Seq<RuntimeOperation>,
) -> bool {
    is_inventory_of(inventory, operations)
}

/// The operations that a step exercises.
#[verifier::opaque]
pub open spec fn step_operations(step: LifecycleStep) -> Seq<RuntimeOperation> {
    match step {
        LifecycleStep::Features => seq![RuntimeOperation::Features],
        LifecycleStep::Create => seq![RuntimeOperation::Create],
        LifecycleStep::State => seq![RuntimeOperation::State],
        LifecycleStep::List => seq![RuntimeOperation::List],
        LifecycleStep::Start => seq![RuntimeOperation::Start],
        LifecycleStep::ProcessIo => seq![
            RuntimeOperation::Exec,
            RuntimeOperation::WriteStdin,
            RuntimeOperation::CloseStdin,
            RuntimeOperation::WaitProcess,
            RuntimeOperation::ReadOutput,
        ],
        LifecycleStep::TerminalIo => seq![RuntimeOperation::Resize],
        LifecycleStep::Files => seq![RuntimeOperation::File, RuntimeOperation::Filesystem],
        LifecycleStep::SignalProcess => seq![RuntimeOperation::SignalProcess],
        LifecycleStep::Processes => seq![RuntimeOperation::Processes],
        LifecycleStep::Update => seq![RuntimeOperation::Update],
        LifecycleStep::Stats => seq![RuntimeOperation::Stats],
        LifecycleStep::Pause => seq![RuntimeOperation::Pause],
        LifecycleStep::Resume => seq![RuntimeOperation::Resume],
        LifecycleStep::WaitTimeout => seq![RuntimeOperation::Wait],
        LifecycleStep::Kill => seq![RuntimeOperation::Kill],
        LifecycleStep::Delete => seq![RuntimeOperation::Delete],
        LifecycleStep::Events => seq![RuntimeOperation::Events],
        _ => Seq::empty(),
    }
}

fn operations_of(step: LifecycleStep) -> (operations: Vec<RuntimeOperation>)
    ensures
        operations@ == step_operations(step),
{
    proof {
        reveal(step_operations);
    }
    let mut operations: Vec<RuntimeOperation> = Vec::new();
    match step {
        LifecycleStep::Features => {
            operations.push(RuntimeOperation::Features);
        },
        LifecycleStep::Create => {
            operations.push(RuntimeOperation::Create);
        },
        LifecycleStep::State => {
            operations.push(RuntimeOperation::State);
        },
        LifecycleStep::List => {
            operations.push(RuntimeOperation::List);
        },
        LifecycleStep::Start => {
            operations.push(RuntimeOperation::Start);
        },
        LifecycleStep::ProcessIo => {
            operations.push(RuntimeOperation::Exec);
            operations.push(RuntimeOperation::WriteStdin);
            operations.push(RuntimeOperation::CloseStdin);
            operations.push(RuntimeOperation::WaitProcess);
            operations.push(RuntimeOperation::ReadOutput);
        },
        LifecycleStep::TerminalIo => {
            operations.push(RuntimeOperation::Resize);
        },
        LifecycleStep::Files => {
            operations.push(RuntimeOperation::File);
            operations.push(RuntimeOperation::Filesystem);
        },
        LifecycleStep::SignalProcess => {
            operations.push(RuntimeOperation::SignalProcess);
        },
        LifecycleStep::Processes => {
            operations.push(RuntimeOperation::Processes);
        },
        LifecycleStep::Update => {
            operations.push(RuntimeOperation::Update);
        },
        LifecycleStep::Stats => {
            operations.push(RuntimeOperation::Stats);
        },
        LifecycleStep::Pause => {
            operations.push(RuntimeOperation::Pause);
        },
        LifecycleStep::Resume => {
            operations.push(RuntimeOperation::Resume);
        },
        LifecycleStep::WaitTimeout => {
            operations.push(RuntimeOperation::Wait);
        },
        LifecycleStep::Kill => {
            operations.push(RuntimeOperation::Kill);
        },
        LifecycleStep::Delete => {
            operations.push(RuntimeOperation::Delete);
        },
        LifecycleStep::Events => {
            operations.push(RuntimeOperation::Events);
        },
        _ => {},
    }
    assert(operations@ =~= step_operations(step));
    operations
}

/// Records the operations of a step.
fn exercise(step: LifecycleStep, exercised: Vec<RuntimeOperation>) -> (after: Vec<RuntimeOperation>)
    ensures
        records(after@, exercised@ + step_operations(step)),
{
    let mut added = operations_of(step);
    let mut all = exercised;
    let ghost listed = exercised@ + added@;
    all.append(&mut added);
    assert(all@ =~= listed);
    proof {
        reveal(records);
    }
    inventory_of(&all)
}

/// Whether a run went on from a step: it remembers this and has shown this, its
/// operations were recorded, and a fault stops it where there is one.
pub open spec fn moved(
    before: LifecycleRun,
    memory: LifecycleMemory,
    evidence: MacosHvfPublicLifecycleEvidence,
    fault: Option<Seq<char>>,
    outcome: (LifecycleRun, Progress),
) -> bool {
    let (after, progress) = outcome;
    &&& after.memory == memory
    &&& after.evidence == evidence
    &&& records(after.exercised@, before.exercised@ + step_operations(before.step))
    &&& match fault {
        Some(reason) => progress matches Progress::Failed(message) && message@ == reason
            && after.step is Stopped,
        None => progress is Next && after.step == lifecycle_step_successor(before.step),
    }
}

/// Whether a run was left as it was, at a step that asks for something else.
pub open spec fn misplaced(before: LifecycleRun, outcome: (LifecycleRun, Progress)) -> bool {
    outcome.1 is Misplaced && outcome.0 == before
}

/// A step by its place in the course of the run.
#[verifier::opaque]
pub open spec fn step_at(place: int) -> LifecycleStep
    recommends
        0 <= place < 36,
{
    if place == 0 {
        LifecycleStep::Features
    } else if place == 1 {
        LifecycleStep::Stage
    } else if place == 2 {
        LifecycleStep::Create
    } else if place == 3 {
        LifecycleStep::Handoff
    } else if place == 4 {
        LifecycleStep::ReplayCreate
    } else if place == 5 {
        LifecycleStep::State
    } else if place == 6 {
        LifecycleStep::List
    } else if place == 7 {
        LifecycleStep::Observe
    } else if place == 8 {
        LifecycleStep::Start
    } else if place == 9 {
        LifecycleStep::Marker
    } else if place == 10 {
        LifecycleStep::ProcessIo
    } else if place == 11 {
        LifecycleStep::TerminalIo
    } else if place == 12 {
        LifecycleStep::Files
    } else if place == 13 {
        LifecycleStep::SignalProcess
    } else if place == 14 {
        LifecycleStep::Processes
    } else if place == 15 {
        LifecycleStep::Update
    } else if place == 16 {
        LifecycleStep::Stats
    } else if place == 17 {
        LifecycleStep::Pause
    } else if place == 18 {
        LifecycleStep::Resume
    } else if place == 19 {
        LifecycleStep::WaitTimeout
    } else if place == 20 {
        LifecycleStep::Kill
    } else if place == 21 {
        LifecycleStep::ReplayKill
    } else if place == 22 {
        LifecycleStep::Wait
    } else if place == 23 {
        LifecycleStep::ReplayWait
    } else if place == 24 {
        LifecycleStep::AfterExit
    } else if place == 25 {
        LifecycleStep::Delete
    } else if place == 26 {
        LifecycleStep::Events
    } else if place == 27 {
        LifecycleStep::Missing
    } else if place == 28 {
        LifecycleStep::ListEmpty
    } else if place == 29 {
        LifecycleStep::Reap
    } else if place == 30 {
        LifecycleStep::Recreate
    } else if place == 31 {
        LifecycleStep::ObserveAgain
    } else if place == 32 {
        LifecycleStep::Stale
    } else if place == 33 {
        LifecycleStep::DeleteRecreated
    } else if place == 34 {
        LifecycleStep::ListEmptyAgain
    } else {
        LifecycleStep::ReapAgain
    }
}

/// The operations that the steps before a place exercise.
#[verifier::opaque]
pub open spec fn exercised_before(place: int) -> Seq<RuntimeOperation>
    decreases place,
{
    if place <= 0 {
        Seq::empty()
    } else {
        exercised_before(place - 1) + step_operations(step_at(place - 1))
    }
}

proof fn inventory_extends(
    before: Seq<RuntimeOperation>,
    listed: Seq<RuntimeOperation>,
    more: Seq<RuntimeOperation>,
    after: Seq<RuntimeOperation>,
)
    requires
        is_inventory_of(before, listed),
        is_inventory_of(after, before + more),
    ensures
        is_inventory_of(after, listed + more),
{
    assert forall|operation: RuntimeOperation|
        #![trigger after.contains(operation)]
        after.contains(operation) <==> (listed + more).contains(operation) by {
        let joined = before + more;
        let target = listed + more;
        if joined.contains(operation) {
            let at = choose|at: int| 0 <= at < joined.len() && joined[at] == operation;
            if at < before.len() {
                assert(before[at] == operation);
                assert(before.contains(operation));
                let k = choose|k: int| 0 <= k < listed.len() && listed[k] == operation;
                assert(target[k] == operation);
            } else {
                assert(target[at - before.len() + listed.len()] == operation);
            }
        }
        if target.contains(operation) {
            let at = choose|at: int| 0 <= at < target.len() && target[at] == operation;
            if at < listed.len() {
                assert(listed[at] == operation);
                assert(listed.contains(operation));
                assert(before.contains(operation));
                let k = choose|k: int| 0 <= k < before.len() && before[k] == operation;
                assert(joined[k] == operation);
            } else {
                assert(joined[at - listed.len() + before.len()] == operation);
            }
        }
    }
}

/// What was exercised before a step, together with the operations of the step, is
/// what was exercised before the next one.
proof fn exercise_extends(
    exercised: Seq<RuntimeOperation>,
    step: LifecycleStep,
    after: Seq<RuntimeOperation>,
)
    requires
        lifecycle_step_rank(step) >= 0,
        !(step is Complete),
        records(exercised, exercised_before(lifecycle_step_rank(step))),
        records(after, exercised + step_operations(step)),
    ensures
        records(after, exercised_before(lifecycle_step_rank(step) + 1)),
{
    let rank = lifecycle_step_rank(step);
    assert(step_at(rank) == step) by {
        reveal(step_at);
    }
    assert(exercised_before(rank + 1) == exercised_before(rank) + step_operations(step)) by {
        reveal(exercised_before);
    }
    reveal(records);
    inventory_extends(exercised, exercised_before(rank), step_operations(step), after);
}

fn copy_processes(all: &mut Vec<MacosProcessIdentity>, processes: &Vec<MacosProcessIdentity>)
    ensures
        final(all)@ == old(all)@ + processes@,
{
    let mut next: usize = 0;
    while next < processes.len()
        invariant
            next <= processes@.len(),
            all@ == old(all)@ + processes@.take(next as int),
        decreases processes@.len() - next,
    {
        all.push(processes[next].copy());
        next = next + 1;
        assert(all@ =~= old(all)@ + processes@.take(next as int));
    }
    assert(processes@.take(processes@.len() as int) =~= processes@);
}

/// What is left of a lifecycle that has gone through all its steps: the container at
/// its first generation, and the processes of both machines.
#[derive(Debug)]
pub struct LifecycleOutcome {
    pub target: ContainerTarget,
    pub vm_processes: Vec<MacosProcessIdentity>,
}

impl LifecycleRun {
    /// What is left of the lifecycle once it is complete: the container at its first
    /// generation, and the processes of its first machine and behind them those of
    /// its second.
    pub fn outcome(&self) -> (outcome: Option<LifecycleOutcome>)
        ensures
            match outcome {
                Some(outcome) => {
                    &&& self.step is Complete
                    &&& self.memory.created is Some
                    &&& outcome.target@ == (TargetView {
                        id: self.memory.created->0.id@,
                        generation: Some(self.memory.created->0.generation),
                    })
                    &&& outcome.vm_processes@ == self.memory.processes@
                        + self.memory.processes_again@
                },
                None => !(self.step is Complete && self.memory.created is Some),
            },
            self.shown() ==> (outcome is Some <==> self.step is Complete),
    {
        if self.step != LifecycleStep::Complete {
            return None;
        }
        match &self.memory.created {
            Some(created) => {
                let mut vm_processes: Vec<MacosProcessIdentity> = Vec::new();
                copy_processes(&mut vm_processes, &self.memory.processes);
                copy_processes(&mut vm_processes, &self.memory.processes_again);
                Some(
                    LifecycleOutcome {
                        target: ContainerTarget::exact(&created.id, created.generation),
                        vm_processes,
                    },
                )
            },
            None => None,
        }
    }

    /// What a run has shown by the time it is at its step, and which operations it
    /// has exercised.
    pub open spec fn shown(self) -> bool {
        let rank = lifecycle_step_rank(self.step);
        let shown = self.evidence;
        let memory = self.memory;
        &&& shown.host_service_pid is Some
        &&& rank >= 0 ==> records(self.exercised@, exercised_before(rank))
        &&& rank > 0 ==> shown.features_verified && shown.host_service_pid is Some
        &&& rank > 2 ==> shown.create_returned_created && memory.created is Some
        &&& rank > 4 ==> shown.create_replayed
        &&& rank > 6 ==> shown.state_exact_after_create && shown.list_exact_after_create
        &&& rank > 7 ==> memory.processes@.len() >= 2
        &&& rank > 8 ==> shown.start_returned_running
        &&& rank > 9 ==> shown.init_marker_verified
        &&& rank > 10 ==> process_io_shown(shown)
        &&& rank > 11 ==> shown.terminal_io_verified && shown.resize_verified
        &&& rank > 12 ==> shown.file_transfer_verified
            && shown.filesystem_operations_verified
        &&& rank > 13 ==> shown.signal_process_verified
        &&& rank > 14 ==> shown.process_inventory_verified
        &&& rank > 18 ==> shown.resources_updated && shown.stats_verified
            && shown.pause_verified && shown.resume_verified
        &&& rank > 19 ==> shown.wait_timeout_enforced
        &&& rank > 23 ==> shown.kill_replayed && shown.wait_replayed && shown.wait_status == Some(
            killed_status(),
        )
        &&& rank > 25 ==> shown.delete_replayed
        &&& rank > 27 ==> shown.events_verified && shown.state_removed
        &&& rank > 33 ==> shown.recreated_generation_deleted
        &&& rank > 0 ==> records(
            shown.advertised_operations@,
            agent_operation_list() + service_operation_list(),
        )
    }

    /// A lifecycle before its first step, under the service with this number.
    pub fn start(evidence: MacosHvfPublicLifecycleEvidence, host_pid: u32) -> (run: LifecycleRun)
        ensures
            run.step is Features,
            run.exercised@.len() == 0,
            run.evidence == (MacosHvfPublicLifecycleEvidence {
                host_service_pid: Some(host_pid),
                ..evidence
            }),
            run.memory.created is None,
            run.memory.killed is None,
            run.memory.recreated is None,
            run.memory.processes@.len() == 0,
            run.memory.processes_again@.len() == 0,
            run.shown(),
    {
        proof {
            reveal(records);
            reveal(exercised_before);
        }
        LifecycleRun {
            step: LifecycleStep::Features,
            memory: LifecycleMemory {
                created: None,
                processes: Vec::new(),
                killed: None,
                recreated: None,
                processes_again: Vec::new(),
            },
            exercised: Vec::new(),
            evidence: MacosHvfPublicLifecycleEvidence {
                host_service_pid: Some(host_pid),
                ..evidence
            },
        }
    }

    /// Goes on with what was shown, or stops at a fault.
    fn go_on(
        step: LifecycleStep,
        memory: LifecycleMemory,
        exercised: Vec<RuntimeOperation>,
        evidence: MacosHvfPublicLifecycleEvidence,
        fault: Option<String>,
    ) -> (outcome: (LifecycleRun, Progress))
        ensures
            ({
                let (after, progress) = outcome;
                &&& after.memory == memory
                &&& after.evidence == evidence
                &&& records(after.exercised@, exercised@ + step_operations(step))
                &&& lifecycle_step_rank(step) >= 0 && !(step is Complete) && records(
                    exercised@,
                    exercised_before(lifecycle_step_rank(step)),
                ) ==> records(after.exercised@, exercised_before(lifecycle_step_rank(step) + 1))
                &&& match fault {
                    Some(reason) => after.step is Stopped && progress == Progress::Failed(reason),
                    None => after.step == lifecycle_step_successor(step) && progress is Next,
                }
            }),
    {
        let ghost before = exercised@;
        let exercised = exercise(step, exercised);
        proof {
            if lifecycle_step_rank(step) >= 0 && !(step is Complete) && records(
                before,
                exercised_before(lifecycle_step_rank(step)),
            ) {
                exercise_extends(before, step, exercised@);
            }
        }
        match fault {
            Some(reason) => (
                LifecycleRun { step: LifecycleStep::Stopped, memory, exercised, evidence },
                Progress::Failed(reason),
            ),
            None => (
                LifecycleRun { step: lifecycle_step_after(step), memory, exercised, evidence },
                Progress::Next,
            ),
        }
    }

    /// Stops at a step that could not be carried out.
    pub fn failed(self, reason: String) -> (outcome: (LifecycleRun, Progress))
        ensures
            if self.step is Complete || self.step is Stopped {
                misplaced(self, outcome)
            } else {
                outcome.0 == (LifecycleRun { step: LifecycleStep::Stopped, ..self }) && outcome.1
                    == Progress::Failed(reason)
            },
            self.shown() ==> outcome.0.shown(),
    {
        if self.step == LifecycleStep::Complete || self.step == LifecycleStep::Stopped {
            return (self, Progress::Misplaced);
        }
        (LifecycleRun { step: LifecycleStep::Stopped, ..self }, Progress::Failed(reason))
    }

    /// Takes what the service offers. An offer that is not the expected one counts
    /// as no operation.
    pub fn features(self, features: ServiceFeatures) -> (outcome: (LifecycleRun, Progress))
        ensures
            if self.step is Features {
                let evidence = MacosHvfPublicLifecycleEvidence {
                    advertised_operations: features.operations,
                    features_verified: offers_everything(features),
                    ..self.evidence
                };
                if offers_everything(features) {
                    moved(self, self.memory, evidence, None, outcome)
                } else {
                    &&& outcome.0 == (LifecycleRun {
                        step: LifecycleStep::Stopped,
                        evidence,
                        ..self
                    })
                    &&& outcome.1 matches Progress::Failed(message)
                    &&& message@
                        == "public HVF feature inventory did not match the fixed 23-operation contract"@
                }
            } else {
                misplaced(self, outcome)
            },
            self.shown() ==> outcome.0.shown(),
    {
        if self.step != LifecycleStep::Features {
            return (self, Progress::Misplaced);
        }
        let LifecycleRun { step, memory, exercised, evidence } = self;
        let verified = features.is_complete();
        let shown = MacosHvfPublicLifecycleEvidence {
            advertised_operations: features.operations,
            features_verified: verified,
            ..evidence
        };
        if !verified {
            return (
                LifecycleRun { step: LifecycleStep::Stopped, memory, exercised, evidence: shown },
                Progress::Failed(
                    "public HVF feature inventory did not match the fixed 23-operation contract".to_owned(),
                ),
            );
        }
        proof {
            reveal(records);
        }
        Self::go_on(step, memory, exercised, shown, None)
    }

    /// Takes whether the bundle was handed over.
    pub fn staged(self, present: bool) -> (outcome: (LifecycleRun, Progress))
        ensures
            if self.step is Stage {
                moved(
                    self,
                    self.memory,
                    MacosHvfPublicLifecycleEvidence {
                        bundle_handoff_staged: present,
                        ..self.evidence
                    },
                    None,
                    outcome,
                )
            } else {
                misplaced(self, outcome)
            },
            self.shown() ==> outcome.0.shown(),
    {
        if self.step != LifecycleStep::Stage {
            return (self, Progress::Misplaced);
        }
        let LifecycleRun { step, memory, exercised, evidence } = self;
        let fault: Option<String> = None;
        let shown = MacosHvfPublicLifecycleEvidence { bundle_handoff_staged: present, ..evidence };
        Self::go_on(step, memory, exercised, shown, fault)
    }

    /// Takes what the create answered.
    pub fn created(self, created: ContainerRecord) -> (outcome: (LifecycleRun, Progress))
        ensures
            if self.step is Create {
                moved(
                    self,
                    LifecycleMemory { created: Some(created), ..self.memory },
                    MacosHvfPublicLifecycleEvidence {
                        create_returned_created: created.status is Created,
                        ..self.evidence
                    },
                    if !(created.status is Created) {
                        Some("public HVF create did not preserve the OCI created barrier"@)
                    } else {
                        None
                    },
                    outcome,
                )
            } else {
                misplaced(self, outcome)
            },
            self.shown() ==> outcome.0.shown(),
    {
        if self.step != LifecycleStep::Create {
            return (self, Progress::Misplaced);
        }
        let LifecycleRun { step, memory, exercised, evidence } = self;
        let in_created = created.status == ContainerState::Created;
        let fault: Option<String> = if !in_created {
            Some("public HVF create did not preserve the OCI created barrier".to_owned())
        } else {
            None
        };
        let shown = MacosHvfPublicLifecycleEvidence {
            create_returned_created: in_created,
            ..evidence
        };
        let memory = LifecycleMemory { created: Some(created), ..memory };
        Self::go_on(step, memory, exercised, shown, fault)
    }

    /// Takes whether the handed-over bundle is still there.
    pub fn handoff_checked(self, present: bool) -> (outcome: (LifecycleRun, Progress))
        ensures
            if self.step is Handoff {
                moved(
                    self,
                    self.memory,
                    MacosHvfPublicLifecycleEvidence {
                        bundle_handoff_consumed: !present,
                        ..self.evidence
                    },
                    None,
                    outcome,
                )
            } else {
                misplaced(self, outcome)
            },
            self.shown() ==> outcome.0.shown(),
    {
        if self.step != LifecycleStep::Handoff {
            return (self, Progress::Misplaced);
        }
        let LifecycleRun { step, memory, exercised, evidence } = self;
        let fault: Option<String> = None;
        let shown = MacosHvfPublicLifecycleEvidence {
            bundle_handoff_consumed: !present,
            ..evidence
        };
        Self::go_on(step, memory, exercised, shown, fault)
    }

    /// Takes what the second create answered.
    pub fn create_replayed(self, replayed: &ContainerRecord) -> (outcome: (LifecycleRun, Progress))
        ensures
            if self.step is ReplayCreate {
                moved(
                    self,
                    self.memory,
                    MacosHvfPublicLifecycleEvidence {
                        create_replayed: is_created_record(self.memory, *replayed),
                        ..self.evidence
                    },
                    if !is_created_record(self.memory, *replayed) {
                        Some("public HVF create did not replay exactly"@)
                    } else {
                        None
                    },
                    outcome,
                )
            } else {
                misplaced(self, outcome)
            },
            self.shown() ==> outcome.0.shown(),
    {
        if self.step != LifecycleStep::ReplayCreate {
            return (self, Progress::Misplaced);
        }
        let LifecycleRun { step, memory, exercised, evidence } = self;
        let same = memory.is_created(replayed);
        let fault: Option<String> = if !same {
            Some("public HVF create did not replay exactly".to_owned())
        } else {
            None
        };
        let shown = MacosHvfPublicLifecycleEvidence { create_replayed: same, ..evidence };
        Self::go_on(step, memory, exercised, shown, fault)
    }

    /// Takes the container as the service knows it.
    pub fn state_read(self, state: &ContainerRecord) -> (outcome: (LifecycleRun, Progress))
        ensures
            if self.step is State {
                moved(
                    self,
                    self.memory,
                    MacosHvfPublicLifecycleEvidence {
                        state_exact_after_create: is_created_record(self.memory, *state),
                        ..self.evidence
                    },
                    None,
                    outcome,
                )
            } else {
                misplaced(self, outcome)
            },
            self.shown() ==> outcome.0.shown(),
    {
        if self.step != LifecycleStep::State {
            return (self, Progress::Misplaced);
        }
        let LifecycleRun { step, memory, exercised, evidence } = self;
        let same = memory.is_created(state);
        let fault: Option<String> = None;
        let shown = MacosHvfPublicLifecycleEvidence { state_exact_after_create: same, ..evidence };
        Self::go_on(step, memory, exercised, shown, fault)
    }

    /// Takes the two lists of containers.
    pub fn listed(self, listed: &Vec<ContainerRecord>, filtered: &Vec<ContainerRecord>) -> (outcome: (
        LifecycleRun,
        Progress,
    ))
        ensures
            if self.step is List {
                moved(
                    self,
                    self.memory,
                    MacosHvfPublicLifecycleEvidence {
                        list_exact_after_create: only_created(self.memory, listed@)
                            && only_created(self.memory, filtered@),
                        ..self.evidence
                    },
                    if !self.evidence.state_exact_after_create
                        || !(only_created(self.memory, listed@)
                        && only_created(self.memory, filtered@)) {
                        Some("public HVF state/list did not retain the exact created generation"@)
                    } else {
                        None
                    },
                    outcome,
                )
            } else {
                misplaced(self, outcome)
            },
            self.shown() ==> outcome.0.shown(),
    {
        if self.step != LifecycleStep::List {
            return (self, Progress::Misplaced);
        }
        let LifecycleRun { step, memory, exercised, evidence } = self;
        let exact = memory.is_only_created(listed) && memory.is_only_created(filtered);
        let fault: Option<String> = if !evidence.state_exact_after_create || !exact {
            Some("public HVF state/list did not retain the exact created generation".to_owned())
        } else {
            None
        };
        let shown = MacosHvfPublicLifecycleEvidence { list_exact_after_create: exact, ..evidence };
        Self::go_on(step, memory, exercised, shown, fault)
    }

    /// Takes the processes of the machine.
    pub fn observed(self, processes: Vec<MacosProcessIdentity>) -> (outcome: (
        LifecycleRun,
        Progress,
    ))
        ensures
            if self.step is Observe {
                moved(
                    self,
                    LifecycleMemory { processes: processes, ..self.memory },
                    self.evidence,
                    if processes@.len() < 2 {
                        Some("public Host Service did not expose shim and worker descendants"@)
                    } else {
                        None
                    },
                    outcome,
                )
            } else {
                misplaced(self, outcome)
            },
            self.shown() ==> outcome.0.shown(),
    {
        if self.step != LifecycleStep::Observe {
            return (self, Progress::Misplaced);
        }
        let LifecycleRun { step, memory, exercised, evidence } = self;
        let fault: Option<String> = if processes.len() < 2 {
            Some("public Host Service did not expose shim and worker descendants".to_owned())
        } else {
            None
        };
        let shown = evidence;
        let memory = LifecycleMemory { processes: processes, ..memory };
        Self::go_on(step, memory, exercised, shown, fault)
    }

    /// Takes the state that the start answered.
    pub fn started(self, status: ContainerState) -> (outcome: (LifecycleRun, Progress))
        ensures
            if self.step is Start {
                moved(
                    self,
                    self.memory,
                    MacosHvfPublicLifecycleEvidence {
                        start_returned_running: status is Running,
                        ..self.evidence
                    },
                    if !(status is Running) {
                        Some("public HVF start did not return running"@)
                    } else {
                        None
                    },
                    outcome,
                )
            } else {
                misplaced(self, outcome)
            },
            self.shown() ==> outcome.0.shown(),
    {
        if self.step != LifecycleStep::Start {
            return (self, Progress::Misplaced);
        }
        let LifecycleRun { step, memory, exercised, evidence } = self;
        let running = status == ContainerState::Running;
        let fault: Option<String> = if !running {
            Some("public HVF start did not return running".to_owned())
        } else {
            None
        };
        let shown = MacosHvfPublicLifecycleEvidence { start_returned_running: running, ..evidence };
        Self::go_on(step, memory, exercised, shown, fault)
    }

    /// Takes that the marker is there.
    pub fn marked(self) -> (outcome: (LifecycleRun, Progress))
        ensures
            if self.step is Marker {
                moved(
                    self,
                    self.memory,
                    MacosHvfPublicLifecycleEvidence {
                        init_marker_verified: true,
                        ..self.evidence
                    },
                    None,
                    outcome,
                )
            } else {
                misplaced(self, outcome)
            },
            self.shown() ==> outcome.0.shown(),
    {
        if self.step != LifecycleStep::Marker {
            return (self, Progress::Misplaced);
        }
        let LifecycleRun { step, memory, exercised, evidence } = self;
        let fault: Option<String> = None;
        let shown = MacosHvfPublicLifecycleEvidence { init_marker_verified: true, ..evidence };
        Self::go_on(step, memory, exercised, shown, fault)
    }

    /// Takes that processes and their streams work.
    pub fn process_io(self) -> (outcome: (LifecycleRun, Progress))
        ensures
            if self.step is ProcessIo {
                moved(
                    self,
                    self.memory,
                    MacosHvfPublicLifecycleEvidence {
                        process_io_verified: true,
                        exec_lifecycle_verified: true,
                        wait_process_verified: true,
                        read_output_verified: true,
                        write_stdin_verified: true,
                        close_stdin_verified: true,
                        ..self.evidence
                    },
                    None,
                    outcome,
                )
            } else {
                misplaced(self, outcome)
            },
            self.shown() ==> outcome.0.shown(),
    {
        if self.step != LifecycleStep::ProcessIo {
            return (self, Progress::Misplaced);
        }
        let LifecycleRun { step, memory, exercised, evidence } = self;
        let fault: Option<String> = None;
        let shown = MacosHvfPublicLifecycleEvidence {
            process_io_verified: true,
            exec_lifecycle_verified: true,
            wait_process_verified: true,
            read_output_verified: true,
            write_stdin_verified: true,
            close_stdin_verified: true,
            ..evidence
        };
        Self::go_on(step, memory, exercised, shown, fault)
    }

    /// Takes that terminals work.
    pub fn terminal_io(self) -> (outcome: (LifecycleRun, Progress))
        ensures
            if self.step is TerminalIo {
                moved(
                    self,
                    self.memory,
                    MacosHvfPublicLifecycleEvidence {
                        terminal_io_verified: true,
                        resize_verified: true,
                        ..self.evidence
                    },
                    None,
                    outcome,
                )
            } else {
                misplaced(self, outcome)
            },
            self.shown() ==> outcome.0.shown(),
    {
        if self.step != LifecycleStep::TerminalIo {
            return (self, Progress::Misplaced);
        }
        let LifecycleRun { step, memory, exercised, evidence } = self;
        let fault: Option<String> = None;
        let shown = MacosHvfPublicLifecycleEvidence {
            terminal_io_verified: true,
            resize_verified: true,
            ..evidence
        };
        Self::go_on(step, memory, exercised, shown, fault)
    }

    /// Takes that files and filesystems work.
    pub fn files(self) -> (outcome: (LifecycleRun, Progress))
        ensures
            if self.step is Files {
                moved(
                    self,
                    self.memory,
                    MacosHvfPublicLifecycleEvidence {
                        file_transfer_verified: true,
                        filesystem_operations_verified: true,
                        ..self.evidence
                    },
                    None,
                    outcome,
                )
            } else {
                misplaced(self, outcome)
            },
            self.shown() ==> outcome.0.shown(),
    {
        if self.step != LifecycleStep::Files {
            return (self, Progress::Misplaced);
        }
        let LifecycleRun { step, memory, exercised, evidence } = self;
        let fault: Option<String> = None;
        let shown = MacosHvfPublicLifecycleEvidence {
            file_transfer_verified: true,
            filesystem_operations_verified: true,
            ..evidence
        };
        Self::go_on(step, memory, exercised, shown, fault)
    }

    /// Takes that signals work.
    pub fn signalled(self) -> (outcome: (LifecycleRun, Progress))
        ensures
            if self.step is SignalProcess {
                moved(
                    self,
                    self.memory,
                    MacosHvfPublicLifecycleEvidence {
                        signal_process_verified: true,
                        ..self.evidence
                    },
                    None,
                    outcome,
                )
            } else {
                misplaced(self, outcome)
            },
            self.shown() ==> outcome.0.shown(),
    {
        if self.step != LifecycleStep::SignalProcess {
            return (self, Progress::Misplaced);
        }
        let LifecycleRun { step, memory, exercised, evidence } = self;
        let fault: Option<String> = None;
        let shown = MacosHvfPublicLifecycleEvidence { signal_process_verified: true, ..evidence };
        Self::go_on(step, memory, exercised, shown, fault)
    }

    /// Takes whether exactly the processes of the container were listed.
    pub fn processes_listed(self, exact: bool) -> (outcome: (LifecycleRun, Progress))
        ensures
            if self.step is Processes {
                moved(
                    self,
                    self.memory,
                    MacosHvfPublicLifecycleEvidence {
                        process_inventory_verified: exact,
                        ..self.evidence
                    },
                    if !exact {
                        Some("public HVF process inventory was not exact"@)
                    } else {
                        None
                    },
                    outcome,
                )
            } else {
                misplaced(self, outcome)
            },
            self.shown() ==> outcome.0.shown(),
    {
        if self.step != LifecycleStep::Processes {
            return (self, Progress::Misplaced);
        }
        let LifecycleRun { step, memory, exercised, evidence } = self;
        let fault: Option<String> = if !exact {
            Some("public HVF process inventory was not exact".to_owned())
        } else {
            None
        };
        let shown = MacosHvfPublicLifecycleEvidence {
            process_inventory_verified: exact,
            ..evidence
        };
        Self::go_on(step, memory, exercised, shown, fault)
    }

    /// Takes what the two updates answered.
    pub fn updated(self, updated: &ContainerRecord, replayed: &ContainerRecord) -> (outcome: (
        LifecycleRun,
        Progress,
    ))
        ensures
            if self.step is Update {
                moved(
                    self,
                    self.memory,
                    MacosHvfPublicLifecycleEvidence {
                        resources_updated: replayed@ == updated@ && updated.status is Running,
                        ..self.evidence
                    },
                    None,
                    outcome,
                )
            } else {
                misplaced(self, outcome)
            },
            self.shown() ==> outcome.0.shown(),
    {
        if self.step != LifecycleStep::Update {
            return (self, Progress::Misplaced);
        }
        let LifecycleRun { step, memory, exercised, evidence } = self;
        let well = replayed.same(updated) && updated.status == ContainerState::Running;
        let fault: Option<String> = None;
        let shown = MacosHvfPublicLifecycleEvidence { resources_updated: well, ..evidence };
        Self::go_on(step, memory, exercised, shown, fault)
    }

    /// Takes whether the statistics are those of the container.
    pub fn stats_read(self, exact: bool) -> (outcome: (LifecycleRun, Progress))
        ensures
            if self.step is Stats {
                moved(
                    self,
                    self.memory,
                    MacosHvfPublicLifecycleEvidence { stats_verified: exact, ..self.evidence },
                    None,
                    outcome,
                )
            } else {
                misplaced(self, outcome)
            },
            self.shown() ==> outcome.0.shown(),
    {
        if self.step != LifecycleStep::Stats {
            return (self, Progress::Misplaced);
        }
        let LifecycleRun { step, memory, exercised, evidence } = self;
        let fault: Option<String> = None;
        let shown = MacosHvfPublicLifecycleEvidence { stats_verified: exact, ..evidence };
        Self::go_on(step, memory, exercised, shown, fault)
    }

    /// Takes what the pause answered, and what the second one answered. There is a
    /// second one only where the first has paused the container.
    pub fn paused(self, paused: &ContainerRecord, replayed: &Option<ContainerRecord>) -> (outcome: (
        LifecycleRun,
        Progress,
    ))
        ensures
            if self.step is Pause {
                moved(
                    self,
                    self.memory,
                    MacosHvfPublicLifecycleEvidence {
                        pause_verified: paused.paused && repeats(*paused, *replayed),
                        ..self.evidence
                    },
                    None,
                    outcome,
                )
            } else {
                misplaced(self, outcome)
            },
            self.shown() ==> outcome.0.shown(),
    {
        if self.step != LifecycleStep::Pause {
            return (self, Progress::Misplaced);
        }
        let LifecycleRun { step, memory, exercised, evidence } = self;
        let fault: Option<String> = None;
        let shown = MacosHvfPublicLifecycleEvidence {
            pause_verified: paused.paused && is_repeated(paused, replayed),
            ..evidence
        };
        Self::go_on(step, memory, exercised, shown, fault)
    }

    /// Takes what the resume answered, and what the second one answered. There is a
    /// second one only where the first has resumed the container.
    pub fn resumed(self, resumed: &ContainerRecord, replayed: &Option<ContainerRecord>) -> (outcome: (
        LifecycleRun,
        Progress,
    ))
        ensures
            if self.step is Resume {
                moved(
                    self,
                    self.memory,
                    MacosHvfPublicLifecycleEvidence {
                        resume_verified: !resumed.paused && repeats(*resumed, *replayed),
                        ..self.evidence
                    },
                    if !self.evidence.resources_updated || !self.evidence.stats_verified
                        || !self.evidence.pause_verified || resumed.paused
                        || !repeats(*resumed, *replayed) {
                        Some("public HVF control-plane operations were incomplete"@)
                    } else {
                        None
                    },
                    outcome,
                )
            } else {
                misplaced(self, outcome)
            },
            self.shown() ==> outcome.0.shown(),
    {
        if self.step != LifecycleStep::Resume {
            return (self, Progress::Misplaced);
        }
        let LifecycleRun { step, memory, exercised, evidence } = self;
        let verified = !resumed.paused && is_repeated(resumed, replayed);
        let fault: Option<String> = if !evidence.resources_updated || !evidence.stats_verified
            || !evidence.pause_verified || !verified {
            Some("public HVF control-plane operations were incomplete".to_owned())
        } else {
            None
        };
        let shown = MacosHvfPublicLifecycleEvidence { resume_verified: verified, ..evidence };
        Self::go_on(step, memory, exercised, shown, fault)
    }

    /// Takes whether a short wait ended before the container did.
    pub fn wait_timed_out(self, enforced: bool) -> (outcome: (LifecycleRun, Progress))
        ensures
            if self.step is WaitTimeout {
                moved(
                    self,
                    self.memory,
                    MacosHvfPublicLifecycleEvidence {
                        wait_timeout_enforced: enforced,
                        ..self.evidence
                    },
                    if !enforced {
                        Some("public HVF wait returned while init remained running"@)
                    } else {
                        None
                    },
                    outcome,
                )
            } else {
                misplaced(self, outcome)
            },
            self.shown() ==> outcome.0.shown(),
    {
        if self.step != LifecycleStep::WaitTimeout {
            return (self, Progress::Misplaced);
        }
        let LifecycleRun { step, memory, exercised, evidence } = self;
        let fault: Option<String> = if !enforced {
            Some("public HVF wait returned while init remained running".to_owned())
        } else {
            None
        };
        let shown = MacosHvfPublicLifecycleEvidence { wait_timeout_enforced: enforced, ..evidence };
        Self::go_on(step, memory, exercised, shown, fault)
    }

    /// Takes what the kill answered.
    pub fn killed(self, killed: ContainerRecord) -> (outcome: (LifecycleRun, Progress))
        ensures
            if self.step is Kill {
                moved(
                    self,
                    LifecycleMemory { killed: Some(killed), ..self.memory },
                    self.evidence,
                    None,
                    outcome,
                )
            } else {
                misplaced(self, outcome)
            },
            self.shown() ==> outcome.0.shown(),
    {
        if self.step != LifecycleStep::Kill {
            return (self, Progress::Misplaced);
        }
        let LifecycleRun { step, memory, exercised, evidence } = self;
        let fault: Option<String> = None;
        let shown = evidence;
        let memory = LifecycleMemory { killed: Some(killed), ..memory };
        Self::go_on(step, memory, exercised, shown, fault)
    }

    /// Takes what the second kill answered.
    pub fn kill_replayed(self, replayed: &ContainerRecord) -> (outcome: (LifecycleRun, Progress))
        ensures
            if self.step is ReplayKill {
                moved(
                    self,
                    self.memory,
                    MacosHvfPublicLifecycleEvidence {
                        kill_replayed: is_killed_record(self.memory, *replayed),
                        ..self.evidence
                    },
                    None,
                    outcome,
                )
            } else {
                misplaced(self, outcome)
            },
            self.shown() ==> outcome.0.shown(),
    {
        if self.step != LifecycleStep::ReplayKill {
            return (self, Progress::Misplaced);
        }
        let LifecycleRun { step, memory, exercised, evidence } = self;
        let same = memory.is_killed(replayed);
        let fault: Option<String> = None;
        let shown = MacosHvfPublicLifecycleEvidence { kill_replayed: same, ..evidence };
        Self::go_on(step, memory, exercised, shown, fault)
    }

    /// Takes what the wait answered.
    pub fn waited(self, status: ExitStatus) -> (outcome: (LifecycleRun, Progress))
        ensures
            if self.step is Wait {
                moved(
                    self,
                    self.memory,
                    MacosHvfPublicLifecycleEvidence {
                        wait_status: Some(status),
                        ..self.evidence
                    },
                    None,
                    outcome,
                )
            } else {
                misplaced(self, outcome)
            },
            self.shown() ==> outcome.0.shown(),
    {
        if self.step != LifecycleStep::Wait {
            return (self, Progress::Misplaced);
        }
        let LifecycleRun { step, memory, exercised, evidence } = self;
        let fault: Option<String> = None;
        let shown = MacosHvfPublicLifecycleEvidence { wait_status: Some(status), ..evidence };
        Self::go_on(step, memory, exercised, shown, fault)
    }

    /// Takes what the second wait answered.
    pub fn wait_replayed(self, status: ExitStatus) -> (outcome: (LifecycleRun, Progress))
        ensures
            if self.step is ReplayWait {
                moved(
                    self,
                    self.memory,
                    MacosHvfPublicLifecycleEvidence {
                        wait_replayed: self.evidence.wait_status == Some(status),
                        ..self.evidence
                    },
                    if self.evidence.wait_status != Some(killed_status())
                        || !self.evidence.kill_replayed
                        || self.evidence.wait_status != Some(status) {
                        Some(
                            "public HVF kill/wait did not preserve exact replay and SIGKILL status"@,
                        )
                    } else {
                        None
                    },
                    outcome,
                )
            } else {
                misplaced(self, outcome)
            },
            self.shown() ==> outcome.0.shown(),
    {
        if self.step != LifecycleStep::ReplayWait {
            return (self, Progress::Misplaced);
        }
        let LifecycleRun { step, memory, exercised, evidence } = self;
        let same = match evidence.wait_status {
            Some(first) => first == status,
            None => false,
        };
        let fault: Option<String> = if !is_killed(&evidence.wait_status)
            || !evidence.kill_replayed || !same {
            Some("public HVF kill/wait did not preserve exact replay and SIGKILL status".to_owned())
        } else {
            None
        };
        let shown = MacosHvfPublicLifecycleEvidence { wait_replayed: same, ..evidence };
        Self::go_on(step, memory, exercised, shown, fault)
    }

    /// Takes that the processes ended with their container.
    pub fn exit_checked(self) -> (outcome: (LifecycleRun, Progress))
        ensures
            if self.step is AfterExit {
                moved(
                    self,
                    self.memory,
                    self.evidence,
                    None,
                    outcome,
                )
            } else {
                misplaced(self, outcome)
            },
            self.shown() ==> outcome.0.shown(),
    {
        if self.step != LifecycleStep::AfterExit {
            return (self, Progress::Misplaced);
        }
        let LifecycleRun { step, memory, exercised, evidence } = self;
        let fault: Option<String> = None;
        let shown = evidence;
        Self::go_on(step, memory, exercised, shown, fault)
    }

    /// Takes that both deletes succeeded.
    pub fn deleted(self) -> (outcome: (LifecycleRun, Progress))
        ensures
            if self.step is Delete {
                moved(
                    self,
                    self.memory,
                    MacosHvfPublicLifecycleEvidence { delete_replayed: true, ..self.evidence },
                    None,
                    outcome,
                )
            } else {
                misplaced(self, outcome)
            },
            self.shown() ==> outcome.0.shown(),
    {
        if self.step != LifecycleStep::Delete {
            return (self, Progress::Misplaced);
        }
        let LifecycleRun { step, memory, exercised, evidence } = self;
        let fault: Option<String> = None;
        let shown = MacosHvfPublicLifecycleEvidence { delete_replayed: true, ..evidence };
        Self::go_on(step, memory, exercised, shown, fault)
    }

    /// Takes the events of the container.
    pub fn events_read(self, batch: &EventBatch, target: &ContainerTarget) -> (outcome: (
        LifecycleRun,
        Progress,
    ))
        ensures
            if self.step is Events {
                moved(
                    self,
                    self.memory,
                    MacosHvfPublicLifecycleEvidence {
                        events_verified: tells_the_lifecycle(*batch, target@),
                        ..self.evidence
                    },
                    None,
                    outcome,
                )
            } else {
                misplaced(self, outcome)
            },
            self.shown() ==> outcome.0.shown(),
    {
        if self.step != LifecycleStep::Events {
            return (self, Progress::Misplaced);
        }
        let LifecycleRun { step, memory, exercised, evidence } = self;
        let verified = verify_events(batch, target);
        let fault: Option<String> = None;
        let shown = MacosHvfPublicLifecycleEvidence { events_verified: verified, ..evidence };
        Self::go_on(step, memory, exercised, shown, fault)
    }

    /// Takes whether the container is gone.
    pub fn state_checked(self, missing: bool) -> (outcome: (LifecycleRun, Progress))
        ensures
            if self.step is Missing {
                moved(
                    self,
                    self.memory,
                    MacosHvfPublicLifecycleEvidence {
                        state_removed: missing,
                        ..self.evidence
                    },
                    if !self.evidence.events_verified || !missing {
                        Some("public HVF delete did not retain events or remove exact state"@)
                    } else {
                        None
                    },
                    outcome,
                )
            } else {
                misplaced(self, outcome)
            },
            self.shown() ==> outcome.0.shown(),
    {
        if self.step != LifecycleStep::Missing {
            return (self, Progress::Misplaced);
        }
        let LifecycleRun { step, memory, exercised, evidence } = self;
        let fault: Option<String> = if !evidence.events_verified || !missing {
            Some("public HVF delete did not retain events or remove exact state".to_owned())
        } else {
            None
        };
        let shown = MacosHvfPublicLifecycleEvidence { state_removed: missing, ..evidence };
        Self::go_on(step, memory, exercised, shown, fault)
    }

    /// Takes whether no container is listed.
    pub fn list_checked(self, empty: bool) -> (outcome: (LifecycleRun, Progress))
        ensures
            if self.step is ListEmpty {
                moved(
                    self,
                    self.memory,
                    MacosHvfPublicLifecycleEvidence {
                        list_empty_after_delete: empty,
                        ..self.evidence
                    },
                    None,
                    outcome,
                )
            } else {
                misplaced(self, outcome)
            },
            self.shown() ==> outcome.0.shown(),
    {
        if self.step != LifecycleStep::ListEmpty {
            return (self, Progress::Misplaced);
        }
        let LifecycleRun { step, memory, exercised, evidence } = self;
        let fault: Option<String> = None;
        let shown = MacosHvfPublicLifecycleEvidence { list_empty_after_delete: empty, ..evidence };
        Self::go_on(step, memory, exercised, shown, fault)
    }

    /// Takes whether the machine's processes are gone.
    pub fn reaped(self, reaped: bool) -> (outcome: (LifecycleRun, Progress))
        ensures
            if self.step is Reap {
                moved(
                    self,
                    self.memory,
                    self.evidence,
                    if !reaped {
                        Some("first public HVF generation left a shim or worker process behind"@)
                    } else {
                        None
                    },
                    outcome,
                )
            } else {
                misplaced(self, outcome)
            },
            self.shown() ==> outcome.0.shown(),
    {
        if self.step != LifecycleStep::Reap {
            return (self, Progress::Misplaced);
        }
        let LifecycleRun { step, memory, exercised, evidence } = self;
        let fault: Option<String> = if !reaped {
            Some("first public HVF generation left a shim or worker process behind".to_owned())
        } else {
            None
        };
        let shown = evidence;
        Self::go_on(step, memory, exercised, shown, fault)
    }

    /// Takes the generation that was created anew.
    pub fn recreated(self, generation: u64) -> (outcome: (LifecycleRun, Progress))
        ensures
            if self.step is Recreate {
                moved(
                    self,
                    LifecycleMemory { recreated: Some(generation), ..self.memory },
                    self.evidence,
                    None,
                    outcome,
                )
            } else {
                misplaced(self, outcome)
            },
            self.shown() ==> outcome.0.shown(),
    {
        if self.step != LifecycleStep::Recreate {
            return (self, Progress::Misplaced);
        }
        let LifecycleRun { step, memory, exercised, evidence } = self;
        let fault: Option<String> = None;
        let shown = evidence;
        let memory = LifecycleMemory { recreated: Some(generation), ..memory };
        Self::go_on(step, memory, exercised, shown, fault)
    }

    /// Takes the processes of the new generation's machine.
    pub fn observed_again(self, processes: Vec<MacosProcessIdentity>) -> (outcome: (
        LifecycleRun,
        Progress,
    ))
        ensures
            if self.step is ObserveAgain {
                moved(
                    self,
                    LifecycleMemory { processes_again: processes, ..self.memory },
                    MacosHvfPublicLifecycleEvidence {
                        generation_monotonic: monotonic_after(self.memory, self.evidence, processes@.len()),
                        ..self.evidence
                    },
                    recreation_fault(self.memory, processes@.len()),
                    outcome,
                )
            } else {
                misplaced(self, outcome)
            },
            self.shown() ==> outcome.0.shown(),
    {
        if self.step != LifecycleStep::ObserveAgain {
            return (self, Progress::Misplaced);
        }
        let LifecycleRun { step, memory, exercised, evidence } = self;
        let fault = memory.recreation_fault(processes.len());
        let monotonic = memory.is_monotonic(&evidence, processes.len());
        let shown = MacosHvfPublicLifecycleEvidence { generation_monotonic: monotonic, ..evidence };
        let memory = LifecycleMemory { processes_again: processes, ..memory };
        Self::go_on(step, memory, exercised, shown, fault)
    }

    /// Takes what became of the question for the generation before.
    pub fn stale_checked(self, reply: Reply) -> (outcome: (LifecycleRun, Progress))
        ensures
            if self.step is Stale {
                match stale_generation_reading(reply) {
                    Ok(rejected) => moved(
                        self,
                        self.memory,
                        MacosHvfPublicLifecycleEvidence {
                            stale_generation_rejected: rejected,
                            ..self.evidence
                        },
                        None,
                        outcome,
                    ),
                    Err(reason) => moved(
                        self,
                        self.memory,
                        self.evidence,
                        Some(reason),
                        outcome,
                    ),
                }
            } else {
                misplaced(self, outcome)
            },
            self.shown() ==> outcome.0.shown(),
    {
        if self.step != LifecycleStep::Stale {
            return (self, Progress::Misplaced);
        }
        let LifecycleRun { step, memory, exercised, evidence } = self;
        match stale_generation_rejected(reply) {
            Ok(rejected) => {
                let shown = MacosHvfPublicLifecycleEvidence {
                    stale_generation_rejected: rejected,
                    ..evidence
                };
                Self::go_on(step, memory, exercised, shown, None)
            },
            Err(reason) => Self::go_on(step, memory, exercised, evidence, Some(reason)),
        }
    }

    /// Takes that the new generation was deleted.
    pub fn recreated_deleted(self) -> (outcome: (LifecycleRun, Progress))
        ensures
            if self.step is DeleteRecreated {
                moved(
                    self,
                    self.memory,
                    MacosHvfPublicLifecycleEvidence {
                        recreated_generation_deleted: true,
                        ..self.evidence
                    },
                    None,
                    outcome,
                )
            } else {
                misplaced(self, outcome)
            },
            self.shown() ==> outcome.0.shown(),
    {
        if self.step != LifecycleStep::DeleteRecreated {
            return (self, Progress::Misplaced);
        }
        let LifecycleRun { step, memory, exercised, evidence } = self;
        let fault: Option<String> = None;
        let shown = MacosHvfPublicLifecycleEvidence {
            recreated_generation_deleted: true,
            ..evidence
        };
        Self::go_on(step, memory, exercised, shown, fault)
    }

    /// Takes whether no container is listed.
    pub fn list_checked_again(self, empty: bool) -> (outcome: (LifecycleRun, Progress))
        ensures
            if self.step is ListEmptyAgain {
                moved(
                    self,
                    self.memory,
                    MacosHvfPublicLifecycleEvidence {
                        list_empty_after_delete: self.evidence.list_empty_after_delete && empty,
                        ..self.evidence
                    },
                    None,
                    outcome,
                )
            } else {
                misplaced(self, outcome)
            },
            self.shown() ==> outcome.0.shown(),
    {
        if self.step != LifecycleStep::ListEmptyAgain {
            return (self, Progress::Misplaced);
        }
        let LifecycleRun { step, memory, exercised, evidence } = self;
        let still_empty = evidence.list_empty_after_delete && empty;
        let fault: Option<String> = None;
        let shown = MacosHvfPublicLifecycleEvidence {
            list_empty_after_delete: still_empty,
            ..evidence
        };
        Self::go_on(step, memory, exercised, shown, fault)
    }

    /// Takes whether the machine's processes are gone.
    pub fn reaped_again(self, reaped: bool) -> (outcome: (LifecycleRun, Progress))
        ensures
            if self.step is ReapAgain {
                moved(
                    self,
                    self.memory,
                    self.evidence,
                    if !reaped {
                        Some(
                            "recreated public HVF generation left a shim or worker process behind"@,
                        )
                    } else {
                        None
                    },
                    outcome,
                )
            } else {
                misplaced(self, outcome)
            },
            self.shown() ==> outcome.0.shown(),
    {
        if self.step != LifecycleStep::ReapAgain {
            return (self, Progress::Misplaced);
        }
        let LifecycleRun { step, memory, exercised, evidence } = self;
        let fault: Option<String> = if !reaped {
            Some("recreated public HVF generation left a shim or worker process behind".to_owned())
        } else {
            None
        };
        let shown = evidence;
        Self::go_on(step, memory, exercised, shown, fault)
    }

    /// What the run has shown, with the operations that it has exercised.
    pub fn into_evidence(self) -> (evidence: MacosHvfPublicLifecycleEvidence)
        ensures
            evidence == (MacosHvfPublicLifecycleEvidence {
                exercised_operations: self.exercised,
                ..self.evidence
            }),
    {
        MacosHvfPublicLifecycleEvidence { exercised_operations: self.exercised, ..self.evidence }
    }
}

/// All steps together exercise exactly the operations that the service offers.
proof fn every_operation_is_exercised()
    ensures
        forall|operation: RuntimeOperation|
            #![trigger exercised_before(36).contains(operation)]
            exercised_before(36).contains(operation) <==> (agent_operation_list()
                + service_operation_list()).contains(operation),
{
    reveal(step_at);
    reveal(step_operations);
    reveal_with_fuel(exercised_before, 37);
    let all = exercised_before(36);
    let expected = agent_operation_list() + service_operation_list();
    let listed: Seq<RuntimeOperation> = seq![
        RuntimeOperation::Features,
        RuntimeOperation::Create,
        RuntimeOperation::State,
        RuntimeOperation::List,
        RuntimeOperation::Start,
        RuntimeOperation::Exec,
        RuntimeOperation::WriteStdin,
        RuntimeOperation::CloseStdin,
        RuntimeOperation::WaitProcess,
        RuntimeOperation::ReadOutput,
        RuntimeOperation::Resize,
        RuntimeOperation::File,
        RuntimeOperation::Filesystem,
        RuntimeOperation::SignalProcess,
        RuntimeOperation::Processes,
        RuntimeOperation::Update,
        RuntimeOperation::Stats,
        RuntimeOperation::Pause,
        RuntimeOperation::Resume,
        RuntimeOperation::Wait,
        RuntimeOperation::Kill,
        RuntimeOperation::Delete,
        RuntimeOperation::Events,
    ];
    assert(all =~= listed);
    assert forall|operation: RuntimeOperation|
        #![trigger all.contains(operation)]
        all.contains(operation) <==> expected.contains(operation) by {
        assert(listed[1] == RuntimeOperation::Create && expected[0] == RuntimeOperation::Create);
        assert(listed[2] == RuntimeOperation::State && expected[1] == RuntimeOperation::State);
        assert(listed[4] == RuntimeOperation::Start && expected[2] == RuntimeOperation::Start);
        assert(listed[20] == RuntimeOperation::Kill && expected[3] == RuntimeOperation::Kill);
        assert(listed[21] == RuntimeOperation::Delete && expected[4] == RuntimeOperation::Delete);
        assert(listed[19] == RuntimeOperation::Wait && expected[5] == RuntimeOperation::Wait);
        assert(listed[5] == RuntimeOperation::Exec && expected[6] == RuntimeOperation::Exec);
        assert(listed[13] == RuntimeOperation::SignalProcess
            && expected[7] == RuntimeOperation::SignalProcess);
        assert(listed[8] == RuntimeOperation::WaitProcess
            && expected[8] == RuntimeOperation::WaitProcess);
        assert(listed[9] == RuntimeOperation::ReadOutput
            && expected[9] == RuntimeOperation::ReadOutput);
        assert(listed[6] == RuntimeOperation::WriteStdin
            && expected[10] == RuntimeOperation::WriteStdin);
        assert(listed[7] == RuntimeOperation::CloseStdin
            && expected[11] == RuntimeOperation::CloseStdin);
        assert(listed[10] == RuntimeOperation::Resize && expected[12] == RuntimeOperation::Resize);
        assert(listed[17] == RuntimeOperation::Pause && expected[13] == RuntimeOperation::Pause);
        assert(listed[18] == RuntimeOperation::Resume && expected[14] == RuntimeOperation::Resume);
        assert(listed[14] == RuntimeOperation::Processes
            && expected[15] == RuntimeOperation::Processes);
        assert(listed[15] == RuntimeOperation::Update && expected[16] == RuntimeOperation::Update);
        assert(listed[16] == RuntimeOperation::Stats && expected[17] == RuntimeOperation::Stats);
        assert(listed[11] == RuntimeOperation::File && expected[18] == RuntimeOperation::File);
        assert(listed[12] == RuntimeOperation::Filesystem
            && expected[19] == RuntimeOperation::Filesystem);
        assert(listed[0] == RuntimeOperation::Features
            && expected[20] == RuntimeOperation::Features);
        assert(listed[3] == RuntimeOperation::List && expected[21] == RuntimeOperation::List);
        assert(listed[22] == RuntimeOperation::Events && expected[22] == RuntimeOperation::Events);
    }
}

/// A lifecycle that has gone through all its steps has exercised every operation
/// that the service advertises, each once in the inventory.
pub proof fn completed_lifecycles_exercise_everything(run: LifecycleRun)
    requires
        run.step is Complete,
        run.shown(),
    ensures
        run.exercised@ == run.evidence.advertised_operations@,
        is_inventory_of(
            run.exercised@,
            agent_operation_list() + service_operation_list(),
        ),
{
    every_operation_is_exercised();
    reveal(records);
    let expected = agent_operation_list() + service_operation_list();
    assert(is_inventory_of(run.exercised@, expected)) by {
        assert forall|operation: RuntimeOperation|
            #![trigger run.exercised@.contains(operation)]
            run.exercised@.contains(operation) <==> expected.contains(
                operation,
            ) by {
            assert(exercised_before(36).contains(operation) <==> expected.contains(
                operation,
            ));
        }
    }
    inventories_are_unique(
        run.exercised@,
        run.evidence.advertised_operations@,
        expected,
    );
}

/// A lifecycle that has gone through all its steps, with a private socket, a
/// bundle that was handed over and taken, a monotonic new generation whose
/// predecessor was rejected, empty lists after the deletes and everything cleaned
/// up behind it, has shown all that success asks for.
pub proof fn completed_lifecycles_succeed(run: LifecycleRun)
    requires
        run.step is Complete,
        run.shown(),
        run.evidence.socket_private,
        run.evidence.bundle_handoff_staged,
        run.evidence.bundle_handoff_consumed,
        run.evidence.generation_monotonic,
        run.evidence.stale_generation_rejected,
        run.evidence.list_empty_after_delete,
        run.evidence.service_descriptor_inventory_restored,
        run.evidence.vm_processes_reaped,
        run.evidence.endpoint_inventory_restored,
        run.evidence.bundle_handoffs_clean,
        run.evidence.runtime_shares_clean,
        run.evidence.recovery_reports_clean,
        run.evidence.console_files_created >= 2,
        run.evidence.service_socket_removed,
        run.evidence.service_exit_success,
        run.evidence.reason is None,
    ensures
        (MacosHvfPublicLifecycleEvidence {
            exercised_operations: run.exercised,
            ..run.evidence
        }).succeeds(),
{
    completed_lifecycles_exercise_everything(run);
    advertised_operations_are_counted(run.exercised@);
}

/// Where a lifecycle is that met no fault in so many steps.
pub open spec fn faultless_step(count: nat) -> LifecycleStep
    decreases count,
{
    if count == 0 {
        LifecycleStep::Features
    } else {
        lifecycle_step_successor(faultless_step((count - 1) as nat))
    }
}

/// A lifecycle that meets no fault takes every step, each behind the one it rests on, before it is
/// complete, and none after that.
pub proof fn no_step_is_left_out(count: nat)
    ensures
        faultless_step(0) is Features,
        faultless_step(1) is Stage,
        faultless_step(2) is Create,
        faultless_step(3) is Handoff,
        faultless_step(4) is ReplayCreate,
        faultless_step(5) is State,
        faultless_step(6) is List,
        faultless_step(7) is Observe,
        faultless_step(8) is Start,
        faultless_step(9) is Marker,
        faultless_step(10) is ProcessIo,
        faultless_step(11) is TerminalIo,
        faultless_step(12) is Files,
        faultless_step(13) is SignalProcess,
        faultless_step(14) is Processes,
        faultless_step(15) is Update,
        faultless_step(16) is Stats,
        faultless_step(17) is Pause,
        faultless_step(18) is Resume,
        faultless_step(19) is WaitTimeout,
        faultless_step(20) is Kill,
        faultless_step(21) is ReplayKill,
        faultless_step(22) is Wait,
        faultless_step(23) is ReplayWait,
        faultless_step(24) is AfterExit,
        faultless_step(25) is Delete,
        faultless_step(26) is Events,
        faultless_step(27) is Missing,
        faultless_step(28) is ListEmpty,
        faultless_step(29) is Reap,
        faultless_step(30) is Recreate,
        faultless_step(31) is ObserveAgain,
        faultless_step(32) is Stale,
        faultless_step(33) is DeleteRecreated,
        faultless_step(34) is ListEmptyAgain,
        faultless_step(35) is ReapAgain,
        count >= 36 ==> faultless_step(count) is Complete,
    decreases count,
{
    assert(faultless_step(0) is Features);
    assert(faultless_step(1) is Stage);
    assert(faultless_step(2) is Create);
    assert(faultless_step(3) is Handoff);
    assert(faultless_step(4) is ReplayCreate);
    assert(faultless_step(5) is State);
    assert(faultless_step(6) is List);
    assert(faultless_step(7) is Observe);
    assert(faultless_step(8) is Start);
    assert(faultless_step(9) is Marker);
    assert(faultless_step(10) is ProcessIo);
    assert(faultless_step(11) is TerminalIo);
    assert(faultless_step(12) is Files);
    assert(faultless_step(13) is SignalProcess);
    assert(faultless_step(14) is Processes);
    assert(faultless_step(15) is Update);
    assert(faultless_step(16) is Stats);
    assert(faultless_step(17) is Pause);
    assert(faultless_step(18) is Resume);
    assert(faultless_step(19) is WaitTimeout);
    assert(faultless_step(20) is Kill);
    assert(faultless_step(21) is ReplayKill);
    assert(faultless_step(22) is Wait);
    assert(faultless_step(23) is ReplayWait);
    assert(faultless_step(24) is AfterExit);
    assert(faultless_step(25) is Delete);
    assert(faultless_step(26) is Events);
    assert(faultless_step(27) is Missing);
    assert(faultless_step(28) is ListEmpty);
    assert(faultless_step(29) is Reap);
    assert(faultless_step(30) is Recreate);
    assert(faultless_step(31) is ObserveAgain);
    assert(faultless_step(32) is Stale);
    assert(faultless_step(33) is DeleteRecreated);
    assert(faultless_step(34) is ListEmptyAgain);
    assert(faultless_step(35) is ReapAgain);
    assert(faultless_step(36) is Complete);
    if count > 36 {
        no_step_is_left_out((count - 1) as nat);
    }
}

/// A fault stops a lifecycle and is reported as it is, and without one it goes on to the next
/// step; either way it keeps what it has shown.
pub proof fn faults_stop_the_run(
    before: LifecycleRun,
    memory: LifecycleMemory,
    evidence: MacosHvfPublicLifecycleEvidence,
    fault: Option<Seq<char>>,
    outcome: (LifecycleRun, Progress),
)
    requires
        moved(before, memory, evidence, fault, outcome),
    ensures
        fault is Some <==> outcome.1 is Failed,
        fault is None <==> outcome.1 is Next,
        fault matches Some(reason) ==> outcome.1->Failed_0@ == reason && outcome.0.step is Stopped,
        fault is None ==> outcome.0.step == lifecycle_step_successor(before.step),
        outcome.0.memory == memory,
        outcome.0.evidence == evidence,
{
}

/// Events are counted kind by kind: one more of a kind makes one more of that kind and of
/// no other, and none is counted that is not there.
pub proof fn events_are_counted_by_kind(
    events: Seq<RuntimeEvent>,
    more: RuntimeEvent,
    kind: RuntimeEventKind,
)
    ensures
        more.kind == kind ==> count_of(events.push(more), kind) == count_of(events, kind) + 1,
        more.kind != kind ==> count_of(events.push(more), kind) == count_of(events, kind),
        count_of(Seq::<RuntimeEvent>::empty(), kind) == 0,
        count_of(events, kind) == 0 <==> forall|i: int|
            0 <= i < events.len() ==> (#[trigger] events[i]).kind != kind,
    decreases events.len(),
{
    assert(events.push(more).drop_last() =~= events);
    if events.len() > 0 {
        let shorter = events.drop_last();
        events_are_counted_by_kind(shorter, more, kind);
        assert(forall|i: int| 0 <= i < shorter.len() ==> #[trigger] shorter[i] == events[i]);
        if count_of(events, kind) == 0 {
            assert forall|i: int| 0 <= i < events.len() implies (#[trigger] events[i]).kind
                != kind by {
                if i < shorter.len() {
                    assert(shorter[i] == events[i]);
                }
            }
        }
        assert(events[events.len() - 1] == events.last());
    }
}

/// Events tell a lifecycle only where all of them are about the one container, without a
/// gap from its creation to its deletion, and it was paused, resumed, updated, started and
/// stopped once, with every process it was given started and ended.
pub proof fn told_lifecycles_are_whole(batch: EventBatch, target: TargetView, place: int)
    requires
        tells_the_lifecycle(batch, target),
    ensures
        ({
            let events = batch.events@;
            &&& events.len() >= 12
            &&& 0 <= place < events.len() ==> events[place].container@ == target
                && events[place].sequence == events[0].sequence + place
            &&& events[0].kind is ContainerCreating
            &&& events[1].kind is ContainerCreated
            &&& events[2].kind is ContainerStarted
            &&& events[events.len() - 1].kind is ContainerDeleted
            &&& batch.next_sequence == events[events.len() - 1].sequence
            &&& count_of(events, RuntimeEventKind::ContainerCreating) == 1
            &&& count_of(events, RuntimeEventKind::ContainerCreated) == 1
            &&& count_of(events, RuntimeEventKind::ContainerStarted) == 1
            &&& count_of(events, RuntimeEventKind::ContainerPaused) == 1
            &&& count_of(events, RuntimeEventKind::ContainerResumed) == 1
            &&& count_of(events, RuntimeEventKind::ResourcesUpdated) == 1
            &&& count_of(events, RuntimeEventKind::ContainerStopped) == 1
            &&& count_of(events, RuntimeEventKind::ContainerDeleted) == 1
            &&& count_of(events, RuntimeEventKind::ProcessCreated) > 0
            &&& count_of(events, RuntimeEventKind::ProcessStarted) == count_of(
                events,
                RuntimeEventKind::ProcessCreated,
            )
            &&& count_of(events, RuntimeEventKind::ProcessExited) > count_of(
                events,
                RuntimeEventKind::ProcessCreated,
            )
        }),
    decreases place,
{
    reveal(tells_the_lifecycle);
    if 0 < place < batch.events@.len() {
        told_lifecycles_are_whole(batch, target, place - 1);
        assert(batch.events@[place].sequence == batch.events@[place - 1].sequence + 1);
    }
}

/// A service offers everything only with every operation once, bundle handoffs, and the
/// HVF driver alone, which gives each container a machine of its own.
pub proof fn complete_services_give_each_container_a_machine(features: ServiceFeatures)
    requires
        offers_everything(features),
    ensures
        features.takes_bundle_handoffs,
        features.drivers@.len() == 1,
        features.drivers@[0].driver is LibkrunHvf,
        features.drivers@[0].isolation_classes@.len() == 1,
        features.drivers@[0].isolation_classes@[0] is DedicatedVm,
        is_inventory_of(
            features.operations@,
            agent_operation_list() + service_operation_list(),
        ),
{
}

/// A new generation is shown to follow the first one exactly where it is one more, and
/// only once its machine shows two processes.
pub proof fn recreated_generations_follow_the_first(
    memory: LifecycleMemory,
    evidence: MacosHvfPublicLifecycleEvidence,
    processes: nat,
)
    ensures
        recreation_fault(memory, processes) is None <==> processes >= 2 && first_generation(memory)
            != u64::MAX,
        recreation_fault(memory, processes) is None ==> (monotonic_after(
            memory,
            evidence,
            processes,
        ) <==> memory.recreated is Some && memory.recreated->0 == first_generation(memory) + 1),
        memory.created is Some ==> first_generation(memory) == memory.created->0.generation,
{
}

/// An answer counts as replayed only where it came a second time, the same in everything.
pub proof fn replays_are_the_same_answer(
    memory: LifecycleMemory,
    answer: ContainerRecord,
    again: Option<ContainerRecord>,
    records: Seq<ContainerRecord>,
)
    ensures
        repeats(answer, again) <==> again is Some && again->0@ == answer@,
        is_created_record(memory, answer) <==> memory.created is Some && memory.created->0@
            == answer@,
        is_killed_record(memory, answer) <==> memory.killed is Some && memory.killed->0@
            == answer@,
        only_created(memory, records) <==> records.len() == 1 && memory.created is Some
            && memory.created->0@ == records[0]@,
{
}

/// Processes are shown to work only where they were run, waited for, read from, written
/// to and closed.
pub proof fn working_processes_show_every_stream(evidence: MacosHvfPublicLifecycleEvidence)
    ensures
        process_io_shown(evidence) <==> evidence.process_io_verified
            && evidence.exec_lifecycle_verified && evidence.wait_process_verified
            && evidence.read_output_verified && evidence.write_stdin_verified
            && evidence.close_stdin_verified,
{
}

/// A step that calls the service counts for the operation it calls: no operation is
/// counted for a step that does not call it.
pub proof fn steps_count_for_what_they_call(step: LifecycleStep)
    ensures
        step_operations(step).contains(RuntimeOperation::Create) <==> step is Create,
        step_operations(step).contains(RuntimeOperation::Start) <==> step is Start,
        step_operations(step).contains(RuntimeOperation::Kill) <==> step is Kill,
        step_operations(step).contains(RuntimeOperation::Wait) <==> step is WaitTimeout,
        step_operations(step).contains(RuntimeOperation::Delete) <==> step is Delete,
        step_operations(step).contains(RuntimeOperation::Exec) <==> step is ProcessIo,
        step_operations(step).contains(RuntimeOperation::Events) <==> step is Events,
        step_operations(step).contains(RuntimeOperation::Pause) <==> step is Pause,
        step_operations(step).contains(RuntimeOperation::Resume) <==> step is Resume,
{
    reveal(step_operations);
    let operations = step_operations(step);
    assert(operations.len() > 0 ==> operations.contains(operations[0]));
}

/// An answer to something that was not asked changes nothing, and a run that was stopped
/// stays stopped.
pub proof fn misplaced_answers_change_nothing(
    before: LifecycleRun,
    outcome: (LifecycleRun, Progress),
)
    ensures
        misplaced(before, outcome) <==> outcome.0 == before && outcome.1 is Misplaced,
        lifecycle_step_successor(LifecycleStep::Stopped) is Stopped,
{
}

} // verus!
