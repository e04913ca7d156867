//! A long series of generations under the public host service.

use vstd::prelude::*;
use crate::linux_kvm_recovery_smoke::soak_runner::{follows, Progress, RuntimeInventory};
use crate::macos_hvf_host_smoke::report::{
    macos_incarnation, MacosHvfPublicSoakEvidence, MacosProcessIdentity,
};
use crate::model::{
    is_killed, killed_status, ContainerRecord, ContainerState, ContainerTarget, ExitStatus,
};
use crate::process::Incarnation;
use crate::text::{append_decimal, decimal, optional_view};

verus! {

/// One more, as far as the number can hold it.
pub open spec fn counted(count: u32) -> u32 {
    if count == u32::MAX {
        u32::MAX
    } else {
        (count + 1) as u32
    }
}

fn count_up(count: u32) -> (more: u32)
    ensures
        more == counted(count),
{
    if count == u32::MAX {
        u32::MAX
    } else {
        count + 1
    }
}

/// The start of the messages about one generation.
pub open spec fn wave_name(iteration: u32) -> Seq<char> {
    "public soak wave "@ + decimal(iteration as nat)
}

fn name_wave(iteration: u32, tail: &str) -> (text: String)
    ensures
        text@ == wave_name(iteration) + tail@,
{
    let mut text = "public soak wave ".to_owned();
    append_decimal(&mut text, iteration as u64);
    text.append(tail);
    text
}

/// What a generation under way has to remember.
#[derive(Clone, Copy, Debug, PartialEq, Eq, Structural)]
pub struct IterationMemory {
    /// The generation that was created.
    pub generation: u64,
    /// Whether it follows the one before.
    pub follows: bool,
    /// Whether the machine's processes are gone.
    pub reaped: bool,
    /// Whether the endpoints are as before.
    pub endpoints: bool,
    /// Whether the service's descriptors are as before.
    pub descriptors: bool,
}

fn generation_follows(previous: &Option<ContainerTarget>, generation: u64) -> (holds: bool)
    ensures
        holds == follows(*previous, generation),
{
    match previous {
        Some(target) => match target.generation {
            Some(before) => generation == before.saturating_add(1),
            None => false,
        },
        None => generation == 1,
    }
}

/// The lives of a list of macOS processes.
pub open spec fn macos_lives(processes: Seq<MacosProcessIdentity>) -> Seq<Incarnation> {
    Seq::new(processes.len(), |i: int| macos_incarnation(processes[i]))
}

/// Whether the process at a place was there before: among those seen, or ahead of
/// it in the list.
pub open spec fn seen_before(
    seen: Seq<MacosProcessIdentity>,
    processes: Seq<MacosProcessIdentity>,
    place: int,
) -> bool {
    ||| exists|i: int|
        0 <= i < seen.len() && macos_incarnation(#[trigger] seen[i]) == macos_incarnation(
            processes[place],
        )
    ||| exists|i: int|
        0 <= i < place && macos_incarnation(#[trigger] processes[i]) == macos_incarnation(
            processes[place],
        )
}

/// Where the first process is that was there before, if any was.
pub open spec fn first_reused(
    seen: Seq<MacosProcessIdentity>,
    processes: Seq<MacosProcessIdentity>,
    upto: int,
) -> Option<int>
    decreases upto,
{
    if upto <= 0 {
        None
    } else {
        match first_reused(seen, processes, upto - 1) {
            Some(place) => Some(place),
            None => if seen_before(seen, processes, upto - 1) {
                Some(upto - 1)
            } else {
                None
            },
        }
    }
}

proof fn first_reused_stays(
    seen: Seq<MacosProcessIdentity>,
    processes: Seq<MacosProcessIdentity>,
    place: int,
    upto: int,
)
    requires
        0 <= place < upto,
        first_reused(seen, processes, place + 1) == Some(place),
    ensures
        first_reused(seen, processes, upto) == Some(place),
    decreases upto,
{
    if upto > place + 1 {
        first_reused_stays(seen, processes, place, upto - 1);
    }
}

fn same_life(left: &MacosProcessIdentity, right: &MacosProcessIdentity) -> (same: bool)
    ensures
        same == (macos_incarnation(*left) == macos_incarnation(*right)),
{
    left.pid == right.pid && left.start_time_unix_us == right.start_time_unix_us
}

fn was_seen(
    seen: &Vec<MacosProcessIdentity>,
    processes: &Vec<MacosProcessIdentity>,
    place: usize,
) -> (holds: bool)
    requires
        place < processes@.len(),
    ensures
        holds == seen_before(seen@, processes@, place as int),
{
    let mut next: usize = 0;
    while next < seen.len()
        invariant
            next <= seen@.len(),
            place < processes@.len(),
            forall|i: int|
                0 <= i < next ==> macos_incarnation(#[trigger] seen@[i]) != macos_incarnation(
                    processes@[place as int],
                ),
        decreases seen@.len() - next,
    {
        if same_life(&seen[next], &processes[place]) {
            return true;
        }
        next = next + 1;
    }
    let mut ahead: usize = 0;
    while ahead < place
        invariant
            ahead <= place < processes@.len(),
            forall|i: int|
                0 <= i < ahead ==> macos_incarnation(#[trigger] processes@[i])
                    != macos_incarnation(processes@[place as int]),
        decreases place - ahead,
    {
        if same_life(&processes[ahead], &processes[place]) {
            return true;
        }
        ahead = ahead + 1;
    }
    false
}

/// Finds the first process that was there before.
pub fn find_reused(
    seen: &Vec<MacosProcessIdentity>,
    processes: &Vec<MacosProcessIdentity>,
) -> (found: Option<usize>)
    ensures
        match found {
            Some(place) => first_reused(seen@, processes@, processes@.len() as int) == Some(
                place as int,
            ) && place < processes@.len(),
            None => first_reused(seen@, processes@, processes@.len() as int) is None,
        },
{
    let mut next: usize = 0;
    while next < processes.len()
        invariant
            next <= processes@.len(),
            first_reused(seen@, processes@, next as int) is None,
        decreases processes@.len() - next,
    {
        if was_seen(seen, processes, next) {
            proof {
                first_reused_stays(seen@, processes@, next as int, processes@.len() as int);
            }
            return Some(next);
        }
        next = next + 1;
    }
    None
}

/// Why the processes of a generation end it, if they do.
pub open spec fn processes_fault(
    iteration: u32,
    seen: Seq<MacosProcessIdentity>,
    processes: Seq<MacosProcessIdentity>,
) -> Option<Seq<char>> {
    if processes.len() < 2 {
        Some(wave_name(iteration) + " did not expose shim and worker"@)
    } else {
        match first_reused(seen, processes, processes.len() as int) {
            Some(place) => Some(
                wave_name(iteration) + " reused process incarnation "@ + decimal(
                    processes[place].pid as nat,
                ) + ":"@ + decimal(processes[place].start_time_unix_us as nat),
            ),
            None => None,
        }
    }
}

fn check_processes(
    iteration: u32,
    seen: &Vec<MacosProcessIdentity>,
    processes: &Vec<MacosProcessIdentity>,
) -> (fault: Option<String>)
    ensures
        optional_view(fault) == processes_fault(iteration, seen@, processes@),
{
    if processes.len() < 2 {
        return Some(name_wave(iteration, " did not expose shim and worker"));
    }
    match find_reused(seen, processes) {
        Some(place) => {
            let mut message = name_wave(iteration, " reused process incarnation ");
            append_decimal(&mut message, processes[place].pid as u64);
            message.append(":");
            append_decimal(&mut message, processes[place].start_time_unix_us);
            Some(message)
        },
        None => None,
    }
}

/// Whether the counters of a soak agree that this many generations are complete.
pub open spec fn counters_agree(evidence: MacosHvfPublicSoakEvidence) -> bool {
    &&& evidence.completed_vm_generations == evidence.completed_iterations
    &&& evidence.create_replays_verified == evidence.completed_iterations
    &&& evidence.kill_replays_verified == evidence.completed_iterations
    &&& evidence.wait_replays_verified == evidence.completed_iterations
    &&& evidence.delete_replays_verified == evidence.completed_iterations
}

/// Whether nothing has gone wrong in a soak so far: the counters agree, every
/// generation was clean, and each had two processes of its own.
pub open spec fn series_holds(evidence: MacosHvfPublicSoakEvidence) -> bool {
    &&& counters_agree(evidence)
    &&& evidence.generation_monotonic_every_iteration
    &&& evidence.stale_generation_rejected_every_iteration
    &&& evidence.descriptor_inventory_stable_every_iteration
    &&& evidence.vm_processes_reaped_every_iteration
    &&& evidence.endpoint_inventory_restored_every_iteration
    &&& evidence.transients_clean_every_iteration
    &&& evidence.unique_vm_processes
    &&& macos_lives(evidence.vm_processes@).no_duplicates()
    &&& evidence.vm_processes@.len() >= 2 * evidence.completed_iterations
    &&& evidence.failure_iteration is None
    &&& evidence.reason is None
}

proof fn first_reused_misses_none(
    seen: Seq<MacosProcessIdentity>,
    processes: Seq<MacosProcessIdentity>,
    upto: int,
)
    requires
        first_reused(seen, processes, upto) is None,
    ensures
        forall|place: int|
            0 <= place < upto ==> !#[trigger] seen_before(seen, processes, place),
    decreases upto,
{
    if upto > 0 {
        first_reused_misses_none(seen, processes, upto - 1);
    }
}

/// Processes that were not there before are all distinct with those that were seen.
proof fn new_processes_stay_distinct(
    seen: Seq<MacosProcessIdentity>,
    processes: Seq<MacosProcessIdentity>,
)
    requires
        macos_lives(seen).no_duplicates(),
        first_reused(seen, processes, processes.len() as int) is None,
    ensures
        macos_lives(seen + processes).no_duplicates(),
{
    first_reused_misses_none(seen, processes, processes.len() as int);
    let all = seen + processes;
    let lives = macos_lives(all);
    assert forall|i: int, j: int| 0 <= i < j < lives.len() implies lives[i] != lives[j] by {
        if j < seen.len() {
            assert(macos_lives(seen)[i] != macos_lives(seen)[j]);
        } else {
            let place = j - seen.len();
            assert(!seen_before(seen, processes, place));
            if i < seen.len() {
                assert(all[i] == seen[i]);
            } else {
                assert(all[i] == processes[i - seen.len()]);
            }
        }
    }
}

/// One step of a generation of a soak.
#[derive(Clone, Copy, Debug, PartialEq, Eq, Structural)]
pub enum IterationStep {
    /// Create the container, twice with one operation.
    Create,
    /// Ask for the generation before.
    Fence,
    /// Wait for the processes of the machine.
    Observe,
    /// Start the container.
    Start,
    /// Wait for the marker of its init process.
    Marker,
    /// Kill it, twice with one operation.
    Kill,
    /// Wait for its end, twice.
    Wait,
    /// Delete it, twice with one operation.
    Delete,
    /// Ask whether it is gone.
    Missing,
    /// Wait until the machine's processes are gone.
    Reap,
    /// Wait until the endpoints are as before.
    Endpoints,
    /// Wait until the service's descriptors are as before.
    Descriptors,
    /// Look into the runtime directory.
    Inventory,
    /// Nothing is left to do.
    Complete,
    /// The run has failed.
    Stopped,
}

/// One generation of a soak under way.
#[derive(Debug)]
pub struct IterationRun {
    pub step: IterationStep,
    pub iteration: u32,
    pub id: String,
    pub previous: Option<ContainerTarget>,
    pub memory: IterationMemory,
    pub evidence: MacosHvfPublicSoakEvidence,
}

/// The step that follows a step.
pub open spec fn iteration_step_successor(step: IterationStep) -> IterationStep {
    match step {
        IterationStep::Create => IterationStep::Fence,
        IterationStep::Fence => IterationStep::Observe,
        IterationStep::Observe => IterationStep::Start,
        IterationStep::Start => IterationStep::Marker,
        IterationStep::Marker => IterationStep::Kill,
        IterationStep::Kill => IterationStep::Wait,
        IterationStep::Wait => IterationStep::Delete,
        IterationStep::Delete => IterationStep::Missing,
        IterationStep::Missing => IterationStep::Reap,
        IterationStep::Reap => IterationStep::Endpoints,
        IterationStep::Endpoints => IterationStep::Descriptors,
        IterationStep::Descriptors => IterationStep::Inventory,
        IterationStep::Inventory => IterationStep::Complete,
        IterationStep::Complete => IterationStep::Complete,
        IterationStep::Stopped => IterationStep::Stopped,
    }
}

fn iteration_step_after(step: IterationStep) -> (next: IterationStep)
    ensures
        next == iteration_step_successor(step),
{
    match step {
        IterationStep::Create => IterationStep::Fence,
        IterationStep::Fence => IterationStep::Observe,
        IterationStep::Observe => IterationStep::Start,
        IterationStep::Start => IterationStep::Marker,
        IterationStep::Marker => IterationStep::Kill,
        IterationStep::Kill => IterationStep::Wait,
        IterationStep::Wait => IterationStep::Delete,
        IterationStep::Delete => IterationStep::Missing,
        IterationStep::Missing => IterationStep::Reap,
        IterationStep::Reap => IterationStep::Endpoints,
        IterationStep::Endpoints => IterationStep::Descriptors,
        IterationStep::Descriptors => IterationStep::Inventory,
        IterationStep::Inventory => IterationStep::Complete,
        IterationStep::Complete => IterationStep::Complete,
        IterationStep::Stopped => IterationStep::Stopped,
    }
}

/// The place of a step in the course of the run.
pub open spec fn iteration_step_rank(step: IterationStep) -> int {
    match step {
        IterationStep::Create => 0,
        IterationStep::Fence => 1,
        IterationStep::Observe => 2,
        IterationStep::Start => 3,
        IterationStep::Marker => 4,
        IterationStep::Kill => 5,
        IterationStep::Wait => 6,
        IterationStep::Delete => 7,
        IterationStep::Missing => 8,
        IterationStep::Reap => 9,
        IterationStep::Endpoints => 10,
        IterationStep::Descriptors => 11,
        IterationStep::Inventory => 12,
        IterationStep::Complete => 13,
        IterationStep::Stopped => -1,
    }
}

/// Whether a run went on from a step: it remembers this and has shown this, and a
/// fault stops it where there is one.
pub open spec fn moved(
    before: IterationRun,
    memory: IterationMemory,
    evidence: MacosHvfPublicSoakEvidence,
    fault: Option<Seq<char>>,
    outcome: (IterationRun, Progress),
) -> bool {
    let (after, progress) = outcome;
    &&& after.iteration == before.iteration
    &&& after.id == before.id
    &&& after.previous == before.previous
    &&& after.memory == memory
    &&& after.evidence == evidence
    &&& match fault {
        Some(reason) => progress matches Progress::Failed(message) && message@ == reason
            && after.step is Stopped,
        None => progress is Next && after.step == iteration_step_successor(before.step),
    }
}

/// Whether a run was left as it was, at a step that asks for something else.
pub open spec fn misplaced(before: IterationRun, outcome: (IterationRun, Progress)) -> bool {
    outcome.1 is Misplaced && outcome.0 == before
}

/// Whether a generation follows the one before, and that one was rejected.
pub open spec fn fence_holds(run: IterationRun, rejected: bool) -> bool {
    run.memory.follows && (run.previous is None || rejected)
}

fn fence_failure(iteration: u32) -> (text: String)
    ensures
        text@ == "public soak generation or stale fence failed at wave "@ + decimal(
            iteration as nat,
        ),
{
    let mut text = "public soak generation or stale fence failed at wave ".to_owned();
    append_decimal(&mut text, iteration as u64);
    text
}

/// Whether nothing transient is left in the runtime directory.
pub open spec fn transients_clean(inventory: RuntimeInventory) -> bool {
    inventory.bundle_handoffs_clean && inventory.runtime_shares_clean
        && inventory.recovery_reports_clean
}

/// Whether nothing of a deleted generation is left.
pub open spec fn iteration_clean(memory: IterationMemory, inventory: RuntimeInventory) -> bool {
    memory.reaped && memory.endpoints && memory.descriptors && transients_clean(inventory)
}

impl IterationRun {
    /// How the series stands by the time the generation is at its step.
    pub open spec fn shown(self) -> bool {
        let rank = iteration_step_rank(self.step);
        let shown = self.evidence;
        let done = shown.completed_iterations;
        &&& rank >= 0 ==> {
            &&& self.iteration <= shown.requested_iterations
            &&& shown.host_service_pid is Some
        }
        &&& self.step is Complete ==> series_holds(shown) && done == self.iteration
        &&& 0 <= rank < 13 ==> {
            &&& self.iteration == done + 1
            &&& shown.generation_monotonic_every_iteration
            &&& shown.stale_generation_rejected_every_iteration
            &&& shown.vm_processes_reaped_every_iteration == (rank > 9 ==> self.memory.reaped)
            &&& shown.endpoint_inventory_restored_every_iteration == (rank > 10
                ==> self.memory.endpoints)
            &&& shown.descriptor_inventory_stable_every_iteration == (rank > 11
                ==> self.memory.descriptors)
            &&& shown.transients_clean_every_iteration
            &&& shown.unique_vm_processes
            &&& macos_lives(shown.vm_processes@).no_duplicates()
            &&& shown.vm_processes@.len() >= 2 * if rank > 2 {
                done + 1
            } else {
                done as int
            }
            &&& shown.failure_iteration is None
            &&& shown.reason is None
            &&& shown.completed_vm_generations == done
            &&& shown.create_replays_verified == if rank > 0 {
                done + 1
            } else {
                done as int
            }
            &&& shown.kill_replays_verified == if rank > 5 {
                done + 1
            } else {
                done as int
            }
            &&& shown.wait_replays_verified == if rank > 6 {
                done + 1
            } else {
                done as int
            }
            &&& shown.delete_replays_verified == if rank > 7 {
                done + 1
            } else {
                done as int
            }
        }
    }

    /// A generation before its first step.
    pub fn start(
        iteration: u32,
        id: String,
        previous: Option<ContainerTarget>,
        evidence: MacosHvfPublicSoakEvidence,
    ) -> (run: IterationRun)
        ensures
            run == (IterationRun {
                step: IterationStep::Create,
                iteration,
                id,
                previous,
                memory: IterationMemory {
                    generation: 0,
                    follows: false,
                    reaped: false,
                    endpoints: false,
                    descriptors: false,
                },
                evidence,
            }),
            series_holds(evidence) && evidence.host_service_pid is Some && iteration
                == evidence.completed_iterations + 1 && iteration <= evidence.requested_iterations
                ==> run.shown(),
    {
        IterationRun {
            step: IterationStep::Create,
            iteration,
            id,
            previous,
            memory: IterationMemory {
                generation: 0,
                follows: false,
                reaped: false,
                endpoints: false,
                descriptors: false,
            },
            evidence,
        }
    }

    /// Whether the generation before has to be asked for.
    pub fn needs_fence(&self) -> (holds: bool)
        ensures
            holds == (self.previous is Some && self.memory.follows),
    {
        self.previous.is_some() && self.memory.follows
    }

    /// The generation that was created.
    pub fn target(&self) -> (target: ContainerTarget)
        ensures
            target@ == (ContainerTarget {
                id: self.id,
                generation: Some(self.memory.generation),
            })@,
    {
        ContainerTarget::exact(&self.id, self.memory.generation)
    }

    /// Goes on with what was shown, or stops at a fault.
    fn go_on(
        step: IterationStep,
        iteration: u32,
        id: String,
        previous: Option<ContainerTarget>,
        memory: IterationMemory,
        evidence: MacosHvfPublicSoakEvidence,
        fault: Option<String>,
    ) -> (outcome: (IterationRun, Progress))
        ensures
            match fault {
                Some(reason) => outcome.0 == (IterationRun {
                    step: IterationStep::Stopped,
                    iteration,
                    id,
                    previous,
                    memory,
                    evidence,
                })
                    && outcome.1 == Progress::Failed(reason),
                None => outcome.0 == (IterationRun {
                    step: iteration_step_successor(step),
                    iteration,
                    id,
                    previous,
                    memory,
                    evidence,
                })
                    && outcome.1 is Next,
            },
    {
        match fault {
            Some(reason) => (
                IterationRun { step: IterationStep::Stopped, iteration, id, previous, memory, evidence },
                Progress::Failed(reason),
            ),
            None => (
                IterationRun {
                    step: iteration_step_after(step),
                    iteration,
                    id,
                    previous,
                    memory,
                    evidence,
                },
                Progress::Next,
            ),
        }
    }

    /// Stops at a step that could not be carried out.
    pub fn failed(self, reason: String) -> (outcome: (IterationRun, Progress))
        ensures
            if self.step is Complete || self.step is Stopped {
                misplaced(self, outcome)
            } else {
                moved(self, self.memory, self.evidence, Some(reason@), outcome)
            },
            self.shown() ==> outcome.0.shown(),
    {
        if self.step == IterationStep::Complete || self.step == IterationStep::Stopped {
            return (self, Progress::Misplaced);
        }
        let IterationRun { step, iteration, id, previous, memory, evidence } = self;
        Self::go_on(step, iteration, id, previous, memory, evidence, Some(reason))
    }

    /// Takes what the two creates answered.
    pub fn created(self, created: &ContainerRecord, replayed: &ContainerRecord) -> (outcome: (
        IterationRun,
        Progress,
    ))
        ensures
            if self.step is Create {
                moved(
                    self,
                    IterationMemory {
                        generation: created.generation,
                        follows: follows(self.previous, created.generation),
                        ..self.memory
                    },
                    MacosHvfPublicSoakEvidence {
                        create_replays_verified: if created@ == replayed@ && created.status is Created {
                            counted(self.evidence.create_replays_verified)
                        } else {
                            self.evidence.create_replays_verified
                        },
                        ..self.evidence
                    },
                    if !(created@ == replayed@ && created.status is Created) {
                        Some("public soak create did not preserve exact created replay"@)
                    } else {
                        None
                    },
                    outcome,
                )
            } else {
                misplaced(self, outcome)
            },
            self.shown() ==> outcome.0.shown(),
    {
        if self.step != IterationStep::Create {
            return (self, Progress::Misplaced);
        }
        let IterationRun { step, iteration, id, previous, memory, evidence } = self;
        let same = created.same(replayed) && created.status == ContainerState::Created;
        let count = if same {
            count_up(evidence.create_replays_verified)
        } else {
            evidence.create_replays_verified
        };
        let right = generation_follows(&previous, created.generation);
        let fault: Option<String> = if !same {
            Some("public soak create did not preserve exact created replay".to_owned())
        } else {
            None
        };
        let shown = MacosHvfPublicSoakEvidence { create_replays_verified: count, ..evidence };
        let memory = IterationMemory { generation: created.generation, follows: right, ..memory };
        Self::go_on(step, iteration, id, previous, memory, shown, fault)
    }

    /// Takes whether the generation before was rejected, if it was asked for.
    pub fn fenced(self, rejected: bool) -> (outcome: (IterationRun, Progress))
        ensures
            if self.step is Fence {
                moved(
                    self,
                    self.memory,
                    MacosHvfPublicSoakEvidence {
                        generation_monotonic_every_iteration: self.evidence.generation_monotonic_every_iteration
                            && fence_holds(self, rejected),
                        stale_generation_rejected_every_iteration: self.evidence.stale_generation_rejected_every_iteration
                            && fence_holds(self, rejected),
                        ..self.evidence
                    },
                    if !fence_holds(self, rejected) {
                        Some(
                            "public soak generation or stale fence failed at wave "@ + decimal(self.iteration as nat),
                        )
                    } else {
                        None
                    },
                    outcome,
                )
            } else {
                misplaced(self, outcome)
            },
            self.shown() ==> outcome.0.shown(),
    {
        if self.step != IterationStep::Fence {
            return (self, Progress::Misplaced);
        }
        let IterationRun { step, iteration, id, previous, memory, evidence } = self;
        let valid = memory.follows && (previous.is_none() || rejected);
        let monotonic = evidence.generation_monotonic_every_iteration && valid;
        let fenced = evidence.stale_generation_rejected_every_iteration && valid;
        let fault: Option<String> = if !valid {
            Some(fence_failure(iteration))
        } else {
            None
        };
        let shown = MacosHvfPublicSoakEvidence {
            generation_monotonic_every_iteration: monotonic,
            stale_generation_rejected_every_iteration: fenced,
            ..evidence
        };
        Self::go_on(step, iteration, id, previous, memory, shown, fault)
    }

    /// Takes the processes of the machine.
    pub fn observed(self, processes: Vec<MacosProcessIdentity>) -> (outcome: (
        IterationRun,
        Progress,
    ))
        ensures
            if self.step is Observe {
                let seen = self.evidence.vm_processes@;
                let fault = processes_fault(self.iteration, seen, processes@);
                let after = outcome.0.evidence;
                &&& moved(
                    self,
                    self.memory,
                    MacosHvfPublicSoakEvidence {
                        unique_vm_processes: self.evidence.unique_vm_processes && !(
                        processes@.len() >= 2 && fault is Some),
                        vm_processes: after.vm_processes,
                        ..self.evidence
                    },
                    fault,
                    outcome,
                )
                &&& after.vm_processes@ == if fault is None {
                    seen + processes@
                } else {
                    seen
                }
            } else {
                misplaced(self, outcome)
            },
            self.shown() ==> outcome.0.shown(),
    {
        if self.step != IterationStep::Observe {
            return (self, Progress::Misplaced);
        }
        let IterationRun { step, iteration, id, previous, memory, evidence } = self;
        let fault = check_processes(iteration, &evidence.vm_processes, &processes);
        let reused = processes.len() >= 2 && fault.is_some();
        let unique = evidence.unique_vm_processes && !reused;
        let mut all = evidence.vm_processes;
        let mut more = processes;
        proof {
            if fault is None && macos_lives(all@).no_duplicates() {
                new_processes_stay_distinct(all@, more@);
            }
        }
        if fault.is_none() {
            all.append(&mut more);
        }
        let shown = MacosHvfPublicSoakEvidence {
            unique_vm_processes: unique,
            vm_processes: all,
            ..evidence
        };
        Self::go_on(step, iteration, id, previous, memory, shown, fault)
    }

    /// Takes the state that the start answered.
    pub fn started(self, status: ContainerState) -> (outcome: (IterationRun, Progress))
        ensures
            if self.step is Start {
                moved(
                    self,
                    self.memory,
                    self.evidence,
                    if !(status is Running) {
                        Some(wave_name(self.iteration) + " did not enter running"@)
                    } else {
                        None
                    },
                    outcome,
                )
            } else {
                misplaced(self, outcome)
            },
            self.shown() ==> outcome.0.shown(),
    {
        if self.step != IterationStep::Start {
            return (self, Progress::Misplaced);
        }
        let IterationRun { step, iteration, id, previous, memory, evidence } = self;
        let fault: Option<String> = if status != ContainerState::Running {
            Some(name_wave(iteration, " did not enter running"))
        } else {
            None
        };
        let shown = evidence;
        Self::go_on(step, iteration, id, previous, memory, shown, fault)
    }

    /// Takes that the marker is there.
    pub fn marked(self) -> (outcome: (IterationRun, Progress))
        ensures
            if self.step is Marker {
                moved(
                    self,
                    self.memory,
                    self.evidence,
                    None,
                    outcome,
                )
            } else {
                misplaced(self, outcome)
            },
            self.shown() ==> outcome.0.shown(),
    {
        if self.step != IterationStep::Marker {
            return (self, Progress::Misplaced);
        }
        let IterationRun { step, iteration, id, previous, memory, evidence } = self;
        let fault: Option<String> = None;
        let shown = evidence;
        Self::go_on(step, iteration, id, previous, memory, shown, fault)
    }

    /// Takes what the two kills answered.
    pub fn killed(self, killed: &ContainerRecord, replayed: &ContainerRecord) -> (outcome: (
        IterationRun,
        Progress,
    ))
        ensures
            if self.step is Kill {
                moved(
                    self,
                    self.memory,
                    MacosHvfPublicSoakEvidence {
                        kill_replays_verified: if replayed@ == killed@ {
                            counted(self.evidence.kill_replays_verified)
                        } else {
                            self.evidence.kill_replays_verified
                        },
                        ..self.evidence
                    },
                    if replayed@ != killed@ {
                        Some(wave_name(self.iteration) + " did not replay kill"@)
                    } else {
                        None
                    },
                    outcome,
                )
            } else {
                misplaced(self, outcome)
            },
            self.shown() ==> outcome.0.shown(),
    {
        if self.step != IterationStep::Kill {
            return (self, Progress::Misplaced);
        }
        let IterationRun { step, iteration, id, previous, memory, evidence } = self;
        let same = replayed.same(killed);
        let count = if same {
            count_up(evidence.kill_replays_verified)
        } else {
            evidence.kill_replays_verified
        };
        let fault: Option<String> = if !same {
            Some(name_wave(iteration, " did not replay kill"))
        } else {
            None
        };
        let shown = MacosHvfPublicSoakEvidence { kill_replays_verified: count, ..evidence };
        Self::go_on(step, iteration, id, previous, memory, shown, fault)
    }

    /// Takes what the two waits answered.
    pub fn waited(self, status: ExitStatus, replayed: ExitStatus) -> (outcome: (
        IterationRun,
        Progress,
    ))
        ensures
            if self.step is Wait {
                moved(
                    self,
                    self.memory,
                    MacosHvfPublicSoakEvidence {
                        wait_replays_verified: if replayed == status && status == killed_status() {
                            counted(self.evidence.wait_replays_verified)
                        } else {
                            self.evidence.wait_replays_verified
                        },
                        ..self.evidence
                    },
                    if !(replayed == status && status == killed_status()) {
                        Some(wave_name(self.iteration) + " did not retain SIGKILL wait replay"@)
                    } else {
                        None
                    },
                    outcome,
                )
            } else {
                misplaced(self, outcome)
            },
            self.shown() ==> outcome.0.shown(),
    {
        if self.step != IterationStep::Wait {
            return (self, Progress::Misplaced);
        }
        let IterationRun { step, iteration, id, previous, memory, evidence } = self;
        let same = replayed == status && is_killed(&Some(status));
        let count = if same {
            count_up(evidence.wait_replays_verified)
        } else {
            evidence.wait_replays_verified
        };
        let fault: Option<String> = if !same {
            Some(name_wave(iteration, " did not retain SIGKILL wait replay"))
        } else {
            None
        };
        let shown = MacosHvfPublicSoakEvidence { wait_replays_verified: count, ..evidence };
        Self::go_on(step, iteration, id, previous, memory, shown, fault)
    }

    /// Takes that both deletes succeeded.
    pub fn deleted(self) -> (outcome: (IterationRun, Progress))
        ensures
            if self.step is Delete {
                moved(
                    self,
                    self.memory,
                    MacosHvfPublicSoakEvidence {
                        delete_replays_verified: counted(self.evidence.delete_replays_verified),
                        ..self.evidence
                    },
                    None,
                    outcome,
                )
            } else {
                misplaced(self, outcome)
            },
            self.shown() ==> outcome.0.shown(),
    {
        if self.step != IterationStep::Delete {
            return (self, Progress::Misplaced);
        }
        let IterationRun { step, iteration, id, previous, memory, evidence } = self;
        let count = count_up(evidence.delete_replays_verified);
        let fault: Option<String> = None;
        let shown = MacosHvfPublicSoakEvidence { delete_replays_verified: count, ..evidence };
        Self::go_on(step, iteration, id, previous, memory, shown, fault)
    }

    /// Takes whether the container is gone.
    pub fn state_checked(self, missing: bool) -> (outcome: (IterationRun, Progress))
        ensures
            if self.step is Missing {
                moved(
                    self,
                    self.memory,
                    self.evidence,
                    if !missing {
                        Some(wave_name(self.iteration) + " retained deleted state"@)
                    } else {
                        None
                    },
                    outcome,
                )
            } else {
                misplaced(self, outcome)
            },
            self.shown() ==> outcome.0.shown(),
    {
        if self.step != IterationStep::Missing {
            return (self, Progress::Misplaced);
        }
        let IterationRun { step, iteration, id, previous, memory, evidence } = self;
        let fault: Option<String> = if !missing {
            Some(name_wave(iteration, " retained deleted state"))
        } else {
            None
        };
        let shown = evidence;
        Self::go_on(step, iteration, id, previous, memory, shown, fault)
    }

    /// Takes whether the machine's processes are gone.
    pub fn reaped(self, well: bool) -> (outcome: (IterationRun, Progress))
        ensures
            if self.step is Reap {
                moved(
                    self,
                    IterationMemory { reaped: well, ..self.memory },
                    MacosHvfPublicSoakEvidence {
                        vm_processes_reaped_every_iteration: self.evidence.vm_processes_reaped_every_iteration
                            && well,
                        ..self.evidence
                    },
                    None,
                    outcome,
                )
            } else {
                misplaced(self, outcome)
            },
            self.shown() ==> outcome.0.shown(),
    {
        if self.step != IterationStep::Reap {
            return (self, Progress::Misplaced);
        }
        let IterationRun { step, iteration, id, previous, memory, evidence } = self;
        let always = evidence.vm_processes_reaped_every_iteration && well;
        let fault: Option<String> = None;
        let shown = MacosHvfPublicSoakEvidence {
            vm_processes_reaped_every_iteration: always,
            ..evidence
        };
        let memory = IterationMemory { reaped: well, ..memory };
        Self::go_on(step, iteration, id, previous, memory, shown, fault)
    }

    /// Takes whether the endpoints are as before.
    pub fn endpoints_restored(self, well: bool) -> (outcome: (IterationRun, Progress))
        ensures
            if self.step is Endpoints {
                moved(
                    self,
                    IterationMemory { endpoints: well, ..self.memory },
                    MacosHvfPublicSoakEvidence {
                        endpoint_inventory_restored_every_iteration: self.evidence.endpoint_inventory_restored_every_iteration
                            && well,
                        ..self.evidence
                    },
                    None,
                    outcome,
                )
            } else {
                misplaced(self, outcome)
            },
            self.shown() ==> outcome.0.shown(),
    {
        if self.step != IterationStep::Endpoints {
            return (self, Progress::Misplaced);
        }
        let IterationRun { step, iteration, id, previous, memory, evidence } = self;
        let always = evidence.endpoint_inventory_restored_every_iteration && well;
        let fault: Option<String> = None;
        let shown = MacosHvfPublicSoakEvidence {
            endpoint_inventory_restored_every_iteration: always,
            ..evidence
        };
        let memory = IterationMemory { endpoints: well, ..memory };
        Self::go_on(step, iteration, id, previous, memory, shown, fault)
    }

    /// Takes whether the service's descriptors are as before.
    pub fn descriptors_restored(self, well: bool) -> (outcome: (IterationRun, Progress))
        ensures
            if self.step is Descriptors {
                moved(
                    self,
                    IterationMemory { descriptors: well, ..self.memory },
                    MacosHvfPublicSoakEvidence {
                        descriptor_inventory_stable_every_iteration: self.evidence.descriptor_inventory_stable_every_iteration
                            && well,
                        ..self.evidence
                    },
                    None,
                    outcome,
                )
            } else {
                misplaced(self, outcome)
            },
            self.shown() ==> outcome.0.shown(),
    {
        if self.step != IterationStep::Descriptors {
            return (self, Progress::Misplaced);
        }
        let IterationRun { step, iteration, id, previous, memory, evidence } = self;
        let always = evidence.descriptor_inventory_stable_every_iteration && well;
        let fault: Option<String> = None;
        let shown = MacosHvfPublicSoakEvidence {
            descriptor_inventory_stable_every_iteration: always,
            ..evidence
        };
        let memory = IterationMemory { descriptors: well, ..memory };
        Self::go_on(step, iteration, id, previous, memory, shown, fault)
    }

    /// Takes what is in the runtime directory.
    pub fn inventoried(self, inventory: RuntimeInventory) -> (outcome: (IterationRun, Progress))
        ensures
            if self.step is Inventory {
                moved(
                    self,
                    self.memory,
                    MacosHvfPublicSoakEvidence {
                        transients_clean_every_iteration: self.evidence.transients_clean_every_iteration
                            && transients_clean(inventory),
                        completed_iterations: if iteration_clean(self.memory, inventory) {
                            counted(self.evidence.completed_iterations)
                        } else {
                            self.evidence.completed_iterations
                        },
                        completed_vm_generations: if iteration_clean(self.memory, inventory) {
                            counted(self.evidence.completed_vm_generations)
                        } else {
                            self.evidence.completed_vm_generations
                        },
                        ..self.evidence
                    },
                    if !iteration_clean(self.memory, inventory) {
                        Some(wave_name(self.iteration) + " did not restore cleanup baselines"@)
                    } else {
                        None
                    },
                    outcome,
                )
            } else {
                misplaced(self, outcome)
            },
            self.shown() ==> outcome.0.shown(),
    {
        if self.step != IterationStep::Inventory {
            return (self, Progress::Misplaced);
        }
        let IterationRun { step, iteration, id, previous, memory, evidence } = self;
        let transients = inventory.bundle_handoffs_clean && inventory.runtime_shares_clean
            && inventory.recovery_reports_clean;
        let always = evidence.transients_clean_every_iteration && transients;
        let clean = memory.reaped && memory.endpoints && memory.descriptors && transients;
        let iterations = if clean {
            count_up(evidence.completed_iterations)
        } else {
            evidence.completed_iterations
        };
        let generations = if clean {
            count_up(evidence.completed_vm_generations)
        } else {
            evidence.completed_vm_generations
        };
        let fault: Option<String> = if !clean {
            Some(name_wave(iteration, " did not restore cleanup baselines"))
        } else {
            None
        };
        let shown = MacosHvfPublicSoakEvidence {
            transients_clean_every_iteration: always,
            completed_iterations: iterations,
            completed_vm_generations: generations,
            ..evidence
        };
        Self::go_on(step, iteration, id, previous, memory, shown, fault)
    }
}

/// A completed generation is counted once by every counter, and nothing has gone
/// wrong in the series up to it.
pub proof fn completed_generations_are_counted(run: IterationRun)
    requires
        run.step is Complete,
        run.shown(),
    ensures
        series_holds(run.evidence),
        run.evidence.completed_iterations == run.iteration,
{
}

/// Whether no two of the processes share a life.
pub fn all_distinct(processes: &Vec<MacosProcessIdentity>) -> (distinct: bool)
    ensures
        distinct == macos_lives(processes@).no_duplicates(),
{
    let mut next: usize = 0;
    while next < processes.len()
        invariant
            next <= processes@.len(),
            forall|i: int, j: int|
                0 <= i < j < next ==> macos_incarnation(#[trigger] processes@[i])
                    != macos_incarnation(#[trigger] processes@[j]),
        decreases processes@.len() - next,
    {
        let none: Vec<MacosProcessIdentity> = Vec::new();
        if was_seen(&none, processes, next) {
            proof {
                let lives = macos_lives(processes@);
                let i = choose|i: int|
                    0 <= i < next && macos_incarnation(#[trigger] processes@[i])
                        == macos_incarnation(processes@[next as int]);
                assert(lives[i] == lives[next as int]);
            }
            return false;
        }
        next = next + 1;
    }
    proof {
        let lives = macos_lives(processes@);
        assert forall|i: int, j: int|
            0 <= i < lives.len() && 0 <= j < lives.len() && i != j implies lives[i]
            != lives[j] by {
            if i < j {
                assert(macos_incarnation(processes@[i]) != macos_incarnation(processes@[j]));
            } else {
                assert(macos_incarnation(processes@[j]) != macos_incarnation(processes@[i]));
            }
        }
    }
    true
}

/// Where a generation is that met no fault in so many steps.
pub open spec fn faultless_step(count: nat) -> IterationStep
    decreases count,
{
    if count == 0 {
        IterationStep::Create
    } else {
        iteration_step_successor(faultless_step((count - 1) as nat))
    }
}

/// A generation that meets no fault takes every step, each behind the one it rests on, before it is
/// complete, and none after that.
pub proof fn no_step_is_left_out(count: nat)
    ensures
        faultless_step(0) is Create,
        faultless_step(1) is Fence,
        faultless_step(2) is Observe,
        faultless_step(3) is Start,
        faultless_step(4) is Marker,
        faultless_step(5) is Kill,
        faultless_step(6) is Wait,
        faultless_step(7) is Delete,
        faultless_step(8) is Missing,
        faultless_step(9) is Reap,
        faultless_step(10) is Endpoints,
        faultless_step(11) is Descriptors,
        faultless_step(12) is Inventory,
        count >= 13 ==> faultless_step(count) is Complete,
    decreases count,
{
    assert(faultless_step(0) is Create);
    assert(faultless_step(1) is Fence);
    assert(faultless_step(2) is Observe);
    assert(faultless_step(3) is Start);
    assert(faultless_step(4) is Marker);
    assert(faultless_step(5) is Kill);
    assert(faultless_step(6) is Wait);
    assert(faultless_step(7) is Delete);
    assert(faultless_step(8) is Missing);
    assert(faultless_step(9) is Reap);
    assert(faultless_step(10) is Endpoints);
    assert(faultless_step(11) is Descriptors);
    assert(faultless_step(12) is Inventory);
    assert(faultless_step(13) is Complete);
    if count > 13 {
        no_step_is_left_out((count - 1) as nat);
    }
}

/// A fault stops a generation and is reported as it is, and without one it goes on to the next
/// step; either way it keeps what it has shown.
pub proof fn faults_stop_the_run(
    before: IterationRun,
    memory: IterationMemory,
    evidence: MacosHvfPublicSoakEvidence,
    fault: Option<Seq<char>>,
    outcome: (IterationRun, Progress),
)
    requires
        moved(before, memory, evidence, fault, outcome),
    ensures
        fault is Some <==> outcome.1 is Failed,
        fault is None <==> outcome.1 is Next,
        fault matches Some(reason) ==> outcome.1->Failed_0@ == reason && outcome.0.step is Stopped,
        fault is None ==> outcome.0.step == iteration_step_successor(before.step),
        outcome.0.memory == memory,
        outcome.0.evidence == evidence,
        outcome.0.iteration == before.iteration,
        outcome.0.id == before.id,
        outcome.0.previous == before.previous,
{
}

/// A generation goes on only with two processes or more, none of which was seen in an
/// earlier generation or twice in this one.
pub proof fn reused_processes_end_a_generation(
    iteration: u32,
    seen: Seq<MacosProcessIdentity>,
    processes: Seq<MacosProcessIdentity>,
)
    ensures
        processes_fault(iteration, seen, processes) is None <==> {
            &&& processes.len() >= 2
            &&& forall|i: int, j: int|
                0 <= i < seen.len() && 0 <= j < processes.len() ==> macos_incarnation(
                    #[trigger] seen[i],
                ) != macos_incarnation(#[trigger] processes[j])
            &&& forall|i: int, j: int|
                0 <= i < j < processes.len() ==> macos_incarnation(#[trigger] processes[i])
                    != macos_incarnation(#[trigger] processes[j])
        },
{
    reuse_is_found(seen, processes, processes.len() as int);
    if first_reused(seen, processes, processes.len() as int) is None {
        assert forall|i: int, j: int|
            0 <= i < seen.len() && 0 <= j < processes.len() implies macos_incarnation(
            #[trigger] seen[i],
        ) != macos_incarnation(#[trigger] processes[j]) by {
            assert(!seen_before(seen, processes, j));
        }
        assert forall|i: int, j: int| 0 <= i < j < processes.len() implies macos_incarnation(
            #[trigger] processes[i],
        ) != macos_incarnation(#[trigger] processes[j]) by {
            assert(!seen_before(seen, processes, j));
        }
    }
}

/// No process was there before exactly where none of the first ones was.
proof fn reuse_is_found(
    seen: Seq<MacosProcessIdentity>,
    processes: Seq<MacosProcessIdentity>,
    upto: int,
)
    requires
        0 <= upto <= processes.len(),
    ensures
        first_reused(seen, processes, upto) is None ==> forall|j: int|
            0 <= j < upto ==> !#[trigger] seen_before(seen, processes, j),
        first_reused(seen, processes, upto) matches Some(place) ==> 0 <= place < upto
            && seen_before(seen, processes, place),
    decreases upto,
{
    if upto > 0 {
        reuse_is_found(seen, processes, upto - 1);
    }
}

/// A count rises by one and never wraps.
pub proof fn counts_rise(count: u32)
    ensures
        count < u32::MAX ==> counted(count) == count + 1,
        counted(count) >= count,
{
}

/// Counters agree only where every generation that was completed was created, killed,
/// waited for and deleted, each replayed.
pub proof fn agreeing_counters_are_equal(evidence: MacosHvfPublicSoakEvidence)
    ensures
        counters_agree(evidence) <==> evidence.completed_iterations
            == evidence.completed_vm_generations && evidence.completed_iterations
            == evidence.create_replays_verified && evidence.completed_iterations
            == evidence.kill_replays_verified && evidence.completed_iterations
            == evidence.wait_replays_verified && evidence.completed_iterations
            == evidence.delete_replays_verified,
{
}

/// A series that holds is clean in every respect, for every generation so far.
pub proof fn holding_series_are_clean(evidence: MacosHvfPublicSoakEvidence)
    requires
        series_holds(evidence),
    ensures
        evidence.completed_vm_generations == evidence.completed_iterations,
        evidence.create_replays_verified == evidence.completed_iterations,
        evidence.kill_replays_verified == evidence.completed_iterations,
        evidence.wait_replays_verified == evidence.completed_iterations,
        evidence.delete_replays_verified == evidence.completed_iterations,
        evidence.generation_monotonic_every_iteration,
        evidence.stale_generation_rejected_every_iteration,
        evidence.descriptor_inventory_stable_every_iteration,
        evidence.vm_processes_reaped_every_iteration,
        evidence.endpoint_inventory_restored_every_iteration,
        evidence.transients_clean_every_iteration,
        evidence.unique_vm_processes,
        evidence.failure_iteration is None,
        evidence.reason is None,
        evidence.vm_processes@.len() >= 2 * evidence.completed_iterations,
        forall|i: int, j: int|
            0 <= i < j < evidence.vm_processes@.len() ==> macos_incarnation(
                #[trigger] evidence.vm_processes@[i],
            ) != macos_incarnation(#[trigger] evidence.vm_processes@[j]),
{
    let lives = macos_lives(evidence.vm_processes@);
    assert forall|i: int, j: int| 0 <= i < j < evidence.vm_processes@.len() implies
        macos_incarnation(#[trigger] evidence.vm_processes@[i]) != macos_incarnation(
        #[trigger] evidence.vm_processes@[j],
    ) by {
        assert(lives[i] != lives[j]);
    }
}

/// A generation is let through its fence only where it follows the one before, and that
/// one, if there was one, was rejected.
pub proof fn fences_reject_the_generation_before(run: IterationRun, rejected: bool)
    ensures
        fence_holds(run, rejected) ==> run.memory.follows,
        fence_holds(run, rejected) && run.previous is Some ==> rejected,
        run.memory.follows && rejected ==> fence_holds(run, rejected),
        run.memory.follows && run.previous is None ==> fence_holds(run, rejected),
{
}

/// A generation is clean only where its processes, endpoints and descriptors are gone and
/// nothing transient is left.
pub proof fn clean_generations_keep_nothing(memory: IterationMemory, inventory: RuntimeInventory)
    ensures
        iteration_clean(memory, inventory) <==> memory.reaped && memory.endpoints
            && memory.descriptors && inventory.bundle_handoffs_clean
            && inventory.runtime_shares_clean && inventory.recovery_reports_clean,
        transients_clean(inventory) <==> inventory.bundle_handoffs_clean
            && inventory.runtime_shares_clean && inventory.recovery_reports_clean,
{
}

/// An answer to something that was not asked changes nothing, and a run that was stopped
/// stays stopped.
pub proof fn misplaced_answers_change_nothing(
    before: IterationRun,
    outcome: (IterationRun, Progress),
)
    ensures
        misplaced(before, outcome) <==> outcome.0 == before && outcome.1 is Misplaced,
        iteration_step_successor(IterationStep::Stopped) is Stopped,
{
}

} // verus!
