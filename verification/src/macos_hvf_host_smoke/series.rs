//! The course of a soak: one generation after another under one host service.

use vstd::prelude::*;
use crate::linux_kvm_recovery_smoke::runner::{report_count, reported_count};
use crate::linux_kvm_recovery_smoke::soak_runner::Progress;
use crate::macos_hvf_host_smoke::cleanup::{count_created, created_count, Consoles};
use crate::macos_hvf_host_smoke::report::{macos_incarnation, MacosHvfPublicSoakEvidence};
use crate::macos_hvf_host_smoke::soak::{
    all_distinct, macos_lives, series_holds, IterationMemory, IterationRun, IterationStep,
};
use crate::model::{ContainerTarget, TargetView};

verus! {

/// One step of a soak.
#[derive(Clone, Copy, Debug, PartialEq, Eq, Structural)]
pub enum SoakStep {
    /// Start the host service and wait for its socket.
    Spawn,
    /// Connect to it.
    Connect,
    /// Count its descriptors.
    Descriptors,
    /// Go through the next generation.
    Iterate,
    /// Count the descriptors again.
    FinalDescriptors,
    /// Stop the host service.
    Terminate,
    /// Look for its socket.
    SocketRemoved,
    /// Look for the console files.
    ConsoleFiles,
    /// Nothing is left to do.
    Complete,
    /// The run has failed.
    Stopped,
}

/// A soak under way.
#[derive(Debug)]
pub struct SoakRun {
    pub step: SoakStep,
    /// The number of the last generation.
    pub begun: u32,
    pub id: String,
    /// The last generation that was deleted.
    pub previous: Option<ContainerTarget>,
    pub evidence: MacosHvfPublicSoakEvidence,
}

/// The step that follows a step, where a generation is left or none.
pub open spec fn soak_step_successor(step: SoakStep, more: bool) -> SoakStep {
    match step {
        SoakStep::Spawn => SoakStep::Connect,
        SoakStep::Connect => SoakStep::Descriptors,
        SoakStep::Descriptors | SoakStep::Iterate => if more {
            SoakStep::Iterate
        } else {
            SoakStep::FinalDescriptors
        },
        SoakStep::FinalDescriptors => SoakStep::Terminate,
        SoakStep::Terminate => SoakStep::SocketRemoved,
        SoakStep::SocketRemoved => SoakStep::ConsoleFiles,
        SoakStep::ConsoleFiles | SoakStep::Complete => SoakStep::Complete,
        SoakStep::Stopped => SoakStep::Stopped,
    }
}

fn soak_step_after(step: SoakStep, more: bool) -> (next: SoakStep)
    ensures
        next == soak_step_successor(step, more),
{
    match step {
        SoakStep::Spawn => SoakStep::Connect,
        SoakStep::Connect => SoakStep::Descriptors,
        SoakStep::Descriptors | SoakStep::Iterate => if more {
            SoakStep::Iterate
        } else {
            SoakStep::FinalDescriptors
        },
        SoakStep::FinalDescriptors => SoakStep::Terminate,
        SoakStep::Terminate => SoakStep::SocketRemoved,
        SoakStep::SocketRemoved => SoakStep::ConsoleFiles,
        SoakStep::ConsoleFiles | SoakStep::Complete => SoakStep::Complete,
        SoakStep::Stopped => SoakStep::Stopped,
    }
}

/// The place of a step in the course of the run.
pub open spec fn soak_step_rank(step: SoakStep) -> int {
    match step {
        SoakStep::Spawn => 0,
        SoakStep::Connect => 1,
        SoakStep::Descriptors => 2,
        SoakStep::Iterate => 3,
        SoakStep::FinalDescriptors => 4,
        SoakStep::Terminate => 5,
        SoakStep::SocketRemoved => 6,
        SoakStep::ConsoleFiles => 7,
        SoakStep::Complete => 8,
        SoakStep::Stopped => -1,
    }
}

/// The evidence behind a generation. Once none is left it says whether all processes
/// were distinct.
pub open spec fn behind_generation(evidence: MacosHvfPublicSoakEvidence, begun: u32) -> MacosHvfPublicSoakEvidence {
    if begun < evidence.requested_iterations {
        evidence
    } else {
        MacosHvfPublicSoakEvidence {
            unique_vm_processes: macos_lives(evidence.vm_processes@).no_duplicates(),
            ..evidence
        }
    }
}

fn go_behind(evidence: MacosHvfPublicSoakEvidence, begun: u32) -> (after: MacosHvfPublicSoakEvidence)
    ensures
        after == behind_generation(evidence, begun),
{
    if begun < evidence.requested_iterations {
        evidence
    } else {
        let unique = all_distinct(&evidence.vm_processes);
        MacosHvfPublicSoakEvidence { unique_vm_processes: unique, ..evidence }
    }
}

/// Whether a run went on from a step: it has shown this, and a fault stops it
/// where there is one.
pub open spec fn moved(
    before: SoakRun,
    evidence: MacosHvfPublicSoakEvidence,
    fault: Option<Seq<char>>,
    outcome: (SoakRun, Progress),
) -> bool {
    let (after, progress) = outcome;
    &&& after == (SoakRun {
        step: if fault is Some {
            SoakStep::Stopped
        } else {
            soak_step_successor(before.step, before.begun < before.evidence.requested_iterations)
        },
        evidence,
        ..before
    })
    &&& match fault {
        Some(reason) => progress matches Progress::Failed(message) && message@ == reason,
        None => progress is Next,
    }
}

/// Whether a run was left as it was, at a step that asks for something else.
pub open spec fn misplaced(before: SoakRun, outcome: (SoakRun, Progress)) -> bool {
    outcome.1 is Misplaced && outcome.0 == before
}

/// Whether all that the end of a soak asks for was shown.
pub open spec fn soak_ended_well(evidence: MacosHvfPublicSoakEvidence) -> bool {
    &&& evidence.unique_vm_processes
    &&& evidence.service_exit_success
    &&& evidence.service_socket_removed
    &&& evidence.console_files_created >= evidence.requested_iterations
}

impl SoakRun {
    /// What a soak has shown by the time it is at its step.
    pub open spec fn shown(self) -> bool {
        let rank = soak_step_rank(self.step);
        let shown = self.evidence;
        &&& rank >= 0 ==> {
            &&& series_holds(shown)
            &&& shown.completed_iterations == self.begun
            &&& self.begun <= shown.requested_iterations
        }
        &&& 0 <= rank < 3 ==> self.begun == 0
        &&& rank > 0 ==> shown.host_service_pid is Some
        &&& rank == 3 ==> self.begun < shown.requested_iterations
        &&& rank > 3 ==> self.begun == shown.requested_iterations
        &&& self.step is Complete ==> soak_ended_well(shown)
    }

    /// A soak before its first step.
    pub fn start(id: String, evidence: MacosHvfPublicSoakEvidence) -> (run: SoakRun)
        ensures
            run == (SoakRun { step: SoakStep::Spawn, begun: 0, id, previous: None, evidence }),
            evidence.begins(evidence.requested_iterations) ==> run.shown(),
    {
        proof {
            if evidence.begins(evidence.requested_iterations) {
                assert(macos_lives(evidence.vm_processes@).no_duplicates());
            }
        }
        SoakRun { step: SoakStep::Spawn, begun: 0, id, previous: None, evidence }
    }

    /// Goes on with what was shown, or stops at a fault.
    fn go_on(
        step: SoakStep,
        begun: u32,
        id: String,
        previous: Option<ContainerTarget>,
        evidence: MacosHvfPublicSoakEvidence,
        fault: Option<String>,
    ) -> (outcome: (SoakRun, Progress))
        ensures
            outcome.0 == (SoakRun {
                step: if fault is Some {
                    SoakStep::Stopped
                } else {
                    soak_step_successor(step, begun < evidence.requested_iterations)
                },
                begun,
                id,
                previous,
                evidence,
            }),
            match fault {
                Some(reason) => outcome.1 == Progress::Failed(reason),
                None => outcome.1 is Next,
            },
    {
        match fault {
            Some(reason) => (
                SoakRun { step: SoakStep::Stopped, begun, id, previous, evidence },
                Progress::Failed(reason),
            ),
            None => {
                let next = soak_step_after(step, begun < evidence.requested_iterations);
                (SoakRun { step: next, begun, id, previous, evidence }, Progress::Next)
            },
        }
    }

    /// Stops at a step that could not be carried out.
    pub fn failed(self, reason: String) -> (outcome: (SoakRun, Progress))
        ensures
            if self.step is Complete || self.step is Stopped {
                misplaced(self, outcome)
            } else {
                moved(self, self.evidence, Some(reason@), outcome)
            },
            self.shown() ==> outcome.0.shown(),
    {
        if self.step == SoakStep::Complete || self.step == SoakStep::Stopped {
            return (self, Progress::Misplaced);
        }
        let SoakRun { step, begun, id, previous, evidence } = self;
        Self::go_on(step, begun, id, previous, evidence, Some(reason))
    }

    /// Takes which process the host service is.
    pub fn spawned(self, pid: u32) -> (outcome: (SoakRun, Progress))
        ensures
            if self.step is Spawn {
                moved(
                    self,
                    MacosHvfPublicSoakEvidence { host_service_pid: Some(pid), ..self.evidence },
                    None,
                    outcome,
                )
            } else {
                misplaced(self, outcome)
            },
            self.shown() ==> outcome.0.shown(),
    {
        if self.step != SoakStep::Spawn {
            return (self, Progress::Misplaced);
        }
        let SoakRun { step, begun, id, previous, evidence } = self;
        let shown = MacosHvfPublicSoakEvidence { host_service_pid: Some(pid), ..evidence };
        Self::go_on(step, begun, id, previous, shown, None)
    }

    /// Takes that the host service was connected to.
    pub fn connected(self) -> (outcome: (SoakRun, Progress))
        ensures
            if self.step is Connect {
                moved(self, self.evidence, None, outcome)
            } else {
                misplaced(self, outcome)
            },
            self.shown() ==> outcome.0.shown(),
    {
        if self.step != SoakStep::Connect {
            return (self, Progress::Misplaced);
        }
        let SoakRun { step, begun, id, previous, evidence } = self;
        Self::go_on(step, begun, id, previous, evidence, None)
    }

    /// Takes how many descriptors the host service has before the first generation.
    pub fn descriptors_counted(self, count: usize) -> (outcome: (SoakRun, Progress))
        ensures
            if self.step is Descriptors {
                moved(
                    self,
                    behind_generation(
                        MacosHvfPublicSoakEvidence {
                            steady_open_descriptors: reported_count(count),
                            ..self.evidence
                        },
                        self.begun,
                    ),
                    None,
                    outcome,
                )
            } else {
                misplaced(self, outcome)
            },
            self.shown() ==> outcome.0.shown(),
    {
        if self.step != SoakStep::Descriptors {
            return (self, Progress::Misplaced);
        }
        let SoakRun { step, begun, id, previous, evidence } = self;
        let steady = MacosHvfPublicSoakEvidence {
            steady_open_descriptors: report_count(count),
            ..evidence
        };
        let shown = go_behind(steady, begun);
        Self::go_on(step, begun, id, previous, shown, None)
    }

    /// The next generation, if one is to be gone through.
    pub fn begin_generation(self) -> (result: Result<IterationRun, SoakRun>)
        ensures
            match result {
                Ok(run) => self.step is Iterate && self.begun < self.evidence.requested_iterations
                    && run == (IterationRun {
                    step: IterationStep::Create,
                    iteration: (self.begun + 1) as u32,
                    id: self.id,
                    previous: self.previous,
                    memory: IterationMemory {
                        generation: 0,
                        follows: false,
                        reaped: false,
                        endpoints: false,
                        descriptors: false,
                    },
                    evidence: self.evidence,
                }),
                Err(same) => !(self.step is Iterate && self.begun
                    < self.evidence.requested_iterations) && same == self,
            },
            self.shown() && self.step is Iterate ==> result is Ok && result->Ok_0.shown(),
    {
        if self.step == SoakStep::Iterate && self.begun < self.evidence.requested_iterations {
            let SoakRun { step: _, begun, id, previous, evidence } = self;
            Ok(IterationRun::start(begun + 1, id, previous, evidence))
        } else {
            Err(self)
        }
    }

    /// Takes a generation that was gone through. One that did not complete stops the
    /// soak and is named as the one that failed.
    pub fn generation_ended(run: IterationRun) -> (after: SoakRun)
        ensures
            after.begun == run.iteration,
            after.id == run.id,
            if run.step is Complete {
                &&& after.step == soak_step_successor(
                    SoakStep::Iterate,
                    run.iteration < run.evidence.requested_iterations,
                )
                &&& after.previous is Some
                &&& after.previous->0@ == (TargetView {
                    id: run.id@,
                    generation: Some(run.memory.generation),
                })
                &&& after.evidence == behind_generation(run.evidence, run.iteration)
            } else {
                &&& after.step is Stopped
                &&& after.previous == run.previous
                &&& after.evidence == (MacosHvfPublicSoakEvidence {
                    failure_iteration: Some(run.iteration),
                    ..run.evidence
                })
                &&& !after.evidence.succeeds()
            },
            run.shown() ==> after.shown(),
    {
        if run.step == IterationStep::Complete {
            let target = run.target();
            let IterationRun { step: _, iteration, id, previous: _, memory: _, evidence } = run;
            let next = soak_step_after(
                SoakStep::Iterate,
                iteration < evidence.requested_iterations,
            );
            SoakRun {
                step: next,
                begun: iteration,
                id,
                previous: Some(target),
                evidence: go_behind(evidence, iteration),
            }
        } else {
            let IterationRun { step: _, iteration, id, previous, memory: _, evidence } = run;
            SoakRun {
                step: SoakStep::Stopped,
                begun: iteration,
                id,
                previous,
                evidence: MacosHvfPublicSoakEvidence {
                    failure_iteration: Some(iteration),
                    ..evidence
                },
            }
        }
    }

    /// Takes how many descriptors the host service has behind the last generation.
    pub fn descriptors_counted_again(self, count: usize) -> (outcome: (SoakRun, Progress))
        ensures
            if self.step is FinalDescriptors {
                moved(
                    self,
                    MacosHvfPublicSoakEvidence {
                        final_open_descriptors: reported_count(count),
                        ..self.evidence
                    },
                    None,
                    outcome,
                )
            } else {
                misplaced(self, outcome)
            },
            self.shown() ==> outcome.0.shown(),
    {
        if self.step != SoakStep::FinalDescriptors {
            return (self, Progress::Misplaced);
        }
        let SoakRun { step, begun, id, previous, evidence } = self;
        let shown = MacosHvfPublicSoakEvidence {
            final_open_descriptors: report_count(count),
            ..evidence
        };
        Self::go_on(step, begun, id, previous, shown, None)
    }

    /// Takes whether the host service ended well.
    pub fn terminated(self, success: bool) -> (outcome: (SoakRun, Progress))
        ensures
            if self.step is Terminate {
                moved(
                    self,
                    MacosHvfPublicSoakEvidence { service_exit_success: success, ..self.evidence },
                    None,
                    outcome,
                )
            } else {
                misplaced(self, outcome)
            },
            self.shown() ==> outcome.0.shown(),
    {
        if self.step != SoakStep::Terminate {
            return (self, Progress::Misplaced);
        }
        let SoakRun { step, begun, id, previous, evidence } = self;
        let shown = MacosHvfPublicSoakEvidence { service_exit_success: success, ..evidence };
        Self::go_on(step, begun, id, previous, shown, None)
    }

    /// Takes whether the socket is gone.
    pub fn socket_checked(self, absent: bool) -> (outcome: (SoakRun, Progress))
        ensures
            if self.step is SocketRemoved {
                moved(
                    self,
                    MacosHvfPublicSoakEvidence { service_socket_removed: absent, ..self.evidence },
                    None,
                    outcome,
                )
            } else {
                misplaced(self, outcome)
            },
            self.shown() ==> outcome.0.shown(),
    {
        if self.step != SoakStep::SocketRemoved {
            return (self, Progress::Misplaced);
        }
        let SoakRun { step, begun, id, previous, evidence } = self;
        let shown = MacosHvfPublicSoakEvidence { service_socket_removed: absent, ..evidence };
        Self::go_on(step, begun, id, previous, shown, None)
    }

    /// Takes the console files that there were ahead of the service and that there are
    /// now. Whatever is missing at the end fails the soak.
    pub fn consoles_counted(self, before: &Consoles, after: &Consoles) -> (outcome: (
        SoakRun,
        Progress,
    ))
        ensures
            if self.step is ConsoleFiles {
                let shown = MacosHvfPublicSoakEvidence {
                    console_files_created: created_count(*before, *after),
                    ..self.evidence
                };
                moved(
                    self,
                    shown,
                    if soak_ended_well(shown) {
                        None
                    } else {
                        Some("public Host Service soak final evidence was incomplete"@)
                    },
                    outcome,
                )
            } else {
                misplaced(self, outcome)
            },
            self.shown() ==> outcome.0.shown(),
    {
        if self.step != SoakStep::ConsoleFiles {
            return (self, Progress::Misplaced);
        }
        let SoakRun { step, begun, id, previous, evidence } = self;
        let created = count_created(before, after);
        let fault: Option<String> = if !evidence.unique_vm_processes
            || !evidence.service_exit_success || !evidence.service_socket_removed || created
            < evidence.requested_iterations {
            Some("public Host Service soak final evidence was incomplete".to_owned())
        } else {
            None
        };
        let shown = MacosHvfPublicSoakEvidence { console_files_created: created, ..evidence };
        Self::go_on(step, begun, id, previous, shown, fault)
    }
}

/// A soak that has gone through all its steps, with enough generations, shows all
/// that success asks for.
pub proof fn completed_soaks_succeed(run: SoakRun)
    requires
        run.step is Complete,
        run.shown(),
        run.evidence.requested_iterations >= 25,
    ensures
        run.evidence.succeeds(),
{
}

/// A soak opens its service first, runs generations as long as one is left, and closes
/// the service behind the last; a soak that is asked for none runs none.
pub proof fn soaks_run_their_generations(step: SoakStep, more: bool)
    ensures
        soak_step_successor(step, more) is Iterate <==> more && (step is Descriptors || step
            is Iterate),
        soak_step_successor(step, more) is FinalDescriptors <==> !more && (step is Descriptors
            || step is Iterate),
        soak_step_successor(step, more) is Connect <==> step is Spawn,
        soak_step_successor(step, more) is Descriptors <==> step is Connect,
        soak_step_successor(step, more) is Terminate <==> step is FinalDescriptors,
        soak_step_successor(step, more) is SocketRemoved <==> step is Terminate,
        soak_step_successor(step, more) is ConsoleFiles <==> step is SocketRemoved,
        soak_step_successor(step, more) is Complete <==> step is ConsoleFiles || step is Complete,
        soak_step_successor(step, more) is Stopped <==> step is Stopped,
{
}

/// A fault stops a soak and is reported as it is, and without one it goes on: to another
/// generation where one is left, and to its end where none is.
pub proof fn faults_stop_the_soak(
    before: SoakRun,
    evidence: MacosHvfPublicSoakEvidence,
    fault: Option<Seq<char>>,
    outcome: (SoakRun, Progress),
)
    requires
        moved(before, evidence, fault, outcome),
    ensures
        fault is Some <==> outcome.1 is Failed,
        fault is None <==> outcome.1 is Next,
        fault matches Some(reason) ==> outcome.1->Failed_0@ == reason && outcome.0.step is Stopped,
        fault is None && before.step is Iterate ==> (outcome.0.step is Iterate <==> before.begun
            < before.evidence.requested_iterations),
        outcome.0.evidence == evidence,
        outcome.0.begun == before.begun,
{
}

/// All processes of a soak are looked at once, when none of its generations is left, and
/// they count as distinct exactly where no two are one.
pub proof fn processes_are_compared_at_the_end(evidence: MacosHvfPublicSoakEvidence, begun: u32)
    ensures
        ({
            let shown = behind_generation(evidence, begun);
            &&& begun < evidence.requested_iterations ==> shown == evidence
            &&& shown == (MacosHvfPublicSoakEvidence {
                unique_vm_processes: shown.unique_vm_processes,
                ..evidence
            })
            &&& begun >= evidence.requested_iterations ==> (shown.unique_vm_processes
                <==> forall|i: int, j: int|
                0 <= i < j < evidence.vm_processes@.len() ==> macos_incarnation(
                    #[trigger] evidence.vm_processes@[i],
                ) != macos_incarnation(#[trigger] evidence.vm_processes@[j]))
        }),
{
    let lives = macos_lives(evidence.vm_processes@);
    if lives.no_duplicates() {
        assert forall|i: int, j: int| 0 <= i < j < evidence.vm_processes@.len() implies
            macos_incarnation(#[trigger] evidence.vm_processes@[i])
            != macos_incarnation(#[trigger] evidence.vm_processes@[j]) by {
            assert(lives[i] != lives[j]);
        }
    } else {
        let (i, j) = choose|i: int, j: int|
            (0 <= i < lives.len() && 0 <= j < lives.len() && i != j) && lives[i] == lives[j];
        let (low, high) = if i < j {
            (i, j)
        } else {
            (j, i)
        };
        assert(macos_incarnation(evidence.vm_processes@[low])
            == macos_incarnation(evidence.vm_processes@[high]));
    }
}

/// A soak ends well only where its processes were distinct, its service left by itself
/// with its socket gone, and each generation left a console file.
pub proof fn good_endings_show_everything(evidence: MacosHvfPublicSoakEvidence)
    ensures
        soak_ended_well(evidence) <==> evidence.service_exit_success
            && evidence.service_socket_removed && evidence.unique_vm_processes
            && evidence.console_files_created >= evidence.requested_iterations,
{
}

/// An answer to something that was not asked changes nothing, and a run that was stopped
/// stays stopped.
pub proof fn misplaced_answers_change_nothing(before: SoakRun, outcome: (SoakRun, Progress))
    ensures
        misplaced(before, outcome) <==> outcome.0 == before && outcome.1 is Misplaced,
{
}

} // verus!
