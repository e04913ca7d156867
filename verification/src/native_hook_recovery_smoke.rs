//! Hooks that are interrupted by the death of their owner: all their processes
//! have to end with it.

use vstd::prelude::*;
use crate::model::{CapabilityStatus, ContainerTarget, HostPlatform};
use crate::native_recovery_smoke::{append_reason, with_reason, NativeLinuxRecoverySmokeReport};
use crate::process::NativeLinuxProcessIdentity;
use crate::text::{append_decimal, debug_text, decimal, optional_view, quote, text_eq};

verus! {

/// The version of what is captured while the hook is still alive.
pub const NATIVE_LINUX_HOOK_OWNER_DEATH_EVIDENCE_SCHEMA_VERSION: &'static str =
    "a3s.oci.native-linux-hook-owner-death-evidence.v1";

/// The version of the report.
pub const NATIVE_LINUX_HOOK_OWNER_DEATH_SMOKE_SCHEMA_VERSION: &'static str =
    "a3s.oci.native-linux-hook-owner-death-smoke.v1";

/// The processes of an owner and its hook, captured before the owner was killed.
#[derive(Clone, Debug)]
pub struct NativeLinuxHookOwnerDeathEvidence {
    pub schema_version: String,
    pub target: ContainerTarget,
    pub owner: NativeLinuxProcessIdentity,
    pub hook_leader: NativeLinuxProcessIdentity,
    pub hook_descendant: NativeLinuxProcessIdentity,
}

/// Whether a process is identified in full.
pub open spec fn identified(identity: NativeLinuxProcessIdentity) -> bool {
    identity.pid != 0 && identity.process_group_id != 0 && identity.start_time_ticks != 0
}

fn is_identified(identity: NativeLinuxProcessIdentity) -> (holds: bool)
    ensures
        holds == identified(identity),
{
    identity.pid != 0 && identity.process_group_id != 0 && identity.start_time_ticks != 0
}

/// What is wrong with captured processes, if anything: each has to be identified
/// in full, none may be another, and those of the hook form a group of their own.
pub open spec fn evidence_fault(
    evidence: NativeLinuxHookOwnerDeathEvidence,
    target: ContainerTarget,
) -> Option<Seq<char>> {
    let owner = evidence.owner;
    let leader = evidence.hook_leader;
    let descendant = evidence.hook_descendant;
    if evidence.schema_version@ != NATIVE_LINUX_HOOK_OWNER_DEATH_EVIDENCE_SCHEMA_VERSION@ {
        Some(
            "unsupported Hook owner-death evidence schema "@ + debug_text(
                evidence.schema_version@,
            ),
        )
    } else if evidence.target@ != target@ || target.generation is None {
        Some("Hook owner-death evidence is not bound to the exact recovery target"@)
    } else if !identified(owner) {
        Some("owner process identity is incomplete"@)
    } else if !identified(leader) {
        Some("Hook leader process identity is incomplete"@)
    } else if !identified(descendant) {
        Some("Hook descendant process identity is incomplete"@)
    } else if owner.pid == leader.pid || owner.pid == descendant.pid || leader.pid
        == descendant.pid {
        Some("Hook owner-death evidence contains duplicate process IDs"@)
    } else if leader.process_group_id != leader.pid || descendant.process_group_id != leader.pid {
        Some("Hook leader and descendant were not captured in one private process group"@)
    } else {
        None
    }
}

impl NativeLinuxHookOwnerDeathEvidence {
    /// Checks captured processes.
    pub fn validate(&self, target: &ContainerTarget) -> (result: Result<(), String>)
        ensures
            match result {
                Ok(()) => evidence_fault(*self, *target) is None,
                Err(message) => evidence_fault(*self, *target) == Some(message@),
            },
    {
        if !text_eq(
            &self.schema_version,
            NATIVE_LINUX_HOOK_OWNER_DEATH_EVIDENCE_SCHEMA_VERSION,
        ) {
            let mut message = "unsupported Hook owner-death evidence schema ".to_owned();
            message.append(&quote(&self.schema_version));
            return Err(message);
        }
        let fault = if !self.target.same(target) || target.generation.is_none() {
            "Hook owner-death evidence is not bound to the exact recovery target"
        } else if !is_identified(self.owner) {
            "owner process identity is incomplete"
        } else if !is_identified(self.hook_leader) {
            "Hook leader process identity is incomplete"
        } else if !is_identified(self.hook_descendant) {
            "Hook descendant process identity is incomplete"
        } else if self.owner.pid == self.hook_leader.pid || self.owner.pid
            == self.hook_descendant.pid || self.hook_leader.pid == self.hook_descendant.pid {
            "Hook owner-death evidence contains duplicate process IDs"
        } else if self.hook_leader.process_group_id != self.hook_leader.pid
            || self.hook_descendant.process_group_id != self.hook_leader.pid {
            "Hook leader and descendant were not captured in one private process group"
        } else {
            return Ok(());
        };
        Err(fault.to_owned())
    }
}

/// What the death of an owner inside a hook has shown.
#[derive(Clone, Debug)]
pub struct NativeLinuxHookOwnerDeathSmokeReport {
    pub schema_version: String,
    pub status: CapabilityStatus,
    pub platform: HostPlatform,
    pub target: ContainerTarget,
    pub evidence: NativeLinuxHookOwnerDeathEvidence,
    pub replacement_owner: Option<NativeLinuxProcessIdentity>,
    pub evidence_validated: bool,
    pub owner_replaced: bool,
    pub owner_terminated: bool,
    pub hook_leader_terminated: bool,
    pub hook_descendant_terminated: bool,
    pub recovery: NativeLinuxRecoverySmokeReport,
    pub reason: Option<String>,
}

impl NativeLinuxHookOwnerDeathSmokeReport {
    /// A report before anything but the recovery was looked at.
    pub fn initial(
        target: ContainerTarget,
        evidence: NativeLinuxHookOwnerDeathEvidence,
        recovery: NativeLinuxRecoverySmokeReport,
    ) -> (report: NativeLinuxHookOwnerDeathSmokeReport)
        ensures
            report.schema_version@ == NATIVE_LINUX_HOOK_OWNER_DEATH_SMOKE_SCHEMA_VERSION@,
            report == (NativeLinuxHookOwnerDeathSmokeReport {
                schema_version: report.schema_version,
                status: CapabilityStatus::Unavailable,
                platform: HostPlatform::Linux,
                target,
                evidence,
                replacement_owner: None,
                evidence_validated: false,
                owner_replaced: false,
                owner_terminated: false,
                hook_leader_terminated: false,
                hook_descendant_terminated: false,
                recovery,
                reason: None,
            }),
            !report.succeeds(),
    {
        NativeLinuxHookOwnerDeathSmokeReport {
            schema_version: NATIVE_LINUX_HOOK_OWNER_DEATH_SMOKE_SCHEMA_VERSION.to_owned(),
            status: CapabilityStatus::Unavailable,
            platform: HostPlatform::Linux,
            target,
            evidence,
            replacement_owner: None,
            evidence_validated: false,
            owner_replaced: false,
            owner_terminated: false,
            hook_leader_terminated: false,
            hook_descendant_terminated: false,
            recovery,
            reason: None,
        }
    }

    /// Whether the hook was cleaned up and its container safely recovered.
    pub open spec fn complete(self) -> bool {
        &&& self.evidence_validated
        &&& self.owner_replaced
        &&& self.owner_terminated
        &&& self.hook_leader_terminated
        &&& self.hook_descendant_terminated
        &&& self.recovery.succeeds()
        &&& self.reason is None
    }

    /// Whether the hook was cleaned up and its container safely recovered.
    pub fn contract_complete(&self) -> (holds: bool)
        ensures
            holds == self.complete(),
    {
        self.evidence_validated && self.owner_replaced && self.owner_terminated
            && self.hook_leader_terminated && self.hook_descendant_terminated
            && self.recovery.is_success() && self.reason.is_none()
    }

    /// Whether the report is that of a success.
    pub open spec fn succeeds(self) -> bool {
        self.status is Available && self.complete()
    }

    /// Whether the report is that of a success.
    pub fn is_success(&self) -> (holds: bool)
        ensures
            holds == self.succeeds(),
    {
        self.status == CapabilityStatus::Available && self.contract_complete()
    }
}

/// Reasons with one more put behind them, if there is one.
pub open spec fn folded(existing: Option<Seq<char>>, reason: Option<Seq<char>>) -> Option<
    Seq<char>,
> {
    match reason {
        Some(reason) => Some(with_reason(existing, reason)),
        None => existing,
    }
}

fn fold(existing: Option<String>, reason: Option<String>) -> (all: Option<String>)
    ensures
        optional_view(all) == folded(optional_view(existing), optional_view(reason)),
{
    match reason {
        Some(reason) => append_reason(existing, reason),
        None => existing,
    }
}

/// Whether a process is another than the dead owner.
pub open spec fn replaces(
    identity: NativeLinuxProcessIdentity,
    owner: NativeLinuxProcessIdentity,
) -> bool {
    identity.pid != owner.pid || identity.start_time_ticks != owner.start_time_ticks
}

/// What is wrong with the replacement of a dead owner, if anything.
pub open spec fn replacement_reason(
    replacement: Result<NativeLinuxProcessIdentity, String>,
    owner: NativeLinuxProcessIdentity,
) -> Option<Seq<char>> {
    match replacement {
        Ok(identity) => if replaces(identity, owner) {
            None
        } else {
            Some("replacement process has the interrupted owner's exact identity"@)
        },
        Err(reason) => Some(reason@),
    }
}

fn reason_of_replacement(
    replacement: &Result<NativeLinuxProcessIdentity, String>,
    owner: NativeLinuxProcessIdentity,
) -> (reason: Option<String>)
    ensures
        optional_view(reason) == replacement_reason(*replacement, owner),
{
    match replacement {
        Ok(identity) => if identity.pid != owner.pid || identity.start_time_ticks
            != owner.start_time_ticks {
            None
        } else {
            Some("replacement process has the interrupted owner's exact identity".to_owned())
        },
        Err(reason) => Some(reason.clone()),
    }
}

/// What is wrong with a process that has to have ended, if anything.
pub open spec fn termination_reason(
    role: Seq<char>,
    identity: NativeLinuxProcessIdentity,
    ended: Result<bool, String>,
) -> Option<Seq<char>> {
    match ended {
        Ok(true) => None,
        Ok(false) => Some(
            role + " PID "@ + decimal(identity.pid as nat) + " start-time "@ + decimal(
                identity.start_time_ticks as nat,
            ) + " remained live"@,
        ),
        Err(reason) => Some("failed to inspect "@ + role + ": "@ + reason@),
    }
}

/// Tells what is wrong with a process that has to have ended.
pub fn retain_termination(
    role: &str,
    identity: NativeLinuxProcessIdentity,
    ended: &Result<bool, String>,
) -> (reason: Option<String>)
    ensures
        optional_view(reason) == termination_reason(role@, identity, *ended),
{
    match ended {
        Ok(true) => None,
        Ok(false) => {
            let mut reason = role.to_owned();
            reason.append(" PID ");
            append_decimal(&mut reason, identity.pid as u64);
            reason.append(" start-time ");
            append_decimal(&mut reason, identity.start_time_ticks);
            reason.append(" remained live");
            Some(reason)
        },
        Err(cause) => {
            let mut reason = "failed to inspect ".to_owned();
            reason.append(role);
            reason.append(": ");
            reason.append(cause);
            Some(reason)
        },
    }
}

/// What is wrong with the recovery of the container, if anything.
pub open spec fn recovery_reason(recovery: NativeLinuxRecoverySmokeReport) -> Option<Seq<char>> {
    if recovery.succeeds() {
        None
    } else {
        match recovery.reason {
            Some(reason) => Some("Native recovery contract did not complete: "@ + reason@),
            None => Some("Native recovery contract did not complete"@),
        }
    }
}

fn reason_of_recovery(recovery: &NativeLinuxRecoverySmokeReport) -> (reason: Option<String>)
    ensures
        optional_view(reason) == recovery_reason(*recovery),
{
    if recovery.is_success() {
        return None;
    }
    match &recovery.reason {
        Some(cause) => {
            let mut reason = "Native recovery contract did not complete: ".to_owned();
            reason.append(cause);
            Some(reason)
        },
        None => Some("Native recovery contract did not complete".to_owned()),
    }
}

/// What was seen of the processes around an interrupted hook.
#[derive(Debug)]
pub struct HookObservations {
    /// The process that replaces the owner.
    pub replacement: Result<NativeLinuxProcessIdentity, String>,
    /// Whether each process has ended.
    pub owner: Result<bool, String>,
    pub hook_leader: Result<bool, String>,
    pub hook_descendant: Result<bool, String>,
}

/// Everything that is wrong, in the order in which it is looked at.
pub open spec fn hook_reasons(
    target: ContainerTarget,
    evidence: NativeLinuxHookOwnerDeathEvidence,
    recovery: NativeLinuxRecoverySmokeReport,
    seen: HookObservations,
) -> Option<Seq<char>> {
    let first = folded(None, evidence_fault(evidence, target));
    let second = folded(first, replacement_reason(seen.replacement, evidence.owner));
    let third = folded(
        second,
        termination_reason("interrupted owner"@, evidence.owner, seen.owner),
    );
    let fourth = folded(
        third,
        termination_reason("Hook process-group leader"@, evidence.hook_leader, seen.hook_leader),
    );
    let fifth = folded(
        fourth,
        termination_reason("Hook descendant"@, evidence.hook_descendant, seen.hook_descendant),
    );
    folded(fifth, recovery_reason(recovery))
}

/// Whether a process was seen to have ended.
pub open spec fn has_terminated(ended: Result<bool, String>) -> bool {
    ended == Ok::<bool, String>(true)
}

fn is_terminated(ended: &Result<bool, String>) -> (holds: bool)
    ensures
        holds == has_terminated(*ended),
{
    match ended {
        Ok(ended) => *ended,
        Err(_) => false,
    }
}

/// Whether the replacement of an owner was identified and is another process.
pub open spec fn was_replaced(
    replacement: Result<NativeLinuxProcessIdentity, String>,
    owner: NativeLinuxProcessIdentity,
) -> bool {
    replacement is Ok && replaces(replacement->Ok_0, owner)
}

/// Reports the death of an owner inside a hook, from the recovery of its container
/// and what was seen of the processes around it.
pub fn hook_owner_death_report(
    target: ContainerTarget,
    evidence: NativeLinuxHookOwnerDeathEvidence,
    recovery: NativeLinuxRecoverySmokeReport,
    seen: HookObservations,
) -> (report: NativeLinuxHookOwnerDeathSmokeReport)
    ensures
        report.schema_version@ == NATIVE_LINUX_HOOK_OWNER_DEATH_SMOKE_SCHEMA_VERSION@,
        report.platform is Linux,
        report.target == target,
        report.evidence == evidence,
        report.recovery == recovery,
        report.replacement_owner == match seen.replacement {
            Ok(identity) => Some(identity),
            Err(_) => None,
        },
        report.evidence_validated == (evidence_fault(evidence, target) is None),
        report.owner_replaced == was_replaced(seen.replacement, evidence.owner),
        report.owner_terminated == has_terminated(seen.owner),
        report.hook_leader_terminated == has_terminated(seen.hook_leader),
        report.hook_descendant_terminated == has_terminated(seen.hook_descendant),
        optional_view(report.reason) == hook_reasons(target, evidence, recovery, seen),
        report.status is Available <==> report.complete(),
        !(report.status is Available) ==> report.status is Unavailable,
{
    let fault: Option<String> = match evidence.validate(&target) {
        Ok(()) => None,
        Err(message) => Some(message),
    };
    let evidence_validated = fault.is_none();
    let reason = fold(None, fault);
    let reason = fold(reason, reason_of_replacement(&seen.replacement, evidence.owner));
    let (replacement_owner, owner_replaced) = match &seen.replacement {
        Ok(identity) => (
            Some(*identity),
            identity.pid != evidence.owner.pid || identity.start_time_ticks
                != evidence.owner.start_time_ticks,
        ),
        Err(_) => (None, false),
    };
    let reason = fold(
        reason,
        retain_termination("interrupted owner", evidence.owner, &seen.owner),
    );
    let reason = fold(
        reason,
        retain_termination("Hook process-group leader", evidence.hook_leader, &seen.hook_leader),
    );
    let reason = fold(
        reason,
        retain_termination("Hook descendant", evidence.hook_descendant, &seen.hook_descendant),
    );
    let reason = fold(reason, reason_of_recovery(&recovery));
    let initial = NativeLinuxHookOwnerDeathSmokeReport::initial(target, evidence, recovery);
    let report = NativeLinuxHookOwnerDeathSmokeReport {
        replacement_owner,
        evidence_validated,
        owner_replaced,
        owner_terminated: is_terminated(&seen.owner),
        hook_leader_terminated: is_terminated(&seen.hook_leader),
        hook_descendant_terminated: is_terminated(&seen.hook_descendant),
        reason,
        ..initial
    };
    if report.contract_complete() {
        NativeLinuxHookOwnerDeathSmokeReport { status: CapabilityStatus::Available, ..report }
    } else {
        report
    }
}

/// A hook whose processes have all ended, whose owner was replaced and whose
/// container was safely recovered leaves nothing to complain of, and anything
/// else does.
pub proof fn complete_hooks_have_no_reason(
    target: ContainerTarget,
    evidence: NativeLinuxHookOwnerDeathEvidence,
    recovery: NativeLinuxRecoverySmokeReport,
    seen: HookObservations,
)
    ensures
        hook_reasons(target, evidence, recovery, seen) is None <==> evidence_fault(
            evidence,
            target,
        ) is None && was_replaced(seen.replacement, evidence.owner) && has_terminated(seen.owner)
            && has_terminated(seen.hook_leader) && has_terminated(seen.hook_descendant)
            && recovery.succeeds(),
{
}

/// A hook whose owner died is recovered only where each of the gates was met.
pub proof fn hook_success_needs_every_gate(report: NativeLinuxHookOwnerDeathSmokeReport)
    requires
        report.succeeds(),
    ensures
        report.status is Available,
        report.evidence_validated,
        report.owner_replaced,
        report.owner_terminated,
        report.hook_leader_terminated,
        report.hook_descendant_terminated,
        report.recovery.succeeds(),
        report.reason is None,
{
}

/// Nothing but these is asked for.
pub proof fn hook_gates_suffice(report: NativeLinuxHookOwnerDeathSmokeReport)
    requires
        report.status is Available,
        report.evidence_validated,
        report.owner_replaced,
        report.owner_terminated,
        report.hook_leader_terminated,
        report.hook_descendant_terminated,
        report.recovery.succeeds(),
        report.reason is None,
    ensures
        report.succeeds(),
{
}

/// Captured processes are believed only where they are of the exact target, each is
/// identified in full, no two are one, and the hook's form a group of their own that the
/// leader leads.
pub proof fn believed_captures_are_exact(
    evidence: NativeLinuxHookOwnerDeathEvidence,
    target: ContainerTarget,
)
    ensures
        evidence_fault(evidence, target) is None <==> {
            &&& evidence.schema_version@ == NATIVE_LINUX_HOOK_OWNER_DEATH_EVIDENCE_SCHEMA_VERSION@
            &&& evidence.target@ == target@
            &&& target.generation is Some
            &&& evidence.owner.pid != 0 && evidence.owner.process_group_id != 0
                && evidence.owner.start_time_ticks != 0
            &&& evidence.hook_leader.pid != 0 && evidence.hook_leader.start_time_ticks != 0
            &&& evidence.hook_descendant.pid != 0 && evidence.hook_descendant.start_time_ticks != 0
            &&& evidence.owner.pid != evidence.hook_leader.pid
            &&& evidence.owner.pid != evidence.hook_descendant.pid
            &&& evidence.hook_leader.pid != evidence.hook_descendant.pid
            &&& evidence.hook_leader.process_group_id == evidence.hook_leader.pid
            &&& evidence.hook_descendant.process_group_id == evidence.hook_leader.pid
        },
{
}

/// A process is another than the owner exactly where it has another number or began at
/// another time, and the owner is never another than itself.
pub proof fn owners_do_not_replace_themselves(
    identity: NativeLinuxProcessIdentity,
    owner: NativeLinuxProcessIdentity,
)
    ensures
        !replaces(owner, owner),
        replaces(identity, owner) <==> replaces(owner, identity),
        !replaces(identity, owner) <==> identity.pid == owner.pid && identity.start_time_ticks
            == owner.start_time_ticks,
        replacement_reason(Ok(identity), owner) is None <==> replaces(identity, owner),
        forall|cause: String|
            replacement_reason(Err(cause), owner) == Some(cause@) && !#[trigger] was_replaced(
                Err(cause),
                owner,
            ),
        was_replaced(Ok(identity), owner) <==> replaces(identity, owner),
{
}

/// A process counts as ended only where that was seen; one that lives on, or that could
/// not be looked at, is a reason to fail.
pub proof fn unseen_ends_do_not_count(
    role: Seq<char>,
    identity: NativeLinuxProcessIdentity,
    ended: Result<bool, String>,
)
    ensures
        termination_reason(role, identity, ended) is None <==> ended is Ok && ended->Ok_0,
        has_terminated(ended) <==> ended is Ok && ended->Ok_0,
        termination_reason(role, identity, ended) is None <==> has_terminated(ended),
{
}

/// A hook whose container was not recovered has that for a reason, with the words of the
/// recovery where it has any.
pub proof fn failed_recoveries_are_a_reason(recovery: NativeLinuxRecoverySmokeReport)
    ensures
        recovery_reason(recovery) is None <==> recovery.succeeds(),
        !recovery.succeeds() && recovery.reason is Some ==> recovery_reason(recovery)->0
            == "Native recovery contract did not complete: "@ + recovery.reason->0@,
{
}

/// A reason that is put behind others leaves them where they are.
pub proof fn folded_reasons_are_kept(existing: Option<Seq<char>>, reason: Option<Seq<char>>)
    ensures
        reason is None ==> folded(existing, reason) == existing,
        folded(existing, reason) is None <==> existing is None && reason is None,
        existing is Some ==> folded(existing, reason) is Some && existing->0.is_prefix_of(
            folded(existing, reason)->0,
        ),
        existing is None ==> folded(existing, reason) == reason,
{
    if existing is Some && reason is Some {
        crate::native_recovery_smoke::reasons_are_kept(existing->0, reason->0);
    }
}

} // verus!
