//! The report of a reopened native Linux host service.

use vstd::prelude::*;
use crate::model::CapabilityStatus;
use crate::text::text_eq;

verus! {

/// The version of the report.
pub const LINUX_NATIVE_LIVE_RECOVERY_SMOKE_SCHEMA_VERSION: &'static str =
    "a3s.oci.linux-native-live-recovery-smoke.v1";

/// The inputs of one attempt to reopen a host service.
#[derive(Clone, Debug)]
pub struct LinuxNativeLiveRecoverySmokeConfig {
    pub agent: String,
    pub bundle: String,
    pub work_parent: String,
    pub source_revision: Option<String>,
}

/// What an attempt to reopen a host service has shown.
#[derive(Clone, Debug)]
pub struct LinuxNativeLiveRecoveryEvidence {
    pub session_supervisor_mode_opt_in: bool,
    pub file_upload_before_kill: bool,
    pub host_sigkill_delivered: bool,
    pub init_survived_host_sigkill: bool,
    pub replacement_state_running: bool,
    pub file_download_after_reattach: bool,
    pub retained_filesystem_proven: bool,
    pub retained_exec_io_proven: bool,
    pub reason: Option<String>,
}

impl LinuxNativeLiveRecoveryEvidence {
    /// Whether nothing was shown yet.
    pub open spec fn shows_nothing(self) -> bool {
        self == (LinuxNativeLiveRecoveryEvidence {
            session_supervisor_mode_opt_in: false,
            file_upload_before_kill: false,
            host_sigkill_delivered: false,
            init_survived_host_sigkill: false,
            replacement_state_running: false,
            file_download_after_reattach: false,
            retained_filesystem_proven: false,
            retained_exec_io_proven: false,
            reason: None,
        })
    }

    /// Evidence before anything was tried.
    pub fn initial() -> (evidence: LinuxNativeLiveRecoveryEvidence)
        ensures
            evidence.shows_nothing(),
            !evidence.succeeds(),
    {
        LinuxNativeLiveRecoveryEvidence {
            session_supervisor_mode_opt_in: false,
            file_upload_before_kill: false,
            host_sigkill_delivered: false,
            init_survived_host_sigkill: false,
            replacement_state_running: false,
            file_download_after_reattach: false,
            retained_filesystem_proven: false,
            retained_exec_io_proven: false,
            reason: None,
        }
    }

    /// Whether the container's files were shown to outlive its host service.
    pub open spec fn succeeds(self) -> bool {
        &&& self.session_supervisor_mode_opt_in
        &&& self.file_upload_before_kill
        &&& self.host_sigkill_delivered
        &&& self.init_survived_host_sigkill
        &&& self.replacement_state_running
        &&& self.file_download_after_reattach
        &&& self.retained_filesystem_proven
        &&& self.reason is None
    }

    /// Whether the evidence is that of a success.
    pub fn is_success(&self) -> (holds: bool)
        ensures
            holds == self.succeeds(),
    {
        self.session_supervisor_mode_opt_in && self.file_upload_before_kill
            && self.host_sigkill_delivered && self.init_survived_host_sigkill
            && self.replacement_state_running && self.file_download_after_reattach
            && self.retained_filesystem_proven && self.reason.is_none()
    }
}

/// The report of a reopened host service.
#[derive(Clone, Debug)]
pub struct LinuxNativeLiveRecoverySmokeReport {
    pub schema_version: String,
    pub status: CapabilityStatus,
    pub case_count: u32,
    pub architecture: String,
    pub evidence_root: String,
    pub recovery: LinuxNativeLiveRecoveryEvidence,
    pub reason: Option<String>,
}

/// How an attempt without a session supervisor is refused.
pub const SUPERVISOR_REQUIRED: &'static str =
    "A3S_OCI_NATIVE_SESSION_SUPERVISOR=1 is required for Native Live Host reopen evidence";

impl LinuxNativeLiveRecoverySmokeReport {
    /// A report before anything was tried.
    pub fn initial(evidence_root: String, architecture: String) -> (report:
        LinuxNativeLiveRecoverySmokeReport)
        ensures
            report.schema_version@ == LINUX_NATIVE_LIVE_RECOVERY_SMOKE_SCHEMA_VERSION@,
            report.status is Unavailable,
            report.case_count == 0,
            report.architecture == architecture,
            report.evidence_root == evidence_root,
            report.recovery.shows_nothing(),
            report.reason is None,
            !report.succeeds(),
    {
        LinuxNativeLiveRecoverySmokeReport {
            schema_version: LINUX_NATIVE_LIVE_RECOVERY_SMOKE_SCHEMA_VERSION.to_owned(),
            status: CapabilityStatus::Unavailable,
            case_count: 0,
            architecture,
            evidence_root,
            recovery: LinuxNativeLiveRecoveryEvidence::initial(),
            reason: None,
        }
    }

    /// Whether the report is complete and its evidence successful.
    pub open spec fn succeeds(self) -> bool {
        &&& self.schema_version@ == LINUX_NATIVE_LIVE_RECOVERY_SMOKE_SCHEMA_VERSION@
        &&& self.status is Available
        &&& self.case_count == 1
        &&& self.recovery.succeeds()
        &&& self.reason is None
    }

    /// Whether the report is that of a success.
    pub fn is_success(&self) -> (holds: bool)
        ensures
            holds == self.succeeds(),
    {
        text_eq(&self.schema_version, LINUX_NATIVE_LIVE_RECOVERY_SMOKE_SCHEMA_VERSION)
            && self.status == CapabilityStatus::Available && self.case_count == 1
            && self.recovery.is_success() && self.reason.is_none()
    }

    /// Records that the attempt failed.
    pub fn refuse(self, reason: String) -> (report: LinuxNativeLiveRecoverySmokeReport)
        ensures
            report.reason == Some(reason),
            refused(self, reason@, report),
            !report.succeeds(),
    {
        let again = reason.clone();
        LinuxNativeLiveRecoverySmokeReport {
            recovery: LinuxNativeLiveRecoveryEvidence { reason: Some(again), ..self.recovery },
            reason: Some(reason),
            ..self
        }
    }

    /// Records whether the session supervisor is asked for, without which nothing
    /// is tried.
    pub fn opt_in(self, supervised: bool) -> (outcome: (LinuxNativeLiveRecoverySmokeReport, bool))
        ensures
            outcome.1 == supervised,
            ({
                let asked = LinuxNativeLiveRecoverySmokeReport {
                    recovery: LinuxNativeLiveRecoveryEvidence {
                        session_supervisor_mode_opt_in: supervised,
                        ..self.recovery
                    },
                    ..self
                };
                if supervised {
                    outcome.0 == asked
                } else {
                    refused(asked, SUPERVISOR_REQUIRED@, outcome.0) && !outcome.0.succeeds()
                }
            }),
    {
        let report = LinuxNativeLiveRecoverySmokeReport {
            recovery: LinuxNativeLiveRecoveryEvidence {
                session_supervisor_mode_opt_in: supervised,
                ..self.recovery
            },
            ..self
        };
        if supervised {
            (report, true)
        } else {
            (report.refuse(SUPERVISOR_REQUIRED.to_owned()), false)
        }
    }

    /// Concludes an attempt that ran to its end: the report is available, as one
    /// case, only if it is that of a success.
    pub fn conclude(self) -> (report: LinuxNativeLiveRecoverySmokeReport)
        ensures
            concluded(self, report),
    {
        if !self.recovery.is_success() {
            return self.refuse(
                "Native Linux Live recovery evidence failed its completeness audit".to_owned(),
            );
        }
        let claimed = LinuxNativeLiveRecoverySmokeReport {
            status: CapabilityStatus::Available,
            case_count: 1,
            ..self
        };
        if claimed.is_success() {
            return claimed;
        }
        LinuxNativeLiveRecoverySmokeReport {
            status: CapabilityStatus::Unavailable,
            case_count: 0,
            reason: Some(
                "Native Linux Live recovery report failed its final audit".to_owned(),
            ),
            ..claimed
        }
    }
}

/// Whether a report is another one that was refused for a reason.
pub open spec fn refused(
    before: LinuxNativeLiveRecoverySmokeReport,
    reason: Seq<char>,
    after: LinuxNativeLiveRecoverySmokeReport,
) -> bool {
    &&& after == (LinuxNativeLiveRecoverySmokeReport {
        recovery: after.recovery,
        reason: after.reason,
        ..before
    })
    &&& after.recovery == (LinuxNativeLiveRecoveryEvidence {
        reason: after.recovery.reason,
        ..before.recovery
    })
    &&& after.reason is Some
    &&& after.reason->0@ == reason
    &&& after.recovery.reason is Some
    &&& after.recovery.reason->0@ == reason
}

/// Whether a report is the conclusion of another.
pub open spec fn concluded(
    before: LinuxNativeLiveRecoverySmokeReport,
    after: LinuxNativeLiveRecoverySmokeReport,
) -> bool {
    let claimed = LinuxNativeLiveRecoverySmokeReport {
        status: CapabilityStatus::Available,
        case_count: 1,
        ..before
    };
    if !before.recovery.succeeds() {
        refused(
            before,
            "Native Linux Live recovery evidence failed its completeness audit"@,
            after,
        )
    } else if claimed.succeeds() {
        after == claimed
    } else {
        &&& after == (LinuxNativeLiveRecoverySmokeReport {
            status: CapabilityStatus::Unavailable,
            case_count: 0,
            reason: after.reason,
            ..before
        })
        &&& after.reason is Some
        &&& after.reason->0@ == "Native Linux Live recovery report failed its final audit"@
    }
}

/// A concluded report is available only if it is that of a success.
pub proof fn available_live_reports_succeed(
    before: LinuxNativeLiveRecoverySmokeReport,
    after: LinuxNativeLiveRecoverySmokeReport,
)
    requires
        before.status is Unavailable,
        concluded(before, after),
    ensures
        after.status is Available <==> after.succeeds(),
{
}

/// A live recovery succeeds only where each of its gates was met.
pub proof fn live_success_needs_every_gate(evidence: LinuxNativeLiveRecoveryEvidence)
    requires
        evidence.succeeds(),
    ensures
        evidence.session_supervisor_mode_opt_in,
        evidence.file_upload_before_kill,
        evidence.host_sigkill_delivered,
        evidence.init_survived_host_sigkill,
        evidence.replacement_state_running,
        evidence.file_download_after_reattach,
        evidence.retained_filesystem_proven,
        evidence.reason is None,
{
}

/// Nothing but these is asked for.
pub proof fn live_gates_suffice(evidence: LinuxNativeLiveRecoveryEvidence)
    requires
        evidence.session_supervisor_mode_opt_in,
        evidence.file_upload_before_kill,
        evidence.host_sigkill_delivered,
        evidence.init_survived_host_sigkill,
        evidence.replacement_state_running,
        evidence.file_download_after_reattach,
        evidence.retained_filesystem_proven,
        evidence.reason is None,
    ensures
        evidence.succeeds(),
{
}

/// A report of a live recovery succeeds only where each of its gates was met.
pub proof fn live_report_needs_every_gate(report: LinuxNativeLiveRecoverySmokeReport)
    requires
        report.succeeds(),
    ensures
        report.schema_version@ == LINUX_NATIVE_LIVE_RECOVERY_SMOKE_SCHEMA_VERSION@,
        report.status is Available,
        report.case_count == 1,
        report.recovery.succeeds(),
        report.reason is None,
{
}

/// Nothing but these is asked for.
pub proof fn live_report_gates_suffice(report: LinuxNativeLiveRecoverySmokeReport)
    requires
        report.schema_version@ == LINUX_NATIVE_LIVE_RECOVERY_SMOKE_SCHEMA_VERSION@,
        report.status is Available,
        report.case_count == 1,
        report.recovery.succeeds(),
        report.reason is None,
    ensures
        report.succeeds(),
{
}

/// Before anything was tried nothing is claimed: each thing that is to be shown is not
/// shown yet.
pub proof fn fresh_attempts_show_nothing(fresh: LinuxNativeLiveRecoveryEvidence)
    requires
        fresh.shows_nothing(),
    ensures
        !fresh.session_supervisor_mode_opt_in,
        !fresh.file_upload_before_kill,
        !fresh.host_sigkill_delivered,
        !fresh.init_survived_host_sigkill,
        !fresh.replacement_state_running,
        !fresh.file_download_after_reattach,
        !fresh.retained_filesystem_proven,
        !fresh.retained_exec_io_proven,
        fresh.reason is None,
{
}

/// A report that is refused says why, in itself and in its evidence, claims nothing more
/// than before, and does not succeed.
pub proof fn refused_reports_say_why(
    before: LinuxNativeLiveRecoverySmokeReport,
    reason: Seq<char>,
    after: LinuxNativeLiveRecoverySmokeReport,
)
    requires
        refused(before, reason, after),
    ensures
        after.reason matches Some(words) && words@ == reason,
        after.recovery.reason matches Some(words) && words@ == reason,
        after.status == before.status,
        after.case_count == before.case_count,
        after.recovery.file_upload_before_kill == before.recovery.file_upload_before_kill,
        after.recovery.retained_filesystem_proven == before.recovery.retained_filesystem_proven,
        !after.succeeds(),
        !after.recovery.succeeds(),
{
}

/// A report is concluded as available exactly where its evidence succeeds and nothing
/// else of it is missing; it then counts its one case.
pub proof fn concluded_reports_count_their_case(
    before: LinuxNativeLiveRecoverySmokeReport,
    after: LinuxNativeLiveRecoverySmokeReport,
)
    requires
        before.status is Unavailable,
        concluded(before, after),
    ensures
        after.status is Available ==> before.recovery.succeeds() && after.case_count == 1
            && before.reason is None,
        before.recovery.succeeds() && before.reason is None && before.schema_version@
            == LINUX_NATIVE_LIVE_RECOVERY_SMOKE_SCHEMA_VERSION@ ==> after.status is Available,
        !(after.status is Available) ==> after.reason is Some,
{
}

} // verus!
