//! Where the control groups of containers are found.

use vstd::prelude::*;

verus! {

/// What the control groups of two containers have shown.
#[derive(Clone, Debug)]
pub struct CgroupPathEvidence {
    pub requested_relative: Option<String>,
    pub requested_absolute: Option<String>,
    pub observed_relative_initial: Option<String>,
    pub observed_relative_recreated: Option<String>,
    pub observed_absolute: Option<String>,
    pub absolute_mountpoint_resolution_verified: bool,
    pub relative_recreate_resolution_verified: bool,
    pub distinct_locations: bool,
    pub paths_removed_after_delete: bool,
}

impl Default for CgroupPathEvidence {
    fn default() -> (evidence: CgroupPathEvidence)
        ensures
            evidence.requested_relative is None,
            evidence.requested_absolute is None,
            evidence.observed_relative_initial is None,
            evidence.observed_relative_recreated is None,
            evidence.observed_absolute is None,
            !evidence.absolute_mountpoint_resolution_verified,
            !evidence.relative_recreate_resolution_verified,
            !evidence.distinct_locations,
            !evidence.paths_removed_after_delete,
    {
        CgroupPathEvidence {
            requested_relative: None,
            requested_absolute: None,
            observed_relative_initial: None,
            observed_relative_recreated: None,
            observed_absolute: None,
            absolute_mountpoint_resolution_verified: false,
            relative_recreate_resolution_verified: false,
            distinct_locations: false,
            paths_removed_after_delete: false,
        }
    }
}

impl CgroupPathEvidence {
    /// Whether absolute, relative and repeated paths led to the right control groups, and
    /// these are gone.
    pub open spec fn succeeds(self) -> bool {
        &&& self.requested_relative is Some
        &&& self.requested_absolute is Some
        &&& self.observed_relative_initial is Some
        &&& self.observed_relative_recreated is Some
        &&& self.observed_absolute is Some
        &&& self.absolute_mountpoint_resolution_verified
        &&& self.relative_recreate_resolution_verified
        &&& self.distinct_locations
        &&& self.paths_removed_after_delete
    }

    /// Whether the evidence is that of a success.
    pub fn is_success(&self) -> (holds: bool)
        ensures
            holds == self.succeeds(),
    {
        self.requested_relative.is_some() && self.requested_absolute.is_some()
            && self.observed_relative_initial.is_some()
            && self.observed_relative_recreated.is_some()
            && self.observed_absolute.is_some()
            && self.absolute_mountpoint_resolution_verified
            && self.relative_recreate_resolution_verified && self.distinct_locations
            && self.paths_removed_after_delete
    }
}

/// Control group evidence succeeds only where each path was asked for, observed and gone.
pub proof fn cgroup_success_needs_every_gate(evidence: CgroupPathEvidence)
    requires
        evidence.succeeds(),
    ensures
        evidence.requested_relative is Some,
        evidence.requested_absolute is Some,
        evidence.observed_relative_initial is Some,
        evidence.observed_relative_recreated is Some,
        evidence.observed_absolute is Some,
        evidence.absolute_mountpoint_resolution_verified,
        evidence.relative_recreate_resolution_verified,
        evidence.distinct_locations,
        evidence.paths_removed_after_delete,
{
}

/// Nothing but these is asked for.
pub proof fn cgroup_gates_suffice(evidence: CgroupPathEvidence)
    requires
        evidence.requested_relative is Some,
        evidence.requested_absolute is Some,
        evidence.observed_relative_initial is Some,
        evidence.observed_relative_recreated is Some,
        evidence.observed_absolute is Some,
        evidence.absolute_mountpoint_resolution_verified,
        evidence.relative_recreate_resolution_verified,
        evidence.distinct_locations,
        evidence.paths_removed_after_delete,
    ensures
        evidence.succeeds(),
{
}

} // verus!
