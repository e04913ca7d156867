//! Networks whose rules belong to the caller: what a container may not disturb,
//! and the report of it.

use vstd::prelude::*;
use crate::error::{Error, ErrorCode};
use crate::model::{is_killed, killed_status, CapabilityStatus, ExitStatus, HostPlatform};
use crate::native_checkpoint::operation::ErrorView;
use crate::text::chars_of;

verus! {

/// The version of the report.
pub const NATIVE_LINUX_NETWORK_ENFORCEMENT_SMOKE_SCHEMA_VERSION: &'static str =
    "a3s.oci.native-linux-network-enforcement-smoke.v1";

/// The operation that wrong inputs are attributed to.
pub const CONFIG_OPERATION: &'static str = "native-linux-network-enforcement-config";

/// The network that a qualification is made with.
#[derive(Clone, Debug)]
pub struct NativeLinuxNetworkEnforcementSmokeConfig {
    source_interface: String,
    interface_id: String,
    cleanup_id: String,
    redirect_port: u16,
    rejected_port: u16,
}

/// What the inputs of a qualification say.
pub struct NetworkConfigView {
    pub source_interface: Seq<char>,
    pub interface_id: Seq<char>,
    pub cleanup_id: Seq<char>,
    pub redirect_port: u16,
    pub rejected_port: u16,
}

impl View for NativeLinuxNetworkEnforcementSmokeConfig {
    type V = NetworkConfigView;

    closed spec fn view(&self) -> NetworkConfigView {
        NetworkConfigView {
            source_interface: self.source_interface@,
            interface_id: self.interface_id@,
            cleanup_id: self.cleanup_id@,
            redirect_port: self.redirect_port,
            rejected_port: self.rejected_port,
        }
    }
}

/// What is wrong with the inputs of a qualification, if anything.
pub open spec fn config_fault(
    source_interface: Seq<char>,
    redirect_port: u16,
    rejected_port: u16,
) -> Option<Seq<char>> {
    if source_interface.len() == 0 {
        Some("network-enforcement qualification requires a source interface"@)
    } else if redirect_port == 0 || rejected_port == 0 || redirect_port == rejected_port {
        Some("network-enforcement qualification ports must be positive and distinct"@)
    } else {
        None
    }
}

fn config_error(message: &str) -> (error: Error)
    ensures
        error@ == config_failure(message@),
{
    Error::new(ErrorCode::InvalidArgument, message.to_owned()).for_operation(CONFIG_OPERATION)
}

/// The failure for wrong inputs.
pub open spec fn config_failure(message: Seq<char>) -> ErrorView {
    ErrorView {
        code: ErrorCode::InvalidArgument,
        message,
        operation: Some(CONFIG_OPERATION@),
        retryable: false,
    }
}

impl NativeLinuxNetworkEnforcementSmokeConfig {
    /// Checks the inputs of a qualification.
    pub fn new(
        source_interface: String,
        interface_id: String,
        cleanup_id: String,
        redirect_port: u16,
        rejected_port: u16,
    ) -> (result: Result<NativeLinuxNetworkEnforcementSmokeConfig, Error>)
        ensures
            match config_fault(source_interface@, redirect_port, rejected_port) {
                Some(fault) => result matches Err(error) && error@ == config_failure(fault),
                None => result matches Ok(config) && config@ == (NetworkConfigView {
                    source_interface: source_interface@,
                    interface_id: interface_id@,
                    cleanup_id: cleanup_id@,
                    redirect_port,
                    rejected_port,
                }),
            },
    {
        if chars_of(&source_interface).len() == 0 {
            return Err(
                config_error("network-enforcement qualification requires a source interface"),
            );
        }
        if redirect_port == 0 || rejected_port == 0 || redirect_port == rejected_port {
            return Err(
                config_error(
                    "network-enforcement qualification ports must be positive and distinct",
                ),
            );
        }
        Ok(
            NativeLinuxNetworkEnforcementSmokeConfig {
                source_interface,
                interface_id,
                cleanup_id,
                redirect_port,
                rejected_port,
            },
        )
    }

    pub fn source_interface(&self) -> (name: &str)
        ensures
            name@ == self@.source_interface,
    {
        self.source_interface.as_str()
    }

    pub fn interface_id(&self) -> (id: &str)
        ensures
            id@ == self@.interface_id,
    {
        self.interface_id.as_str()
    }

    pub fn cleanup_id(&self) -> (id: &str)
        ensures
            id@ == self@.cleanup_id,
    {
        self.cleanup_id.as_str()
    }

    pub fn redirect_port(&self) -> (port: u16)
        ensures
            port == self@.redirect_port,
    {
        self.redirect_port
    }

    pub fn rejected_port(&self) -> (port: u16)
        ensures
            port == self@.rejected_port,
    {
        self.rejected_port
    }
}

/// A redirection of local connections that belongs to the caller.
#[derive(Clone, Debug)]
pub struct LocalNetworkRedirectAttachment {
    pub id: String,
    pub generation: u64,
    pub digest: String,
}

/// The rules of a network that belong to the caller.
#[derive(Clone, Debug)]
pub struct NetworkEnforcementAttachment {
    pub id: String,
    pub generation: u64,
    pub digest: String,
    pub namespace_id: String,
    pub redirect: Option<LocalNetworkRedirectAttachment>,
}

fn is_positive(pid: Option<i32>) -> (holds: bool)
    ensures
        holds == (pid is Some && pid->0 > 0),
{
    match pid {
        Some(pid) => pid > 0,
        None => false,
    }
}

/// What a network whose rules belong to the caller has shown.
#[derive(Clone, Debug)]
pub struct NativeLinuxNetworkEnforcementSmokeReport {
    pub schema_version: String,
    pub platform: HostPlatform,
    pub status: CapabilityStatus,
    pub kvm_device_present: bool,
    pub bundle_loaded: bool,
    pub extension_advertised: bool,
    pub attachment: Option<NetworkEnforcementAttachment>,
    pub mechanism_verified_before_create: bool,
    pub create_returned_created: bool,
    pub create_replayed: bool,
    pub created_pid: Option<i32>,
    pub container_namespace_verified: bool,
    pub interface_binding_verified: bool,
    pub local_redirect_verified: bool,
    pub enforcement_rejection_verified: bool,
    pub host_service_reopened: bool,
    pub generation_reused_after_reopen: bool,
    pub pid_reused_after_reopen: bool,
    pub attachment_replayed_after_reopen: bool,
    pub start_replayed_after_reopen: bool,
    pub wait_exit_status: Option<ExitStatus>,
    pub delete_replayed: bool,
    pub durable_state_removed: bool,
    pub namespace_preserved_after_delete: bool,
    pub interface_preserved_after_delete: bool,
    pub mechanism_preserved_after_delete: bool,
    pub markers_removed: bool,
    pub executor_runtime_clean: bool,
    pub session_root_clean: bool,
    pub reason: Option<String>,
}

impl NativeLinuxNetworkEnforcementSmokeReport {
    /// Whether nothing was tried on a host.
    pub open spec fn claims_nothing(self, platform: HostPlatform) -> bool {
        &&& self.schema_version@ == NATIVE_LINUX_NETWORK_ENFORCEMENT_SMOKE_SCHEMA_VERSION@
        &&& self.platform == platform
        &&& !self.kvm_device_present
        &&& !self.bundle_loaded
        &&& !self.extension_advertised
        &&& self.attachment is None
        &&& !self.mechanism_verified_before_create
        &&& !self.create_returned_created
        &&& !self.create_replayed
        &&& self.created_pid is None
        &&& !self.container_namespace_verified
        &&& !self.interface_binding_verified
        &&& !self.local_redirect_verified
        &&& !self.enforcement_rejection_verified
        &&& !self.host_service_reopened
        &&& !self.generation_reused_after_reopen
        &&& !self.pid_reused_after_reopen
        &&& !self.attachment_replayed_after_reopen
        &&& !self.start_replayed_after_reopen
        &&& self.wait_exit_status is None
        &&& !self.delete_replayed
        &&& !self.durable_state_removed
        &&& !self.namespace_preserved_after_delete
        &&& !self.interface_preserved_after_delete
        &&& !self.mechanism_preserved_after_delete
        &&& !self.markers_removed
        &&& !self.executor_runtime_clean
        &&& !self.session_root_clean
    }

    /// Whether every invariant of identity, lifecycle and cleanup was shown.
    pub open spec fn shown(self) -> bool {
        &&& self.bundle_loaded
        &&& self.extension_advertised
        &&& self.attachment is Some
        &&& self.mechanism_verified_before_create
        &&& self.create_returned_created
        &&& self.create_replayed
        &&& self.created_pid is Some && self.created_pid->0 > 0
        &&& self.container_namespace_verified
        &&& self.interface_binding_verified
        &&& self.local_redirect_verified
        &&& self.enforcement_rejection_verified
        &&& self.host_service_reopened
        &&& self.generation_reused_after_reopen
        &&& self.pid_reused_after_reopen
        &&& self.attachment_replayed_after_reopen
        &&& self.start_replayed_after_reopen
        &&& self.wait_exit_status == Some(killed_status())
        &&& self.delete_replayed
        &&& self.durable_state_removed
        &&& self.namespace_preserved_after_delete
        &&& self.interface_preserved_after_delete
        &&& self.mechanism_preserved_after_delete
        &&& self.markers_removed
        &&& self.executor_runtime_clean
        &&& self.session_root_clean
    }

    /// Whether every invariant of identity, lifecycle and cleanup was shown.
    pub fn evidence_succeeded(&self) -> (holds: bool)
        ensures
            holds == self.shown(),
    {
        let first = self.bundle_loaded && self.extension_advertised && self.attachment.is_some()
            && self.mechanism_verified_before_create && self.create_returned_created
            && self.create_replayed && is_positive(self.created_pid)
            && self.container_namespace_verified && self.interface_binding_verified
            && self.local_redirect_verified && self.enforcement_rejection_verified
            && self.host_service_reopened && self.generation_reused_after_reopen;
        let second = self.pid_reused_after_reopen && self.attachment_replayed_after_reopen
            && self.start_replayed_after_reopen && is_killed(&self.wait_exit_status)
            && self.delete_replayed && self.durable_state_removed
            && self.namespace_preserved_after_delete
            && self.interface_preserved_after_delete
            && self.mechanism_preserved_after_delete && self.markers_removed
            && self.executor_runtime_clean && self.session_root_clean;
        first && second
    }
}

impl NativeLinuxNetworkEnforcementSmokeReport {
    /// A report before anything was tried.
    pub fn initial(platform: HostPlatform) -> (report: NativeLinuxNetworkEnforcementSmokeReport)
        ensures
            report.claims_nothing(platform),
            report.status is Unavailable,
            report.reason is None,
            !report.succeeds(),
    {
        NativeLinuxNetworkEnforcementSmokeReport {
            schema_version: NATIVE_LINUX_NETWORK_ENFORCEMENT_SMOKE_SCHEMA_VERSION.to_owned(),
            platform,
            status: CapabilityStatus::Unavailable,
            kvm_device_present: false,
            bundle_loaded: false,
            extension_advertised: false,
            attachment: None,
            mechanism_verified_before_create: false,
            create_returned_created: false,
            create_replayed: false,
            created_pid: None,
            container_namespace_verified: false,
            interface_binding_verified: false,
            local_redirect_verified: false,
            enforcement_rejection_verified: false,
            host_service_reopened: false,
            generation_reused_after_reopen: false,
            pid_reused_after_reopen: false,
            attachment_replayed_after_reopen: false,
            start_replayed_after_reopen: false,
            wait_exit_status: None,
            delete_replayed: false,
            durable_state_removed: false,
            namespace_preserved_after_delete: false,
            interface_preserved_after_delete: false,
            mechanism_preserved_after_delete: false,
            markers_removed: false,
            executor_runtime_clean: false,
            session_root_clean: false,
            reason: None,
        }
    }

    /// The report of a host that is no Linux host.
    pub fn unsupported(platform: HostPlatform) -> (report: NativeLinuxNetworkEnforcementSmokeReport)
        ensures
            report.claims_nothing(platform),
            report.status is Unsupported,
            report.reason is Some,
            report.reason->0@ == "Native network-enforcement qualification requires Linux"@,
            !report.succeeds(),
    {
        NativeLinuxNetworkEnforcementSmokeReport {
            status: CapabilityStatus::Unsupported,
            reason: Some("Native network-enforcement qualification requires Linux".to_owned()),
            ..NativeLinuxNetworkEnforcementSmokeReport::initial(platform)
        }
    }

    /// Whether the report is that of a success.
    pub open spec fn succeeds(self) -> bool {
        self.status is Available && self.shown() && self.reason is None
    }

    /// Whether the report is that of a success.
    pub fn is_success(&self) -> (holds: bool)
        ensures
            holds == self.succeeds(),
    {
        self.status == CapabilityStatus::Available && self.evidence_succeeded()
            && self.reason.is_none()
    }
}

/// A network qualification succeeds only where each of its gates was met.
pub proof fn network_success_needs_every_gate(report: NativeLinuxNetworkEnforcementSmokeReport)
    requires
        report.succeeds(),
    ensures
        report.status is Available,
        report.bundle_loaded,
        report.extension_advertised,
        report.attachment is Some,
        report.mechanism_verified_before_create,
        report.create_returned_created,
        report.create_replayed,
        report.created_pid is Some,
        report.created_pid->0 > 0,
        report.container_namespace_verified,
        report.interface_binding_verified,
        report.local_redirect_verified,
        report.enforcement_rejection_verified,
        report.host_service_reopened,
        report.generation_reused_after_reopen,
        report.pid_reused_after_reopen,
        report.attachment_replayed_after_reopen,
        report.start_replayed_after_reopen,
        report.wait_exit_status == Some(
            ExitStatus { exit_code: None, signal: Some(9), oom_killed: false },
        ),
        report.delete_replayed,
        report.durable_state_removed,
        report.namespace_preserved_after_delete,
        report.interface_preserved_after_delete,
        report.mechanism_preserved_after_delete,
        report.markers_removed,
        report.executor_runtime_clean,
        report.session_root_clean,
        report.reason is None,
{
}

/// Nothing but these is asked for.
pub proof fn network_gates_suffice(report: NativeLinuxNetworkEnforcementSmokeReport)
    requires
        report.status is Available,
        report.bundle_loaded,
        report.extension_advertised,
        report.attachment is Some,
        report.mechanism_verified_before_create,
        report.create_returned_created,
        report.create_replayed,
        report.created_pid is Some,
        report.created_pid->0 > 0,
        report.container_namespace_verified,
        report.interface_binding_verified,
        report.local_redirect_verified,
        report.enforcement_rejection_verified,
        report.host_service_reopened,
        report.generation_reused_after_reopen,
        report.pid_reused_after_reopen,
        report.attachment_replayed_after_reopen,
        report.start_replayed_after_reopen,
        report.wait_exit_status == Some(
            ExitStatus { exit_code: None, signal: Some(9), oom_killed: false },
        ),
        report.delete_replayed,
        report.durable_state_removed,
        report.namespace_preserved_after_delete,
        report.interface_preserved_after_delete,
        report.mechanism_preserved_after_delete,
        report.markers_removed,
        report.executor_runtime_clean,
        report.session_root_clean,
        report.reason is None,
    ensures
        report.succeeds(),
{
}

/// Before anything was tried nothing is claimed: each thing that is to be shown is not
/// shown yet.
pub proof fn fresh_reports_claim_nothing(
    fresh: NativeLinuxNetworkEnforcementSmokeReport,
    platform: HostPlatform,
)
    requires
        fresh.claims_nothing(platform),
    ensures
        fresh.schema_version@ == NATIVE_LINUX_NETWORK_ENFORCEMENT_SMOKE_SCHEMA_VERSION@,
        fresh.platform == platform,
        !fresh.kvm_device_present,
        !fresh.bundle_loaded,
        !fresh.extension_advertised,
        fresh.attachment is None,
        !fresh.mechanism_verified_before_create,
        !fresh.create_returned_created,
        !fresh.create_replayed,
        fresh.created_pid is None,
        !fresh.container_namespace_verified,
        !fresh.interface_binding_verified,
        !fresh.local_redirect_verified,
        !fresh.enforcement_rejection_verified,
        !fresh.host_service_reopened,
        !fresh.generation_reused_after_reopen,
        !fresh.pid_reused_after_reopen,
        !fresh.attachment_replayed_after_reopen,
        !fresh.start_replayed_after_reopen,
        fresh.wait_exit_status is None,
        !fresh.delete_replayed,
        !fresh.durable_state_removed,
        !fresh.namespace_preserved_after_delete,
        !fresh.interface_preserved_after_delete,
        !fresh.mechanism_preserved_after_delete,
        !fresh.markers_removed,
        !fresh.executor_runtime_clean,
        !fresh.session_root_clean,
{
}

/// A qualification of the network is configured exactly where it has an interface and two
/// different ports.
pub proof fn networks_need_two_ports(
    source_interface: Seq<char>,
    redirect_port: u16,
    rejected_port: u16,
)
    ensures
        config_fault(source_interface, redirect_port, rejected_port) is None <==> source_interface
            != Seq::<char>::empty() && redirect_port > 0 && rejected_port > 0 && redirect_port
            != rejected_port,
        config_fault(source_interface, redirect_port, rejected_port) is None <==> config_fault(
            source_interface,
            rejected_port,
            redirect_port,
        ) is None,
{
    if source_interface.len() == 0 {
        assert(source_interface =~= Seq::<char>::empty());
    }
}

} // verus!
