//! Host services: where they keep their state, and the order in which they come
//! up.

use vstd::prelude::*;
use crate::error::{Error, ErrorCode};
use crate::native_checkpoint::operation::ErrorView;
use crate::path::{
    absolute, components, free_of_parents, has_no_parent_step, is_absolute, join, joined,
    starts_with,
};
use crate::text::{byte_count, byte_length};

verus! {

/// The file name of a service's socket.
pub const SERVICE_SOCKET_NAME: &'static str = "runtime.sock";

/// The directory of a service's durable state.
pub const STATE_DIRECTORY_NAME: &'static str = "state";

/// The directory that a service's driver works in.
pub const DRIVER_RUNTIME_DIRECTORY_NAME: &'static str = "runtime";

/// How many bytes the path of a socket may take on Linux, its end included.
pub const LINUX_SOCKET_PATH_CAPACITY: usize = 108;

/// How many bytes the path of a socket may take on macOS, its end included.
pub const MACOS_SOCKET_PATH_CAPACITY: usize = 104;

/// A path that is absolute and climbs nowhere.
pub open spec fn absolute_normalized(path: Seq<char>) -> bool {
    absolute(path) && free_of_parents(path)
}

/// The failure for a path that is not absolute and normalized.
pub open spec fn path_failure(path: Seq<char>, label: Seq<char>) -> ErrorView {
    ErrorView {
        code: ErrorCode::InvalidArgument,
        message: label + " must be an absolute normalized path: "@ + path,
        operation: None,
        retryable: false,
    }
}

/// Checks that a path is absolute and climbs nowhere.
pub fn validate_absolute_normalized_path(path: &str, label: &str) -> (result: Result<(), Error>)
    ensures
        match result {
            Ok(()) => absolute_normalized(path@),
            Err(error) => !absolute_normalized(path@) && error@ == path_failure(path@, label@),
        },
{
    if is_absolute(path) && has_no_parent_step(path) {
        return Ok(());
    }
    let mut message = label.to_owned();
    message.append(" must be an absolute normalized path: ");
    message.append(path);
    Err(Error::new(ErrorCode::InvalidArgument, message))
}

/// A path that the address of a socket can hold, with its end.
pub open spec fn fits_socket_address(path: Seq<char>, capacity: nat) -> bool {
    byte_length(path) < capacity
}

/// The failure for a path that the address of a socket cannot hold.
pub open spec fn socket_failure(path: Seq<char>, label: Seq<char>) -> ErrorView {
    ErrorView {
        code: ErrorCode::InvalidArgument,
        message: label + " exceeds the Unix socket path limit: "@ + path,
        operation: None,
        retryable: false,
    }
}

/// Checks that the address of a socket can hold a path.
pub fn validate_unix_socket_path(path: &str, label: &str, capacity: usize) -> (result: Result<
    (),
    Error,
>)
    ensures
        match result {
            Ok(()) => fits_socket_address(path@, capacity as nat),
            Err(error) => !fits_socket_address(path@, capacity as nat) && error@
                == socket_failure(path@, label@),
        },
{
    if byte_count(path) < capacity {
        return Ok(());
    }
    let mut message = label.to_owned();
    message.append(" exceeds the Unix socket path limit: ");
    message.append(path);
    Err(Error::new(ErrorCode::InvalidArgument, message))
}

/// Whether one of two paths lies in the other.
pub open spec fn overlap(first: Seq<char>, second: Seq<char>) -> bool {
    components(first).is_prefix_of(components(second)) || components(second).is_prefix_of(
        components(first),
    )
}

/// The failure for a manifest that a service could write to.
pub open spec fn overlap_failure(
    words: Seq<char>,
    root: Seq<char>,
    manifest: Seq<char>,
    operation: Seq<char>,
) -> ErrorView {
    ErrorView {
        code: ErrorCode::InvalidArgument,
        message: words + root + ": "@ + manifest,
        operation: Some(operation),
        retryable: false,
    }
}

fn check_overlap(words: &str, root: &str, manifest: &str, operation: &str) -> (result: Result<
    (),
    Error,
>)
    ensures
        match result {
            Ok(()) => !overlap(root@, manifest@),
            Err(error) => overlap(root@, manifest@) && error@ == overlap_failure(
                words@,
                root@,
                manifest@,
                operation@,
            ),
        },
{
    if !starts_with(manifest, root) && !starts_with(root, manifest) {
        return Ok(());
    }
    let mut message = words.to_owned();
    message.append(root);
    message.append(": ");
    message.append(manifest);
    Err(Error::new(ErrorCode::InvalidArgument, message).for_operation(operation))
}

/// The start of the message for a Linux KVM manifest that a service could write
/// to.
pub const KVM_OVERLAP_WORDS: &'static str =
    "immutable Linux KVM system-image manifest must be outside writable Host Service root ";

/// The start of the message for a macOS manifest that a service could write to.
pub const HVF_OVERLAP_WORDS: &'static str =
    "immutable macOS HVF system-image manifest must be outside writable host service root ";

/// What keeps a Linux KVM service from being configured, if anything.
pub open spec fn kvm_config_fault(
    root: Seq<char>,
    shim: Seq<char>,
    manifest: Seq<char>,
    service: Seq<char>,
    operation: Seq<char>,
) -> Option<ErrorView> {
    let socket = joined(root, SERVICE_SOCKET_NAME@);
    if !absolute_normalized(root) {
        Some(path_failure(root, service + " root"@))
    } else if !fits_socket_address(socket, LINUX_SOCKET_PATH_CAPACITY as nat) {
        Some(socket_failure(socket, service + " endpoint"@))
    } else if !absolute_normalized(shim) {
        Some(path_failure(shim, "Linux KVM libkrun shim"@))
    } else if !absolute_normalized(manifest) {
        Some(path_failure(manifest, "Linux KVM system-image manifest"@))
    } else if overlap(root, manifest) {
        Some(overlap_failure(KVM_OVERLAP_WORDS@, root, manifest, operation))
    } else {
        None
    }
}

/// Where a Linux KVM recovery service keeps what it owns.
#[derive(Clone, Debug)]
pub struct LinuxKvmRecoveryHostServiceConfig {
    root: String,
    shim: String,
    system_image_manifest: String,
}

impl LinuxKvmRecoveryHostServiceConfig {
    /// The directory of the service.
    pub closed spec fn root_path(&self) -> Seq<char> {
        self.root@
    }

    /// The shim that runs machines.
    pub closed spec fn shim_path(&self) -> Seq<char> {
        self.shim@
    }

    /// The manifest of the system image.
    pub closed spec fn manifest_path(&self) -> Seq<char> {
        self.system_image_manifest@
    }

    /// Configures a recovery service.
    pub fn new(root: String, shim: String, system_image_manifest: String) -> (result: Result<
        LinuxKvmRecoveryHostServiceConfig,
        Error,
    >)
        ensures
            match kvm_config_fault(
                root@,
                shim@,
                system_image_manifest@,
                "Linux KVM recovery Host Service"@,
                "configure-linux-kvm-recovery-host-service"@,
            ) {
                Some(failure) => result matches Err(error) && error@ == failure,
                None => result matches Ok(config) && config.root_path() == root@
                    && config.shim_path() == shim@ && config.manifest_path()
                    == system_image_manifest@,
            },
    {
        Self::new_for_qualification(
            root,
            shim,
            system_image_manifest,
            "Linux KVM recovery Host Service",
            "configure-linux-kvm-recovery-host-service",
        )
    }

    fn new_for_qualification(
        root: String,
        shim: String,
        system_image_manifest: String,
        service: &str,
        operation: &str,
    ) -> (result: Result<LinuxKvmRecoveryHostServiceConfig, Error>)
        ensures
            match kvm_config_fault(
                root@,
                shim@,
                system_image_manifest@,
                service@,
                operation@,
            ) {
                Some(failure) => result matches Err(error) && error@ == failure,
                None => result matches Ok(config) && config.root_path() == root@
                    && config.shim_path() == shim@ && config.manifest_path()
                    == system_image_manifest@,
            },
    {
        let mut root_label = service.to_owned();
        root_label.append(" root");
        if let Err(error) = validate_absolute_normalized_path(&root, &root_label) {
            return Err(error);
        }
        let socket = join(&root, SERVICE_SOCKET_NAME);
        let mut socket_label = service.to_owned();
        socket_label.append(" endpoint");
        if let Err(error) = validate_unix_socket_path(
            &socket,
            &socket_label,
            LINUX_SOCKET_PATH_CAPACITY,
        ) {
            return Err(error);
        }
        if let Err(error) = validate_absolute_normalized_path(&shim, "Linux KVM libkrun shim") {
            return Err(error);
        }
        if let Err(error) = validate_absolute_normalized_path(
            &system_image_manifest,
            "Linux KVM system-image manifest",
        ) {
            return Err(error);
        }
        if let Err(error) = check_overlap(
            KVM_OVERLAP_WORDS,
            &root,
            &system_image_manifest,
            operation,
        ) {
            return Err(error);
        }
        Ok(LinuxKvmRecoveryHostServiceConfig { root, shim, system_image_manifest })
    }

    /// The directory of the service.
    pub fn root(&self) -> (path: &str)
        ensures
            path@ == self.root_path(),
    {
        &self.root
    }

    /// The socket of the service.
    pub fn socket_path(&self) -> (path: String)
        ensures
            path@ == joined(self.root_path(), SERVICE_SOCKET_NAME@),
    {
        join(&self.root, SERVICE_SOCKET_NAME)
    }

    /// The shim that runs machines.
    pub fn shim(&self) -> (path: &str)
        ensures
            path@ == self.shim_path(),
    {
        &self.shim
    }

    /// The manifest of the system image.
    pub fn system_image_manifest(&self) -> (path: &str)
        ensures
            path@ == self.manifest_path(),
    {
        &self.system_image_manifest
    }

    /// The directory of the durable state.
    pub fn state_root(&self) -> (path: String)
        ensures
            path@ == joined(self.root_path(), STATE_DIRECTORY_NAME@),
    {
        join(&self.root, STATE_DIRECTORY_NAME)
    }

    /// The directory that the driver works in.
    pub fn driver_runtime_root(&self) -> (path: String)
        ensures
            path@ == joined(self.root_path(), DRIVER_RUNTIME_DIRECTORY_NAME@),
    {
        join(&self.root, DRIVER_RUNTIME_DIRECTORY_NAME)
    }
}

/// Where a Linux KVM soak service keeps what it owns.
#[derive(Clone, Debug)]
pub struct LinuxKvmSoakHostServiceConfig {
    inner: LinuxKvmRecoveryHostServiceConfig,
}

impl LinuxKvmSoakHostServiceConfig {
    /// The directory of the service.
    pub closed spec fn root_path(&self) -> Seq<char> {
        self.inner.root_path()
    }

    /// The shim that runs machines.
    pub closed spec fn shim_path(&self) -> Seq<char> {
        self.inner.shim_path()
    }

    /// The manifest of the system image.
    pub closed spec fn manifest_path(&self) -> Seq<char> {
        self.inner.manifest_path()
    }

    /// Configures a soak service.
    pub fn new(root: String, shim: String, system_image_manifest: String) -> (result: Result<
        LinuxKvmSoakHostServiceConfig,
        Error,
    >)
        ensures
            match kvm_config_fault(
                root@,
                shim@,
                system_image_manifest@,
                "Linux KVM soak Host Service"@,
                "configure-linux-kvm-soak-host-service"@,
            ) {
                Some(failure) => result matches Err(error) && error@ == failure,
                None => result matches Ok(config) && config.root_path() == root@
                    && config.shim_path() == shim@ && config.manifest_path()
                    == system_image_manifest@,
            },
    {
        match LinuxKvmRecoveryHostServiceConfig::new_for_qualification(
            root,
            shim,
            system_image_manifest,
            "Linux KVM soak Host Service",
            "configure-linux-kvm-soak-host-service",
        ) {
            Ok(inner) => Ok(LinuxKvmSoakHostServiceConfig { inner }),
            Err(error) => Err(error),
        }
    }

    /// The directory of the service.
    pub fn root(&self) -> (path: &str)
        ensures
            path@ == self.root_path(),
    {
        self.inner.root()
    }

    /// The socket of the service.
    pub fn socket_path(&self) -> (path: String)
        ensures
            path@ == joined(self.root_path(), SERVICE_SOCKET_NAME@),
    {
        self.inner.socket_path()
    }

    /// The shim that runs machines.
    pub fn shim(&self) -> (path: &str)
        ensures
            path@ == self.shim_path(),
    {
        self.inner.shim()
    }

    /// The manifest of the system image.
    pub fn system_image_manifest(&self) -> (path: &str)
        ensures
            path@ == self.manifest_path(),
    {
        self.inner.system_image_manifest()
    }

    /// The directory of the durable state.
    pub fn state_root(&self) -> (path: String)
        ensures
            path@ == joined(self.root_path(), STATE_DIRECTORY_NAME@),
    {
        self.inner.state_root()
    }

    /// The directory that the driver works in.
    pub fn driver_runtime_root(&self) -> (path: String)
        ensures
            path@ == joined(self.root_path(), DRIVER_RUNTIME_DIRECTORY_NAME@),
    {
        self.inner.driver_runtime_root()
    }
}

/// What keeps a macOS service from being configured, if anything.
pub open spec fn hvf_config_fault(
    root: Seq<char>,
    shim: Seq<char>,
    manifest: Seq<char>,
) -> Option<ErrorView> {
    if !absolute_normalized(root) {
        Some(path_failure(root, "macOS HVF host service root"@))
    } else if !absolute_normalized(shim) {
        Some(path_failure(shim, "macOS HVF libkrun shim"@))
    } else if !absolute_normalized(manifest) {
        Some(path_failure(manifest, "macOS HVF system-image manifest"@))
    } else if overlap(root, manifest) {
        Some(
            overlap_failure(
                HVF_OVERLAP_WORDS@,
                root,
                manifest,
                "configure-macos-hvf-host-service"@,
            ),
        )
    } else {
        None
    }
}

/// Where a macOS HVF service keeps what it owns.
#[derive(Clone, Debug)]
pub struct MacosHvfHostServiceConfig {
    root: String,
    shim: String,
    system_image_manifest: String,
}

impl MacosHvfHostServiceConfig {
    /// The directory of the service.
    pub closed spec fn root_path(&self) -> Seq<char> {
        self.root@
    }

    /// The shim that runs machines.
    pub closed spec fn shim_path(&self) -> Seq<char> {
        self.shim@
    }

    /// The manifest of the system image.
    pub closed spec fn manifest_path(&self) -> Seq<char> {
        self.system_image_manifest@
    }

    /// Configures a macOS service.
    pub fn new(root: String, shim: String, system_image_manifest: String) -> (result: Result<
        MacosHvfHostServiceConfig,
        Error,
    >)
        ensures
            match hvf_config_fault(root@, shim@, system_image_manifest@) {
                Some(failure) => result matches Err(error) && error@ == failure,
                None => result matches Ok(config) && config.root_path() == root@
                    && config.shim_path() == shim@ && config.manifest_path()
                    == system_image_manifest@,
            },
    {
        if let Err(error) = validate_absolute_normalized_path(
            &root,
            "macOS HVF host service root",
        ) {
            return Err(error);
        }
        if let Err(error) = validate_absolute_normalized_path(&shim, "macOS HVF libkrun shim") {
            return Err(error);
        }
        if let Err(error) = validate_absolute_normalized_path(
            &system_image_manifest,
            "macOS HVF system-image manifest",
        ) {
            return Err(error);
        }
        if let Err(error) = check_overlap(
            HVF_OVERLAP_WORDS,
            &root,
            &system_image_manifest,
            "configure-macos-hvf-host-service",
        ) {
            return Err(error);
        }
        Ok(MacosHvfHostServiceConfig { root, shim, system_image_manifest })
    }

    /// The directory of the service.
    pub fn root(&self) -> (path: &str)
        ensures
            path@ == self.root_path(),
    {
        &self.root
    }

    /// The socket of the service.
    pub fn socket_path(&self) -> (path: String)
        ensures
            path@ == joined(self.root_path(), SERVICE_SOCKET_NAME@),
    {
        join(&self.root, SERVICE_SOCKET_NAME)
    }

    /// The shim that runs machines.
    pub fn shim(&self) -> (path: &str)
        ensures
            path@ == self.shim_path(),
    {
        &self.shim
    }

    /// The manifest of the system image.
    pub fn system_image_manifest(&self) -> (path: &str)
        ensures
            path@ == self.manifest_path(),
    {
        &self.system_image_manifest
    }

    /// The directory of the durable state.
    pub fn state_root(&self) -> (path: String)
        ensures
            path@ == joined(self.root_path(), STATE_DIRECTORY_NAME@),
    {
        join(&self.root, STATE_DIRECTORY_NAME)
    }

    /// The directory that the driver works in.
    pub fn driver_runtime_root(&self) -> (path: String)
        ensures
            path@ == joined(self.root_path(), DRIVER_RUNTIME_DIRECTORY_NAME@),
    {
        join(&self.root, DRIVER_RUNTIME_DIRECTORY_NAME)
    }
}

proof fn joined_names_differ(root: Seq<char>, first: Seq<char>, second: Seq<char>)
    requires
        first != second,
        !absolute(first),
        !absolute(second),
    ensures
        joined(root, first) != joined(root, second),
{
    let a = joined(root, first);
    let b = joined(root, second);
    if a == b {
        assert(a.len() - first.len() == b.len() - second.len());
        let from = a.len() - first.len();
        assert(first =~= a.skip(from));
        assert(second =~= b.skip(from));
    }
}

/// Whatever the directory of a service is, its socket, its durable state and
/// what its driver works in are three different paths.
pub proof fn service_paths_are_separate(root: Seq<char>)
    ensures
        joined(root, STATE_DIRECTORY_NAME@) != joined(root, DRIVER_RUNTIME_DIRECTORY_NAME@),
        joined(root, STATE_DIRECTORY_NAME@) != joined(root, SERVICE_SOCKET_NAME@),
        joined(root, DRIVER_RUNTIME_DIRECTORY_NAME@) != joined(root, SERVICE_SOCKET_NAME@),
{
    reveal_strlit("state");
    reveal_strlit("runtime");
    reveal_strlit("runtime.sock");
    assert(STATE_DIRECTORY_NAME@.len() == 5);
    assert(DRIVER_RUNTIME_DIRECTORY_NAME@.len() == 7);
    assert(SERVICE_SOCKET_NAME@.len() == 12);
    joined_names_differ(root, STATE_DIRECTORY_NAME@, DRIVER_RUNTIME_DIRECTORY_NAME@);
    joined_names_differ(root, STATE_DIRECTORY_NAME@, SERVICE_SOCKET_NAME@);
    joined_names_differ(root, DRIVER_RUNTIME_DIRECTORY_NAME@, SERVICE_SOCKET_NAME@);
}

/// The manifest of a configured service does not lie in the directory that the
/// service writes to, nor that directory in it.
pub proof fn manifests_stay_outside(
    root: Seq<char>,
    shim: Seq<char>,
    manifest: Seq<char>,
    service: Seq<char>,
    operation: Seq<char>,
)
    ensures
        kvm_config_fault(root, shim, manifest, service, operation) is None ==> !overlap(
            root,
            manifest,
        ) && absolute_normalized(root) && absolute_normalized(manifest),
        hvf_config_fault(root, shim, manifest) is None ==> !overlap(root, manifest)
            && absolute_normalized(root) && absolute_normalized(manifest),
{
}

/// One step of bringing a host service up.
#[derive(Clone, Copy, Debug, PartialEq, Eq, Structural)]
pub enum BindStep {
    /// Prepare the directory of the service.
    PrepareRoot,
    /// Prepare the directory of the durable state.
    PrepareState,
    /// Prepare the directory that the driver works in.
    PrepareRuntime,
    /// Open the driver.
    OpenDriver,
    /// Open the durable state and recover what is in it.
    OpenState,
    /// Publish the socket.
    BindSocket,
}

/// Where a host service stands while it comes up.
#[derive(Debug)]
pub enum BindState {
    /// The step is done next.
    At(BindStep),
    /// The driver is shut down; whatever comes of that is ignored.
    ShuttingDown(Error),
    /// The service can be used.
    Bound,
    /// The failure is handed to the caller.
    Refused(Error),
}

/// Where a host service stands while it comes up, as values.
pub enum BindStateView {
    At(BindStep),
    ShuttingDown(ErrorView),
    Bound,
    Refused(ErrorView),
}

impl View for BindState {
    type V = BindStateView;

    open spec fn view(&self) -> BindStateView {
        match *self {
            BindState::At(step) => BindStateView::At(step),
            BindState::ShuttingDown(error) => BindStateView::ShuttingDown(error@),
            BindState::Bound => BindStateView::Bound,
            BindState::Refused(error) => BindStateView::Refused(error@),
        }
    }
}

/// Where a host service stands after a step succeeded or failed.
pub open spec fn next_bind_state(
    state: BindStateView,
    failure: Option<ErrorView>,
) -> BindStateView {
    match state {
        BindStateView::At(step) => match failure {
            None => match step {
                BindStep::PrepareRoot => BindStateView::At(BindStep::PrepareState),
                BindStep::PrepareState => BindStateView::At(BindStep::PrepareRuntime),
                BindStep::PrepareRuntime => BindStateView::At(BindStep::OpenDriver),
                BindStep::OpenDriver => BindStateView::At(BindStep::OpenState),
                BindStep::OpenState => BindStateView::At(BindStep::BindSocket),
                BindStep::BindSocket => BindStateView::Bound,
            },
            Some(error) => if step is OpenState || step is BindSocket {
                BindStateView::ShuttingDown(error)
            } else {
                BindStateView::Refused(error)
            },
        },
        BindStateView::ShuttingDown(error) => BindStateView::Refused(error),
        _ => state,
    }
}

/// What an optional failure says.
pub open spec fn failure_view(failure: Option<Error>) -> Option<ErrorView> {
    match failure {
        Some(error) => Some(error@),
        None => None,
    }
}

impl BindState {
    /// A host service before its first step.
    pub fn start() -> (state: BindState)
        ensures
            state@ == BindStateView::At(BindStep::PrepareRoot),
    {
        BindState::At(BindStep::PrepareRoot)
    }

    /// Where a host service stands after a step succeeded or failed.
    pub fn advance(self, failure: Option<Error>) -> (state: BindState)
        ensures
            state@ == next_bind_state(self@, failure_view(failure)),
    {
        match self {
            BindState::At(step) => match failure {
                None => match step {
                    BindStep::PrepareRoot => BindState::At(BindStep::PrepareState),
                    BindStep::PrepareState => BindState::At(BindStep::PrepareRuntime),
                    BindStep::PrepareRuntime => BindState::At(BindStep::OpenDriver),
                    BindStep::OpenDriver => BindState::At(BindStep::OpenState),
                    BindStep::OpenState => BindState::At(BindStep::BindSocket),
                    BindStep::BindSocket => BindState::Bound,
                },
                Some(error) => match step {
                    BindStep::OpenState | BindStep::BindSocket => BindState::ShuttingDown(error),
                    _ => BindState::Refused(error),
                },
            },
            BindState::ShuttingDown(error) => BindState::Refused(error),
            BindState::Bound => BindState::Bound,
            BindState::Refused(error) => BindState::Refused(error),
        }
    }
}

/// What a service came to that was served and whose driver was shut down behind it:
/// the first failure counts, and a second one is told with it.
pub open spec fn served_failure(
    served: Option<ErrorView>,
    shut_down: Option<ErrorView>,
    driver: Seq<char>,
) -> Option<ErrorView> {
    match (served, shut_down) {
        (Some(error), Some(cause)) => Some(
            ErrorView {
                message: error.message + "; "@ + driver + " shutdown also failed: "@
                    + cause.message,
                ..error
            },
        ),
        (Some(error), None) => Some(error),
        (None, failure) => failure,
    }
}

/// What a result says of a failure.
pub open spec fn result_failure(result: Result<(), Error>) -> Option<ErrorView> {
    match result {
        Ok(()) => None,
        Err(error) => Some(error@),
    }
}

/// What a service came to that was served and whose driver was shut down behind it.
pub fn combine_service_and_cleanup(
    served: Result<(), Error>,
    shut_down: Result<(), Error>,
    driver: &str,
) -> (result: Result<(), Error>)
    ensures
        result_failure(result) == served_failure(
            result_failure(served),
            result_failure(shut_down),
            driver@,
        ),
{
    match served {
        Ok(()) => shut_down,
        Err(error) => match shut_down {
            Ok(()) => Err(error),
            Err(cause) => {
                let mut message = error.message;
                message.append("; ");
                message.append(driver);
                message.append(" shutdown also failed: ");
                message.append(&cause.message);
                Err(
                    Error {
                        code: error.code,
                        message,
                        operation: error.operation,
                        retryable: error.retryable,
                    },
                )
            },
        },
    }
}

/// No failure is lost: where serving or the shutdown of the driver fails, the
/// service fails, and where both do, the words of both are told.
pub proof fn both_failures_are_told(served: ErrorView, shut_down: ErrorView, driver: Seq<char>)
    ensures
        served_failure(None, None, driver) is None,
        served_failure(Some(served), None, driver) == Some(served),
        served_failure(None, Some(shut_down), driver) == Some(shut_down),
        ({
            let both = served_failure(Some(served), Some(shut_down), driver)->0;
            &&& both.code == served.code
            &&& served.message.is_prefix_of(both.message)
            &&& shut_down.message.is_suffix_of(both.message)
        }),
{
    let both = served_failure(Some(served), Some(shut_down), driver)->0;
    assert(both.message.take(served.message.len() as int) =~= served.message);
    assert(both.message.skip(both.message.len() - shut_down.message.len())
        =~= shut_down.message);
}

/// A driver that was opened is shut down before a failure is handed out.
pub proof fn opened_drivers_are_shut_down(step: BindStep, error: ErrorView)
    requires
        step is OpenState || step is BindSocket,
    ensures
        next_bind_state(BindStateView::At(step), Some(error)) == BindStateView::ShuttingDown(
            error,
        ),
        next_bind_state(BindStateView::ShuttingDown(error), None) == BindStateView::Refused(error),
{
}

/// A socket is published only after the driver and the durable state were opened,
/// in this order and without a failure.
pub proof fn sockets_are_published_last(before: BindStateView, failure: Option<ErrorView>)
    ensures
        next_bind_state(before, failure) is Bound && !(before is Bound) ==> failure is None
            && before == BindStateView::At(BindStep::BindSocket),
        next_bind_state(before, failure) == BindStateView::At(BindStep::BindSocket)
            ==> failure is None && before == BindStateView::At(BindStep::OpenState),
        next_bind_state(before, failure) == BindStateView::At(BindStep::OpenState)
            ==> failure is None && before == BindStateView::At(BindStep::OpenDriver),
{
}

/// A Linux KVM recovery service whose socket is published.
#[derive(Debug)]
pub struct LinuxKvmRecoveryHostService {
    socket_path: String,
}

impl LinuxKvmRecoveryHostService {
    /// The published socket.
    pub closed spec fn socket(&self) -> Seq<char> {
        self.socket_path@
    }

    /// The service of a configuration, once its socket is published.
    pub fn bound(config: &LinuxKvmRecoveryHostServiceConfig) -> (service:
        LinuxKvmRecoveryHostService)
        ensures
            service.socket() == joined(config.root_path(), SERVICE_SOCKET_NAME@),
    {
        LinuxKvmRecoveryHostService { socket_path: config.socket_path() }
    }

    /// The published socket.
    pub fn socket_path(&self) -> (path: &str)
        ensures
            path@ == self.socket(),
    {
        &self.socket_path
    }
}

/// A Linux KVM soak service whose socket is published.
#[derive(Debug)]
pub struct LinuxKvmSoakHostService {
    socket_path: String,
}

impl LinuxKvmSoakHostService {
    /// The published socket.
    pub closed spec fn socket(&self) -> Seq<char> {
        self.socket_path@
    }

    /// The service of a configuration, once its socket is published.
    pub fn bound(config: &LinuxKvmSoakHostServiceConfig) -> (service: LinuxKvmSoakHostService)
        ensures
            service.socket() == joined(config.root_path(), SERVICE_SOCKET_NAME@),
    {
        LinuxKvmSoakHostService { socket_path: config.socket_path() }
    }

    /// The published socket.
    pub fn socket_path(&self) -> (path: &str)
        ensures
            path@ == self.socket(),
    {
        &self.socket_path
    }
}

/// A macOS HVF service whose socket is published.
#[derive(Debug)]
pub struct MacosHvfHostService {
    socket_path: String,
}

impl MacosHvfHostService {
    /// The published socket.
    pub closed spec fn socket(&self) -> Seq<char> {
        self.socket_path@
    }

    /// The service of a configuration, once its socket is published.
    pub fn bound(config: &MacosHvfHostServiceConfig) -> (service: MacosHvfHostService)
        ensures
            service.socket() == joined(config.root_path(), SERVICE_SOCKET_NAME@),
    {
        MacosHvfHostService { socket_path: config.socket_path() }
    }

    /// The published socket.
    pub fn socket_path(&self) -> (path: &str)
        ensures
            path@ == self.socket(),
    {
        &self.socket_path
    }
}

/// A service is configured exactly where its three paths are absolute and climb nowhere,
/// its manifest lies apart from its directory, and its socket fits an address.
pub proof fn services_are_configured_apart(
    root: Seq<char>,
    shim: Seq<char>,
    manifest: Seq<char>,
    service: Seq<char>,
    operation: Seq<char>,
)
    ensures
        kvm_config_fault(root, shim, manifest, service, operation) is None <==> {
            &&& absolute_normalized(root)
            &&& absolute_normalized(shim)
            &&& absolute_normalized(manifest)
            &&& !components(root).is_prefix_of(components(manifest))
            &&& !components(manifest).is_prefix_of(components(root))
            &&& byte_length(joined(root, SERVICE_SOCKET_NAME@)) < LINUX_SOCKET_PATH_CAPACITY
        },
        hvf_config_fault(root, shim, manifest) is None <==> {
            &&& absolute_normalized(root)
            &&& absolute_normalized(shim)
            &&& absolute_normalized(manifest)
            &&& !components(root).is_prefix_of(components(manifest))
            &&& !components(manifest).is_prefix_of(components(root))
        },
{
}

/// A path that a service takes starts at the root and has no step to a parent in it.
pub proof fn service_paths_climb_nowhere(path: Seq<char>, place: int)
    requires
        absolute_normalized(path),
        0 <= place < components(path).len(),
    ensures
        path.len() > 0,
        path[0] == '/',
        components(path)[place] != seq!['.', '.'],
{
}

/// Where a host service stands behind its first steps, each of which succeeded or failed.
pub open spec fn bind_course(failures: Seq<Option<ErrorView>>) -> BindStateView
    decreases failures.len(),
{
    if failures.len() == 0 {
        BindStateView::At(BindStep::PrepareRoot)
    } else {
        next_bind_state(bind_course(failures.drop_last()), failures.last())
    }
}

/// A service is bound only behind all of its steps, each once and in order: a state that
/// is bound was reached from the first step by six successes.
pub proof fn services_are_bound_step_by_step(failures: Seq<Option<ErrorView>>)
    ensures
        bind_course(failures) is Bound ==> failures.len() >= 6 && forall|i: int|
            0 <= i < 6 ==> (#[trigger] failures[i]) is None,
        failures.len() == 0 ==> bind_course(failures) == BindStateView::At(BindStep::PrepareRoot),
        failures.len() >= 6 && (forall|i: int|
            0 <= i < failures.len() ==> (#[trigger] failures[i]) is None) ==> bind_course(failures)
            is Bound,
{
    bind_steps_succeed_in_order(failures);
}

spec fn bind_place(step: BindStep) -> nat {
    match step {
        BindStep::PrepareRoot => 0,
        BindStep::PrepareState => 1,
        BindStep::PrepareRuntime => 2,
        BindStep::OpenDriver => 3,
        BindStep::OpenState => 4,
        BindStep::BindSocket => 5,
    }
}

proof fn bind_steps_succeed_in_order(failures: Seq<Option<ErrorView>>)
    ensures
        bind_course(failures) matches BindStateView::At(step) ==> bind_place(step)
            == failures.len() && forall|i: int|
            0 <= i < failures.len() ==> (#[trigger] failures[i]) is None,
        bind_course(failures) is Bound ==> failures.len() >= 6 && forall|i: int|
            0 <= i < 6 ==> (#[trigger] failures[i]) is None,
        (forall|i: int| 0 <= i < failures.len() ==> (#[trigger] failures[i]) is None) ==> (
        failures.len() < 6 ==> bind_course(failures) is At) && (failures.len() >= 6
            ==> bind_course(failures) is Bound),
    decreases failures.len(),
{
    if failures.len() > 0 {
        let shorter = failures.drop_last();
        bind_steps_succeed_in_order(shorter);
        assert(forall|i: int| 0 <= i < shorter.len() ==> #[trigger] shorter[i] == failures[i]);
        assert(failures[failures.len() - 1] == failures.last());
        if bind_course(shorter) is At {
            assert forall|i: int|
                0 <= i < failures.len() && failures.last() is None implies (
            #[trigger] failures[i]) is None by {
                if i < shorter.len() {
                    assert(shorter[i] is None);
                }
            }
        }
        if bind_course(shorter) is Bound {
            assert forall|i: int| 0 <= i < 6 implies (#[trigger] failures[i]) is None by {
                assert(shorter[i] is None);
            }
        }
        if forall|i: int| 0 <= i < failures.len() ==> (#[trigger] failures[i]) is None {
            assert forall|i: int| 0 <= i < shorter.len() implies (#[trigger] shorter[i])
                is None by {
                assert(failures[i] is None);
            }
        }
    }
}

/// A refused or bound service stays what it is, and a refused one is refused for the very
/// failure that ended it.
pub proof fn refusals_keep_their_failure(
    state: BindStateView,
    failure: Option<ErrorView>,
    error: ErrorView,
)
    ensures
        state is Bound || state is Refused ==> next_bind_state(state, failure) == state,
        next_bind_state(state, failure) == BindStateView::Refused(error) && !(state is Refused)
            ==> state == BindStateView::ShuttingDown(error) || failure == Some(error),
        next_bind_state(state, failure) == BindStateView::ShuttingDown(error) ==> failure == Some(
            error,
        ),
        state is At && failure is Some ==> !(next_bind_state(state, failure) is At)
            && !(next_bind_state(state, failure) is Bound),
{
}

/// What went wrong is what is reported, and nothing is where nothing did.
pub proof fn failures_are_what_went_wrong(result: Result<(), Error>, failure: Option<Error>)
    ensures
        result_failure(result) is None <==> result is Ok,
        result matches Err(error) ==> result_failure(result) == Some(error@),
        failure_view(failure) is None <==> failure is None,
        failure matches Some(error) ==> failure_view(failure) == Some(error@),
{
}

} // verus!
