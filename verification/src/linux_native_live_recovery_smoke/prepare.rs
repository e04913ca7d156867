//! What an attempt to reopen a native host service is made of, checked before
//! anything is made.

use vstd::prelude::*;
use crate::linux_kvm_recovery_smoke::prepare::{
    evidence_root_path, first_fault, layout_fault, missing_fact, plan_layout, resolution_fault,
    resolved_plain_input, PlainFacts, PlainKind,
};
use crate::linux_native_live_recovery_smoke::report::LinuxNativeLiveRecoverySmokeConfig;
use crate::path::{absolute, is_absolute, joined};

verus! {

/// Checks that an input was given by an absolute path.
pub fn check_absolute_path(path: &str, label: &str) -> (result: Result<(), String>)
    ensures
        match result {
            Ok(()) => absolute(path@),
            Err(message) => !absolute(path@) && message@ == label@ + " must be an absolute path: "@
                + path@,
        },
{
    if is_absolute(path) {
        return Ok(());
    }
    let mut message = label.to_owned();
    message.append(" must be an absolute path: ");
    message.append(path);
    Err(message)
}

/// What is wrong with an input, if anything: it has to be given by an absolute
/// path of a plain file or directory.
pub open spec fn live_input_fault(
    path: Seq<char>,
    label: Seq<char>,
    kind: PlainKind,
    facts: PlainFacts,
) -> Option<Seq<char>> {
    first_fault(
        resolution_fault(path, label, kind, facts),
        if absolute(path) {
            None
        } else {
            Some(label + " must be an absolute path: "@ + path)
        },
    )
}

fn live_input(path: &str, label: &str, kind: PlainKind, facts: &PlainFacts) -> (result: Result<
    String,
    String,
>)
    ensures
        match result {
            Ok(canonical) => live_input_fault(path@, label@, kind, *facts) is None
                && facts.canonical is Ok && canonical@ == facts.canonical->Ok_0@,
            Err(message) => live_input_fault(path@, label@, kind, *facts) == Some(message@),
        },
{
    let canonical = match resolved_plain_input(path, label, kind, facts) {
        Ok(canonical) => canonical,
        Err(message) => return Err(message),
    };
    match check_absolute_path(path, label) {
        Ok(()) => Ok(canonical),
        Err(message) => Err(message),
    }
}

/// What is known of the host before an attempt.
#[derive(Debug)]
pub struct LiveFacts {
    pub work_parent: PlainFacts,
    pub agent: PlainFacts,
    pub bundle: PlainFacts,
    /// Whether the bundle could be loaded, or why not.
    pub bundle_loaded: Result<(), String>,
    /// The executable that runs now and what is known of it, or why that is not
    /// known.
    pub executable: Result<(String, PlainFacts), String>,
    /// The nonce of the attempt, or the message that there is none.
    pub nonce: Result<String, String>,
}

/// What is wrong with the inputs of an attempt, if anything.
pub open spec fn live_inputs_fault(
    config: LinuxNativeLiveRecoverySmokeConfig,
    facts: LiveFacts,
) -> Option<Seq<char>> {
    let work_parent = live_input_fault(
        config.work_parent@,
        "work parent"@,
        PlainKind::Directory,
        facts.work_parent,
    );
    let agent = live_input_fault(
        config.agent@,
        "native agent executable"@,
        PlainKind::Executable,
        facts.agent,
    );
    let bundle = live_input_fault(
        config.bundle@,
        "source OCI bundle"@,
        PlainKind::Directory,
        facts.bundle,
    );
    let loaded = match facts.bundle_loaded {
        Ok(()) => None,
        Err(cause) => Some("failed to validate source OCI bundle: "@ + cause@),
    };
    first_fault(work_parent, first_fault(agent, first_fault(bundle, loaded)))
}

/// What is wrong with the executable that runs now, if anything.
pub open spec fn executable_fault(executable: Result<(String, PlainFacts), String>) -> Option<
    Seq<char>,
> {
    match executable {
        Err(cause) => Some("failed to resolve current Host Service executable: "@ + cause@),
        Ok((path, facts)) => live_input_fault(
            path@,
            "Host Service executable"@,
            PlainKind::Executable,
            facts,
        ),
    }
}

/// Where an attempt would keep its evidence.
pub open spec fn live_root(facts: LiveFacts) -> Seq<char> {
    evidence_root_path(facts.work_parent.canonical->Ok_0@, "nlr"@, facts.nonce->Ok_0@)
}

/// Why an attempt is refused before anything is made, if it is.
pub open spec fn live_fault(
    config: LinuxNativeLiveRecoverySmokeConfig,
    facts: LiveFacts,
) -> Option<Seq<char>> {
    first_fault(
        live_inputs_fault(config, facts),
        first_fault(
            executable_fault(facts.executable),
            first_fault(
                missing_fact(facts.nonce),
                layout_fault(live_root(facts), "Native Linux Live recovery Host endpoint"@),
            ),
        ),
    )
}

/// An attempt whose inputs were checked. Its two directories have to be made, the
/// evidence root first.
#[derive(Debug)]
pub struct PreparedLive {
    pub executable: String,
    pub agent: String,
    pub bundle: String,
    pub evidence_root: String,
    pub service_root: String,
    pub nonce: String,
}

impl PreparedLive {
    /// Checks the inputs of an attempt. Nothing has to exist for it yet.
    pub fn open(config: LinuxNativeLiveRecoverySmokeConfig, facts: LiveFacts) -> (result: Result<
        PreparedLive,
        String,
    >)
        ensures
            match result {
                Ok(prepared) => {
                    &&& live_fault(config, facts) is None
                    &&& prepared.executable@ == facts.executable->Ok_0.1.canonical->Ok_0@
                    &&& prepared.agent@ == facts.agent.canonical->Ok_0@
                    &&& prepared.bundle@ == facts.bundle.canonical->Ok_0@
                    &&& prepared.evidence_root@ == live_root(facts)
                    &&& prepared.service_root@ == joined(live_root(facts), "service"@)
                    &&& prepared.nonce@ == facts.nonce->Ok_0@
                },
                Err(message) => live_fault(config, facts) == Some(message@),
            },
    {
        let work_parent = match live_input(
            &config.work_parent,
            "work parent",
            PlainKind::Directory,
            &facts.work_parent,
        ) {
            Ok(path) => path,
            Err(message) => return Err(message),
        };
        let agent = match live_input(
            &config.agent,
            "native agent executable",
            PlainKind::Executable,
            &facts.agent,
        ) {
            Ok(path) => path,
            Err(message) => return Err(message),
        };
        let bundle = match live_input(
            &config.bundle,
            "source OCI bundle",
            PlainKind::Directory,
            &facts.bundle,
        ) {
            Ok(path) => path,
            Err(message) => return Err(message),
        };
        if let Err(cause) = facts.bundle_loaded {
            let mut message = "failed to validate source OCI bundle: ".to_owned();
            message.append(&cause);
            return Err(message);
        }
        let (running, seen) = match facts.executable {
            Ok(found) => found,
            Err(cause) => {
                let mut message = "failed to resolve current Host Service executable: ".to_owned();
                message.append(&cause);
                return Err(message);
            },
        };
        let executable = match live_input(
            &running,
            "Host Service executable",
            PlainKind::Executable,
            &seen,
        ) {
            Ok(path) => path,
            Err(message) => return Err(message),
        };
        let nonce = match facts.nonce {
            Ok(nonce) => nonce,
            Err(message) => return Err(message),
        };
        match plan_layout(
            &work_parent,
            "nlr",
            &nonce,
            "Native Linux Live recovery Host endpoint",
        ) {
            Ok(layout) => Ok(
                PreparedLive {
                    executable,
                    agent,
                    bundle,
                    evidence_root: layout.evidence_root,
                    service_root: layout.service_root,
                    nonce,
                },
            ),
            Err(message) => Err(message),
        }
    }
}

/// An attempt whose agent or bundle is not what it has to be is refused before
/// any directory is planned.
pub proof fn wrong_live_inputs_plan_nothing(
    config: LinuxNativeLiveRecoverySmokeConfig,
    facts: LiveFacts,
)
    requires
        live_inputs_fault(config, facts) is Some || executable_fault(facts.executable) is Some,
    ensures
        live_fault(config, facts) is Some,
{
}

/// Nothing is planned where one fact is missing: every input and the executable itself
/// have to be plain, resolved and given by an absolute path, the bundle has to load, and
/// there has to be a nonce.
pub proof fn live_plans_need_every_fact(
    config: LinuxNativeLiveRecoverySmokeConfig,
    facts: LiveFacts,
)
    requires
        live_fault(config, facts) is None,
    ensures
        absolute(config.work_parent@),
        facts.work_parent.inspected is Ok && facts.work_parent.inspected->Ok_0.0 is Directory,
        facts.work_parent.canonical is Ok,
        absolute(config.agent@),
        facts.agent.inspected is Ok && facts.agent.inspected->Ok_0.0 is Regular,
        facts.agent.inspected->Ok_0.1 & 0o111 != 0,
        facts.agent.canonical is Ok,
        absolute(config.bundle@),
        facts.bundle.inspected is Ok && facts.bundle.inspected->Ok_0.0 is Directory,
        facts.bundle.canonical is Ok,
        facts.bundle_loaded is Ok,
        facts.executable is Ok,
        absolute(facts.executable->Ok_0.0@),
        facts.executable->Ok_0.1.inspected is Ok
            && facts.executable->Ok_0.1.inspected->Ok_0.0 is Regular,
        facts.executable->Ok_0.1.inspected->Ok_0.1 & 0o111 != 0,
        facts.executable->Ok_0.1.canonical is Ok,
        facts.nonce is Ok,
        layout_fault(live_root(facts), "Native Linux Live recovery Host endpoint"@) is None,
{
}

} // verus!
