//! The order in which a sandbox comes into being, and what is taken back
//! when one of the steps fails.
//!
//! Creating a sandbox changes the host step by step. After each step the
//! caller reports whether it succeeded and is told what to do next: go on,
//! register the sandbox, or give up and remove what was made so far. The
//! same holds when the request for the sandbox is withdrawn midway: the
//! caller reports the running step as failed.

use vstd::prelude::*;

verus! {

/// A step of creating a sandbox that changes the host or talks to it.
#[derive(Clone, Copy, Debug, PartialEq, Eq, Structural)]
pub enum CreationPhase {
    /// Build the sandbox's network.
    SetupNetwork,
    /// Start the jailed hypervisor inside the network's namespace.
    LaunchJailer,
    /// Make the client of the guest's agent.
    ConnectAgent,
    /// Copy the code drive into the jail.
    StageCodeDrive,
    /// Configure the hypervisor, boot the guest and mount its drives.
    Initialize,
}

/// Something that creating a sandbox leaves on the host.
#[derive(Clone, Copy, Debug, PartialEq, Eq, Structural)]
pub enum Resource {
    /// The namespace, the veth pair and the host's rules.
    Network,
    /// The terminal session that runs the jailer.
    JailerSession,
    /// The directory that holds the jail.
    VmDirectory,
}

/// What to remove from the host when the creation is given up.
#[derive(Clone, Copy, Debug, PartialEq, Eq, Structural)]
pub enum Cleanup {
    /// Take the network down.
    Network,
    /// Destroy the sandbox: kill the session, remove the directory, take
    /// the network down.
    Sandbox,
}

/// What to do after a step of the creation.
#[derive(Clone, Copy, Debug, PartialEq, Eq, Structural)]
pub enum CreationDecision {
    /// Carry out this step next.
    Continue(CreationPhase),
    /// The sandbox is complete: put it into the registry.
    Register,
    /// Give up: clean up, then report the step's error.
    Abort(Cleanup),
}

impl CreationPhase {
    /// The position of the step in the order of the creation.
    pub open spec fn spec_position(self) -> nat {
        match self {
            CreationPhase::SetupNetwork => 0,
            CreationPhase::LaunchJailer => 1,
            CreationPhase::ConnectAgent => 2,
            CreationPhase::StageCodeDrive => 3,
            CreationPhase::Initialize => 4,
        }
    }

    /// The step that follows this one, if any.
    pub open spec fn spec_next(self) -> Option<CreationPhase> {
        match self {
            CreationPhase::SetupNetwork => Some(CreationPhase::LaunchJailer),
            CreationPhase::LaunchJailer => Some(CreationPhase::ConnectAgent),
            CreationPhase::ConnectAgent => Some(CreationPhase::StageCodeDrive),
            CreationPhase::StageCodeDrive => Some(CreationPhase::Initialize),
            CreationPhase::Initialize => None,
        }
    }

    /// Whether the step, even where it fails midway, may leave the resource
    /// on the host.
    pub open spec fn spec_creates(self, resource: Resource) -> bool {
        match self {
            CreationPhase::SetupNetwork => resource == Resource::Network,
            CreationPhase::LaunchJailer => resource == Resource::JailerSession || resource
                == Resource::VmDirectory,
            _ => false,
        }
    }

    /// What to remove when the step fails: the network alone while nothing
    /// else can exist, the whole sandbox from then on.
    pub open spec fn spec_cleanup(self) -> Cleanup {
        match self {
            CreationPhase::SetupNetwork => Cleanup::Network,
            _ => Cleanup::Sandbox,
        }
    }

    /// What to do after the step, given whether it succeeded.
    pub open spec fn spec_decide(self, succeeded: bool) -> CreationDecision {
        if !succeeded {
            CreationDecision::Abort(self.spec_cleanup())
        } else {
            match self.spec_next() {
                Some(next) => CreationDecision::Continue(next),
                None => CreationDecision::Register,
            }
        }
    }

    /// The first step of every creation.
    pub fn first() -> (phase: CreationPhase)
        ensures
            phase == CreationPhase::SetupNetwork,
            phase.spec_position() == 0,
    {
        CreationPhase::SetupNetwork
    }

    /// What to do after the step, given whether it succeeded.
    pub fn decide(self, succeeded: bool) -> (decision: CreationDecision)
        ensures
            decision == self.spec_decide(succeeded),
    {
        if !succeeded {
            match self {
                CreationPhase::SetupNetwork => CreationDecision::Abort(Cleanup::Network),
                _ => CreationDecision::Abort(Cleanup::Sandbox),
            }
        } else {
            match self {
                CreationPhase::SetupNetwork => CreationDecision::Continue(
                    CreationPhase::LaunchJailer,
                ),
                CreationPhase::LaunchJailer => CreationDecision::Continue(
                    CreationPhase::ConnectAgent,
                ),
                CreationPhase::ConnectAgent => CreationDecision::Continue(
                    CreationPhase::StageCodeDrive,
                ),
                CreationPhase::StageCodeDrive => CreationDecision::Continue(
                    CreationPhase::Initialize,
                ),
                CreationPhase::Initialize => CreationDecision::Register,
            }
        }
    }
}

impl Cleanup {
    /// Whether the cleanup removes the resource.
    pub open spec fn spec_removes(self, resource: Resource) -> bool {
        match self {
            Cleanup::Network => resource == Resource::Network,
            Cleanup::Sandbox => true,
        }
    }
}

/// Whichever step fails, the cleanup it calls for removes everything that
/// this step and the steps before it may have left on the host.
pub proof fn lemma_failure_leaves_nothing(failed: CreationPhase, earlier: CreationPhase, resource: Resource)
    requires
        earlier.spec_position() <= failed.spec_position(),
        earlier.spec_creates(resource),
    ensures
        failed.spec_cleanup().spec_removes(resource),
{
}

/// The steps run in their order, one after the other, up to the last.
pub proof fn lemma_steps_in_order(phase: CreationPhase)
    ensures
        match phase.spec_next() {
            Some(next) => next.spec_position() == phase.spec_position() + 1,
            None => phase == CreationPhase::Initialize,
        },
{
}

/// A sandbox is registered only after the last step has succeeded, and a
/// failed step never leads to another step.
pub proof fn lemma_registered_only_when_complete(phase: CreationPhase, succeeded: bool)
    ensures
        phase.spec_decide(succeeded) == CreationDecision::Register <==> (phase
            == CreationPhase::Initialize && succeeded),
        phase.spec_decide(succeeded) is Abort <==> !succeeded,
{
}

/// How a list of steps is run.
#[derive(Clone, Copy, Debug, PartialEq, Eq, Structural)]
pub enum PlanKind {
    /// Building something: the first step that fails ends the run.
    Setup,
    /// Taking something down: every step is tried, failures are noted only.
    Teardown,
}

/// What to do after one step of a list.
#[derive(Clone, Copy, Debug, PartialEq, Eq, Structural)]
pub enum RunDecision {
    /// Run the step at this position next.
    Run(usize),
    /// Every step was run.
    Done,
    /// Stop and report the failure.
    Stop,
}

/// What to do after the step at position `index` of a list of `len` steps.
pub open spec fn spec_after_step(kind: PlanKind, index: usize, len: usize, succeeded: bool)
    -> RunDecision {
    if !succeeded && kind == PlanKind::Setup {
        RunDecision::Stop
    } else if index + 1 < len {
        RunDecision::Run((index + 1) as usize)
    } else {
        RunDecision::Done
    }
}

/// What to do after the step at position `index` of a list of `len` steps.
pub fn after_step(kind: PlanKind, index: usize, len: usize, succeeded: bool) -> (decision:
    RunDecision)
    requires
        index < len,
    ensures
        decision == spec_after_step(kind, index, len, succeeded),
{
    let stop = match kind {
        PlanKind::Setup => !succeeded,
        PlanKind::Teardown => false,
    };
    if stop {
        RunDecision::Stop
    } else if index + 1 < len {
        RunDecision::Run(index + 1)
    } else {
        RunDecision::Done
    }
}

/// Taking something down never stops early: a failed step is followed by
/// the next one as a successful step would be.
pub proof fn lemma_teardown_tries_every_step(index: usize, len: usize, succeeded: bool)
    requires
        index < len,
    ensures
        spec_after_step(PlanKind::Teardown, index, len, succeeded) != RunDecision::Stop,
        index + 1 < len ==> spec_after_step(PlanKind::Teardown, index, len, succeeded)
            == RunDecision::Run((index + 1) as usize),
{
}

} // verus!
