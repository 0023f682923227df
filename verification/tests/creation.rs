use matchbox::creation::{
    after_step, Cleanup, CreationDecision, CreationPhase, PlanKind, RunDecision,
};

#[test]
fn creation_runs_its_steps_in_order() {
    let mut phase = CreationPhase::first();
    let mut seen = vec![phase];
    loop {
        match phase.decide(true) {
            CreationDecision::Continue(next) => {
                seen.push(next);
                phase = next;
            }
            CreationDecision::Register => break,
            CreationDecision::Abort(_) => panic!("a successful step never aborts"),
        }
    }
    assert_eq!(
        seen,
        [
            CreationPhase::SetupNetwork,
            CreationPhase::LaunchJailer,
            CreationPhase::ConnectAgent,
            CreationPhase::StageCodeDrive,
            CreationPhase::Initialize,
        ]
    );
}

#[test]
fn a_failed_step_cleans_up() {
    assert_eq!(
        CreationPhase::SetupNetwork.decide(false),
        CreationDecision::Abort(Cleanup::Network)
    );
    for phase in [
        CreationPhase::LaunchJailer,
        CreationPhase::ConnectAgent,
        CreationPhase::StageCodeDrive,
        CreationPhase::Initialize,
    ] {
        assert_eq!(phase.decide(false), CreationDecision::Abort(Cleanup::Sandbox));
    }
}

#[test]
fn only_the_last_step_registers() {
    assert_eq!(CreationPhase::Initialize.decide(true), CreationDecision::Register);
    assert_eq!(
        CreationPhase::StageCodeDrive.decide(true),
        CreationDecision::Continue(CreationPhase::Initialize)
    );
}

#[test]
fn a_setup_stops_at_its_first_failure() {
    assert_eq!(after_step(PlanKind::Setup, 0, 3, true), RunDecision::Run(1));
    assert_eq!(after_step(PlanKind::Setup, 1, 3, false), RunDecision::Stop);
    assert_eq!(after_step(PlanKind::Setup, 2, 3, true), RunDecision::Done);
    assert_eq!(after_step(PlanKind::Setup, 2, 3, false), RunDecision::Stop);
}

#[test]
fn a_teardown_tries_every_step() {
    assert_eq!(after_step(PlanKind::Teardown, 0, 3, false), RunDecision::Run(1));
    assert_eq!(after_step(PlanKind::Teardown, 1, 3, true), RunDecision::Run(2));
    assert_eq!(after_step(PlanKind::Teardown, 2, 3, false), RunDecision::Done);
    assert_eq!(after_step(PlanKind::Teardown, 0, 1, true), RunDecision::Done);
}
