use action_core::action::{ActionErrorKind, ActionState, ActionTag, StatefulAction};
use action_core::apply_nix_darwin::{
    ApplyNixDarwin, ExecuteEvent, ExecuteRequest, ExecuteSession, PlanRecord,
};
use action_core::command::{Command, CommandFailure, CommandOutcome};

fn planned(flake: &str) -> StatefulAction<ApplyNixDarwin> {
    ApplyNixDarwin::plan(flake.to_string()).expect("planning a non-empty flake ref succeeds")
}

fn expect_command(session: &ExecuteSession) -> Command {
    match session.request() {
        ExecuteRequest::RunCommand(c) => c,
        ExecuteRequest::QueryHomeDir => panic!("expected a command request"),
    }
}

#[test]
fn execute_requests_the_planned_commands_in_order() {
    let sa = planned("example#config");
    let mut session = sa.begin_execute("/tmp/scratch".to_string());

    let c = expect_command(&session);
    assert_eq!(c.program, "cd");
    assert_eq!(c.args, vec!["/tmp/scratch".to_string()]);
    session.advance(ExecuteEvent::CommandFinished(CommandOutcome::Success));

    let c = expect_command(&session);
    assert_eq!(c.program, "nix");
    assert_eq!(
        c.args,
        vec![
            "build".to_string(),
            "github:lnL7/nix-darwin/bcc8afd06e237df060c85bad6af7128e05fd61a3".to_string(),
        ]
    );
    session.advance(ExecuteEvent::CommandFinished(CommandOutcome::Success));

    let c = expect_command(&session);
    assert_eq!(c.program, "./result/bin/darwin-rebuild");
    assert_eq!(
        c.args,
        vec!["switch".to_string(), "--flake".to_string(), "example#config".to_string()]
    );
    session.advance(ExecuteEvent::CommandFinished(CommandOutcome::Success));

    assert!(matches!(session.request(), ExecuteRequest::QueryHomeDir));
    session.advance(ExecuteEvent::HomeDir(Some("/Users/me".to_string())));

    let c = expect_command(&session);
    assert_eq!(c.program, "cd");
    assert_eq!(c.args, vec!["/Users/me".to_string()]);
    session.advance(ExecuteEvent::CommandFinished(CommandOutcome::Success));

    let c = expect_command(&session);
    assert_eq!(c.program, "rm");
    assert_eq!(c.args, vec!["-rf".to_string(), "/tmp/scratch".to_string()]);
    session.advance(ExecuteEvent::CommandFinished(CommandOutcome::Success));

    assert!(session.is_terminal());
    assert!(!session.has_failed());
}

#[test]
fn successful_execute_completes_and_revert_uncompletes() {
    let mut sa = planned("example#config");
    let mut session = sa.begin_execute("/tmp/scratch".to_string());
    for _ in 0..3 {
        session.advance(ExecuteEvent::CommandFinished(CommandOutcome::Success));
    }
    session.advance(ExecuteEvent::HomeDir(Some("/Users/me".to_string())));
    for _ in 0..2 {
        session.advance(ExecuteEvent::CommandFinished(CommandOutcome::Success));
    }
    assert!(session.is_terminal());

    sa.finish_execute(session).expect("every step succeeded");
    assert_eq!(sa.state, ActionState::Completed);

    sa.revert().expect("reverting is a documented no-op and always succeeds");
    assert_eq!(sa.state, ActionState::Uncompleted);
}

#[test]
fn failing_step_aborts_execution_with_tagged_error() {
    let mut sa = planned("example#config");
    let mut session = sa.begin_execute("/tmp/scratch".to_string());

    // Steps 1 and 2 succeed; the switch itself exits non-zero.
    session.advance(ExecuteEvent::CommandFinished(CommandOutcome::Success));
    session.advance(ExecuteEvent::CommandFinished(CommandOutcome::Success));
    let failure = CommandFailure {
        program: "./result/bin/darwin-rebuild".to_string(),
        args: vec!["switch".to_string(), "--flake".to_string(), "example#config".to_string()],
        exit_code: Some(1),
        output: "error: flake does not evaluate".to_string(),
    };
    session.advance(ExecuteEvent::CommandFinished(CommandOutcome::Failed(failure.clone())));

    // The session is terminal: no later step can even be requested.
    assert!(session.is_terminal());
    assert!(session.has_failed());

    let e = sa.finish_execute(session).expect_err("the failing step aborts the execution");
    assert_eq!(e.tag, ActionTag::ApplyNixDarwin);
    assert_eq!(e.kind, ActionErrorKind::ExternalCommandFailed(failure));
    assert_eq!(sa.state, ActionState::Uncompleted);
}

#[test]
fn failed_session_offers_a_scratch_cleanup_command() {
    let sa = planned("example#config");
    let mut session = sa.begin_execute("/tmp/scratch".to_string());
    let failure = CommandFailure {
        program: "cd".to_string(),
        args: vec!["/tmp/scratch".to_string()],
        exit_code: Some(2),
        output: "no such directory".to_string(),
    };
    session.advance(ExecuteEvent::CommandFinished(CommandOutcome::Failed(failure)));
    assert!(session.has_failed());

    let c = session.cleanup_request();
    assert_eq!(c.program, "rm");
    assert_eq!(c.args, vec!["-rf".to_string(), "/tmp/scratch".to_string()]);
}

#[test]
fn missing_home_directory_fails_with_tagged_error() {
    let mut sa = planned("example#config");
    let mut session = sa.begin_execute("/tmp/scratch".to_string());
    for _ in 0..3 {
        session.advance(ExecuteEvent::CommandFinished(CommandOutcome::Success));
    }
    session.advance(ExecuteEvent::HomeDir(None));
    assert!(session.has_failed());

    let e = sa.finish_execute(session).expect_err("no home directory is an error");
    assert_eq!(e.tag, ActionTag::ApplyNixDarwin);
    assert_eq!(e.kind, ActionErrorKind::NoHomeDirectory);
    assert_eq!(sa.state, ActionState::Uncompleted);
}

#[test]
fn executing_a_completed_action_fails_fast() {
    let sa = StatefulAction::completed(planned("example#config").action);
    let e = match sa.try_begin_execute("/tmp/scratch".to_string()) {
        Err(e) => e,
        Ok(_) => panic!("executing out of sequence must be an invalid-state error"),
    };
    assert_eq!(e.tag, ActionTag::ApplyNixDarwin);
    assert_eq!(e.kind, ActionErrorKind::InvalidState(ActionState::Completed));
}

#[test]
fn reverting_an_uncompleted_action_fails_fast() {
    let mut sa = planned("example#config");
    let e = sa.try_revert().expect_err("reverting out of sequence is an invalid-state error");
    assert_eq!(e.tag, ActionTag::ApplyNixDarwin);
    assert_eq!(e.kind, ActionErrorKind::InvalidState(ActionState::Uncompleted));
    assert_eq!(sa.state, ActionState::Uncompleted);
}

#[test]
fn plan_record_round_trips() {
    let mut sa = planned("example#config");
    let r = sa.to_record();
    assert_eq!(r.tag, ActionTag::ApplyNixDarwin);
    assert!(!r.completed);
    assert_eq!(r.nix_darwin_flake_ref, "example#config");
    assert_eq!(StatefulAction::<ApplyNixDarwin>::from_record(r), sa);

    let mut session = sa.begin_execute("/tmp/scratch".to_string());
    for _ in 0..3 {
        session.advance(ExecuteEvent::CommandFinished(CommandOutcome::Success));
    }
    session.advance(ExecuteEvent::HomeDir(Some("/Users/me".to_string())));
    for _ in 0..2 {
        session.advance(ExecuteEvent::CommandFinished(CommandOutcome::Success));
    }
    sa.finish_execute(session).expect("every step succeeded");

    let r = PlanRecord {
        tag: ActionTag::ApplyNixDarwin,
        completed: true,
        nix_darwin_flake_ref: "example#config".to_string(),
    };
    assert_eq!(sa.to_record(), r);
    assert_eq!(StatefulAction::<ApplyNixDarwin>::from_record(r), sa);
}
