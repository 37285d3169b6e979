//! The `apply_nix_darwin` action: rebuild and switch a nix-darwin system
//! configuration from a flake reference.
//!
//! Execution needs several ordered external commands (enter a scratch
//! directory, build `darwin-rebuild`, switch to the configuration, return to
//! the home directory, remove the scratch directory). The core drives them
//! as an [`ExecuteSession`]: a small state machine that hands one request at
//! a time to the unverified driver and consumes the outcome as an event, so
//! the first failing step aborts the whole execution with that step's error
//! and no later step is ever requested.

use vstd::prelude::*;

use crate::action::{
    Action, ActionDescription, ActionError, ActionErrorKind, ActionSpan, ActionState, ActionTag,
    SpanField, StatefulAction,
};
use crate::command::{Command, CommandFailure, CommandOutcome};

verus! {

/// Applies a nix-darwin configuration named by a flake reference.
///
/// The value is self-contained: the flake reference alone determines what
/// the step will do.
#[derive(Debug, Clone, PartialEq, Eq)]
pub struct ApplyNixDarwin {
    nix_darwin_flake_ref: String,
}

impl View for ApplyNixDarwin {
    type V = Seq<char>;

    closed spec fn view(&self) -> Seq<char> {
        self.nix_darwin_flake_ref@
    }
}

impl ApplyNixDarwin {
    /// Validate the inputs and wrap a not-yet-applied action.
    ///
    /// Planning is pure with respect to host state: it builds a value and
    /// performs no side effect. The flake reference must be non-empty;
    /// nothing else about the host is probed here.
    pub fn plan(nix_darwin_flake_ref: String) -> (r: Result<
        StatefulAction<ApplyNixDarwin>,
        ActionError,
    >)
        ensures
            nix_darwin_flake_ref@.len() > 0 ==> (r matches Ok(sa) && sa.state is Uncompleted
                && sa.action@ == nix_darwin_flake_ref@),
            nix_darwin_flake_ref@.len() == 0 ==> (r matches Err(e)
                && e.tag == ActionTag::ApplyNixDarwin && e.kind matches
            ActionErrorKind::PreconditionUnmet(_)),
    {
        if nix_darwin_flake_ref.as_str().is_empty() {
            Err(ActionError::new(
                ActionTag::ApplyNixDarwin,
                ActionErrorKind::PreconditionUnmet(
                    String::from_str("the nix-darwin flake reference is empty"),
                ),
            ))
        } else {
            Ok(StatefulAction::uncompleted(ApplyNixDarwin { nix_darwin_flake_ref }))
        }
    }
}

impl Action for ApplyNixDarwin {
    open spec fn tag_spec() -> ActionTag {
        ActionTag::ApplyNixDarwin
    }

    open spec fn synopsis_spec(&self) -> Seq<char> {
        "Apply the nix-darwin configuration from the flake ref "@ + self@ + "`"@
    }

    open spec fn execute_description_spec(&self) -> Seq<(Seq<char>, Seq<Seq<char>>)> {
        seq![(self.synopsis_spec(), Seq::<Seq<char>>::empty())]
    }

    open spec fn revert_description_spec(&self) -> Seq<(Seq<char>, Seq<Seq<char>>)> {
        seq![("Revert nix-darwin apply for the flake ref "@ + self@, Seq::<Seq<char>>::empty())]
    }

    open spec fn span_spec(&self) -> (Seq<char>, Seq<(Seq<char>, Seq<char>)>) {
        ("apply_nix_darwin"@, seq![("nix_darwin_flake_ref"@, self@)])
    }

    fn action_tag() -> (t: ActionTag) {
        ActionTag::ApplyNixDarwin
    }

    fn tracing_synopsis(&self) -> (r: String) {
        let mut s = String::from_str("Apply the nix-darwin configuration from the flake ref ");
        s.append(self.nix_darwin_flake_ref.as_str());
        s.append("`");
        proof {
            assert(s@ =~= self.synopsis_spec());
        }
        s
    }

    fn tracing_span(&self) -> (r: ActionSpan) {
        let mut fields: Vec<SpanField> = Vec::new();
        fields.push(
            SpanField {
                key: String::from_str("nix_darwin_flake_ref"),
                value: self.nix_darwin_flake_ref.clone(),
            },
        );
        let r = ActionSpan { name: String::from_str("apply_nix_darwin"), fields };
        proof {
            assert(r.deep_view() =~~= self.span_spec());
        }
        r
    }

    fn execute_description(&self) -> (r: Vec<ActionDescription>) {
        let mut r: Vec<ActionDescription> = Vec::new();
        r.push(ActionDescription::new(self.tracing_synopsis(), Vec::new()));
        proof {
            assert(r.deep_view() =~~= self.execute_description_spec());
        }
        r
    }

    fn revert_description(&self) -> (r: Vec<ActionDescription>) {
        let mut s = String::from_str("Revert nix-darwin apply for the flake ref ");
        s.append(self.nix_darwin_flake_ref.as_str());
        let mut r: Vec<ActionDescription> = Vec::new();
        r.push(ActionDescription::new(s, Vec::new()));
        proof {
            assert(r.deep_view() =~~= self.revert_description_spec());
        }
        r
    }
}

/// The ordered external steps of one execution, plus the two terminal
/// states. The non-terminal phases each stand for the request about to be
/// handed to the driver; `Finished` and `Failed` accept no further event.
#[derive(Clone, Copy, Debug, PartialEq, Eq, Structural)]
pub enum ExecutePhase {
    /// Change into the scratch directory.
    EnterScratchDir,
    /// Build a local `darwin-rebuild` from the pinned nix-darwin source.
    BuildRebuilder,
    /// Run `darwin-rebuild switch` against the flake reference.
    SwitchConfiguration,
    /// Ask the driver for the user's home directory.
    ResolveHome,
    /// Change into the home directory.
    EnterHomeDir,
    /// Remove the scratch directory.
    RemoveScratchDir,
    /// Every step succeeded.
    Finished,
    /// A step failed; the session holds the error and accepts no more events.
    Failed,
}

/// What the driver must do next for a running session.
#[derive(Debug, Clone, PartialEq, Eq)]
pub enum ExecuteRequest {
    /// Run this command to completion through the command executor.
    RunCommand(Command),
    /// Resolve the current user's home directory, if there is one.
    QueryHomeDir,
}

/// The driver's answer to the most recent request.
#[derive(Debug, Clone, PartialEq, Eq)]
pub enum ExecuteEvent {
    CommandFinished(CommandOutcome),
    HomeDir(Option<String>),
}

/// Command models are (program name, argument vector) pairs of sequences.
/// This one changes into a directory.
pub open spec fn change_dir_model(dir: Seq<char>) -> (Seq<char>, Seq<Seq<char>>) {
    ("cd"@, seq![dir])
}

/// Model of the pinned `darwin-rebuild` build command.
pub open spec fn build_rebuilder_model() -> (Seq<char>, Seq<Seq<char>>) {
    ("nix"@, seq!["build"@, "github:lnL7/nix-darwin/bcc8afd06e237df060c85bad6af7128e05fd61a3"@])
}

/// Model of the `darwin-rebuild switch` command for a flake reference.
pub open spec fn switch_model(flake: Seq<char>) -> (Seq<char>, Seq<Seq<char>>) {
    ("./result/bin/darwin-rebuild"@, seq!["switch"@, "--flake"@, flake])
}

/// Model of the scratch-directory removal command.
pub open spec fn remove_dir_model(dir: Seq<char>) -> (Seq<char>, Seq<Seq<char>>) {
    ("rm"@, seq!["-rf"@, dir])
}

/// The error an `apply_nix_darwin` step surfaces when an external command
/// fails: the action's own tag plus the failure verbatim.
pub open spec fn command_error(f: CommandFailure) -> ActionError {
    ActionError { tag: ActionTag::ApplyNixDarwin, kind: ActionErrorKind::ExternalCommandFailed(f) }
}

/// The error surfaced when no home directory can be resolved.
pub open spec fn no_home_error() -> ActionError {
    ActionError { tag: ActionTag::ApplyNixDarwin, kind: ActionErrorKind::NoHomeDirectory }
}

/// The error surfaced by a checked lifecycle call made from the wrong state.
pub open spec fn invalid_state_error(s: ActionState) -> ActionError {
    ActionError { tag: ActionTag::ApplyNixDarwin, kind: ActionErrorKind::InvalidState(s) }
}

/// How many commands have completed when a session stands in phase `p`
/// (the home-directory query is not a command).
pub open spec fn done_of_phase(p: ExecutePhase) -> int {
    match p {
        ExecutePhase::EnterScratchDir => 0,
        ExecutePhase::BuildRebuilder => 1,
        ExecutePhase::SwitchConfiguration => 2,
        ExecutePhase::ResolveHome => 3,
        ExecutePhase::EnterHomeDir => 3,
        ExecutePhase::RemoveScratchDir => 4,
        ExecutePhase::Finished => 5,
        ExecutePhase::Failed => 0,
    }
}

/// The phase a session moves to when the command of phase `p` succeeds.
pub open spec fn phase_after_success(p: ExecutePhase) -> ExecutePhase {
    match p {
        ExecutePhase::EnterScratchDir => ExecutePhase::BuildRebuilder,
        ExecutePhase::BuildRebuilder => ExecutePhase::SwitchConfiguration,
        ExecutePhase::SwitchConfiguration => ExecutePhase::ResolveHome,
        ExecutePhase::EnterHomeDir => ExecutePhase::RemoveScratchDir,
        ExecutePhase::RemoveScratchDir => ExecutePhase::Finished,
        _ => p,
    }
}

/// One in-flight execution of an [`ApplyNixDarwin`] action.
///
/// The session owns no process machinery: it hands out one
/// [`ExecuteRequest`] at a time and consumes the driver's [`ExecuteEvent`].
/// Its invariant ties the commands observably run to the planned command
/// list: at every point they are exactly the first `spec_done()` planned
/// commands, and once a step fails the session is terminal, so no later
/// command can ever be requested.
pub struct ExecuteSession {
    flake_ref: String,
    scratch_dir: String,
    home: Option<String>,
    phase: ExecutePhase,
    error: Option<ActionError>,
    done: usize,
    completed: Ghost<Seq<(Seq<char>, Seq<Seq<char>>)>>,
}

impl ExecuteSession {
    /// The flake reference this session applies.
    pub closed spec fn flake(self) -> Seq<char> {
        self.flake_ref@
    }

    /// The scratch directory this session works in.
    pub closed spec fn scratch(self) -> Seq<char> {
        self.scratch_dir@
    }

    /// The home directory, once the driver has resolved it.
    pub closed spec fn spec_home(self) -> Option<Seq<char>> {
        self.home.deep_view()
    }

    pub closed spec fn spec_phase(self) -> ExecutePhase {
        self.phase
    }

    /// How many external commands have run and succeeded.
    pub closed spec fn spec_done(self) -> int {
        self.done as int
    }

    /// The error of the failed step, if one has failed.
    pub closed spec fn spec_error(self) -> Option<ActionError> {
        self.error
    }

    /// The commands that have observably run (and succeeded), in order.
    pub closed spec fn commands_run(self) -> Seq<(Seq<char>, Seq<Seq<char>>)> {
        self.completed@
    }

    /// The home directory's model, or the empty sequence while unresolved.
    /// Only planned commands past the resolution point mention it.
    pub open spec fn home_or_empty(self) -> Seq<char> {
        match self.spec_home() {
            Some(h) => h,
            None => Seq::empty(),
        }
    }

    /// The full ordered command list of one execution.
    pub open spec fn planned(self) -> Seq<(Seq<char>, Seq<Seq<char>>)> {
        seq![
            change_dir_model(self.scratch()),
            build_rebuilder_model(),
            switch_model(self.flake()),
            change_dir_model(self.home_or_empty()),
            remove_dir_model(self.scratch()),
        ]
    }

    /// No further event is accepted in a terminal phase.
    pub open spec fn spec_terminal(self) -> bool {
        self.spec_phase() is Finished || self.spec_phase() is Failed
    }

    /// Whether the pending request is a command (rather than the home query).
    pub open spec fn expects_command(self) -> bool {
        match self.spec_phase() {
            ExecutePhase::EnterScratchDir
            | ExecutePhase::BuildRebuilder
            | ExecutePhase::SwitchConfiguration
            | ExecutePhase::EnterHomeDir
            | ExecutePhase::RemoveScratchDir => true,
            _ => false,
        }
    }

    /// The command about to be requested.
    pub open spec fn current_command(self) -> (Seq<char>, Seq<Seq<char>>) {
        self.planned()[done_of_phase(self.spec_phase())]
    }

    /// Session invariant. Besides tying the phase to the progress counter,
    /// it states the heart of the failure discipline: the commands run are
    /// exactly the planned prefix of length `spec_done()`, an error is held
    /// exactly in the `Failed` phase, and every held error carries this
    /// action's tag and an external-command or missing-home cause.
    pub closed spec fn wf(self) -> bool {
        &&& self.done <= 5
        &&& (self.phase is Failed <==> self.error is Some)
        &&& (!(self.phase is Failed) ==> self.done as int == done_of_phase(self.phase))
        &&& (self.phase is Failed ==> self.done < 5)
        &&& ((self.phase is EnterHomeDir || self.phase is RemoveScratchDir || self.phase
            is Finished) ==> self.home is Some)
        &&& (match self.error {
            Some(e) => {
                &&& e.tag == ActionTag::ApplyNixDarwin
                &&& (e.kind matches ActionErrorKind::ExternalCommandFailed(_) || e.kind
                    is NoHomeDirectory)
            },
            None => true,
        })
        &&& self.completed@ == self.planned().take(self.done as int)
    }

    /// Exec view of `spec_terminal`, for the driver's loop condition.
    pub fn is_terminal(&self) -> (b: bool)
        ensures
            b == self.spec_terminal(),
    {
        match self.phase {
            ExecutePhase::Finished | ExecutePhase::Failed => true,
            _ => false,
        }
    }

    /// Whether a step has failed.
    pub fn has_failed(&self) -> (b: bool)
        ensures
            b == (self.spec_phase() is Failed),
    {
        match self.phase {
            ExecutePhase::Failed => true,
            _ => false,
        }
    }

    /// What the driver must do next. Pure: composing the request runs
    /// nothing; only the driver acting on it touches the host.
    pub fn request(&self) -> (r: ExecuteRequest)
        requires
            self.wf(),
            !self.spec_terminal(),
        ensures
            self.expects_command() ==> (r matches ExecuteRequest::RunCommand(c) && c@
                == self.current_command()),
            !self.expects_command() ==> r is QueryHomeDir,
    {
        match self.phase {
            ExecutePhase::EnterScratchDir => {
                let c = Command {
                    program: String::from_str("cd"),
                    args: args1(self.scratch_dir.clone()),
                };
                proof {
                    assert(c@ =~~= self.current_command());
                }
                ExecuteRequest::RunCommand(c)
            },
            ExecutePhase::BuildRebuilder => {
                let c = Command {
                    program: String::from_str("nix"),
                    args: args2(
                        String::from_str("build"),
                        String::from_str(
                            "github:lnL7/nix-darwin/bcc8afd06e237df060c85bad6af7128e05fd61a3",
                        ),
                    ),
                };
                proof {
                    assert(c@ =~~= self.current_command());
                }
                ExecuteRequest::RunCommand(c)
            },
            ExecutePhase::SwitchConfiguration => {
                let c = Command {
                    program: String::from_str("./result/bin/darwin-rebuild"),
                    args: args3(
                        String::from_str("switch"),
                        String::from_str("--flake"),
                        self.flake_ref.clone(),
                    ),
                };
                proof {
                    assert(c@ =~~= self.current_command());
                }
                ExecuteRequest::RunCommand(c)
            },
            ExecutePhase::ResolveHome => ExecuteRequest::QueryHomeDir,
            ExecutePhase::EnterHomeDir => {
                match &self.home {
                    Some(h) => {
                        let c = Command {
                            program: String::from_str("cd"),
                            args: args1(h.clone()),
                        };
                        proof {
                            assert(c@ =~~= self.current_command());
                        }
                        ExecuteRequest::RunCommand(c)
                    },
                    None => {
                        proof {
                            assert(false);
                        }
                        ExecuteRequest::QueryHomeDir
                    },
                }
            },
            ExecutePhase::RemoveScratchDir => {
                let c = Command {
                    program: String::from_str("rm"),
                    args: args2(String::from_str("-rf"), self.scratch_dir.clone()),
                };
                proof {
                    assert(c@ =~~= self.current_command());
                }
                ExecuteRequest::RunCommand(c)
            },
            ExecutePhase::Finished | ExecutePhase::Failed => {
                proof {
                    assert(false);
                }
                ExecuteRequest::QueryHomeDir
            },
        }
    }

    /// The command that releases the scratch directory after a failure.
    ///
    /// When a step fails, the trailing removal step never runs and the
    /// scratch directory would be orphaned. The driver may run this command
    /// best-effort on the failure path to release the resource explicitly;
    /// it is deliberately not one of the plan's own steps, so a failed
    /// execution's step trace stays exactly the planned prefix.
    pub fn cleanup_request(&self) -> (c: Command)
        requires
            self.spec_phase() is Failed,
        ensures
            c@ == remove_dir_model(self.scratch()),
    {
        let c = Command {
            program: String::from_str("rm"),
            args: args2(String::from_str("-rf"), self.scratch_dir.clone()),
        };
        proof {
            assert(c@ =~~= remove_dir_model(self.scratch()));
        }
        c
    }

    /// Consume the driver's answer to the pending request.
    ///
    /// A successful command moves the session one phase forward and extends
    /// the run prefix by exactly the requested command; a failed command, or
    /// an unresolvable home directory, moves it to `Failed` holding this
    /// action's error, with the run prefix unchanged — the failing step
    /// committed nothing and no later command will be requested.
    pub fn advance(&mut self, event: ExecuteEvent)
        requires
            old(self).wf(),
            !old(self).spec_terminal(),
            event is CommandFinished <==> old(self).expects_command(),
        ensures
            final(self).wf(),
            final(self).flake() == old(self).flake(),
            final(self).scratch() == old(self).scratch(),
            match event {
                ExecuteEvent::CommandFinished(outcome) => match outcome {
                    CommandOutcome::Success => {
                        &&& final(self).spec_phase() == phase_after_success(
                            old(self).spec_phase(),
                        )
                        &&& final(self).spec_done() == old(self).spec_done() + 1
                        &&& final(self).commands_run() == old(self).commands_run().push(
                            old(self).current_command(),
                        )
                        &&& final(self).spec_error() is None
                        &&& final(self).spec_home() == old(self).spec_home()
                    },
                    CommandOutcome::Failed(f) => {
                        &&& final(self).spec_phase() is Failed
                        &&& final(self).spec_error() == Some(command_error(f))
                        &&& final(self).spec_done() == old(self).spec_done()
                        &&& final(self).commands_run() == old(self).commands_run()
                        &&& final(self).spec_home() == old(self).spec_home()
                    },
                },
                ExecuteEvent::HomeDir(h) => match h {
                    Some(hs) => {
                        &&& final(self).spec_phase() is EnterHomeDir
                        &&& final(self).spec_home() == Some(hs@)
                        &&& final(self).spec_done() == old(self).spec_done()
                        &&& final(self).commands_run() == old(self).commands_run()
                        &&& final(self).spec_error() is None
                    },
                    None => {
                        &&& final(self).spec_phase() is Failed
                        &&& final(self).spec_error() == Some(no_home_error())
                        &&& final(self).spec_done() == old(self).spec_done()
                        &&& final(self).commands_run() == old(self).commands_run()
                    },
                },
            },
    {
        let ghost prev = *self;
        match event {
            ExecuteEvent::CommandFinished(outcome) => {
                match outcome {
                    CommandOutcome::Success => {
                        self.phase = next_phase(self.phase);
                        self.done = self.done + 1;
                        self.completed = Ghost(
                            prev.commands_run().push(prev.current_command()),
                        );
                        proof {
                            assert(self.planned() =~~= prev.planned());
                            assert(prev.planned().take(self.done as int) =~~= prev.planned().take(
                                prev.done as int,
                            ).push(prev.planned()[prev.done as int]));
                        }
                    },
                    CommandOutcome::Failed(f) => {
                        self.phase = ExecutePhase::Failed;
                        self.error = Some(
                            ActionError::new(
                                ActionTag::ApplyNixDarwin,
                                ActionErrorKind::ExternalCommandFailed(f),
                            ),
                        );
                        proof {
                            assert(self.planned() =~~= prev.planned());
                        }
                    },
                }
            },
            ExecuteEvent::HomeDir(h) => {
                match h {
                    Some(hs) => {
                        self.home = Some(hs);
                        self.phase = ExecutePhase::EnterHomeDir;
                        proof {
                            assert(self.planned().take(self.done as int) =~~= prev.planned().take(
                                prev.done as int,
                            ));
                        }
                    },
                    None => {
                        self.phase = ExecutePhase::Failed;
                        self.error = Some(
                            ActionError::new(
                                ActionTag::ApplyNixDarwin,
                                ActionErrorKind::NoHomeDirectory,
                            ),
                        );
                        proof {
                            assert(self.planned() =~~= prev.planned());
                        }
                    },
                }
            },
        }
    }
}

/// Exec counterpart of [`phase_after_success`].
fn next_phase(p: ExecutePhase) -> (q: ExecutePhase)
    ensures
        q == phase_after_success(p),
{
    match p {
        ExecutePhase::EnterScratchDir => ExecutePhase::BuildRebuilder,
        ExecutePhase::BuildRebuilder => ExecutePhase::SwitchConfiguration,
        ExecutePhase::SwitchConfiguration => ExecutePhase::ResolveHome,
        ExecutePhase::EnterHomeDir => ExecutePhase::RemoveScratchDir,
        ExecutePhase::RemoveScratchDir => ExecutePhase::Finished,
        ExecutePhase::ResolveHome => ExecutePhase::ResolveHome,
        ExecutePhase::Finished => ExecutePhase::Finished,
        ExecutePhase::Failed => ExecutePhase::Failed,
    }
}

/// One argument vector.
fn args1(a: String) -> (v: Vec<String>)
    ensures
        v.deep_view() == seq![a@],
{
    let mut v: Vec<String> = Vec::new();
    v.push(a);
    proof {
        assert(v.deep_view() =~~= seq![a@]);
    }
    v
}

/// Two-argument vector.
fn args2(a: String, b: String) -> (v: Vec<String>)
    ensures
        v.deep_view() == seq![a@, b@],
{
    let mut v: Vec<String> = Vec::new();
    v.push(a);
    v.push(b);
    proof {
        assert(v.deep_view() =~~= seq![a@, b@]);
    }
    v
}

/// Three-argument vector.
fn args3(a: String, b: String, c: String) -> (v: Vec<String>)
    ensures
        v.deep_view() == seq![a@, b@, c@],
{
    let mut v: Vec<String> = Vec::new();
    v.push(a);
    v.push(b);
    v.push(c);
    proof {
        assert(v.deep_view() =~~= seq![a@, b@, c@]);
    }
    v
}

impl StatefulAction<ApplyNixDarwin> {
    /// Open an execution session for a planned, not-yet-applied action.
    ///
    /// `scratch_dir` is the temporary directory the driver has chosen (the
    /// core does not read the environment itself). Calling this from the
    /// `Completed` state is an orchestrator bug; the checked form is
    /// [`Self::try_begin_execute`].
    pub fn begin_execute(&self, scratch_dir: String) -> (s: ExecuteSession)
        requires
            self.state is Uncompleted,
        ensures
            s.wf(),
            s.spec_phase() is EnterScratchDir,
            s.flake() == self.action@,
            s.scratch() == scratch_dir@,
            s.spec_done() == 0,
            s.commands_run() == Seq::<(Seq<char>, Seq<Seq<char>>)>::empty(),
    {
        let s = ExecuteSession {
            flake_ref: self.action.nix_darwin_flake_ref.clone(),
            scratch_dir,
            home: None,
            phase: ExecutePhase::EnterScratchDir,
            error: None,
            done: 0,
            completed: Ghost(Seq::empty()),
        };
        proof {
            assert(s.planned().take(0) =~~= Seq::<(Seq<char>, Seq<Seq<char>>)>::empty());
        }
        s
    }

    /// Checked form of [`Self::begin_execute`]: executing an already
    /// completed action fails fast with an `InvalidState` error carrying
    /// this action's tag, and touches nothing.
    pub fn try_begin_execute(&self, scratch_dir: String) -> (r: Result<
        ExecuteSession,
        ActionError,
    >)
        ensures
            self.state is Uncompleted ==> (r matches Ok(s) && s.wf() && s.spec_phase()
                is EnterScratchDir && s.flake() == self.action@ && s.scratch() == scratch_dir@
                && s.spec_done() == 0),
            self.state is Completed ==> (r matches Err(e) && e == invalid_state_error(
                ActionState::Completed,
            )),
    {
        match self.state {
            ActionState::Uncompleted => Ok(self.begin_execute(scratch_dir)),
            ActionState::Completed => Err(
                ActionError::new(
                    ActionTag::ApplyNixDarwin,
                    ActionErrorKind::InvalidState(ActionState::Completed),
                ),
            ),
        }
    }

    /// Close a terminal execution session.
    ///
    /// Only a fully finished session marks the wrapper `Completed`; after a
    /// failure the wrapper stays `Uncompleted` — the action did not commit —
    /// and the failing step's error, tagged with this action's identity, is
    /// returned.
    pub fn finish_execute(&mut self, session: ExecuteSession) -> (r: Result<(), ActionError>)
        requires
            old(self).state is Uncompleted,
            session.wf(),
            session.spec_terminal(),
            session.flake() == old(self).action@,
        ensures
            final(self).action == old(self).action,
            session.spec_phase() is Finished ==> (r is Ok && final(self).state is Completed),
            session.spec_phase() is Failed ==> (r matches Err(e) && Some(e)
                == session.spec_error() && e.tag == ActionTag::ApplyNixDarwin && final(self).state
                is Uncompleted),
    {
        match session.error {
            None => {
                self.state = ActionState::Completed;
                Ok(())
            },
            Some(e) => Err(e),
        }
    }

    /// Revert a completed `apply_nix_darwin` action.
    ///
    /// Documented no-op: switching a system profile is not undone by this
    /// action (the correct revert target is the previous profile
    /// generation), so reverting runs no external command, always succeeds,
    /// and only returns the wrapper to `Uncompleted`.
    pub fn revert(&mut self) -> (r: Result<(), ActionError>)
        requires
            old(self).state is Completed,
        ensures
            r is Ok,
            final(self).state is Uncompleted,
            final(self).action == old(self).action,
    {
        self.state = ActionState::Uncompleted;
        Ok(())
    }

    /// Checked form of [`Self::revert`]: reverting an action that never
    /// completed fails fast with an `InvalidState` error carrying this
    /// action's tag, and leaves the wrapper untouched.
    pub fn try_revert(&mut self) -> (r: Result<(), ActionError>)
        ensures
            final(self).action == old(self).action,
            old(self).state is Completed ==> (r is Ok && final(self).state is Uncompleted),
            old(self).state is Uncompleted ==> (r matches Err(e) && e == invalid_state_error(
                ActionState::Uncompleted,
            ) && final(self).state is Uncompleted),
    {
        match self.state {
            ActionState::Completed => self.revert(),
            ActionState::Uncompleted => Err(
                ActionError::new(
                    ActionTag::ApplyNixDarwin,
                    ActionErrorKind::InvalidState(ActionState::Uncompleted),
                ),
            ),
        }
    }

    /// The persisted form of this wrapper: tag, completion flag and the
    /// action's full field set — enough to reload the plan in a later
    /// process run and revert or resume it.
    pub fn to_record(&self) -> (r: PlanRecord)
        ensures
            r.tag == ActionTag::ApplyNixDarwin,
            r.completed == (self.state is Completed),
            r.nix_darwin_flake_ref@ == self.action@,
    {
        PlanRecord {
            tag: ActionTag::ApplyNixDarwin,
            completed: match self.state {
                ActionState::Completed => true,
                ActionState::Uncompleted => false,
            },
            nix_darwin_flake_ref: self.action.nix_darwin_flake_ref.clone(),
        }
    }

    /// Rebuild a wrapper from its persisted record; inverse of
    /// [`Self::to_record`].
    pub fn from_record(r: PlanRecord) -> (s: Self)
        ensures
            s.action@ == r.nix_darwin_flake_ref@,
            (s.state is Completed) == r.completed,
    {
        let action = ApplyNixDarwin { nix_darwin_flake_ref: r.nix_darwin_flake_ref };
        if r.completed {
            StatefulAction::completed(action)
        } else {
            StatefulAction::uncompleted(action)
        }
    }
}

/// On-disk form of a wrapped `apply_nix_darwin` action: the variant's tag,
/// the completion flag, and the action-specific field set.
#[derive(Debug, Clone, PartialEq, Eq)]
pub struct PlanRecord {
    pub tag: ActionTag,
    pub completed: bool,
    pub nix_darwin_flake_ref: String,
}

/// Descriptions are a function of the action's current field values alone:
/// two actions over the same flake reference describe themselves
/// identically, so repeated calls on an unchanged action — which its
/// description methods cannot mutate — always yield the same synopsis, the
/// same dry-run descriptions and the same span.
pub proof fn lemma_descriptions_depend_on_fields_alone(a: ApplyNixDarwin, b: ApplyNixDarwin)
    requires
        a@ == b@,
    ensures
        a.synopsis_spec() == b.synopsis_spec(),
        a.execute_description_spec() == b.execute_description_spec(),
        a.revert_description_spec() == b.revert_description_spec(),
        a.span_spec() == b.span_spec(),
{
    assert(a.execute_description_spec() =~~= b.execute_description_spec());
    assert(a.revert_description_spec() =~~= b.revert_description_spec());
    assert(a.span_spec() =~~= b.span_spec());
}

/// A failed execution ran exactly the planned prefix: the commands
/// observably run are the first `spec_done()` of the planned list, at least
/// one planned command never ran, and the session is terminal, so no later
/// command can be requested — and the failing step's error carries this
/// action's tag.
pub proof fn lemma_failed_execution_ran_prefix(s: ExecuteSession)
    requires
        s.wf(),
        s.spec_phase() is Failed,
    ensures
        s.commands_run() == s.planned().take(s.spec_done()),
        s.spec_done() < 5,
        s.spec_terminal(),
        s.spec_error() matches Some(e) && e.tag == ActionTag::ApplyNixDarwin,
{
}

/// A finished execution ran the whole plan, in order.
pub proof fn lemma_finished_execution_ran_all(s: ExecuteSession)
    requires
        s.wf(),
        s.spec_phase() is Finished,
    ensures
        s.commands_run() == s.planned(),
        s.spec_done() == 5,
{
    assert(s.commands_run() =~~= s.planned());
}

} // verus!
