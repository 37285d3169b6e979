//! The action abstraction: identity tags, descriptions, the error taxonomy,
//! and the completion-state wrapper shared by every action variant.

use vstd::prelude::*;

verus! {

/// Identity of an action variant: a short constant name, unique per variant,
/// used for diagnostics and for routing a persisted record back to its
/// variant's decoder.
#[derive(Clone, Copy, Debug, PartialEq, Eq, Structural)]
pub enum ActionTag {
    ApplyNixDarwin,
}

impl ActionTag {
    /// The constant string form of the tag.
    pub open spec fn name_spec(self) -> Seq<char> {
        match self {
            ActionTag::ApplyNixDarwin => "apply_nix_darwin"@,
        }
    }

    /// The constant string form of the tag, for diagnostics and persistence.
    pub fn name(&self) -> (r: String)
        ensures
            r@ == self.name_spec(),
    {
        match self {
            ActionTag::ApplyNixDarwin => String::from_str("apply_nix_darwin"),
        }
    }
}

/// Completion state of a wrapped action.
#[derive(Clone, Copy, Debug, PartialEq, Eq, Structural)]
pub enum ActionState {
    Uncompleted,
    Completed,
}

/// A human-readable synopsis of a step plus the descriptions of its
/// sub-steps, for dry-run rendering and logging. Always derivable from an
/// action's current field values alone, with no side effect.
#[derive(Debug, Clone, PartialEq, Eq)]
pub struct ActionDescription {
    pub description: String,
    pub explanation: Vec<String>,
}

impl DeepView for ActionDescription {
    type V = (Seq<char>, Seq<Seq<char>>);

    open spec fn deep_view(&self) -> Self::V {
        (self.description@, self.explanation.deep_view())
    }
}

impl ActionDescription {
    pub fn new(description: String, explanation: Vec<String>) -> (r: Self)
        ensures
            r.description == description,
            r.explanation == explanation,
    {
        ActionDescription { description, explanation }
    }
}

/// One named configuration value of an action, for structured logging.
#[derive(Debug, Clone, PartialEq, Eq)]
pub struct SpanField {
    pub key: String,
    pub value: String,
}

impl DeepView for SpanField {
    type V = (Seq<char>, Seq<char>);

    open spec fn deep_view(&self) -> Self::V {
        (self.key@, self.value@)
    }
}

/// A structured tracing span for an action: the variant's span name plus its
/// configuration values as named fields. Produced without side effects; a
/// logging backend turns it into whatever span type it uses.
#[derive(Debug, Clone, PartialEq, Eq)]
pub struct ActionSpan {
    pub name: String,
    pub fields: Vec<SpanField>,
}

impl DeepView for ActionSpan {
    type V = (Seq<char>, Seq<(Seq<char>, Seq<char>)>);

    open spec fn deep_view(&self) -> Self::V {
        (self.name@, self.fields.deep_view())
    }
}

/// Why an action failed.
///
/// An open-ended taxonomy: one variant wraps the command executor's failure
/// verbatim, the others name facts the action needed and did not find, or a
/// lifecycle call made out of sequence.
#[derive(Debug, Clone, PartialEq, Eq)]
pub enum ActionErrorKind {
    /// An external command exited non-zero (or was killed); carries the
    /// invocation, exit code and captured output verbatim.
    ExternalCommandFailed(crate::command::CommandFailure),
    /// A fact the action requires of its inputs or of the host was not
    /// established; the message says which.
    PreconditionUnmet(String),
    /// No home directory could be resolved for the current user.
    NoHomeDirectory,
    /// `execute` or `revert` was invoked on a wrapper whose completion state
    /// does not admit that transition; carries the state the wrapper was in.
    InvalidState(ActionState),
}

/// A structured failure: the identity tag of the action that failed plus the
/// typed cause. Every error the core surfaces says *which* action failed and
/// *why* without the message having to be parsed.
#[derive(Debug, Clone, PartialEq, Eq)]
pub struct ActionError {
    pub tag: ActionTag,
    pub kind: ActionErrorKind,
}

impl ActionError {
    pub fn new(tag: ActionTag, kind: ActionErrorKind) -> (r: Self)
        ensures
            r.tag == tag,
            r.kind == kind,
    {
        ActionError { tag, kind }
    }
}

/// An action paired with its completion flag.
///
/// Created `Uncompleted` by an action's `plan`; a successful execution moves
/// it to `Completed`, a successful reversion back to `Uncompleted`. Calling
/// a transition from the wrong state is an orchestrator bug: the transition
/// functions demand the right state as a precondition, and the checked
/// `try_` forms return an `InvalidState` error instead.
///
/// The wrapper is also the unit of persistence: completion flag plus the
/// action's own field set (see the variant's plan-record functions).
#[derive(Debug, Clone, PartialEq, Eq)]
pub struct StatefulAction<A> {
    pub action: A,
    pub state: ActionState,
}

impl<A> StatefulAction<A> {
    /// Wrap a freshly planned action, not yet applied to the host.
    pub fn uncompleted(action: A) -> (r: Self)
        ensures
            r.action == action,
            r.state is Uncompleted,
    {
        StatefulAction { action, state: ActionState::Uncompleted }
    }

    /// Rebuild a wrapper around an action already applied to the host, as
    /// when a persisted plan is reloaded for reversion.
    pub fn completed(action: A) -> (r: Self)
        ensures
            r.action == action,
            r.state is Completed,
    {
        StatefulAction { action, state: ActionState::Completed }
    }

    /// The completion flag, for the orchestrator and for persistence.
    pub fn state(&self) -> (s: ActionState)
        ensures
            s == self.state,
    {
        self.state
    }

    /// The wrapped action value.
    pub fn action(&self) -> (a: &A)
        ensures
            a == &self.action,
    {
        &self.action
    }
}

/// The capability set every action variant implements, apart from execution
/// itself: identity, synopsis, structured span, and side-effect-free
/// descriptions of what executing or reverting would do.
///
/// Each method's result is pinned to a specification function of the
/// action's current field values alone, so descriptions are deterministic —
/// repeated calls yield the same value — and cannot touch host state.
/// Execution and reversion mutate the host, so they are not methods here:
/// they run as request/event sessions against the command-executor boundary
/// (see the variant's session type) driven from outside the verified core.
pub trait Action: Sized {
    /// The tag this variant is known by.
    spec fn tag_spec() -> ActionTag;

    /// The synopsis as a function of the action's fields.
    spec fn synopsis_spec(&self) -> Seq<char>;

    /// The execute-time description as a function of the action's fields.
    spec fn execute_description_spec(&self) -> Seq<(Seq<char>, Seq<Seq<char>>)>;

    /// The revert-time description as a function of the action's fields.
    spec fn revert_description_spec(&self) -> Seq<(Seq<char>, Seq<Seq<char>>)>;

    /// The structured span as a function of the action's fields.
    spec fn span_spec(&self) -> (Seq<char>, Seq<(Seq<char>, Seq<char>)>);

    /// The identity tag of this variant, constant per variant.
    fn action_tag() -> (t: ActionTag)
        ensures
            t == Self::tag_spec(),
    ;

    /// A one-line human-readable synopsis of the step.
    fn tracing_synopsis(&self) -> (r: String)
        ensures
            r@ == self.synopsis_spec(),
    ;

    /// The structured span: variant name plus named configuration values.
    fn tracing_span(&self) -> (r: ActionSpan)
        ensures
            r.deep_view() == self.span_spec(),
    ;

    /// What executing this action would do, safe to call during a dry run.
    fn execute_description(&self) -> (r: Vec<ActionDescription>)
        ensures
            r.deep_view() == self.execute_description_spec(),
    ;

    /// What reverting this action would do, safe to call during a dry run.
    fn revert_description(&self) -> (r: Vec<ActionDescription>)
        ensures
            r.deep_view() == self.revert_description_spec(),
    ;
}

} // verus!
