//! Core of a declarative installer: discrete, individually revertible steps
//! ("actions"), each with a planning/description/execution/reversion
//! lifecycle, a completion-state wrapper, and a structured error taxonomy.
//!
//! Host mutation happens only through the command-executor boundary: an
//! action's execution is a session that hands requests (commands to run,
//! environment queries) to an unverified driver and consumes the outcomes as
//! events, so the verified core never touches the host itself.

pub mod action;
pub mod apply_nix_darwin;
pub mod command;

pub use action::Action;
pub use action::ActionDescription;
pub use action::ActionError;
pub use action::ActionErrorKind;
pub use action::ActionState;
pub use action::ActionTag;
pub use action::StatefulAction;
pub use apply_nix_darwin::ApplyNixDarwin;
