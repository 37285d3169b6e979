use action_core::action::{Action, ActionErrorKind, ActionState, ActionTag, StatefulAction};
use action_core::apply_nix_darwin::ApplyNixDarwin;

fn planned(flake: &str) -> StatefulAction<ApplyNixDarwin> {
    ApplyNixDarwin::plan(flake.to_string()).expect("planning a non-empty flake ref succeeds")
}

#[test]
fn plan_returns_uncompleted() {
    let sa = planned("example#config");
    assert_eq!(sa.state, ActionState::Uncompleted);
    assert_eq!(sa.state(), ActionState::Uncompleted);
}

#[test]
fn plan_rejects_empty_flake_ref() {
    let e = ApplyNixDarwin::plan(String::new()).expect_err("an empty flake ref is rejected");
    assert_eq!(e.tag, ActionTag::ApplyNixDarwin);
    assert!(matches!(e.kind, ActionErrorKind::PreconditionUnmet(_)));
}

#[test]
fn action_tag_is_apply_nix_darwin() {
    assert_eq!(<ApplyNixDarwin as Action>::action_tag(), ActionTag::ApplyNixDarwin);
    assert_eq!(ActionTag::ApplyNixDarwin.name(), "apply_nix_darwin");
}

#[test]
fn execute_description_names_the_flake_ref() {
    let sa = planned("example#config");
    let d = sa.action().execute_description();
    assert_eq!(d.len(), 1);
    assert_eq!(
        d[0].description,
        "Apply the nix-darwin configuration from the flake ref example#config`"
    );
    assert!(d[0].explanation.is_empty());
}

#[test]
fn descriptions_are_idempotent() {
    let sa = planned("example#config");
    assert_eq!(sa.action().execute_description(), sa.action().execute_description());
    assert_eq!(sa.action().revert_description(), sa.action().revert_description());
    assert_eq!(sa.action().tracing_synopsis(), sa.action().tracing_synopsis());
}

#[test]
fn revert_description_names_the_flake_ref() {
    let sa = planned("other#host");
    let d = sa.action().revert_description();
    assert_eq!(d.len(), 1);
    assert_eq!(d[0].description, "Revert nix-darwin apply for the flake ref other#host");
    assert!(d[0].explanation.is_empty());
}

#[test]
fn tracing_synopsis_names_the_flake_ref() {
    let sa = planned("example#config");
    assert_eq!(
        sa.action().tracing_synopsis(),
        "Apply the nix-darwin configuration from the flake ref example#config`"
    );
}

#[test]
fn tracing_span_carries_the_configuration() {
    let sa = planned("example#config");
    let span = sa.action().tracing_span();
    assert_eq!(span.name, "apply_nix_darwin");
    assert_eq!(span.fields.len(), 1);
    assert_eq!(span.fields[0].key, "nix_darwin_flake_ref");
    assert_eq!(span.fields[0].value, "example#config");
}
