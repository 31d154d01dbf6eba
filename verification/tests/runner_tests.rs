use goofy::runner::{interpret_spawn, RunOutcome};

#[test]
fn exit_code_seven_is_reported_as_seven() {
    assert_eq!(interpret_spawn(true, Some(7)), RunOutcome::Exited { exit_code: 7 });
}

#[test]
fn zero_exit_code_is_a_normal_outcome() {
    assert_eq!(interpret_spawn(true, Some(0)), RunOutcome::Exited { exit_code: 0 });
}

#[test]
fn spawn_failure_is_distinct_from_any_exit_code() {
    let r = interpret_spawn(false, None);
    assert_eq!(r, RunOutcome::SpawnError);
    assert_ne!(r, RunOutcome::Exited { exit_code: 1 });
    assert_ne!(r, RunOutcome::Exited { exit_code: 0 });
}
