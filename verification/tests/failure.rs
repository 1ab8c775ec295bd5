use shell_bootstrap::failure::{abort_message, failure_message};

#[test]
fn diagnostic_is_fixed() {
    assert_eq!(failure_message(), "error while running tauri application");
    assert_eq!(failure_message().len(), 37);
}

#[test]
fn clean_run_aborts_nothing() {
    let outcome: Result<(), String> = Ok(());
    assert_eq!(abort_message(&outcome), None);
}

#[test]
fn failed_start_aborts_with_the_diagnostic() {
    let outcome: Result<(), String> = Err(String::from("no display"));
    assert_eq!(
        abort_message(&outcome),
        Some("error while running tauri application")
    );
}

#[test]
fn error_plays_no_part_in_the_diagnostic() {
    let first: Result<(), String> = Err(String::from("no display"));
    let second: Result<(), String> = Err(String::new());
    let third: Result<(), u32> = Err(7);
    assert_eq!(abort_message(&first), abort_message(&second));
    assert_eq!(abort_message(&first), abort_message(&third));
    assert_eq!(abort_message(&third), Some(failure_message()));
}

#[test]
fn outcome_is_left_to_the_caller() {
    let outcome: Result<(), String> = Err(String::from("no display"));
    let message = abort_message(&outcome);
    assert!(message.is_some());
    assert_eq!(outcome, Err(String::from("no display")));
}
