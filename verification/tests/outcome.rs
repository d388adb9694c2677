use kubevirt_actions_runner::error::{exit_code, RunError};
use kubevirt_actions_runner::outcome::VmiOutcome;

#[test]
fn only_success_is_normal() {
    assert!(!VmiOutcome::Succeeded.is_abnormal());
    assert!(VmiOutcome::Failed.is_abnormal());
    assert!(VmiOutcome::Deleted.is_abnormal());
    assert!(VmiOutcome::WatchInterrupted.is_abnormal());
}

#[test]
fn exit_code_is_zero_only_for_success() {
    assert_eq!(VmiOutcome::Succeeded.exit_code(), 0);
    assert_eq!(VmiOutcome::Failed.exit_code(), 1);
    assert_eq!(VmiOutcome::Deleted.exit_code(), 1);
    assert_eq!(VmiOutcome::WatchInterrupted.exit_code(), 1);
}

#[test]
fn outcome_names_are_those_of_debug() {
    for outcome in [
        VmiOutcome::Succeeded,
        VmiOutcome::Failed,
        VmiOutcome::Deleted,
        VmiOutcome::WatchInterrupted,
    ] {
        assert_eq!(outcome.name(), format!("{:?}", outcome));
    }
}

#[test]
fn success_maps_to_ok() {
    assert!(matches!(VmiOutcome::Succeeded.into_result(), Ok(())));
    assert_eq!(exit_code(&VmiOutcome::Succeeded.into_result()), 0);
}

#[test]
fn abnormal_outcomes_map_to_failures_that_carry_them() {
    for outcome in [VmiOutcome::Failed, VmiOutcome::Deleted, VmiOutcome::WatchInterrupted] {
        let result = outcome.into_result();
        match &result {
            Err(RunError::AbnormalOutcome(carried)) => assert_eq!(*carried, outcome),
            other => panic!("unexpected: {:?}", other),
        }
        assert_eq!(exit_code(&result), 1);
    }
}

#[test]
fn deletion_counts_as_abnormal() {
    let result = VmiOutcome::Deleted.into_result();
    assert_eq!(result.unwrap_err().message(), "VMI outcome: Deleted");
}

#[test]
fn run_error_messages() {
    assert_eq!(RunError::AbnormalOutcome(VmiOutcome::Failed).message(), "VMI outcome: Failed");
    assert_eq!(
        RunError::AbnormalOutcome(VmiOutcome::WatchInterrupted).message(),
        "VMI outcome: WatchInterrupted"
    );
    assert_eq!(RunError::Api("connection refused".to_string()).message(), "connection refused");
    assert_eq!(
        RunError::Configuration(kubevirt_actions_runner::error::ConfigError::TokenMissing).message(),
        "A token is required"
    );
    assert_eq!(
        RunError::Discovery("VirtualMachine".to_string()).message(),
        "The kubevirt.io API group doesn't have the VirtualMachine type"
    );
    assert_eq!(
        RunError::UnexpectedEvent.message(),
        "An event came that answers nothing that was asked"
    );
}

#[test]
fn serialize_error_message_is_that_of_serde_json() {
    let error = serde_json::from_str::<serde_json::Value>("{").unwrap_err();
    let text = error.to_string();
    assert_eq!(RunError::Serialize(error).message(), text);
}

#[test]
fn every_failure_exits_with_one() {
    assert_eq!(exit_code(&Err(RunError::UnexpectedEvent)), 1);
    assert_eq!(exit_code(&Err(RunError::Api(String::new()))), 1);
    assert_eq!(exit_code(&Ok(())), 0);
}
