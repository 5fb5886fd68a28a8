use mzr::outcome::child_exit_code;
use mzr::outcome::classify_wait;
use mzr::outcome::SandboxError;
use mzr::outcome::SandboxOutcome;
use mzr::outcome::WaitErrorKind;
use mzr::outcome::WaitReport;

#[test]
fn exit_code_zero_for_success_one_for_failure() {
    assert_eq!(child_exit_code(&Ok(())), 0);
    assert_eq!(child_exit_code(&Err("disk full".to_string())), 1);
}

#[test]
fn normal_exits_classify_as_outcomes() {
    assert_eq!(
        classify_wait(&WaitReport::Exited(0)),
        Ok(SandboxOutcome::NormalExit(0))
    );
    assert_eq!(
        classify_wait(&WaitReport::Exited(1)),
        Ok(SandboxOutcome::NormalExit(1))
    );
    assert!(classify_wait(&WaitReport::Exited(0)).unwrap().is_success());
    assert!(!classify_wait(&WaitReport::Exited(3)).unwrap().is_success());
}

#[test]
fn signal_death_classifies_as_signaled_not_exit() {
    let verdict = classify_wait(&WaitReport::Signaled(11));
    assert_eq!(verdict, Ok(SandboxOutcome::Signaled(11)));
    assert!(!verdict.unwrap().is_success());
}

#[test]
fn missing_child_classifies_as_no_such_child_error() {
    assert_eq!(
        classify_wait(&WaitReport::NoChild),
        Err(SandboxError::Wait(WaitErrorKind::NoSuchChild))
    );
}

#[test]
fn remaining_wait_reports_classify_as_their_kinds() {
    assert_eq!(
        classify_wait(&WaitReport::Interrupted),
        Err(SandboxError::Wait(WaitErrorKind::Interrupted))
    );
    assert_eq!(
        classify_wait(&WaitReport::InvalidArgument),
        Err(SandboxError::Wait(WaitErrorKind::InvalidArgument))
    );
    assert_eq!(
        classify_wait(&WaitReport::OtherStatus),
        Err(SandboxError::Wait(WaitErrorKind::OtherUnexpected))
    );
    assert_eq!(
        classify_wait(&WaitReport::UnknownError),
        Err(SandboxError::Wait(WaitErrorKind::OtherUnexpected))
    );
}

#[test]
fn error_messages_name_the_failing_phase() {
    assert_eq!(
        SandboxError::Clone.message(),
        "Error while cloning mzr child with unshared user and mount namespaces."
    );
    assert_eq!(
        SandboxError::Synchronization.message(),
        "Error encountered in interprocess communication mechanism."
    );
    assert_eq!(
        SandboxError::PrivilegeMapping.message(),
        "Error encountered while mapping user to root within the child process user namespace."
    );
    assert_eq!(
        SandboxError::Wait(WaitErrorKind::NoSuchChild).message(),
        "Failed to find mzr child after fork."
    );
}
