use stelarc::event::{
    classify, completion_event, CommandUpdate, ExitReport, Mode, Outcome, StreamOrigin,
};

#[test]
fn action_names() {
    assert_eq!(Mode::Compress.action_name(), "la compression");
    assert_eq!(Mode::Extract.action_name(), "l'extraction");
}

#[test]
fn stream_tags() {
    assert_eq!(StreamOrigin::Stdout.tag(), "[stdout] ");
    assert_eq!(StreamOrigin::Stderr.tag(), "[stderr] ");
}

#[test]
fn exit_code_zero_is_success() {
    let outcome = classify(Mode::Compress, &ExitReport::Exited { code: Some(0) });
    assert_eq!(
        outcome,
        Outcome::Success { message: "la compression terminée avec succès".to_string() }
    );
    assert!(outcome.is_success());
    assert_eq!(outcome.message(), "la compression terminée avec succès");
    let outcome = classify(Mode::Extract, &ExitReport::Exited { code: Some(0) });
    assert_eq!(outcome.message(), "l'extraction terminée avec succès");
}

#[test]
fn exit_code_one_is_failure_with_the_code() {
    let outcome = classify(Mode::Compress, &ExitReport::Exited { code: Some(1) });
    assert_eq!(
        outcome,
        Outcome::Failure {
            message: "Erreur lors de la compression (code 1) : voir les lignes [stderr]"
                .to_string(),
            exit_code: Some(1),
            detail_in_log: true,
        }
    );
    assert!(!outcome.is_success());
}

#[test]
fn negative_exit_code_is_failure_with_the_code() {
    let outcome = classify(Mode::Extract, &ExitReport::Exited { code: Some(-3) });
    assert_eq!(
        outcome,
        Outcome::Failure {
            message: "Erreur lors de l'extraction (code -3) : voir les lignes [stderr]"
                .to_string(),
            exit_code: Some(-3),
            detail_in_log: true,
        }
    );
}

#[test]
fn exit_without_code_is_failure() {
    let outcome = classify(Mode::Extract, &ExitReport::Exited { code: None });
    assert_eq!(
        outcome,
        Outcome::Failure {
            message: "Erreur lors de l'extraction : voir les lignes [stderr]".to_string(),
            exit_code: None,
            detail_in_log: true,
        }
    );
}

#[test]
fn wait_failure_carries_the_system_error() {
    let report = ExitReport::WaitFailed { os_error: "No child processes".to_string() };
    assert_eq!(
        classify(Mode::Compress, &report),
        Outcome::Failure {
            message: "Erreur: No child processes".to_string(),
            exit_code: None,
            detail_in_log: false,
        }
    );
}

#[test]
fn spawn_failure_carries_the_system_error() {
    let report = ExitReport::SpawnFailed { os_error: "Permission denied".to_string() };
    assert_eq!(
        classify(Mode::Compress, &report),
        Outcome::Failure {
            message: "Erreur: Permission denied".to_string(),
            exit_code: None,
            detail_in_log: false,
        }
    );
}

#[test]
fn completion_event_wraps_the_outcome() {
    let report = ExitReport::Exited { code: Some(2) };
    let update = completion_event(Mode::Compress, &report);
    assert_eq!(update, CommandUpdate::Completed { outcome: classify(Mode::Compress, &report) });
}
