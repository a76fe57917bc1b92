use stelarc::event::{ExitReport, Mode};
use stelarc::oneshot::{
    quick_compress_command, quick_compress_report, quick_output_path, ReportStream,
};

#[test]
fn quick_output_is_beside_the_path() {
    assert_eq!(quick_output_path("C:\\data\\photos"), "C:\\data\\photos.arc");
    assert_eq!(quick_output_path(""), ".arc");
}

#[test]
fn quick_compress_command_is_exact() {
    let command = quick_compress_command("photos");
    assert_eq!(command.program, ".\\FreeArc\\bin\\arc.exe");
    assert_eq!(command.arguments, vec!["a", "photos.arc", "photos"]);
    assert_eq!(command.mode, Mode::Compress);
}

#[test]
fn quick_report_of_success_names_the_archive() {
    assert_eq!(
        quick_compress_report("photos", &ExitReport::Exited { code: Some(0) }, b"ignored"),
        (ReportStream::Stdout, "Compression réussie : photos.arc".to_string())
    );
}

#[test]
fn quick_report_of_failure_shows_standard_error() {
    assert_eq!(
        quick_compress_report("photos", &ExitReport::Exited { code: Some(2) }, b"disk full\n"),
        (ReportStream::Stderr, "Erreur lors de la compression : disk full\n".to_string())
    );
    assert_eq!(
        quick_compress_report("photos", &ExitReport::Exited { code: None }, b"\xff"),
        (ReportStream::Stderr, "Erreur lors de la compression : \u{fffd}".to_string())
    );
}

#[test]
fn quick_report_of_a_command_that_did_not_run() {
    let expected = (
        ReportStream::Stderr,
        "Erreur lors de l'exécution de la commande : not found".to_string(),
    );
    assert_eq!(
        quick_compress_report(
            "photos",
            &ExitReport::SpawnFailed { os_error: "not found".to_string() },
            b""
        ),
        expected
    );
    assert_eq!(
        quick_compress_report(
            "photos",
            &ExitReport::WaitFailed { os_error: "not found".to_string() },
            b""
        ),
        expected
    );
}
