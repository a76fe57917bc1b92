//! The one-shot compression of the command line: one path is compressed
//! into an archive beside it, and the result is reported in one line.

use crate::command::{LaunchCommand, LaunchCommandView};
use crate::event::{ExitReport, ExitReportView, Mode};
use crate::pump::{decode_lossy, line_text};
use vstd::prelude::*;

verus! {

/// Where a report is printed.
#[derive(Clone, Copy, Debug, PartialEq, Eq, Structural)]
pub enum ReportStream {
    Stdout,
    Stderr,
}

/// The archive that a one-shot compression of `path` writes.
pub open spec fn quick_output_text(path: Seq<char>) -> Seq<char> {
    path + ".arc"@
}

/// The command of a one-shot compression of `path`.
pub open spec fn quick_compress_view(path: Seq<char>) -> LaunchCommandView {
    LaunchCommandView {
        program: ".\\FreeArc\\bin\\arc.exe"@,
        arguments: seq!["a"@, quick_output_text(path), path],
        mode: Mode::Compress,
    }
}

/// The line that reports a one-shot compression, and where it is printed:
/// the archive written on success, what the archiver wrote to its standard
/// error where it ended otherwise, and the system error where it did not
/// run.
pub open spec fn quick_report_text(path: Seq<char>, report: ExitReportView, stderr: Seq<u8>) -> (
    ReportStream,
    Seq<char>,
) {
    match report {
        ExitReportView::Exited { code } => {
            if code == Some(0i32) {
                (ReportStream::Stdout, "Compression réussie : "@ + quick_output_text(path))
            } else {
                (ReportStream::Stderr, "Erreur lors de la compression : "@ + line_text(stderr))
            }
        },
        ExitReportView::WaitFailed { os_error } => (
            ReportStream::Stderr,
            "Erreur lors de l'exécution de la commande : "@ + os_error,
        ),
        ExitReportView::SpawnFailed { os_error } => (
            ReportStream::Stderr,
            "Erreur lors de l'exécution de la commande : "@ + os_error,
        ),
    }
}

/// The archive that a one-shot compression of `path` writes.
pub fn quick_output_path(path: &str) -> (output: String)
    ensures
        output@ == quick_output_text(path@),
{
    let mut output = String::from_str(path);
    output.append(".arc");
    output
}

/// The command of a one-shot compression of `path`.
pub fn quick_compress_command(path: &str) -> (command: LaunchCommand)
    ensures
        command@ == quick_compress_view(path@),
{
    let mut arguments: Vec<String> = Vec::new();
    arguments.push(String::from_str("a"));
    arguments.push(quick_output_path(path));
    arguments.push(String::from_str(path));
    let command = LaunchCommand {
        program: String::from_str(".\\FreeArc\\bin\\arc.exe"),
        arguments,
        mode: Mode::Compress,
    };
    assert(command@.arguments =~= quick_compress_view(path@).arguments);
    command
}

/// The line that reports a one-shot compression, and where it is printed.
pub fn quick_compress_report(path: &str, report: &ExitReport, stderr: &[u8]) -> (answer: (
    ReportStream,
    String,
))
    ensures
        answer.0 == quick_report_text(path@, report@, stderr@).0,
        answer.1@ == quick_report_text(path@, report@, stderr@).1,
{
    match report {
        ExitReport::Exited { code } => {
            match code {
                Some(0) => {
                    let mut text = String::from_str("Compression réussie : ");
                    let output = quick_output_path(path);
                    text.append(output.as_str());
                    (ReportStream::Stdout, text)
                },
                _ => {
                    let mut text = String::from_str("Erreur lors de la compression : ");
                    let detail = decode_lossy(stderr);
                    text.append(detail.as_str());
                    (ReportStream::Stderr, text)
                },
            }
        },
        ExitReport::WaitFailed { os_error } => {
            let mut text = String::from_str("Erreur lors de l'exécution de la commande : ");
            text.append(os_error.as_str());
            (ReportStream::Stderr, text)
        },
        ExitReport::SpawnFailed { os_error } => {
            let mut text = String::from_str("Erreur lors de l'exécution de la commande : ");
            text.append(os_error.as_str());
            (ReportStream::Stderr, text)
        },
    }
}

} // verus!
