//! The events that a running job sends to the user interface, and the
//! classification of the way the archiver process ended.

use crate::text::{signed_decimal, signed_decimal_text};
use vstd::prelude::*;

verus! {

/// What a job does with the archiver.
#[derive(Clone, Copy, Debug, PartialEq, Eq, Structural)]
pub enum Mode {
    Compress,
    Extract,
}

/// The output stream that a log line was read from.
#[derive(Clone, Copy, Debug, PartialEq, Eq, Structural)]
pub enum StreamOrigin {
    Stdout,
    Stderr,
}

/// How a job ended.
#[derive(Clone, Debug, PartialEq, Eq)]
pub enum Outcome {
    Success { message: String },
    Failure {
        message: String,
        /// The exit code, where the process ended with one other than zero.
        exit_code: Option<i32>,
        /// Whether the error lines already delivered hold the detail.
        detail_in_log: bool,
    },
}

/// One event of a running job.
#[derive(Clone, Debug, PartialEq, Eq)]
pub enum CommandUpdate {
    LogLine { text: String, origin: StreamOrigin },
    /// Progress in thousandths of the whole job.
    Progress { permille: u16 },
    Completed { outcome: Outcome },
}

/// What became of the archiver process.
#[derive(Clone, Debug, PartialEq, Eq)]
pub enum ExitReport {
    /// The process ran and ended; `code` is `None` where the system gave none.
    Exited { code: Option<i32> },
    /// Waiting for the process failed with this system error.
    WaitFailed { os_error: String },
    /// The process could not be started, with this system error.
    SpawnFailed { os_error: String },
}

/// The mathematical value of an [`Outcome`].
pub enum OutcomeView {
    Success { message: Seq<char> },
    Failure { message: Seq<char>, exit_code: Option<i32>, detail_in_log: bool },
}

/// The mathematical value of a [`CommandUpdate`].
pub enum UpdateView {
    LogLine { text: Seq<char>, origin: StreamOrigin },
    Progress { permille: u16 },
    Completed { outcome: OutcomeView },
}

/// The mathematical value of an [`ExitReport`].
pub enum ExitReportView {
    Exited { code: Option<i32> },
    WaitFailed { os_error: Seq<char> },
    SpawnFailed { os_error: Seq<char> },
}

impl View for Outcome {
    type V = OutcomeView;

    open spec fn view(&self) -> OutcomeView {
        match self {
            Outcome::Success { message } => OutcomeView::Success { message: message@ },
            Outcome::Failure { message, exit_code, detail_in_log } => OutcomeView::Failure {
                message: message@,
                exit_code: *exit_code,
                detail_in_log: *detail_in_log,
            },
        }
    }
}

impl View for CommandUpdate {
    type V = UpdateView;

    open spec fn view(&self) -> UpdateView {
        match self {
            CommandUpdate::LogLine { text, origin } => UpdateView::LogLine {
                text: text@,
                origin: *origin,
            },
            CommandUpdate::Progress { permille } => UpdateView::Progress { permille: *permille },
            CommandUpdate::Completed { outcome } => UpdateView::Completed { outcome: outcome@ },
        }
    }
}

impl View for ExitReport {
    type V = ExitReportView;

    open spec fn view(&self) -> ExitReportView {
        match self {
            ExitReport::Exited { code } => ExitReportView::Exited { code: *code },
            ExitReport::WaitFailed { os_error } => ExitReportView::WaitFailed {
                os_error: os_error@,
            },
            ExitReport::SpawnFailed { os_error } => ExitReportView::SpawnFailed {
                os_error: os_error@,
            },
        }
    }
}

/// The values of a list of events, in order.
pub open spec fn update_views(updates: Seq<CommandUpdate>) -> Seq<UpdateView> {
    Seq::new(updates.len(), |i: int| updates[i]@)
}

impl Mode {
    /// The name of the action in messages.
    pub open spec fn action_text(self) -> Seq<char> {
        match self {
            Mode::Compress => "la compression"@,
            Mode::Extract => "l'extraction"@,
        }
    }

    /// The name of the action in messages.
    pub fn action_name(&self) -> (name: &'static str)
        ensures
            name@ == self.action_text(),
    {
        match self {
            Mode::Compress => "la compression",
            Mode::Extract => "l'extraction",
        }
    }
}

impl StreamOrigin {
    /// The tag that a log line of this stream starts with.
    pub open spec fn tag_text(self) -> Seq<char> {
        match self {
            StreamOrigin::Stdout => "[stdout] "@,
            StreamOrigin::Stderr => "[stderr] "@,
        }
    }

    /// The tag that a log line of this stream starts with.
    pub fn tag(&self) -> (tag: &'static str)
        ensures
            tag@ == self.tag_text(),
    {
        match self {
            StreamOrigin::Stdout => "[stdout] ",
            StreamOrigin::Stderr => "[stderr] ",
        }
    }
}

/// The message of a job that ended with exit code zero.
pub open spec fn success_text(mode: Mode) -> Seq<char> {
    mode.action_text() + " terminée avec succès"@
}

/// The message of a job whose process ended otherwise than with exit code
/// zero: it names the action, the exit code where there is one, and the
/// place of the detail.
pub open spec fn exit_failure_text(mode: Mode, code: Option<i32>) -> Seq<char> {
    let head = "Erreur lors de "@ + mode.action_text();
    let middle = match code {
        Some(c) => head + " (code "@ + signed_decimal_text(c as int) + ")"@,
        None => head,
    };
    middle + " : voir les lignes [stderr]"@
}

/// The message of a job that failed with a system error.
pub open spec fn system_failure_text(os_error: Seq<char>) -> Seq<char> {
    "Erreur: "@ + os_error
}

/// The outcome that an exit report stands for: success for exit code zero
/// and for nothing else.
pub open spec fn outcome_of(mode: Mode, report: ExitReportView) -> OutcomeView {
    match report {
        ExitReportView::Exited { code } => {
            if code == Some(0i32) {
                OutcomeView::Success { message: success_text(mode) }
            } else {
                OutcomeView::Failure {
                    message: exit_failure_text(mode, code),
                    exit_code: code,
                    detail_in_log: true,
                }
            }
        },
        ExitReportView::WaitFailed { os_error } => OutcomeView::Failure {
            message: system_failure_text(os_error),
            exit_code: None,
            detail_in_log: false,
        },
        ExitReportView::SpawnFailed { os_error } => OutcomeView::Failure {
            message: system_failure_text(os_error),
            exit_code: None,
            detail_in_log: false,
        },
    }
}

impl OutcomeView {
    /// The message of the outcome.
    pub open spec fn message(self) -> Seq<char> {
        match self {
            OutcomeView::Success { message } => message,
            OutcomeView::Failure { message, .. } => message,
        }
    }
}

impl Outcome {
    /// Whether the job succeeded.
    pub fn is_success(&self) -> (yes: bool)
        ensures
            yes == (self@ is Success),
    {
        match self {
            Outcome::Success { .. } => true,
            Outcome::Failure { .. } => false,
        }
    }

    /// The message of the outcome.
    pub fn message(&self) -> (text: &str)
        ensures
            text@ == self@.message(),
    {
        match self {
            Outcome::Success { message } => message.as_str(),
            Outcome::Failure { message, .. } => message.as_str(),
        }
    }
}

/// Builds the message of a failed system call.
fn system_failure_message(os_error: &String) -> (message: String)
    ensures
        message@ == system_failure_text(os_error@),
{
    let mut message = String::from_str("Erreur: ");
    message.append(os_error.as_str());
    message
}

/// Classifies the end of the archiver process.
pub fn classify(mode: Mode, report: &ExitReport) -> (outcome: Outcome)
    ensures
        outcome@ == outcome_of(mode, report@),
{
    match report {
        ExitReport::Exited { code } => {
            match code {
                Some(0) => {
                    let mut message = String::from_str(mode.action_name());
                    message.append(" terminée avec succès");
                    Outcome::Success { message }
                },
                Some(c) => {
                    let mut message = String::from_str("Erreur lors de ");
                    message.append(mode.action_name());
                    message.append(" (code ");
                    let digits = signed_decimal(*c);
                    message.append(digits.as_str());
                    message.append(")");
                    message.append(" : voir les lignes [stderr]");
                    Outcome::Failure { message, exit_code: Some(*c), detail_in_log: true }
                },
                None => {
                    let mut message = String::from_str("Erreur lors de ");
                    message.append(mode.action_name());
                    message.append(" : voir les lignes [stderr]");
                    Outcome::Failure { message, exit_code: None, detail_in_log: true }
                },
            }
        },
        ExitReport::WaitFailed { os_error } => Outcome::Failure {
            message: system_failure_message(os_error),
            exit_code: None,
            detail_in_log: false,
        },
        ExitReport::SpawnFailed { os_error } => Outcome::Failure {
            message: system_failure_message(os_error),
            exit_code: None,
            detail_in_log: false,
        },
    }
}

/// The terminal event of a job whose process ended as `report` says.
pub fn completion_event(mode: Mode, report: &ExitReport) -> (update: CommandUpdate)
    ensures
        update@ == (UpdateView::Completed { outcome: outcome_of(mode, report@) }),
{
    CommandUpdate::Completed { outcome: classify(mode, report) }
}

/// A job succeeds exactly when its process ended with exit code zero, and
/// a failure carries the exit code exactly when the process ended with one.
pub proof fn lemma_success_iff_exit_zero(mode: Mode, report: ExitReportView)
    ensures
        outcome_of(mode, report) is Success <==> report == (ExitReportView::Exited {
            code: Some(0i32),
        }),
        outcome_of(mode, report) matches OutcomeView::Failure { exit_code, detail_in_log, .. }
            ==> detail_in_log == (report is Exited) && exit_code == match report {
                ExitReportView::Exited { code } => code,
                _ => None,
            },
{
}

} // verus!
