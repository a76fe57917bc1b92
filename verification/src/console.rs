//! The user-interface side of a job: the log buffer, the job-active flag,
//! the clock and the notification.  A request starts a job here, and the
//! poller moves the state along with the events that the job sends.
//!
//! At most one job is active: while one runs, a new request is refused and
//! changes nothing.  Events are taken only while a job is active, and the
//! terminal event ends it.

use crate::channel::EventChannel;
use crate::command::{
    JobRequest, JobRequestView, LaunchCommand, LaunchCommandView, ValidationError,
    ValidationErrorView, extension_of, file_name_of, path_extension, path_file_name,
    plan_arguments, planned_arguments, source_paths, tool_path, tool_text,
};
use crate::event::{CommandUpdate, Mode, OutcomeView, StreamOrigin, UpdateView, update_views};
use crate::text::{elapsed_label, elapsed_text, join, joined_text, optional_text, texts};
use vstd::prelude::*;

verus! {

/// How long a notification stays visible, in seconds.
pub const NOTIFICATION_SECONDS: u64 = 5;

/// The full scale of a progress value.
pub const PROGRESS_SCALE: u16 = 1000;

/// The weight of a notification.
#[derive(Clone, Copy, Debug, PartialEq, Eq, Structural)]
pub enum NotificationLevel {
    Info,
    Warning,
    Error,
    Success,
}

/// A transient message for the user.
#[derive(Clone, Debug, PartialEq, Eq)]
pub struct Notification {
    pub message: String,
    pub level: NotificationLevel,
    /// The clock reading, in seconds, at which the message was raised.
    pub shown_at: u64,
}

/// The mathematical value of a [`Notification`].
pub struct NotificationView {
    pub message: Seq<char>,
    pub level: NotificationLevel,
    pub shown_at: u64,
}

impl View for Notification {
    type V = NotificationView;

    open spec fn view(&self) -> NotificationView {
        NotificationView { message: self.message@, level: self.level, shown_at: self.shown_at }
    }
}

/// A colour as red, green and blue.
#[derive(Clone, Copy, Debug, PartialEq, Eq, Structural)]
pub struct Rgb {
    pub red: u8,
    pub green: u8,
    pub blue: u8,
}

impl NotificationLevel {
    /// The colours of a notification of this level: of its text and of
    /// its background.
    pub open spec fn palette(self) -> (Rgb, Rgb) {
        match self {
            NotificationLevel::Info => (
                Rgb { red: 255, green: 255, blue: 255 },
                Rgb { red: 66, green: 133, blue: 244 },
            ),
            NotificationLevel::Warning => (
                Rgb { red: 0, green: 0, blue: 0 },
                Rgb { red: 251, green: 188, blue: 4 },
            ),
            NotificationLevel::Error => (
                Rgb { red: 255, green: 255, blue: 255 },
                Rgb { red: 234, green: 67, blue: 53 },
            ),
            NotificationLevel::Success => (
                Rgb { red: 255, green: 255, blue: 255 },
                Rgb { red: 52, green: 168, blue: 83 },
            ),
        }
    }

    /// The colours of a notification of this level: of its text and of
    /// its background.
    pub fn colors(&self) -> (pair: (Rgb, Rgb))
        ensures
            pair == self.palette(),
    {
        match self {
            NotificationLevel::Info => (
                Rgb { red: 255, green: 255, blue: 255 },
                Rgb { red: 66, green: 133, blue: 244 },
            ),
            NotificationLevel::Warning => (
                Rgb { red: 0, green: 0, blue: 0 },
                Rgb { red: 251, green: 188, blue: 4 },
            ),
            NotificationLevel::Error => (
                Rgb { red: 255, green: 255, blue: 255 },
                Rgb { red: 234, green: 67, blue: 53 },
            ),
            NotificationLevel::Success => (
                Rgb { red: 255, green: 255, blue: 255 },
                Rgb { red: 52, green: 168, blue: 83 },
            ),
        }
    }
}

impl NotificationView {
    /// Whether the notification is still to be shown at the clock reading
    /// `now`: for five seconds from the moment it was raised.
    pub open spec fn visible_at(self, now: u64) -> bool {
        now < self.shown_at || now - self.shown_at < NOTIFICATION_SECONDS
    }
}

impl Notification {
    /// Whether the notification is still to be shown at the clock reading
    /// `now`.
    pub fn is_visible(&self, now: u64) -> (visible: bool)
        ensures
            visible == self@.visible_at(now),
    {
        now < self.shown_at || now - self.shown_at < NOTIFICATION_SECONDS
    }
}

/// The mathematical value of a [`JobConsole`].
pub struct ConsoleView {
    /// The log buffer, the oldest line first.
    pub log: Seq<Seq<char>>,
    /// Whether a job is active.
    pub processing: bool,
    /// Whether the log view is asked to show its end.
    pub scroll_to_end: bool,
    /// The last notification raised.
    pub notification: Option<NotificationView>,
    /// The progress of the job, in thousandths.
    pub progress_permille: u16,
    /// The clock reading at which the active job was started.
    pub started_at: Option<u64>,
    /// The seconds that the active job has run, as of the last tick.
    pub elapsed_seconds: u64,
    /// The seconds that the last finished job had run.
    pub last_elapsed_seconds: Option<u64>,
}

/// The line that the log shows for a line of the archiver's output.
pub open spec fn log_entry(origin: StreamOrigin, text: Seq<char>) -> Seq<char> {
    origin.tag_text() + text
}

/// The state after one event.  Without an active job the event is not
/// taken.  A log line is appended, a progress value is kept up to the full
/// scale, and the terminal event ends the job: it raises the notification
/// and freezes the clock.
pub open spec fn apply_update(state: ConsoleView, update: UpdateView, now: u64) -> ConsoleView {
    if !state.processing {
        state
    } else {
        match update {
            UpdateView::LogLine { text, origin } => ConsoleView {
                log: state.log.push(log_entry(origin, text)),
                scroll_to_end: true,
                ..state
            },
            UpdateView::Progress { permille } => ConsoleView {
                progress_permille: if permille > PROGRESS_SCALE {
                    PROGRESS_SCALE
                } else {
                    permille
                },
                ..state
            },
            UpdateView::Completed { outcome } => ConsoleView {
                processing: false,
                scroll_to_end: true,
                notification: Some(
                    NotificationView {
                        message: outcome.message(),
                        level: if outcome is Success {
                            NotificationLevel::Success
                        } else {
                            NotificationLevel::Error
                        },
                        shown_at: now,
                    },
                ),
                started_at: None,
                last_elapsed_seconds: Some(state.elapsed_seconds),
                ..state
            },
        }
    }
}

/// The state after a run of events, taken in order.
pub open spec fn apply_updates(state: ConsoleView, updates: Seq<UpdateView>, now: u64)
    -> ConsoleView
    decreases updates.len(),
{
    if updates.len() == 0 {
        state
    } else {
        apply_update(apply_updates(state, updates.drop_last(), now), updates.last(), now)
    }
}

/// The state with its clock brought up to `now`: an active job shows the
/// seconds since its start, and without a job the clock stands at zero.
pub open spec fn refresh_clock(state: ConsoleView, now: u64) -> ConsoleView {
    if state.processing {
        match state.started_at {
            Some(start) => ConsoleView {
                elapsed_seconds: if now >= start {
                    (now - start) as u64
                } else {
                    0
                },
                ..state
            },
            None => state,
        }
    } else {
        ConsoleView { started_at: None, elapsed_seconds: 0, ..state }
    }
}

/// The state after one tick of the poller that found `updates` waiting.
pub open spec fn after_poll(state: ConsoleView, updates: Seq<UpdateView>, now: u64)
    -> ConsoleView {
    refresh_clock(apply_updates(state, updates, now), now)
}

/// The line that the log shows for a refused request.
pub open spec fn refusal_text(error: ValidationErrorView) -> Seq<char> {
    match error {
        ValidationErrorView::Busy => "Erreur : Une opération est déjà en cours.\n"@,
        ValidationErrorView::ToolMissing => "Erreur : FreeArc n'est pas installé correctement\n"@,
        ValidationErrorView::NoSources =>
            "Erreur : Aucune source sélectionnée pour la compression.\n"@,
        ValidationErrorView::InvalidOutput => "Erreur : Chemin de sortie invalide.\n"@,
        ValidationErrorView::WrongSelectionCount =>
            "Erreur : Veuillez sélectionner une seule archive pour l'extraction.\n"@,
        ValidationErrorView::ArchiveMissing { archive } => "Erreur : L'archive "@ + archive
            + " n'existe pas\n"@,
    }
}

/// The line that announces an accepted request.
pub open spec fn announcement_text(request: JobRequestView) -> Seq<char> {
    match request.mode {
        Mode::Compress => "Compression des fichiers : "@ + joined_text(
            source_paths(request.sources),
            ", "@,
        ) + "\nVers : "@ + request.destination + "\n"@,
        Mode::Extract => "Extraction de l'archive : "@ + joined_text(
            source_paths(request.sources),
            ", "@,
        ) + "\nVers : "@ + request.destination + "\n"@,
    }
}

/// The line that shows the command about to be run.
pub open spec fn launch_text(program: Seq<char>, arguments: Seq<Seq<char>>) -> Seq<char> {
    "Exécution de la commande : "@ + program + " "@ + joined_text(arguments, " "@) + "\n"@
}

/// The answer to a request: a running job refuses it, then a missing
/// archiver does, then the command builder decides.
pub open spec fn checked_request(
    processing: bool,
    tool_installed: bool,
    request: JobRequestView,
    file_name: Option<Seq<char>>,
    extension: Option<Seq<char>>,
) -> Result<Seq<Seq<char>>, ValidationErrorView> {
    if processing {
        Err(ValidationErrorView::Busy)
    } else if !tool_installed {
        Err(ValidationErrorView::ToolMissing)
    } else {
        planned_arguments(request, file_name, extension)
    }
}

/// The state after a request.  A running job leaves everything as it is.
/// Any other refusal leaves its line as the only line of the log.  An
/// accepted request starts the job: the log announces it and shows its
/// command, the job is active and its clock starts at `now`.
pub open spec fn after_submit(
    state: ConsoleView,
    tool_installed: bool,
    windows: bool,
    request: JobRequestView,
    file_name: Option<Seq<char>>,
    extension: Option<Seq<char>>,
    now: u64,
) -> ConsoleView {
    match checked_request(state.processing, tool_installed, request, file_name, extension) {
        Err(ValidationErrorView::Busy) => state,
        Err(error) => ConsoleView { log: seq![refusal_text(error)], ..state },
        Ok(arguments) => ConsoleView {
            log: seq![
                announcement_text(request),
                launch_text(tool_text(windows), arguments),
            ],
            processing: true,
            progress_permille: 0,
            started_at: Some(now),
            elapsed_seconds: 0,
            ..state
        },
    }
}

/// The command that an accepted request launches.
pub open spec fn submitted_command(
    processing: bool,
    tool_installed: bool,
    windows: bool,
    request: JobRequestView,
    file_name: Option<Seq<char>>,
    extension: Option<Seq<char>>,
) -> Result<LaunchCommandView, ValidationErrorView> {
    match checked_request(processing, tool_installed, request, file_name, extension) {
        Ok(arguments) => Ok(
            LaunchCommandView { program: tool_text(windows), arguments, mode: request.mode },
        ),
        Err(error) => Err(error),
    }
}

/// The answer to a request as a mathematical value.
pub open spec fn command_view(answer: Result<LaunchCommand, ValidationError>) -> Result<
    LaunchCommandView,
    ValidationErrorView,
> {
    match answer {
        Ok(command) => Ok(command@),
        Err(error) => Err(error@),
    }
}

impl ValidationError {
    /// The line that the log shows for the refusal.
    pub fn message(&self) -> (text: String)
        ensures
            text@ == refusal_text(self@),
    {
        match self {
            ValidationError::Busy => String::from_str(
                "Erreur : Une opération est déjà en cours.\n",
            ),
            ValidationError::ToolMissing => String::from_str(
                "Erreur : FreeArc n'est pas installé correctement\n",
            ),
            ValidationError::NoSources => String::from_str(
                "Erreur : Aucune source sélectionnée pour la compression.\n",
            ),
            ValidationError::InvalidOutput => String::from_str(
                "Erreur : Chemin de sortie invalide.\n",
            ),
            ValidationError::WrongSelectionCount => String::from_str(
                "Erreur : Veuillez sélectionner une seule archive pour l'extraction.\n",
            ),
            ValidationError::ArchiveMissing { archive } => {
                let mut text = String::from_str("Erreur : L'archive ");
                text.append(archive.as_str());
                text.append(" n'existe pas\n");
                text
            },
        }
    }
}

/// Builds the line that announces an accepted request.
fn announcement(request: &JobRequest) -> (text: String)
    ensures
        text@ == announcement_text(request@),
{
    let mut paths: Vec<String> = Vec::new();
    let mut i: usize = 0;
    while i < request.sources.len()
        invariant
            i <= request.sources.len(),
            texts(paths@) == source_paths(request@.sources).take(i as int),
        decreases request.sources.len() - i,
    {
        let ghost before = texts(paths@);
        paths.push(request.sources[i].path.clone());
        assert(texts(paths@) =~= before.push(request.sources@[i as int].path@));
        i += 1;
    }
    assert(source_paths(request@.sources).take(request.sources.len() as int) =~= source_paths(
        request@.sources,
    ));
    let list = join(&paths, ", ");
    let mut text = match request.mode {
        Mode::Compress => String::from_str("Compression des fichiers : "),
        Mode::Extract => String::from_str("Extraction de l'archive : "),
    };
    text.append(list.as_str());
    text.append("\nVers : ");
    text.append(request.destination.as_str());
    text.append("\n");
    text
}

/// Builds the line that shows the command about to be run.
fn launch_line(program: &str, arguments: &Vec<String>) -> (text: String)
    ensures
        text@ == launch_text(program@, texts(arguments@)),
{
    let list = join(arguments, " ");
    let mut text = String::from_str("Exécution de la commande : ");
    text.append(program);
    text.append(" ");
    text.append(list.as_str());
    text.append("\n");
    text
}

/// The state of the user interface that a job touches.
pub struct JobConsole {
    log_lines: Vec<String>,
    is_processing: bool,
    log_scroll_to_end: bool,
    notification: Option<Notification>,
    progress_permille: u16,
    started_at: Option<u64>,
    elapsed_seconds: u64,
    last_elapsed_seconds: Option<u64>,
}

impl View for JobConsole {
    type V = ConsoleView;

    closed spec fn view(&self) -> ConsoleView {
        ConsoleView {
            log: texts(self.log_lines@),
            processing: self.is_processing,
            scroll_to_end: self.log_scroll_to_end,
            notification: match self.notification {
                Some(notification) => Some(notification@),
                None => None,
            },
            progress_permille: self.progress_permille,
            started_at: self.started_at,
            elapsed_seconds: self.elapsed_seconds,
            last_elapsed_seconds: self.last_elapsed_seconds,
        }
    }
}

impl JobConsole {
    /// The state before any job: an empty log, no job, no notification.
    pub open spec fn initial() -> ConsoleView {
        ConsoleView {
            log: Seq::empty(),
            processing: false,
            scroll_to_end: false,
            notification: None,
            progress_permille: 0,
            started_at: None,
            elapsed_seconds: 0,
            last_elapsed_seconds: None,
        }
    }

    /// A console before any job.
    pub fn new() -> (console: JobConsole)
        ensures
            console@ == Self::initial(),
    {
        let console = JobConsole {
            log_lines: Vec::new(),
            is_processing: false,
            log_scroll_to_end: false,
            notification: None,
            progress_permille: 0,
            started_at: None,
            elapsed_seconds: 0,
            last_elapsed_seconds: None,
        };
        assert(console@.log =~= Seq::<Seq<char>>::empty());
        console
    }

    /// Takes one event at the clock reading `now`.
    pub fn apply(&mut self, update: &CommandUpdate, now: u64)
        ensures
            final(self)@ == apply_update(old(self)@, update@, now),
    {
        if !self.is_processing {
            return ;
        }
        match update {
            CommandUpdate::LogLine { text, origin } => {
                let ghost before = texts(self.log_lines@);
                let mut line = String::from_str(origin.tag());
                line.append(text.as_str());
                self.log_lines.push(line);
                self.log_scroll_to_end = true;
                assert(texts(self.log_lines@) =~= before.push(log_entry(*origin, text@)));
            },
            CommandUpdate::Progress { permille } => {
                self.progress_permille = if *permille > PROGRESS_SCALE {
                    PROGRESS_SCALE
                } else {
                    *permille
                };
            },
            CommandUpdate::Completed { outcome } => {
                let level = if outcome.is_success() {
                    NotificationLevel::Success
                } else {
                    NotificationLevel::Error
                };
                self.notification = Some(
                    Notification {
                        message: String::from_str(outcome.message()),
                        level,
                        shown_at: now,
                    },
                );
                self.is_processing = false;
                self.last_elapsed_seconds = Some(self.elapsed_seconds);
                self.started_at = None;
                self.log_scroll_to_end = true;
            },
        }
    }

    /// Brings the clock up to `now`.
    pub fn tick(&mut self, now: u64)
        ensures
            final(self)@ == refresh_clock(old(self)@, now),
    {
        if self.is_processing {
            match self.started_at {
                Some(start) => {
                    self.elapsed_seconds = if now >= start {
                        now - start
                    } else {
                        0
                    };
                },
                None => {},
            }
        } else {
            self.started_at = None;
            self.elapsed_seconds = 0;
        }
    }

    /// One tick of the poller: takes the events that wait in the channel,
    /// and no others, in order, then brings the clock up to `now`.  It
    /// never waits: with an empty channel only the clock moves.
    pub fn poll(&mut self, channel: &mut EventChannel, now: u64)
        requires
            old(channel).wf(),
        ensures
            final(channel).wf(),
            final(channel).history() == old(channel).history(),
            final(channel).sealed() == old(channel).sealed(),
            final(channel).pending() == Seq::<UpdateView>::empty(),
            final(self)@ == after_poll(old(self)@, old(channel).pending(), now),
    {
        let updates = channel.drain();
        let ghost all = update_views(updates@);
        let ghost start = self@;
        let mut i: usize = 0;
        while i < updates.len()
            invariant
                i <= updates.len(),
                all == update_views(updates@),
                self@ == apply_updates(start, all.take(i as int), now),
            decreases updates.len() - i,
        {
            self.apply(&updates[i], now);
            i += 1;
            assert(all.take(i as int).drop_last() =~= all.take(i - 1));
        }
        assert(all.take(updates.len() as int) =~= all);
        self.tick(now);
    }

    /// Checks a request and, where it is accepted, starts the job; the
    /// file name and the extension of the destination are given.
    pub fn submit_with(
        &mut self,
        request: &JobRequest,
        tool_installed: bool,
        windows: bool,
        file_name: &Option<String>,
        extension: &Option<String>,
        now: u64,
    ) -> (answer: Result<LaunchCommand, ValidationError>)
        ensures
            command_view(answer) == submitted_command(
                old(self)@.processing,
                tool_installed,
                windows,
                request@,
                optional_text(*file_name),
                optional_text(*extension),
            ),
            final(self)@ == after_submit(
                old(self)@,
                tool_installed,
                windows,
                request@,
                optional_text(*file_name),
                optional_text(*extension),
                now,
            ),
    {
        if self.is_processing {
            return Err(ValidationError::Busy);
        }
        let checked = if !tool_installed {
            Err(ValidationError::ToolMissing)
        } else {
            plan_arguments(request, file_name, extension)
        };
        self.log_lines.clear();
        match checked {
            Err(error) => {
                self.log_lines.push(error.message());
                assert(texts(self.log_lines@) =~= seq![refusal_text(error@)]);
                Err(error)
            },
            Ok(arguments) => {
                let program = tool_path(windows);
                self.log_lines.push(announcement(request));
                self.log_lines.push(launch_line(program, &arguments));
                assert(texts(self.log_lines@) =~= seq![
                    announcement_text(request@),
                    launch_text(tool_text(windows), texts(arguments@)),
                ]);
                self.is_processing = true;
                self.progress_permille = 0;
                self.started_at = Some(now);
                self.elapsed_seconds = 0;
                Ok(
                    LaunchCommand {
                        program: String::from_str(program),
                        arguments,
                        mode: request.mode,
                    },
                )
            },
        }
    }

    /// Checks a request and, where it is accepted, starts the job.  The
    /// file name and the extension of the destination are those that the
    /// standard library's path functions give.
    pub fn submit(
        &mut self,
        request: &JobRequest,
        tool_installed: bool,
        windows: bool,
        now: u64,
    ) -> (answer: Result<LaunchCommand, ValidationError>)
        ensures
            command_view(answer) == submitted_command(
                old(self)@.processing,
                tool_installed,
                windows,
                request@,
                path_file_name(request@.destination),
                path_extension(request@.destination),
            ),
            final(self)@ == after_submit(
                old(self)@,
                tool_installed,
                windows,
                request@,
                path_file_name(request@.destination),
                path_extension(request@.destination),
                now,
            ),
    {
        let file_name = file_name_of(request.destination.as_str());
        let extension = extension_of(request.destination.as_str());
        self.submit_with(request, tool_installed, windows, &file_name, &extension, now)
    }

    /// Raises a notification of the application's own at the clock reading
    /// `now`; it takes the place of the last one.
    pub fn notify(&mut self, message: &str, level: NotificationLevel, now: u64)
        ensures
            final(self)@ == (ConsoleView {
                notification: Some(NotificationView { message: message@, level, shown_at: now }),
                ..old(self)@
            }),
    {
        self.notification = Some(
            Notification { message: String::from_str(message), level, shown_at: now },
        );
    }

    /// Adds a line of the application's own to the log.
    pub fn record(&mut self, line: &str)
        ensures
            final(self)@ == (ConsoleView { log: old(self)@.log.push(line@), ..old(self)@ }),
    {
        let ghost before = texts(self.log_lines@);
        self.log_lines.push(String::from_str(line));
        assert(texts(self.log_lines@) =~= before.push(line@));
    }

    /// The log buffer, the oldest line first.
    pub fn log_lines(&self) -> (lines: &Vec<String>)
        ensures
            texts(lines@) == self@.log,
    {
        &self.log_lines
    }

    /// Whether a job is active.
    pub fn is_processing(&self) -> (active: bool)
        ensures
            active == self@.processing,
    {
        self.is_processing
    }

    /// The last notification raised, if any.
    pub fn notification(&self) -> (notification: &Option<Notification>)
        ensures
            match *notification {
                Some(n) => self@.notification == Some(n@),
                None => self@.notification is None,
            },
    {
        &self.notification
    }

    /// The progress of the job, in thousandths.
    pub fn progress_permille(&self) -> (permille: u16)
        ensures
            permille == self@.progress_permille,
    {
        self.progress_permille
    }

    /// The seconds that the active job has run, as of the last tick.
    pub fn elapsed_seconds(&self) -> (seconds: u64)
        ensures
            seconds == self@.elapsed_seconds,
    {
        self.elapsed_seconds
    }

    /// The clock of the active job as a clock reading.
    pub fn elapsed_time(&self) -> (text: String)
        ensures
            text@ == elapsed_text(self@.elapsed_seconds as nat),
    {
        elapsed_label(self.elapsed_seconds)
    }

    /// The frozen clock of the last finished job, if there was one.
    pub fn last_elapsed_time(&self) -> (text: Option<String>)
        ensures
            optional_text(text) == match self@.last_elapsed_seconds {
                Some(seconds) => Some(elapsed_text(seconds as nat)),
                None => None,
            },
    {
        match self.last_elapsed_seconds {
            Some(seconds) => Some(elapsed_label(seconds)),
            None => None,
        }
    }

    /// Whether the log view is asked to show its end; the request is
    /// withdrawn by asking.
    pub fn take_scroll_request(&mut self) -> (asked: bool)
        ensures
            asked == old(self)@.scroll_to_end,
            final(self)@ == (ConsoleView { scroll_to_end: false, ..old(self)@ }),
    {
        let asked = self.log_scroll_to_end;
        self.log_scroll_to_end = false;
        asked
    }
}

} // verus!
