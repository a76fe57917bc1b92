use stelarc::channel::EventChannel;
use stelarc::command::{JobRequest, Source, ValidationError};
use stelarc::console::{JobConsole, Notification, NotificationLevel, Rgb};
use stelarc::event::{completion_event, CommandUpdate, ExitReport, Mode, Outcome, StreamOrigin};
use stelarc::preset::CompressionPreset;
use stelarc::pump::pump_all;

fn compress_job() -> JobRequest {
    JobRequest {
        mode: Mode::Compress,
        sources: vec![
            Source { path: "docs".to_string(), on_disk: true },
            Source { path: "notes.txt".to_string(), on_disk: true },
        ],
        destination: "out/archive.arc".to_string(),
        preset: CompressionPreset::Normal,
    }
}

fn extract_job(on_disk: bool) -> JobRequest {
    JobRequest {
        mode: Mode::Extract,
        sources: vec![Source { path: "backup.arc".to_string(), on_disk }],
        destination: "restored".to_string(),
        preset: CompressionPreset::Normal,
    }
}

fn running_console(now: u64) -> JobConsole {
    let mut console = JobConsole::new();
    console.submit(&compress_job(), true, false, now).unwrap();
    console
}

fn log_of(console: &JobConsole) -> Vec<String> {
    console.log_lines().clone()
}

#[test]
fn new_console_is_idle() {
    let console = JobConsole::new();
    assert!(!console.is_processing());
    assert!(console.log_lines().is_empty());
    assert_eq!(console.notification(), &None);
    assert_eq!(console.progress_permille(), 0);
    assert_eq!(console.elapsed_seconds(), 0);
    assert_eq!(console.elapsed_time(), "00:00:00");
    assert_eq!(console.last_elapsed_time(), None);
}

#[test]
fn accepted_compress_request_starts_the_job() {
    let mut console = JobConsole::new();
    console.record("old line");
    let command = console.submit(&compress_job(), true, false, 100).unwrap();
    assert_eq!(command.program, "./FreeArc/bin/arc");
    assert_eq!(command.arguments, vec!["a", "out/archive.arc", "docs", "notes.txt", "-m4"]);
    assert_eq!(command.mode, Mode::Compress);
    assert!(console.is_processing());
    assert_eq!(
        log_of(&console),
        vec![
            "Compression des fichiers : docs, notes.txt\nVers : out/archive.arc\n",
            "Exécution de la commande : ./FreeArc/bin/arc a out/archive.arc docs notes.txt -m4\n",
        ]
    );
    assert_eq!(console.elapsed_time(), "00:00:00");
}

#[test]
fn accepted_extract_request_starts_the_job() {
    let mut console = JobConsole::new();
    let command = console.submit(&extract_job(true), true, true, 5).unwrap();
    assert_eq!(command.program, ".\\FreeArc\\arc.exe");
    assert_eq!(command.arguments, vec!["x", "backup.arc", "-dprestored", "-o+", "-y"]);
    assert_eq!(command.mode, Mode::Extract);
    assert!(console.is_processing());
    assert_eq!(
        log_of(&console),
        vec![
            "Extraction de l'archive : backup.arc\nVers : restored\n",
            "Exécution de la commande : .\\FreeArc\\arc.exe x backup.arc -dprestored -o+ -y\n",
        ]
    );
}

#[test]
fn missing_tool_is_refused_first() {
    let mut console = JobConsole::new();
    console.record("old line");
    let mut request = compress_job();
    request.sources.clear();
    assert_eq!(console.submit(&request, false, false, 1), Err(ValidationError::ToolMissing));
    assert!(!console.is_processing());
    assert_eq!(log_of(&console), vec!["Erreur : FreeArc n'est pas installé correctement\n"]);
}

#[test]
fn compress_with_empty_source_set_starts_nothing() {
    let mut console = JobConsole::new();
    let mut request = compress_job();
    request.sources.clear();
    assert_eq!(console.submit(&request, true, false, 1), Err(ValidationError::NoSources));
    assert!(!console.is_processing());
    assert_eq!(
        log_of(&console),
        vec!["Erreur : Aucune source sélectionnée pour la compression.\n"]
    );
    assert_eq!(console.notification(), &None);
}

#[test]
fn compress_with_invalid_output_starts_nothing() {
    let mut console = JobConsole::new();
    let mut request = compress_job();
    request.destination = "..".to_string();
    assert_eq!(console.submit(&request, true, false, 1), Err(ValidationError::InvalidOutput));
    assert!(!console.is_processing());
    assert_eq!(log_of(&console), vec!["Erreur : Chemin de sortie invalide.\n"]);
}

#[test]
fn extract_with_wrong_selection_count_starts_nothing() {
    let mut console = JobConsole::new();
    let mut request = extract_job(true);
    request.sources.push(Source { path: "second.arc".to_string(), on_disk: true });
    assert_eq!(
        console.submit(&request, true, false, 1),
        Err(ValidationError::WrongSelectionCount)
    );
    assert!(!console.is_processing());
    assert_eq!(
        log_of(&console),
        vec!["Erreur : Veuillez sélectionner une seule archive pour l'extraction.\n"]
    );
}

#[test]
fn extract_of_missing_archive_starts_nothing() {
    let mut console = JobConsole::new();
    assert_eq!(
        console.submit(&extract_job(false), true, false, 1),
        Err(ValidationError::ArchiveMissing { archive: "backup.arc".to_string() })
    );
    assert!(!console.is_processing());
    assert_eq!(log_of(&console), vec!["Erreur : L'archive backup.arc n'existe pas\n"]);
}

#[test]
fn refusal_messages() {
    assert_eq!(
        ValidationError::Busy.message(),
        "Erreur : Une opération est déjà en cours.\n"
    );
    assert_eq!(
        ValidationError::ArchiveMissing { archive: "x y.arc".to_string() }.message(),
        "Erreur : L'archive x y.arc n'existe pas\n"
    );
}

#[test]
fn second_request_while_active_is_refused_and_changes_nothing() {
    let mut console = running_console(10);
    console.apply(
        &CommandUpdate::LogLine { text: "working".to_string(), origin: StreamOrigin::Stdout },
        11,
    );
    let before = log_of(&console);
    assert_eq!(console.submit(&extract_job(true), true, false, 12), Err(ValidationError::Busy));
    assert_eq!(console.submit(&compress_job(), false, false, 12), Err(ValidationError::Busy));
    assert!(console.is_processing());
    assert_eq!(log_of(&console), before);
    console.tick(20);
    assert_eq!(console.elapsed_seconds(), 10);
}

#[test]
fn a_new_request_is_accepted_after_the_job_ended() {
    let mut console = running_console(10);
    console.apply(&completion_event(Mode::Compress, &ExitReport::Exited { code: Some(0) }), 15);
    assert!(!console.is_processing());
    assert!(console.submit(&extract_job(true), true, false, 20).is_ok());
    assert!(console.is_processing());
}

#[test]
fn successful_job_with_interleaved_output() {
    let stdout = pump_all(StreamOrigin::Stdout, b"o1\no2\no3\n");
    let stderr = pump_all(StreamOrigin::Stderr, b"e1\ne2");
    assert_eq!(stdout.len(), 3);
    assert_eq!(stderr.len(), 2);
    let orders: [[usize; 5]; 4] =
        [[0, 0, 0, 1, 1], [1, 1, 0, 0, 0], [0, 1, 0, 1, 0], [1, 0, 0, 1, 0]];
    for order in orders.iter() {
        let mut console = running_console(0);
        let started_with = console.log_lines().len();
        let mut channel = EventChannel::new();
        let mut next = [0usize, 0usize];
        let mut expected: Vec<String> = Vec::new();
        for which in order.iter() {
            let update =
                if *which == 0 { stdout[next[0]].clone() } else { stderr[next[1]].clone() };
            next[*which] += 1;
            if let CommandUpdate::LogLine { text, origin } = &update {
                expected.push(format!("{}{}", origin.tag(), text));
            }
            assert!(channel.send(update));
        }
        assert!(channel.send(completion_event(
            Mode::Compress,
            &ExitReport::Exited { code: Some(0) }
        )));
        console.poll(&mut channel, 42);
        let log = log_of(&console);
        assert_eq!(log.len(), started_with + 3 + 2);
        assert_eq!(&log[started_with..], &expected[..]);
        assert!(!console.is_processing());
        assert_eq!(
            console.notification(),
            &Some(Notification {
                message: "la compression terminée avec succès".to_string(),
                level: NotificationLevel::Success,
                shown_at: 42,
            })
        );
        assert!(channel.is_empty());
        assert!(!channel.send(stdout[0].clone()));
    }
}

#[test]
fn lines_of_each_stream_keep_their_order() {
    let mut console = running_console(0);
    let mut channel = EventChannel::new();
    for update in pump_all(StreamOrigin::Stdout, b"a\nb\n") {
        channel.send(update);
    }
    console.poll(&mut channel, 1);
    for update in pump_all(StreamOrigin::Stderr, b"x\n") {
        channel.send(update);
    }
    console.poll(&mut channel, 2);
    let log = log_of(&console);
    assert_eq!(&log[2..], &["[stdout] a", "[stdout] b", "[stderr] x"]);
    assert!(console.is_processing());
}

#[test]
fn job_that_exits_with_code_one_fails_once() {
    let mut console = running_console(0);
    let mut channel = EventChannel::new();
    channel.send(CommandUpdate::LogLine {
        text: "cannot open".to_string(),
        origin: StreamOrigin::Stderr,
    });
    let done = completion_event(Mode::Compress, &ExitReport::Exited { code: Some(1) });
    assert!(channel.send(done.clone()));
    assert!(!channel.send(done.clone()));
    console.poll(&mut channel, 7);
    assert!(!console.is_processing());
    let expected = Some(Notification {
        message: "Erreur lors de la compression (code 1) : voir les lignes [stderr]".to_string(),
        level: NotificationLevel::Error,
        shown_at: 7,
    });
    assert_eq!(console.notification(), &expected);
    let log = log_of(&console);
    assert_eq!(log.last().unwrap(), "[stderr] cannot open");

    // Nothing that comes later is taken.
    console.apply(
        &CommandUpdate::LogLine { text: "late".to_string(), origin: StreamOrigin::Stdout },
        8,
    );
    console.apply(&completion_event(Mode::Compress, &ExitReport::Exited { code: Some(0) }), 9);
    assert_eq!(log_of(&console), log);
    assert_eq!(console.notification(), &expected);
}

#[test]
fn launch_failure_arrives_as_the_terminal_event() {
    let mut console = running_console(0);
    let mut channel = EventChannel::new();
    channel.send(completion_event(
        Mode::Compress,
        &ExitReport::SpawnFailed { os_error: "Permission denied (os error 13)".to_string() },
    ));
    console.poll(&mut channel, 3);
    assert!(!console.is_processing());
    assert_eq!(
        console.notification(),
        &Some(Notification {
            message: "Erreur: Permission denied (os error 13)".to_string(),
            level: NotificationLevel::Error,
            shown_at: 3,
        })
    );
}

#[test]
fn poll_of_an_empty_channel_moves_only_the_clock() {
    let mut console = running_console(100);
    let mut channel = EventChannel::new();
    let before = log_of(&console);
    console.poll(&mut channel, 160);
    assert_eq!(log_of(&console), before);
    assert!(console.is_processing());
    assert_eq!(console.notification(), &None);
    assert_eq!(console.elapsed_seconds(), 60);
    assert_eq!(console.elapsed_time(), "00:01:00");
    assert!(channel.is_empty());

    let mut idle = JobConsole::new();
    idle.poll(&mut channel, 500);
    assert!(!idle.is_processing());
    assert!(idle.log_lines().is_empty());
    assert_eq!(idle.elapsed_time(), "00:00:00");
}

#[test]
fn events_without_a_job_are_not_taken() {
    let mut console = JobConsole::new();
    let mut channel = EventChannel::new();
    channel.send(CommandUpdate::LogLine { text: "stray".to_string(), origin: StreamOrigin::Stdout });
    channel.send(CommandUpdate::Progress { permille: 10 });
    console.poll(&mut channel, 1);
    assert!(console.log_lines().is_empty());
    assert_eq!(console.progress_permille(), 0);
    assert!(channel.is_empty());
}

#[test]
fn clock_follows_the_job_and_freezes_at_its_end() {
    let mut console = running_console(1000);
    console.tick(1000);
    assert_eq!(console.elapsed_time(), "00:00:00");
    console.tick(1000 + 3661);
    assert_eq!(console.elapsed_time(), "01:01:01");
    assert_eq!(console.last_elapsed_time(), None);
    let mut channel = EventChannel::new();
    channel.send(completion_event(Mode::Compress, &ExitReport::Exited { code: Some(0) }));
    console.poll(&mut channel, 1000 + 3700);
    assert_eq!(console.last_elapsed_time(), Some("01:01:01".to_string()));
    assert_eq!(console.elapsed_time(), "00:00:00");
}

#[test]
fn clock_that_runs_backwards_reads_zero() {
    let mut console = running_console(1000);
    console.tick(900);
    assert_eq!(console.elapsed_seconds(), 0);
}

#[test]
fn progress_is_kept_up_to_the_full_scale() {
    let mut console = running_console(0);
    console.apply(&CommandUpdate::Progress { permille: 250 }, 1);
    assert_eq!(console.progress_permille(), 250);
    console.apply(&CommandUpdate::Progress { permille: 1000 }, 1);
    assert_eq!(console.progress_permille(), 1000);
    console.apply(&CommandUpdate::Progress { permille: 1001 }, 1);
    assert_eq!(console.progress_permille(), 1000);
    console.apply(&CommandUpdate::Progress { permille: u16::MAX }, 1);
    assert_eq!(console.progress_permille(), 1000);
}

#[test]
fn new_job_starts_without_progress() {
    let mut console = running_console(0);
    console.apply(&CommandUpdate::Progress { permille: 700 }, 1);
    console.apply(&completion_event(Mode::Compress, &ExitReport::Exited { code: Some(0) }), 2);
    console.submit(&compress_job(), true, false, 3).unwrap();
    assert_eq!(console.progress_permille(), 0);
}

#[test]
fn log_lines_ask_for_the_end_of_the_log() {
    let mut console = running_console(0);
    assert!(!console.take_scroll_request());
    console.apply(
        &CommandUpdate::LogLine { text: "x".to_string(), origin: StreamOrigin::Stdout },
        1,
    );
    assert!(console.take_scroll_request());
    assert!(!console.take_scroll_request());
    console.apply(
        &CommandUpdate::Completed { outcome: Outcome::Success { message: "fin".to_string() } },
        2,
    );
    assert!(console.take_scroll_request());
}

#[test]
fn notification_is_visible_for_five_seconds() {
    let notification = Notification {
        message: "done".to_string(),
        level: NotificationLevel::Success,
        shown_at: 100,
    };
    assert!(notification.is_visible(100));
    assert!(notification.is_visible(104));
    assert!(!notification.is_visible(105));
    assert!(!notification.is_visible(1000));
    assert!(notification.is_visible(99));
}

#[test]
fn notification_colors_by_level() {
    let white = Rgb { red: 255, green: 255, blue: 255 };
    let black = Rgb { red: 0, green: 0, blue: 0 };
    assert_eq!(NotificationLevel::Info.colors(), (white, Rgb { red: 66, green: 133, blue: 244 }));
    assert_eq!(
        NotificationLevel::Warning.colors(),
        (black, Rgb { red: 251, green: 188, blue: 4 })
    );
    assert_eq!(NotificationLevel::Error.colors(), (white, Rgb { red: 234, green: 67, blue: 53 }));
    assert_eq!(
        NotificationLevel::Success.colors(),
        (white, Rgb { red: 52, green: 168, blue: 83 })
    );
}

#[test]
fn submit_with_goes_by_the_given_file_name() {
    let mut console = JobConsole::new();
    assert_eq!(
        console.submit_with(&compress_job(), true, false, &None, &None, 1),
        Err(ValidationError::InvalidOutput)
    );
    let command = console
        .submit_with(
            &compress_job(),
            true,
            false,
            &Some("archive.arc".to_string()),
            &Some("sfx".to_string()),
            1,
        )
        .unwrap();
    assert_eq!(command.arguments.last().unwrap(), "-sfx");
}

#[test]
fn notify_replaces_the_notification_only() {
    let mut console = running_console(0);
    let before = log_of(&console);
    console.notify("Hash copié dans le presse-papiers", NotificationLevel::Info, 9);
    assert_eq!(
        console.notification(),
        &Some(Notification {
            message: "Hash copié dans le presse-papiers".to_string(),
            level: NotificationLevel::Info,
            shown_at: 9,
        })
    );
    assert!(console.is_processing());
    assert_eq!(log_of(&console), before);
}

#[test]
fn record_appends_a_line() {
    let mut console = JobConsole::new();
    console.record("Navigated to: /tmp\n");
    console.record("second");
    assert_eq!(log_of(&console), vec!["Navigated to: /tmp\n", "second"]);
    assert!(!console.is_processing());
}
