//! What holds of any job, whatever its output: the order in which its
//! events reach the user interface and what the interface shows at the end.
//!
//! The two readers of a job run side by side, so the lines of the two
//! streams arrive interleaved in an order that nothing fixes.  The terminal
//! event is sent when both readers are done and comes last.

use crate::command::{JobRequestView, ValidationErrorView};
use crate::console::{
    ConsoleView, NotificationLevel, NotificationView, after_poll, after_submit, apply_update,
    apply_updates, log_entry, refresh_clock, submitted_command,
};
use crate::event::{
    ExitReportView, Mode, OutcomeView, StreamOrigin, UpdateView, exit_failure_text, outcome_of,
    success_text,
};
use crate::pump::line_events;
use vstd::prelude::*;

verus! {

/// Whether `merged` holds the events of `first` and of `second`, each in
/// its own order, and nothing else.
pub open spec fn is_interleaving(
    merged: Seq<UpdateView>,
    first: Seq<UpdateView>,
    second: Seq<UpdateView>,
) -> bool
    decreases merged.len(),
{
    if merged.len() == 0 {
        first.len() == 0 && second.len() == 0
    } else {
        ||| first.len() > 0 && merged.last() == first.last() && is_interleaving(
            merged.drop_last(),
            first.drop_last(),
            second,
        )
        ||| second.len() > 0 && merged.last() == second.last() && is_interleaving(
            merged.drop_last(),
            first,
            second.drop_last(),
        )
    }
}

/// Whether every event is a log line.
pub open spec fn all_log_lines(updates: Seq<UpdateView>) -> bool {
    forall|i: int| 0 <= i < updates.len() ==> #[trigger] updates[i] is LogLine
}

/// The lines that the log shows for a run of log-line events.
pub open spec fn log_entries(updates: Seq<UpdateView>) -> Seq<Seq<char>> {
    Seq::new(updates.len(), |i: int| log_entry(updates[i]->origin, updates[i]->text))
}

/// An interleaving is as long as its two parts together, and holds log
/// lines only where both parts do.
pub proof fn lemma_interleaving(
    merged: Seq<UpdateView>,
    first: Seq<UpdateView>,
    second: Seq<UpdateView>,
)
    requires
        is_interleaving(merged, first, second),
    ensures
        merged.len() == first.len() + second.len(),
        all_log_lines(first) && all_log_lines(second) ==> all_log_lines(merged),
    decreases merged.len(),
{
    if merged.len() > 0 {
        if first.len() > 0 && merged.last() == first.last() && is_interleaving(
            merged.drop_last(),
            first.drop_last(),
            second,
        ) {
            lemma_interleaving(merged.drop_last(), first.drop_last(), second);
            if all_log_lines(first) && all_log_lines(second) {
                assert(all_log_lines(first.drop_last()));
                assert forall|i: int| 0 <= i < merged.len() implies (
                #[trigger] merged[i]) is LogLine by {
                    if i < merged.len() - 1 {
                        assert(merged[i] == merged.drop_last()[i]);
                    }
                }
            }
        } else {
            lemma_interleaving(merged.drop_last(), first, second.drop_last());
            if all_log_lines(first) && all_log_lines(second) {
                assert(all_log_lines(second.drop_last()));
                assert forall|i: int| 0 <= i < merged.len() implies (
                #[trigger] merged[i]) is LogLine by {
                    if i < merged.len() - 1 {
                        assert(merged[i] == merged.drop_last()[i]);
                    }
                }
            }
        }
    }
}

/// While a job is active, a run of log lines is appended to the log in the
/// order of arrival, and changes nothing else but the request to show the
/// end of the log.
pub proof fn lemma_log_lines_are_appended(state: ConsoleView, lines: Seq<UpdateView>, now: u64)
    requires
        state.processing,
        all_log_lines(lines),
    ensures
        apply_updates(state, lines, now) == (ConsoleView {
            log: state.log + log_entries(lines),
            scroll_to_end: state.scroll_to_end || lines.len() > 0,
            ..state
        }),
    decreases lines.len(),
{
    if lines.len() > 0 {
        let head = lines.drop_last();
        assert(all_log_lines(head));
        lemma_log_lines_are_appended(state, head, now);
        assert(state.log + log_entries(lines) =~= (state.log + log_entries(head)).push(
            log_entry(lines.last()->origin, lines.last()->text),
        ));
    }
}

/// Without an active job no event is taken: the state stays as it is.
pub proof fn lemma_no_job_no_change(state: ConsoleView, updates: Seq<UpdateView>, now: u64)
    requires
        !state.processing,
    ensures
        apply_updates(state, updates, now) == state,
    decreases updates.len(),
{
    if updates.len() > 0 {
        lemma_no_job_no_change(state, updates.drop_last(), now);
    }
}

/// A run of events followed by another is taken as one run.
pub proof fn lemma_apply_in_two_runs(
    state: ConsoleView,
    first: Seq<UpdateView>,
    second: Seq<UpdateView>,
    now: u64,
)
    ensures
        apply_updates(state, first + second, now) == apply_updates(
            apply_updates(state, first, now),
            second,
            now,
        ),
    decreases second.len(),
{
    if second.len() == 0 {
    } else {
        lemma_apply_in_two_runs(state, first, second.drop_last(), now);
        assert((first + second).drop_last() =~= first + second.drop_last());
    }
}

/// Whether two states show the same of a job: the same log, the same
/// job-active flag, and notifications with the same message and level.
pub open spec fn same_display(first: ConsoleView, second: ConsoleView) -> bool {
    &&& first.log == second.log
    &&& first.processing == second.processing
    &&& match (first.notification, second.notification) {
        (Some(a), Some(b)) => a.message == b.message && a.level == b.level,
        (None, None) => true,
        _ => false,
    }
}

/// What is shown of a job does not depend on the clock: states that show
/// the same still do so after taking the same events at any two times.
pub proof fn lemma_display_ignores_the_clock(
    first: ConsoleView,
    second: ConsoleView,
    updates: Seq<UpdateView>,
    first_now: u64,
    second_now: u64,
)
    requires
        same_display(first, second),
    ensures
        same_display(
            apply_updates(first, updates, first_now),
            apply_updates(second, updates, second_now),
        ),
    decreases updates.len(),
{
    if updates.len() > 0 {
        lemma_display_ignores_the_clock(
            first,
            second,
            updates.drop_last(),
            first_now,
            second_now,
        );
    }
}

/// What is shown of a job does not depend on how its events fall into
/// ticks: two ticks that find one run of events each show the same as one
/// tick that finds both runs.
pub proof fn lemma_ticks_add_up(
    state: ConsoleView,
    first: Seq<UpdateView>,
    second: Seq<UpdateView>,
    first_now: u64,
    second_now: u64,
    now: u64,
)
    ensures
        same_display(
            after_poll(after_poll(state, first, first_now), second, second_now),
            after_poll(state, first + second, now),
        ),
{
    let middle = apply_updates(state, first, now);
    lemma_apply_in_two_runs(state, first, second, now);
    lemma_display_ignores_the_clock(state, state, first, first_now, now);
    lemma_display_ignores_the_clock(
        after_poll(state, first, first_now),
        middle,
        second,
        second_now,
        now,
    );
}

/// The whole of a job as the user interface sees it.  The archiver writes
/// some lines to its standard output and some to its standard error, which
/// arrive interleaved in any order, and then the terminal event arrives.
/// The log then holds one more line for each line written, in the order of
/// arrival and all of them taken while the job was still active; the job
/// is over; and the notification carries the outcome.
pub proof fn lemma_job_seen_by_interface(
    state: ConsoleView,
    stdout_lines: Seq<Seq<u8>>,
    stderr_lines: Seq<Seq<u8>>,
    merged: Seq<UpdateView>,
    outcome: OutcomeView,
    now: u64,
)
    requires
        state.processing,
        is_interleaving(
            merged,
            line_events(StreamOrigin::Stdout, stdout_lines),
            line_events(StreamOrigin::Stderr, stderr_lines),
        ),
    ensures
        ({
            let running = apply_updates(state, merged, now);
            let end = apply_updates(
                state,
                merged.push(UpdateView::Completed { outcome }),
                now,
            );
            &&& merged.len() == stdout_lines.len() + stderr_lines.len()
            &&& all_log_lines(merged)
            &&& running.processing
            &&& running.log == state.log + log_entries(merged)
            &&& end.log == running.log
            &&& end.log.len() == state.log.len() + stdout_lines.len() + stderr_lines.len()
            &&& !end.processing
            &&& end.notification == Some(
                NotificationView {
                    message: outcome.message(),
                    level: if outcome is Success {
                        NotificationLevel::Success
                    } else {
                        NotificationLevel::Error
                    },
                    shown_at: now,
                },
            )
            &&& end.last_elapsed_seconds == Some(state.elapsed_seconds)
        }),
{
    let out = line_events(StreamOrigin::Stdout, stdout_lines);
    let err = line_events(StreamOrigin::Stderr, stderr_lines);
    lemma_interleaving(merged, out, err);
    lemma_log_lines_are_appended(state, merged, now);
    let done = UpdateView::Completed { outcome };
    assert(merged.push(done).drop_last() =~= merged);
}

/// A job whose process writes its lines and then ends with exit code zero:
/// the interface takes every line, then the terminal event, and shows the
/// success of the action.
pub proof fn lemma_successful_job(
    state: ConsoleView,
    mode: Mode,
    stdout_lines: Seq<Seq<u8>>,
    stderr_lines: Seq<Seq<u8>>,
    merged: Seq<UpdateView>,
    now: u64,
)
    requires
        state.processing,
        is_interleaving(
            merged,
            line_events(StreamOrigin::Stdout, stdout_lines),
            line_events(StreamOrigin::Stderr, stderr_lines),
        ),
    ensures
        ({
            let outcome = outcome_of(mode, ExitReportView::Exited { code: Some(0i32) });
            let end = apply_updates(
                state,
                merged.push(UpdateView::Completed { outcome }),
                now,
            );
            &&& outcome == (OutcomeView::Success { message: success_text(mode) })
            &&& end.log == state.log + log_entries(merged)
            &&& end.log.len() == state.log.len() + stdout_lines.len() + stderr_lines.len()
            &&& !end.processing
            &&& end.notification == Some(
                NotificationView {
                    message: success_text(mode),
                    level: NotificationLevel::Success,
                    shown_at: now,
                },
            )
        }),
{
    let outcome = outcome_of(mode, ExitReportView::Exited { code: Some(0i32) });
    lemma_job_seen_by_interface(state, stdout_lines, stderr_lines, merged, outcome, now);
}

/// A job whose process ends with an exit code other than zero ends with a
/// failure that carries the code, and after its terminal event the
/// interface takes no further event.
pub proof fn lemma_failed_job(
    state: ConsoleView,
    mode: Mode,
    code: i32,
    later: Seq<UpdateView>,
    now: u64,
)
    requires
        state.processing,
        code != 0,
    ensures
        ({
            let outcome = outcome_of(mode, ExitReportView::Exited { code: Some(code) });
            let end = apply_update(state, UpdateView::Completed { outcome }, now);
            &&& outcome == (OutcomeView::Failure {
                message: exit_failure_text(mode, Some(code)),
                exit_code: Some(code),
                detail_in_log: true,
            })
            &&& !end.processing
            &&& end.log == state.log
            &&& end.notification matches Some(n) && n.level == NotificationLevel::Error
                && n.message == outcome.message()
            &&& apply_updates(end, later, now) == end
        }),
{
    let outcome = outcome_of(mode, ExitReportView::Exited { code: Some(code) });
    let end = apply_update(state, UpdateView::Completed { outcome }, now);
    lemma_no_job_no_change(end, later, now);
}

/// While a job is active a new request is refused and changes nothing.
pub proof fn lemma_one_job_at_a_time(
    state: ConsoleView,
    tool_installed: bool,
    windows: bool,
    request: JobRequestView,
    file_name: Option<Seq<char>>,
    extension: Option<Seq<char>>,
    now: u64,
)
    requires
        state.processing,
    ensures
        submitted_command(state.processing, tool_installed, windows, request, file_name, extension)
            == Err::<crate::command::LaunchCommandView, ValidationErrorView>(
            ValidationErrorView::Busy,
        ),
        after_submit(state, tool_installed, windows, request, file_name, extension, now) == state,
{
}

/// A refused request starts no job: the job-active flag stays as it was.
pub proof fn lemma_refusal_starts_nothing(
    state: ConsoleView,
    tool_installed: bool,
    windows: bool,
    request: JobRequestView,
    file_name: Option<Seq<char>>,
    extension: Option<Seq<char>>,
    now: u64,
)
    requires
        submitted_command(state.processing, tool_installed, windows, request, file_name, extension)
            is Err,
    ensures
        after_submit(state, tool_installed, windows, request, file_name, extension, now).processing
            == state.processing,
        after_submit(state, tool_installed, windows, request, file_name, extension, now).started_at
            == state.started_at,
{
}

/// A tick that finds no event waiting moves nothing but the clock.
pub proof fn lemma_idle_tick(state: ConsoleView, now: u64)
    ensures
        after_poll(state, Seq::<UpdateView>::empty(), now) == refresh_clock(state, now),
        after_poll(state, Seq::<UpdateView>::empty(), now).log == state.log,
        after_poll(state, Seq::<UpdateView>::empty(), now).processing == state.processing,
        after_poll(state, Seq::<UpdateView>::empty(), now).notification == state.notification,
{
}

} // verus!
