//! The completion tracker of one job: it keeps the terminal event back
//! until both readers are done, and hands it out once.

use crate::event::{
    CommandUpdate, ExitReport, Mode, StreamOrigin, UpdateView, completion_event, outcome_of,
};
use vstd::prelude::*;

verus! {

/// The mathematical value of a [`CompletionTracker`].
pub struct TrackerView {
    pub mode: Mode,
    /// Whether a reader of the standard output is at work.
    pub stdout_open: bool,
    /// Whether a reader of the standard error is at work.
    pub stderr_open: bool,
    /// Whether the terminal event has been handed out.
    pub completed: bool,
}

impl TrackerView {
    /// Whether the terminal event may be handed out: no reader is at work
    /// and it has not been handed out before.
    pub open spec fn ready(self) -> bool {
        !self.stdout_open && !self.stderr_open && !self.completed
    }

    /// The tracker with a reader at work, or not, on one stream.
    pub open spec fn with_stream(self, origin: StreamOrigin, open: bool) -> TrackerView {
        match origin {
            StreamOrigin::Stdout => TrackerView { stdout_open: open, ..self },
            StreamOrigin::Stderr => TrackerView { stderr_open: open, ..self },
        }
    }
}

/// The tracker of one job.
pub struct CompletionTracker {
    mode: Mode,
    stdout_open: bool,
    stderr_open: bool,
    completed: bool,
}

impl View for CompletionTracker {
    type V = TrackerView;

    closed spec fn view(&self) -> TrackerView {
        TrackerView {
            mode: self.mode,
            stdout_open: self.stdout_open,
            stderr_open: self.stderr_open,
            completed: self.completed,
        }
    }
}

impl CompletionTracker {
    /// The tracker of a job that has no reader yet.
    pub fn new(mode: Mode) -> (tracker: CompletionTracker)
        ensures
            tracker@ == (TrackerView {
                mode,
                stdout_open: false,
                stderr_open: false,
                completed: false,
            }),
    {
        CompletionTracker { mode, stdout_open: false, stderr_open: false, completed: false }
    }

    /// Notes that a reader has started on a stream.
    pub fn stream_opened(&mut self, origin: StreamOrigin)
        ensures
            final(self)@ == old(self)@.with_stream(origin, true),
    {
        match origin {
            StreamOrigin::Stdout => {
                self.stdout_open = true;
            },
            StreamOrigin::Stderr => {
                self.stderr_open = true;
            },
        }
    }

    /// Notes that the reader of a stream has read it to its end.
    pub fn stream_closed(&mut self, origin: StreamOrigin)
        ensures
            final(self)@ == old(self)@.with_stream(origin, false),
    {
        match origin {
            StreamOrigin::Stdout => {
                self.stdout_open = false;
            },
            StreamOrigin::Stderr => {
                self.stderr_open = false;
            },
        }
    }

    /// Whether the terminal event has been handed out.
    pub fn is_completed(&self) -> (completed: bool)
        ensures
            completed == self@.completed,
    {
        self.completed
    }

    /// Hands out the terminal event for the way the process ended, if no
    /// reader is at work and the event has not been handed out before.
    /// Otherwise nothing is handed out and nothing changes.
    pub fn complete(&mut self, report: &ExitReport) -> (update: Option<CommandUpdate>)
        ensures
            old(self)@.ready() ==> final(self)@ == (TrackerView {
                completed: true,
                ..old(self)@
            }) && update is Some && update->0@ == (UpdateView::Completed {
                outcome: outcome_of(old(self)@.mode, report@),
            }),
            !old(self)@.ready() ==> final(self)@ == old(self)@ && update is None,
    {
        if self.stdout_open || self.stderr_open || self.completed {
            None
        } else {
            self.completed = true;
            Some(completion_event(self.mode, report))
        }
    }
}

/// The terminal event is handed out at most once: after it, the tracker
/// hands out nothing, whatever is noted and asked of it.
pub proof fn lemma_completed_stays_completed(tracker: TrackerView, origin: StreamOrigin, open: bool)
    requires
        tracker.completed,
    ensures
        !tracker.ready(),
        !tracker.with_stream(origin, open).ready(),
        tracker.with_stream(origin, open).completed,
{
}

} // verus!
