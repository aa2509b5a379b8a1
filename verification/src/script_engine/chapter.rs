//! A chapter of a script: its events, run one after another, and where a
//! loaded save resumes them.

use vstd::prelude::*;

use crate::types::ScriptStatus;

verus! {

/// The events of a chapter and the index of the next one to run.
pub struct EventsHandler<E> {
    pub event_list: Vec<E>,
    pub progress: usize,
    /// The chapter key, reported with the script's progress.
    pub chapter_key: String,
}

/// The index that a resumed chapter starts at: the saved index, clamped to the
/// last event when it lies beyond the list (so that the chapter end still runs).
pub open spec fn clamped_progress(len: nat, progress: nat) -> nat {
    if progress < len {
        progress
    } else if len == 0 {
        0
    } else {
        (len - 1) as nat
    }
}

impl<E> EventsHandler<E> {
    pub fn with_progress(event_list: Vec<E>, progress: usize) -> (r: EventsHandler<E>)
        ensures
            r.event_list@ == event_list@,
            r.progress == clamped_progress(event_list@.len(), progress as nat),
            r.chapter_key@.len() == 0,
    {
        let len = event_list.len();
        let progress = if progress < len {
            progress
        } else if len == 0 {
            0
        } else {
            len - 1
        };
        EventsHandler { event_list, progress, chapter_key: String::new() }
    }

    /// Whether every event has run.
    pub fn is_finished(&self) -> (b: bool)
        ensures
            b == (self.progress >= self.event_list@.len()),
    {
        self.progress >= self.event_list.len()
    }
}

/// A chapter loaded from a chapter file.
pub struct Chapter<E> {
    /// The chapter file, relative to the script.
    pub _chapter_id: String,
    pub chapter_name: String,
    pub events_handler: EventsHandler<E>,
}

/// The event index a chapter resumes at: the saved one (never below zero) when
/// the save stands in this chapter, the start otherwise.
pub open spec fn spec_resume_progress(status: &ScriptStatus, chapter_id: Seq<char>) -> nat {
    if status.current_chapter_key@ == chapter_id {
        if status.current_event_process < 0 {
            0
        } else {
            status.current_event_process as nat
        }
    } else {
        0
    }
}

impl<E> Chapter<E> {
    /// Builds a chapter from its id, the `name` and `events` of its file, and the
    /// script status of a loaded save. The name defaults to the id.
    pub fn new(
        chapter_id: String,
        chapter_name: Option<String>,
        event_list: Vec<E>,
        script_status: &ScriptStatus,
    ) -> (r: Chapter<E>)
        ensures
            r._chapter_id == chapter_id,
            r.chapter_name@ == match chapter_name {
                Some(n) => n@,
                None => chapter_id@,
            },
            r.events_handler.event_list@ == event_list@,
            r.events_handler.progress == clamped_progress(
                event_list@.len(),
                spec_resume_progress(script_status, chapter_id@),
            ),
            r.events_handler.chapter_key == chapter_id,
    {
        let chapter_name = match chapter_name {
            Some(n) => n,
            None => chapter_id.clone(),
        };
        let resume_progress: usize = if script_status.current_chapter_key == chapter_id {
            if script_status.current_event_process < 0 {
                0
            } else {
                script_status.current_event_process as usize
            }
        } else {
            0
        };
        let mut events_handler = EventsHandler::with_progress(event_list, resume_progress);
        events_handler.chapter_key = chapter_id.clone();
        Chapter { _chapter_id: chapter_id, chapter_name, events_handler }
    }

    /// One step of running the chapter: None when every event has run (the
    /// chapter ends); otherwise the index recorded in the script status before
    /// the next event runs, which is that event's own index, so a save never
    /// stands ahead of what was shown.
    pub fn next_step(&self) -> (r: Option<i32>)
        ensures
            r is None <==> self.events_handler.progress >= self.events_handler.event_list@.len(),
            r matches Some(m) ==> self.events_handler.progress
                < self.events_handler.event_list@.len() && m == self.events_handler.progress as i32,
    {
        if self.events_handler.is_finished() {
            None
        } else {
            Some(self.progress_marker())
        }
    }

    /// The event index recorded in the script status before the next event runs,
    /// so that a save never stands ahead of what was shown.
    pub fn progress_marker(&self) -> (r: i32)
        ensures
            r == self.events_handler.progress as i32,
    {
        self.events_handler.progress as i32
    }
}

/// A resumed chapter never starts beyond its last event: a chapter with events
/// always has its next event to run, so its end is reached by running events.
pub proof fn lemma_resume_within_chapter(len: nat, progress: nat)
    ensures
        len > 0 ==> clamped_progress(len, progress) < len,
        len == 0 ==> clamped_progress(len, progress) == 0,
        progress < len ==> clamped_progress(len, progress) == progress,
{
}

} // verus!
