//! What is shown of a live log while it runs.
use vstd::prelude::*;
use vstd::string::*;

use crate::text::copy_option;
use crate::text::text_option;

verus! {

/// How far a live log has come.
pub struct LiveProgress {
    /// The log that is followed.
    pub file: Option<String>,
    /// How many segments have been committed.
    pub segments: u64,
    /// A fight is going on.
    pub in_progress: bool,
}

/// The model of the progress.
pub struct ProgressModel {
    pub file: Option<Seq<char>>,
    pub segments: int,
    pub in_progress: bool,
}

/// A message, with the progress at that time.
pub struct LiveNote {
    pub state: &'static str,
    pub message: String,
    pub file: Option<String>,
    pub segments: u64,
    pub in_progress: bool,
}

/// The model of a message.
pub struct LiveNoteModel {
    pub state: Seq<char>,
    pub message: Seq<char>,
    pub progress: ProgressModel,
}

impl View for LiveProgress {
    type V = ProgressModel;

    open spec fn view(&self) -> ProgressModel {
        ProgressModel {
            file: text_option(self.file),
            segments: self.segments as int,
            in_progress: self.in_progress,
        }
    }
}

impl View for LiveNote {
    type V = LiveNoteModel;

    open spec fn view(&self) -> LiveNoteModel {
        LiveNoteModel {
            state: self.state@,
            message: self.message@,
            progress: ProgressModel {
                file: text_option(self.file),
                segments: self.segments as int,
                in_progress: self.in_progress,
            },
        }
    }
}

/// A message matches its model.
pub open spec fn note_means(n: Option<LiveNote>, m: Option<LiveNoteModel>) -> bool {
    match m {
        Some(x) => n matches Some(y) && y@ == x,
        None => n is None,
    }
}

/// A message at this point of the progress.
pub open spec fn live_note(p: ProgressModel, state: Seq<char>, message: Seq<char>) -> LiveNoteModel {
    LiveNoteModel { state, message, progress: p }
}

impl LiveProgress {
    /// The progress before anything has happened.
    pub fn new() -> (r: LiveProgress)
        ensures
            r@ == (ProgressModel { file: None, segments: 0, in_progress: false }),
    {
        LiveProgress { file: None, segments: 0, in_progress: false }
    }

    /// A message at this point of the progress.
    pub fn emit(&self, state: &'static str, message: String) -> (r: LiveNote)
        ensures
            r@ == live_note(self@, state@, message@),
    {
        LiveNote {
            state,
            message,
            file: copy_option(&self.file),
            segments: self.segments,
            in_progress: self.in_progress,
        }
    }
}

} // verus!
