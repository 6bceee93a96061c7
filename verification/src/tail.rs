//! Following a growing log: which step follows which.
//!
//! The newest log of a directory is read piece by piece as it grows. When a newer one appears,
//! what is left of the old one is read first. When the log stays silent, or a stop is asked
//! for, the fight that is going on is taken as finished.
use vstd::prelude::*;
use vstd::string::*;

use crate::chunk::Chunk;
use crate::log_file::FoundLog;
use crate::progress::live_note;
use crate::progress::note_means;
use crate::progress::LiveNote;
use crate::progress::LiveNoteModel;
use crate::progress::LiveProgress;
use crate::progress::ProgressModel;
use crate::text::same_text;
use crate::text::text_option;
use crate::text::texts;

verus! {

/// How long to sleep while there is nothing to do, in seconds.
pub const POLL_INTERVAL_SECS: u64 = 1;

/// How long a log has to be silent before its current fight is taken as finished, in
/// nanoseconds.
pub const IDLE_THRESHOLD: u128 = 120_000_000_000;

/// What to do next.
pub enum TailAction {
    /// Look for the newest log.
    FindNewest,
    /// Sleep for the poll interval, or until a stop is asked for.
    Sleep,
    /// Read the file from the offset on.
    ReadChunk { file: String, offset: u64 },
    /// Parse these lines and upload what has become of them.
    UploadPart { lines: Vec<String>, push_fight: bool },
    /// Tell the parser the date.
    SetStartDate { date: String },
    /// Ask for the size of the file.
    FileSize { file: String },
    /// The log is followed no more; unless `ok`, the last failure is the reason.
    End { ok: bool },
}

/// The model of an action.
pub enum TailActionModel {
    FindNewest,
    Sleep,
    ReadChunk { file: Seq<char>, offset: int },
    UploadPart { lines: Seq<Seq<char>>, push_fight: bool },
    SetStartDate { date: Seq<char> },
    FileSize { file: Seq<char> },
    End { ok: bool },
}

/// What came of the last action.
pub enum TailEvent {
    /// The newest log, if there is any.
    Newest(Option<FoundLog>),
    Slept,
    Read(Chunk),
    ReadFailed,
    Uploaded,
    UploadFailed,
    DateSet,
    DateFailed,
    /// The size of the file; zero where it cannot be told.
    Size(u64),
}

/// The model of a log that was found.
pub struct FoundModel {
    pub name: Seq<char>,
    pub date: Option<Seq<char>>,
}

/// The model of an event.
pub enum TailEventModel {
    Newest(Option<FoundModel>),
    Slept,
    Read { lines: Seq<Seq<char>>, new_offset: int, file_size: int },
    ReadFailed,
    Uploaded,
    UploadFailed,
    DateSet,
    DateFailed,
    Size(int),
}

/// Whether a stop has been asked for, and the time by a clock that never goes back, in
/// nanoseconds.
#[derive(Clone, Copy)]
pub struct Moment {
    pub stop: bool,
    pub now: u128,
}

/// What is waited for.
pub enum TailPhase {
    Searching,
    Sleeping,
    /// Reading the rest of the old log.
    Rotating { old: String, next: FoundLog },
    /// Uploading a piece of the rest of the old log.
    RotatingUpload { old: String, next: FoundLog },
    Dating { name: String },
    Reading,
    Uploading { any_lines: bool },
    Sizing,
    /// Reading what was there when the stop was asked for.
    Draining { until: u64 },
    /// Uploading a piece of that.
    DrainingUpload { until: u64 },
    Flushing,
    Ended,
}

/// The model of a phase.
pub enum TailPhaseModel {
    Searching,
    Sleeping,
    Rotating { old: Seq<char>, next: FoundModel },
    RotatingUpload { old: Seq<char>, next: FoundModel },
    Dating { name: Seq<char> },
    Reading,
    Uploading { any_lines: bool },
    Sizing,
    Draining { until: int },
    DrainingUpload { until: int },
    Flushing,
    Ended,
}

/// How far a log has been followed.
pub struct Tail {
    current: Option<String>,
    offset: u64,
    last_data: u128,
    dirty: bool,
    waiting_logged: bool,
    phase: TailPhase,
}

/// The model of the state.
pub struct TailModel {
    /// The log that is followed.
    pub current: Option<Seq<char>>,
    /// Where to go on reading.
    pub offset: int,
    /// When there were lines last.
    pub last_data: int,
    /// There have been lines since the log was last found silent.
    pub dirty: bool,
    /// It has been said that there is no log.
    pub waiting_logged: bool,
    pub phase: TailPhaseModel,
}

/// A step: the new state and progress, what to do, and what to say.
pub struct TailTurnModel {
    pub state: TailModel,
    pub progress: ProgressModel,
    pub action: TailActionModel,
    pub note: Option<LiveNoteModel>,
}

/// What to do, and what to say.
pub struct TailTurn {
    pub action: TailAction,
    pub note: Option<LiveNote>,
}

impl View for TailAction {
    type V = TailActionModel;

    open spec fn view(&self) -> TailActionModel {
        match self {
            TailAction::FindNewest => TailActionModel::FindNewest,
            TailAction::Sleep => TailActionModel::Sleep,
            TailAction::ReadChunk { file, offset } => TailActionModel::ReadChunk {
                file: file@,
                offset: *offset as int,
            },
            TailAction::UploadPart { lines, push_fight } => TailActionModel::UploadPart {
                lines: texts(lines@),
                push_fight: *push_fight,
            },
            TailAction::SetStartDate { date } => TailActionModel::SetStartDate { date: date@ },
            TailAction::FileSize { file } => TailActionModel::FileSize { file: file@ },
            TailAction::End { ok } => TailActionModel::End { ok: *ok },
        }
    }
}

impl View for FoundLog {
    type V = FoundModel;

    open spec fn view(&self) -> FoundModel {
        FoundModel { name: self.name@, date: text_option(self.date) }
    }
}

impl View for TailEvent {
    type V = TailEventModel;

    open spec fn view(&self) -> TailEventModel {
        match self {
            TailEvent::Newest(found) => TailEventModel::Newest(
                match found {
                    Some(f) => Some(f@),
                    None => None,
                },
            ),
            TailEvent::Slept => TailEventModel::Slept,
            TailEvent::Read(chunk) => TailEventModel::Read {
                lines: texts(chunk.lines@),
                new_offset: chunk.new_offset as int,
                file_size: chunk.file_size as int,
            },
            TailEvent::ReadFailed => TailEventModel::ReadFailed,
            TailEvent::Uploaded => TailEventModel::Uploaded,
            TailEvent::UploadFailed => TailEventModel::UploadFailed,
            TailEvent::DateSet => TailEventModel::DateSet,
            TailEvent::DateFailed => TailEventModel::DateFailed,
            TailEvent::Size(n) => TailEventModel::Size(*n as int),
        }
    }
}

impl View for TailPhase {
    type V = TailPhaseModel;

    open spec fn view(&self) -> TailPhaseModel {
        match self {
            TailPhase::Searching => TailPhaseModel::Searching,
            TailPhase::Sleeping => TailPhaseModel::Sleeping,
            TailPhase::Rotating { old, next } => TailPhaseModel::Rotating {
                old: old@,
                next: next@,
            },
            TailPhase::RotatingUpload { old, next } => TailPhaseModel::RotatingUpload {
                old: old@,
                next: next@,
            },
            TailPhase::Dating { name } => TailPhaseModel::Dating { name: name@ },
            TailPhase::Reading => TailPhaseModel::Reading,
            TailPhase::Uploading { any_lines } => TailPhaseModel::Uploading {
                any_lines: *any_lines,
            },
            TailPhase::Sizing => TailPhaseModel::Sizing,
            TailPhase::Draining { until } => TailPhaseModel::Draining { until: *until as int },
            TailPhase::DrainingUpload { until } => TailPhaseModel::DrainingUpload {
                until: *until as int,
            },
            TailPhase::Flushing => TailPhaseModel::Flushing,
            TailPhase::Ended => TailPhaseModel::Ended,
        }
    }
}

impl View for Tail {
    type V = TailModel;

    closed spec fn view(&self) -> TailModel {
        TailModel {
            current: text_option(self.current),
            offset: self.offset as int,
            last_data: self.last_data as int,
            dirty: self.dirty,
            waiting_logged: self.waiting_logged,
            phase: self.phase@,
        }
    }
}

/// A log is being followed whenever one is needed.
pub open spec fn tail_wf(s: TailModel) -> bool {
    s.phase is Reading || s.phase is Uploading || s.phase is Sizing || s.phase is Draining
        || s.phase is DrainingUpload ==> s.current is Some
}

/// The event is what is waited for.
pub open spec fn tail_awaited(s: TailModel, e: TailEventModel) -> bool {
    match s.phase {
        TailPhaseModel::Searching => e is Newest,
        TailPhaseModel::Sleeping => e is Slept,
        TailPhaseModel::Rotating { .. } => e is Read || e is ReadFailed,
        TailPhaseModel::RotatingUpload { .. } => e is Uploaded || e is UploadFailed,
        TailPhaseModel::Dating { .. } => e is DateSet || e is DateFailed,
        TailPhaseModel::Reading => e is Read || e is ReadFailed,
        TailPhaseModel::Uploading { .. } => e is Uploaded || e is UploadFailed,
        TailPhaseModel::Sizing => e is Size,
        TailPhaseModel::Draining { .. } => e is Read || e is ReadFailed,
        TailPhaseModel::DrainingUpload { .. } => e is Uploaded || e is UploadFailed,
        TailPhaseModel::Flushing => e is Uploaded || e is UploadFailed,
        TailPhaseModel::Ended => false,
    }
}

/// A step that says nothing.
pub open spec fn silent(
    s: TailModel,
    p: ProgressModel,
    phase: TailPhaseModel,
    action: TailActionModel,
) -> TailTurnModel {
    TailTurnModel { state: TailModel { phase, ..s }, progress: p, action, note: None }
}

/// Reads on in the current log.
pub open spec fn read_on(
    s: TailModel,
    p: ProgressModel,
    phase: TailPhaseModel,
) -> TailTurnModel {
    silent(
        s,
        p,
        phase,
        TailActionModel::ReadChunk { file: s.current->Some_0, offset: s.offset },
    )
}

/// The last step but one: takes the current fight as finished.
pub open spec fn flush(s: TailModel, p: ProgressModel) -> TailTurnModel {
    TailTurnModel {
        note: Some(
            live_note(p, "uploading"@, "Stopping \u{2014} flushing final data..."@),
        ),
        ..silent(
            s,
            p,
            TailPhaseModel::Flushing,
            TailActionModel::UploadPart { lines: seq![], push_fight: true },
        )
    }
}

/// A stop was asked for.
pub open spec fn wind_up(s: TailModel, p: ProgressModel) -> TailTurnModel {
    match s.current {
        Some(file) => silent(s, p, TailPhaseModel::Sizing, TailActionModel::FileSize { file }),
        None => flush(s, p),
    }
}

/// Goes round again.
pub open spec fn again(s: TailModel, p: ProgressModel, m: Moment) -> TailTurnModel {
    if m.stop {
        wind_up(s, p)
    } else {
        silent(s, p, TailPhaseModel::Searching, TailActionModel::FindNewest)
    }
}

/// Sleeps before going round again.
pub open spec fn sleep(s: TailModel, p: ProgressModel) -> TailTurnModel {
    silent(s, p, TailPhaseModel::Sleeping, TailActionModel::Sleep)
}

/// Follows a log from its beginning.
pub open spec fn follow(s: TailModel, p: ProgressModel, name: Seq<char>) -> TailTurnModel {
    let q = ProgressModel { file: Some(name), ..p };
    TailTurnModel {
        note: Some(live_note(q, "tailing"@, "Tailing "@ + name)),
        ..read_on(
            TailModel { current: Some(name), waiting_logged: false, ..s },
            q,
            TailPhaseModel::Reading,
        )
    }
}

/// Turns to another log.
pub open spec fn turn_to(s: TailModel, p: ProgressModel, next: FoundModel) -> TailTurnModel {
    let t = TailModel { offset: 0, ..s };
    match next.date {
        Some(date) => silent(
            t,
            p,
            TailPhaseModel::Dating { name: next.name },
            TailActionModel::SetStartDate { date },
        ),
        None => follow(t, p, next.name),
    }
}

/// Reads on in the log that is left behind, unless a stop was asked for.
pub open spec fn leave(
    s: TailModel,
    p: ProgressModel,
    m: Moment,
    old: Seq<char>,
    next: FoundModel,
) -> TailTurnModel {
    if m.stop {
        turn_to(s, p, next)
    } else {
        silent(
            s,
            p,
            TailPhaseModel::Rotating { old, next },
            TailActionModel::ReadChunk { file: old, offset: s.offset },
        )
    }
}

/// The log has been silent for long.
pub open spec fn idle(s: TailModel, m: Moment) -> bool {
    s.dirty && m.now - s.last_data > IDLE_THRESHOLD
}

/// The step that an event leads to.
pub open spec fn tail_step(
    s: TailModel,
    p: ProgressModel,
    e: TailEventModel,
    m: Moment,
) -> TailTurnModel {
    match (s.phase, e) {
        (TailPhaseModel::Searching, TailEventModel::Newest(None)) => if s.current is None
            && !s.waiting_logged {
            TailTurnModel {
                note: Some(live_note(p, "waiting"@, "Waiting for a combat log to appear..."@)),
                ..sleep(TailModel { waiting_logged: true, ..s }, p)
            }
        } else {
            sleep(s, p)
        },
        (TailPhaseModel::Searching, TailEventModel::Newest(Some(found))) => match s.current {
            Some(old) => if old == found.name {
                read_on(s, p, TailPhaseModel::Reading)
            } else {
                leave(TailModel { current: None, ..s }, p, m, old, found)
            },
            None => turn_to(s, p, found),
        },
        (TailPhaseModel::Sleeping, TailEventModel::Slept) => again(s, p, m),
        (
            TailPhaseModel::Rotating { old, next },
            TailEventModel::Read { lines, new_offset, .. },
        ) => if lines.len() == 0 {
            turn_to(s, p, next)
        } else {
            silent(
                TailModel { offset: new_offset, ..s },
                p,
                TailPhaseModel::RotatingUpload { old, next },
                TailActionModel::UploadPart { lines, push_fight: false },
            )
        },
        (TailPhaseModel::Rotating { next, .. }, TailEventModel::ReadFailed) => turn_to(s, p, next),
        (TailPhaseModel::RotatingUpload { old, next }, TailEventModel::Uploaded) => leave(
            s,
            p,
            m,
            old,
            next,
        ),
        (TailPhaseModel::RotatingUpload { next, .. }, TailEventModel::UploadFailed) => if m.stop {
            turn_to(s, p, next)
        } else {
            silent(s, p, TailPhaseModel::Ended, TailActionModel::End { ok: false })
        },
        (TailPhaseModel::Dating { name }, TailEventModel::DateSet) => follow(s, p, name),
        (TailPhaseModel::Dating { .. }, TailEventModel::DateFailed) => silent(
            s,
            p,
            TailPhaseModel::Ended,
            TailActionModel::End { ok: false },
        ),
        (TailPhaseModel::Reading, TailEventModel::ReadFailed) => sleep(s, p),
        (TailPhaseModel::Reading, TailEventModel::Read { lines, new_offset, file_size }) => if file_size
            < s.offset {
            TailTurnModel {
                note: Some(
                    live_note(
                        p,
                        "tailing"@,
                        "Log truncated \u{2014} reading from the beginning"@,
                    ),
                ),
                ..again(TailModel { offset: 0, ..s }, p, m)
            }
        } else if lines.len() > 0 {
            silent(
                TailModel { offset: new_offset, last_data: m.now as int, dirty: true, ..s },
                p,
                TailPhaseModel::Uploading { any_lines: true },
                TailActionModel::UploadPart { lines, push_fight: false },
            )
        } else if idle(s, m) {
            TailTurnModel {
                note: Some(live_note(p, "idle"@, "Log idle \u{2014} flushing current fight"@)),
                ..silent(
                    TailModel { dirty: false, ..s },
                    p,
                    TailPhaseModel::Uploading { any_lines: false },
                    TailActionModel::UploadPart { lines: seq![], push_fight: true },
                )
            }
        } else {
            sleep(s, p)
        },
        (TailPhaseModel::Uploading { any_lines }, TailEventModel::Uploaded) => if any_lines {
            again(s, p, m)
        } else {
            sleep(s, p)
        },
        (TailPhaseModel::Uploading { .. }, TailEventModel::UploadFailed) => if m.stop {
            wind_up(s, p)
        } else {
            silent(s, p, TailPhaseModel::Ended, TailActionModel::End { ok: false })
        },
        (TailPhaseModel::Sizing, TailEventModel::Size(n)) => if s.offset < n {
            TailTurnModel {
                note: Some(
                    live_note(p, "uploading"@, "Stopping \u{2014} reading the rest of the log..."@),
                ),
                ..read_on(s, p, TailPhaseModel::Draining { until: n })
            }
        } else {
            flush(s, p)
        },
        (TailPhaseModel::Draining { .. }, TailEventModel::ReadFailed) => flush(s, p),
        (
            TailPhaseModel::Draining { until },
            TailEventModel::Read { lines, new_offset, .. },
        ) => if lines.len() == 0 {
            flush(s, p)
        } else {
            silent(
                TailModel { offset: new_offset, ..s },
                p,
                TailPhaseModel::DrainingUpload { until },
                TailActionModel::UploadPart { lines, push_fight: false },
            )
        },
        (TailPhaseModel::DrainingUpload { until }, TailEventModel::Uploaded) => if s.offset < until {
            read_on(s, p, TailPhaseModel::Draining { until })
        } else {
            flush(s, p)
        },
        (TailPhaseModel::DrainingUpload { .. }, TailEventModel::UploadFailed) => flush(s, p),
        _ => silent(s, p, TailPhaseModel::Ended, TailActionModel::End { ok: true }),
    }
}

/// The state in which a directory begins to be watched.
pub open spec fn tail_start(m: Moment) -> TailModel {
    TailModel {
        current: None,
        offset: 0,
        last_data: m.now as int,
        dirty: false,
        waiting_logged: false,
        phase: TailPhaseModel::Ended,
    }
}

proof fn no_texts(v: Seq<String>)
    requires
        v.len() == 0,
    ensures
        texts(v) == Seq::<Seq<char>>::empty(),
{
    assert(texts(v) =~= Seq::<Seq<char>>::empty());
}

impl Tail {
    fn read_on(&mut self, progress: &LiveProgress, phase: TailPhase) -> (r: TailTurn)
        requires
            old(self)@.current is Some,
        ensures
            ({
                let t = read_on(old(self)@, progress@, phase@);
                &&& final(self)@ == t.state
                &&& progress@ == t.progress
                &&& r.action@ == t.action
                &&& note_means(r.note, t.note)
            }),
    {
        self.phase = phase;
        let file = match &self.current {
            Some(f) => f.clone(),
            None => String::new(),
        };
        TailTurn { action: TailAction::ReadChunk { file, offset: self.offset }, note: None }
    }

    fn flush(&mut self, progress: &LiveProgress) -> (r: TailTurn)
        ensures
            ({
                let t = flush(old(self)@, progress@);
                &&& final(self)@ == t.state
                &&& progress@ == t.progress
                &&& r.action@ == t.action
                &&& note_means(r.note, t.note)
            }),
    {
        self.phase = TailPhase::Flushing;
        let note = progress.emit(
            "uploading",
            "Stopping \u{2014} flushing final data...".to_owned(),
        );
        let lines: Vec<String> = Vec::new();
        proof {
            no_texts(lines@);
        }
        TailTurn { action: TailAction::UploadPart { lines, push_fight: true }, note: Some(note) }
    }

    fn wind_up(&mut self, progress: &LiveProgress) -> (r: TailTurn)
        ensures
            ({
                let t = wind_up(old(self)@, progress@);
                &&& final(self)@ == t.state
                &&& progress@ == t.progress
                &&& r.action@ == t.action
                &&& note_means(r.note, t.note)
            }),
    {
        let file = match &self.current {
            Some(f) => f.clone(),
            None => {
                return self.flush(progress);
            },
        };
        self.phase = TailPhase::Sizing;
        TailTurn { action: TailAction::FileSize { file }, note: None }
    }

    fn again(&mut self, progress: &LiveProgress, m: Moment) -> (r: TailTurn)
        ensures
            ({
                let t = again(old(self)@, progress@, m);
                &&& final(self)@ == t.state
                &&& progress@ == t.progress
                &&& r.action@ == t.action
                &&& note_means(r.note, t.note)
            }),
    {
        if m.stop {
            self.wind_up(progress)
        } else {
            self.phase = TailPhase::Searching;
            TailTurn { action: TailAction::FindNewest, note: None }
        }
    }

    fn sleep(&mut self, progress: &LiveProgress) -> (r: TailTurn)
        ensures
            ({
                let t = sleep(old(self)@, progress@);
                &&& final(self)@ == t.state
                &&& progress@ == t.progress
                &&& r.action@ == t.action
                &&& note_means(r.note, t.note)
            }),
    {
        self.phase = TailPhase::Sleeping;
        TailTurn { action: TailAction::Sleep, note: None }
    }

    fn follow(&mut self, progress: &mut LiveProgress, name: String) -> (r: TailTurn)
        ensures
            ({
                let t = follow(old(self)@, old(progress)@, name@);
                &&& final(self)@ == t.state
                &&& final(progress)@ == t.progress
                &&& r.action@ == t.action
                &&& note_means(r.note, t.note)
            }),
    {
        progress.file = Some(name.clone());
        let mut message = "Tailing ".to_owned();
        message.append(&name);
        let note = progress.emit("tailing", message);
        let file = name.clone();
        self.current = Some(name);
        self.waiting_logged = false;
        self.phase = TailPhase::Reading;
        TailTurn {
            action: TailAction::ReadChunk { file, offset: self.offset },
            note: Some(note),
        }
    }

    fn turn_to(&mut self, progress: &mut LiveProgress, next: FoundLog) -> (r: TailTurn)
        ensures
            ({
                let t = turn_to(old(self)@, old(progress)@, next@);
                &&& final(self)@ == t.state
                &&& final(progress)@ == t.progress
                &&& r.action@ == t.action
                &&& note_means(r.note, t.note)
            }),
    {
        self.offset = 0;
        match next.date {
            Some(date) => {
                self.phase = TailPhase::Dating { name: next.name };
                TailTurn { action: TailAction::SetStartDate { date }, note: None }
            },
            None => self.follow(progress, next.name),
        }
    }

    fn leave(&mut self, progress: &mut LiveProgress, m: Moment, old_log: String, next: FoundLog) -> (r:
        TailTurn)
        ensures
            ({
                let t = leave(old(self)@, old(progress)@, m, old_log@, next@);
                &&& final(self)@ == t.state
                &&& final(progress)@ == t.progress
                &&& r.action@ == t.action
                &&& note_means(r.note, t.note)
            }),
    {
        if m.stop {
            return self.turn_to(progress, next);
        }
        let file = old_log.clone();
        self.phase = TailPhase::Rotating { old: old_log, next };
        TailTurn { action: TailAction::ReadChunk { file, offset: self.offset }, note: None }
    }

    fn fail(&mut self) -> (r: TailTurn)
        ensures
            final(self)@ == (TailModel { phase: TailPhaseModel::Ended, ..old(self)@ }),
            r.action@ == (TailActionModel::End { ok: false }),
            r.note is None,
    {
        self.phase = TailPhase::Ended;
        TailTurn { action: TailAction::End { ok: false }, note: None }
    }

    fn newest(&mut self, progress: &mut LiveProgress, found: Option<FoundLog>, m: Moment) -> (r:
        TailTurn)
        requires
            old(self)@.phase is Searching,
        ensures
            ({
                let t = tail_step(old(self)@, old(progress)@, TailEvent::Newest(found)@, m);
                &&& final(self)@ == t.state
                &&& final(progress)@ == t.progress
                &&& r.action@ == t.action
                &&& note_means(r.note, t.note)
            }),
    {
        let next = match found {
            Some(f) => f,
            None => {
                if self.current.is_none() && !self.waiting_logged {
                    self.waiting_logged = true;
                    let note = progress.emit(
                        "waiting",
                        "Waiting for a combat log to appear...".to_owned(),
                    );
                    let mut turn = self.sleep(progress);
                    turn.note = Some(note);
                    return turn;
                }
                return self.sleep(progress);
            },
        };
        let same = match &self.current {
            Some(c) => same_text(c.as_str(), next.name.as_str()),
            None => false,
        };
        if same {
            return self.read_on(progress, TailPhase::Reading);
        }
        let mut before: Option<String> = None;
        core::mem::swap(&mut before, &mut self.current);
        match before {
            Some(old_log) => self.leave(progress, m, old_log, next),
            None => self.turn_to(progress, next),
        }
    }

    fn read(&mut self, progress: &LiveProgress, chunk: Chunk, m: Moment) -> (r: TailTurn)
        requires
            old(self)@.phase is Reading,
            old(self)@.current is Some,
        ensures
            ({
                let t = tail_step(old(self)@, progress@, TailEvent::Read(chunk)@, m);
                &&& final(self)@ == t.state
                &&& progress@ == t.progress
                &&& r.action@ == t.action
                &&& note_means(r.note, t.note)
            }),
    {
        proof {
            assert(texts(chunk.lines@).len() == chunk.lines@.len());
        }
        if chunk.file_size < self.offset {
            self.offset = 0;
            let note = progress.emit(
                "tailing",
                "Log truncated \u{2014} reading from the beginning".to_owned(),
            );
            let mut turn = self.again(progress, m);
            turn.note = Some(note);
            return turn;
        }
        if chunk.lines.len() > 0 {
            self.offset = chunk.new_offset;
            self.last_data = m.now;
            self.dirty = true;
            self.phase = TailPhase::Uploading { any_lines: true };
            return TailTurn {
                action: TailAction::UploadPart { lines: chunk.lines, push_fight: false },
                note: None,
            };
        }
        if self.dirty && m.now > self.last_data && m.now - self.last_data > IDLE_THRESHOLD {
            self.dirty = false;
            let note = progress.emit(
                "idle",
                "Log idle \u{2014} flushing current fight".to_owned(),
            );
            self.phase = TailPhase::Uploading { any_lines: false };
            let lines: Vec<String> = Vec::new();
            proof {
                no_texts(lines@);
            }
            return TailTurn {
                action: TailAction::UploadPart { lines, push_fight: true },
                note: Some(note),
            };
        }
        self.sleep(progress)
    }

    /// Begins to watch a directory.
    pub fn begin(progress: &LiveProgress, m: Moment) -> (r: (Tail, TailTurn))
        ensures
            ({
                let t = again(tail_start(m), progress@, m);
                &&& r.0@ == t.state
                &&& tail_wf(r.0@)
                &&& r.1.action@ == t.action
                &&& note_means(r.1.note, t.note)
            }),
    {
        let mut tail = Tail {
            current: None,
            offset: 0,
            last_data: m.now,
            dirty: false,
            waiting_logged: false,
            phase: TailPhase::Ended,
        };
        let turn = tail.again(progress, m);
        (tail, turn)
    }

    /// The tail can go on with this event.
    pub fn accepts(&self, e: &TailEvent) -> (r: bool)
        ensures
            r == tail_awaited(self@, e@),
    {
        match (&self.phase, e) {
            (TailPhase::Searching, TailEvent::Newest(_)) => true,
            (TailPhase::Sleeping, TailEvent::Slept) => true,
            (TailPhase::Rotating { .. }, TailEvent::Read(_) | TailEvent::ReadFailed) => true,
            (
                TailPhase::RotatingUpload { .. },
                TailEvent::Uploaded | TailEvent::UploadFailed,
            ) => true,
            (TailPhase::Dating { .. }, TailEvent::DateSet | TailEvent::DateFailed) => true,
            (TailPhase::Reading, TailEvent::Read(_) | TailEvent::ReadFailed) => true,
            (TailPhase::Uploading { .. }, TailEvent::Uploaded | TailEvent::UploadFailed) => true,
            (TailPhase::Sizing, TailEvent::Size(_)) => true,
            (TailPhase::Draining { .. }, TailEvent::Read(_) | TailEvent::ReadFailed) => true,
            (
                TailPhase::DrainingUpload { .. },
                TailEvent::Uploaded | TailEvent::UploadFailed,
            ) => true,
            (TailPhase::Flushing, TailEvent::Uploaded | TailEvent::UploadFailed) => true,
            _ => false,
        }
    }

    /// What to do after an event.
    pub fn step(&mut self, progress: &mut LiveProgress, e: TailEvent, m: Moment) -> (r: TailTurn)
        requires
            tail_wf(old(self)@),
            tail_awaited(old(self)@, e@),
        ensures
            tail_wf(final(self)@),
            ({
                let t = tail_step(old(self)@, old(progress)@, e@, m);
                &&& final(self)@ == t.state
                &&& final(progress)@ == t.progress
                &&& r.action@ == t.action
                &&& note_means(r.note, t.note)
            }),
    {
        let mut phase = TailPhase::Ended;
        core::mem::swap(&mut phase, &mut self.phase);
        match (phase, e) {
            (TailPhase::Searching, TailEvent::Newest(found)) => {
                self.phase = TailPhase::Searching;
                self.newest(progress, found, m)
            },
            (TailPhase::Sleeping, TailEvent::Slept) => self.again(progress, m),
            (TailPhase::Rotating { old: old_log, next }, TailEvent::Read(chunk)) => {
                proof {
                    assert(texts(chunk.lines@).len() == chunk.lines@.len());
                }
                if chunk.lines.len() == 0 {
                    return self.turn_to(progress, next);
                }
                self.offset = chunk.new_offset;
                self.phase = TailPhase::RotatingUpload { old: old_log, next };
                TailTurn {
                    action: TailAction::UploadPart { lines: chunk.lines, push_fight: false },
                    note: None,
                }
            },
            (TailPhase::Rotating { next, .. }, TailEvent::ReadFailed) => {
                self.turn_to(progress, next)
            },
            (TailPhase::RotatingUpload { old: old_log, next }, TailEvent::Uploaded) => {
                self.leave(progress, m, old_log, next)
            },
            (TailPhase::RotatingUpload { next, .. }, TailEvent::UploadFailed) => {
                if m.stop {
                    self.turn_to(progress, next)
                } else {
                    self.fail()
                }
            },
            (TailPhase::Dating { name }, TailEvent::DateSet) => self.follow(progress, name),
            (TailPhase::Dating { .. }, TailEvent::DateFailed) => self.fail(),
            (TailPhase::Reading, TailEvent::ReadFailed) => self.sleep(progress),
            (TailPhase::Reading, TailEvent::Read(chunk)) => {
                self.phase = TailPhase::Reading;
                self.read(progress, chunk, m)
            },
            (TailPhase::Uploading { any_lines }, TailEvent::Uploaded) => {
                if any_lines {
                    self.again(progress, m)
                } else {
                    self.sleep(progress)
                }
            },
            (TailPhase::Uploading { .. }, TailEvent::UploadFailed) => {
                if m.stop {
                    self.wind_up(progress)
                } else {
                    self.fail()
                }
            },
            (TailPhase::Sizing, TailEvent::Size(n)) => {
                if self.offset < n {
                    let note = progress.emit(
                        "uploading",
                        "Stopping \u{2014} reading the rest of the log...".to_owned(),
                    );
                    let mut turn = self.read_on(progress, TailPhase::Draining { until: n });
                    turn.note = Some(note);
                    turn
                } else {
                    self.flush(progress)
                }
            },
            (TailPhase::Draining { .. }, TailEvent::ReadFailed) => self.flush(progress),
            (TailPhase::Draining { until }, TailEvent::Read(chunk)) => {
                proof {
                    assert(texts(chunk.lines@).len() == chunk.lines@.len());
                }
                if chunk.lines.len() == 0 {
                    return self.flush(progress);
                }
                self.offset = chunk.new_offset;
                self.phase = TailPhase::DrainingUpload { until };
                TailTurn {
                    action: TailAction::UploadPart { lines: chunk.lines, push_fight: false },
                    note: None,
                }
            },
            (TailPhase::DrainingUpload { until }, TailEvent::Uploaded) => {
                if self.offset < until {
                    self.read_on(progress, TailPhase::Draining { until })
                } else {
                    self.flush(progress)
                }
            },
            (TailPhase::DrainingUpload { .. }, TailEvent::UploadFailed) => self.flush(progress),
            _ => TailTurn { action: TailAction::End { ok: true }, note: None },
        }
    }
}

/// An event, and the moment it came.
pub type Timed = (TailEventModel, Moment);

/// Where the following of a log stands after these events.
pub open spec fn tail_run(m: Moment, p: ProgressModel, es: Seq<Timed>) -> TailTurnModel
    decreases es.len(),
{
    if es.len() == 0 {
        again(tail_start(m), p, m)
    } else {
        let t = tail_run(m, p, es.drop_last());
        tail_step(t.state, t.progress, es.last().0, es.last().1)
    }
}

/// Every event was one that was waited for.
pub open spec fn tail_legal(m: Moment, p: ProgressModel, es: Seq<Timed>) -> bool
    decreases es.len(),
{
    es.len() == 0 || (tail_legal(m, p, es.drop_last()) && tail_awaited(
        tail_run(m, p, es.drop_last()).state,
        es.last().0,
    ))
}

/// The action is the one whose result the state waits for.
pub open spec fn action_fits(t: TailTurnModel) -> bool {
    let s = t.state;
    match s.phase {
        TailPhaseModel::Searching => t.action is FindNewest,
        TailPhaseModel::Sleeping => t.action is Sleep,
        TailPhaseModel::Rotating { old, .. } => t.action == (TailActionModel::ReadChunk {
            file: old,
            offset: s.offset,
        }),
        TailPhaseModel::Dating { .. } => t.action is SetStartDate,
        TailPhaseModel::Reading | TailPhaseModel::Draining { .. } => s.current is Some && t.action
            == (TailActionModel::ReadChunk { file: s.current->Some_0, offset: s.offset }),
        TailPhaseModel::Uploading { any_lines } => s.current is Some && (
        t.action matches TailActionModel::UploadPart { lines, push_fight } && (lines.len() > 0)
            == any_lines && push_fight == !any_lines),
        TailPhaseModel::RotatingUpload { .. } => t.action matches TailActionModel::UploadPart {
            lines,
            push_fight,
        } && lines.len() > 0 && !push_fight,
        TailPhaseModel::DrainingUpload { .. } => s.current is Some && (
        t.action matches TailActionModel::UploadPart { lines, push_fight } && lines.len() > 0
            && !push_fight),
        TailPhaseModel::Sizing => s.current is Some && t.action == (TailActionModel::FileSize {
            file: s.current->Some_0,
        }),
        TailPhaseModel::Flushing => t.action == (TailActionModel::UploadPart {
            lines: seq![],
            push_fight: true,
        }),
        TailPhaseModel::Ended => t.action is End,
    }
}

proof fn step_fits(s: TailModel, p: ProgressModel, e: TailEventModel, m: Moment)
    requires
        tail_awaited(s, e),
        tail_wf(s),
    ensures
        action_fits(tail_step(s, p, e, m)),
{
}

/// Whatever happens, the state waits for the result of the action that was asked for.
pub proof fn actions_fit(m: Moment, p: ProgressModel, es: Seq<Timed>)
    requires
        tail_legal(m, p, es),
    ensures
        action_fits(tail_run(m, p, es)),
        tail_wf(tail_run(m, p, es).state),
    decreases es.len(),
{
    if es.len() > 0 {
        actions_fit(m, p, es.drop_last());
        let t = tail_run(m, p, es.drop_last());
        step_fits(t.state, t.progress, es.last().0, es.last().1);
    }
}

/// A log that is followed to a good end has its current fight flushed: the last thing asked
/// for before the end is an upload that takes the fight as finished.
pub proof fn flushed_before_the_end(m: Moment, p: ProgressModel, es: Seq<Timed>)
    requires
        tail_legal(m, p, es),
        tail_run(m, p, es).action == (TailActionModel::End { ok: true }),
    ensures
        es.len() > 0,
        tail_run(m, p, es.drop_last()).action == (TailActionModel::UploadPart {
            lines: seq![],
            push_fight: true,
        }),
{
    assert(es.len() > 0);
    actions_fit(m, p, es.drop_last());
}

/// The following of a log breaks off only when an upload fails although no stop was asked
/// for, or when the parser does not take the date.
pub proof fn breaks_off_only_on_failure(m: Moment, p: ProgressModel, es: Seq<Timed>)
    requires
        tail_legal(m, p, es),
        tail_run(m, p, es).action == (TailActionModel::End { ok: false }),
    ensures
        es.len() > 0,
        es.last().0 is DateFailed || (es.last().0 is UploadFailed && !es.last().1.stop),
{
    assert(es.len() > 0);
}

/// Once a stop is asked for, no other log is looked for.
pub proof fn no_search_after_stop(m: Moment, p: ProgressModel, es: Seq<Timed>)
    requires
        tail_legal(m, p, es),
        es.len() > 0,
        es.last().1.stop,
    ensures
        !(tail_run(m, p, es).action is FindNewest),
{
}

/// A file that has shrunk below the offset gives no lines.
pub open spec fn sane_piece(offset: int, e: TailEventModel) -> bool {
    e matches TailEventModel::Read { lines, file_size, .. } ==> (file_size < offset ==> lines.len()
        == 0)
}

/// No piece of a file that has shrunk below its offset has any lines.
pub open spec fn sane_pieces(m: Moment, p: ProgressModel, es: Seq<Timed>) -> bool
    decreases es.len(),
{
    es.len() == 0 || (sane_pieces(m, p, es.drop_last()) && sane_piece(
        tail_run(m, p, es.drop_last()).state.offset,
        es.last().0,
    ))
}

/// Every line that is read is handed on: a piece with lines is uploaded next, all of it, and
/// the log is then read on where the piece ended.
pub proof fn what_is_read_is_uploaded(m: Moment, p: ProgressModel, es: Seq<Timed>)
    requires
        tail_legal(m, p, es),
        sane_pieces(m, p, es),
        es.len() > 0,
        es.last().0 matches TailEventModel::Read { lines, .. } && lines.len() > 0,
    ensures
        es.last().0 matches TailEventModel::Read { lines, new_offset, .. } && tail_run(
            m,
            p,
            es,
        ).action == (TailActionModel::UploadPart { lines, push_fight: false }) && tail_run(
            m,
            p,
            es,
        ).state.offset == new_offset,
{
}

/// Which file was read last, and where it is to be read on.
pub open spec fn last_read(m: Moment, p: ProgressModel, es: Seq<Timed>) -> Option<(Seq<char>, int)>
    decreases es.len(),
{
    if es.len() == 0 {
        None
    } else {
        match (tail_run(m, p, es.drop_last()).action, es.last().0) {
            (
                TailActionModel::ReadChunk { file, offset },
                TailEventModel::Read { lines, new_offset, file_size },
            ) => Some(
                (
                    file,
                    if file_size < offset {
                        0
                    } else if lines.len() > 0 {
                        new_offset
                    } else {
                        offset
                    },
                ),
            ),
            (TailActionModel::ReadChunk { file, offset }, TailEventModel::ReadFailed) => Some(
                (file, offset),
            ),
            _ => last_read(m, p, es.drop_last()),
        }
    }
}

/// Where a file is to be read on: where the last piece of it ended, or at its beginning where
/// it was not the file read last.
pub open spec fn resumes_at(last: Option<(Seq<char>, int)>, file: Seq<char>) -> int {
    match last {
        Some((f, n)) => if f == file {
            n
        } else {
            0
        },
        None => 0,
    }
}

/// What is known of the last read in each phase.
spec fn read_known(t: TailTurnModel, last: Option<(Seq<char>, int)>) -> bool {
    let s = t.state;
    &&& t.action matches TailActionModel::ReadChunk { file, offset } ==> offset == resumes_at(
        last,
        file,
    )
    &&& match s.phase {
        TailPhaseModel::Searching | TailPhaseModel::Sleeping | TailPhaseModel::Uploading { .. } => match s.current {
            Some(c) => last == Some((c, s.offset)),
            None => last is None,
        },
        TailPhaseModel::Sizing | TailPhaseModel::DrainingUpload { .. } => s.current is Some && last
            == Some((s.current->Some_0, s.offset)),
        TailPhaseModel::Rotating { old, next } => old != next.name && last == Some((old, s.offset)),
        TailPhaseModel::RotatingUpload { old, next } => old != next.name && last == Some(
            (old, s.offset),
        ),
        TailPhaseModel::Dating { name } => s.offset == 0 && (last matches Some((f, _)) ==> f
            != name),
        _ => true,
    }
}

proof fn step_keeps_last(
    t: TailTurnModel,
    last: Option<(Seq<char>, int)>,
    e: TailEventModel,
    m: Moment,
    now_last: Option<(Seq<char>, int)>,
)
    requires
        action_fits(t),
        read_known(t, last),
        tail_awaited(t.state, e),
        sane_piece(t.state.offset, e),
        now_last == match (t.action, e) {
            (
                TailActionModel::ReadChunk { file, offset },
                TailEventModel::Read { lines, new_offset, file_size },
            ) => Some(
                (
                    file,
                    if file_size < offset {
                        0
                    } else if lines.len() > 0 {
                        new_offset
                    } else {
                        offset
                    },
                ),
            ),
            (TailActionModel::ReadChunk { file, offset }, TailEventModel::ReadFailed) => Some(
                (file, offset),
            ),
            _ => last,
        },
    ensures
        read_known(tail_step(t.state, t.progress, e, m), now_last),
{
}

proof fn last_read_known(m: Moment, p: ProgressModel, es: Seq<Timed>)
    requires
        tail_legal(m, p, es),
        sane_pieces(m, p, es),
    ensures
        read_known(tail_run(m, p, es), last_read(m, p, es)),
    decreases es.len(),
{
    if es.len() > 0 {
        let d = es.drop_last();
        last_read_known(m, p, d);
        actions_fit(m, p, d);
        step_keeps_last(
            tail_run(m, p, d),
            last_read(m, p, d),
            es.last().0,
            es.last().1,
            last_read(m, p, es),
        );
    }
}

/// A log is read without gaps and without reading anything twice: every read begins where the
/// last piece of the same log ended, and at the beginning where the log is new or was
/// truncated.
pub proof fn reading_goes_on_where_it_ended(m: Moment, p: ProgressModel, es: Seq<Timed>)
    requires
        tail_legal(m, p, es),
        sane_pieces(m, p, es),
    ensures
        tail_run(m, p, es).action matches TailActionModel::ReadChunk { file, offset } ==> offset
            == resumes_at(last_read(m, p, es), file),
{
    last_read_known(m, p, es);
}

/// When lines of the current log were read last, unless its fight was flushed since.
pub open spec fn fresh_since(m: Moment, p: ProgressModel, es: Seq<Timed>) -> Option<int>
    decreases es.len(),
{
    if es.len() == 0 {
        None
    } else {
        match tail_run(m, p, es).state.phase {
            TailPhaseModel::Uploading { any_lines } => if any_lines {
                Some(es.last().1.now as int)
            } else {
                None
            },
            _ => fresh_since(m, p, es.drop_last()),
        }
    }
}

proof fn silence_is_measured(m: Moment, p: ProgressModel, es: Seq<Timed>)
    requires
        tail_legal(m, p, es),
    ensures
        ({
            let s = tail_run(m, p, es).state;
            match fresh_since(m, p, es) {
                Some(t) => s.dirty && s.last_data == t,
                None => !s.dirty,
            }
        }),
    decreases es.len(),
{
    if es.len() > 0 {
        silence_is_measured(m, p, es.drop_last());
    }
}

/// When a read of the current log brings nothing new, its fight is flushed exactly if there
/// were lines since the last flush and the last of them is longer ago than the threshold;
/// otherwise there is a pause.
pub proof fn flushed_after_silence(m: Moment, p: ProgressModel, es: Seq<Timed>)
    requires
        tail_legal(m, p, es),
        es.len() > 0,
        tail_run(m, p, es.drop_last()).state.phase is Reading,
        es.last().0 matches TailEventModel::Read { lines, file_size, .. } && lines.len() == 0
            && file_size >= tail_run(m, p, es.drop_last()).state.offset,
    ensures
        tail_run(m, p, es).action == if fresh_since(m, p, es.drop_last()) matches Some(t)
            && es.last().1.now - t > IDLE_THRESHOLD {
            TailActionModel::UploadPart { lines: seq![], push_fight: true }
        } else {
            TailActionModel::Sleep
        },
{
    silence_is_measured(m, p, es.drop_last());
}

/// The size that the log had when the stop was asked for.
pub open spec fn size_at_stop(es: Seq<Timed>) -> Option<int>
    decreases es.len(),
{
    if es.len() == 0 {
        None
    } else {
        match es.last().0 {
            TailEventModel::Size(n) => Some(n),
            _ => size_at_stop(es.drop_last()),
        }
    }
}

/// While the log is drained, the state knows the size that it had at the stop.
pub proof fn drain_knows_the_size(m: Moment, p: ProgressModel, es: Seq<Timed>)
    requires
        tail_legal(m, p, es),
    ensures
        match tail_run(m, p, es).state.phase {
            TailPhaseModel::Draining { until } => size_at_stop(es) == Some(until),
            TailPhaseModel::DrainingUpload { until } => size_at_stop(es) == Some(until),
            _ => true,
        },
    decreases es.len(),
{
    if es.len() > 0 {
        drain_knows_the_size(m, p, es.drop_last());
    }
}

/// After a stop the log is first read to the size that it had then. Only a read or an upload
/// that fails, or a read that finds no complete line, cuts this short.
pub proof fn drained_after_stop(m: Moment, p: ProgressModel, es: Seq<Timed>)
    requires
        tail_legal(m, p, es),
        es.len() > 0,
        tail_run(m, p, es).state.phase is Flushing,
        tail_run(m, p, es).state.current is Some,
    ensures
        es.last().0 is ReadFailed || es.last().0 is UploadFailed || (
        es.last().0 matches TailEventModel::Read { lines, .. } && lines.len() == 0) || (
        size_at_stop(es) matches Some(n) && tail_run(m, p, es).state.offset >= n),
{
    drain_knows_the_size(m, p, es);
    drain_knows_the_size(m, p, es.drop_last());
    actions_fit(m, p, es.drop_last());
}

} // verus!
