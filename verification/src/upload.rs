//! Uploading a finished log: which step follows which.
//!
//! The log is parsed in batches. The fights of a batch become a segment of the report, which
//! is created with the first of them; the master table goes up whenever it has changed.
use vstd::prelude::*;
use vstd::string::*;

use crate::fights::countable;
use crate::fights::event_total;
use crate::fights::fight_data;
use crate::fights::fights_empty;
use crate::fights::fights_of;
use crate::fights::ids_model;
use crate::fights::master_ids;
use crate::fights::master_ids_of;
use crate::fights::master_string;
use crate::fights::build_master_string;
use crate::fights::FightData;
use crate::fights::FightModel;
use crate::fights::MasterIds;
use crate::json::Json;
use crate::json::JsonTree;
use crate::numbers::decimal;
use crate::numbers::format_with_commas;
use crate::numbers::push_i64;
use crate::numbers::push_nat;
use crate::numbers::with_commas;
use crate::text::copy_option;
use crate::text::text_option;
use crate::wcl::SegmentInfo;

verus! {

/// How many lines are parsed at a time.
pub const BATCH_SIZE: u64 = 100_000;

/// The share of the progress bar that is used up before the first batch, in percent.
pub const UPLOAD_UI_RESERVED_PCT: u32 = 10;

/// The most lines that the progress of an upload can be counted over: eighty times the number
/// of their batches fits into 32 bits.
pub const MAX_LINES: u64 = 5_368_709_100_000;

/// How many batches so many lines make.
pub open spec fn batches(total: int) -> int {
    (total + BATCH_SIZE - 1) / (BATCH_SIZE as int)
}

/// Where batch `b` begins.
pub open spec fn batch_start(b: int) -> int {
    b * BATCH_SIZE
}

/// Where batch `b` ends.
pub open spec fn batch_end(total: int, b: int) -> int {
    if batch_start(b + 1) <= total {
        batch_start(b + 1)
    } else {
        total
    }
}

/// The progress while batch number `num`, counted from one, of `of` is worked on, in percent.
pub open spec fn progress_pct(num: int, of: int) -> int {
    UPLOAD_UI_RESERVED_PCT + 80 * num / (if of > 1 {
        of
    } else {
        1
    })
}

/// A message about the progress.
pub struct Note {
    pub step: &'static str,
    pub message: String,
    pub pct: u32,
}

/// The model of a message.
pub struct NoteModel {
    pub step: Seq<char>,
    pub message: Seq<char>,
    pub pct: int,
}

/// How far the preparations of an upload have come.
pub enum Setup {
    ReadingLog,
    /// The log is read and has so many lines.
    LogRead(usize),
    OpeningSession,
    LoggingIn,
    /// Logged in under this name.
    LoggedIn(String),
    FetchingParser,
    /// This version of the parser is fetched.
    ParserFetched(i32),
    StartingParser,
    ParserReady,
}

/// The message for each stage of the preparations.
pub open spec fn setup_note(s: Setup) -> NoteModel {
    match s {
        Setup::ReadingLog => NoteModel {
            step: "read"@,
            message: "Reading log file..."@,
            pct: 1,
        },
        Setup::LogRead(n) => NoteModel {
            step: "read"@,
            message: "Read "@ + with_commas(n as nat) + " lines"@,
            pct: 2,
        },
        Setup::OpeningSession => NoteModel {
            step: "session"@,
            message: "Initializing session..."@,
            pct: 3,
        },
        Setup::LoggingIn => NoteModel { step: "login"@, message: "Logging in..."@, pct: 4 },
        Setup::LoggedIn(name) => NoteModel {
            step: "login"@,
            message: "Logged in as "@ + name@,
            pct: 5,
        },
        Setup::FetchingParser => NoteModel {
            step: "fetch-parser"@,
            message: "Fetching latest parser..."@,
            pct: 6,
        },
        Setup::ParserFetched(v) => NoteModel {
            step: "fetch-parser"@,
            message: "Parser v"@ + decimal(v as int) + " loaded"@,
            pct: 7,
        },
        Setup::StartingParser => NoteModel {
            step: "parser"@,
            message: "Starting parser..."@,
            pct: 8,
        },
        Setup::ParserReady => NoteModel { step: "parser"@, message: "Parser ready"@, pct: 9 },
    }
}

impl Setup {
    /// The message for this stage of the preparations.
    pub fn note(&self) -> (r: Note)
        ensures
            r@ == setup_note(*self),
    {
        match self {
            Setup::ReadingLog => Note {
                step: "read",
                message: "Reading log file...".to_owned(),
                pct: 1,
            },
            Setup::LogRead(n) => {
                let mut message = "Read ".to_owned();
                let count = format_with_commas(*n);
                message.append(&count);
                message.append(" lines");
                Note { step: "read", message, pct: 2 }
            },
            Setup::OpeningSession => Note {
                step: "session",
                message: "Initializing session...".to_owned(),
                pct: 3,
            },
            Setup::LoggingIn => Note {
                step: "login",
                message: "Logging in...".to_owned(),
                pct: 4,
            },
            Setup::LoggedIn(name) => {
                let mut message = "Logged in as ".to_owned();
                message.append(name);
                Note { step: "login", message, pct: 5 }
            },
            Setup::FetchingParser => Note {
                step: "fetch-parser",
                message: "Fetching latest parser...".to_owned(),
                pct: 6,
            },
            Setup::ParserFetched(v) => {
                let mut message = "Parser v".to_owned();
                push_i64(&mut message, *v as i64);
                message.append(" loaded");
                Note { step: "fetch-parser", message, pct: 7 }
            },
            Setup::StartingParser => Note {
                step: "parser",
                message: "Starting parser...".to_owned(),
                pct: 8,
            },
            Setup::ParserReady => Note {
                step: "parser",
                message: "Parser ready".to_owned(),
                pct: 9,
            },
        }
    }
}

/// What is said of a log without fights.
pub fn no_fights_message() -> (r: String)
    ensures
        r@ == "No fights found in log file."@,
{
    "No fights found in log file.".to_owned()
}

/// What to do next.
pub enum Action {
    /// Have the parser parse the lines `from..to`.
    ParseLines { from: u64, to: u64 },
    /// Have the parser hand over its fights, the current one with them.
    CollectFights,
    /// Create the report.
    CreateReport { start_time: i64, end_time: i64 },
    /// Have the parser hand over its master table.
    CollectMasterInfo,
    /// Upload this master table.
    SetMasterTable { segment_id: i64, text: String },
    /// Upload this segment.
    AddSegment { segment: SegmentInfo, text: String },
    /// Have the parser forget the fights.
    ClearFights,
    /// Close the parser.
    CloseParser,
    /// End this report.
    TerminateReport { code: String },
    /// The upload is over: announce this report.
    Announce { code: String },
    /// The upload is over: complain that the log held no fights.
    NoFights,
    /// The upload is over: the failure of the last action is the reason.
    GiveUp,
}

/// The model of an action.
pub enum ActionModel {
    ParseLines { from: int, to: int },
    CollectFights,
    CreateReport { start_time: int, end_time: int },
    CollectMasterInfo,
    SetMasterTable { segment_id: int, text: Seq<char> },
    AddSegment { segment_id: int, data: FightModel },
    ClearFights,
    CloseParser,
    TerminateReport { code: Seq<char> },
    Announce { code: Seq<char> },
    NoFights,
    GiveUp,
}

/// What came of the last action.
pub enum Event {
    Parsed,
    Fights(Json),
    Created(String),
    Master(Json),
    MasterSet,
    Added(i64),
    Cleared,
    Closed,
    Terminated,
    /// The action failed.
    Failed,
}

/// The model of an event.
pub enum EventModel {
    Parsed,
    Fights(JsonTree),
    Created(Seq<char>),
    Master(JsonTree),
    MasterSet,
    Added(int),
    Cleared,
    Closed,
    Terminated,
    Failed,
}

/// What the upload is waiting for.
pub enum Phase {
    Parsing,
    Collecting,
    Creating(FightData),
    Mastering(FightData),
    SettingMaster(FightData, MasterIds),
    Adding { events: i64 },
    Clearing { events: i64 },
    Closing,
    Terminating,
    Done,
}

/// The model of a phase.
pub enum PhaseModel {
    Parsing,
    Collecting,
    Creating(FightModel),
    Mastering(FightModel),
    SettingMaster(FightModel, (int, int, int, int)),
    Adding { events: int },
    Clearing { events: int },
    Closing,
    Terminating,
    Done,
}

/// The state of an upload.
pub struct Upload {
    total: u64,
    batch: u64,
    segment_id: i64,
    report: Option<String>,
    last_ids: Option<MasterIds>,
    phase: Phase,
}

/// The model of the state of an upload.
pub struct UploadModel {
    /// How many lines the log has.
    pub total: int,
    /// Which batch is being worked on.
    pub batch: int,
    /// The id that the next segment will have.
    pub segment_id: int,
    /// The code of the report, once it is created.
    pub report: Option<Seq<char>>,
    /// The fingerprint of the master table that was uploaded last.
    pub last_ids: Option<(int, int, int, int)>,
    pub phase: PhaseModel,
}

/// A step: the new state, what to do, and what to say.
pub struct TurnModel {
    pub state: UploadModel,
    pub action: ActionModel,
    pub note: Option<NoteModel>,
}

/// What to do, and what to say.
pub struct Turn {
    pub action: Action,
    pub note: Option<Note>,
}

impl View for Note {
    type V = NoteModel;

    open spec fn view(&self) -> NoteModel {
        NoteModel { step: self.step@, message: self.message@, pct: self.pct as int }
    }
}

/// The segment that a finished log sends: neither live nor a preview.
pub open spec fn plain_segment(s: SegmentInfo, data: FightModel) -> bool {
    &&& s.start_time == data.start_time
    &&& s.end_time == data.end_time
    &&& s.mythic == data.mythic
    &&& !s.is_live_log
    &&& !s.is_real_time
    &&& s.in_progress_event_count == 0
}

impl Action {
    /// The action does what the model says.
    pub open spec fn means(self, m: ActionModel) -> bool {
        match m {
            ActionModel::ParseLines { from, to } => self matches Action::ParseLines {
                from: f,
                to: t,
            } && f == from && t == to,
            ActionModel::CollectFights => self is CollectFights,
            ActionModel::CreateReport { start_time, end_time } => self matches Action::CreateReport {
                start_time: s,
                end_time: e,
            } && s == start_time && e == end_time,
            ActionModel::CollectMasterInfo => self is CollectMasterInfo,
            ActionModel::SetMasterTable {
                segment_id,
                text,
            } => self matches Action::SetMasterTable { segment_id: i, text: t } && i == segment_id
                && t@ == text,
            ActionModel::AddSegment {
                segment_id,
                data,
            } => self matches Action::AddSegment { segment, text } && segment.segment_id
                == segment_id && plain_segment(segment, data) && text@ == data.text,
            ActionModel::ClearFights => self is ClearFights,
            ActionModel::CloseParser => self is CloseParser,
            ActionModel::TerminateReport { code } => self matches Action::TerminateReport { code: c }
                && c@ == code,
            ActionModel::Announce { code } => self matches Action::Announce { code: c } && c@
                == code,
            ActionModel::NoFights => self is NoFights,
            ActionModel::GiveUp => self is GiveUp,
        }
    }
}

impl View for Event {
    type V = EventModel;

    open spec fn view(&self) -> EventModel {
        match self {
            Event::Parsed => EventModel::Parsed,
            Event::Fights(fd) => EventModel::Fights(fd.tree()),
            Event::Created(code) => EventModel::Created(code@),
            Event::Master(mi) => EventModel::Master(mi.tree()),
            Event::MasterSet => EventModel::MasterSet,
            Event::Added(next) => EventModel::Added(*next as int),
            Event::Cleared => EventModel::Cleared,
            Event::Closed => EventModel::Closed,
            Event::Terminated => EventModel::Terminated,
            Event::Failed => EventModel::Failed,
        }
    }
}

impl View for Phase {
    type V = PhaseModel;

    open spec fn view(&self) -> PhaseModel {
        match self {
            Phase::Parsing => PhaseModel::Parsing,
            Phase::Collecting => PhaseModel::Collecting,
            Phase::Creating(d) => PhaseModel::Creating(d@),
            Phase::Mastering(d) => PhaseModel::Mastering(d@),
            Phase::SettingMaster(d, ids) => PhaseModel::SettingMaster(d@, ids_model(*ids)),
            Phase::Adding { events } => PhaseModel::Adding { events: *events as int },
            Phase::Clearing { events } => PhaseModel::Clearing { events: *events as int },
            Phase::Closing => PhaseModel::Closing,
            Phase::Terminating => PhaseModel::Terminating,
            Phase::Done => PhaseModel::Done,
        }
    }
}

impl View for Upload {
    type V = UploadModel;

    closed spec fn view(&self) -> UploadModel {
        UploadModel {
            total: self.total as int,
            batch: self.batch as int,
            segment_id: self.segment_id as int,
            report: text_option(self.report),
            last_ids: match self.last_ids {
                Some(ids) => Some(ids_model(ids)),
                None => None,
            },
            phase: self.phase@,
        }
    }
}

/// The event is what the upload is waiting for, and its fights can be counted. Every action
/// can fail but closing the parser.
pub open spec fn awaited(phase: PhaseModel, e: EventModel) -> bool {
    match phase {
        PhaseModel::Parsing => e is Parsed || e is Failed,
        PhaseModel::Collecting => match e {
            EventModel::Fights(fd) => countable(fd),
            _ => e is Failed,
        },
        PhaseModel::Creating(_) => e is Created || e is Failed,
        PhaseModel::Mastering(_) => e is Master || e is Failed,
        PhaseModel::SettingMaster(_, _) => e is MasterSet || e is Failed,
        PhaseModel::Adding { .. } => e is Added || e is Failed,
        PhaseModel::Clearing { .. } => e is Cleared || e is Failed,
        PhaseModel::Closing => e is Closed,
        PhaseModel::Terminating => e is Terminated || e is Failed,
        PhaseModel::Done => false,
    }
}

/// Where the batch that is worked on lies among all batches: `3/7`.
pub open spec fn batch_place(s: UploadModel) -> Seq<char> {
    decimal(s.batch + 1) + "/"@ + decimal(batches(s.total))
}

/// A message while the current batch is worked on.
pub open spec fn batch_note(s: UploadModel, step: Seq<char>, message: Seq<char>) -> NoteModel {
    NoteModel { step, message, pct: progress_pct(s.batch + 1, batches(s.total)) }
}

/// Starts on batch `b`, or closes the parser where there is none.
pub open spec fn enter_batch(s: UploadModel, b: int, note: Option<NoteModel>) -> TurnModel {
    if batch_start(b) < s.total {
        TurnModel {
            state: UploadModel { batch: b, phase: PhaseModel::Parsing, ..s },
            action: ActionModel::ParseLines { from: batch_start(b), to: batch_end(s.total, b) },
            note,
        }
    } else {
        TurnModel {
            state: UploadModel { batch: b, phase: PhaseModel::Closing, ..s },
            action: ActionModel::CloseParser,
            note,
        }
    }
}

/// Sends the segment.
pub open spec fn send_segment(s: UploadModel, data: FightModel) -> TurnModel {
    TurnModel {
        state: UploadModel { phase: PhaseModel::Adding { events: data.events }, ..s },
        action: ActionModel::AddSegment { segment_id: s.segment_id, data },
        note: None,
    }
}

/// Ends the upload.
pub open spec fn over(s: UploadModel, action: ActionModel) -> TurnModel {
    TurnModel { state: UploadModel { phase: PhaseModel::Done, ..s }, action, note: None }
}

/// The step that an event leads to.
pub open spec fn upload_step(s: UploadModel, e: EventModel) -> TurnModel {
    match (s.phase, e) {
        (PhaseModel::Parsing, EventModel::Parsed) => TurnModel {
            state: UploadModel { phase: PhaseModel::Collecting, ..s },
            action: ActionModel::CollectFights,
            note: None,
        },
        (PhaseModel::Collecting, EventModel::Fights(fd)) => if fights_of(fd).len() == 0 {
            enter_batch(
                s,
                s.batch + 1,
                Some(
                    batch_note(
                        s,
                        "parse"@,
                        "Batch "@ + batch_place(s) + " \u{2014} no fights yet"@,
                    ),
                ),
            )
        } else if s.report is None {
            TurnModel {
                state: UploadModel { phase: PhaseModel::Creating(fight_data(fd)), ..s },
                action: ActionModel::CreateReport {
                    start_time: fight_data(fd).start_time,
                    end_time: fight_data(fd).end_time,
                },
                note: None,
            }
        } else {
            TurnModel {
                state: UploadModel { phase: PhaseModel::Mastering(fight_data(fd)), ..s },
                action: ActionModel::CollectMasterInfo,
                note: None,
            }
        },
        (PhaseModel::Creating(data), EventModel::Created(code)) => TurnModel {
            state: UploadModel {
                report: Some(code),
                phase: PhaseModel::Mastering(data),
                ..s
            },
            action: ActionModel::CollectMasterInfo,
            note: Some(batch_note(s, "report"@, "Report created: "@ + code)),
        },
        (PhaseModel::Mastering(data), EventModel::Master(mi)) => if s.last_ids == Some(
            master_ids_of(mi),
        ) {
            send_segment(s, data)
        } else {
            TurnModel {
                state: UploadModel {
                    phase: PhaseModel::SettingMaster(data, master_ids_of(mi)),
                    ..s
                },
                action: ActionModel::SetMasterTable {
                    segment_id: s.segment_id,
                    text: master_string(mi, data.log_version, data.game_version),
                },
                note: None,
            }
        },
        (PhaseModel::SettingMaster(data, ids), EventModel::MasterSet) => send_segment(
            UploadModel { last_ids: Some(ids), ..s },
            data,
        ),
        (PhaseModel::Adding { events }, EventModel::Added(next)) => TurnModel {
            state: UploadModel {
                segment_id: if next == 0 {
                    s.segment_id
                } else {
                    next
                },
                phase: PhaseModel::Clearing { events },
                ..s
            },
            action: ActionModel::ClearFights,
            note: None,
        },
        (PhaseModel::Clearing { events }, EventModel::Cleared) => enter_batch(
            s,
            s.batch + 1,
            Some(
                batch_note(
                    s,
                    "upload"@,
                    "Segment "@ + batch_place(s) + " \u{2014} "@ + with_commas(
                        (events as usize) as nat,
                    ) + " events"@,
                ),
            ),
        ),
        (PhaseModel::Closing, EventModel::Closed) => match s.report {
            Some(code) => TurnModel {
                state: UploadModel { phase: PhaseModel::Terminating, ..s },
                action: ActionModel::TerminateReport { code },
                note: None,
            },
            None => over(s, ActionModel::NoFights),
        },
        (PhaseModel::Terminating, EventModel::Terminated) => over(
            s,
            ActionModel::Announce { code: s.report->Some_0 },
        ),
        _ => over(s, ActionModel::GiveUp),
    }
}

/// The state in which an upload of so many lines begins.
pub open spec fn upload_start(total: int) -> UploadModel {
    UploadModel {
        total,
        batch: 0,
        segment_id: 1,
        report: None,
        last_ids: None,
        phase: PhaseModel::Done,
    }
}

/// A message matches its model.
pub open spec fn note_means(n: Option<Note>, m: Option<NoteModel>) -> bool {
    match m {
        Some(x) => n matches Some(y) && y@ == x,
        None => n is None,
    }
}

proof fn batch_bounds(total: int, b: int)
    requires
        0 <= b,
        batch_start(b) < total <= MAX_LINES,
    ensures
        b < batches(total),
        batches(total) <= 53_687_091,
        0 <= batch_start(b) < batch_end(total, b) <= total,
{
    assert(batches(total) * BATCH_SIZE >= total) by (nonlinear_arith)
        requires
            batches(total) == (total + 99_999) / 100_000,
            BATCH_SIZE == 100_000,
    ;
    assert(b < batches(total)) by (nonlinear_arith)
        requires
            b * 100_000 < total,
            batches(total) * 100_000 >= total,
    ;
}

impl Upload {
    /// What holds of every upload between two steps.
    pub closed spec fn wf(self) -> bool {
        &&& self.total <= MAX_LINES
        &&& self.batch * BATCH_SIZE <= self.total + BATCH_SIZE
        &&& self.phase is Closing || self.phase is Terminating || self.phase is Done || self.batch
            * BATCH_SIZE < self.total
        &&& self.phase is Terminating ==> self.report is Some
    }

    fn enter(&mut self, b: u64) -> (r: Action)
        requires
            old(self).total <= MAX_LINES,
            b * BATCH_SIZE <= old(self).total + BATCH_SIZE,
        ensures
            final(self).wf(),
            final(self)@ == enter_batch(old(self)@, b as int, None).state,
            r.means(enter_batch(old(self)@, b as int, None).action),
    {
        self.batch = b;
        let from: u64 = b * BATCH_SIZE;
        if from < self.total {
            self.phase = Phase::Parsing;
            let to: u64 = if from + BATCH_SIZE <= self.total {
                from + BATCH_SIZE
            } else {
                self.total
            };
            Action::ParseLines { from, to }
        } else {
            self.phase = Phase::Closing;
            Action::CloseParser
        }
    }

    /// The number of the current batch and how many there are.
    fn place(&self) -> (r: (u64, u64))
        requires
            self.wf(),
            self@.batch * BATCH_SIZE < self@.total,
        ensures
            r.0 == self@.batch + 1,
            r.1 == batches(self@.total),
            1 <= r.0 <= r.1 <= 53_687_091,
    {
        proof {
            batch_bounds(self@.total, self@.batch);
        }
        (self.batch + 1, (self.total + BATCH_SIZE - 1) / BATCH_SIZE)
    }

    /// A message while the current batch is worked on.
    fn note(&self, step: &'static str, message: String) -> (r: Note)
        requires
            self.wf(),
            self@.batch * BATCH_SIZE < self@.total,
        ensures
            r@ == batch_note(self@, step@, message@),
    {
        let (num, of): (u64, u64) = self.place();
        proof {
            assert(80 * num / (of as int) <= 80) by (nonlinear_arith)
                requires
                    1 <= num <= of,
            ;
        }
        let share: u64 = 80 * num / of;
        Note { step, message, pct: UPLOAD_UI_RESERVED_PCT + share as u32 }
    }

    /// A message that says where the current batch lies.
    fn placed(&self, head: &str) -> (r: String)
        requires
            self.wf(),
            self@.batch * BATCH_SIZE < self@.total,
        ensures
            r@ == head@ + batch_place(self@),
    {
        let (num, of): (u64, u64) = self.place();
        let mut out = head.to_owned();
        push_nat(&mut out, num as u128);
        out.append("/");
        push_nat(&mut out, of as u128);
        proof {
            assert(out@ =~= head@ + batch_place(self@));
        }
        out
    }

    /// Sends the segment.
    fn send(&mut self, data: FightData) -> (r: Action)
        ensures
            final(self)@ == send_segment(old(self)@, data@).state,
            r.means(send_segment(old(self)@, data@).action),
            final(self).total == old(self).total,
            final(self).batch == old(self).batch,
    {
        self.phase = Phase::Adding { events: data.events };
        Action::AddSegment {
            segment: SegmentInfo {
                segment_id: self.segment_id,
                start_time: data.start_time,
                end_time: data.end_time,
                mythic: data.mythic,
                is_live_log: false,
                is_real_time: false,
                in_progress_event_count: 0,
            },
            text: data.text,
        }
    }

    /// Begins the upload of a log with so many lines.
    pub fn begin(total: u64) -> (r: (Upload, Turn))
        requires
            total <= MAX_LINES,
        ensures
            r.0.wf(),
            ({
                let t = enter_batch(upload_start(total as int), 0, None);
                r.0@ == t.state && r.1.action.means(t.action) && r.1.note is None
            }),
    {
        let mut u = Upload {
            total,
            batch: 0,
            segment_id: 1,
            report: None,
            last_ids: None,
            phase: Phase::Done,
        };
        let action = u.enter(0);
        (u, Turn { action, note: None })
    }

    /// The upload can go on with this event.
    pub fn accepts(&self, e: &Event) -> (r: bool)
        ensures
            r == awaited(self@.phase, e@),
    {
        match (&self.phase, e) {
            (Phase::Parsing, Event::Parsed) => true,
            (Phase::Collecting, Event::Fights(fd)) => event_total(fd).is_some(),
            (Phase::Creating(_), Event::Created(_)) => true,
            (Phase::Mastering(_), Event::Master(_)) => true,
            (Phase::SettingMaster(_, _), Event::MasterSet) => true,
            (Phase::Adding { .. }, Event::Added(_)) => true,
            (Phase::Clearing { .. }, Event::Cleared) => true,
            (Phase::Closing, Event::Closed) => true,
            (Phase::Terminating, Event::Terminated) => true,
            (Phase::Closing, Event::Failed) | (Phase::Done, Event::Failed) => false,
            (_, Event::Failed) => true,
            _ => false,
        }
    }

    /// What to do after an event.
    pub fn step(&mut self, e: Event) -> (r: Turn)
        requires
            old(self).wf(),
            awaited(old(self)@.phase, e@),
        ensures
            final(self).wf(),
            final(self)@ == upload_step(old(self)@, e@).state,
            r.action.means(upload_step(old(self)@, e@).action),
            note_means(r.note, upload_step(old(self)@, e@).note),
    {
        let mut phase = Phase::Done;
        core::mem::swap(&mut phase, &mut self.phase);
        match (phase, e) {
            (Phase::Parsing, Event::Parsed) => {
                self.phase = Phase::Collecting;
                Turn { action: Action::CollectFights, note: None }
            },
            (Phase::Collecting, Event::Fights(fd)) => {
                if fights_empty(&fd) {
                    let mut message = self.placed("Batch ");
                    message.append(" \u{2014} no fights yet");
                    let note = self.note("parse", message);
                    let b: u64 = self.batch + 1;
                    let action = self.enter(b);
                    return Turn { action, note: Some(note) };
                }
                match FightData::of(&fd) {
                    Some(data) => {
                        if self.report.is_none() {
                            let action = Action::CreateReport {
                                start_time: data.start_time,
                                end_time: data.end_time,
                            };
                            self.phase = Phase::Creating(data);
                            Turn { action, note: None }
                        } else {
                            self.phase = Phase::Mastering(data);
                            Turn { action: Action::CollectMasterInfo, note: None }
                        }
                    },
                    None => Turn { action: Action::GiveUp, note: None },
                }
            },
            (Phase::Creating(data), Event::Created(code)) => {
                let mut message = "Report created: ".to_owned();
                message.append(&code);
                let note = self.note("report", message);
                self.report = Some(code);
                self.phase = Phase::Mastering(data);
                Turn { action: Action::CollectMasterInfo, note: Some(note) }
            },
            (Phase::Mastering(data), Event::Master(mi)) => {
                let ids: MasterIds = master_ids(&mi);
                let known = match &self.last_ids {
                    Some(last) => last.0 == ids.0 && last.1 == ids.1 && last.2 == ids.2 && last.3
                        == ids.3,
                    None => false,
                };
                if known {
                    Turn { action: self.send(data), note: None }
                } else {
                    let text = build_master_string(&mi, data.log_version, data.game_version);
                    self.phase = Phase::SettingMaster(data, ids);
                    Turn {
                        action: Action::SetMasterTable { segment_id: self.segment_id, text },
                        note: None,
                    }
                }
            },
            (Phase::SettingMaster(data, ids), Event::MasterSet) => {
                self.last_ids = Some(ids);
                Turn { action: self.send(data), note: None }
            },
            (Phase::Adding { events }, Event::Added(next)) => {
                if next != 0 {
                    self.segment_id = next;
                }
                self.phase = Phase::Clearing { events };
                Turn { action: Action::ClearFights, note: None }
            },
            (Phase::Clearing { events }, Event::Cleared) => {
                let mut message = self.placed("Segment ");
                message.append(" \u{2014} ");
                let count = format_with_commas(#[verifier::truncate] (events as usize));
                message.append(&count);
                message.append(" events");
                let note = self.note("upload", message);
                let b: u64 = self.batch + 1;
                let action = self.enter(b);
                Turn { action, note: Some(note) }
            },
            (Phase::Closing, Event::Closed) => match copy_option(&self.report) {
                Some(code) => {
                    self.phase = Phase::Terminating;
                    Turn { action: Action::TerminateReport { code }, note: None }
                },
                None => Turn { action: Action::NoFights, note: None },
            },
            (Phase::Terminating, Event::Terminated) => {
                let code = match &self.report {
                    Some(c) => c.clone(),
                    None => String::new(),
                };
                Turn { action: Action::Announce { code }, note: None }
            },
            _ => Turn { action: Action::GiveUp, note: None },
        }
    }
}

/// The progress shown for the batches grows from batch to batch, stays between the reserved
/// share and ninety percent, and reaches ninety with the last batch.
pub proof fn progress_grows(num: int, of: int)
    requires
        1 <= num <= of,
    ensures
        UPLOAD_UI_RESERVED_PCT <= progress_pct(num, of) <= 90,
        num < of ==> progress_pct(num, of) <= progress_pct(num + 1, of),
        num == of ==> progress_pct(num, of) == 90,
{
    assert(0 <= 80 * num / of <= 80) by (nonlinear_arith)
        requires
            1 <= num <= of,
    ;
    assert(80 * num / of <= 80 * (num + 1) / of) by (nonlinear_arith)
        requires
            1 <= num <= of,
    ;
    if num == of {
        assert(80 * num / num == 80) by (nonlinear_arith)
            requires
                1 <= num,
        ;
    }
}

/// Where an upload of so many lines stands after these events.
pub open spec fn upload_run(total: int, es: Seq<EventModel>) -> TurnModel
    decreases es.len(),
{
    if es.len() == 0 {
        enter_batch(upload_start(total), 0, None)
    } else {
        upload_step(upload_run(total, es.drop_last()).state, es.last())
    }
}

/// Every event was the one that the upload was waiting for.
pub open spec fn upload_legal(total: int, es: Seq<EventModel>) -> bool
    decreases es.len(),
{
    es.len() == 0 || (upload_legal(total, es.drop_last()) && awaited(
        upload_run(total, es.drop_last()).state.phase,
        es.last(),
    ))
}

/// The event brings fights.
pub open spec fn brings_fights(e: EventModel) -> bool {
    e matches EventModel::Fights(fd) && fights_of(fd).len() > 0
}

/// Some event has brought fights.
pub open spec fn had_fights(es: Seq<EventModel>) -> bool {
    exists|k: int| 0 <= k < es.len() && brings_fights(#[trigger] es[k])
}

/// The segment id that an accepted segment was last answered with; one before that. An answer
/// of zero does not advance the id.
pub open spec fn last_added(es: Seq<EventModel>) -> int
    decreases es.len(),
{
    if es.len() == 0 {
        1
    } else {
        match es.last() {
            EventModel::Added(next) => if next == 0 {
                last_added(es.drop_last())
            } else {
                next
            },
            _ => last_added(es.drop_last()),
        }
    }
}

/// The code that the report was created with.
pub open spec fn last_created(es: Seq<EventModel>) -> Option<Seq<char>>
    decreases es.len(),
{
    if es.len() == 0 {
        None
    } else {
        match es.last() {
            EventModel::Created(code) => Some(code),
            _ => last_created(es.drop_last()),
        }
    }
}

/// The fingerprint of the last master table that the parser handed over.
pub open spec fn last_master(es: Seq<EventModel>) -> Option<(int, int, int, int)>
    decreases es.len(),
{
    if es.len() == 0 {
        None
    } else {
        match es.last() {
            EventModel::Master(mi) => Some(master_ids_of(mi)),
            _ => last_master(es.drop_last()),
        }
    }
}

/// How far the log has been handed to the parser, if every piece began where the one before
/// it ended.
pub open spec fn handed_over(total: int, es: Seq<EventModel>) -> Option<int>
    decreases es.len(),
{
    let before = if es.len() == 0 {
        Some(0)
    } else {
        handed_over(total, es.drop_last())
    };
    match upload_run(total, es).action {
        ActionModel::ParseLines { from, to } => if before == Some(from) {
            Some(to)
        } else {
            None
        },
        _ => before,
    }
}

/// The upload is still being worked on, batch after batch.
pub open spec fn at_work(phase: PhaseModel) -> bool {
    !(phase is Closing || phase is Terminating || phase is Done)
}

/// What the state of an upload says about the events so far.
pub open spec fn remembers(total: int, es: Seq<EventModel>) -> bool {
    let s = upload_run(total, es).state;
    &&& s.total == total
    &&& s.batch >= 0
    &&& s.segment_id == last_added(es)
    &&& s.report == last_created(es)
    &&& s.phase is Creating ==> s.report is None
    &&& s.phase is Mastering || s.phase is SettingMaster || s.phase is Adding
        || s.phase is Clearing || s.phase is Terminating ==> s.report is Some
    &&& !(s.phase is Done) ==> (s.report is Some || s.phase is Creating) == had_fights(es)
    &&& match s.phase {
        PhaseModel::SettingMaster(_, ids) => last_master(es) == Some(ids),
        PhaseModel::Done => true,
        _ => s.last_ids == last_master(es),
    }
    &&& handed_over(total, es) is Some
    &&& at_work(s.phase) ==> batch_start(s.batch) < total && handed_over(total, es) == Some(
        batch_end(total, s.batch),
    )
    &&& s.phase is Closing || s.phase is Terminating ==> batch_start(s.batch) >= total
        && handed_over(total, es) == Some(total)
}

proof fn had_fights_step(es: Seq<EventModel>)
    requires
        es.len() > 0,
    ensures
        had_fights(es) == (had_fights(es.drop_last()) || brings_fights(es.last())),
{
    let d = es.drop_last();
    if had_fights(es) {
        let k = choose|k: int| 0 <= k < es.len() && brings_fights(#[trigger] es[k]);
        if k < es.len() - 1 {
            assert(brings_fights(d[k]));
        }
    }
    if had_fights(d) {
        let k = choose|k: int| 0 <= k < d.len() && brings_fights(#[trigger] d[k]);
        assert(brings_fights(es[k]));
    }
    if brings_fights(es.last()) {
        assert(brings_fights(es[es.len() - 1]));
    }
}

/// The state of an upload remembers what matters of its past, after any events.
pub proof fn upload_remembers(total: int, es: Seq<EventModel>)
    requires
        0 <= total,
        upload_legal(total, es),
    ensures
        remembers(total, es),
    decreases es.len(),
{
    if es.len() > 0 {
        upload_remembers(total, es.drop_last());
        had_fights_step(es);
        let s = upload_run(total, es.drop_last()).state;
        assert(batch_start(s.batch + 1) == batch_start(s.batch) + BATCH_SIZE) by (nonlinear_arith)
            requires
                batch_start(s.batch + 1) == (s.batch + 1) * BATCH_SIZE,
                batch_start(s.batch) == s.batch * BATCH_SIZE,
        ;
    }
}

proof fn legal_before(total: int, es: Seq<EventModel>, k: int)
    requires
        upload_legal(total, es),
        0 <= k <= es.len(),
    ensures
        upload_legal(total, es.take(k)),
    decreases es.len(),
{
    if k == es.len() {
        assert(es.take(k) =~= es);
    } else {
        legal_before(total, es.drop_last(), k);
        assert(es.drop_last().take(k) =~= es.take(k));
    }
}

/// The report is asked for with the first fights.
proof fn asked_with_first_fights(total: int, es: Seq<EventModel>)
    requires
        0 <= total,
        upload_legal(total, es),
        upload_run(total, es).action is CreateReport,
    ensures
        es.len() > 0,
        had_fights(es),
        !had_fights(es.drop_last()),
{
    assert(es.len() > 0);
    upload_remembers(total, es.drop_last());
    had_fights_step(es);
}

proof fn fights_stay(es: Seq<EventModel>, i: int, j: int)
    requires
        0 <= i <= j <= es.len(),
        had_fights(es.take(i)),
    ensures
        had_fights(es.take(j)),
{
    let a = es.take(i);
    let k = choose|k: int| 0 <= k < a.len() && brings_fights(#[trigger] a[k]);
    assert(brings_fights(es.take(j)[k]));
}

/// Whatever happens, the report is created at most once: of two different steps at most one
/// asks for it.
pub proof fn one_report(total: int, es: Seq<EventModel>, i: int, j: int)
    requires
        0 <= total,
        upload_legal(total, es),
        0 <= i < j <= es.len(),
        upload_run(total, es.take(i)).action is CreateReport,
    ensures
        !(upload_run(total, es.take(j)).action is CreateReport),
{
    legal_before(total, es, i);
    legal_before(total, es, j);
    asked_with_first_fights(total, es.take(i));
    fights_stay(es, i, j - 1);
    if upload_run(total, es.take(j)).action is CreateReport {
        asked_with_first_fights(total, es.take(j));
        assert(es.take(j).drop_last() =~= es.take(j - 1));
    }
}

/// A master table or a segment is only ever sent to a report that was created before, and it
/// bears the id that an accepted segment was last answered with, answers of zero aside, or one
/// before there is any.
pub proof fn segments_follow_the_report(total: int, es: Seq<EventModel>)
    requires
        0 <= total,
        upload_legal(total, es),
    ensures
        match upload_run(total, es).action {
            ActionModel::SetMasterTable { segment_id, .. } => last_created(es) is Some && segment_id
                == last_added(es),
            ActionModel::AddSegment { segment_id, .. } => last_created(es) is Some && segment_id
                == last_added(es),
            _ => true,
        },
{
    upload_remembers(total, es);
    if es.len() > 0 {
        upload_remembers(total, es.drop_last());
    }
}

/// When the parser hands over its master table, the table is uploaded exactly if its
/// fingerprint is not that of the table before it; otherwise the segment follows at once.
pub proof fn master_table_sent_on_change(total: int, es: Seq<EventModel>, mi: JsonTree)
    requires
        0 <= total,
        upload_legal(total, es.push(EventModel::Master(mi))),
    ensures
        ({
            let action = upload_run(total, es.push(EventModel::Master(mi))).action;
            if last_master(es) == Some(master_ids_of(mi)) {
                action is AddSegment
            } else {
                action is SetMasterTable
            }
        }),
{
    let all = es.push(EventModel::Master(mi));
    assert(all.drop_last() =~= es);
    upload_remembers(total, es);
}

/// The parser is handed the lines of the log in order, none twice and none left out: each
/// piece begins where the one before it ended, and when the parser is closed they reach to the
/// end of the log.
pub proof fn all_lines_are_parsed(total: int, es: Seq<EventModel>)
    requires
        0 <= total,
        upload_legal(total, es),
    ensures
        handed_over(total, es) is Some,
        upload_run(total, es).action is CloseParser ==> handed_over(total, es) == Some(total),
{
    upload_remembers(total, es);
    if es.len() > 0 {
        upload_remembers(total, es.drop_last());
    }
}

/// How an upload ends. First the parser is closed; then the report is terminated that was
/// created, or the log is complained of exactly if no batch had any fights; and the report is
/// announced only once terminating it has worked. An upload is given up only on a failure.
pub proof fn ends_in_order(total: int, es: Seq<EventModel>)
    requires
        0 <= total,
        upload_legal(total, es),
        es.len() > 0,
    ensures
        ({
            let before = upload_run(total, es.drop_last()).action;
            match upload_run(total, es).action {
                ActionModel::TerminateReport { code } => last_created(es) == Some(code)
                    && had_fights(es) && before is CloseParser,
                ActionModel::NoFights => last_created(es) is None && !had_fights(es)
                    && before is CloseParser,
                ActionModel::Announce { code } => last_created(es) == Some(code) && es.last()
                    is Terminated && before == (ActionModel::TerminateReport { code }),
                ActionModel::GiveUp => es.last() is Failed && !(before is CloseParser),
                _ => !(es.last() is Failed),
            }
        }),
{
    let d = es.drop_last();
    upload_remembers(total, d);
    upload_remembers(total, es);
    had_fights_step(es);
    phase_tells_action(total, d);
}

proof fn phase_tells_action(total: int, es: Seq<EventModel>)
    requires
        0 <= total,
        upload_legal(total, es),
    ensures
        ({
            let t = upload_run(total, es);
            &&& t.action is CloseParser <==> t.state.phase is Closing
            &&& t.state.phase is Terminating ==> t.state.report is Some && t.action == (
            ActionModel::TerminateReport { code: t.state.report->Some_0 })
            &&& at_work(t.state.phase) ==> !(t.action is TerminateReport)
            &&& t.action is AddSegment || t.action is SetMasterTable || t.action is ParseLines
                || t.action is CreateReport ==> at_work(t.state.phase)
        }),
{
    if es.len() > 0 {
        upload_remembers(total, es.drop_last());
    }
}

proof fn work_does_not_resume(total: int, es: Seq<EventModel>, i: int, j: int)
    requires
        upload_legal(total, es),
        0 <= i <= j <= es.len(),
        !at_work(upload_run(total, es.take(i)).state.phase),
    ensures
        !at_work(upload_run(total, es.take(j)).state.phase),
    decreases j,
{
    if i < j {
        work_does_not_resume(total, es, i, j - 1);
        legal_before(total, es, j);
        assert(es.take(j).drop_last() =~= es.take(j - 1));
    }
}

/// Once the parser is closed, no lines are parsed and no report, master table or segment is
/// sent any more.
pub proof fn nothing_follows_the_close(total: int, es: Seq<EventModel>, i: int, j: int)
    requires
        0 <= total,
        upload_legal(total, es),
        0 <= i <= j <= es.len(),
        upload_run(total, es.take(i)).action is CloseParser,
    ensures
        ({
            let later = upload_run(total, es.take(j)).action;
            !(later is ParseLines || later is CreateReport || later is SetMasterTable || later
                is AddSegment)
        }),
{
    legal_before(total, es, i);
    legal_before(total, es, j);
    phase_tells_action(total, es.take(i));
    work_does_not_resume(total, es, i, j);
    phase_tells_action(total, es.take(j));
}

/// How many events have led to a phase since the batch was begun, at most.
pub open spec fn phase_rank(p: PhaseModel) -> int {
    match p {
        PhaseModel::Parsing => 0,
        PhaseModel::Collecting => 1,
        PhaseModel::Creating(_) => 2,
        PhaseModel::Mastering(_) => 3,
        PhaseModel::SettingMaster(_, _) => 4,
        PhaseModel::Adding { .. } => 5,
        PhaseModel::Clearing { .. } => 6,
        PhaseModel::Closing => 0,
        PhaseModel::Terminating => 1,
        PhaseModel::Done => 2,
    }
}

proof fn events_so_far(total: int, es: Seq<EventModel>)
    requires
        0 <= total <= MAX_LINES,
        upload_legal(total, es),
    ensures
        ({
            let s = upload_run(total, es).state;
            &&& s.batch <= batches(total)
            &&& at_work(s.phase) ==> s.batch < batches(total)
            &&& !(s.phase is Done) ==> es.len() <= 7 * s.batch + phase_rank(s.phase)
            &&& es.len() <= 7 * batches(total) + 2
        }),
    decreases es.len(),
{
    upload_remembers(total, es);
    let s = upload_run(total, es).state;
    if at_work(s.phase) {
        batch_bounds(total, s.batch);
    }
    if es.len() > 0 {
        events_so_far(total, es.drop_last());
    }
}

/// Every upload comes to its end: there are at most seven events to a batch, and two more.
pub proof fn upload_ends(total: int, es: Seq<EventModel>)
    requires
        0 <= total <= MAX_LINES,
        upload_legal(total, es),
    ensures
        es.len() <= 7 * batches(total) + 2,
{
    events_so_far(total, es);
}

} // verus!
