//! Uploading the fights of a live log: which step follows which.
//!
//! Finished fights are committed as a segment of their own. While a fight goes on, previews of
//! it may be sent under the id that the fight will be committed under.
use vstd::prelude::*;
use vstd::string::*;

use crate::fights::build_master_string;
use crate::fights::countable;
use crate::fights::event_total;
use crate::fights::fight_data;
use crate::fights::fights_empty;
use crate::fights::fights_of;
use crate::fights::first_event_count;
use crate::fights::ids_model;
use crate::fights::in_progress_events;
use crate::fights::master_ids;
use crate::fights::master_ids_of;
use crate::fights::master_string;
use crate::fights::FightData;
use crate::fights::FightModel;
use crate::fights::MasterIds;
use crate::json::Json;
use crate::json::JsonTree;
use crate::numbers::decimal;
use crate::numbers::push_nat;
use crate::progress::live_note;
use crate::progress::note_means;
use crate::progress::LiveNote;
use crate::progress::LiveNoteModel;
use crate::progress::LiveProgress;
use crate::progress::ProgressModel;
use crate::wcl::SegmentInfo;

verus! {

/// The least time between two previews, in nanoseconds.
pub const IN_PROGRESS_INTERVAL: u128 = 30_000_000_000;

/// What to do next.
pub enum PartAction {
    /// Have the parser parse the lines of this part.
    ParseLines,
    /// Have the parser hand over its fights, the current one with them if `push_fight`.
    CollectFights { push_fight: bool },
    /// Have the parser hand over the fight that is going on.
    CollectInProgress,
    /// Have the parser hand over its master table.
    CollectMasterInfo,
    /// Upload this master table.
    SetMasterTable { segment_id: i64, is_real_time: bool, text: String },
    /// Upload this segment.
    AddSegment { segment: SegmentInfo, text: String },
    /// Have the parser forget the fights.
    ClearFights,
    /// The part is done with.
    Done,
}

/// The model of an action.
pub enum PartActionModel {
    ParseLines,
    CollectFights { push_fight: bool },
    CollectInProgress,
    CollectMasterInfo,
    SetMasterTable { segment_id: int, is_real_time: bool, text: Seq<char> },
    AddSegment { segment_id: int, is_real_time: bool, preview_events: int, data: FightModel },
    ClearFights,
    Done,
}

/// What came of the last action.
pub enum PartEvent {
    Parsed,
    Fights(Json),
    /// The fight that is going on, and the time by a clock that never goes back, in
    /// nanoseconds.
    InProgress(Json, u128),
    Master(Json),
    MasterSet,
    Added(i64),
    Cleared,
    /// The action failed.
    Failed,
}

/// The model of an event.
pub enum PartEventModel {
    Parsed,
    Fights(JsonTree),
    InProgress(JsonTree, int),
    Master(JsonTree),
    MasterSet,
    Added(int),
    Cleared,
    Failed,
}

/// What the upload is waiting for.
pub enum PartPhase {
    Idle,
    Parsing { push_fight: bool },
    Collecting,
    Checking,
    Mastering { data: FightData, preview: Option<i64> },
    SettingMaster { data: FightData, preview: Option<i64>, ids: MasterIds },
    Adding { is_preview: bool },
    Clearing,
}

/// The model of a phase.
pub enum PartPhaseModel {
    Idle,
    Parsing { push_fight: bool },
    Collecting,
    Checking,
    Mastering { data: FightModel, preview: Option<int> },
    SettingMaster { data: FightModel, preview: Option<int>, ids: (int, int, int, int) },
    Adding { is_preview: bool },
    Clearing,
}

/// The state of the uploads to a live report.
pub struct Uploader {
    real_time: bool,
    segment_id: i64,
    last_ids: Option<MasterIds>,
    last_preview: Option<u128>,
    phase: PartPhase,
}

/// The model of the state.
pub struct UploaderModel {
    /// Previews are sent.
    pub real_time: bool,
    /// The id of the segment that comes next.
    pub segment_id: int,
    /// The fingerprint of the master table that was accepted last.
    pub last_ids: Option<(int, int, int, int)>,
    /// When the last preview was begun.
    pub last_preview: Option<int>,
    pub phase: PartPhaseModel,
}

/// A step: the new state and progress, what to do, and what to say.
pub struct PartTurnModel {
    pub state: UploaderModel,
    pub progress: ProgressModel,
    pub action: PartActionModel,
    pub note: Option<LiveNoteModel>,
}

/// What to do, and what to say.
pub struct PartTurn {
    pub action: PartAction,
    pub note: Option<LiveNote>,
}

/// The segment of a live report that holds these fights.
pub open spec fn live_segment(
    s: SegmentInfo,
    is_real_time: bool,
    preview_events: int,
    data: FightModel,
) -> bool {
    &&& s.start_time == data.start_time
    &&& s.end_time == data.end_time
    &&& s.mythic == data.mythic
    &&& s.is_live_log
    &&& s.is_real_time == is_real_time
    &&& s.in_progress_event_count == preview_events
}

impl PartAction {
    /// The action does what the model says.
    pub open spec fn means(self, m: PartActionModel) -> bool {
        match m {
            PartActionModel::ParseLines => self is ParseLines,
            PartActionModel::CollectFights { push_fight } => self matches PartAction::CollectFights {
                push_fight: p,
            } && p == push_fight,
            PartActionModel::CollectInProgress => self is CollectInProgress,
            PartActionModel::CollectMasterInfo => self is CollectMasterInfo,
            PartActionModel::SetMasterTable {
                segment_id,
                is_real_time,
                text,
            } => self matches PartAction::SetMasterTable {
                segment_id: i,
                is_real_time: r,
                text: t,
            } && i == segment_id && r == is_real_time && t@ == text,
            PartActionModel::AddSegment {
                segment_id,
                is_real_time,
                preview_events,
                data,
            } => self matches PartAction::AddSegment { segment, text } && segment.segment_id
                == segment_id && live_segment(segment, is_real_time, preview_events, data) && text@
                == data.text,
            PartActionModel::ClearFights => self is ClearFights,
            PartActionModel::Done => self is Done,
        }
    }
}

impl View for PartEvent {
    type V = PartEventModel;

    open spec fn view(&self) -> PartEventModel {
        match self {
            PartEvent::Parsed => PartEventModel::Parsed,
            PartEvent::Fights(fd) => PartEventModel::Fights(fd.tree()),
            PartEvent::InProgress(ip, now) => PartEventModel::InProgress(ip.tree(), *now as int),
            PartEvent::Master(mi) => PartEventModel::Master(mi.tree()),
            PartEvent::MasterSet => PartEventModel::MasterSet,
            PartEvent::Added(next) => PartEventModel::Added(*next as int),
            PartEvent::Cleared => PartEventModel::Cleared,
            PartEvent::Failed => PartEventModel::Failed,
        }
    }
}

/// How many events a preview has, if it is one.
pub open spec fn preview_model(preview: Option<i64>) -> Option<int> {
    match preview {
        Some(n) => Some(n as int),
        None => None,
    }
}

/// The number of events that a segment states as those of a preview: none for a commit.
pub open spec fn stated_events(preview: Option<int>) -> int {
    match preview {
        Some(n) => n,
        None => 0,
    }
}

impl View for PartPhase {
    type V = PartPhaseModel;

    open spec fn view(&self) -> PartPhaseModel {
        match self {
            PartPhase::Idle => PartPhaseModel::Idle,
            PartPhase::Parsing { push_fight } => PartPhaseModel::Parsing {
                push_fight: *push_fight,
            },
            PartPhase::Collecting => PartPhaseModel::Collecting,
            PartPhase::Checking => PartPhaseModel::Checking,
            PartPhase::Mastering { data, preview } => PartPhaseModel::Mastering {
                data: data@,
                preview: preview_model(*preview),
            },
            PartPhase::SettingMaster {
                data,
                preview,
                ids,
            } => PartPhaseModel::SettingMaster {
                data: data@,
                preview: preview_model(*preview),
                ids: ids_model(*ids),
            },
            PartPhase::Adding { is_preview } => PartPhaseModel::Adding { is_preview: *is_preview },
            PartPhase::Clearing => PartPhaseModel::Clearing,
        }
    }
}

impl View for Uploader {
    type V = UploaderModel;

    closed spec fn view(&self) -> UploaderModel {
        UploaderModel {
            real_time: self.real_time,
            segment_id: self.segment_id as int,
            last_ids: match self.last_ids {
                Some(ids) => Some(ids_model(ids)),
                None => None,
            },
            last_preview: match self.last_preview {
                Some(t) => Some(t as int),
                None => None,
            },
            phase: self.phase@,
        }
    }
}

/// A preview may be sent at this time.
pub open spec fn preview_due(s: UploaderModel, now: int) -> bool {
    match s.last_preview {
        Some(t) => now - t >= IN_PROGRESS_INTERVAL,
        None => true,
    }
}

/// A preview of the fight that is going on is sent.
pub open spec fn previews(s: UploaderModel, ip: JsonTree, now: int) -> bool {
    s.real_time && fights_of(ip).len() > 0 && preview_due(s, now)
}

/// The upload is waiting for this event. Fights that are to be sent can be counted, and the
/// numbers of segments have not run out.
pub open spec fn part_awaited(s: UploaderModel, p: ProgressModel, e: PartEventModel) -> bool {
    match s.phase {
        PartPhaseModel::Idle => false,
        PartPhaseModel::Parsing { .. } => e is Parsed || e is Failed,
        PartPhaseModel::Collecting => match e {
            PartEventModel::Fights(fd) => countable(fd),
            _ => e is Failed,
        },
        PartPhaseModel::Checking => match e {
            PartEventModel::InProgress(ip, now) => previews(s, ip, now) ==> countable(ip),
            _ => e is Failed,
        },
        PartPhaseModel::Mastering { .. } => e is Master || e is Failed,
        PartPhaseModel::SettingMaster { .. } => e is MasterSet || e is Failed,
        PartPhaseModel::Adding { is_preview } => e is Failed || (e is Added && (!is_preview
            ==> s.segment_id < i64::MAX && p.segments < u64::MAX)),
        PartPhaseModel::Clearing => e is Cleared || e is Failed,
    }
}

/// Ends the part.
pub open spec fn part_done(
    s: UploaderModel,
    p: ProgressModel,
    note: Option<LiveNoteModel>,
) -> PartTurnModel {
    PartTurnModel {
        state: UploaderModel { phase: PartPhaseModel::Idle, ..s },
        progress: p,
        action: PartActionModel::Done,
        note,
    }
}

/// Sends the segment.
pub open spec fn send_live(
    s: UploaderModel,
    p: ProgressModel,
    data: FightModel,
    preview: Option<int>,
) -> PartTurnModel {
    PartTurnModel {
        state: UploaderModel {
            phase: PartPhaseModel::Adding { is_preview: preview is Some },
            ..s
        },
        progress: p,
        action: PartActionModel::AddSegment {
            segment_id: s.segment_id,
            is_real_time: s.real_time,
            preview_events: stated_events(preview),
            data,
        },
        note: None,
    }
}

/// The larger of two numbers.
pub open spec fn larger(a: int, b: int) -> int {
    if a >= b {
        a
    } else {
        b
    }
}

/// The step that an event leads to.
pub open spec fn part_step(
    s: UploaderModel,
    p: ProgressModel,
    e: PartEventModel,
) -> PartTurnModel {
    match (s.phase, e) {
        (PartPhaseModel::Parsing { push_fight }, PartEventModel::Parsed) => PartTurnModel {
            state: UploaderModel { phase: PartPhaseModel::Collecting, ..s },
            progress: p,
            action: PartActionModel::CollectFights { push_fight },
            note: None,
        },
        (PartPhaseModel::Collecting, PartEventModel::Fights(fd)) => if fights_of(fd).len() == 0 {
            PartTurnModel {
                state: UploaderModel { phase: PartPhaseModel::Checking, ..s },
                progress: p,
                action: PartActionModel::CollectInProgress,
                note: None,
            }
        } else {
            PartTurnModel {
                state: UploaderModel {
                    phase: PartPhaseModel::Mastering { data: fight_data(fd), preview: None },
                    ..s
                },
                progress: ProgressModel { in_progress: false, ..p },
                action: PartActionModel::CollectMasterInfo,
                note: None,
            }
        },
        (PartPhaseModel::Checking, PartEventModel::InProgress(ip, now)) => {
            let ongoing = fights_of(ip).len() > 0;
            let q = ProgressModel { in_progress: ongoing, ..p };
            let note = if ongoing && !p.in_progress {
                Some(live_note(q, "tailing"@, "Fight in progress"@))
            } else {
                None
            };
            if previews(s, ip, now) {
                PartTurnModel {
                    state: UploaderModel {
                        last_preview: Some(now),
                        phase: PartPhaseModel::Mastering {
                            data: fight_data(ip),
                            preview: Some(first_event_count(ip)),
                        },
                        ..s
                    },
                    progress: q,
                    action: PartActionModel::CollectMasterInfo,
                    note,
                }
            } else {
                part_done(s, q, note)
            }
        },
        (
            PartPhaseModel::Mastering { data, preview },
            PartEventModel::Master(mi),
        ) => if s.last_ids == Some(master_ids_of(mi)) {
            send_live(s, p, data, preview)
        } else {
            PartTurnModel {
                state: UploaderModel {
                    phase: PartPhaseModel::SettingMaster {
                        data,
                        preview,
                        ids: master_ids_of(mi),
                    },
                    ..s
                },
                progress: p,
                action: PartActionModel::SetMasterTable {
                    segment_id: s.segment_id,
                    is_real_time: s.real_time,
                    text: master_string(mi, data.log_version, data.game_version),
                },
                note: None,
            }
        },
        (
            PartPhaseModel::SettingMaster { data, preview, ids },
            PartEventModel::MasterSet,
        ) => send_live(UploaderModel { last_ids: Some(ids), ..s }, p, data, preview),
        (PartPhaseModel::Adding { is_preview }, PartEventModel::Added(next)) => {
            let t = UploaderModel { phase: PartPhaseModel::Clearing, ..s };
            if !is_preview {
                let q = ProgressModel { segments: p.segments + 1, ..p };
                PartTurnModel {
                    state: UploaderModel { segment_id: larger(next, s.segment_id + 1), ..t },
                    progress: q,
                    action: PartActionModel::ClearFights,
                    note: Some(
                        live_note(q, "uploading"@, "Uploaded segment "@ + decimal(q.segments)),
                    ),
                }
            } else {
                PartTurnModel {
                    state: t,
                    progress: p,
                    action: PartActionModel::ClearFights,
                    note: None,
                }
            }
        },
        _ => part_done(s, p, None),
    }
}

/// Begins with a part of the log.
pub open spec fn part_begin(
    s: UploaderModel,
    p: ProgressModel,
    any_lines: bool,
    push_fight: bool,
) -> PartTurnModel {
    if any_lines {
        PartTurnModel {
            state: UploaderModel { phase: PartPhaseModel::Parsing { push_fight }, ..s },
            progress: p,
            action: PartActionModel::ParseLines,
            note: None,
        }
    } else {
        PartTurnModel {
            state: UploaderModel { phase: PartPhaseModel::Collecting, ..s },
            progress: p,
            action: PartActionModel::CollectFights { push_fight },
            note: None,
        }
    }
}

/// The state before the first part.
pub open spec fn uploader_start(real_time: bool) -> UploaderModel {
    UploaderModel {
        real_time,
        segment_id: 1,
        last_ids: None,
        last_preview: None,
        phase: PartPhaseModel::Idle,
    }
}

impl Uploader {
    /// An uploader that has sent nothing yet.
    pub fn new(real_time: bool) -> (r: Uploader)
        ensures
            r@ == uploader_start(real_time),
    {
        Uploader {
            real_time,
            segment_id: 1,
            last_ids: None,
            last_preview: None,
            phase: PartPhase::Idle,
        }
    }

    /// Begins with a part of the log: whether it has any lines, and whether the current fight
    /// is taken as finished.
    pub fn begin(&mut self, progress: &LiveProgress, any_lines: bool, push_fight: bool) -> (r:
        PartTurn)
        requires
            old(self)@.phase is Idle,
        ensures
            final(self)@ == part_begin(old(self)@, progress@, any_lines, push_fight).state,
            r.action.means(part_begin(old(self)@, progress@, any_lines, push_fight).action),
            r.note is None,
    {
        if any_lines {
            self.phase = PartPhase::Parsing { push_fight };
            PartTurn { action: PartAction::ParseLines, note: None }
        } else {
            self.phase = PartPhase::Collecting;
            PartTurn { action: PartAction::CollectFights { push_fight }, note: None }
        }
    }

    fn due(&self, now: u128) -> (r: bool)
        ensures
            r == preview_due(self@, now as int),
    {
        match self.last_preview {
            Some(t) => now >= t && now - t >= IN_PROGRESS_INTERVAL,
            None => true,
        }
    }

    /// The upload can go on with this event.
    pub fn accepts(&self, progress: &LiveProgress, e: &PartEvent) -> (r: bool)
        ensures
            r == part_awaited(self@, progress@, e@),
    {
        match (&self.phase, e) {
            (PartPhase::Idle, _) => false,
            (_, PartEvent::Failed) => true,
            (PartPhase::Parsing { .. }, PartEvent::Parsed) => true,
            (PartPhase::Collecting, PartEvent::Fights(fd)) => event_total(fd).is_some(),
            (PartPhase::Checking, PartEvent::InProgress(ip, now)) => {
                !(self.real_time && !fights_empty(ip) && self.due(*now)) || event_total(
                    ip,
                ).is_some()
            },
            (PartPhase::Mastering { .. }, PartEvent::Master(_)) => true,
            (PartPhase::SettingMaster { .. }, PartEvent::MasterSet) => true,
            (PartPhase::Adding { is_preview }, PartEvent::Added(_)) => {
                *is_preview || (self.segment_id < i64::MAX && progress.segments
                    < u64::MAX)
            },
            (PartPhase::Clearing, PartEvent::Cleared) => true,
            _ => false,
        }
    }

    fn send(&mut self, progress: &LiveProgress, data: FightData, preview: Option<i64>) -> (r:
        PartAction)
        ensures
            ({
                let t = send_live(old(self)@, progress@, data@, preview_model(preview));
                final(self)@ == t.state && r.means(t.action)
            }),
    {
        self.phase = PartPhase::Adding { is_preview: preview.is_some() };
        let preview_events: i64 = match preview {
            Some(n) => n,
            None => 0,
        };
        PartAction::AddSegment {
            segment: SegmentInfo {
                segment_id: self.segment_id,
                start_time: data.start_time,
                end_time: data.end_time,
                mythic: data.mythic,
                is_live_log: true,
                is_real_time: self.real_time,
                in_progress_event_count: preview_events,
            },
            text: data.text,
        }
    }

    /// What to do after an event.
    pub fn step(&mut self, progress: &mut LiveProgress, e: PartEvent) -> (r: PartTurn)
        requires
            part_awaited(old(self)@, old(progress)@, e@),
        ensures
            ({
                let t = part_step(old(self)@, old(progress)@, e@);
                &&& final(self)@ == t.state
                &&& final(progress)@ == t.progress
                &&& r.action.means(t.action)
                &&& note_means(r.note, t.note)
            }),
    {
        let mut phase = PartPhase::Idle;
        core::mem::swap(&mut phase, &mut self.phase);
        match (phase, e) {
            (PartPhase::Parsing { push_fight }, PartEvent::Parsed) => {
                self.phase = PartPhase::Collecting;
                PartTurn { action: PartAction::CollectFights { push_fight }, note: None }
            },
            (PartPhase::Collecting, PartEvent::Fights(fd)) => {
                if fights_empty(&fd) {
                    self.phase = PartPhase::Checking;
                    return PartTurn { action: PartAction::CollectInProgress, note: None };
                }
                progress.in_progress = false;
                if let Some(data) = FightData::of(&fd) {
                    self.phase = PartPhase::Mastering { data, preview: None };
                }
                PartTurn { action: PartAction::CollectMasterInfo, note: None }
            },
            (PartPhase::Checking, PartEvent::InProgress(ip, now)) => {
                let ongoing = !fights_empty(&ip);
                let begins = ongoing && !progress.in_progress;
                progress.in_progress = ongoing;
                let note = if begins {
                    Some(progress.emit("tailing", "Fight in progress".to_owned()))
                } else {
                    None
                };
                if !self.real_time || !ongoing || !self.due(now) {
                    return PartTurn { action: PartAction::Done, note };
                }
                self.last_preview = Some(now);
                let preview_events: i64 = in_progress_events(&ip);
                if let Some(data) = FightData::of(&ip) {
                    self.phase = PartPhase::Mastering { data, preview: Some(preview_events) };
                }
                PartTurn { action: PartAction::CollectMasterInfo, note }
            },
            (PartPhase::Mastering { data, preview }, PartEvent::Master(mi)) => {
                let ids: MasterIds = master_ids(&mi);
                let known = match &self.last_ids {
                    Some(last) => last.0 == ids.0 && last.1 == ids.1 && last.2 == ids.2 && last.3
                        == ids.3,
                    None => false,
                };
                if known {
                    return PartTurn { action: self.send(progress, data, preview), note: None };
                }
                let text = build_master_string(&mi, data.log_version, data.game_version);
                self.phase = PartPhase::SettingMaster { data, preview, ids };
                PartTurn {
                    action: PartAction::SetMasterTable {
                        segment_id: self.segment_id,
                        is_real_time: self.real_time,
                        text,
                    },
                    note: None,
                }
            },
            (
                PartPhase::SettingMaster { data, preview, ids },
                PartEvent::MasterSet,
            ) => {
                self.last_ids = Some(ids);
                PartTurn { action: self.send(progress, data, preview), note: None }
            },
            (PartPhase::Adding { is_preview }, PartEvent::Added(next)) => {
                self.phase = PartPhase::Clearing;
                if is_preview {
                    return PartTurn { action: PartAction::ClearFights, note: None };
                }
                let after: i64 = self.segment_id + 1;
                self.segment_id = if next >= after {
                    next
                } else {
                    after
                };
                progress.segments = progress.segments + 1;
                let mut message = "Uploaded segment ".to_owned();
                push_nat(&mut message, progress.segments as u128);
                let note = progress.emit("uploading", message);
                PartTurn { action: PartAction::ClearFights, note: Some(note) }
            },
            _ => PartTurn { action: PartAction::Done, note: None },
        }
    }
}

/// What an uploader is told.
pub enum PartInput {
    /// A part of the log begins.
    Begin { any_lines: bool, push_fight: bool },
    /// Something came of the last action.
    Event(PartEventModel),
}

/// Where an uploader stands after these inputs.
pub open spec fn part_run(real_time: bool, p: ProgressModel, ins: Seq<PartInput>) -> PartTurnModel
    decreases ins.len(),
{
    if ins.len() == 0 {
        part_done(uploader_start(real_time), p, None)
    } else {
        let t = part_run(real_time, p, ins.drop_last());
        match ins.last() {
            PartInput::Begin { any_lines, push_fight } => part_begin(
                t.state,
                t.progress,
                any_lines,
                push_fight,
            ),
            PartInput::Event(e) => part_step(t.state, t.progress, e),
        }
    }
}

/// Parts begin one after the other, and every event was the one that was waited for.
pub open spec fn part_legal(real_time: bool, p: ProgressModel, ins: Seq<PartInput>) -> bool
    decreases ins.len(),
{
    ins.len() == 0 || {
        let t = part_run(real_time, p, ins.drop_last());
        part_legal(real_time, p, ins.drop_last()) && match ins.last() {
            PartInput::Begin { .. } => t.state.phase is Idle,
            PartInput::Event(e) => part_awaited(t.state, t.progress, e),
        }
    }
}

/// The id that the last action of a turn writes to, if it writes.
pub open spec fn written_id(t: PartTurnModel) -> Option<int> {
    match t.action {
        PartActionModel::SetMasterTable { segment_id, .. } => Some(segment_id),
        PartActionModel::AddSegment { segment_id, .. } => Some(segment_id),
        _ => None,
    }
}

/// Input number `i` says that the server has committed a segment.
pub open spec fn commits(real_time: bool, p: ProgressModel, ins: Seq<PartInput>, i: int) -> bool {
    &&& 0 <= i < ins.len()
    &&& part_run(real_time, p, ins.take(i)).state.phase == (PartPhaseModel::Adding {
        is_preview: false,
    })
    &&& ins[i] matches PartInput::Event(e) && e is Added
}

/// Input number `i` makes a preview begin, at this time.
pub open spec fn begins_preview(
    real_time: bool,
    p: ProgressModel,
    ins: Seq<PartInput>,
    i: int,
    now: int,
) -> bool {
    &&& 0 <= i < ins.len()
    &&& ins[i] matches PartInput::Event(e) && e matches PartEventModel::InProgress(_, t) && t == now
    &&& part_run(real_time, p, ins.take(i + 1)).action is CollectMasterInfo
}

/// How many segments the server has committed.
pub open spec fn commit_count(real_time: bool, p: ProgressModel, ins: Seq<PartInput>) -> int
    decreases ins.len(),
{
    if ins.len() == 0 {
        0
    } else {
        commit_count(real_time, p, ins.drop_last()) + if commits(real_time, p, ins, ins.len() - 1) {
            1int
        } else {
            0
        }
    }
}

/// The fingerprint of the master table that the server accepted last.
pub open spec fn accepted_ids(real_time: bool, p: ProgressModel, ins: Seq<PartInput>) -> Option<
    (int, int, int, int),
>
    decreases ins.len(),
{
    if ins.len() == 0 {
        None
    } else {
        let t = part_run(real_time, p, ins.drop_last());
        match (t.state.phase, ins.last()) {
            (
                PartPhaseModel::SettingMaster { ids, .. },
                PartInput::Event(PartEventModel::MasterSet),
            ) => Some(ids),
            _ => accepted_ids(real_time, p, ins.drop_last()),
        }
    }
}

/// The fights that were collected last are those of a fight that goes on.
pub open spec fn collected_in_progress(ins: Seq<PartInput>) -> bool
    decreases ins.len(),
{
    if ins.len() == 0 {
        false
    } else {
        match ins.last() {
            PartInput::Event(PartEventModel::Fights(_)) => false,
            PartInput::Event(PartEventModel::InProgress(_, _)) => true,
            _ => collected_in_progress(ins.drop_last()),
        }
    }
}

/// The state knows a preview from a commit.
pub open spec fn knows_preview(phase: PartPhaseModel, in_progress: bool) -> bool {
    match phase {
        PartPhaseModel::Mastering { preview, .. } => preview is Some == in_progress,
        PartPhaseModel::SettingMaster { preview, .. } => preview is Some == in_progress,
        PartPhaseModel::Adding { is_preview } => is_preview == in_progress,
        _ => true,
    }
}

/// What the state of an uploader says about its past.
pub open spec fn part_remembers(real_time: bool, p: ProgressModel, ins: Seq<PartInput>) -> bool {
    let t = part_run(real_time, p, ins);
    &&& t.state.real_time == real_time
    &&& knows_preview(t.state.phase, collected_in_progress(ins))
    &&& t.state.last_ids == accepted_ids(real_time, p, ins)
    &&& t.progress.segments == p.segments + commit_count(real_time, p, ins)
    &&& t.action is AddSegment <==> t.state.phase is Adding
    &&& written_id(t) matches Some(id) ==> id == t.state.segment_id
}

/// What a turn hands on to the next one.
spec fn follows(s: UploaderModel, p: ProgressModel, e: PartInput, t: PartTurnModel) -> bool {
    let commit = s.phase == (PartPhaseModel::Adding { is_preview: false }) && (
    e matches PartInput::Event(x) && x is Added);
    &&& t.state.real_time == s.real_time
    &&& forall|in_progress: bool|
        #[trigger] knows_preview(s.phase, in_progress) ==> knows_preview(
            t.state.phase,
            match e {
                PartInput::Event(PartEventModel::Fights(_)) => false,
                PartInput::Event(PartEventModel::InProgress(_, _)) => true,
                _ => in_progress,
            },
        )
    &&& t.state.last_ids == match (s.phase, e) {
        (
            PartPhaseModel::SettingMaster { ids, .. },
            PartInput::Event(PartEventModel::MasterSet),
        ) => Some(ids),
        _ => s.last_ids,
    }
    &&& t.progress.segments == p.segments + if commit {
        1int
    } else {
        0
    }
    &&& t.action is AddSegment <==> t.state.phase is Adding
    &&& written_id(t) matches Some(id) ==> id == t.state.segment_id
    &&& if commit {
        s.segment_id < t.state.segment_id
    } else {
        s.segment_id == t.state.segment_id
    }
    &&& t.state.last_preview == s.last_preview || (e matches PartInput::Event(
        PartEventModel::InProgress(_, now),
    ) && t.state.last_preview == Some(now) && preview_due(s, now))
    &&& t.action is CollectMasterInfo ==> (e matches PartInput::Event(
        PartEventModel::InProgress(_, now),
    ) ==> t.state.last_preview == Some(now) && preview_due(s, now))
}

proof fn turn_follows(s: UploaderModel, p: ProgressModel, e: PartInput)
    requires
        e matches PartInput::Event(x) ==> part_awaited(s, p, x),
    ensures
        follows(
            s,
            p,
            e,
            match e {
                PartInput::Begin { any_lines, push_fight } => part_begin(s, p, any_lines, push_fight),
                PartInput::Event(x) => part_step(s, p, x),
            },
        ),
{
}

/// The state of an uploader remembers what matters of its past, after any inputs.
#[verifier::rlimit(50)]
pub proof fn uploader_remembers(real_time: bool, p: ProgressModel, ins: Seq<PartInput>)
    requires
        part_legal(real_time, p, ins),
    ensures
        part_remembers(real_time, p, ins),
    decreases ins.len(),
{
    if ins.len() > 0 {
        uploader_remembers(real_time, p, ins.drop_last());
        assert(ins.take(ins.len() - 1) =~= ins.drop_last());
        let t = part_run(real_time, p, ins.drop_last());
        turn_follows(t.state, t.progress, ins.last());
    }
}

proof fn part_legal_before(real_time: bool, p: ProgressModel, ins: Seq<PartInput>, k: int)
    requires
        part_legal(real_time, p, ins),
        0 <= k <= ins.len(),
    ensures
        part_legal(real_time, p, ins.take(k)),
    decreases ins.len(),
{
    if k == ins.len() {
        assert(ins.take(k) =~= ins);
    } else {
        part_legal_before(real_time, p, ins.drop_last(), k);
        assert(ins.drop_last().take(k) =~= ins.take(k));
    }
}

/// One input never takes the id, or the time of the last preview, back.
#[verifier::rlimit(50)]
proof fn one_input(real_time: bool, p: ProgressModel, ins: Seq<PartInput>)
    requires
        ins.len() > 0,
        part_legal(real_time, p, ins),
    ensures
        ({
            let a = part_run(real_time, p, ins.drop_last()).state;
            let b = part_run(real_time, p, ins).state;
            &&& a.segment_id <= b.segment_id
            &&& commits(real_time, p, ins, ins.len() - 1) ==> a.segment_id < b.segment_id
            &&& a.last_preview matches Some(t) ==> (b.last_preview matches Some(u) && (u == t || u
                >= t + IN_PROGRESS_INTERVAL))
            &&& forall|now: int| #[trigger]
                begins_preview(real_time, p, ins, ins.len() - 1, now) ==> b.last_preview == Some(
                    now,
                ) && preview_due(a, now)
        }),
{
    assert(ins.take(ins.len() - 1) =~= ins.drop_last());
    assert(ins.take(ins.len() as int) =~= ins);
    uploader_remembers(real_time, p, ins.drop_last());
    let t = part_run(real_time, p, ins.drop_last());
    turn_follows(t.state, t.progress, ins.last());
}

proof fn many_inputs(real_time: bool, p: ProgressModel, ins: Seq<PartInput>, i: int, j: int)
    requires
        part_legal(real_time, p, ins),
        0 <= i <= j <= ins.len(),
    ensures
        ({
            let a = part_run(real_time, p, ins.take(i)).state;
            let b = part_run(real_time, p, ins.take(j)).state;
            &&& a.segment_id <= b.segment_id
            &&& a.last_preview matches Some(t) ==> (b.last_preview matches Some(u) && u >= t)
        }),
    decreases j,
{
    if i < j {
        many_inputs(real_time, p, ins, i, j - 1);
        part_legal_before(real_time, p, ins, j);
        one_input(real_time, p, ins.take(j));
        assert(ins.take(j).drop_last() =~= ins.take(j - 1));
    }
}

/// Once a segment is committed, nothing is ever written to its id again: every later master
/// table and segment bears a larger one.
#[verifier::rlimit(50)]
pub proof fn committed_ids_are_final(
    real_time: bool,
    p: ProgressModel,
    ins: Seq<PartInput>,
    i: int,
    j: int,
)
    requires
        part_legal(real_time, p, ins),
        commits(real_time, p, ins, i),
        i < j <= ins.len(),
    ensures
        ({
            let committed = written_id(part_run(real_time, p, ins.take(i)));
            let later = written_id(part_run(real_time, p, ins.take(j)));
            committed is Some && (later matches Some(id) ==> id > committed->Some_0)
        }),
{
    let upto = ins.take(i + 1);
    part_legal_before(real_time, p, ins, i);
    part_legal_before(real_time, p, ins, i + 1);
    part_legal_before(real_time, p, ins, j);
    assert(upto.drop_last() =~= ins.take(i));
    assert(upto.take(i) =~= ins.take(i));
    assert(commits(real_time, p, upto, i));
    one_input(real_time, p, upto);
    many_inputs(real_time, p, ins, i + 1, j);
    uploader_remembers(real_time, p, ins.take(i));
    uploader_remembers(real_time, p, ins.take(j));
}

#[verifier::rlimit(50)]
proof fn preview_is_noted(
    real_time: bool,
    p: ProgressModel,
    ins: Seq<PartInput>,
    i: int,
    now: int,
)
    requires
        part_legal(real_time, p, ins),
        begins_preview(real_time, p, ins, i, now),
    ensures
        part_run(real_time, p, ins.take(i + 1)).state.last_preview == Some(now),
        preview_due(part_run(real_time, p, ins.take(i)).state, now),
{
    let a = ins.take(i + 1);
    part_legal_before(real_time, p, ins, i + 1);
    assert(a.take(i + 1) =~= a);
    assert(a[i] == ins[i]);
    assert(begins_preview(real_time, p, a, i, now));
    one_input(real_time, p, a);
    assert(a.drop_last() =~= ins.take(i));
}

/// Two previews are never begun within less than the interval of one another.
pub proof fn previews_keep_their_distance(
    real_time: bool,
    p: ProgressModel,
    ins: Seq<PartInput>,
    i: int,
    first: int,
    j: int,
    second: int,
)
    requires
        part_legal(real_time, p, ins),
        i < j,
        begins_preview(real_time, p, ins, i, first),
        begins_preview(real_time, p, ins, j, second),
    ensures
        second - first >= IN_PROGRESS_INTERVAL,
{
    preview_is_noted(real_time, p, ins, i, first);
    preview_is_noted(real_time, p, ins, j, second);
    many_inputs(real_time, p, ins, i + 1, j);
}

/// The number of segments that is shown is the number of commits.
pub proof fn segments_are_counted(real_time: bool, p: ProgressModel, ins: Seq<PartInput>)
    requires
        part_legal(real_time, p, ins),
    ensures
        part_run(real_time, p, ins).progress.segments == p.segments + commit_count(
            real_time,
            p,
            ins,
        ),
{
    uploader_remembers(real_time, p, ins);
}

/// A preview takes the place of the one before it: whatever is sent of a fight that goes on, it
/// neither uses up the id nor counts as a segment.
pub proof fn previews_do_not_commit(
    real_time: bool,
    p: ProgressModel,
    ins: Seq<PartInput>,
    next: int,
)
    requires
        part_legal(real_time, p, ins.push(PartInput::Event(PartEventModel::Added(next)))),
        collected_in_progress(ins),
    ensures
        ({
            let a = part_run(real_time, p, ins);
            let b = part_run(
                real_time,
                p,
                ins.push(PartInput::Event(PartEventModel::Added(next))),
            );
            b.state.segment_id == a.state.segment_id && b.progress == a.progress
        }),
{
    let all = ins.push(PartInput::Event(PartEventModel::Added(next)));
    assert(all.drop_last() =~= ins);
    uploader_remembers(real_time, p, ins);
}

/// Whatever is sent of fights that are over is a commit: it uses up the id and counts as a
/// segment.
pub proof fn finished_fights_commit(
    real_time: bool,
    p: ProgressModel,
    ins: Seq<PartInput>,
    next: int,
)
    requires
        part_legal(real_time, p, ins.push(PartInput::Event(PartEventModel::Added(next)))),
        !collected_in_progress(ins),
    ensures
        ({
            let a = part_run(real_time, p, ins);
            let b = part_run(
                real_time,
                p,
                ins.push(PartInput::Event(PartEventModel::Added(next))),
            );
            &&& b.state.segment_id == larger(next, a.state.segment_id + 1)
            &&& b.progress.segments == a.progress.segments + 1
        }),
{
    let all = ins.push(PartInput::Event(PartEventModel::Added(next)));
    assert(all.drop_last() =~= ins);
    uploader_remembers(real_time, p, ins);
}

/// When the parser hands over its master table, the table is uploaded exactly if its
/// fingerprint is not that of the table that the server accepted last.
pub proof fn live_table_sent_on_change(
    real_time: bool,
    p: ProgressModel,
    ins: Seq<PartInput>,
    mi: JsonTree,
)
    requires
        part_legal(real_time, p, ins.push(PartInput::Event(PartEventModel::Master(mi)))),
    ensures
        ({
            let t = part_run(
                real_time,
                p,
                ins.push(PartInput::Event(PartEventModel::Master(mi))),
            );
            if accepted_ids(real_time, p, ins) == Some(master_ids_of(mi)) {
                t.action is AddSegment
            } else {
                t.action is SetMasterTable
            }
        }),
{
    let all = ins.push(PartInput::Event(PartEventModel::Master(mi)));
    assert(all.drop_last() =~= ins);
    uploader_remembers(real_time, p, ins);
}

} // verus!
