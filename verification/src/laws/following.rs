//! Following the newest log of a directory.
use vstd::prelude::*;
use vstd::string::*;

use crate::progress::ProgressModel;
use crate::tail::actions_fit;
use crate::tail::tail_awaited;
use crate::tail::tail_legal;
use crate::tail::tail_run;
use crate::tail::tail_step;
use crate::tail::tail_wf;
use crate::tail::FoundModel;
use crate::tail::Moment;
use crate::tail::TailAction;
use crate::tail::TailActionModel;
use crate::tail::TailEvent;
use crate::tail::TailEventModel;
use crate::tail::TailModel;
use crate::tail::TailPhaseModel;
use crate::tail::TailTurnModel;
use crate::tail::Timed;
use crate::tail::IDLE_THRESHOLD;
use crate::tail::POLL_INTERVAL_SECS;
use crate::log_file::FoundLog;
use crate::text::text_option;
use crate::text::texts;

verus! {

/// The log that the last search found.
pub open spec fn last_found(es: Seq<Timed>) -> Option<FoundModel>
    decreases es.len(),
{
    if es.len() == 0 {
        None
    } else {
        match es.last().0 {
            TailEventModel::Newest(Some(found)) => Some(found),
            _ => last_found(es.drop_last()),
        }
    }
}

/// What a turn knows of the log that was found last.
spec fn knows_found(t: TailTurnModel, found: Option<FoundModel>) -> bool {
    &&& match t.state.phase {
        TailPhaseModel::Rotating { next, .. } => found == Some(next),
        TailPhaseModel::RotatingUpload { next, .. } => found == Some(next),
        TailPhaseModel::Dating { name } => found matches Some(f) && f.name == name && (
        f.date matches Some(date) && t.action == (TailActionModel::SetStartDate { date })),
        _ => true,
    }
    &&& t.action is SetStartDate ==> t.state.phase is Dating && t.state.offset == 0
    &&& t.state.phase is Dating ==> t.state.offset == 0
}

proof fn step_knows_found(t: TailTurnModel, found: Option<FoundModel>, e: TailEventModel, m: Moment)
    requires
        knows_found(t, found),
        tail_awaited(t.state, e),
    ensures
        knows_found(
            tail_step(t.state, t.progress, e, m),
            match e {
                TailEventModel::Newest(Some(f)) => Some(f),
                _ => found,
            },
        ),
{
}

proof fn always_knows_found(m: Moment, p: ProgressModel, es: Seq<Timed>)
    requires
        tail_legal(m, p, es),
    ensures
        knows_found(tail_run(m, p, es), last_found(es)),
    decreases es.len(),
{
    if es.len() > 0 {
        let d = es.drop_last();
        always_knows_found(m, p, d);
        step_knows_found(tail_run(m, p, d), last_found(d), es.last().0, es.last().1);
    }
}

/// Another log begins to be followed with a turn.
pub open spec fn begins_to_follow(before: TailModel, after: TailModel) -> bool {
    after.current is Some && after.current != before.current
}

/// How a log begins to be followed: it is the one that was found last; where its name tells a
/// date, the parser has just been told that date and has taken it, and where it tells none, the
/// parser was told none; it is read from its first byte, and shown and announced by its name.
pub open spec fn begins_well(before: TailTurnModel, e: TailEventModel, after: TailTurnModel, found: FoundModel) -> bool {
    &&& after.state.current == Some(found.name)
    &&& match found.date {
        Some(date) => before.action == (TailActionModel::SetStartDate { date }) && e is DateSet,
        None => !(before.action is SetStartDate) && !(e is DateSet),
    }
    &&& after.action == (TailActionModel::ReadChunk { file: found.name, offset: 0 })
    &&& after.state.offset == 0
    &&& after.progress.file == Some(found.name)
    &&& after.note matches Some(said) && said.state == "tailing"@ && said.message == "Tailing "@
        + found.name && said.progress == after.progress
}

proof fn step_begins_well(t: TailTurnModel, found: Option<FoundModel>, e: TailEventModel, m: Moment)
    requires
        knows_found(t, found),
        tail_awaited(t.state, e),
        begins_to_follow(t.state, tail_step(t.state, t.progress, e, m).state),
    ensures
        ({
            let now = match e {
                TailEventModel::Newest(Some(f)) => Some(f),
                _ => found,
            };
            now is Some && begins_well(
                t,
                e,
                tail_step(t.state, t.progress, e, m),
                now->Some_0,
            )
        }),
{
}

/// Whenever another log begins to be followed, the parser has been told the date of that log
/// before anything of it is read, and the log is read from its beginning.
pub proof fn dates_are_told_first(m: Moment, p: ProgressModel, es: Seq<Timed>)
    requires
        tail_legal(m, p, es),
        es.len() > 0,
        begins_to_follow(tail_run(m, p, es.drop_last()).state, tail_run(m, p, es).state),
    ensures
        last_found(es) is Some,
        begins_well(
            tail_run(m, p, es.drop_last()),
            es.last().0,
            tail_run(m, p, es),
            last_found(es)->Some_0,
        ),
{
    let d = es.drop_last();
    always_knows_found(m, p, d);
    step_begins_well(tail_run(m, p, d), last_found(d), es.last().0, es.last().1);
}

/// The parser is only ever told the date of the log that was found last.
pub proof fn only_told_dates_are_set(m: Moment, p: ProgressModel, es: Seq<Timed>)
    requires
        tail_legal(m, p, es),
    ensures
        tail_run(m, p, es).action matches TailActionModel::SetStartDate { date } ==> (last_found(
            es,
        ) matches Some(found) && found.date == Some(date)),
{
    always_knows_found(m, p, es);
}

/// A log is turned to: its date is told, or where it has none it is read at once.
pub open spec fn turned_to(found: FoundModel, t: TailTurnModel) -> bool {
    match found.date {
        Some(date) => t.action == (TailActionModel::SetStartDate { date }),
        None => t.action == (TailActionModel::ReadChunk { file: found.name, offset: 0 }),
    }
}

/// The fight that goes on is taken as finished, for the last time.
pub open spec fn winds_up_with_flush(t: TailTurnModel) -> bool {
    &&& t.action == (TailActionModel::UploadPart { lines: Seq::empty(), push_fight: true })
    &&& t.note matches Some(said) && said.state == "uploading"@ && said.message
        == "Stopping \u{2014} flushing final data..."@
}

/// The next round: a search, or on a stop the size of the log that is followed, or where there is
/// none the flush.
pub open spec fn goes_round(s: TailModel, stop: bool, t: TailTurnModel) -> bool {
    if !stop {
        t.action is FindNewest
    } else {
        match s.current {
            Some(file) => t.action == (TailActionModel::FileSize { file }),
            None => winds_up_with_flush(t),
        }
    }
}

/// What an event leads to, by what was waited for.
pub open spec fn event_leads_to(s: TailModel, e: TailEventModel, m: Moment, t: TailTurnModel) -> bool {
    match (s.phase, e) {
        (_, TailEventModel::Newest(None)) => t.action is Sleep,
        (_, TailEventModel::Newest(Some(found))) => match s.current {
            Some(old) => if old == found.name {
                t.action == (TailActionModel::ReadChunk { file: old, offset: s.offset })
            } else if m.stop {
                turned_to(found, t)
            } else {
                t.action == (TailActionModel::ReadChunk { file: old, offset: s.offset })
            },
            None => turned_to(found, t),
        },
        (_, TailEventModel::Slept) => goes_round(s, m.stop, t),
        (TailPhaseModel::Rotating { next, .. }, TailEventModel::Read { lines, new_offset, .. }) => if lines.len()
            == 0 {
            turned_to(next, t)
        } else {
            t.action == (TailActionModel::UploadPart { lines, push_fight: false })
                && t.state.offset == new_offset
        },
        (TailPhaseModel::Rotating { next, .. }, _) => turned_to(next, t),
        (TailPhaseModel::RotatingUpload { old, next }, TailEventModel::Uploaded) => if m.stop {
            turned_to(next, t)
        } else {
            t.action == (TailActionModel::ReadChunk { file: old, offset: s.offset })
        },
        (TailPhaseModel::RotatingUpload { next, .. }, _) => if m.stop {
            turned_to(next, t)
        } else {
            t.action == (TailActionModel::End { ok: false })
        },
        (_, TailEventModel::DateFailed) => t.action == (TailActionModel::End { ok: false }),
        (TailPhaseModel::Reading, TailEventModel::ReadFailed) => t.action is Sleep,
        (TailPhaseModel::Reading, TailEventModel::Read { lines, new_offset, file_size }) => if file_size
            < s.offset {
            t.state.offset == 0 && goes_round(s, m.stop, t)
        } else if lines.len() > 0 {
            t.action == (TailActionModel::UploadPart { lines, push_fight: false })
                && t.state.offset == new_offset
        } else {
            t.action is Sleep || t.action == (TailActionModel::UploadPart {
                lines: Seq::empty(),
                push_fight: true,
            })
        },
        (TailPhaseModel::Uploading { any_lines }, TailEventModel::Uploaded) => if any_lines {
            goes_round(s, m.stop, t)
        } else {
            t.action is Sleep
        },
        (TailPhaseModel::Uploading { .. }, _) => if m.stop {
            goes_round(s, true, t)
        } else {
            t.action == (TailActionModel::End { ok: false })
        },
        (_, TailEventModel::Size(n)) => if s.offset < n {
            s.current matches Some(file) && t.action == (TailActionModel::ReadChunk {
                file,
                offset: s.offset,
            })
        } else {
            winds_up_with_flush(t)
        },
        (TailPhaseModel::Draining { .. }, TailEventModel::Read { lines, new_offset, .. }) => if lines.len()
            == 0 {
            winds_up_with_flush(t)
        } else {
            t.action == (TailActionModel::UploadPart { lines, push_fight: false })
                && t.state.offset == new_offset
        },
        (TailPhaseModel::Draining { .. }, _) => winds_up_with_flush(t),
        (TailPhaseModel::DrainingUpload { until }, TailEventModel::Uploaded) => if s.offset < until {
            s.current matches Some(file) && t.action == (TailActionModel::ReadChunk {
                file,
                offset: s.offset,
            })
        } else {
            winds_up_with_flush(t)
        },
        (TailPhaseModel::DrainingUpload { .. }, _) => winds_up_with_flush(t),
        (TailPhaseModel::Flushing, _) => t.action == (TailActionModel::End { ok: true }),
        _ => true,
    }
}

#[verifier::rlimit(50)]
proof fn step_leads_on(s: TailModel, p: ProgressModel, e: TailEventModel, m: Moment)
    requires
        tail_wf(s),
        tail_awaited(s, e),
    ensures
        event_leads_to(s, e, m, tail_step(s, p, e, m)),
{
}

/// What was read, uploaded, found or told decides what comes next.
pub proof fn following_leads_on(m: Moment, p: ProgressModel, es: Seq<Timed>)
    requires
        tail_legal(m, p, es),
        es.len() > 0,
    ensures
        event_leads_to(
            tail_run(m, p, es.drop_last()).state,
            es.last().0,
            es.last().1,
            tail_run(m, p, es),
        ),
{
    let d = es.drop_last();
    actions_fit(m, p, d);
    let t = tail_run(m, p, d);
    step_leads_on(t.state, t.progress, es.last().0, es.last().1);
}

/// What is said while a log is followed: that there is none, once, until one is followed; that
/// the log was truncated; that it is silent. The rest is said when a log begins to be followed and
/// on a stop.
pub open spec fn event_is_told(s: TailModel, e: TailEventModel, t: TailTurnModel) -> bool {
    match (s.phase, e) {
        (_, TailEventModel::Newest(None)) => if s.current is None && !s.waiting_logged {
            t.note matches Some(said) && said.state == "waiting"@ && said.message
                == "Waiting for a combat log to appear..."@ && t.state.waiting_logged
        } else {
            t.note is None
        },
        (TailPhaseModel::Reading, TailEventModel::Read { lines, file_size, .. }) => if file_size
            < s.offset {
            t.note matches Some(said) && said.state == "tailing"@ && said.message
                == "Log truncated \u{2014} reading from the beginning"@
        } else if t.action is UploadPart && lines.len() == 0 {
            t.note matches Some(said) && said.state == "idle"@ && said.message
                == "Log idle \u{2014} flushing current fight"@
        } else {
            t.note is None
        },
        (_, TailEventModel::Size(n)) => s.offset < n ==> (t.note matches Some(said) && said.state
            == "uploading"@ && said.message
            == "Stopping \u{2014} reading the rest of the log..."@),
        _ => true,
    }
}

#[verifier::rlimit(50)]
proof fn step_is_told(s: TailModel, p: ProgressModel, e: TailEventModel, m: Moment)
    requires
        tail_wf(s),
        tail_awaited(s, e),
    ensures
        event_is_told(s, e, tail_step(s, p, e, m)),
        tail_step(s, p, e, m).note matches Some(said) ==> said.progress == tail_step(
            s,
            p,
            e,
            m,
        ).progress,
        tail_step(s, p, e, m).progress.segments == p.segments,
        tail_step(s, p, e, m).progress.in_progress == p.in_progress,
{
}

/// What is said while a log is followed is true of it, and bears the progress at that time;
/// following a log changes nothing of the progress but the file that is shown.
pub proof fn following_is_told(m: Moment, p: ProgressModel, es: Seq<Timed>)
    requires
        tail_legal(m, p, es),
        es.len() > 0,
    ensures
        ({
            let before = tail_run(m, p, es.drop_last());
            let t = tail_run(m, p, es);
            &&& event_is_told(before.state, es.last().0, t)
            &&& t.note matches Some(said) ==> said.progress == t.progress
            &&& t.progress.segments == before.progress.segments
            &&& t.progress.in_progress == before.progress.in_progress
        }),
{
    let d = es.drop_last();
    actions_fit(m, p, d);
    let t = tail_run(m, p, d);
    step_is_told(t.state, t.progress, es.last().0, es.last().1);
}

/// The answer to what was asked for is accepted.
pub proof fn tail_answers_are_accepted(m: Moment, p: ProgressModel, es: Seq<Timed>, e: TailEventModel)
    requires
        tail_legal(m, p, es),
        match tail_run(m, p, es).action {
            TailActionModel::FindNewest => e is Newest,
            TailActionModel::Sleep => e is Slept,
            TailActionModel::ReadChunk { .. } => e is Read || e is ReadFailed,
            TailActionModel::UploadPart { .. } => e is Uploaded || e is UploadFailed,
            TailActionModel::SetStartDate { .. } => e is DateSet || e is DateFailed,
            TailActionModel::FileSize { .. } => e is Size,
            TailActionModel::End { .. } => false,
        },
    ensures
        tail_awaited(tail_run(m, p, es).state, e),
{
    actions_fit(m, p, es);
}

/// Actions, events and found logs stand for their models; the log counts as silent after two
/// minutes, and is looked at every second.
pub proof fn tail_values_carry(a: TailAction, e: TailEvent, f: FoundLog)
    ensures
        match a {
            TailAction::FindNewest => a@ is FindNewest,
            TailAction::Sleep => a@ is Sleep,
            TailAction::ReadChunk { file, offset } => a@ == (TailActionModel::ReadChunk {
                file: file@,
                offset: offset as int,
            }),
            TailAction::UploadPart { lines, push_fight } => a@ == (TailActionModel::UploadPart {
                lines: texts(lines@),
                push_fight,
            }),
            TailAction::SetStartDate { date } => a@ == (TailActionModel::SetStartDate {
                date: date@,
            }),
            TailAction::FileSize { file } => a@ == (TailActionModel::FileSize { file: file@ }),
            TailAction::End { ok } => a@ == (TailActionModel::End { ok }),
        },
        match e {
            TailEvent::Newest(Some(found)) => e@ == TailEventModel::Newest(Some(found@)),
            TailEvent::Newest(None) => e@ == TailEventModel::Newest(None),
            TailEvent::Slept => e@ is Slept,
            TailEvent::Read(chunk) => e@ == (TailEventModel::Read {
                lines: texts(chunk.lines@),
                new_offset: chunk.new_offset as int,
                file_size: chunk.file_size as int,
            }),
            TailEvent::ReadFailed => e@ is ReadFailed,
            TailEvent::Uploaded => e@ is Uploaded,
            TailEvent::UploadFailed => e@ is UploadFailed,
            TailEvent::DateSet => e@ is DateSet,
            TailEvent::DateFailed => e@ is DateFailed,
            TailEvent::Size(n) => e@ == TailEventModel::Size(n as int),
        },
        f@.name == f.name@,
        f@.date == text_option(f.date),
        IDLE_THRESHOLD == 120 * 1_000_000_000,
        POLL_INTERVAL_SECS == 1,
{
}

} // verus!
