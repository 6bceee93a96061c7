//! Uploading the fights of a live log.
use vstd::prelude::*;
use vstd::string::*;

use crate::fights::countable;
use crate::fights::event_sum;
use crate::fights::events_text;
use crate::fights::fight_data;
use crate::fights::fights_of;
use crate::fights::fights_string;
use crate::fights::first_event_count;
use crate::fights::master_ids_of;
use crate::fights::master_string;
use crate::json::JsonTree;
use crate::laws::tables::fights_read;
use crate::laws::tables::master_tables_read;
use crate::laws::tables::previews_count_their_first_fight;
use crate::laws::tables::segments_state_their_fights;
use crate::numbers::decimal;
use crate::progress::ProgressModel;
use crate::segments::accepted_ids;
use crate::segments::collected_in_progress;
use crate::segments::knows_preview;
use crate::segments::part_awaited;
use crate::segments::part_begin;
use crate::segments::part_legal;
use crate::segments::part_run;
use crate::segments::part_step;
use crate::segments::uploader_remembers;
use crate::segments::PartAction;
use crate::segments::PartActionModel;
use crate::segments::PartEvent;
use crate::segments::PartEventModel;
use crate::segments::PartInput;
use crate::segments::PartPhaseModel;
use crate::segments::PartTurnModel;
use crate::segments::UploaderModel;
use crate::segments::IN_PROGRESS_INTERVAL;

verus! {

/// The fights that were collected last, finished or going on.
pub open spec fn last_collected(ins: Seq<PartInput>) -> JsonTree
    decreases ins.len(),
{
    if ins.len() == 0 {
        JsonTree::Null
    } else {
        match ins.last() {
            PartInput::Event(PartEventModel::Fights(fd)) => fd,
            PartInput::Event(PartEventModel::InProgress(fd, _)) => fd,
            _ => last_collected(ins.drop_last()),
        }
    }
}

/// Whether the part that was begun last takes the current fight as finished.
pub open spec fn last_push(ins: Seq<PartInput>) -> bool
    decreases ins.len(),
{
    if ins.len() == 0 {
        false
    } else {
        match ins.last() {
            PartInput::Begin { push_fight, .. } => push_fight,
            _ => last_push(ins.drop_last()),
        }
    }
}

/// The id that the next segment is due under: one at first, and after every finished segment that
/// was accepted the one it was answered with, but always a larger one than before.
pub open spec fn id_due(ins: Seq<PartInput>) -> int
    decreases ins.len(),
{
    if ins.len() == 0 {
        1
    } else {
        let before = id_due(ins.drop_last());
        match ins.last() {
            PartInput::Event(PartEventModel::Added(next)) => if collected_in_progress(
                ins.drop_last(),
            ) {
                before
            } else if next > before {
                next
            } else {
                before + 1
            },
            _ => before,
        }
    }
}

/// When the last preview was begun.
pub open spec fn last_preview_at(real_time: bool, p: ProgressModel, ins: Seq<PartInput>) -> Option<
    int,
>
    decreases ins.len(),
{
    if ins.len() == 0 {
        None
    } else {
        match ins.last() {
            PartInput::Event(PartEventModel::InProgress(_, now)) => if part_run(
                real_time,
                p,
                ins,
            ).action is CollectMasterInfo {
                Some(now)
            } else {
                last_preview_at(real_time, p, ins.drop_last())
            },
            _ => last_preview_at(real_time, p, ins.drop_last()),
        }
    }
}

spec fn part_about(
    s: UploaderModel,
    fd: JsonTree,
    in_progress: bool,
    push: bool,
    id: int,
    at: Option<int>,
) -> bool {
    &&& match s.phase {
        PartPhaseModel::Mastering { data, preview } => data == fight_data(fd) && (
        preview matches Some(n) ==> n == first_event_count(fd)),
        PartPhaseModel::SettingMaster { data, preview, .. } => data == fight_data(fd) && (
        preview matches Some(n) ==> n == first_event_count(fd)),
        PartPhaseModel::Parsing { push_fight } => push_fight == push,
        _ => true,
    }
    &&& knows_preview(s.phase, in_progress)
    &&& s.segment_id == id
    &&& s.last_preview == at
}

/// The turn that an input leads to.
spec fn next_turn(s: UploaderModel, p: ProgressModel, i: PartInput) -> PartTurnModel {
    match i {
        PartInput::Begin { any_lines, push_fight } => part_begin(s, p, any_lines, push_fight),
        PartInput::Event(e) => part_step(s, p, e),
    }
}

#[verifier::rlimit(50)]
proof fn turn_is_about(
    s: UploaderModel,
    p: ProgressModel,
    i: PartInput,
    fd: JsonTree,
    in_progress: bool,
    push: bool,
    id: int,
    at: Option<int>,
)
    requires
        part_about(s, fd, in_progress, push, id, at),
        match i {
            PartInput::Begin { .. } => s.phase is Idle,
            PartInput::Event(e) => part_awaited(s, p, e),
        },
    ensures
        part_about(
            next_turn(s, p, i).state,
            match i {
                PartInput::Event(PartEventModel::Fights(f)) => f,
                PartInput::Event(PartEventModel::InProgress(f, _)) => f,
                _ => fd,
            },
            match i {
                PartInput::Event(PartEventModel::Fights(_)) => false,
                PartInput::Event(PartEventModel::InProgress(_, _)) => true,
                _ => in_progress,
            },
            match i {
                PartInput::Begin { push_fight, .. } => push_fight,
                _ => push,
            },
            match i {
                PartInput::Event(PartEventModel::Added(next)) => if in_progress {
                    id
                } else if next > id {
                    next
                } else {
                    id + 1
                },
                _ => id,
            },
            match i {
                PartInput::Event(PartEventModel::InProgress(_, now)) => if next_turn(
                    s,
                    p,
                    i,
                ).action is CollectMasterInfo {
                    Some(now)
                } else {
                    at
                },
                _ => at,
            },
        ),
{
}

proof fn part_always_about(real_time: bool, p: ProgressModel, ins: Seq<PartInput>)
    requires
        part_legal(real_time, p, ins),
    ensures
        part_about(
            part_run(real_time, p, ins).state,
            last_collected(ins),
            collected_in_progress(ins),
            last_push(ins),
            id_due(ins),
            last_preview_at(real_time, p, ins),
        ),
    decreases ins.len(),
{
    if ins.len() > 0 {
        let d = ins.drop_last();
        part_always_about(real_time, p, d);
        let t = part_run(real_time, p, d);
        turn_is_about(
            t.state,
            t.progress,
            ins.last(),
            last_collected(d),
            collected_in_progress(d),
            last_push(d),
            id_due(d),
            last_preview_at(real_time, p, d),
        );
    }
}

/// A live segment is sent under the id that is due, with the start, the end, the difficulty and
/// the text of the fights that it holds, marked as live, and as real-time where that was asked
/// for. A preview states how many events its first fight has; a finished segment states none.
#[verifier::rlimit(50)]
pub proof fn live_segments_are_of_their_fights(
    real_time: bool,
    p: ProgressModel,
    ins: Seq<PartInput>,
    a: PartAction,
) -> (rest: Seq<char>)
    requires
        part_legal(real_time, p, ins),
        a.means(part_run(real_time, p, ins).action),
        a is AddSegment,
    ensures
        a matches PartAction::AddSegment { segment, text } && ({
            let fd = last_collected(ins);
            &&& segment.segment_id == id_due(ins)
            &&& segment.start_time == fd.int_or_zero("startTime"@)
            &&& segment.end_time == fd.int_or_zero("endTime"@)
            &&& segment.mythic == (fd.int_or_zero("mythic"@) as i32)
            &&& segment.is_live_log
            &&& segment.is_real_time == real_time
            &&& !collected_in_progress(ins) ==> segment.in_progress_event_count == 0
            &&& collected_in_progress(ins) && fights_of(fd).len() > 0
                ==> segment.in_progress_event_count == fights_of(fd)[0].int_or_zero(
                "eventCount"@,
            )
            &&& text@ == fights_string(fd)
            &&& text@ == decimal(fd.int_or_zero("logVersion"@)) + "|"@ + decimal(
                fd.int_or_zero("gameVersion"@),
            ) + "\n"@ + rest
        }),
{
    assert(ins.len() > 0);
    let d = ins.drop_last();
    part_always_about(real_time, p, d);
    uploader_remembers(real_time, p, d);
    let fd = last_collected(ins);
    segments_state_their_fights(fd);
    previews_count_their_first_fight(fd);
    fights_read(fd);
    let rest = decimal(event_sum(fights_of(fd))) + "\n"@ + events_text(fights_of(fd));
    let head = decimal(fd.int_or_zero("logVersion"@)) + "|"@ + decimal(
        fd.int_or_zero("gameVersion"@),
    ) + "\n"@;
    assert(fights_string(fd) =~= head + rest);
    rest
}

/// A live master table is written of what the parser handed over, under the id that is due, and
/// headed by the log version and the game version of the fights that it goes with.
#[verifier::rlimit(50)]
pub proof fn live_tables_bear_their_versions(
    real_time: bool,
    p: ProgressModel,
    ins: Seq<PartInput>,
    a: PartAction,
) -> (rest: Seq<char>)
    requires
        part_legal(real_time, p, ins),
        a.means(part_run(real_time, p, ins).action),
        a is SetMasterTable,
    ensures
        ins.len() > 0,
        ins.last() matches PartInput::Event(e) && (e matches PartEventModel::Master(mi) && (
        a matches PartAction::SetMasterTable { segment_id, is_real_time, text } && ({
            let fd = last_collected(ins);
            let log_version = fd.int_or_zero("logVersion"@);
            let game_version = fd.int_or_zero("gameVersion"@);
            &&& segment_id == id_due(ins)
            &&& is_real_time == real_time
            &&& text@ == decimal(log_version) + "|"@ + decimal(game_version) + "|\n"@ + rest
            &&& text@ == master_string(mi, log_version, game_version)
        }))),
{
    assert(ins.len() > 0);
    let d = ins.drop_last();
    part_always_about(real_time, p, d);
    uploader_remembers(real_time, p, d);
    let fd = last_collected(ins);
    segments_state_their_fights(fd);
    let mi = ins.last()->Event_0->Master_0;
    let lv = fd.int_or_zero("logVersion"@);
    let gv = fd.int_or_zero("gameVersion"@);
    let r = master_tables_read(mi, lv, gv);
    let rest = r.0 + r.1 + r.2 + r.3;
    let head = decimal(lv) + "|"@ + decimal(gv) + "|\n"@;
    assert(head + r.0 + r.1 + r.2 + r.3 =~= head + rest);
    rest
}

/// What an input of a part leads to. `push` says whether the part takes the current fight as
/// finished, `at` when the last preview was begun before, and `accepted` is the fingerprint that
/// the server accepted last.
pub open spec fn input_leads_to(
    i: PartInput,
    real_time: bool,
    push: bool,
    at: Option<int>,
    accepted: Option<(int, int, int, int)>,
    a: PartAction,
) -> bool {
    match i {
        PartInput::Begin { any_lines, push_fight } => if any_lines {
            a is ParseLines
        } else {
            a matches PartAction::CollectFights { push_fight: pushed } && pushed == push_fight
        },
        PartInput::Event(e) => match e {
            PartEventModel::Parsed => a matches PartAction::CollectFights { push_fight: pushed }
                && pushed == push,
            PartEventModel::Fights(fd) => if fights_of(fd).len() == 0 {
                a is CollectInProgress
            } else {
                a is CollectMasterInfo
            },
            PartEventModel::InProgress(ip, now) => if real_time && fights_of(ip).len() > 0 && (
            at matches Some(t) ==> now - t >= 30 * 1_000_000_000) {
                a is CollectMasterInfo
            } else {
                a is Done
            },
            PartEventModel::Master(mi) => if accepted == Some(master_ids_of(mi)) {
                a is AddSegment
            } else {
                a is SetMasterTable
            },
            PartEventModel::MasterSet => a is AddSegment,
            PartEventModel::Added(_) => a is ClearFights,
            PartEventModel::Cleared => a is Done,
            PartEventModel::Failed => a is Done,
        },
    }
}

#[verifier::rlimit(50)]
proof fn turn_leads_on(
    s: UploaderModel,
    p: ProgressModel,
    i: PartInput,
    push: bool,
    a: PartAction,
)
    requires
        match i {
            PartInput::Begin { .. } => s.phase is Idle,
            PartInput::Event(e) => part_awaited(s, p, e),
        },
        s.phase matches PartPhaseModel::Parsing { push_fight } ==> push_fight == push,
        a.means(next_turn(s, p, i).action),
    ensures
        input_leads_to(i, s.real_time, push, s.last_preview, s.last_ids, a),
{
}

/// What comes back decides what is next. A part is parsed where it has lines, and then its fights
/// are collected, the current one with them exactly where the part was begun so. Finished fights
/// are sent, by way of the master table where its fingerprint is not the accepted one; without
/// any, the fight that goes on is asked for, and a preview of it is sent exactly where real-time
/// uploading is on, there is such a fight, and the last preview was begun at least thirty seconds
/// before. What was sent is forgotten, and then, or on a failure, the part is over.
#[verifier::rlimit(50)]
pub proof fn parts_lead_on(
    real_time: bool,
    p: ProgressModel,
    ins: Seq<PartInput>,
    a: PartAction,
)
    requires
        part_legal(real_time, p, ins),
        ins.len() > 0,
        a.means(part_run(real_time, p, ins).action),
    ensures
        input_leads_to(
            ins.last(),
            real_time,
            last_push(ins),
            last_preview_at(real_time, p, ins.drop_last()),
            accepted_ids(real_time, p, ins.drop_last()),
            a,
        ),
{
    let d = ins.drop_last();
    part_always_about(real_time, p, d);
    uploader_remembers(real_time, p, d);
    let t = part_run(real_time, p, d);
    turn_leads_on(t.state, t.progress, ins.last(), last_push(d), a);
}

proof fn turn_shows(s: UploaderModel, p: ProgressModel, i: PartInput)
    requires
        match i {
            PartInput::Begin { .. } => s.phase is Idle,
            PartInput::Event(e) => part_awaited(s, p, e),
        },
    ensures
        shows(p, i, next_turn(s, p, i).progress),
{
}

#[verifier::rlimit(50)]
proof fn turn_tells(s: UploaderModel, p: ProgressModel, i: PartInput, in_progress: bool)
    requires
        match i {
            PartInput::Begin { .. } => s.phase is Idle,
            PartInput::Event(e) => part_awaited(s, p, e),
        },
        knows_preview(s.phase, in_progress),
    ensures
        tells(p, i, in_progress, next_turn(s, p, i)),
{
    match i {
        PartInput::Event(PartEventModel::InProgress(ip, now)) => {
            assert(s.phase is Checking);
        },
        PartInput::Event(PartEventModel::Added(next)) => {
            assert(s.phase == (PartPhaseModel::Adding { is_preview: in_progress }));
        },
        _ => {
            assert(next_turn(s, p, i).note is None);
        },
    }
}

/// How an input changes what is shown of a fight that goes on.
pub open spec fn shows(before: ProgressModel, i: PartInput, after: ProgressModel) -> bool {
    &&& after.file == before.file
    &&& after.in_progress == match i {
        PartInput::Event(PartEventModel::Fights(fd)) => before.in_progress && fights_of(fd).len()
            == 0,
        PartInput::Event(PartEventModel::InProgress(ip, _)) => fights_of(ip).len() > 0,
        _ => before.in_progress,
    }
}

/// What is said after an input; `in_progress` says whether the fights collected last go on.
pub open spec fn tells(
    before: ProgressModel,
    i: PartInput,
    in_progress: bool,
    t: PartTurnModel,
) -> bool {
    match i {
        PartInput::Event(PartEventModel::InProgress(ip, _)) => if fights_of(ip).len() > 0
            && !before.in_progress {
            t.note matches Some(said) && said.state == "tailing"@ && said.message
                == "Fight in progress"@ && said.progress == t.progress
        } else {
            t.note is None
        },
        PartInput::Event(PartEventModel::Added(_)) => if in_progress {
            t.note is None
        } else {
            &&& t.progress.segments == before.segments + 1
            &&& t.note matches Some(said) && said.state == "uploading"@ && said.message
                == "Uploaded segment "@ + decimal(before.segments + 1) && said.progress
                == t.progress
        },
        _ => t.note is None,
    }
}

/// While parts are uploaded, the progress says whether a fight goes on: not after finished
/// fights, and after asking for the fight that goes on exactly if there is one. The file that is
/// shown does not change. It is said when a fight begins to go on, and when a finished segment was
/// accepted, with the number of segments by then; nothing else is said.
pub proof fn parts_are_shown(real_time: bool, p: ProgressModel, ins: Seq<PartInput>)
    requires
        part_legal(real_time, p, ins),
        ins.len() > 0,
    ensures
        shows(
            part_run(real_time, p, ins.drop_last()).progress,
            ins.last(),
            part_run(real_time, p, ins).progress,
        ),
        tells(
            part_run(real_time, p, ins.drop_last()).progress,
            ins.last(),
            collected_in_progress(ins.drop_last()),
            part_run(real_time, p, ins),
        ),
{
    let d = ins.drop_last();
    part_always_about(real_time, p, d);
    let t = part_run(real_time, p, d);
    turn_shows(t.state, t.progress, ins.last());
    turn_tells(t.state, t.progress, ins.last(), collected_in_progress(d));
}

/// The answer to what was asked for is accepted, and so is a failure.
pub open spec fn answerable(t: PartTurnModel, next: int, v: JsonTree, now: int) -> bool {
    let answer = match t.action {
        PartActionModel::ParseLines => PartEventModel::Parsed,
        PartActionModel::CollectFights { .. } => PartEventModel::Fights(v),
        PartActionModel::CollectInProgress => PartEventModel::InProgress(v, now),
        PartActionModel::CollectMasterInfo => PartEventModel::Master(v),
        PartActionModel::SetMasterTable { .. } => PartEventModel::MasterSet,
        PartActionModel::AddSegment { .. } => PartEventModel::Added(next),
        PartActionModel::ClearFights => PartEventModel::Cleared,
        PartActionModel::Done => PartEventModel::Failed,
    };
    if t.action is Done {
        t.state.phase is Idle
    } else {
        part_awaited(t.state, t.progress, answer) && part_awaited(
            t.state,
            t.progress,
            PartEventModel::Failed,
        )
    }
}

#[verifier::rlimit(50)]
proof fn turn_is_answerable(
    s: UploaderModel,
    p: ProgressModel,
    i: PartInput,
    next: int,
    v: JsonTree,
    now: int,
)
    requires
        match i {
            PartInput::Begin { .. } => s.phase is Idle,
            PartInput::Event(e) => part_awaited(s, p, e),
        },
        countable(v),
        next_turn(s, p, i).state.segment_id < i64::MAX,
        next_turn(s, p, i).progress.segments < u64::MAX,
    ensures
        answerable(next_turn(s, p, i), next, v, now),
{
}

/// Whatever is asked for can be answered, and can fail, as long as the numbers of segments have
/// not run out and the events can be counted.
pub proof fn part_answers_are_accepted(
    real_time: bool,
    p: ProgressModel,
    ins: Seq<PartInput>,
    next: int,
    v: JsonTree,
    now: int,
)
    requires
        part_legal(real_time, p, ins),
        countable(v),
        part_run(real_time, p, ins).state.segment_id < i64::MAX,
        part_run(real_time, p, ins).progress.segments < u64::MAX,
    ensures
        answerable(part_run(real_time, p, ins), next, v, now),
{
    if ins.len() > 0 {
        let t = part_run(real_time, p, ins.drop_last());
        turn_is_answerable(t.state, t.progress, ins.last(), next, v, now);
    }
}

/// Events stand for their models; thirty seconds lie between previews.
pub proof fn part_events_carry(e: PartEvent)
    ensures
        match e {
            PartEvent::Parsed => e@ is Parsed,
            PartEvent::Fights(fd) => e@ == PartEventModel::Fights(fd.tree()),
            PartEvent::InProgress(ip, now) => e@ == PartEventModel::InProgress(
                ip.tree(),
                now as int,
            ),
            PartEvent::Master(mi) => e@ == PartEventModel::Master(mi.tree()),
            PartEvent::MasterSet => e@ is MasterSet,
            PartEvent::Added(next) => e@ == PartEventModel::Added(next as int),
            PartEvent::Cleared => e@ is Cleared,
            PartEvent::Failed => e@ is Failed,
        },
        IN_PROGRESS_INTERVAL == 30 * 1_000_000_000,
{
}

} // verus!
