//! Uploading a finished log.
use vstd::prelude::*;
use vstd::string::*;

use crate::fights::countable;
use crate::fights::event_sum;
use crate::fights::fight_data;
use crate::fights::fights_of;
use crate::fights::fights_string;
use crate::fights::master_string;
use crate::json::JsonTree;
use crate::laws::tables::fights_read;
use crate::laws::tables::master_tables_read;
use crate::laws::tables::segments_state_their_fights;
use crate::numbers::decimal;
use crate::numbers::with_commas;
use crate::upload::at_work;
use crate::upload::awaited;
use crate::upload::batches;
use crate::upload::last_added;
use crate::upload::last_created;
use crate::upload::last_master;
use crate::upload::segments_follow_the_report;
use crate::upload::setup_note;
use crate::upload::upload_legal;
use crate::upload::upload_remembers;
use crate::upload::upload_run;
use crate::upload::upload_step;
use crate::upload::note_means;
use crate::upload::Action;
use crate::upload::ActionModel;
use crate::upload::Event;
use crate::upload::EventModel;
use crate::upload::Note;
use crate::upload::NoteModel;
use crate::upload::PhaseModel;
use crate::upload::Setup;
use crate::upload::UploadModel;

verus! {

/// The fights that the parser handed over last.
pub open spec fn last_fights(es: Seq<EventModel>) -> JsonTree
    decreases es.len(),
{
    if es.len() == 0 {
        JsonTree::Null
    } else {
        match es.last() {
            EventModel::Fights(fd) => fd,
            _ => last_fights(es.drop_last()),
        }
    }
}

/// How many batches have been parsed.
pub open spec fn parsed_batches(es: Seq<EventModel>) -> int
    decreases es.len(),
{
    if es.len() == 0 {
        0
    } else {
        parsed_batches(es.drop_last()) + if es.last() is Parsed {
            1int
        } else {
            0
        }
    }
}

/// The state is about these fights and this batch.
spec fn is_about(s: UploadModel, fd: JsonTree, parsed: int) -> bool {
    &&& match s.phase {
        PhaseModel::Creating(data) => data == fight_data(fd),
        PhaseModel::Mastering(data) => data == fight_data(fd),
        PhaseModel::SettingMaster(data, _) => data == fight_data(fd),
        PhaseModel::Adding { events } => events == event_sum(fights_of(fd)),
        PhaseModel::Clearing { events } => events == event_sum(fights_of(fd)),
        _ => true,
    }
    &&& s.phase is Parsing ==> parsed == s.batch
    &&& at_work(s.phase) && !(s.phase is Parsing) ==> parsed == s.batch + 1
}

proof fn step_is_about(s: UploadModel, e: EventModel, fd: JsonTree, parsed: int)
    requires
        is_about(s, fd, parsed),
        awaited(s.phase, e),
    ensures
        is_about(
            upload_step(s, e).state,
            match e {
                EventModel::Fights(f) => f,
                _ => fd,
            },
            parsed + if e is Parsed {
                1int
            } else {
                0
            },
        ),
        s.total == upload_step(s, e).state.total,
{
}

proof fn always_about(total: int, es: Seq<EventModel>)
    requires
        upload_legal(total, es),
    ensures
        is_about(upload_run(total, es).state, last_fights(es), parsed_batches(es)),
        upload_run(total, es).state.total == total,
    decreases es.len(),
{
    if es.len() > 0 {
        let d = es.drop_last();
        always_about(total, d);
        step_is_about(
            upload_run(total, d).state,
            es.last(),
            last_fights(d),
            parsed_batches(d),
        );
    }
}

/// The report is created with the start and the end of the first fights.
#[verifier::rlimit(50)]
pub proof fn reports_span_their_fights(total: int, es: Seq<EventModel>, a: Action)
    requires
        upload_legal(total, es),
        a.means(upload_run(total, es).action),
        a is CreateReport,
    ensures
        es.len() > 0,
        es.last() is Fights,
        a matches Action::CreateReport { start_time, end_time } && start_time == last_fights(
            es,
        ).int_or_zero("startTime"@) && end_time == last_fights(es).int_or_zero("endTime"@),
{
    assert(es.len() > 0);
    always_about(total, es.drop_last());
    segments_state_their_fights(last_fights(es));
}

/// A master table is written of what the parser handed over, and headed by the versions of the
/// fights that it goes with: the log version, then the game version.
#[verifier::rlimit(50)]
pub proof fn master_tables_bear_their_versions(total: int, es: Seq<EventModel>, a: Action) -> (rest:
    Seq<char>)
    requires
        0 <= total,
        upload_legal(total, es),
        a.means(upload_run(total, es).action),
        a is SetMasterTable,
    ensures
        es.len() > 0,
        es.last() matches EventModel::Master(mi) && (a matches Action::SetMasterTable {
            text,
            ..
        } && ({
            let fd = last_fights(es);
            let log_version = fd.int_or_zero("logVersion"@);
            let game_version = fd.int_or_zero("gameVersion"@);
            &&& a->SetMasterTable_segment_id == last_added(es)
            &&& text@ == decimal(log_version) + "|"@ + decimal(game_version) + "|\n"@ + rest
            &&& text@ == master_string(mi, log_version, game_version)
        })),
{
    assert(es.len() > 0);
    always_about(total, es.drop_last());
    segments_follow_the_report(total, es);
    let fd = last_fights(es);
    segments_state_their_fights(fd);
    let mi = es.last()->Master_0;
    let lv = fd.int_or_zero("logVersion"@);
    let gv = fd.int_or_zero("gameVersion"@);
    let r = master_tables_read(mi, lv, gv);
    let rest = r.0 + r.1 + r.2 + r.3;
    let head = decimal(lv) + "|"@ + decimal(gv) + "|\n"@;
    assert(head + r.0 + r.1 + r.2 + r.3 =~= head + rest);
    rest
}

/// A segment is sent with the start, the end, the difficulty and the text of the fights that it
/// holds, and marked as neither live nor a preview. Its text is headed by the same two versions
/// in the same order as the master table.
#[verifier::rlimit(50)]
pub proof fn segments_are_of_their_fights(total: int, es: Seq<EventModel>, a: Action) -> (rest:
    Seq<char>)
    requires
        0 <= total,
        upload_legal(total, es),
        a.means(upload_run(total, es).action),
        a is AddSegment,
    ensures
        a matches Action::AddSegment { segment, text } && ({
            let fd = last_fights(es);
            &&& segment.segment_id == last_added(es)
            &&& segment.start_time == fd.int_or_zero("startTime"@)
            &&& segment.end_time == fd.int_or_zero("endTime"@)
            &&& -0x8000_0000 <= fd.int_or_zero("mythic"@) < 0x8000_0000 ==> segment.mythic
                == fd.int_or_zero("mythic"@)
            &&& segment.mythic == (fd.int_or_zero("mythic"@) as i32)
            &&& !segment.is_live_log
            &&& !segment.is_real_time
            &&& segment.in_progress_event_count == 0
            &&& text@ == fights_string(fd)
            &&& text@ == decimal(fd.int_or_zero("logVersion"@)) + "|"@ + decimal(
                fd.int_or_zero("gameVersion"@),
            ) + "\n"@ + rest
        }),
{
    assert(es.len() > 0);
    always_about(total, es.drop_last());
    segments_follow_the_report(total, es);
    let fd = last_fights(es);
    segments_state_their_fights(fd);
    fights_read(fd);
    let rest = decimal(event_sum(fights_of(fd))) + "\n"@ + crate::fights::events_text(
        fights_of(fd),
    );
    let head = decimal(fd.int_or_zero("logVersion"@)) + "|"@ + decimal(
        fd.int_or_zero("gameVersion"@),
    ) + "\n"@;
    assert(fights_string(fd) =~= head + rest);
    rest
}

/// What the parser and the site answer decides what comes next: parsed lines lead to collecting;
/// fights to creating the report where there is none yet, and to collecting the master table
/// where there is one; the report to the master table; the master table to the segment, by way
/// of uploading the table where its fingerprint has changed; the segment to forgetting the
/// fights; and with that, or without fights, the next lines or the end are due. A failure ends
/// the upload.
#[verifier::rlimit(50)]
pub proof fn answers_lead_on(total: int, es: Seq<EventModel>, a: Action)
    requires
        0 <= total,
        upload_legal(total, es),
        es.len() > 0,
        a.means(upload_run(total, es).action),
    ensures
        match es.last() {
            EventModel::Parsed => a is CollectFights,
            EventModel::Fights(fd) => if fights_of(fd).len() == 0 {
                a is ParseLines || a is CloseParser
            } else if last_created(es) is None {
                a is CreateReport
            } else {
                a is CollectMasterInfo
            },
            EventModel::Created(code) => a is CollectMasterInfo && last_created(es) == Some(code),
            EventModel::Master(mi) => if last_master(es.drop_last()) == last_master(es) {
                a is AddSegment
            } else {
                a is SetMasterTable
            },
            EventModel::MasterSet => a is AddSegment,
            EventModel::Added(_) => a is ClearFights,
            EventModel::Cleared => a is ParseLines || a is CloseParser,
            EventModel::Closed => match last_created(es) {
                Some(code) => a matches Action::TerminateReport { code: c } && c@ == code,
                None => a is NoFights,
            },
            EventModel::Terminated => a matches Action::Announce { code } && last_created(es)
                == Some(code@),
            EventModel::Failed => a is GiveUp,
        },
{
    upload_remembers(total, es.drop_last());
    upload_remembers(total, es);
}

/// The log is parsed in batches of a hundred thousand lines, the last of which may be shorter.
pub proof fn batches_have_their_size(total: int, es: Seq<EventModel>, a: Action)
    requires
        0 <= total,
        upload_legal(total, es),
        a.means(upload_run(total, es).action),
        a is ParseLines,
    ensures
        a matches Action::ParseLines { from, to } && from == 100_000 * parsed_batches(es) && (to
            == from + 100_000 || (to == total && to < from + 100_000)) && from < to <= total,
{
    always_about(total, es);
    upload_remembers(total, es);
    let b = parsed_batches(es);
    if es.len() > 0 {
        upload_remembers(total, es.drop_last());
    }
    assert(crate::upload::batch_start(b) == 100_000 * b) by (nonlinear_arith)
        requires
            crate::upload::batch_start(b) == b * 100_000,
    ;
    assert(crate::upload::batch_start(b + 1) == 100_000 * b + 100_000) by (nonlinear_arith)
        requires
            crate::upload::batch_start(b + 1) == (b + 1) * 100_000,
    ;
}

/// There are as many batches as it takes to hold all lines.
pub proof fn batches_hold_the_log(total: int)
    requires
        0 <= total,
    ensures
        (batches(total) - 1) * 100_000 < total <= batches(total) * 100_000 || (total == 0
            && batches(total) == 0),
{
    assert((batches(total) - 1) * 100_000 < total <= batches(total) * 100_000 || total == 0)
        by (nonlinear_arith)
        requires
            batches(total) == (total + 99_999) / 100_000,
            0 <= total,
    ;
}

/// The messages of an upload: a batch without fights, the report, and a segment with its events,
/// each with the number of the batch, and with the share of the batches done between ten and
/// ninety percent. Nothing else is said.
#[verifier::rlimit(50)]
pub proof fn messages_of_an_upload(total: int, es: Seq<EventModel>)
    requires
        0 <= total,
        upload_legal(total, es),
        es.len() > 0,
    ensures
        ({
            let n = batches(total);
            let place = decimal(parsed_batches(es)) + "/"@ + decimal(n);
            let note = upload_run(total, es).note;
            let pct = 10 + 80 * parsed_batches(es) / n;
            match es.last() {
                EventModel::Fights(fd) => if fights_of(fd).len() == 0 {
                    note matches Some(said) && said.step == "parse"@ && said.message == "Batch "@
                        + place + " \u{2014} no fights yet"@ && said.pct == pct
                } else {
                    note is None
                },
                EventModel::Created(code) => note matches Some(said) && said.step == "report"@
                    && said.message == "Report created: "@ + code && said.pct == pct,
                EventModel::Cleared => note matches Some(said) && said.step == "upload"@
                    && said.message == "Segment "@ + place + " \u{2014} "@ + with_commas(
                    (event_sum(fights_of(last_fights(es))) as usize) as nat,
                ) + " events"@ && said.pct == pct,
                _ => note is None,
            }
        }),
{
    let d = es.drop_last();
    always_about(total, d);
    upload_remembers(total, d);
    let s = upload_run(total, d).state;
    if at_work(s.phase) {
        batches_hold_the_log(total);
        assert(batches(total) >= 1) by (nonlinear_arith)
            requires
                batches(total) == (total + 99_999) / 100_000,
                0 < total,
        ;
    }
}

/// The messages of the preparations tell what they found, and their shares of the progress stay
/// below ten percent, one more for each.
pub proof fn messages_of_the_preparations(n: usize, name: String, version: i32)
    ensures
        setup_note(Setup::LogRead(n)).message == "Read "@ + with_commas(n as nat) + " lines"@,
        setup_note(Setup::LoggedIn(name)).message == "Logged in as "@ + name@,
        setup_note(Setup::ParserFetched(version)).message == "Parser v"@ + decimal(version as int)
            + " loaded"@,
        setup_note(Setup::ReadingLog).pct == 1,
        setup_note(Setup::LogRead(n)).pct == 2,
        setup_note(Setup::OpeningSession).pct == 3,
        setup_note(Setup::LoggingIn).pct == 4,
        setup_note(Setup::LoggedIn(name)).pct == 5,
        setup_note(Setup::FetchingParser).pct == 6,
        setup_note(Setup::ParserFetched(version)).pct == 7,
        setup_note(Setup::StartingParser).pct == 8,
        setup_note(Setup::ParserReady).pct == 9,
        setup_note(Setup::LogRead(n)).step == "read"@,
        setup_note(Setup::LoggedIn(name)).step == "login"@,
        setup_note(Setup::ParserFetched(version)).step == "fetch-parser"@,
{
}

/// The answer to what was asked for is accepted, and so is a failure of anything but closing the
/// parser.
pub proof fn upload_answers_are_accepted(
    total: int,
    es: Seq<EventModel>,
    next: int,
    code: Seq<char>,
    v: JsonTree,
)
    requires
        0 <= total,
        upload_legal(total, es),
        countable(v),
    ensures
        ({
            let t = upload_run(total, es);
            let ended = t.action is Announce || t.action is NoFights || t.action is GiveUp;
            &&& !ended ==> awaited(
                t.state.phase,
                match t.action {
                    ActionModel::ParseLines { .. } => EventModel::Parsed,
                    ActionModel::CollectFights => EventModel::Fights(v),
                    ActionModel::CreateReport { .. } => EventModel::Created(code),
                    ActionModel::CollectMasterInfo => EventModel::Master(v),
                    ActionModel::SetMasterTable { .. } => EventModel::MasterSet,
                    ActionModel::AddSegment { .. } => EventModel::Added(next),
                    ActionModel::ClearFights => EventModel::Cleared,
                    ActionModel::CloseParser => EventModel::Closed,
                    _ => EventModel::Terminated,
                },
            )
            &&& !ended && !(t.action is CloseParser) ==> awaited(t.state.phase, EventModel::Failed)
        }),
{
    if es.len() > 0 {
        upload_remembers(total, es.drop_last());
    }
}

/// A message is passed on as it was made.
pub proof fn messages_are_passed_on(n: Option<Note>, m: Option<NoteModel>)
    requires
        note_means(n, m),
    ensures
        m is Some <==> n is Some,
        m matches Some(x) ==> n->Some_0.step@ == x.step && n->Some_0.message@ == x.message
            && n->Some_0.pct == x.pct,
{
}

/// Events and messages stand for their models.
pub proof fn upload_events_carry(e: Event, n: Note)
    ensures
        match e {
            Event::Parsed => e@ is Parsed,
            Event::Fights(fd) => e@ == EventModel::Fights(fd.tree()),
            Event::Created(code) => e@ == EventModel::Created(code@),
            Event::Master(mi) => e@ == EventModel::Master(mi.tree()),
            Event::MasterSet => e@ is MasterSet,
            Event::Added(next) => e@ == EventModel::Added(next as int),
            Event::Cleared => e@ is Cleared,
            Event::Closed => e@ is Closed,
            Event::Terminated => e@ is Terminated,
            Event::Failed => e@ is Failed,
        },
        n@.step == n.step@ && n@.message == n.message@ && n@.pct == n.pct,
{
}

} // verus!
