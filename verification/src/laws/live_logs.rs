//! A live log from its start to its clean-up.
use vstd::prelude::*;
use vstd::string::*;

use crate::game::site_by_id;
use crate::live::game_meant;
use crate::live::live_awaited;
use crate::live::live_wf;
use crate::live::session_begin;
use crate::live::session_legal;
use crate::live::session_run;
use crate::live::session_step;
use crate::live::told;
use crate::live::told_on_its_own_site;
use crate::live::was_created;
use crate::live::LiveAction;
use crate::live::LiveActionModel;
use crate::live::LiveEvent;
use crate::live::LiveEventModel;
use crate::live::LiveModel;
use crate::live::LivePhase;
use crate::live::LiveTurnModel;
use crate::live::Notice;
use crate::live::NoticeModel;
use crate::live::Witnessed;
use crate::live::LIVE_FILE_NAME;
use crate::progress::live_note;
use crate::progress::note_means;
use crate::progress::LiveNote;
use crate::progress::LiveNoteModel;
use crate::progress::LiveProgress;
use crate::progress::ProgressModel;

verus! {

/// A game that is not named is World of Warcraft; a live report is filed as `live.log`.
pub proof fn games_are_meant(game: Seq<char>)
    ensures
        game.len() == 0 ==> game_meant(game) == "warcraft"@,
        game.len() > 0 ==> game_meant(game) == game,
        LIVE_FILE_NAME@ == "live.log"@,
{
}

/// The notice says this while the live log is not running yet.
pub open spec fn is_preparing(n: NoticeModel, p: ProgressModel, message: Seq<char>) -> bool {
    n matches NoticeModel::Progress(said) && said.state == "waiting"@ && said.message == message
        && said.progress == p
}

/// A live log begins by opening a session for its game; without its directory it is refused.
pub proof fn live_logs_begin(
    whole_file: bool,
    game: Seq<char>,
    directory: Seq<char>,
    p: ProgressModel,
)
    ensures
        ({
            let t = session_begin(whole_file, game, directory, true, p);
            &&& t.action == (LiveActionModel::OpenSession { game: game_meant(game) })
            &&& t.notices.len() == 1
            &&& is_preparing(t.notices[0], p, "Initializing session..."@)
        }),
        ({
            let t = session_begin(whole_file, game, directory, false, p);
            &&& t.action == (LiveActionModel::Refuse {
                message: "not a directory: "@ + directory,
            })
            &&& t.notices.len() == 0
        }),
{
}

/// What is known of the state: when the report was asked for.
spec fn knows_start(s: LiveModel, started: int) -> bool {
    s.phase matches LivePhase::Creating { start_ms } ==> start_ms == started
}

/// When the state of the parser was cleared.
pub open spec fn cleared_at(es: Seq<Witnessed>) -> int
    decreases es.len(),
{
    if es.len() == 0 {
        0
    } else {
        match es.last().0 {
            LiveEventModel::StateCleared(now) => now,
            _ => cleared_at(es.drop_last()),
        }
    }
}

proof fn start_is_known(whole_file: bool, game: Seq<char>, p: ProgressModel, es: Seq<Witnessed>)
    requires
        session_legal(whole_file, game, p, es),
    ensures
        knows_start(session_run(whole_file, game, p, es).state, cleared_at(es)),
        session_run(whole_file, game, p, es).state.include_entire_file == whole_file,
        session_run(whole_file, game, p, es).state.report == was_created(es),
        live_wf(session_run(whole_file, game, p, es).state),
        session_run(whole_file, game, p, es).state.phase is Terminating
            || session_run(whole_file, game, p, es).state.phase is Tailing
            || session_run(whole_file, game, p, es).state.phase is SettingStart ==> was_created(
            es,
        ) is Some,
    decreases es.len(),
{
    if es.len() > 0 {
        start_is_known(whole_file, game, p, es.drop_last());
    }
}

/// What an event of a live log leads to. `started` is when the parser's state was cleared,
/// `report` the report that was created, and `base_url` the site that it is on.
pub open spec fn live_event_leads_to(
    e: LiveEventModel,
    p: ProgressModel,
    whole_file: bool,
    base_url: Seq<char>,
    started: int,
    report: Option<Seq<char>>,
    t: LiveTurnModel,
) -> bool {
    match e {
        LiveEventModel::SessionOpened => t.action is Login && t.notices.len() == 1 && is_preparing(
            t.notices[0],
            p,
            "Logging in..."@,
        ),
        LiveEventModel::LoggedIn(name) => t.action is FetchParser && t.notices.len() == 2
            && is_preparing(t.notices[0], p, "Logged in as "@ + name) && is_preparing(
            t.notices[1],
            p,
            "Fetching latest parser..."@,
        ),
        LiveEventModel::ParserFetched => t.action is LocateHarness && t.notices.len() == 0,
        LiveEventModel::HarnessLocated => t.action is SpawnParser && t.notices.len() == 1
            && is_preparing(t.notices[0], p, "Starting parser..."@),
        LiveEventModel::Spawned => t.action is ClearState && t.notices.len() == 0,
        LiveEventModel::StateCleared(now) => t.action == (LiveActionModel::CreateReport {
            start_ms: now,
        }) && t.notices.len() == 0,
        LiveEventModel::Created(code) => {
            &&& if whole_file {
                t.action == (LiveActionModel::Tail { code })
            } else {
                t.action == (LiveActionModel::SetLiveStart { start_ms: started })
            }
            &&& t.notices.len() == 2
            &&& t.notices[0] == (NoticeModel::Started { code, url: base_url + "/reports/"@ + code })
            &&& is_preparing(t.notices[1], p, "Live report created: "@ + code)
        },
        LiveEventModel::StartSet => report matches Some(code) && t.action == (
        LiveActionModel::Tail { code }) && t.notices.len() == 0,
        LiveEventModel::TailEnded => t.action is CloseParser && t.notices.len() == 0,
        LiveEventModel::Closed => match report {
            Some(code) => t.action == (LiveActionModel::TerminateReport { code })
                && t.notices.len() == 0,
            None => t.action is Finish,
        },
        LiveEventModel::Terminated => t.action is Finish,
        LiveEventModel::Failed(_) => true,
    }
}

proof fn step_leads_on(s: LiveModel, p: ProgressModel, e: LiveEventModel, started: int)
    requires
        live_wf(s),
        live_awaited(s, e),
        knows_start(s, started),
        s.phase is SettingStart ==> s.report is Some,
    ensures
        live_event_leads_to(
            e,
            p,
            s.include_entire_file,
            s.base_url,
            started,
            match e {
                LiveEventModel::Created(code) => Some(code),
                _ => s.report,
            },
            session_step(s, p, e),
        ),
{
}

/// Each step of a live log leads to the next, with what is told of it. The report starts when the
/// parser's state was cleared, is announced on its own site, and leaves out what came before
/// unless the whole file is wanted.
pub proof fn live_logs_lead_on(
    whole_file: bool,
    game: Seq<char>,
    p: ProgressModel,
    es: Seq<Witnessed>,
)
    requires
        session_legal(whole_file, game, p, es),
        es.len() > 0,
    ensures
        live_event_leads_to(
            es.last().0,
            es.last().1,
            whole_file,
            site_by_id(game_meant(game)).base_url,
            cleared_at(es),
            was_created(es),
            session_run(whole_file, game, p, es),
        ),
{
    let d = es.drop_last();
    start_is_known(whole_file, game, p, d);
    told_on_its_own_site(whole_file, game, p, d);
    let s = session_run(whole_file, game, p, d).state;
    step_leads_on(s, es.last().1, es.last().0, cleared_at(d));
}

/// A failure before the parser was started ends the live log; one after that leads to closing the
/// parser; and one of ending the report is told, and the live log is over.
pub open spec fn failure_leads_to(
    phase: LivePhase,
    report: Option<Seq<char>>,
    reason: Seq<char>,
    p: ProgressModel,
    t: LiveTurnModel,
) -> bool {
    match phase {
        LivePhase::Opening | LivePhase::LoggingIn | LivePhase::Fetching | LivePhase::Locating
        | LivePhase::Spawning => t.action == (LiveActionModel::Finish { ok: false })
            && t.notices.len() == 0,
        LivePhase::ClearingState | LivePhase::Creating { .. } | LivePhase::SettingStart
        | LivePhase::Tailing => t.action is CloseParser && t.notices.len() == 0,
        LivePhase::Terminating => t.action is Finish && t.notices.len() > 0 && (
        t.notices[0] matches NoticeModel::Progress(said) && said.state == "error"@ && said.progress
            == p && (report matches Some(code) && said.message == "Report "@ + code
            + " could not be finalized on the server: "@ + reason)),
        _ => true,
    }
}

/// Failures lead to the clean-up that is due.
pub proof fn failures_lead_on(
    whole_file: bool,
    game: Seq<char>,
    p: ProgressModel,
    es: Seq<Witnessed>,
    reason: Seq<char>,
)
    requires
        session_legal(whole_file, game, p, es),
        es.len() > 0,
        es.last().0 == LiveEventModel::Failed(reason),
    ensures
        failure_leads_to(
            session_run(whole_file, game, p, es.drop_last()).state.phase,
            was_created(es),
            reason,
            es.last().1,
            session_run(whole_file, game, p, es),
        ),
{
    start_is_known(whole_file, game, p, es.drop_last());
}

/// A live log that ended well announces its report, last of all, with the number of its segments;
/// one that failed announces nothing.
pub proof fn reports_are_announced_at_the_end(
    whole_file: bool,
    game: Seq<char>,
    p: ProgressModel,
    es: Seq<Witnessed>,
)
    requires
        session_legal(whole_file, game, p, es),
        es.len() > 0,
        session_run(whole_file, game, p, es).action is Finish,
    ensures
        ({
            let t = session_run(whole_file, game, p, es);
            let ok = t.action->Finish_ok;
            match was_created(es) {
                Some(code) => if ok {
                    t.notices.len() > 0 && t.notices.last() == (NoticeModel::Done {
                        code,
                        url: site_by_id(game_meant(game)).base_url + "/reports/"@ + code,
                        segments: es.last().1.segments,
                    })
                } else {
                    forall|i: int|
                        0 <= i < t.notices.len() ==> !(#[trigger] t.notices[i] is Done)
                },
                None => forall|i: int|
                    0 <= i < t.notices.len() ==> !(#[trigger] t.notices[i] is Done),
            }
        }),
{
    start_is_known(whole_file, game, p, es.drop_last());
    told_on_its_own_site(whole_file, game, p, es.drop_last());
}

/// The answer to what was asked for is accepted, and so is a failure of anything but closing the
/// parser.
pub proof fn live_answers_are_accepted(
    whole_file: bool,
    game: Seq<char>,
    p: ProgressModel,
    es: Seq<Witnessed>,
    text: Seq<char>,
    now: i64,
)
    requires
        session_legal(whole_file, game, p, es),
        !(session_run(whole_file, game, p, es).action is Finish),
    ensures
        ({
            let t = session_run(whole_file, game, p, es);
            &&& live_awaited(
                t.state,
                match t.action {
                    LiveActionModel::OpenSession { .. } => LiveEventModel::SessionOpened,
                    LiveActionModel::Login => LiveEventModel::LoggedIn(text),
                    LiveActionModel::FetchParser => LiveEventModel::ParserFetched,
                    LiveActionModel::LocateHarness => LiveEventModel::HarnessLocated,
                    LiveActionModel::SpawnParser => LiveEventModel::Spawned,
                    LiveActionModel::ClearState => LiveEventModel::StateCleared(now as int),
                    LiveActionModel::CreateReport { .. } => LiveEventModel::Created(text),
                    LiveActionModel::SetLiveStart { .. } => LiveEventModel::StartSet,
                    LiveActionModel::Tail { .. } => LiveEventModel::TailEnded,
                    LiveActionModel::CloseParser => LiveEventModel::Closed,
                    _ => LiveEventModel::Terminated,
                },
            )
            &&& !(t.action is CloseParser) ==> live_awaited(t.state, LiveEventModel::Failed(text))
        }),
{
    if es.len() > 0 {
        start_is_known(whole_file, game, p, es.drop_last());
    }
}

/// Notices, actions, events and the progress stand for their models.
pub proof fn live_values_carry(n: Notice, a: LiveAction, e: LiveEvent, v: Seq<Notice>)
    ensures
        match n {
            Notice::Progress(x) => n@ == NoticeModel::Progress(x@),
            Notice::Started { code, url } => n@ == (NoticeModel::Started { code: code@, url: url@ }),
            Notice::Done { code, url, segments } => n@ == (NoticeModel::Done {
                code: code@,
                url: url@,
                segments: segments as int,
            }),
        },
        match a {
            LiveAction::Refuse { message } => a@ == (LiveActionModel::Refuse { message: message@ }),
            LiveAction::OpenSession { game } => a@ == (LiveActionModel::OpenSession {
                game: game@,
            }),
            LiveAction::Login => a@ is Login,
            LiveAction::FetchParser => a@ is FetchParser,
            LiveAction::LocateHarness => a@ is LocateHarness,
            LiveAction::SpawnParser => a@ is SpawnParser,
            LiveAction::ClearState => a@ is ClearState,
            LiveAction::CreateReport { start_ms } => a@ == (LiveActionModel::CreateReport {
                start_ms: start_ms as int,
            }),
            LiveAction::SetLiveStart { start_ms } => a@ == (LiveActionModel::SetLiveStart {
                start_ms: start_ms as int,
            }),
            LiveAction::Tail { code } => a@ == (LiveActionModel::Tail { code: code@ }),
            LiveAction::CloseParser => a@ is CloseParser,
            LiveAction::TerminateReport { code } => a@ == (LiveActionModel::TerminateReport {
                code: code@,
            }),
            LiveAction::Finish { ok } => a@ == (LiveActionModel::Finish { ok }),
        },
        match e {
            LiveEvent::SessionOpened => e@ is SessionOpened,
            LiveEvent::LoggedIn(name) => e@ == LiveEventModel::LoggedIn(name@),
            LiveEvent::ParserFetched => e@ is ParserFetched,
            LiveEvent::HarnessLocated => e@ is HarnessLocated,
            LiveEvent::Spawned => e@ is Spawned,
            LiveEvent::StateCleared(now) => e@ == LiveEventModel::StateCleared(now as int),
            LiveEvent::Created(code) => e@ == LiveEventModel::Created(code@),
            LiveEvent::StartSet => e@ is StartSet,
            LiveEvent::TailEnded => e@ is TailEnded,
            LiveEvent::Closed => e@ is Closed,
            LiveEvent::Terminated => e@ is Terminated,
            LiveEvent::Failed(reason) => e@ == LiveEventModel::Failed(reason@),
        },
        told(v).len() == v.len(),
        forall|i: int| 0 <= i < v.len() ==> #[trigger] told(v)[i] == v[i]@,
{
}

/// A message bears what it was made of, and the progress at that time.
pub proof fn live_messages_carry(
    p: LiveProgress,
    n: LiveNote,
    state: Seq<char>,
    message: Seq<char>,
    said: Option<LiveNote>,
    m: Option<LiveNoteModel>,
)
    ensures
        p@.segments == p.segments && p@.in_progress == p.in_progress,
        match p.file {
            Some(f) => p@.file == Some(f@),
            None => p@.file is None,
        },
        n@.state == n.state@ && n@.message == n.message@,
        n@.progress.segments == n.segments && n@.progress.in_progress == n.in_progress,
        match n.file {
            Some(f) => n@.progress.file == Some(f@),
            None => n@.progress.file is None,
        },
        ({
            let x = live_note(p@, state, message);
            x.state == state && x.message == message && x.progress == p@
        }),
        note_means(said, m) ==> (m is Some <==> said is Some) && (m matches Some(x)
            ==> said->Some_0@ == x),
{
}

} // verus!
