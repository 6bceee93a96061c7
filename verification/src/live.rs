//! A live log from beginning to end: which step follows which, and what is cleaned up.
use vstd::prelude::*;
use vstd::string::*;

use crate::game::game_by_id;
use crate::game::site_by_id;
use crate::progress::live_note;
use crate::progress::LiveNote;
use crate::progress::LiveNoteModel;
use crate::progress::LiveProgress;
use crate::progress::ProgressModel;
use crate::text::copy_option;
use crate::text::text_option;
use crate::wcl::report_address;
use crate::wcl::report_link;

verus! {

/// The name under which a live report is filed.
pub const LIVE_FILE_NAME: &'static str = "live.log";

/// What a live log is started with.
#[derive(Debug, Clone)]
pub struct LiveLogArgs {
    pub directory: String,
    pub email: String,
    pub password: String,
    pub region: i32,
    pub visibility: i32,
    pub guild_id: Option<i64>,
    /// Fights from before the start belong to the report too.
    pub include_entire_file_in_report: bool,
    pub enable_real_time_uploading: bool,
    /// The game; empty for the usual one.
    pub game: String,
}

/// The game that is meant: the one that is named, or the usual one.
pub open spec fn game_meant(game: Seq<char>) -> Seq<char> {
    if game.len() == 0 {
        "warcraft"@
    } else {
        game
    }
}

impl LiveLogArgs {
    /// The game that is meant: the one that is named, or the usual one.
    pub fn game_id(&self) -> (r: String)
        ensures
            r@ == game_meant(self.game@),
    {
        if self.game.as_str().is_empty() {
            "warcraft".to_owned()
        } else {
            self.game.clone()
        }
    }
}

/// The time in milliseconds since the epoch; zero where the clock stands before it.
pub fn now_ms(since_epoch: Option<u128>) -> (r: i64)
    ensures
        r == match since_epoch {
            Some(ms) => ms as i64,
            None => 0i64,
        },
{
    match since_epoch {
        Some(ms) => #[verifier::truncate] (ms as i64),
        None => 0,
    }
}

/// Something to tell.
pub enum Notice {
    Progress(LiveNote),
    /// The live report was created.
    Started { code: String, url: String },
    /// The live log came to a good end.
    Done { code: String, url: String, segments: u64 },
}

/// The model of something to tell.
pub enum NoticeModel {
    Progress(LiveNoteModel),
    Started { code: Seq<char>, url: Seq<char> },
    Done { code: Seq<char>, url: Seq<char>, segments: int },
}

/// What to do next.
pub enum LiveAction {
    /// The request cannot be met.
    Refuse { message: String },
    OpenSession { game: String },
    Login,
    FetchParser,
    /// Look up where the parser's host program lies.
    LocateHarness,
    SpawnParser,
    ClearState,
    /// Create the report, with this time as its start and its end.
    CreateReport { start_ms: i64 },
    /// Leave out of the report what happened before this time.
    SetLiveStart { start_ms: i64 },
    /// Follow the log.
    Tail { code: String },
    CloseParser,
    TerminateReport { code: String },
    /// All is over; unless `ok`, the first failure is the reason.
    Finish { ok: bool },
}

/// The model of an action.
pub enum LiveActionModel {
    Refuse { message: Seq<char> },
    OpenSession { game: Seq<char> },
    Login,
    FetchParser,
    LocateHarness,
    SpawnParser,
    ClearState,
    CreateReport { start_ms: int },
    SetLiveStart { start_ms: int },
    Tail { code: Seq<char> },
    CloseParser,
    TerminateReport { code: Seq<char> },
    Finish { ok: bool },
}

/// What came of the last action.
pub enum LiveEvent {
    SessionOpened,
    /// Logged in under this name.
    LoggedIn(String),
    ParserFetched,
    HarnessLocated,
    Spawned,
    /// The parser's state is cleared, at this time in milliseconds since the epoch.
    StateCleared(i64),
    Created(String),
    StartSet,
    TailEnded,
    Closed,
    Terminated,
    /// The action failed, for this reason.
    Failed(String),
}

/// The model of an event.
pub enum LiveEventModel {
    SessionOpened,
    LoggedIn(Seq<char>),
    ParserFetched,
    HarnessLocated,
    Spawned,
    StateCleared(int),
    Created(Seq<char>),
    StartSet,
    TailEnded,
    Closed,
    Terminated,
    Failed(Seq<char>),
}

/// What is waited for.
#[derive(Clone, Copy)]
pub enum LivePhase {
    Opening,
    LoggingIn,
    Fetching,
    Locating,
    Spawning,
    ClearingState,
    Creating { start_ms: i64 },
    SettingStart,
    Tailing,
    Closing,
    Terminating,
    Over,
}

/// The state of a live log.
pub struct LiveSession {
    base_url: &'static str,
    include_entire_file: bool,
    report: Option<String>,
    failed: bool,
    phase: LivePhase,
}

/// The model of the state.
pub struct LiveModel {
    /// The base URL of the site that the report is on.
    pub base_url: Seq<char>,
    /// Fights from before the start belong to the report too.
    pub include_entire_file: bool,
    /// The code of the report, once it is created.
    pub report: Option<Seq<char>>,
    /// Something has failed since the parser was started.
    pub failed: bool,
    pub phase: LivePhase,
}

/// A step: the new state, what to do, and what to tell.
pub struct LiveTurnModel {
    pub state: LiveModel,
    pub action: LiveActionModel,
    pub notices: Seq<NoticeModel>,
}

/// What to do, and what to tell.
pub struct LiveTurn {
    pub action: LiveAction,
    pub notices: Vec<Notice>,
}

impl View for Notice {
    type V = NoticeModel;

    open spec fn view(&self) -> NoticeModel {
        match self {
            Notice::Progress(n) => NoticeModel::Progress(n@),
            Notice::Started { code, url } => NoticeModel::Started { code: code@, url: url@ },
            Notice::Done { code, url, segments } => NoticeModel::Done {
                code: code@,
                url: url@,
                segments: *segments as int,
            },
        }
    }
}

impl View for LiveAction {
    type V = LiveActionModel;

    open spec fn view(&self) -> LiveActionModel {
        match self {
            LiveAction::Refuse { message } => LiveActionModel::Refuse { message: message@ },
            LiveAction::OpenSession { game } => LiveActionModel::OpenSession { game: game@ },
            LiveAction::Login => LiveActionModel::Login,
            LiveAction::FetchParser => LiveActionModel::FetchParser,
            LiveAction::LocateHarness => LiveActionModel::LocateHarness,
            LiveAction::SpawnParser => LiveActionModel::SpawnParser,
            LiveAction::ClearState => LiveActionModel::ClearState,
            LiveAction::CreateReport { start_ms } => LiveActionModel::CreateReport {
                start_ms: *start_ms as int,
            },
            LiveAction::SetLiveStart { start_ms } => LiveActionModel::SetLiveStart {
                start_ms: *start_ms as int,
            },
            LiveAction::Tail { code } => LiveActionModel::Tail { code: code@ },
            LiveAction::CloseParser => LiveActionModel::CloseParser,
            LiveAction::TerminateReport { code } => LiveActionModel::TerminateReport {
                code: code@,
            },
            LiveAction::Finish { ok } => LiveActionModel::Finish { ok: *ok },
        }
    }
}

impl View for LiveEvent {
    type V = LiveEventModel;

    open spec fn view(&self) -> LiveEventModel {
        match self {
            LiveEvent::SessionOpened => LiveEventModel::SessionOpened,
            LiveEvent::LoggedIn(name) => LiveEventModel::LoggedIn(name@),
            LiveEvent::ParserFetched => LiveEventModel::ParserFetched,
            LiveEvent::HarnessLocated => LiveEventModel::HarnessLocated,
            LiveEvent::Spawned => LiveEventModel::Spawned,
            LiveEvent::StateCleared(now) => LiveEventModel::StateCleared(*now as int),
            LiveEvent::Created(code) => LiveEventModel::Created(code@),
            LiveEvent::StartSet => LiveEventModel::StartSet,
            LiveEvent::TailEnded => LiveEventModel::TailEnded,
            LiveEvent::Closed => LiveEventModel::Closed,
            LiveEvent::Terminated => LiveEventModel::Terminated,
            LiveEvent::Failed(reason) => LiveEventModel::Failed(reason@),
        }
    }
}

impl View for LiveSession {
    type V = LiveModel;

    closed spec fn view(&self) -> LiveModel {
        LiveModel {
            base_url: self.base_url@,
            include_entire_file: self.include_entire_file,
            report: text_option(self.report),
            failed: self.failed,
            phase: self.phase,
        }
    }
}

/// What a list of notices tells.
pub open spec fn told(v: Seq<Notice>) -> Seq<NoticeModel> {
    v.map_values(|n: Notice| n@)
}

/// The parser runs and the report has been created when the log is followed or closed.
pub open spec fn live_wf(s: LiveModel) -> bool {
    s.phase is SettingStart || s.phase is Tailing || s.phase is Terminating ==> s.report is Some
}

/// The event is what is waited for. Closing the parser cannot fail.
pub open spec fn live_awaited(s: LiveModel, e: LiveEventModel) -> bool {
    match s.phase {
        LivePhase::Opening => e is SessionOpened || e is Failed,
        LivePhase::LoggingIn => e is LoggedIn || e is Failed,
        LivePhase::Fetching => e is ParserFetched || e is Failed,
        LivePhase::Locating => e is HarnessLocated || e is Failed,
        LivePhase::Spawning => e is Spawned || e is Failed,
        LivePhase::ClearingState => (e matches LiveEventModel::StateCleared(now) && i64::MIN <= now
            <= i64::MAX) || e is Failed,
        LivePhase::Creating { .. } => e is Created || e is Failed,
        LivePhase::SettingStart => e is StartSet || e is Failed,
        LivePhase::Tailing => e is TailEnded || e is Failed,
        LivePhase::Closing => e is Closed,
        LivePhase::Terminating => e is Terminated || e is Failed,
        LivePhase::Over => false,
    }
}

/// A message while the live log is not yet running.
pub open spec fn preparing(p: ProgressModel, message: Seq<char>) -> NoticeModel {
    NoticeModel::Progress(live_note(p, "waiting"@, message))
}

/// Goes on to a phase.
pub open spec fn go(
    s: LiveModel,
    phase: LivePhase,
    action: LiveActionModel,
    notices: Seq<NoticeModel>,
) -> LiveTurnModel {
    LiveTurnModel { state: LiveModel { phase, ..s }, action, notices }
}

/// Closes the parser.
pub open spec fn close(s: LiveModel) -> LiveTurnModel {
    go(s, LivePhase::Closing, LiveActionModel::CloseParser, seq![])
}

/// Ends it all, after telling `notices`.
pub open spec fn finish(
    s: LiveModel,
    p: ProgressModel,
    notices: Seq<NoticeModel>,
) -> LiveTurnModel {
    go(
        s,
        LivePhase::Over,
        LiveActionModel::Finish { ok: !s.failed },
        match s.report {
            Some(code) => if s.failed {
                notices
            } else {
                notices.push(
                    NoticeModel::Done { code, url: report_address(s.base_url, code), segments: p.segments },
                )
            },
            None => notices,
        },
    )
}

/// The step that an event leads to.
pub open spec fn session_step(s: LiveModel, p: ProgressModel, e: LiveEventModel) -> LiveTurnModel {
    match (s.phase, e) {
        (LivePhase::Opening, LiveEventModel::SessionOpened) => go(
            s,
            LivePhase::LoggingIn,
            LiveActionModel::Login,
            seq![preparing(p, "Logging in..."@)],
        ),
        (LivePhase::LoggingIn, LiveEventModel::LoggedIn(name)) => go(
            s,
            LivePhase::Fetching,
            LiveActionModel::FetchParser,
            seq![
                preparing(p, "Logged in as "@ + name),
                preparing(p, "Fetching latest parser..."@),
            ],
        ),
        (LivePhase::Fetching, LiveEventModel::ParserFetched) => go(
            s,
            LivePhase::Locating,
            LiveActionModel::LocateHarness,
            seq![],
        ),
        (LivePhase::Locating, LiveEventModel::HarnessLocated) => go(
            s,
            LivePhase::Spawning,
            LiveActionModel::SpawnParser,
            seq![preparing(p, "Starting parser..."@)],
        ),
        (LivePhase::Spawning, LiveEventModel::Spawned) => go(
            s,
            LivePhase::ClearingState,
            LiveActionModel::ClearState,
            seq![],
        ),
        (LivePhase::ClearingState, LiveEventModel::StateCleared(now)) => go(
            s,
            LivePhase::Creating { start_ms: now as i64 },
            LiveActionModel::CreateReport { start_ms: now },
            seq![],
        ),
        (LivePhase::Creating { start_ms }, LiveEventModel::Created(code)) => {
            let t = LiveModel { report: Some(code), ..s };
            let notices = seq![
                NoticeModel::Started { code, url: report_address(s.base_url, code) },
                preparing(p, "Live report created: "@ + code),
            ];
            if s.include_entire_file {
                go(t, LivePhase::Tailing, LiveActionModel::Tail { code }, notices)
            } else {
                go(
                    t,
                    LivePhase::SettingStart,
                    LiveActionModel::SetLiveStart { start_ms: start_ms as int },
                    notices,
                )
            }
        },
        (LivePhase::SettingStart, LiveEventModel::StartSet) => go(
            s,
            LivePhase::Tailing,
            LiveActionModel::Tail { code: s.report->Some_0 },
            seq![],
        ),
        (LivePhase::Tailing, LiveEventModel::TailEnded) => close(s),
        (LivePhase::ClearingState, LiveEventModel::Failed(_))
        | (LivePhase::Creating { .. }, LiveEventModel::Failed(_))
        | (LivePhase::SettingStart, LiveEventModel::Failed(_))
        | (LivePhase::Tailing, LiveEventModel::Failed(_)) => close(LiveModel { failed: true, ..s }),
        (LivePhase::Closing, LiveEventModel::Closed) => match s.report {
            Some(code) => go(
                s,
                LivePhase::Terminating,
                LiveActionModel::TerminateReport { code },
                seq![],
            ),
            None => finish(s, p, seq![]),
        },
        (LivePhase::Terminating, LiveEventModel::Terminated) => finish(s, p, seq![]),
        (LivePhase::Terminating, LiveEventModel::Failed(reason)) => finish(
            s,
            p,
            seq![
                NoticeModel::Progress(
                    live_note(
                        p,
                        "error"@,
                        "Report "@ + s.report->Some_0
                            + " could not be finalized on the server: "@ + reason,
                    ),
                ),
            ],
        ),
        _ => go(s, LivePhase::Over, LiveActionModel::Finish { ok: false }, seq![]),
    }
}

/// How a live log begins, for a directory that is there or not.
pub open spec fn session_begin(
    include_entire_file: bool,
    game: Seq<char>,
    directory: Seq<char>,
    is_dir: bool,
    p: ProgressModel,
) -> LiveTurnModel {
    let s = LiveModel {
        base_url: site_by_id(game_meant(game)).base_url,
        include_entire_file,
        report: None,
        failed: false,
        phase: LivePhase::Over,
    };
    if is_dir {
        go(
            s,
            LivePhase::Opening,
            LiveActionModel::OpenSession { game: game_meant(game) },
            seq![preparing(p, "Initializing session..."@)],
        )
    } else {
        go(
            s,
            LivePhase::Over,
            LiveActionModel::Refuse { message: "not a directory: "@ + directory },
            seq![],
        )
    }
}

fn one(n: Notice) -> (r: Vec<Notice>)
    ensures
        told(r@) == seq![n@],
{
    let mut v: Vec<Notice> = Vec::new();
    v.push(n);
    proof {
        assert(told(v@) =~= seq![n@]);
    }
    v
}

fn none() -> (r: Vec<Notice>)
    ensures
        told(r@) == Seq::<NoticeModel>::empty(),
        r@.len() == 0,
{
    let v: Vec<Notice> = Vec::new();
    proof {
        assert(told(v@) =~= Seq::<NoticeModel>::empty());
    }
    v
}

/// Adds a notice.
fn tell(v: &mut Vec<Notice>, n: Notice)
    ensures
        told(final(v)@) == told(old(v)@).push(n@),
{
    v.push(n);
    proof {
        assert(told(v@) =~= told(old(v)@).push(n@));
    }
}

fn prepare(p: &LiveProgress, head: &str, tail: &str) -> (r: Notice)
    ensures
        r@ == preparing(p@, head@ + tail@),
{
    let mut message = head.to_owned();
    message.append(tail);
    Notice::Progress(p.emit("waiting", message))
}

impl LiveSession {
    /// Begins a live log.
    pub fn begin(args: &LiveLogArgs, is_dir: bool, p: &LiveProgress) -> (r: (LiveSession, LiveTurn))
        ensures
            live_wf(r.0@),
            ({
                let t = session_begin(
                    args.include_entire_file_in_report,
                    args.game@,
                    args.directory@,
                    is_dir,
                    p@,
                );
                r.0@ == t.state && r.1.action@ == t.action && told(r.1.notices@) == t.notices
            }),
    {
        let game = args.game_id();
        let mut s = LiveSession {
            base_url: game_by_id(game.as_str()).base_url,
            include_entire_file: args.include_entire_file_in_report,
            report: None,
            failed: false,
            phase: LivePhase::Over,
        };
        if is_dir {
            s.phase = LivePhase::Opening;
            let notice = Notice::Progress(
                p.emit("waiting", "Initializing session...".to_owned()),
            );
            let action = LiveAction::OpenSession { game };
            (s, LiveTurn { action, notices: one(notice) })
        } else {
            let mut message = "not a directory: ".to_owned();
            message.append(&args.directory);
            (s, LiveTurn { action: LiveAction::Refuse { message }, notices: none() })
        }
    }

    fn go(&mut self, phase: LivePhase, action: LiveAction, notices: Vec<Notice>) -> (r: LiveTurn)
        ensures
            ({
                let t = go(old(self)@, phase, action@, told(notices@));
                final(self)@ == t.state && r.action@ == t.action && told(r.notices@) == t.notices
            }),
    {
        self.phase = phase;
        LiveTurn { action, notices }
    }

    fn finish(&mut self, p: &LiveProgress, notices: Vec<Notice>) -> (r: LiveTurn)
        ensures
            ({
                let t = finish(old(self)@, p@, told(notices@));
                final(self)@ == t.state && r.action@ == t.action && told(r.notices@) == t.notices
            }),
    {
        let mut all = notices;
        if !self.failed {
            if let Some(code) = copy_option(&self.report) {
                let url = report_link(self.base_url, code.as_str());
                tell(&mut all, Notice::Done { code, url, segments: p.segments });
            }
        }
        let ok = !self.failed;
        self.go(LivePhase::Over, LiveAction::Finish { ok }, all)
    }

    /// The live log can go on with this event.
    pub fn accepts(&self, e: &LiveEvent) -> (r: bool)
        ensures
            r == live_awaited(self@, e@),
    {
        match (self.phase, e) {
            (LivePhase::Over, _) => false,
            (LivePhase::Closing, LiveEvent::Failed(_)) => false,
            (_, LiveEvent::Failed(_)) => true,
            (LivePhase::Opening, LiveEvent::SessionOpened) => true,
            (LivePhase::LoggingIn, LiveEvent::LoggedIn(_)) => true,
            (LivePhase::Fetching, LiveEvent::ParserFetched) => true,
            (LivePhase::Locating, LiveEvent::HarnessLocated) => true,
            (LivePhase::Spawning, LiveEvent::Spawned) => true,
            (LivePhase::ClearingState, LiveEvent::StateCleared(_)) => true,
            (LivePhase::Creating { .. }, LiveEvent::Created(_)) => true,
            (LivePhase::SettingStart, LiveEvent::StartSet) => true,
            (LivePhase::Tailing, LiveEvent::TailEnded) => true,
            (LivePhase::Closing, LiveEvent::Closed) => true,
            (LivePhase::Terminating, LiveEvent::Terminated) => true,
            _ => false,
        }
    }

    /// What to do after an event.
    pub fn step(&mut self, p: &LiveProgress, e: LiveEvent) -> (r: LiveTurn)
        requires
            live_wf(old(self)@),
            live_awaited(old(self)@, e@),
        ensures
            live_wf(final(self)@),
            ({
                let t = session_step(old(self)@, p@, e@);
                final(self)@ == t.state && r.action@ == t.action && told(r.notices@) == t.notices
            }),
    {
        match (self.phase, e) {
            (LivePhase::Opening, LiveEvent::SessionOpened) => {
                let notice = Notice::Progress(p.emit("waiting", "Logging in...".to_owned()));
                self.go(LivePhase::LoggingIn, LiveAction::Login, one(notice))
            },
            (LivePhase::LoggingIn, LiveEvent::LoggedIn(name)) => {
                let mut notices = one(prepare(p, "Logged in as ", name.as_str()));
                let second = Notice::Progress(
                    p.emit("waiting", "Fetching latest parser...".to_owned()),
                );
                tell(&mut notices, second);
                self.go(LivePhase::Fetching, LiveAction::FetchParser, notices)
            },
            (LivePhase::Fetching, LiveEvent::ParserFetched) => {
                self.go(LivePhase::Locating, LiveAction::LocateHarness, none())
            },
            (LivePhase::Locating, LiveEvent::HarnessLocated) => {
                let notice = Notice::Progress(p.emit("waiting", "Starting parser...".to_owned()));
                self.go(LivePhase::Spawning, LiveAction::SpawnParser, one(notice))
            },
            (LivePhase::Spawning, LiveEvent::Spawned) => {
                self.go(LivePhase::ClearingState, LiveAction::ClearState, none())
            },
            (LivePhase::ClearingState, LiveEvent::StateCleared(start_ms)) => {
                self.go(
                    LivePhase::Creating { start_ms },
                    LiveAction::CreateReport { start_ms },
                    none(),
                )
            },
            (LivePhase::Creating { start_ms }, LiveEvent::Created(code)) => {
                let mut notices = one(
                    Notice::Started { code: code.clone(), url: report_link(self.base_url, code.as_str()) },
                );
                tell(&mut notices, prepare(p, "Live report created: ", code.as_str()));
                self.report = Some(code.clone());
                if self.include_entire_file {
                    self.go(LivePhase::Tailing, LiveAction::Tail { code }, notices)
                } else {
                    self.go(
                        LivePhase::SettingStart,
                        LiveAction::SetLiveStart { start_ms },
                        notices,
                    )
                }
            },
            (LivePhase::SettingStart, LiveEvent::StartSet) => {
                let code = match &self.report {
                    Some(c) => c.clone(),
                    None => String::new(),
                };
                self.go(LivePhase::Tailing, LiveAction::Tail { code }, none())
            },
            (LivePhase::Tailing, LiveEvent::TailEnded) => {
                self.go(LivePhase::Closing, LiveAction::CloseParser, none())
            },
            (LivePhase::ClearingState, LiveEvent::Failed(_))
            | (LivePhase::Creating { .. }, LiveEvent::Failed(_))
            | (LivePhase::SettingStart, LiveEvent::Failed(_))
            | (LivePhase::Tailing, LiveEvent::Failed(_)) => {
                self.failed = true;
                self.go(LivePhase::Closing, LiveAction::CloseParser, none())
            },
            (LivePhase::Closing, LiveEvent::Closed) => match copy_option(&self.report) {
                Some(code) => self.go(
                    LivePhase::Terminating,
                    LiveAction::TerminateReport { code },
                    none(),
                ),
                None => self.finish(p, none()),
            },
            (LivePhase::Terminating, LiveEvent::Terminated) => self.finish(p, none()),
            (LivePhase::Terminating, LiveEvent::Failed(reason)) => {
                let mut message = "Report ".to_owned();
                if let Some(code) = &self.report {
                    message.append(code);
                }
                message.append(" could not be finalized on the server: ");
                message.append(&reason);
                let notice = Notice::Progress(p.emit("error", message));
                self.finish(p, one(notice))
            },
            _ => self.go(LivePhase::Over, LiveAction::Finish { ok: false }, none()),
        }
    }
}

/// An event, and the progress at that time.
pub type Witnessed = (LiveEventModel, ProgressModel);

/// Where a live log in an existing directory stands after these events.
pub open spec fn session_run(
    include_entire_file: bool,
    game: Seq<char>,
    p: ProgressModel,
    es: Seq<Witnessed>,
) -> LiveTurnModel
    decreases es.len(),
{
    if es.len() == 0 {
        session_begin(include_entire_file, game, seq![], true, p)
    } else {
        session_step(
            session_run(include_entire_file, game, p, es.drop_last()).state,
            es.last().1,
            es.last().0,
        )
    }
}

/// Every event was one that was waited for.
pub open spec fn session_legal(
    include_entire_file: bool,
    game: Seq<char>,
    p: ProgressModel,
    es: Seq<Witnessed>,
) -> bool
    decreases es.len(),
{
    es.len() == 0 || (session_legal(include_entire_file, game, p, es.drop_last()) && live_awaited(
        session_run(include_entire_file, game, p, es.drop_last()).state,
        es.last().0,
    ))
}

/// The parser has been started.
pub open spec fn was_spawned(es: Seq<Witnessed>) -> bool
    decreases es.len(),
{
    es.len() > 0 && (es.last().0 is Spawned || was_spawned(es.drop_last()))
}

/// The code of the report that was created.
pub open spec fn was_created(es: Seq<Witnessed>) -> Option<Seq<char>>
    decreases es.len(),
{
    if es.len() == 0 {
        None
    } else {
        match es.last().0 {
            LiveEventModel::Created(code) => Some(code),
            _ => was_created(es.drop_last()),
        }
    }
}

/// It has been asked for at some point.
pub open spec fn was_asked(
    include_entire_file: bool,
    game: Seq<char>,
    p: ProgressModel,
    es: Seq<Witnessed>,
    action: LiveActionModel,
) -> bool
    decreases es.len(),
{
    session_run(include_entire_file, game, p, es).action == action || (es.len() > 0 && was_asked(
        include_entire_file,
        game,
        p,
        es.drop_last(),
        action,
    ))
}

/// Something other than the end of the report has failed.
pub open spec fn had_failure(
    include_entire_file: bool,
    game: Seq<char>,
    p: ProgressModel,
    es: Seq<Witnessed>,
) -> bool
    decreases es.len(),
{
    es.len() > 0 && (had_failure(include_entire_file, game, p, es.drop_last()) || (
    es.last().0 is Failed && !(session_run(
        include_entire_file,
        game,
        p,
        es.drop_last(),
    ).state.phase is Terminating)))
}

/// What a phase says about the past of a live log.
spec fn past_known(
    t: LiveTurnModel,
    spawned: bool,
    created: Option<Seq<char>>,
    failure: bool,
    close: bool,
    terminate: bool,
) -> bool {
    let s = t.state;
    &&& s.report == created
    &&& live_wf(s)
    &&& match s.phase {
        LivePhase::Opening | LivePhase::LoggingIn | LivePhase::Fetching | LivePhase::Locating
        | LivePhase::Spawning => !spawned && created is None && !failure && !s.failed,
        LivePhase::ClearingState | LivePhase::Creating { .. } => spawned && created is None
            && !failure && !s.failed,
        LivePhase::SettingStart | LivePhase::Tailing => spawned && created is Some && !failure
            && !s.failed,
        LivePhase::Closing => spawned && close && failure == s.failed,
        LivePhase::Terminating => spawned && close && terminate && created is Some && failure
            == s.failed,
        LivePhase::Over => (spawned ==> close) && (created is Some ==> terminate) && t.action == (
        LiveActionModel::Finish { ok: !failure }),
    }
}

proof fn past_step(
    t: LiveTurnModel,
    p: ProgressModel,
    e: LiveEventModel,
    spawned: bool,
    created: Option<Seq<char>>,
    failure: bool,
    close: bool,
    terminate: bool,
)
    requires
        past_known(t, spawned, created, failure, close, terminate),
        live_awaited(t.state, e),
    ensures
        ({
            let u = session_step(t.state, p, e);
            past_known(
                u,
                spawned || e is Spawned,
                match e {
                    LiveEventModel::Created(code) => Some(code),
                    _ => created,
                },
                failure || (e is Failed && !(t.state.phase is Terminating)),
                close || u.action is CloseParser,
                terminate || (created matches Some(code) && u.action == (
                LiveActionModel::TerminateReport { code })),
            )
        }),
{
}

proof fn past_is_known(
    include_entire_file: bool,
    game: Seq<char>,
    p: ProgressModel,
    es: Seq<Witnessed>,
)
    requires
        session_legal(include_entire_file, game, p, es),
    ensures
        past_known(
            session_run(include_entire_file, game, p, es),
            was_spawned(es),
            was_created(es),
            had_failure(include_entire_file, game, p, es),
            was_asked(include_entire_file, game, p, es, LiveActionModel::CloseParser),
            was_created(es) matches Some(code) && was_asked(
                include_entire_file,
                game,
                p,
                es,
                LiveActionModel::TerminateReport { code },
            ),
        ),
    decreases es.len(),
{
    if es.len() > 0 {
        let d = es.drop_last();
        past_is_known(include_entire_file, game, p, d);
        past_step(
            session_run(include_entire_file, game, p, d),
            es.last().1,
            es.last().0,
            was_spawned(d),
            was_created(d),
            had_failure(include_entire_file, game, p, d),
            was_asked(include_entire_file, game, p, d, LiveActionModel::CloseParser),
            was_created(d) matches Some(code) && was_asked(
                include_entire_file,
                game,
                p,
                d,
                LiveActionModel::TerminateReport { code },
            ),
        );
    }
}

/// Once the parser has been started it is closed, and once the report has been created it is
/// terminated, before the live log is over: however it ends, and whatever fails on the way.
pub proof fn always_cleaned_up(
    include_entire_file: bool,
    game: Seq<char>,
    p: ProgressModel,
    es: Seq<Witnessed>,
)
    requires
        session_legal(include_entire_file, game, p, es),
        session_run(include_entire_file, game, p, es).state.phase is Over,
    ensures
        was_spawned(es) ==> was_asked(
            include_entire_file,
            game,
            p,
            es,
            LiveActionModel::CloseParser,
        ),
        was_created(es) matches Some(code) ==> was_asked(
            include_entire_file,
            game,
            p,
            es,
            LiveActionModel::TerminateReport { code },
        ),
{
    past_is_known(include_entire_file, game, p, es);
}

/// A live log ends well exactly if nothing has failed on the way; that the report cannot be
/// terminated does not count.
pub proof fn ends_well_without_failures(
    include_entire_file: bool,
    game: Seq<char>,
    p: ProgressModel,
    es: Seq<Witnessed>,
)
    requires
        session_legal(include_entire_file, game, p, es),
        session_run(include_entire_file, game, p, es).state.phase is Over,
    ensures
        session_run(include_entire_file, game, p, es).action == (LiveActionModel::Finish {
            ok: !had_failure(include_entire_file, game, p, es),
        }),
{
    past_is_known(include_entire_file, game, p, es);
}

/// The address of a report is always told on the site of its own game.
pub proof fn told_on_its_own_site(
    include_entire_file: bool,
    game: Seq<char>,
    p: ProgressModel,
    es: Seq<Witnessed>,
)
    ensures
        ({
            let t = session_run(include_entire_file, game, p, es);
            let base_url = site_by_id(game_meant(game)).base_url;
            &&& t.state.base_url == base_url
            &&& forall|i: int|
                0 <= i < t.notices.len() ==> match #[trigger] t.notices[i] {
                    NoticeModel::Progress(_) => true,
                    NoticeModel::Started { code, url } => url == report_address(base_url, code),
                    NoticeModel::Done { code, url, .. } => url == report_address(base_url, code),
                }
        }),
    decreases es.len(),
{
    if es.len() > 0 {
        told_on_its_own_site(include_entire_file, game, p, es.drop_last());
    }
}

/// How far a phase is on the way; every step leads further.
spec fn progress_of(phase: LivePhase) -> int {
    match phase {
        LivePhase::Opening => 0,
        LivePhase::LoggingIn => 1,
        LivePhase::Fetching => 2,
        LivePhase::Locating => 3,
        LivePhase::Spawning => 4,
        LivePhase::ClearingState => 5,
        LivePhase::Creating { .. } => 6,
        LivePhase::SettingStart => 7,
        LivePhase::Tailing => 8,
        LivePhase::Closing => 9,
        LivePhase::Terminating => 10,
        LivePhase::Over => 11,
    }
}

proof fn every_step_leads_on(s: LiveModel, p: ProgressModel, e: LiveEventModel)
    requires
        live_awaited(s, e),
    ensures
        progress_of(s.phase) < progress_of(session_step(s, p, e).state.phase),
        session_step(s, p, e).action is CloseParser <==> session_step(s, p, e).state.phase
            is Closing,
        session_step(s, p, e).action is TerminateReport <==> session_step(s, p, e).state.phase
            is Terminating,
{
}

proof fn session_legal_before(
    include_entire_file: bool,
    game: Seq<char>,
    p: ProgressModel,
    es: Seq<Witnessed>,
    k: int,
)
    requires
        session_legal(include_entire_file, game, p, es),
        0 <= k <= es.len(),
    ensures
        session_legal(include_entire_file, game, p, es.take(k)),
    decreases es.len(),
{
    if k == es.len() {
        assert(es.take(k) =~= es);
    } else {
        session_legal_before(include_entire_file, game, p, es.drop_last(), k);
        assert(es.drop_last().take(k) =~= es.take(k));
    }
}

proof fn action_tells_phase(
    include_entire_file: bool,
    game: Seq<char>,
    p: ProgressModel,
    es: Seq<Witnessed>,
)
    requires
        session_legal(include_entire_file, game, p, es),
    ensures
        ({
            let t = session_run(include_entire_file, game, p, es);
            &&& t.action is CloseParser <==> t.state.phase is Closing
            &&& t.action is TerminateReport <==> t.state.phase is Terminating
        }),
{
    if es.len() > 0 {
        let s = session_run(include_entire_file, game, p, es.drop_last()).state;
        every_step_leads_on(s, es.last().1, es.last().0);
    }
}

proof fn later_is_further(
    include_entire_file: bool,
    game: Seq<char>,
    p: ProgressModel,
    es: Seq<Witnessed>,
    i: int,
    j: int,
)
    requires
        session_legal(include_entire_file, game, p, es),
        0 <= i < j <= es.len(),
    ensures
        progress_of(session_run(include_entire_file, game, p, es.take(i)).state.phase)
            < progress_of(session_run(include_entire_file, game, p, es.take(j)).state.phase),
    decreases j,
{
    session_legal_before(include_entire_file, game, p, es, j);
    let b = es.take(j);
    assert(b.drop_last() =~= es.take(j - 1));
    let s = session_run(include_entire_file, game, p, es.take(j - 1)).state;
    every_step_leads_on(s, b.last().1, b.last().0);
    if i < j - 1 {
        later_is_further(include_entire_file, game, p, es, i, j - 1);
    }
}

/// The parser is closed at most once, and the report terminated at most once: of two different
/// steps at most one asks for it.
pub proof fn cleaned_up_once(
    include_entire_file: bool,
    game: Seq<char>,
    p: ProgressModel,
    es: Seq<Witnessed>,
    i: int,
    j: int,
)
    requires
        session_legal(include_entire_file, game, p, es),
        0 <= i < j <= es.len(),
    ensures
        ({
            let a = session_run(include_entire_file, game, p, es.take(i)).action;
            let b = session_run(include_entire_file, game, p, es.take(j)).action;
            &&& !(a is CloseParser && b is CloseParser)
            &&& !(a is TerminateReport && b is TerminateReport)
        }),
{
    session_legal_before(include_entire_file, game, p, es, i);
    session_legal_before(include_entire_file, game, p, es, j);
    action_tells_phase(include_entire_file, game, p, es.take(i));
    action_tells_phase(include_entire_file, game, p, es.take(j));
    later_is_further(include_entire_file, game, p, es, i, j);
}

/// Every live log comes to its end: there are at most eleven events.
pub proof fn live_log_ends(
    include_entire_file: bool,
    game: Seq<char>,
    p: ProgressModel,
    es: Seq<Witnessed>,
)
    requires
        session_legal(include_entire_file, game, p, es),
    ensures
        es.len() <= 11,
{
    steps_counted(include_entire_file, game, p, es);
}

proof fn steps_counted(
    include_entire_file: bool,
    game: Seq<char>,
    p: ProgressModel,
    es: Seq<Witnessed>,
)
    requires
        session_legal(include_entire_file, game, p, es),
    ensures
        es.len() <= progress_of(session_run(include_entire_file, game, p, es).state.phase) <= 11,
    decreases es.len(),
{
    if es.len() > 0 {
        steps_counted(include_entire_file, game, p, es.drop_last());
        let s = session_run(include_entire_file, game, p, es.drop_last()).state;
        every_step_leads_on(s, es.last().1, es.last().0);
    }
}

} // verus!
