use combatlog::chunk::bytes_to_read;
use combatlog::chunk::chunk_of;
use combatlog::chunk::Chunk;
use combatlog::json::Json;
use combatlog::live::now_ms;
use combatlog::live::LiveAction;
use combatlog::live::LiveEvent;
use combatlog::live::LiveLogArgs;
use combatlog::live::LiveSession;
use combatlog::live::Notice;
use combatlog::log_file::found_log;
use combatlog::progress::LiveProgress;
use combatlog::segments::PartAction;
use combatlog::segments::PartEvent;
use combatlog::segments::Uploader;
use combatlog::segments::IN_PROGRESS_INTERVAL;
use combatlog::tail::Moment;
use combatlog::tail::Tail;
use combatlog::tail::TailAction;
use combatlog::tail::TailEvent;
use combatlog::tail::IDLE_THRESHOLD;
use combatlog::upload::no_fights_message;
use combatlog::upload::Action;
use combatlog::upload::Event;
use combatlog::upload::Setup;
use combatlog::upload::Upload;

fn json(text: &str) -> Json {
    match Json::read(text) {
        Ok(v) => v,
        Err(e) => panic!("{e}"),
    }
}

fn fights(events: i64) -> Json {
    json(&format!(
        "{{\"startTime\": 5, \"endTime\": 9, \"fights\": [{{\"eventCount\": {events}, \
         \"eventsString\": \"e\"}}]}}"
    ))
}

fn master(actors: i64) -> Json {
    json(&format!("{{\"lastAssignedActorID\": {actors}}}"))
}

#[test]
fn preparations_are_announced() {
    let note = Setup::LogRead(1234567).note();
    assert_eq!((note.step, note.message.as_str(), note.pct), ("read", "Read 1,234,567 lines", 2));
    let stages = [
        Setup::ReadingLog,
        Setup::LogRead(1),
        Setup::OpeningSession,
        Setup::LoggingIn,
        Setup::LoggedIn("Jaina".to_string()),
        Setup::FetchingParser,
        Setup::ParserFetched(61),
        Setup::StartingParser,
        Setup::ParserReady,
    ];
    let messages: Vec<String> = stages.iter().map(|s| s.note().message).collect();
    assert_eq!(
        messages,
        vec![
            "Reading log file...",
            "Read 1 lines",
            "Initializing session...",
            "Logging in...",
            "Logged in as Jaina",
            "Fetching latest parser...",
            "Parser v61 loaded",
            "Starting parser...",
            "Parser ready",
        ]
    );
    let pcts: Vec<u32> = stages.iter().map(|s| s.note().pct).collect();
    assert_eq!(pcts, vec![1, 2, 3, 4, 5, 6, 7, 8, 9]);
}

#[test]
fn an_empty_log_has_no_fights() {
    let (mut up, turn) = Upload::begin(0);
    assert!(matches!(turn.action, Action::CloseParser));
    assert!(!up.accepts(&Event::Failed));
    assert!(matches!(up.step(Event::Closed).action, Action::NoFights));
    assert_eq!(no_fights_message(), "No fights found in log file.");
}

#[test]
fn an_upload_runs_to_its_end() {
    let (mut up, turn) = Upload::begin(250_000);
    assert!(matches!(turn.action, Action::ParseLines { from: 0, to: 100_000 }));
    assert!(!up.accepts(&Event::Cleared));
    assert!(up.accepts(&Event::Parsed));
    assert!(matches!(up.step(Event::Parsed).action, Action::CollectFights));

    let turn = up.step(Event::Fights(json("{\"fights\": []}")));
    let note = turn.note.unwrap();
    assert_eq!(
        (note.step, note.message.as_str(), note.pct),
        ("parse", "Batch 1/3 \u{2014} no fights yet", 36)
    );
    assert!(matches!(turn.action, Action::ParseLines { from: 100_000, to: 200_000 }));

    up.step(Event::Parsed);
    let turn = up.step(Event::Fights(fights(1500)));
    assert!(matches!(turn.action, Action::CreateReport { start_time: 5, end_time: 9 }));
    let turn = up.step(Event::Created("Cd".to_string()));
    let note = turn.note.unwrap();
    assert_eq!(
        (note.step, note.message.as_str(), note.pct),
        ("report", "Report created: Cd", 63)
    );
    assert!(matches!(turn.action, Action::CollectMasterInfo));
    match up.step(Event::Master(master(7))).action {
        Action::SetMasterTable { segment_id, text } => {
            assert_eq!(segment_id, 1);
            assert_eq!(text, "0|0|\n7\n0\n0\n0\n");
        }
        _ => panic!("no table"),
    }
    match up.step(Event::MasterSet).action {
        Action::AddSegment { segment, text } => {
            assert_eq!(segment.segment_id, 1);
            assert_eq!((segment.start_time, segment.end_time, segment.mythic), (5, 9, 0));
            assert!(!segment.is_live_log && !segment.is_real_time);
            assert_eq!(segment.in_progress_event_count, 0);
            assert_eq!(text, "0|0\n1500\ne");
        }
        _ => panic!("no segment"),
    }
    assert!(matches!(up.step(Event::Added(2)).action, Action::ClearFights));
    let turn = up.step(Event::Cleared);
    let note = turn.note.unwrap();
    assert_eq!(
        (note.step, note.message.as_str(), note.pct),
        ("upload", "Segment 2/3 \u{2014} 1,500 events", 63)
    );
    assert!(matches!(turn.action, Action::ParseLines { from: 200_000, to: 250_000 }));

    up.step(Event::Parsed);
    assert!(matches!(up.step(Event::Fights(fights(1))).action, Action::CollectMasterInfo));
    match up.step(Event::Master(master(7))).action {
        Action::AddSegment { segment, .. } => assert_eq!(segment.segment_id, 2),
        _ => panic!("the table had not changed"),
    }
    up.step(Event::Added(3));
    let turn = up.step(Event::Cleared);
    assert_eq!(turn.note.unwrap().pct, 90);
    assert!(matches!(turn.action, Action::CloseParser));
    let turn = up.step(Event::Closed);
    assert!(matches!(turn.action, Action::TerminateReport { code } if code == "Cd"));
    let turn = up.step(Event::Terminated);
    assert!(matches!(turn.action, Action::Announce { code } if code == "Cd"));
    assert!(!up.accepts(&Event::Parsed));
    assert!(!up.accepts(&Event::Failed));
}

#[test]
fn a_zero_does_not_advance_the_segment() {
    let (mut up, _) = Upload::begin(400_000);
    let mut ids = Vec::new();
    let answers = [0, 4, 0, 9];
    for (i, next) in answers.into_iter().enumerate() {
        up.step(Event::Parsed);
        up.step(Event::Fights(fights(1)));
        if i == 0 {
            up.step(Event::Created("C".to_string()));
        }
        let mut turn = up.step(Event::Master(master(1)));
        if let Action::SetMasterTable { .. } = turn.action {
            turn = up.step(Event::MasterSet);
        }
        match turn.action {
            Action::AddSegment { segment, .. } => ids.push(segment.segment_id),
            _ => panic!("no segment"),
        }
        up.step(Event::Added(next));
        up.step(Event::Cleared);
    }
    assert_eq!(ids, vec![1, 1, 4, 4]);
}

#[test]
fn a_report_that_cannot_be_ended_is_not_announced() {
    let (mut up, _) = Upload::begin(1);
    up.step(Event::Parsed);
    up.step(Event::Fights(fights(1)));
    up.step(Event::Created("C".to_string()));
    up.step(Event::Master(master(1)));
    up.step(Event::MasterSet);
    up.step(Event::Added(2));
    up.step(Event::Cleared);
    assert!(matches!(up.step(Event::Closed).action, Action::TerminateReport { .. }));
    assert!(up.accepts(&Event::Failed));
    assert!(matches!(up.step(Event::Failed).action, Action::GiveUp));
}

#[test]
fn a_failure_gives_the_upload_up() {
    let (mut up, _) = Upload::begin(1);
    up.step(Event::Parsed);
    assert!(matches!(up.step(Event::Failed).action, Action::GiveUp));
    assert!(!up.accepts(&Event::Parsed));
}

#[test]
fn uncountable_fights_are_not_accepted() {
    let (mut up, _) = Upload::begin(5);
    up.step(Event::Parsed);
    let many = json("{\"fights\": [{\"eventCount\": 9223372036854775807}, {\"eventCount\": 1}]}");
    assert!(!up.accepts(&Event::Fights(many)));
    assert!(up.accepts(&Event::Fights(fights(3))));
}

/// Runs a part until it is over and lists what was written: segment id and preview events.
fn part(up: &mut Uploader, p: &mut LiveProgress, done: i64, ongoing: i64, now: u128, next: i64) -> Vec<(i64, i64)> {
    let of = |n: i64| if n == 0 { json("{}") } else { fights(n) };
    let mut written = Vec::new();
    let mut turn = up.begin(p, true, false);
    loop {
        let event = match turn.action {
            PartAction::ParseLines => PartEvent::Parsed,
            PartAction::CollectFights { push_fight } => {
                assert!(!push_fight);
                PartEvent::Fights(of(done))
            }
            PartAction::CollectInProgress => PartEvent::InProgress(of(ongoing), now),
            PartAction::CollectMasterInfo => PartEvent::Master(master(1)),
            PartAction::SetMasterTable { is_real_time, .. } => {
                assert!(is_real_time);
                PartEvent::MasterSet
            }
            PartAction::AddSegment { segment, .. } => {
                assert!(segment.is_live_log);
                written.push((segment.segment_id, segment.in_progress_event_count));
                PartEvent::Added(next)
            }
            PartAction::ClearFights => PartEvent::Cleared,
            PartAction::Done => return written,
        };
        assert!(up.accepts(p, &event));
        turn = up.step(p, event);
    }
}

#[test]
fn previews_share_the_id_of_the_commit() {
    let mut up = Uploader::new(true);
    let mut p = LiveProgress::new();
    assert_eq!(part(&mut up, &mut p, 0, 4, 1000, 9), vec![(1, 4)]);
    assert!(p.in_progress);
    assert_eq!(p.segments, 0);
    assert_eq!(part(&mut up, &mut p, 0, 6, 1000 + IN_PROGRESS_INTERVAL, 9), vec![(1, 6)]);
    assert_eq!(part(&mut up, &mut p, 8, 0, 0, 5), vec![(1, 0)]);
    assert!(!p.in_progress);
    assert_eq!(p.segments, 1);
    assert_eq!(part(&mut up, &mut p, 8, 0, 0, 0), vec![(5, 0)]);
    assert_eq!(part(&mut up, &mut p, 8, 0, 0, 0), vec![(6, 0)]);
    assert_eq!(p.segments, 3);
}

#[test]
fn an_empty_preview_is_no_commit() {
    for ongoing in [
        "{\"fights\": [{\"eventCount\": 0}]}",
        "{\"fights\": [{}]}",
        "{\"fights\": [{\"eventCount\": \"many\"}]}",
    ] {
        let mut up = Uploader::new(true);
        let mut p = LiveProgress::new();
        up.begin(&p, false, false);
        up.step(&mut p, PartEvent::Fights(json("{}")));
        up.step(&mut p, PartEvent::InProgress(json(ongoing), 5));
        up.step(&mut p, PartEvent::Master(master(1)));
        match up.step(&mut p, PartEvent::MasterSet).action {
            PartAction::AddSegment { segment, .. } => {
                assert_eq!((segment.segment_id, segment.in_progress_event_count), (1, 0))
            }
            _ => panic!("no preview"),
        }
        let turn = up.step(&mut p, PartEvent::Added(7));
        assert!(turn.note.is_none());
        up.step(&mut p, PartEvent::Cleared);
        assert_eq!(p.segments, 0);
        assert_eq!(part(&mut up, &mut p, 3, 0, 0, 2), vec![(1, 0)]);
        assert_eq!(p.segments, 1);
    }
}

#[test]
fn previews_are_half_a_minute_apart() {
    let mut up = Uploader::new(true);
    let mut p = LiveProgress::new();
    assert_eq!(part(&mut up, &mut p, 0, 4, 1000, 9).len(), 1);
    assert_eq!(part(&mut up, &mut p, 0, 5, 999 + IN_PROGRESS_INTERVAL, 9).len(), 0);
    assert_eq!(part(&mut up, &mut p, 0, 5, 1000 + IN_PROGRESS_INTERVAL, 9).len(), 1);
}

#[test]
fn previews_can_be_off() {
    let mut up = Uploader::new(false);
    let mut p = LiveProgress::new();
    let turn = up.begin(&p, false, true);
    assert!(matches!(turn.action, PartAction::CollectFights { push_fight: true }));
    up.step(&mut p, PartEvent::Fights(json("{}")));
    let turn = up.step(&mut p, PartEvent::InProgress(fights(3), 77));
    assert!(matches!(turn.action, PartAction::Done));
    let note = turn.note.unwrap();
    assert_eq!((note.state, note.message.as_str()), ("tailing", "Fight in progress"));
    assert!(note.in_progress);
}

#[test]
fn a_failed_table_is_sent_again() {
    let mut up = Uploader::new(true);
    let mut p = LiveProgress::new();
    for _ in 0..2 {
        up.begin(&p, false, false);
        up.step(&mut p, PartEvent::Fights(fights(3)));
        let turn = up.step(&mut p, PartEvent::Master(master(1)));
        assert!(matches!(turn.action, PartAction::SetMasterTable { segment_id: 1, .. }));
        assert!(matches!(up.step(&mut p, PartEvent::Failed).action, PartAction::Done));
    }
}

#[test]
fn commits_are_announced() {
    let mut up = Uploader::new(false);
    let mut p = LiveProgress::new();
    p.file = Some("f.txt".to_string());
    up.begin(&p, false, false);
    up.step(&mut p, PartEvent::Fights(fights(3)));
    up.step(&mut p, PartEvent::Master(master(1)));
    up.step(&mut p, PartEvent::MasterSet);
    let note = up.step(&mut p, PartEvent::Added(2)).note.unwrap();
    assert_eq!((note.state, note.message.as_str()), ("uploading", "Uploaded segment 1"));
    assert_eq!((note.file.as_deref(), note.segments), (Some("f.txt"), 1));
}

fn at(now: u128) -> Moment {
    Moment { stop: false, now }
}

fn stop(now: u128) -> Moment {
    Moment { stop: true, now }
}

fn read(lines: &[&str], new_offset: u64, file_size: u64) -> TailEvent {
    TailEvent::Read(Chunk {
        lines: lines.iter().map(|s| s.to_string()).collect(),
        new_offset,
        file_size,
    })
}

fn newest(name: &str) -> TailEvent {
    TailEvent::Newest(Some(found_log(name.to_string())))
}

#[test]
fn waiting_is_said_once() {
    let mut p = LiveProgress::new();
    let (mut tail, turn) = Tail::begin(&p, at(0));
    assert!(matches!(turn.action, TailAction::FindNewest));
    let turn = tail.step(&mut p, TailEvent::Newest(None), at(1));
    let note = turn.note.unwrap();
    assert_eq!(
        (note.state, note.message.as_str()),
        ("waiting", "Waiting for a combat log to appear...")
    );
    assert!(matches!(turn.action, TailAction::Sleep));
    assert!(matches!(tail.step(&mut p, TailEvent::Slept, at(2)).action, TailAction::FindNewest));
    assert!(tail.step(&mut p, TailEvent::Newest(None), at(3)).note.is_none());
}

#[test]
fn a_log_is_followed_and_rotated() {
    let mut p = LiveProgress::new();
    let (mut tail, _) = Tail::begin(&p, at(0));
    let turn = tail.step(&mut p, newest("WoWCombatLog-010225_1.txt"), at(1));
    assert!(matches!(turn.action, TailAction::SetStartDate { date } if date == "1/2/2025"));
    let turn = tail.step(&mut p, TailEvent::DateSet, at(2));
    assert_eq!(turn.note.unwrap().message, "Tailing WoWCombatLog-010225_1.txt");
    assert!(matches!(turn.action, TailAction::ReadChunk { offset: 0, .. }));
    assert_eq!(p.file.as_deref(), Some("WoWCombatLog-010225_1.txt"));
    match tail.step(&mut p, read(&["a", "b"], 40, 40), at(3)).action {
        TailAction::UploadPart { lines, push_fight } => {
            assert_eq!(lines, vec!["a", "b"]);
            assert!(!push_fight);
        }
        _ => panic!("not uploaded"),
    }
    assert!(matches!(tail.step(&mut p, TailEvent::Uploaded, at(4)).action, TailAction::FindNewest));
    match tail.step(&mut p, newest("WoWCombatLog.txt"), at(5)).action {
        TailAction::ReadChunk { file, offset } => {
            assert_eq!((file.as_str(), offset), ("WoWCombatLog-010225_1.txt", 40))
        }
        _ => panic!("not drained"),
    }
    let turn = tail.step(&mut p, read(&["c"], 50, 50), at(6));
    assert!(matches!(turn.action, TailAction::UploadPart { .. }));
    let turn = tail.step(&mut p, TailEvent::Uploaded, at(7));
    assert!(matches!(turn.action, TailAction::ReadChunk { offset: 50, .. }));
    let turn = tail.step(&mut p, read(&[], 50, 50), at(8));
    match turn.action {
        TailAction::ReadChunk { file, offset } => {
            assert_eq!((file.as_str(), offset), ("WoWCombatLog.txt", 0))
        }
        _ => panic!("not turned to"),
    }
    assert_eq!(turn.note.unwrap().file.as_deref(), Some("WoWCombatLog.txt"));
}

fn following() -> (Tail, LiveProgress) {
    let mut p = LiveProgress::new();
    let (mut tail, _) = Tail::begin(&p, at(0));
    tail.step(&mut p, newest("WoWCombatLog.txt"), at(0));
    tail.step(&mut p, read(&["a"], 10, 12), at(0));
    tail.step(&mut p, TailEvent::Uploaded, at(0));
    (tail, p)
}

#[test]
fn a_truncated_log_is_read_again() {
    let (mut tail, mut p) = following();
    tail.step(&mut p, newest("WoWCombatLog.txt"), at(1));
    let turn = tail.step(&mut p, read(&[], 10, 3), at(2));
    assert_eq!(turn.note.unwrap().message, "Log truncated \u{2014} reading from the beginning");
    assert!(matches!(turn.action, TailAction::FindNewest));
    let turn = tail.step(&mut p, newest("WoWCombatLog.txt"), at(3));
    assert!(matches!(turn.action, TailAction::ReadChunk { offset: 0, .. }));
}

#[test]
fn a_silent_log_is_flushed_once() {
    let (mut tail, mut p) = following();
    tail.step(&mut p, newest("WoWCombatLog.txt"), at(1));
    let turn = tail.step(&mut p, read(&[], 10, 12), at(IDLE_THRESHOLD));
    assert!(matches!(turn.action, TailAction::Sleep));
    tail.step(&mut p, TailEvent::Slept, at(IDLE_THRESHOLD));
    tail.step(&mut p, newest("WoWCombatLog.txt"), at(IDLE_THRESHOLD));
    let turn = tail.step(&mut p, read(&[], 10, 12), at(IDLE_THRESHOLD + 1));
    assert!(matches!(turn.action, TailAction::UploadPart { push_fight: true, .. }));
    let note = turn.note.unwrap();
    assert_eq!(
        (note.state, note.message.as_str()),
        ("idle", "Log idle \u{2014} flushing current fight")
    );
    assert!(matches!(tail.step(&mut p, TailEvent::Uploaded, at(0)).action, TailAction::Sleep));
    tail.step(&mut p, TailEvent::Slept, at(0));
    tail.step(&mut p, newest("WoWCombatLog.txt"), at(0));
    let turn = tail.step(&mut p, read(&[], 10, 12), at(9 * IDLE_THRESHOLD));
    assert!(matches!(turn.action, TailAction::Sleep));
}

#[test]
fn a_stop_drains_and_flushes() {
    let (mut tail, mut p) = following();
    tail.step(&mut p, newest("WoWCombatLog.txt"), at(1));
    tail.step(&mut p, read(&["b"], 20, 60), at(2));
    let turn = tail.step(&mut p, TailEvent::Uploaded, stop(3));
    assert!(matches!(turn.action, TailAction::FileSize { file } if file == "WoWCombatLog.txt"));
    let turn = tail.step(&mut p, TailEvent::Size(60), stop(4));
    assert_eq!(turn.note.unwrap().message, "Stopping \u{2014} reading the rest of the log...");
    assert!(matches!(turn.action, TailAction::ReadChunk { offset: 20, .. }));
    let turn = tail.step(&mut p, read(&["c"], 60, 70), stop(5));
    assert!(matches!(turn.action, TailAction::UploadPart { push_fight: false, .. }));
    let turn = tail.step(&mut p, TailEvent::Uploaded, stop(6));
    assert_eq!(turn.note.unwrap().message, "Stopping \u{2014} flushing final data...");
    match turn.action {
        TailAction::UploadPart { lines, push_fight } => assert!(lines.is_empty() && push_fight),
        _ => panic!("not flushed"),
    }
    let turn = tail.step(&mut p, TailEvent::UploadFailed, stop(7));
    assert!(matches!(turn.action, TailAction::End { ok: true }));
    assert!(!tail.accepts(&TailEvent::Slept));
}

#[test]
fn a_failed_upload_breaks_off() {
    let (mut tail, mut p) = following();
    tail.step(&mut p, newest("WoWCombatLog.txt"), at(1));
    tail.step(&mut p, read(&["b"], 20, 60), at(2));
    let turn = tail.step(&mut p, TailEvent::UploadFailed, at(3));
    assert!(matches!(turn.action, TailAction::End { ok: false }));
}

#[test]
fn an_unreadable_log_is_tried_again() {
    let (mut tail, mut p) = following();
    tail.step(&mut p, newest("WoWCombatLog.txt"), at(1));
    assert!(tail.accepts(&TailEvent::ReadFailed));
    let turn = tail.step(&mut p, TailEvent::ReadFailed, at(2));
    assert!(matches!(turn.action, TailAction::Sleep));
}

#[test]
fn a_stop_before_any_log_only_flushes() {
    let p = LiveProgress::new();
    let (_, turn) = Tail::begin(&p, stop(0));
    assert!(matches!(turn.action, TailAction::UploadPart { push_fight: true, .. }));
}

fn args(whole_file: bool) -> LiveLogArgs {
    LiveLogArgs {
        directory: "/logs".to_string(),
        email: "e".to_string(),
        password: "p".to_string(),
        region: 1,
        visibility: 2,
        guild_id: None,
        include_entire_file_in_report: whole_file,
        enable_real_time_uploading: false,
        game: String::new(),
    }
}

#[test]
fn a_missing_directory_is_refused() {
    let (_, turn) = LiveSession::begin(&args(true), false, &LiveProgress::new());
    assert!(matches!(turn.action, LiveAction::Refuse { message } if message == "not a directory: /logs"));
}

#[test]
fn a_live_log_runs_to_its_end() {
    let p = LiveProgress { file: None, segments: 3, in_progress: false };
    let (mut live, turn) = LiveSession::begin(&args(false), true, &p);
    assert!(matches!(turn.action, LiveAction::OpenSession { game } if game == "warcraft"));
    assert!(matches!(live.step(&p, LiveEvent::SessionOpened).action, LiveAction::Login));
    let turn = live.step(&p, LiveEvent::LoggedIn("Uther".to_string()));
    assert_eq!(turn.notices.len(), 2);
    assert!(matches!(&turn.notices[0], Notice::Progress(n) if n.message == "Logged in as Uther"));
    assert!(matches!(live.step(&p, LiveEvent::ParserFetched).action, LiveAction::LocateHarness));
    assert!(matches!(live.step(&p, LiveEvent::HarnessLocated).action, LiveAction::SpawnParser));
    assert!(matches!(live.step(&p, LiveEvent::Spawned).action, LiveAction::ClearState));
    let turn = live.step(&p, LiveEvent::StateCleared(777));
    assert!(matches!(turn.action, LiveAction::CreateReport { start_ms: 777 }));
    let turn = live.step(&p, LiveEvent::Created("Q".to_string()));
    assert!(matches!(turn.action, LiveAction::SetLiveStart { start_ms: 777 }));
    assert!(matches!(&turn.notices[0], Notice::Started { code, url }
        if code == "Q" && url == "https://www.warcraftlogs.com/reports/Q"));
    assert!(matches!(&turn.notices[1], Notice::Progress(n) if n.message == "Live report created: Q"));
    assert!(matches!(live.step(&p, LiveEvent::StartSet).action, LiveAction::Tail { code } if code == "Q"));
    assert!(matches!(live.step(&p, LiveEvent::TailEnded).action, LiveAction::CloseParser));
    assert!(!live.accepts(&LiveEvent::Failed(String::new())));
    let turn = live.step(&p, LiveEvent::Closed);
    assert!(matches!(turn.action, LiveAction::TerminateReport { code } if code == "Q"));
    let turn = live.step(&p, LiveEvent::Failed("gone".to_string()));
    assert!(matches!(turn.action, LiveAction::Finish { ok: true }));
    assert!(matches!(&turn.notices[0], Notice::Progress(n) if n.state == "error"
        && n.message == "Report Q could not be finalized on the server: gone"));
    assert!(matches!(&turn.notices[1], Notice::Done { code, segments: 3, .. } if code == "Q"));
}

#[test]
fn a_report_is_told_on_its_own_site() {
    let mut ff = args(true);
    ff.game = "ff".to_string();
    let p = LiveProgress::new();
    let (mut live, turn) = LiveSession::begin(&ff, true, &p);
    assert!(matches!(turn.action, LiveAction::OpenSession { game } if game == "ff"));
    live.step(&p, LiveEvent::SessionOpened);
    live.step(&p, LiveEvent::LoggedIn("x".to_string()));
    live.step(&p, LiveEvent::ParserFetched);
    live.step(&p, LiveEvent::HarnessLocated);
    live.step(&p, LiveEvent::Spawned);
    live.step(&p, LiveEvent::StateCleared(1));
    let turn = live.step(&p, LiveEvent::Created("Z".to_string()));
    assert!(matches!(&turn.notices[0], Notice::Started { url, .. }
        if url == "https://www.fflogs.com/reports/Z"));
    live.step(&p, LiveEvent::TailEnded);
    live.step(&p, LiveEvent::Closed);
    let turn = live.step(&p, LiveEvent::Terminated);
    assert!(matches!(&turn.notices[0], Notice::Done { url, .. }
        if url == "https://www.fflogs.com/reports/Z"));
}

/// Follows `file`, which has grown to each of these sizes when it is read, until a stop at the
/// last of them; lists what was uploaded.
fn follow(file: &[u8], sizes: &[u64]) -> Vec<String> {
    let mut p = LiveProgress::new();
    let (mut tail, mut turn) = Tail::begin(&p, at(0));
    let mut got = Vec::new();
    let mut reads = 0;
    loop {
        let size = sizes[reads.min(sizes.len() - 1)];
        let event = match turn.action {
            TailAction::FindNewest => newest("WoWCombatLog.txt"),
            TailAction::Sleep => TailEvent::Slept,
            TailAction::ReadChunk { offset, .. } => {
                reads += 1;
                let n = bytes_to_read(offset, size) as usize;
                let from = offset as usize;
                TailEvent::Read(chunk_of(&file[from..from + n], offset, size))
            }
            TailAction::UploadPart { lines, .. } => {
                got.extend(lines);
                TailEvent::Uploaded
            }
            TailAction::FileSize { .. } => TailEvent::Size(size),
            TailAction::SetStartDate { .. } => TailEvent::DateSet,
            TailAction::End { ok } => {
                assert!(ok);
                return got;
            }
        };
        assert!(tail.accepts(&event));
        let moment = Moment { stop: reads >= sizes.len(), now: 0 };
        turn = tail.step(&mut p, event, moment);
    }
}

#[test]
fn a_stop_leaves_no_complete_line() {
    let mut file = Vec::new();
    let mut want = Vec::new();
    for i in 0..12_000 {
        file.extend_from_slice(format!("line {i}\n").as_bytes());
        want.push(format!("line {i}"));
    }
    file.extend_from_slice(b"half a line");
    let size = file.len() as u64;
    assert_eq!(follow(&file, &[0, 100, 103, 103, size]), want);
}

#[test]
fn a_log_is_read_up_before_it_is_left() {
    let one = b"a\nb\nc\nrest";
    let two = b"x\ny\n";
    let mut p = LiveProgress::new();
    let (mut tail, mut turn) = Tail::begin(&p, at(0));
    let mut got = Vec::new();
    let mut searches = 0;
    let mut left_at = 0;
    loop {
        let event = match turn.action {
            TailAction::FindNewest => {
                searches += 1;
                if searches == 1 {
                    newest("WoWCombatLog-1.txt")
                } else {
                    newest("WoWCombatLog-2.txt")
                }
            }
            TailAction::ReadChunk { file, offset } => {
                let log: &[u8] = if file == "WoWCombatLog-1.txt" { one } else { two };
                // the first read sees only the first line
                let size = if got.is_empty() { 2 } else { log.len() as u64 };
                let n = bytes_to_read(offset, size) as usize;
                let from = offset as usize;
                TailEvent::Read(chunk_of(&log[from..from + n], offset, size))
            }
            TailAction::UploadPart { lines, .. } => {
                if lines.first().map(|l| l == "x").unwrap_or(false) {
                    left_at = got.len();
                }
                got.extend(lines);
                TailEvent::Uploaded
            }
            TailAction::Sleep => break,
            _ => panic!("unexpected"),
        };
        turn = tail.step(&mut p, event, at(0));
    }
    assert_eq!(got, vec!["a", "b", "c", "x", "y"]);
    assert_eq!(left_at, 3);
}

#[test]
fn a_live_log_is_cleaned_up_after_a_failure() {
    let p = LiveProgress::new();
    let (mut live, _) = LiveSession::begin(&args(true), true, &p);
    live.step(&p, LiveEvent::SessionOpened);
    live.step(&p, LiveEvent::LoggedIn("x".to_string()));
    live.step(&p, LiveEvent::ParserFetched);
    live.step(&p, LiveEvent::HarnessLocated);
    live.step(&p, LiveEvent::Spawned);
    live.step(&p, LiveEvent::StateCleared(1));
    let turn = live.step(&p, LiveEvent::Created("Z".to_string()));
    assert!(matches!(turn.action, LiveAction::Tail { .. }));
    let turn = live.step(&p, LiveEvent::Failed("broken".to_string()));
    assert!(matches!(turn.action, LiveAction::CloseParser));
    let turn = live.step(&p, LiveEvent::Closed);
    assert!(matches!(turn.action, LiveAction::TerminateReport { .. }));
    let turn = live.step(&p, LiveEvent::Terminated);
    assert!(matches!(turn.action, LiveAction::Finish { ok: false }));
    assert!(turn.notices.is_empty());
}

#[test]
fn a_failure_before_the_parser_ends_at_once() {
    let p = LiveProgress::new();
    let (mut live, _) = LiveSession::begin(&args(true), true, &p);
    let turn = live.step(&p, LiveEvent::Failed("offline".to_string()));
    assert!(matches!(turn.action, LiveAction::Finish { ok: false }));
}

#[test]
fn times_are_in_milliseconds() {
    assert_eq!(now_ms(Some(1_700_000_000_123)), 1_700_000_000_123);
    assert_eq!(now_ms(None), 0);
    assert_eq!(now_ms(Some(u128::from(u64::MAX))), -1);
    let mut named = args(true);
    named.game = "eso".to_string();
    assert_eq!(named.game_id(), "eso");
}
