use combatlog::fights::build_fights_string;
use combatlog::fights::build_master_string;
use combatlog::fights::event_total;
use combatlog::fights::fights_empty;
use combatlog::fights::in_progress_events;
use combatlog::fights::master_ids;
use combatlog::fights::FightData;
use combatlog::game::games;
use combatlog::json::Json;
use combatlog::json::Reply;
use combatlog::log_file::date_of_groups;
use combatlog::log_file::found_log;
use combatlog::log_file::is_log_file;
use combatlog::log_file::newest_log;
use combatlog::log_file::parse_start_date;
use combatlog::log_file::Entry;
use combatlog::log_file::EntryInfo;
use combatlog::log_file::MAX_FILE_AGE;
use combatlog::overlay::after_register;
use combatlog::overlay::hotkey_answer;
use combatlog::overlay::on_hotkey;
use combatlog::overlay::plan_hotkey;
use combatlog::overlay::AfterRegister;
use combatlog::overlay::HotkeyEnd;
use combatlog::overlay::HotkeyPlan;
use combatlog::overlay::WindowStep;
use combatlog::parser_page::page_from;
use combatlog::parser_page::read_parser_page;
use combatlog::parser_page::PageError;
use combatlog::sidecar::bootstrap_line;
use combatlog::sidecar::check_ok;
use combatlog::sidecar::check_ready;
use combatlog::sidecar::check_ready_reply;
use combatlog::sidecar::read_reply;
use combatlog::sidecar::command_line;
use combatlog::sidecar::Command;
use combatlog::sidecar::NotReady;

fn json(text: &str) -> Json {
    match Json::read(text) {
        Ok(v) => v,
        Err(e) => panic!("{e}"),
    }
}

#[test]
fn start_dates_are_parsed() {
    assert_eq!(
        parse_start_date("WoWCombatLog-041225_203000.txt"),
        Some("4/12/2025".to_string())
    );
    assert_eq!(
        parse_start_date("old WoWCombatLog-x WoWCombatLog-123100_"),
        Some("12/31/2000".to_string())
    );
    assert_eq!(parse_start_date("WoWCombatLog.txt"), None);
    assert_eq!(parse_start_date("WoWCombatLog-0412_203000.txt"), None);
    assert_eq!(parse_start_date("WoWCombatLog-0412256_203000.txt"), None);
    assert_eq!(parse_start_date("wowcombatlog-041225_203000.txt"), None);
    assert_eq!(parse_start_date(""), None);
}

#[test]
fn digits_of_other_scripts_are_no_date() {
    let odd = "WoWCombatLog-\u{664}\u{661}1225_.txt";
    assert_eq!(parse_start_date(odd), None);
}

#[test]
fn captured_groups_spell_a_date() {
    let some = |s: &str| Some(s.to_string());
    assert_eq!(
        date_of_groups(&vec![some("x"), some("01"), some("02"), some("03")]),
        some("1/2/2003")
    );
    assert_eq!(date_of_groups(&vec![some("x"), some("01"), None, some("03")]), None);
    assert_eq!(date_of_groups(&vec![some("x"), some("01"), some("q"), some("03")]), None);
    assert_eq!(date_of_groups(&vec![]), None);
}

#[test]
fn found_logs_tell_their_date() {
    let found = found_log("WoWCombatLog-010224_1.txt".to_string());
    assert_eq!(found.name, "WoWCombatLog-010224_1.txt");
    assert_eq!(found.date.as_deref(), Some("1/2/2024"));
}

#[test]
fn log_files_are_told_apart() {
    assert!(is_log_file("WoWCombatLog.txt"));
    assert!(is_log_file("WoWCombatLog-041225_203000.txt"));
    assert!(is_log_file("WoWCombatLog\u{e9}.txt"));
    assert!(!is_log_file("WoWCombatLog.txt.bak"));
    assert!(!is_log_file("xWoWCombatLog.txt"));
    assert!(!is_log_file("WoWCombatLog\n.txt"));
    assert!(!is_log_file("WoWCombatLogtxt"));
    assert!(!is_log_file("WoWCombatLog.txt\n"));
}

fn entry(name: &str, modified: i128, age: Option<u128>) -> Entry {
    Entry {
        name: Some(name.to_string()),
        info: Some(EntryInfo { is_file: true, modified: Some(modified), age }),
    }
}

#[test]
fn the_newest_fresh_log_is_found() {
    assert_eq!(newest_log(&vec![]), None);
    let entries = vec![
        Entry { name: None, info: None },
        entry("notes.txt", 900, Some(1)),
        entry("WoWCombatLog-1.txt", 10, Some(90)),
        entry("WoWCombatLog-2.txt", 30, Some(70)),
        entry("WoWCombatLog-3.txt", 30, Some(70)),
        entry("WoWCombatLog-4.txt", 99, Some(MAX_FILE_AGE + 1)),
        Entry { name: Some("WoWCombatLog-5.txt".to_string()), info: None },
        Entry {
            name: Some("WoWCombatLog-6.txt".to_string()),
            info: Some(EntryInfo { is_file: false, modified: Some(500), age: Some(1) }),
        },
        Entry {
            name: Some("WoWCombatLog-7.txt".to_string()),
            info: Some(EntryInfo { is_file: true, modified: None, age: None }),
        },
    ];
    assert_eq!(newest_log(&entries), Some(3));
    assert_eq!(newest_log(&vec![entry("WoWCombatLog.txt", -5, Some(MAX_FILE_AGE))]), Some(0));
    assert_eq!(
        newest_log(&vec![entry("WoWCombatLog.txt", 5, Some(0)), entry("WoWCombatLog2.txt", 9, None)]),
        Some(1)
    );
}

#[test]
fn master_tables_are_built() {
    let m = json(
        "{\"lastAssignedActorID\": 4, \"actorsString\": \"a\\nb\\n\\n\", \"lastAssignedAbilityID\": 5, \
         \"abilitiesString\": \"\", \"lastAssignedTupleID\": \"x\", \"tuplesString\": \"t\", \
         \"petsString\": \"\\n\"}",
    );
    assert_eq!(master_ids(&m), (4, 5, 0, 0));
    assert_eq!(build_master_string(&m, 22, 1), "22|1|\n4\na\nb\n5\n0\nt\n0\n\n");
    assert_eq!(build_master_string(&json("{}"), 0, -1), "0|-1|\n0\n0\n0\n0\n");
}

#[test]
fn fights_are_joined() {
    let fd = json(
        "{\"logVersion\": 22, \"gameVersion\": 3, \"startTime\": 100, \"endTime\": 200, \
         \"mythic\": 4294967297, \"fights\": [{\"eventCount\": 2, \"eventsString\": \"x\\n\"}, \
         {\"eventCount\": \"no\", \"eventsString\": \"y\\n\"}, {\"eventCount\": 40}]}",
    );
    assert!(!fights_empty(&fd));
    assert_eq!(event_total(&fd), Some(42));
    assert_eq!(in_progress_events(&fd), 2);
    assert_eq!(build_fights_string(&fd), "22|3\n42\nx\ny\n");
    let data = FightData::of(&fd).unwrap();
    assert_eq!((data.log_version, data.game_version), (22, 3));
    assert_eq!((data.start_time, data.end_time, data.mythic), (100, 200, 1));
    assert_eq!((data.events, data.text.as_str()), (42, "22|3\n42\nx\ny\n"));
}

#[test]
fn no_fights_are_no_events() {
    for text in ["{}", "{\"fights\": []}", "{\"fights\": 3}", "[]"] {
        assert!(fights_empty(&json(text)));
        assert_eq!(event_total(&json(text)), Some(0));
        assert_eq!(in_progress_events(&json(text)), 0);
        assert_eq!(build_fights_string(&json(text)), "0|0\n0\n");
    }
}

#[test]
fn too_many_events_cannot_be_counted() {
    let fd = json(
        "{\"fights\": [{\"eventCount\": 9223372036854775807}, {\"eventCount\": 1}]}",
    );
    assert_eq!(event_total(&fd), None);
    assert!(FightData::of(&fd).is_none());
}

const PAGE: &str = "<html><script type=\"x\">\n let a; window.gameContentTypes = {};\n</script>\
    <script>const parserVersion = 61;</script>\
    <script src=\"https://assets.rpglogs.com/js/parser-ff.1.js\"></script>\
    <script src=\"https://assets.rpglogs.com/js/v2/log-a/parser-warcraft.abc.js\"></script></html>";

#[test]
fn parser_pages_are_read() {
    let page = match read_parser_page(PAGE, "warcraft") {
        Ok(p) => p,
        Err(_) => panic!("unreadable"),
    };
    assert_eq!(page.gamedata_code, "let a; window.gameContentTypes = {};");
    assert_eq!(
        page.parser_url,
        "https://assets.rpglogs.com/js/v2/log-a/parser-warcraft.abc.js"
    );
    assert_eq!(page.parser_version, 61);
    let bundle = page.with_code("code".to_string());
    assert_eq!(bundle.gamedata_code, "let a; window.gameContentTypes = {};");
    assert_eq!(bundle.parser_code, "code");
    assert_eq!(bundle.parser_version, 61);
}

#[test]
fn any_parser_will_do() {
    match read_parser_page(PAGE, "swtor") {
        Ok(p) => assert_eq!(p.parser_url, "https://assets.rpglogs.com/js/parser-ff.1.js"),
        Err(_) => panic!("unreadable"),
    }
}

#[test]
fn every_site_finds_its_own_parser() {
    for g in games() {
        let html = format!(
            "src=\"https://assets.rpglogs.com/js/parser-other.js\" \
             src=\"https://assets.rpglogs.com/js/a/parser-{}-1.js\"",
            g.parser_slug
        );
        match read_parser_page(&html, g.parser_slug) {
            Ok(p) => assert_eq!(
                p.parser_url,
                format!("https://assets.rpglogs.com/js/a/parser-{}-1.js", g.parser_slug)
            ),
            Err(_) => panic!("unreadable"),
        }
    }
}

#[test]
fn slugs_are_taken_literally() {
    let html = "src=\"https://assets.rpglogs.com/js/parser-axb1.js\" \
                src=\"https://assets.rpglogs.com/js/parser-a.b2.js\"";
    match read_parser_page(html, "a.b") {
        Ok(p) => {
            assert_eq!(p.parser_url, "https://assets.rpglogs.com/js/parser-a.b2.js");
            assert_eq!(p.gamedata_code, "");
            assert_eq!(p.parser_version, 59);
        }
        Err(_) => panic!("unreadable"),
    }
}

#[test]
fn a_page_without_parser_is_refused() {
    match read_parser_page("<html>", "ff") {
        Err(PageError::NoParser(m)) => {
            assert_eq!(m, "parser script URL not found in parser page (6 bytes): <html>")
        }
        _ => panic!("accepted"),
    }
}

#[test]
fn captures_make_a_page() {
    let some = |s: &str| Some(vec![Some("all".to_string()), Some(s.to_string())]);
    match page_from("h", &some(" g "), &some("own"), &some("any"), &some("99999999999")) {
        Ok(p) => {
            assert_eq!(p.gamedata_code, "g");
            assert_eq!(p.parser_url, "own");
            assert_eq!(p.parser_version, 59);
        }
        Err(_) => panic!("refused"),
    }
    match page_from("h", &None, &None, &some("any"), &some("12")) {
        Ok(p) => assert_eq!((p.parser_url.as_str(), p.parser_version), ("any", 12)),
        Err(_) => panic!("refused"),
    }
    assert!(matches!(page_from("h", &None, &None, &None, &None), Err(PageError::NoParser(_))));
}

#[test]
fn commands_are_one_line_each() {
    assert_eq!(Command::ClearState.line(), "{\"action\":\"clear-state\"}\n");
    assert_eq!(
        Command::SetStartDate("1/2/2025".to_string()).line(),
        "{\"action\":\"set-start-date\",\"startDate\":\"1/2/2025\"}\n"
    );
    assert_eq!(
        Command::ParseLines { lines: vec!["a\"b".to_string(), "c".to_string()], region: 2 }.line(),
        "{\"action\":\"parse-lines\",\"lines\":[\"a\\\"b\",\"c\"],\"selectedRegion\":2}\n"
    );
    assert_eq!(
        Command::CollectFights { push_fight: true }.line(),
        "{\"action\":\"collect-fights\",\"pushFightIfNeeded\":true,\"scanningOnly\":false}\n"
    );
    assert_eq!(Command::CollectMasterInfo.line(), "{\"action\":\"collect-master-info\"}\n");
    assert_eq!(Command::ClearFights.line(), "{\"action\":\"clear-fights\"}\n");
    assert_eq!(
        bootstrap_line("g\n", "p"),
        "{\"gamedataCode\":\"g\\n\",\"parserCode\":\"p\"}\n"
    );
}

#[test]
fn a_command_holds_one_line_feed() {
    let lines = vec!["a\nb\r\n".to_string(), "\u{1}".to_string()];
    let line = Command::ParseLines { lines, region: 1 }.line();
    assert_eq!(line.matches('\n').count(), 1);
    assert!(line.ends_with("}\n"));
    assert_eq!(command_line("{}".to_string()), "{}\n");
}

#[test]
fn replies_are_checked() {
    assert_eq!(check_ok(&json("{\"ok\": true}")), Ok(()));
    assert_eq!(
        check_ok(&json("{\"ok\": false, \"error\": \"boom\"}")),
        Err("parser error: boom".to_string())
    );
    assert_eq!(check_ok(&json("{\"ok\": 1}")), Err("parser error: unknown error".to_string()));
    assert!(read_reply("{\"ok\": true}").is_ok());
    match read_reply("oops") {
        Ok(_) => panic!("read"),
        Err(e) => assert_eq!(e.context, "parser emitted non-JSON: oops"),
    }
}

#[test]
fn readiness_is_checked() {
    assert!(check_ready("{\"ready\": true}").is_ok());
    match check_ready("{\"ready\": false, \"why\": 1}") {
        Err(NotReady::Failed(m)) => {
            assert_eq!(m, "parser bootstrap failed: {\"ready\":false,\"why\":1}")
        }
        _ => panic!("ready"),
    }
    match check_ready("oops") {
        Err(NotReady::NotJson(e)) => assert_eq!(e.context, "parser emitted non-JSON: oops"),
        _ => panic!("ready"),
    }
    let reply = match Reply::read("{}") {
        Ok(r) => r,
        Err(e) => panic!("{e}"),
    };
    assert!(check_ready_reply(&reply).is_err());
}

#[test]
fn hotkeys_toggle_the_window() {
    assert!(matches!(on_hotkey(true, true, true), WindowStep::Hide));
    assert!(matches!(on_hotkey(true, true, false), WindowStep::Show));
    assert!(matches!(on_hotkey(false, true, true), WindowStep::Nothing));
    assert!(matches!(on_hotkey(true, false, true), WindowStep::Nothing));
}

#[test]
fn hotkeys_are_changed() {
    assert!(matches!(plan_hotkey(false, true, false), HotkeyPlan::Refuse));
    assert!(matches!(plan_hotkey(true, true, true), HotkeyPlan::Keep));
    assert!(matches!(
        plan_hotkey(true, true, false),
        HotkeyPlan::Register { release_previous: true }
    ));
    assert!(matches!(
        plan_hotkey(true, false, false),
        HotkeyPlan::Register { release_previous: false }
    ));
    assert!(matches!(after_register(false, true), AfterRegister::KeepStored));
    assert!(matches!(
        after_register(true, true),
        AfterRegister::StoreNew { release_previous: true }
    ));
    assert!(matches!(
        after_register(true, false),
        AfterRegister::StoreNew { release_previous: false }
    ));
    let key = || "Ctrl+K".to_string();
    assert_eq!(hotkey_answer(key(), HotkeyEnd::Current), Ok(key()));
    assert_eq!(
        hotkey_answer(key(), HotkeyEnd::Unreadable("no key".to_string())),
        Err("invalid hotkey: no key".to_string())
    );
    assert_eq!(
        hotkey_answer(key(), HotkeyEnd::NotRegistered("taken".to_string())),
        Err("taken".to_string())
    );
}
